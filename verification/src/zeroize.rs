use vstd::prelude::*;

verus! {

/// Writes zero into every byte of `region` in `[start, end)`, leaving every
/// other byte unchanged.
fn zero_range(region: &mut Vec<u8>, start: usize, end: usize)
    requires
        start <= end,
        end <= old(region)@.len(),
    ensures
        final(region)@.len() == old(region)@.len(),
        forall|i: int| start <= i < end ==> final(region)@[i] == 0u8,
        forall|i: int|
            0 <= i < old(region)@.len() && !(start <= i < end) ==> final(region)@[i] == old(
                region,
            )@[i],
{
    let mut j: usize = start;
    while j < end
        invariant
            start <= j <= end,
            end <= region@.len(),
            region@.len() == old(region)@.len(),
            forall|i: int| start <= i < j ==> region@[i] == 0u8,
            forall|i: int|
                0 <= i < region@.len() && !(start <= i < j) ==> region@[i] == old(region)@[i],
        decreases end - j,
    {
        region[j] = 0u8;
        j = j + 1;
    }
}

/// Overwrites every byte of `region` with zero.
///
/// The sweep walks the region in descending chunk sizes purely for
/// throughput in the real container; the chunk boundaries carry no meaning,
/// and together the chunks cover every byte exactly once.
pub fn zeroize_bytes(region: &mut Vec<u8>)
    ensures
        final(region)@.len() == old(region)@.len(),
        forall|i: int| 0 <= i < final(region)@.len() ==> final(region)@[i] == 0u8,
{
    let len: usize = region.len();
    let mut done: usize = 0;
    while len - done >= 4096
        invariant
            done <= len,
            region@.len() == len,
            region@.len() == old(region)@.len(),
            forall|i: int| 0 <= i < done ==> region@[i] == 0u8,
        decreases len - done,
    {
        zero_range(region, done, done + 4096);
        done = done + 4096;
    }
    while len - done >= 512
        invariant
            done <= len,
            region@.len() == len,
            region@.len() == old(region)@.len(),
            forall|i: int| 0 <= i < done ==> region@[i] == 0u8,
        decreases len - done,
    {
        zero_range(region, done, done + 512);
        done = done + 512;
    }
    while len - done >= 8
        invariant
            done <= len,
            region@.len() == len,
            region@.len() == old(region)@.len(),
            forall|i: int| 0 <= i < done ==> region@[i] == 0u8,
        decreases len - done,
    {
        zero_range(region, done, done + 8);
        done = done + 8;
    }
    zero_range(region, done, len);
}

} // verus!
