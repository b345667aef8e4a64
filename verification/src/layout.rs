use vstd::prelude::*;

use crate::err::Error;

verus! {

/// Largest padded size the layout computation accepts, matching the rule
/// that a well-formed allocation layout never exceeds `isize::MAX` bytes.
pub const MAX_LAYOUT_SIZE: usize = usize::MAX / 2;

/// A page-aligned, page-padded memory layout: a region of `size` bytes whose
/// base address must be aligned to `align`. A valid layout covers a whole
/// number of pages, so page-protection syscalls apply to exactly this region.
#[derive(Clone, Copy, Debug, PartialEq, Eq, Structural)]
pub struct PageLayout {
    pub size: usize,
    pub align: usize,
}

/// Whether `n` is a power of two (in particular, nonzero).
pub open spec fn is_pow2(n: usize) -> bool {
    n != 0 && (n & ((n - 1) as usize)) == 0
}

/// `size` rounded up to the next multiple of `align`.
pub open spec fn round_up(size: int, align: int) -> int
    recommends
        align > 0,
        size >= 0,
{
    if size % align == 0 {
        size
    } else {
        size + align - size % align
    }
}

/// The alignment of the padded region: the stricter of the value's own
/// alignment and the page size.
pub open spec fn region_align(align: int, page: int) -> int {
    if align > page {
        align
    } else {
        page
    }
}

/// Whether a (size, align, page) request yields a valid padded layout:
/// both alignments are powers of two and padding cannot overflow the
/// maximum layout size.
pub open spec fn layout_fits(size: usize, align: usize, page: usize) -> bool {
    &&& is_pow2(align)
    &&& is_pow2(page)
    &&& size + region_align(align as int, page as int) - 1 <= MAX_LAYOUT_SIZE
}

/// The layout produced for a valid (size, align, page) request.
pub open spec fn page_layout_for(size: usize, align: usize, page: usize) -> PageLayout {
    let a = region_align(align as int, page as int);
    PageLayout { size: round_up(size as int, a) as usize, align: a as usize }
}

impl PageLayout {
    /// A well-formed layout: power-of-two alignment, size a whole multiple of
    /// the alignment, and size within the accepted bound.
    pub open spec fn wf(self) -> bool {
        &&& is_pow2(self.align)
        &&& self.size as int % self.align as int == 0
        &&& self.size <= MAX_LAYOUT_SIZE
    }
}

/// Rounding up lands on a multiple of `align`, moves by less than one
/// `align`, and never moves down.
pub proof fn lemma_round_up_props(size: int, align: int)
    requires
        align > 0,
        size >= 0,
    ensures
        round_up(size, align) % align == 0,
        size <= round_up(size, align) < size + align,
{
    let r = size % align;
    vstd::arithmetic::div_mod::lemma_mod_division_less_than_divisor(size, align);
    if r != 0 {
        assert((size + align - r) % align == 0) by (nonlinear_arith)
            requires
                align > 0,
                size >= 0,
                r == size % align,
                0 < r < align,
        ;
    }
}

/// Computes the page-aligned, page-padded layout for a value of `size` bytes
/// and alignment `align`, on a platform whose page size is `page`.
///
/// The request succeeds exactly when both alignments are powers of two and
/// the padded size stays within bounds; any other input is rejected with
/// `Error::LayoutError` rather than by panicking.
pub fn compute_layout(size: usize, align: usize, page: usize) -> (r: Result<PageLayout, Error>)
    ensures
        r is Ok <==> layout_fits(size, align, page),
        r is Ok ==> r->Ok_0 == page_layout_for(size, align, page),
        r is Ok ==> r->Ok_0.wf() && r->Ok_0.size >= size && r->Ok_0.align >= page,
        r is Err ==> r->Err_0 == Error::LayoutError,
{
    if align == 0 || (align & (align - 1)) != 0 {
        return Err(Error::LayoutError);
    }
    if page == 0 || (page & (page - 1)) != 0 {
        return Err(Error::LayoutError);
    }
    let a: usize = if align > page { align } else { page };
    let padded_bound: u128 = size as u128 + (a as u128 - 1);
    if padded_bound > MAX_LAYOUT_SIZE as u128 {
        return Err(Error::LayoutError);
    }
    let rem: usize = size % a;
    let padded: usize = if rem == 0 { size } else { size + (a - rem) };
    proof {
        lemma_round_up_props(size as int, a as int);
    }
    Ok(PageLayout { size: padded, align: a })
}

} // verus!
