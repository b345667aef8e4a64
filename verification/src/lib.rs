//! A guarded in-memory container for secret values.
//!
//! The container pins a secret in page-aligned, page-padded memory that is
//! kept inaccessible except during an explicit, scoped access, and that is
//! zeroized before it is handed back to the allocator. This crate holds the
//! verified core of that design: the layout arithmetic, the protection and
//! guard state machine, and the zeroization sweep.

use vstd::prelude::*;

mod err;
mod layout;
mod state;
mod zeroize;

pub use err::Error;
pub use layout::compute_layout;
pub use layout::is_pow2;
pub use layout::layout_fits;
pub use layout::page_layout_for;
pub use layout::region_align;
pub use layout::round_up;
pub use layout::PageLayout;
pub use layout::MAX_LAYOUT_SIZE;
pub use state::destruction_run;
pub use state::is_run;
pub use state::lemma_destruction_order;
pub use state::lemma_destruction_run_valid;
pub use state::lemma_freed_is_terminal;
pub use state::lemma_guard_sequencing;
pub use state::lemma_last_release_restores_inaccessible;
pub use state::lemma_readable_iff_registered;
pub use state::lemma_release_keeps_readable;
pub use state::lemma_run_stage_monotone;
pub use state::lemma_stage_monotone;
pub use state::lemma_step_preserves_wf;
pub use state::lemma_teardown_exactly_once;
pub use state::teardown_edge;
pub use state::ContainerState;
pub use state::Prot;
pub use state::Stage;
pub use zeroize::zeroize_bytes;

verus! {

/// A guarded in-memory container for one secret value of type `T`.
///
/// This is the verified model of the container: the value, the padded
/// layout of its backing region, the region's bytes, and the protection
/// bookkeeping. The region's protection mode is tracked by the same state
/// machine that drives the page-protection requests of the real, raw-memory
/// container, and every access is only permitted while that mode allows it.
pub struct SensitiveData<T> {
    value: T,
    region: Vec<u8>,
    layout: PageLayout,
    state: ContainerState,
}

/// A type whose all-zero bit pattern is a valid value that safe code can
/// construct. Zero-initialized construction of a container is offered only
/// for such types; for any other type the all-zero pattern may not be a
/// valid value at all, and no such constructor exists here.
pub trait ZeroBits: Sized {
    /// The value whose representation is all zero bits.
    spec fn zero_spec() -> Self;

    /// Constructs the all-zero value.
    fn zero() -> (r: Self)
        ensures
            r == Self::zero_spec(),
    ;
}

impl ZeroBits for u8 {
    open spec fn zero_spec() -> u8 {
        0u8
    }

    fn zero() -> u8 {
        0u8
    }
}

impl ZeroBits for u16 {
    open spec fn zero_spec() -> u16 {
        0u16
    }

    fn zero() -> u16 {
        0u16
    }
}

impl ZeroBits for u32 {
    open spec fn zero_spec() -> u32 {
        0u32
    }

    fn zero() -> u32 {
        0u32
    }
}

impl ZeroBits for u64 {
    open spec fn zero_spec() -> u64 {
        0u64
    }

    fn zero() -> u64 {
        0u64
    }
}

impl ZeroBits for usize {
    open spec fn zero_spec() -> usize {
        0usize
    }

    fn zero() -> usize {
        0usize
    }
}

impl ZeroBits for i32 {
    open spec fn zero_spec() -> i32 {
        0i32
    }

    fn zero() -> i32 {
        0i32
    }
}

impl ZeroBits for i64 {
    open spec fn zero_spec() -> i64 {
        0i64
    }

    fn zero() -> i64 {
        0i64
    }
}

/// A shared read guard. Creation is free: the guard registers itself in the
/// container's reader count only on its first access (lazy activation), and
/// a guard that is released without ever having accessed the value leaves
/// the container untouched.
pub struct DerefHolder {
    registered: bool,
}

impl DerefHolder {
    /// Whether this guard has registered itself in the reader count.
    pub closed spec fn is_registered(self) -> bool {
        self.registered
    }
}

/// An exclusive write guard. At most one exists per container, which is a
/// precondition of its acquisition, not a runtime flag; while it is live no
/// shared reader is registered.
pub struct DerefMutHolder {}

impl<T> SensitiveData<T> {
    /// The guarded value.
    pub closed spec fn value_spec(self) -> T {
        self.value
    }

    /// The protection and guard bookkeeping.
    pub closed spec fn state_spec(self) -> ContainerState {
        self.state
    }

    /// The page-aligned, page-padded layout of the backing region.
    pub closed spec fn layout_spec(self) -> PageLayout {
        self.layout
    }

    /// The container invariant: live stage, well-formed bookkeeping, a
    /// well-formed layout, and a backing region of exactly the padded size,
    /// large enough to hold the value.
    pub closed spec fn wf(self) -> bool {
        &&& self.state.wf()
        &&& self.state.stage == Stage::Live
        &&& self.layout.wf()
        &&& self.region@.len() == self.layout.size
        &&& self.layout.size >= vstd::layout::size_of::<T>()
    }

    /// The layout a container of `T` will use on a platform with the given
    /// page size: `T`'s own size aligned up to the page size and padded to
    /// whole pages.
    pub fn layout(page_size: usize) -> (r: Result<PageLayout, Error>)
        ensures
            r is Ok <==> layout_fits(
                vstd::layout::size_of::<T>() as usize,
                vstd::layout::align_of::<T>() as usize,
                page_size,
            ),
            r is Ok ==> r->Ok_0 == page_layout_for(
                vstd::layout::size_of::<T>() as usize,
                vstd::layout::align_of::<T>() as usize,
                page_size,
            ),
            r is Ok ==> r->Ok_0.wf() && r->Ok_0.size >= vstd::layout::size_of::<T>(),
            r is Err ==> r->Err_0 == Error::LayoutError,
    {
        compute_layout(core::mem::size_of::<T>(), core::mem::align_of::<T>(), page_size)
    }

    /// Constructs a container holding `value`, on a platform with the given
    /// page size. Fails with `Error::LayoutError` exactly when the padded
    /// layout for `T` is invalid; on success the container is live, with no
    /// guard of either kind and the region inaccessible.
    pub fn new(value: T, page_size: usize) -> (r: Result<SensitiveData<T>, Error>)
        ensures
            r is Ok <==> layout_fits(
                vstd::layout::size_of::<T>() as usize,
                vstd::layout::align_of::<T>() as usize,
                page_size,
            ),
            r is Ok ==> ({
                let d = r->Ok_0;
                &&& d.wf()
                &&& d.value_spec() == value
                &&& d.layout_spec() == page_layout_for(
                    vstd::layout::size_of::<T>() as usize,
                    vstd::layout::align_of::<T>() as usize,
                    page_size,
                )
                &&& d.state_spec().readers == 0
                &&& !d.state_spec().writer
                &&& d.state_spec().prot == Prot::NoAccess
            }),
            r is Err ==> r->Err_0 == Error::LayoutError,
    {
        let l = match Self::layout(page_size) {
            Ok(l) => l,
            Err(e) => {
                return Err(e);
            },
        };
        let region = occupied_region(l.size);
        let mut st = ContainerState::fresh();
        let _act = st.populate();
        Ok(SensitiveData { value, region, layout: l, state: st })
    }

    /// Constructs a container holding the all-zero value of `T`, for types
    /// whose all-zero bit pattern is a valid value. Fails with
    /// `Error::LayoutError` exactly when the padded layout for `T` is
    /// invalid; on success a read observes a value every bit of which is
    /// zero.
    pub fn new_zeroed(page_size: usize) -> (r: Result<SensitiveData<T>, Error>) where
        T: ZeroBits,
        ensures
            r is Ok <==> layout_fits(
                vstd::layout::size_of::<T>() as usize,
                vstd::layout::align_of::<T>() as usize,
                page_size,
            ),
            r is Ok ==> ({
                let d = r->Ok_0;
                &&& d.wf()
                &&& d.value_spec() == T::zero_spec()
                &&& d.state_spec().readers == 0
                &&& !d.state_spec().writer
                &&& d.state_spec().prot == Prot::NoAccess
            }),
            r is Err ==> r->Err_0 == Error::LayoutError,
    {
        Self::new(T::zero(), page_size)
    }

    /// Hands out a new shared read guard. Always succeeds and touches
    /// neither the protection state nor the reader count: the guard is
    /// activated only by its first access.
    pub fn borrow(&self) -> (g: DerefHolder)
        ensures
            !g.is_registered(),
    {
        DerefHolder { registered: false }
    }

    /// First access through a shared read guard: registers the guard,
    /// incrementing the reader count, and on the zero-to-one edge makes the
    /// region readable (in the real container, the place of the
    /// read-protection syscall). A guard that is already registered changes
    /// nothing. Afterwards the region is readable in every case.
    pub fn register(&mut self, g: &mut DerefHolder)
        requires
            old(self).wf(),
            !old(self).state_spec().writer,
            old(g).is_registered() ==> old(self).state_spec().readers >= 1,
            !old(g).is_registered() ==> old(self).state_spec().readers < usize::MAX,
        ensures
            final(self).wf(),
            final(g).is_registered(),
            old(g).is_registered() ==> *final(self) == *old(self),
            !old(g).is_registered() ==> final(self).state_spec() == old(
                self,
            ).state_spec().spec_register_reader().0,
            final(self).state_spec().prot == Prot::ReadOnly,
            final(self).value_spec() == old(self).value_spec(),
            final(self).layout_spec() == old(self).layout_spec(),
    {
        if !g.registered {
            g.registered = true;
            let _act = self.state.register_reader();
        }
    }

    /// Access to the guarded value. The region must be readable (or
    /// writable): in the real container an access under no-access protection
    /// faults, so the model forbids it outright.
    pub fn get(&self) -> (v: &T)
        requires
            self.wf(),
            self.state_spec().prot != Prot::NoAccess,
        ensures
            *v == self.value_spec(),
    {
        &self.value
    }

    /// Release of a shared read guard. A guard that never registered is a
    /// no-op release: the container is left exactly as it was. A registered
    /// guard decrements the reader count, and the last one to release
    /// restores the region to inaccessible.
    pub fn release(&mut self, g: DerefHolder)
        requires
            old(self).wf(),
            g.is_registered() ==> old(self).state_spec().readers >= 1 && !old(
                self,
            ).state_spec().writer,
        ensures
            final(self).wf(),
            !g.is_registered() ==> *final(self) == *old(self),
            g.is_registered() ==> final(self).state_spec() == old(
                self,
            ).state_spec().spec_release_reader().0,
            final(self).value_spec() == old(self).value_spec(),
            final(self).layout_spec() == old(self).layout_spec(),
    {
        if g.registered {
            let _act = self.state.release_reader();
        }
    }

    /// Hands out the exclusive write guard. Exclusivity is the
    /// precondition: no registered reader and no other write guard may be
    /// outstanding. The acquisition itself performs no protection change.
    pub fn borrow_mut(&mut self) -> (g: DerefMutHolder)
        requires
            old(self).wf(),
            old(self).state_spec().readers == 0,
            !old(self).state_spec().writer,
        ensures
            final(self).wf(),
            final(self).state_spec() == old(self).state_spec().spec_acquire_writer(),
            final(self).state_spec().writer,
            final(self).state_spec().prot == Prot::NoAccess,
            final(self).value_spec() == old(self).value_spec(),
            final(self).layout_spec() == old(self).layout_spec(),
    {
        self.state.acquire_writer();
        DerefMutHolder {}
    }

    /// A shared access through the write guard: makes the region readable,
    /// unconditionally, after which the value may be read.
    pub fn expose_readable(&mut self, g: &DerefMutHolder)
        requires
            old(self).wf(),
            old(self).state_spec().writer,
        ensures
            final(self).wf(),
            final(self).state_spec() == old(self).state_spec().spec_writer_read().0,
            final(self).state_spec().prot == Prot::ReadOnly,
            final(self).value_spec() == old(self).value_spec(),
            final(self).layout_spec() == old(self).layout_spec(),
    {
        let _act = self.state.writer_read();
    }

    /// A mutable access through the write guard: makes the region writable,
    /// unconditionally, and replaces the guarded value with `value`,
    /// returning the previous value to the caller (its teardown stays the
    /// caller's decision, never this container's).
    pub fn write(&mut self, g: &DerefMutHolder, value: T) -> (prev: T)
        requires
            old(self).wf(),
            old(self).state_spec().writer,
        ensures
            final(self).wf(),
            final(self).state_spec() == old(self).state_spec().spec_writer_write().0,
            final(self).state_spec().prot == Prot::ReadWrite,
            final(self).value_spec() == value,
            prev == old(self).value_spec(),
            final(self).layout_spec() == old(self).layout_spec(),
    {
        let _act = self.state.writer_write();
        let mut incoming = value;
        core::mem::swap(&mut self.value, &mut incoming);
        incoming
    }

    /// Release of the exclusive write guard: makes the region inaccessible,
    /// unconditionally (there is exactly one write guard, so no counting is
    /// needed).
    pub fn release_mut(&mut self, g: DerefMutHolder)
        requires
            old(self).wf(),
            old(self).state_spec().writer,
        ensures
            final(self).wf(),
            final(self).state_spec() == old(self).state_spec().spec_release_writer().0,
            final(self).state_spec().prot == Prot::NoAccess,
            !final(self).state_spec().writer,
            final(self).state_spec().readers == 0,
            final(self).value_spec() == old(self).value_spec(),
            final(self).layout_spec() == old(self).layout_spec(),
    {
        let _act = self.state.release_writer();
    }

    /// Destruction, only from a quiescent state: makes the region writable,
    /// runs the value's own teardown (the value is dropped here, exactly
    /// once), then zeroizes every byte, and only then releases the region.
    /// The returned buffer is the region as the allocator receives it: the
    /// full padded size, every byte zero. The succession of bookkeeping
    /// states driven here is `destruction_run`, shown a permitted run of
    /// the machine by `lemma_destruction_run_valid`.
    pub fn destroy(self) -> (r: Vec<u8>)
        requires
            self.wf(),
            self.state_spec().readers == 0,
            !self.state_spec().writer,
        ensures
            r@.len() == self.layout_spec().size,
            forall|i: int| 0 <= i < r@.len() ==> r@[i] == 0u8,
    {
        let SensitiveData { value, mut region, layout: _, state } = self;
        let mut st = state;
        let _act = st.begin_destroy();
        let _torn_down = value;
        st.teardown_complete();
        zeroize_bytes(&mut region);
        st.zeroize_complete();
        st.deallocate();
        region
    }

    /// The number of currently registered shared read guards.
    pub fn reader_count(&self) -> (n: usize)
        ensures
            n == self.state_spec().readers,
    {
        self.state.readers
    }

    /// The protection mode the bookkeeping has established for the region.
    pub fn protection(&self) -> (p: Prot)
        ensures
            p == self.state_spec().prot,
    {
        self.state.prot
    }

    /// Asserts that no guard of either kind is outstanding. In the raw
    /// container this claim is the borrow discipline; here it is a verified
    /// precondition, and the call changes nothing.
    pub fn assert_no_borrows(&mut self)
        requires
            old(self).wf(),
            old(self).state_spec().readers == 0,
            !old(self).state_spec().writer,
        ensures
            *final(self) == *old(self),
    {
    }

    /// Asserts that no exclusive write guard is outstanding.
    pub fn assert_no_mut_borrows(&self)
        requires
            self.wf(),
            !self.state_spec().writer,
    {
    }
}

/// The model of freshly occupied storage: `n` bytes standing in for the
/// secret's raw bytes, whose concrete values the model does not track.
fn occupied_region(n: usize) -> (v: Vec<u8>)
    ensures
        v@.len() == n,
{
    let mut v: Vec<u8> = Vec::new();
    while v.len() < n
        invariant
            v@.len() <= n,
        decreases n - v@.len(),
    {
        v.push(0xA5u8);
    }
    v
}

} // verus!
