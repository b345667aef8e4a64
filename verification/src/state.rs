use vstd::prelude::*;

verus! {

/// The protection mode of the backing region: the OS-enforced access mode
/// set by the most recent page-protection request.
#[derive(Clone, Copy, Debug, PartialEq, Eq, Structural)]
pub enum Prot {
    NoAccess,
    ReadOnly,
    ReadWrite,
}

/// The lifecycle stage of a container's region, from raw allocation to the
/// moment the memory is handed back to the allocator.
#[derive(Clone, Copy, Debug, PartialEq, Eq, Structural)]
pub enum Stage {
    Uninitialized,
    Live,
    TearingDown,
    TornDown,
    Zeroed,
    Freed,
}

/// The decision core of the guard layer: reader accounting, write-guard
/// liveness, the protection mode the performed requests have established,
/// and the lifecycle stage.
///
/// Every transition returns the protection request (if any) that its caller
/// must apply to the real region at that point; the transitions themselves
/// only decide.
#[derive(Clone, Copy, Debug, PartialEq, Eq, Structural)]
pub struct ContainerState {
    /// Number of shared read guards that have registered (dereferenced at
    /// least once) and not yet released.
    pub readers: usize,
    /// Whether an exclusive write guard is live.
    pub writer: bool,
    /// The protection mode established by the most recent request.
    pub prot: Prot,
    /// The lifecycle stage of the region.
    pub stage: Stage,
}

impl ContainerState {
    /// The container invariant. While live with no write guard, the region
    /// is inaccessible exactly when no reader is registered and read-only
    /// exactly when at least one is; a live write guard excludes registered
    /// readers. Outside the live stage no guard of either kind exists, and
    /// the region is writable (fresh from the allocator, or opened for
    /// teardown and zeroization).
    pub open spec fn wf(self) -> bool {
        match self.stage {
            Stage::Live => {
                if self.writer {
                    self.readers == 0
                } else {
                    &&& (self.prot == Prot::NoAccess <==> self.readers == 0)
                    &&& (self.prot == Prot::ReadOnly <==> self.readers >= 1)
                    &&& self.prot != Prot::ReadWrite
                }
            },
            _ => self.readers == 0 && !self.writer && self.prot == Prot::ReadWrite,
        }
    }

    /// Outcome of registering one shared reader.
    pub open spec fn spec_register_reader(self) -> (ContainerState, Option<Prot>) {
        (
            ContainerState { readers: (self.readers + 1) as usize, prot: Prot::ReadOnly, ..self },
            if self.readers == 0 {
                Some(Prot::ReadOnly)
            } else {
                None
            },
        )
    }

    /// Outcome of releasing one registered reader.
    pub open spec fn spec_release_reader(self) -> (ContainerState, Option<Prot>) {
        if self.readers == 1 {
            (ContainerState { readers: 0, prot: Prot::NoAccess, ..self }, Some(Prot::NoAccess))
        } else {
            (ContainerState { readers: (self.readers - 1) as usize, ..self }, None)
        }
    }

    /// Outcome of acquiring the exclusive write guard (no request: the
    /// acquisition itself performs no protection change).
    pub open spec fn spec_acquire_writer(self) -> ContainerState {
        ContainerState { writer: true, ..self }
    }

    /// Outcome of a shared dereference through the write guard.
    pub open spec fn spec_writer_read(self) -> (ContainerState, Prot) {
        (ContainerState { prot: Prot::ReadOnly, ..self }, Prot::ReadOnly)
    }

    /// Outcome of a mutable dereference through the write guard.
    pub open spec fn spec_writer_write(self) -> (ContainerState, Prot) {
        (ContainerState { prot: Prot::ReadWrite, ..self }, Prot::ReadWrite)
    }

    /// Outcome of releasing the exclusive write guard.
    pub open spec fn spec_release_writer(self) -> (ContainerState, Prot) {
        (ContainerState { writer: false, prot: Prot::NoAccess, ..self }, Prot::NoAccess)
    }

    /// Outcome of populating the fresh region.
    pub open spec fn spec_populate(self) -> (ContainerState, Prot) {
        (ContainerState { prot: Prot::NoAccess, stage: Stage::Live, ..self }, Prot::NoAccess)
    }

    /// Outcome of beginning destruction.
    pub open spec fn spec_begin_destroy(self) -> (ContainerState, Prot) {
        (
            ContainerState { prot: Prot::ReadWrite, stage: Stage::TearingDown, ..self },
            Prot::ReadWrite,
        )
    }

    /// Outcome of finishing the value's teardown.
    pub open spec fn spec_teardown_complete(self) -> ContainerState {
        ContainerState { stage: Stage::TornDown, ..self }
    }

    /// Outcome of finishing zeroization.
    pub open spec fn spec_zeroize_complete(self) -> ContainerState {
        ContainerState { stage: Stage::Zeroed, ..self }
    }

    /// Outcome of handing the region back to the allocator.
    pub open spec fn spec_deallocate(self) -> ContainerState {
        ContainerState { stage: Stage::Freed, ..self }
    }

    /// Whether one permitted transition of the machine leads from `self` to
    /// `post`. This is the whole lifecycle: populating the fresh region,
    /// the four reader/writer guard movements, and the ordered destruction
    /// tail.
    pub open spec fn steps_to(self, post: ContainerState) -> bool {
        ||| (self.stage == Stage::Uninitialized && post == self.spec_populate().0)
        ||| (self.stage == Stage::Live && !self.writer && self.readers < usize::MAX && post
            == self.spec_register_reader().0)
        ||| (self.stage == Stage::Live && !self.writer && self.readers >= 1 && post
            == self.spec_release_reader().0)
        ||| (self.stage == Stage::Live && !self.writer && self.readers == 0 && post
            == self.spec_acquire_writer())
        ||| (self.stage == Stage::Live && self.writer && post == self.spec_writer_read().0)
        ||| (self.stage == Stage::Live && self.writer && post == self.spec_writer_write().0)
        ||| (self.stage == Stage::Live && self.writer && post == self.spec_release_writer().0)
        ||| (self.stage == Stage::Live && !self.writer && self.readers == 0 && post
            == self.spec_begin_destroy().0)
        ||| (self.stage == Stage::TearingDown && post == self.spec_teardown_complete())
        ||| (self.stage == Stage::TornDown && post == self.spec_zeroize_complete())
        ||| (self.stage == Stage::Zeroed && post == self.spec_deallocate())
    }

    /// Position of a stage along the lifecycle.
    pub open spec fn stage_order(stage: Stage) -> int {
        match stage {
            Stage::Uninitialized => 0,
            Stage::Live => 1,
            Stage::TearingDown => 2,
            Stage::TornDown => 3,
            Stage::Zeroed => 4,
            Stage::Freed => 5,
        }
    }

    /// State of a region just handed out by the allocator: no guards, not
    /// yet populated, and writable.
    pub fn fresh() -> (s: Self)
        ensures
            s == (ContainerState {
                readers: 0,
                writer: false,
                prot: Prot::ReadWrite,
                stage: Stage::Uninitialized,
            }),
            s.wf(),
    {
        ContainerState { readers: 0, writer: false, prot: Prot::ReadWrite, stage: Stage::Uninitialized }
    }

    /// The value (or the zero fill) has been written into the fresh region:
    /// the container becomes live and the region must be made inaccessible.
    pub fn populate(&mut self) -> (act: Prot)
        requires
            old(self).wf(),
            old(self).stage == Stage::Uninitialized,
        ensures
            final(self).wf(),
            (*final(self), act) == old(self).spec_populate(),
            final(self).prot == Prot::NoAccess,
            final(self).stage == Stage::Live,
    {
        self.prot = Prot::NoAccess;
        self.stage = Stage::Live;
        Prot::NoAccess
    }

    /// First dereference of a shared read guard. Only the reader that takes
    /// the zero-to-one edge gets a request to make the region readable;
    /// every later reader finds it readable already.
    pub fn register_reader(&mut self) -> (act: Option<Prot>)
        requires
            old(self).wf(),
            old(self).stage == Stage::Live,
            !old(self).writer,
            old(self).readers < usize::MAX,
        ensures
            final(self).wf(),
            (*final(self), act) == old(self).spec_register_reader(),
    {
        let first = self.readers == 0;
        self.readers = self.readers + 1;
        self.prot = Prot::ReadOnly;
        if first {
            Some(Prot::ReadOnly)
        } else {
            None
        }
    }

    /// Release of a registered shared read guard. Only the release of the
    /// last registered reader gets a request to make the region
    /// inaccessible again.
    pub fn release_reader(&mut self) -> (act: Option<Prot>)
        requires
            old(self).wf(),
            old(self).stage == Stage::Live,
            !old(self).writer,
            old(self).readers >= 1,
        ensures
            final(self).wf(),
            (*final(self), act) == old(self).spec_release_reader(),
    {
        self.readers = self.readers - 1;
        if self.readers == 0 {
            self.prot = Prot::NoAccess;
            Some(Prot::NoAccess)
        } else {
            None
        }
    }

    /// Acquisition of the exclusive write guard. Exclusivity is a
    /// precondition: no registered reader and no other write guard. The
    /// acquisition performs no protection change.
    pub fn acquire_writer(&mut self)
        requires
            old(self).wf(),
            old(self).stage == Stage::Live,
            !old(self).writer,
            old(self).readers == 0,
        ensures
            final(self).wf(),
            *final(self) == old(self).spec_acquire_writer(),
            final(self).prot == Prot::NoAccess,
    {
        self.writer = true;
    }

    /// A shared dereference through the live write guard: the region must be
    /// made readable, unconditionally.
    pub fn writer_read(&mut self) -> (act: Prot)
        requires
            old(self).wf(),
            old(self).stage == Stage::Live,
            old(self).writer,
        ensures
            final(self).wf(),
            (*final(self), act) == old(self).spec_writer_read(),
    {
        self.prot = Prot::ReadOnly;
        Prot::ReadOnly
    }

    /// A mutable dereference through the live write guard: the region must
    /// be made writable, unconditionally.
    pub fn writer_write(&mut self) -> (act: Prot)
        requires
            old(self).wf(),
            old(self).stage == Stage::Live,
            old(self).writer,
        ensures
            final(self).wf(),
            (*final(self), act) == old(self).spec_writer_write(),
    {
        self.prot = Prot::ReadWrite;
        Prot::ReadWrite
    }

    /// Release of the exclusive write guard: the region must be made
    /// inaccessible, unconditionally (there is exactly one write guard, so
    /// no counting is needed).
    pub fn release_writer(&mut self) -> (act: Prot)
        requires
            old(self).wf(),
            old(self).stage == Stage::Live,
            old(self).writer,
        ensures
            final(self).wf(),
            (*final(self), act) == old(self).spec_release_writer(),
    {
        self.writer = false;
        self.prot = Prot::NoAccess;
        Prot::NoAccess
    }

    /// Start of destruction, only from a quiescent live state: the region
    /// must be made writable so the value's teardown can run in place.
    pub fn begin_destroy(&mut self) -> (act: Prot)
        requires
            old(self).wf(),
            old(self).stage == Stage::Live,
            !old(self).writer,
            old(self).readers == 0,
        ensures
            final(self).wf(),
            (*final(self), act) == old(self).spec_begin_destroy(),
            final(self).prot == Prot::ReadWrite,
            final(self).stage == Stage::TearingDown,
    {
        self.prot = Prot::ReadWrite;
        self.stage = Stage::TearingDown;
        Prot::ReadWrite
    }

    /// The value's own teardown has run. Zeroization may now begin.
    pub fn teardown_complete(&mut self)
        requires
            old(self).wf(),
            old(self).stage == Stage::TearingDown,
        ensures
            final(self).wf(),
            *final(self) == old(self).spec_teardown_complete(),
    {
        self.stage = Stage::TornDown;
    }

    /// Every byte of the region has been overwritten with zero. Zeroization
    /// is only permitted after teardown.
    pub fn zeroize_complete(&mut self)
        requires
            old(self).wf(),
            old(self).stage == Stage::TornDown,
        ensures
            final(self).wf(),
            *final(self) == old(self).spec_zeroize_complete(),
    {
        self.stage = Stage::Zeroed;
    }

    /// The region is handed back to the allocator. Deallocation is only
    /// permitted once the region is writable and zeroed.
    pub fn deallocate(&mut self)
        requires
            old(self).wf(),
            old(self).stage == Stage::Zeroed,
        ensures
            final(self).wf(),
            *final(self) == old(self).spec_deallocate(),
            old(self).prot == Prot::ReadWrite,
    {
        self.stage = Stage::Freed;
    }
}

/// Law: while the container is live with no write guard, the region is
/// readable exactly while at least one reader is registered, and
/// inaccessible exactly while none is.
pub proof fn lemma_readable_iff_registered(s: ContainerState)
    requires
        s.wf(),
        s.stage == Stage::Live,
        !s.writer,
    ensures
        s.prot == Prot::ReadOnly <==> s.readers >= 1,
        s.prot == Prot::NoAccess <==> s.readers == 0,
{
}

/// Law: while more than one registered reader remains, releasing one keeps
/// the region readable and requests no protection change, so every other
/// live reader stays valid.
pub proof fn lemma_release_keeps_readable(s: ContainerState)
    requires
        s.wf(),
        s.stage == Stage::Live,
        !s.writer,
        s.readers >= 2,
    ensures
        s.spec_release_reader().0.wf(),
        s.spec_release_reader().0.prot == Prot::ReadOnly,
        s.spec_release_reader().1 is None,
{
}

/// Law: the release of the last registered reader always restores the
/// region to inaccessible, and requests exactly that transition.
pub proof fn lemma_last_release_restores_inaccessible(s: ContainerState)
    requires
        s.wf(),
        s.stage == Stage::Live,
        !s.writer,
        s.readers == 1,
    ensures
        s.spec_release_reader().0.wf(),
        s.spec_release_reader().0.prot == Prot::NoAccess,
        s.spec_release_reader().1 == Some(Prot::NoAccess),
{
}

/// Law: every permitted transition of the machine preserves the container
/// invariant.
pub proof fn lemma_step_preserves_wf(pre: ContainerState, post: ContainerState)
    requires
        pre.wf(),
        pre.steps_to(post),
    ensures
        post.wf(),
{
}

/// Law: the lifecycle stage never moves backwards across a transition.
pub proof fn lemma_stage_monotone(pre: ContainerState, post: ContainerState)
    requires
        pre.steps_to(post),
    ensures
        ContainerState::stage_order(pre.stage) <= ContainerState::stage_order(post.stage),
{
}

/// Law: destruction is ordered. The region is freed only from the zeroed
/// stage, zeroized only after teardown, torn down only after the transition
/// that opened the region for writing, and destruction begins only from a
/// quiescent live state with no guard of either kind outstanding.
pub proof fn lemma_destruction_order(pre: ContainerState, post: ContainerState)
    requires
        pre.steps_to(post),
    ensures
        post.stage == Stage::Freed ==> pre.stage == Stage::Zeroed,
        post.stage == Stage::Zeroed ==> pre.stage == Stage::TornDown,
        post.stage == Stage::TornDown ==> pre.stage == Stage::TearingDown,
        post.stage == Stage::TearingDown ==> pre.stage == Stage::Live && !pre.writer
            && pre.readers == 0,
{
}

/// Law: a freed region takes no further transition.
pub proof fn lemma_freed_is_terminal(pre: ContainerState, post: ContainerState)
    requires
        pre.stage == Stage::Freed,
    ensures
        !pre.steps_to(post),
{
}

/// A run of the machine: every adjacent pair of states is related by one
/// permitted transition.
pub open spec fn is_run(tr: Seq<ContainerState>) -> bool {
    forall|i: int| 0 <= i < tr.len() - 1 ==> #[trigger] tr[i].steps_to(tr[i + 1])
}

/// Whether the value's teardown runs at position `i` of the run: the one
/// transition that crosses from the tearing-down stage to the torn-down
/// stage.
pub open spec fn teardown_edge(tr: Seq<ContainerState>, i: int) -> bool {
    &&& 0 <= i < tr.len() - 1
    &&& tr[i].stage == Stage::TearingDown
    &&& tr[i + 1].stage == Stage::TornDown
}

/// One step of a run, extracted.
proof fn lemma_run_step(tr: Seq<ContainerState>, i: int)
    requires
        is_run(tr),
        0 <= i < tr.len() - 1,
    ensures
        tr[i].steps_to(tr[i + 1]),
{
}

/// Along a run, the lifecycle stage never moves backwards.
pub proof fn lemma_run_stage_monotone(tr: Seq<ContainerState>, i: int, j: int)
    requires
        is_run(tr),
        0 <= i <= j < tr.len(),
    ensures
        ContainerState::stage_order(tr[i].stage) <= ContainerState::stage_order(tr[j].stage),
    decreases j - i,
{
    if i < j {
        lemma_run_stage_monotone(tr, i, j - 1);
        lemma_run_step(tr, j - 1);
        lemma_stage_monotone(tr[j - 1], tr[j]);
    }
}

/// Law: along any run that starts before destruction (live or not yet
/// populated) and ends with the region freed, the value's teardown runs
/// exactly once: there is exactly one position where the stage crosses from
/// tearing-down to torn-down.
pub proof fn lemma_teardown_exactly_once(tr: Seq<ContainerState>)
    requires
        is_run(tr),
        tr.len() >= 1,
        ContainerState::stage_order(tr[0].stage) <= 1,
        tr[tr.len() - 1].stage == Stage::Freed,
    ensures
        exists|i: int| teardown_edge(tr, i),
        forall|i: int, j: int| teardown_edge(tr, i) && teardown_edge(tr, j) ==> i == j,
    decreases tr.len(),
{
    assert(tr.len() >= 2);
    lemma_run_step(tr, 0);
    if tr[1].stage == Stage::TearingDown {
        assert(tr.len() >= 3) by {
            if tr.len() == 2 {
                assert(tr[1].stage == Stage::Freed);
            }
        }
        lemma_run_step(tr, 1);
        assert(teardown_edge(tr, 1));
    } else {
        lemma_destruction_order(tr[0], tr[1]);
        assert(ContainerState::stage_order(tr[1].stage) <= 1);
        let sub = tr.subrange(1, tr.len() as int);
        assert forall|k: int| 0 <= k < sub.len() - 1 implies #[trigger] sub[k].steps_to(
            sub[k + 1],
        ) by {
            lemma_run_step(tr, k + 1);
        }
        lemma_teardown_exactly_once(sub);
        let i0 = choose|i: int| teardown_edge(sub, i);
        assert(teardown_edge(tr, i0 + 1));
    }
    assert forall|i: int, j: int| teardown_edge(tr, i) && teardown_edge(tr, j) implies i == j by {
        if i < j {
            lemma_run_stage_monotone(tr, i + 1, j);
        } else if j < i {
            lemma_run_stage_monotone(tr, j + 1, i);
        }
    }
}

/// The succession of bookkeeping states that destruction passes through
/// from a quiescent live state: writable for teardown, torn down, zeroed,
/// freed.
pub open spec fn destruction_run(s: ContainerState) -> Seq<ContainerState> {
    let t1 = s.spec_begin_destroy().0;
    let t2 = t1.spec_teardown_complete();
    let t3 = t2.spec_zeroize_complete();
    let t4 = t3.spec_deallocate();
    seq![s, t1, t2, t3, t4]
}

/// Law: from any quiescent live state, the destruction succession is a
/// permitted run of the machine that ends with the region freed, and its
/// teardown edge is the single one such a run contains.
pub proof fn lemma_destruction_run_valid(s: ContainerState)
    requires
        s.wf(),
        s.stage == Stage::Live,
        !s.writer,
        s.readers == 0,
    ensures
        is_run(destruction_run(s)),
        destruction_run(s)[0] == s,
        destruction_run(s)[destruction_run(s).len() - 1].stage == Stage::Freed,
        teardown_edge(destruction_run(s), 1),
{
    let tr = destruction_run(s);
    assert forall|i: int| 0 <= i < tr.len() - 1 implies #[trigger] tr[i].steps_to(tr[i + 1]) by {
        assert(tr[0].steps_to(tr[1]));
        assert(tr[1].steps_to(tr[2]));
        assert(tr[2].steps_to(tr[3]));
        assert(tr[3].steps_to(tr[4]));
    }
}

/// Law: from a quiescent live state, a read access, its release, a write
/// access, its release, and a fresh read access all succeed in order; each
/// release returns the bookkeeping to exactly the quiescent state, so no
/// incorrect protection state lingers between the phases.
pub proof fn lemma_guard_sequencing(s0: ContainerState)
    requires
        s0.wf(),
        s0.stage == Stage::Live,
        !s0.writer,
        s0.readers == 0,
    ensures
        ({
            let (s1, a1) = s0.spec_register_reader();
            let (s2, a2) = s1.spec_release_reader();
            let s3 = s2.spec_acquire_writer();
            let (s4, a4) = s3.spec_writer_write();
            let (s5, a5) = s4.spec_release_writer();
            let (s6, a6) = s5.spec_register_reader();
            &&& s1.wf() && a1 == Some(Prot::ReadOnly)
            &&& s2 == s0 && a2 == Some(Prot::NoAccess)
            &&& s3.wf() && s3.writer
            &&& s4.wf() && s4.prot == Prot::ReadWrite && a4 == Prot::ReadWrite
            &&& s5 == s0 && a5 == Prot::NoAccess
            &&& s6.wf() && s6.prot == Prot::ReadOnly && a6 == Some(Prot::ReadOnly)
        }),
{
}

} // verus!
