use vstd::prelude::*;

verus! {

/// Mathematical content of an allocation record: both counters and the payload
/// slot. This is also the state the protocol laws below are stated over.
pub struct RecordView<T> {
    /// Number of live strong handles.
    pub strong: nat,
    /// Number of live weak handles, plus one unit held collectively by all
    /// strong handles while any of them lives.
    pub alloc: nat,
    /// The payload; `None` once it has been destroyed.
    pub data: Option<T>,
}

impl<T> RecordView<T> {
    /// Number of live weak handles: the combined counter minus the one unit
    /// that stands for all strong handles together.
    pub open spec fn weak_count(self) -> int {
        self.alloc - (if self.strong > 0 { 1int } else { 0int })
    }

    /// The record invariant: the payload is in place exactly while a strong
    /// handle lives, and the strong handles' collective unit is accounted for.
    pub open spec fn inv(self) -> bool {
        &&& (self.data is Some <==> self.strong > 0)
        &&& (self.strong > 0 ==> self.alloc >= 1)
    }
}

/// The allocation record of the refined two-counter design: `strong` counts
/// strong handles, while `alloc` counts weak handles plus one extra unit iff
/// any strong handle exists. The payload is destroyed when `strong` reaches
/// zero; the record itself is freed when `alloc` reaches zero.
///
/// A lock-free implementation keeps this record on the heap behind raw pointers and
/// touches the two counters only through atomic read-modify-write instructions
/// and fences. Here the record is an explicit value and each operation below is
/// a single transition on it, so a concurrent history of the counters is a
/// sequence of these calls, one per atomic instruction; the laws at the end of
/// this file hold over every such sequence.
pub struct ArcData<T> {
    strong: usize,
    alloc: usize,
    data: Option<T>,
}

impl<T> View for ArcData<T> {
    type V = RecordView<T>;

    closed spec fn view(&self) -> RecordView<T> {
        RecordView { strong: self.strong as nat, alloc: self.alloc as nat, data: self.data }
    }
}

impl<T> ArcData<T> {
    /// The record is well formed; see `RecordView::inv`.
    pub open spec fn wf(&self) -> bool {
        self@.inv()
    }

    /// Reads the strong counter (a relaxed atomic load in the concurrent implementation).
    pub fn strong_count(&self) -> (n: usize)
        ensures
            n == self@.strong,
    {
        self.strong
    }

    /// Reads the combined counter (a relaxed atomic load in the concurrent implementation).
    pub fn alloc_count(&self) -> (n: usize)
        ensures
            n == self@.alloc,
    {
        self.alloc
    }
}

/// A strong handle: owns one unit of `strong`, and together with every other
/// strong handle one collective unit of `alloc`. The concurrent implementation holds a
/// non-owning pointer to the record; here the record is passed to each
/// operation explicitly, and the handle is the claim on one counter unit.
pub struct Arc<T> {
    marker: core::marker::PhantomData<T>,
}

/// A weak handle: owns one unit of `alloc` and nothing else. It does not keep
/// the payload live; `upgrade` is the only way to reach it.
pub struct Weak<T> {
    marker: core::marker::PhantomData<T>,
}

impl<T> Arc<T> {
    /// Allocates the record with one strong handle accounted for: one strong
    /// unit and the strong handles' collective alloc unit. This is the state
    /// the protocol laws below start from.
    pub fn new(data: T) -> (r: (ArcData<T>, Arc<T>))
        ensures
            r.0.wf(),
            r.0@ == init(data),
            r.0@.strong == 1,
            r.0@.alloc == 1,
            r.0@.data == Some(data),
    {
        (
            ArcData { strong: 1, alloc: 1, data: Some(data) },
            Arc { marker: core::marker::PhantomData },
        )
    }

    /// Shared read access to the payload: holding a strong handle proves it is
    /// live.
    pub fn data<'a>(&self, record: &'a ArcData<T>) -> (d: &'a T)
        requires
            record.wf(),
            record@.strong >= 1,
        ensures
            record@.data == Some(*d),
    {
        record.data.as_ref().unwrap()
    }

    /// One more strong handle: only `strong` goes up, since all strong handles
    /// share a single alloc unit (a relaxed increment in the concurrent implementation), which
    /// aborts the process when the counter would pass the guard
    /// threshold `usize::MAX / 2`; such a count is excluded here instead.
    pub fn clone(&self, record: &mut ArcData<T>) -> (other: Arc<T>)
        requires
            old(record).wf(),
            old(record)@.strong >= 1,
            old(record)@.strong <= usize::MAX / 2,
        ensures
            final(record).wf(),
            final(record)@ == step(old(record)@, Op::StrongClone),
            final(record)@.strong == old(record)@.strong + 1,
            final(record)@.alloc == old(record)@.alloc,
            final(record)@.data == old(record)@.data,
    {
        record.strong = record.strong + 1;
        Arc { marker: core::marker::PhantomData }
    }

    /// Derives a weak handle: one more `alloc` unit. In the concurrent implementation this
    /// increment must wait out the probe's sentinel (see `get_mut`); here the
    /// sentinel never shows between transitions, because the probe restores the
    /// counter within its own call. The same overflow guard as in `clone`
    /// applies.
    pub fn downgrade(arc: &Self, record: &mut ArcData<T>) -> (w: Weak<T>)
        requires
            old(record).wf(),
            old(record)@.strong >= 1,
            old(record)@.alloc <= usize::MAX / 2,
        ensures
            final(record).wf(),
            final(record)@ == step(old(record)@, Op::WeakClone),
            final(record)@.alloc == old(record)@.alloc + 1,
            final(record)@.strong == old(record)@.strong,
            final(record)@.data == old(record)@.data,
            final(record)@.weak_count() == old(record)@.weak_count() + 1,
    {
        record.alloc = record.alloc + 1;
        Weak { marker: core::marker::PhantomData }
    }

    /// Gives the strong handle up (a release decrement in the concurrent implementation). The
    /// call that takes `strong` to zero issues an acquire fence, destroys the
    /// payload in place, and then retires the strong handles' collective alloc
    /// unit, exactly as if it dropped one implicit weak handle; the record is
    /// freed iff that retirement takes `alloc` to zero.
    pub fn release(self, record: &mut ArcData<T>)
        requires
            old(record).wf(),
            old(record)@.strong >= 1,
        ensures
            final(record).wf(),
            final(record)@ == step(old(record)@, Op::StrongDrop),
            final(record)@.strong == old(record)@.strong - 1,
            old(record)@.strong > 1 ==> final(record)@.alloc == old(record)@.alloc
                && final(record)@.data == old(record)@.data,
            old(record)@.strong == 1 ==> final(record)@.data is None
                && final(record)@.alloc == old(record)@.alloc - 1,
            final(record)@.weak_count() == old(record)@.weak_count(),
    {
        let current = record.strong;
        record.strong = current - 1;
        if current == 1 {
            record.data = None;
            record.alloc = record.alloc - 1;
        }
    }
}

impl<T> Weak<T> {
    /// One more weak handle: `alloc` goes up by one (a relaxed increment
    /// in the concurrent implementation, with the same abort guard as strong `clone`).
    pub fn clone(&self, record: &mut ArcData<T>) -> (other: Weak<T>)
        requires
            old(record).wf(),
            old(record)@.weak_count() >= 1,
            old(record)@.alloc <= usize::MAX / 2,
        ensures
            final(record).wf(),
            final(record)@ == step(old(record)@, Op::WeakClone),
            final(record)@.alloc == old(record)@.alloc + 1,
            final(record)@.strong == old(record)@.strong,
            final(record)@.data == old(record)@.data,
            final(record)@.weak_count() == old(record)@.weak_count() + 1,
    {
        record.alloc = record.alloc + 1;
        Weak { marker: core::marker::PhantomData }
    }

    /// Gives the weak handle up (a release decrement in the concurrent implementation). The call
    /// that takes `alloc` to zero issues an acquire fence and frees the record:
    /// this is the only path that frees it. The payload is untouched.
    pub fn release(self, record: &mut ArcData<T>)
        requires
            old(record).wf(),
            old(record)@.weak_count() >= 1,
        ensures
            final(record).wf(),
            final(record)@ == step(old(record)@, Op::WeakDrop),
            final(record)@.alloc == old(record)@.alloc - 1,
            final(record)@.strong == old(record)@.strong,
            final(record)@.data == old(record)@.data,
            final(record)@.weak_count() == old(record)@.weak_count() - 1,
    {
        record.alloc = record.alloc - 1;
    }

    /// Attempts to mint a strong handle. The concurrent implementation reads `strong` and then
    /// runs an optimistic compare-and-swap retry loop, raising it from `n` to
    /// `n + 1`; each retry corresponds to another thread's successful
    /// transition, so here, where the call is itself one transition, the loop
    /// collapses to a single test. It succeeds iff a strong handle still lives,
    /// and never yields a handle to destroyed payload data. Observing `strong`
    /// at `usize::MAX` would be a counting bug (a fatal assertion in the
    /// concurrent implementation); it is excluded here instead.
    pub fn upgrade(&self, record: &mut ArcData<T>) -> (r: Option<Arc<T>>)
        requires
            old(record).wf(),
            old(record)@.weak_count() >= 1,
            old(record)@.strong < usize::MAX,
        ensures
            final(record).wf(),
            final(record)@ == step(old(record)@, Op::Upgrade),
            r is Some <==> old(record)@.strong >= 1,
            old(record)@.strong == 0 ==> *final(record) == *old(record),
            old(record)@.strong >= 1 ==> final(record)@.strong == old(record)@.strong + 1
                && final(record)@.alloc == old(record)@.alloc
                && final(record)@.data == old(record)@.data,
            r is Some ==> final(record)@.data is Some,
    {
        let n = record.strong;
        if n == 0 {
            None
        } else {
            record.strong = n + 1;
            Some(Arc { marker: core::marker::PhantomData })
        }
    }
}

impl<T> Arc<T> {
    /// The exclusivity probe: may the caller mutate the payload in place? It
    /// first raises `alloc` from 1 to the sentinel `usize::MAX` by an acquire
    /// compare-and-swap, which fails loudly if any weak handle exists and
    /// meanwhile blocks `downgrade` from racing past; then it checks that
    /// this strong handle is the only one; then it restores `alloc` with a
    /// release store and, when unique, issues an acquire fence before handing
    /// out the payload. Access is granted iff exactly one strong handle and
    /// zero weak handles exist, and writes through the result land in the
    /// payload slot.
    pub fn get_mut<'a>(arc: &mut Self, record: &'a mut ArcData<T>) -> (m: Option<&'a mut T>)
        requires
            old(record).wf(),
            old(record)@.strong >= 1,
        ensures
            m is Some <==> old(record)@.strong == 1 && old(record)@.weak_count() == 0,
            m is None ==> *final(record) == *old(record),
            m matches Some(p) ==> {
                &&& *p == old(record)@.data.unwrap()
                &&& final(record)@.strong == 1
                &&& final(record)@.alloc == 1
                &&& final(record)@.data == Some(*final(p))
            },
    {
        if record.alloc != 1 {
            // the compare-and-swap from 1 to the sentinel failed: another
            // handle (or a concurrent probe) holds an alloc unit
            return None;
        }
        // the compare-and-swap succeeded: the counter holds the sentinel
        record.alloc = usize::MAX;
        let is_unique = record.strong == 1;
        // restore the counter (a release store in the concurrent implementation)
        record.alloc = 1;
        if !is_unique {
            return None;
        }
        // acquire fence, pairing with every strong handle's release decrement
        match &mut record.data {
            Some(p) => Some(p),
            None => unreached(),
        }
    }
}

/// One atomic transition of the counter protocol. A concurrent execution, with
/// handles cloned and dropped from any number of threads, linearizes into a
/// sequence of these.
pub enum Op {
    /// A strong handle is cloned (also how `new`'s first handle multiplies).
    StrongClone,
    /// A strong handle is dropped.
    StrongDrop,
    /// A weak handle is derived, by `downgrade` or by cloning a weak handle.
    WeakClone,
    /// A weak handle is dropped.
    WeakDrop,
    /// A weak handle attempts `upgrade`; the step covers success and failure.
    Upgrade,
}

/// The record state right after allocation: one strong handle, its collective
/// alloc unit, the payload in place.
pub open spec fn init<T>(data: T) -> RecordView<T> {
    RecordView { strong: 1, alloc: 1, data: Some(data) }
}

/// Which transitions can be taken: each one needs a live handle of the right
/// kind in some thread's hand (`WeakClone` also covers `downgrade`, enabled by
/// a strong handle).
pub open spec fn enabled<T>(s: RecordView<T>, op: Op) -> bool {
    match op {
        Op::StrongClone => s.strong >= 1,
        Op::StrongDrop => s.strong >= 1,
        Op::WeakClone => s.weak_count() >= 1 || s.strong >= 1,
        Op::WeakDrop => s.weak_count() >= 1,
        Op::Upgrade => s.weak_count() >= 1,
    }
}

/// What each transition does to the record; the executable operations above
/// ensure exactly these steps.
pub open spec fn step<T>(s: RecordView<T>, op: Op) -> RecordView<T> {
    match op {
        Op::StrongClone => RecordView { strong: s.strong + 1, alloc: s.alloc, data: s.data },
        Op::StrongDrop => if s.strong == 1 {
            RecordView { strong: 0, alloc: (s.alloc - 1) as nat, data: None }
        } else {
            RecordView { strong: (s.strong - 1) as nat, alloc: s.alloc, data: s.data }
        },
        Op::WeakClone => RecordView { strong: s.strong, alloc: s.alloc + 1, data: s.data },
        Op::WeakDrop => RecordView { strong: s.strong, alloc: (s.alloc - 1) as nat, data: s.data },
        Op::Upgrade => if s.strong == 0 {
            s
        } else {
            RecordView { strong: s.strong + 1, alloc: s.alloc, data: s.data }
        },
    }
}

/// The state after running a whole sequence of transitions.
pub open spec fn run<T>(s0: RecordView<T>, ops: Seq<Op>) -> RecordView<T>
    decreases ops.len(),
{
    if ops.len() == 0 {
        s0
    } else {
        step(run(s0, ops.drop_last()), ops.last())
    }
}

/// A sequence of transitions each of which was enabled when it was taken.
pub open spec fn ops_enabled<T>(s0: RecordView<T>, ops: Seq<Op>) -> bool
    decreases ops.len(),
{
    ops.len() == 0 || {
        &&& ops_enabled(s0, ops.drop_last())
        &&& enabled(run(s0, ops.drop_last()), ops.last())
    }
}

/// The transition that destroys the payload: the last strong handle is dropped.
pub open spec fn destroys<T>(s: RecordView<T>, op: Op) -> bool {
    op is StrongDrop && s.strong == 1
}

/// The transition that frees the record: whichever drop takes `alloc` to zero.
pub open spec fn frees<T>(s: RecordView<T>, op: Op) -> bool {
    ||| (op is StrongDrop && s.strong == 1 && s.alloc == 1)
    ||| (op is WeakDrop && s.alloc == 1)
}

/// How many transitions of a sequence destroy the payload.
pub open spec fn destroy_count<T>(s0: RecordView<T>, ops: Seq<Op>) -> nat
    decreases ops.len(),
{
    if ops.len() == 0 {
        0
    } else {
        destroy_count(s0, ops.drop_last())
            + if destroys(run(s0, ops.drop_last()), ops.last()) { 1nat } else { 0nat }
    }
}

/// How many transitions of a sequence free the record.
pub open spec fn free_count<T>(s0: RecordView<T>, ops: Seq<Op>) -> nat
    decreases ops.len(),
{
    if ops.len() == 0 {
        0
    } else {
        free_count(s0, ops.drop_last())
            + if frees(run(s0, ops.drop_last()), ops.last()) { 1nat } else { 0nat }
    }
}

/// The payload slot is emptied by a transition exactly when that transition is
/// the drop of the last strong handle, so `destroy_count` counts true
/// destructions.
pub proof fn lemma_destruction_characterized<T>(s: RecordView<T>, op: Op)
    requires
        s.inv(),
        enabled(s, op),
    ensures
        destroys(s, op) <==> (s.data is Some && step(s, op).data is None),
{
}

/// The combined counter reaches zero by a transition exactly when that
/// transition is the drop of the last handle of either kind, so `free_count`
/// counts true frees.
pub proof fn lemma_free_characterized<T>(s: RecordView<T>, op: Op)
    requires
        s.inv(),
        enabled(s, op),
    ensures
        frees(s, op) <==> (s.alloc > 0 && step(s, op).alloc == 0),
{
}

/// Once the record is freed, no transition is enabled at all: no handle of
/// either kind is left to clone, drop, or upgrade through, so the freed record
/// is never touched again.
pub proof fn lemma_freed_is_terminal<T>(s: RecordView<T>, op: Op)
    requires
        s.inv(),
        s.alloc == 0,
    ensures
        !enabled(s, op),
{
}

/// Every enabled transition preserves the record invariant.
pub proof fn lemma_step_preserves_inv<T>(s: RecordView<T>, op: Op)
    requires
        s.inv(),
        enabled(s, op),
    ensures
        step(s, op).inv(),
{
}

/// The record invariant holds after any sequence of enabled transitions; in
/// particular the payload is live exactly while a strong handle exists.
pub proof fn lemma_run_inv<T>(s0: RecordView<T>, ops: Seq<Op>)
    requires
        s0.inv(),
        ops_enabled(s0, ops),
    ensures
        run(s0, ops).inv(),
    decreases ops.len(),
{
    if ops.len() > 0 {
        lemma_run_inv(s0, ops.drop_last());
        lemma_step_preserves_inv(run(s0, ops.drop_last()), ops.last());
    }
}

/// Once no strong handle is left, none ever comes back, and the payload stays
/// destroyed: `upgrade` keeps failing rather than resurrect it.
pub proof fn lemma_strong_zero_persists<T>(s0: RecordView<T>, ops: Seq<Op>)
    requires
        s0.strong == 0,
        ops_enabled(s0, ops),
    ensures
        run(s0, ops).strong == 0,
        run(s0, ops).data == s0.data,
    decreases ops.len(),
{
    if ops.len() > 0 {
        lemma_strong_zero_persists(s0, ops.drop_last());
    }
}

/// For any sequence of clone and drop transitions taken from any number of
/// threads, starting when the record is allocated, the payload is destroyed
/// exactly once — by the drop of the last strong handle — and is destroyed at
/// all iff the strong count has reached zero.
pub proof fn lemma_payload_destroyed_once<T>(s0: RecordView<T>, ops: Seq<Op>)
    requires
        s0.inv(),
        s0.strong >= 1,
        ops_enabled(s0, ops),
    ensures
        destroy_count(s0, ops) == if run(s0, ops).strong == 0 { 1int } else { 0int },
        run(s0, ops).data is None <==> run(s0, ops).strong == 0,
    decreases ops.len(),
{
    lemma_run_inv(s0, ops);
    if ops.len() > 0 {
        lemma_payload_destroyed_once(s0, ops.drop_last());
    }
}

/// At the moment the record is freed, the payload has already been destroyed:
/// the record is never reclaimed out from under a live payload.
pub proof fn lemma_free_is_after_destruction<T>(s: RecordView<T>, op: Op)
    requires
        s.inv(),
        enabled(s, op),
        frees(s, op),
    ensures
        step(s, op).strong == 0,
        step(s, op).data is None,
        step(s, op).alloc == 0,
{
}

/// For any sequence of clone and drop transitions taken from any number of
/// threads, starting when the record is allocated, the record is freed exactly
/// once — by the drop of the last handle of either kind — and is freed at all
/// iff the combined count has reached zero.
pub proof fn lemma_alloc_freed_once<T>(s0: RecordView<T>, ops: Seq<Op>)
    requires
        s0.inv(),
        s0.alloc >= 1,
        ops_enabled(s0, ops),
    ensures
        free_count(s0, ops) == if run(s0, ops).alloc == 0 { 1int } else { 0int },
    decreases ops.len(),
{
    if ops.len() > 0 {
        lemma_run_inv(s0, ops.drop_last());
        lemma_alloc_freed_once(s0, ops.drop_last());
    }
}

} // verus!
