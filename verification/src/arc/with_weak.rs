use vstd::prelude::*;

verus! {

/// Mathematical content of an allocation record: both counters and the payload
/// slot.
pub struct RecordView<T> {
    /// Number of live strong handles.
    pub strong: nat,
    /// Number of live handles of either kind: every strong handle carries a
    /// weak one inside, so this counts strong and weak handles combined.
    pub alloc: nat,
    /// The payload; `None` once it has been destroyed.
    pub data: Option<T>,
}

impl<T> RecordView<T> {
    /// Number of live weak handles that are not carried inside a strong one.
    pub open spec fn weak_count(self) -> int {
        self.alloc - self.strong
    }

    /// The record invariant: the payload is in place exactly while a strong
    /// handle lives, and each strong handle's inner weak handle is accounted
    /// for in the combined counter.
    pub open spec fn inv(self) -> bool {
        &&& (self.data is Some <==> self.strong > 0)
        &&& self.alloc >= self.strong
    }
}

/// The allocation record of the intermediate two-counter design: `strong`
/// counts strong handles, `alloc` counts strong and weak handles combined —
/// one unit per strong handle, not the refined collective unit. The payload is
/// destroyed when `strong` reaches zero; the record itself is freed when
/// `alloc` reaches zero.
///
/// As in the other variants, the lock-free implementation mutates the two counters
/// only through atomic instructions on a heap record; here the record is an
/// explicit value and each operation is a single transition on it.
pub struct ArcData<T> {
    strong: usize,
    alloc: usize,
    data: Option<T>,
}

impl<T> View for ArcData<T> {
    type V = RecordView<T>;

    closed spec fn view(&self) -> RecordView<T> {
        RecordView { strong: self.strong as nat, alloc: self.alloc as nat, data: self.data }
    }
}

impl<T> ArcData<T> {
    /// The record is well formed; see `RecordView::inv`.
    pub open spec fn wf(&self) -> bool {
        self@.inv()
    }

    /// Reads the strong counter (a relaxed atomic load in the concurrent implementation).
    pub fn strong_count(&self) -> (n: usize)
        ensures
            n == self@.strong,
    {
        self.strong
    }

    /// Reads the combined counter (a relaxed atomic load in the concurrent implementation).
    pub fn alloc_count(&self) -> (n: usize)
        ensures
            n == self@.alloc,
    {
        self.alloc
    }
}

/// A weak handle: owns one unit of `alloc` and nothing else.
pub struct Weak<T> {
    marker: core::marker::PhantomData<T>,
}

/// A strong handle: owns one unit of `strong` and, through the weak handle it
/// wraps, one unit of `alloc`.
pub struct Arc<T> {
    weak: Weak<T>,
}

impl<T> Arc<T> {
    /// Allocates the record with one strong handle accounted for in both
    /// counters.
    pub fn new(data: T) -> (r: (ArcData<T>, Arc<T>))
        ensures
            r.0.wf(),
            r.0@.strong == 1,
            r.0@.alloc == 1,
            r.0@.data == Some(data),
    {
        (
            ArcData { strong: 1, alloc: 1, data: Some(data) },
            Arc { weak: Weak { marker: core::marker::PhantomData } },
        )
    }

    /// Shared read access to the payload: holding a strong handle proves it is
    /// live.
    pub fn data<'a>(&self, record: &'a ArcData<T>) -> (d: &'a T)
        requires
            record.wf(),
            record@.strong >= 1,
        ensures
            record@.data == Some(*d),
    {
        record.data.as_ref().unwrap()
    }

    /// One more strong handle: it wraps a fresh weak handle, so both counters
    /// go up by one (relaxed increments in the concurrent implementation). The concurrent implementation aborts
    /// the process when either counter would pass the guard threshold
    /// `usize::MAX / 2`; such counts are excluded here instead.
    pub fn clone(&self, record: &mut ArcData<T>) -> (other: Arc<T>)
        requires
            old(record).wf(),
            old(record)@.strong >= 1,
            old(record)@.strong <= usize::MAX / 2,
            old(record)@.alloc <= usize::MAX / 2,
        ensures
            final(record).wf(),
            final(record)@.strong == old(record)@.strong + 1,
            final(record)@.alloc == old(record)@.alloc + 1,
            final(record)@.data == old(record)@.data,
            final(record)@.weak_count() == old(record)@.weak_count(),
    {
        record.alloc = record.alloc + 1;
        record.strong = record.strong + 1;
        Arc { weak: Weak { marker: core::marker::PhantomData } }
    }

    /// Derives a weak handle by cloning the one this strong handle wraps: only
    /// the combined counter goes up.
    pub fn downgrade(arc: &Self, record: &mut ArcData<T>) -> (w: Weak<T>)
        requires
            old(record).wf(),
            old(record)@.strong >= 1,
            old(record)@.alloc <= usize::MAX / 2,
        ensures
            final(record).wf(),
            final(record)@.alloc == old(record)@.alloc + 1,
            final(record)@.strong == old(record)@.strong,
            final(record)@.data == old(record)@.data,
            final(record)@.weak_count() == old(record)@.weak_count() + 1,
    {
        record.alloc = record.alloc + 1;
        Weak { marker: core::marker::PhantomData }
    }

    /// The exclusivity probe of this design: a single relaxed load of the
    /// combined counter, followed by an acquire fence when it reads 1. Since
    /// every handle of either kind holds one `alloc` unit, a count of 1 means
    /// this strong handle is alone; the payload is then necessarily live, which
    /// is why the concurrent implementation's unwrap of the slot cannot fail.
    pub fn get_mut<'a>(arc: &mut Self, record: &'a mut ArcData<T>) -> (m: Option<&'a mut T>)
        requires
            old(record).wf(),
            old(record)@.strong >= 1,
        ensures
            m is Some <==> old(record)@.alloc == 1,
            m is Some <==> old(record)@.strong == 1 && old(record)@.weak_count() == 0,
            m is None ==> *final(record) == *old(record),
            m matches Some(p) ==> {
                &&& *p == old(record)@.data.unwrap()
                &&& final(record)@.strong == 1
                &&& final(record)@.alloc == 1
                &&& final(record)@.data == Some(*final(p))
            },
    {
        if record.alloc == 1 {
            // acquire fence in the concurrent implementation, then the in-place slot
            match &mut record.data {
                Some(p) => Some(p),
                None => unreached(),
            }
        } else {
            None
        }
    }

    /// Gives the strong handle up (a release decrement in the concurrent implementation). The
    /// call that takes `strong` to zero issues an acquire fence and destroys
    /// the payload in place; the inner weak handle is then dropped as well, so
    /// the combined counter always goes down with it, and the record is freed
    /// iff that takes `alloc` to zero.
    pub fn release(self, record: &mut ArcData<T>)
        requires
            old(record).wf(),
            old(record)@.strong >= 1,
        ensures
            final(record).wf(),
            final(record)@.strong == old(record)@.strong - 1,
            final(record)@.alloc == old(record)@.alloc - 1,
            old(record)@.strong > 1 ==> final(record)@.data == old(record)@.data,
            old(record)@.strong == 1 ==> final(record)@.data is None,
            final(record)@.weak_count() == old(record)@.weak_count(),
    {
        let current = record.strong;
        record.strong = current - 1;
        if current == 1 {
            record.data = None;
        }
        record.alloc = record.alloc - 1;
    }
}

impl<T> Weak<T> {
    /// One more weak handle: the combined counter goes up by one (a relaxed
    /// increment in the concurrent implementation, with the same abort guard as strong `clone`).
    pub fn clone(&self, record: &mut ArcData<T>) -> (other: Weak<T>)
        requires
            old(record).wf(),
            old(record)@.weak_count() >= 1,
            old(record)@.alloc <= usize::MAX / 2,
        ensures
            final(record).wf(),
            final(record)@.alloc == old(record)@.alloc + 1,
            final(record)@.strong == old(record)@.strong,
            final(record)@.data == old(record)@.data,
            final(record)@.weak_count() == old(record)@.weak_count() + 1,
    {
        record.alloc = record.alloc + 1;
        Weak { marker: core::marker::PhantomData }
    }

    /// Gives the weak handle up (a release decrement in the concurrent implementation). The call
    /// that takes `alloc` to zero issues an acquire fence and frees the record:
    /// this is the only path that frees it.
    pub fn release(self, record: &mut ArcData<T>)
        requires
            old(record).wf(),
            old(record)@.weak_count() >= 1,
        ensures
            final(record).wf(),
            final(record)@.alloc == old(record)@.alloc - 1,
            final(record)@.strong == old(record)@.strong,
            final(record)@.data == old(record)@.data,
            final(record)@.weak_count() == old(record)@.weak_count() - 1,
    {
        record.alloc = record.alloc - 1;
    }

    /// Attempts to mint a strong handle: the optimistic compare-and-swap retry
    /// loop of the concurrent implementation collapses to a single test here, since each call is
    /// one transition (see the refined variant for the full account). On
    /// success the new strong handle wraps a clone of this weak handle, so both
    /// counters go up. It succeeds iff a strong handle still lives, and never
    /// yields a handle to destroyed payload data.
    pub fn upgrade(&self, record: &mut ArcData<T>) -> (r: Option<Arc<T>>)
        requires
            old(record).wf(),
            old(record)@.weak_count() >= 1,
            old(record)@.strong < usize::MAX,
            old(record)@.alloc <= usize::MAX / 2,
        ensures
            final(record).wf(),
            r is Some <==> old(record)@.strong >= 1,
            old(record)@.strong == 0 ==> *final(record) == *old(record),
            old(record)@.strong >= 1 ==> final(record)@.strong == old(record)@.strong + 1
                && final(record)@.alloc == old(record)@.alloc + 1
                && final(record)@.data == old(record)@.data,
            r is Some ==> final(record)@.data is Some,
    {
        let n = record.strong;
        if n == 0 {
            None
        } else {
            record.strong = n + 1;
            // the new strong handle's inner weak handle, a clone of this one
            record.alloc = record.alloc + 1;
            Some(Arc { weak: Weak { marker: core::marker::PhantomData } })
        }
    }
}

} // verus!
