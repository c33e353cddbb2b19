use vstd::prelude::*;

verus! {

/// Mathematical content of an allocation record: the counter and the payload slot.
pub struct RecordView<T> {
    /// Number of live strong handles accounted for by the counter.
    pub ref_count: nat,
    /// The payload; `None` once it has been destroyed.
    pub data: Option<T>,
}

/// The allocation record of the single-counter handle: one record per shared
/// value. The payload lives exactly as long as the counter is positive, and the
/// call that takes the counter to zero destroys payload and record together.
///
/// A lock-free implementation keeps this record on the heap behind a raw pointer
/// and changes `ref_count` only through atomic fetch-and-modify instructions.
/// Here the record is an explicit value and each operation is a single
/// transition on it, so a concurrent history of the counter is a sequence of
/// these calls, one per atomic instruction.
pub struct ArcData<T> {
    ref_count: usize,
    data: Option<T>,
}

impl<T> View for ArcData<T> {
    type V = RecordView<T>;

    closed spec fn view(&self) -> RecordView<T> {
        RecordView { ref_count: self.ref_count as nat, data: self.data }
    }
}

impl<T> ArcData<T> {
    /// The record is well formed: the payload is in place exactly while some
    /// handle is accounted for.
    pub open spec fn wf(&self) -> bool {
        self@.data is Some <==> self@.ref_count > 0
    }

    /// Reads the counter (a relaxed atomic load in the concurrent implementation).
    pub fn strong_count(&self) -> (n: usize)
        ensures
            n == self@.ref_count,
    {
        self.ref_count
    }
}

/// A strong handle: owns one unit of `ref_count`. The concurrent implementation holds a
/// non-owning pointer to the record; here the record is passed to each
/// operation explicitly, and the handle is the claim on one counter unit.
pub struct Arc<T> {
    marker: core::marker::PhantomData<T>,
}

impl<T> Arc<T> {
    /// Allocates the record with the one handle returned accounted for.
    pub fn new(data: T) -> (r: (ArcData<T>, Arc<T>))
        ensures
            r.0.wf(),
            r.0@.ref_count == 1,
            r.0@.data == Some(data),
    {
        (
            ArcData { ref_count: 1, data: Some(data) },
            Arc { marker: core::marker::PhantomData },
        )
    }

    /// Shared read access to the payload: holding a handle proves it is live.
    pub fn data<'a>(&self, record: &'a ArcData<T>) -> (d: &'a T)
        requires
            record.wf(),
            record@.ref_count >= 1,
        ensures
            record@.data == Some(*d),
    {
        record.data.as_ref().unwrap()
    }

    /// One more handle: the counter goes up by one (a relaxed increment
    /// in the concurrent implementation, since the caller's own handle already keeps the record live).
    /// The concurrent implementation aborts the process when the counter would pass the guard
    /// threshold `usize::MAX / 2`; such a count is excluded here instead.
    pub fn clone(&self, record: &mut ArcData<T>) -> (other: Arc<T>)
        requires
            old(record).wf(),
            old(record)@.ref_count >= 1,
            old(record)@.ref_count <= usize::MAX / 2,
        ensures
            final(record).wf(),
            final(record)@.ref_count == old(record)@.ref_count + 1,
            final(record)@.data == old(record)@.data,
    {
        record.ref_count = record.ref_count + 1;
        Arc { marker: core::marker::PhantomData }
    }

    /// Gives the handle up: the counter goes down by one (a release decrement
    /// in the concurrent implementation), and the call that brings it to zero destroys the payload
    /// and the record, after an acquire fence pairing with every other drop.
    pub fn release(self, record: &mut ArcData<T>)
        requires
            old(record).wf(),
            old(record)@.ref_count >= 1,
        ensures
            final(record).wf(),
            final(record)@.ref_count == old(record)@.ref_count - 1,
            old(record)@.ref_count > 1 ==> final(record)@.data == old(record)@.data,
            old(record)@.ref_count == 1 ==> final(record)@.data is None,
    {
        let current = record.ref_count;
        record.ref_count = current - 1;
        if current == 1 {
            record.data = None;
        }
    }

    /// Exclusive access succeeds exactly when this is the only handle, in which
    /// case writes through the result land in the payload slot (in the concurrent implementation,
    /// a relaxed load of the counter followed by an acquire fence).
    pub fn get_mut<'a>(arc: &mut Self, record: &'a mut ArcData<T>) -> (m: Option<&'a mut T>)
        requires
            old(record).wf(),
            old(record)@.ref_count >= 1,
        ensures
            m is Some <==> old(record)@.ref_count == 1,
            m is None ==> *final(record) == *old(record),
            m matches Some(p) ==> {
                &&& *p == old(record)@.data.unwrap()
                &&& final(record)@.ref_count == 1
                &&& final(record)@.data == Some(*final(p))
            },
    {
        if record.ref_count == 1 {
            match &mut record.data {
                Some(p) => Some(p),
                None => unreached(),
            }
        } else {
            None
        }
    }
}

} // verus!
