use std::cell::Cell;
use std::rc::Rc;

use arclite::arc::basic;
use arclite::arc::better_weak;
use arclite::arc::with_weak;

/// A payload whose destructor bumps a shared counter when it runs, so a test
/// can observe when the payload is destroyed and how often.
struct DetectDrop {
    drops: Rc<Cell<usize>>,
}

impl Drop for DetectDrop {
    fn drop(&mut self) {
        self.drops.set(self.drops.get() + 1);
    }
}

#[test]
fn reference_counting_test() {
    let num_drops = Rc::new(Cell::new(0usize));
    // Two handles sharing an object containing a string and a DetectDrop,
    // to detect when it's dropped.
    let (mut record, x) = basic::Arc::new(("hello", DetectDrop { drops: num_drops.clone() }));
    let y = x.clone(&mut record);
    // One handle would cross to a second thread; both read the same payload.
    assert_eq!(x.data(&record).0, "hello");
    assert_eq!(y.data(&record).0, "hello");
    // The other thread finishes and drops x. We still have y, so the object
    // shouldn't have been dropped yet.
    x.release(&mut record);
    assert_eq!(num_drops.get(), 0);
    // Now that y is dropped too, the object should've been dropped.
    y.release(&mut record);
    assert_eq!(num_drops.get(), 1);
}

#[test]
fn with_weak_reference_counting_test() {
    let num_drops = Rc::new(Cell::new(0usize));
    // One strong handle with two weak handles.
    let (mut record, x) = with_weak::Arc::new(("hello", DetectDrop { drops: num_drops.clone() }));
    let y = with_weak::Arc::downgrade(&x, &mut record);
    let z = with_weak::Arc::downgrade(&x, &mut record);
    // On the other thread: the weak handle should be upgradable at this point.
    let upgraded = y.upgrade(&mut record);
    let y2 = upgraded.unwrap();
    assert_eq!(y2.data(&record).0, "hello");
    y2.release(&mut record);
    y.release(&mut record);
    assert_eq!(x.data(&record).0, "hello");
    // The data shouldn't be dropped yet, and the weak pointer should be
    // upgradable.
    assert_eq!(num_drops.get(), 0);
    let z2 = z.upgrade(&mut record);
    assert!(z2.is_some());
    z2.unwrap().release(&mut record);
    x.release(&mut record);
    // Now the data should be dropped, and the weak pointer should no longer
    // be upgradable.
    assert_eq!(num_drops.get(), 1);
    assert!(z.upgrade(&mut record).is_none());
    z.release(&mut record);
    assert_eq!(record.alloc_count(), 0);
}

#[test]
fn scenario_clone_then_drop() {
    let num_drops = Rc::new(Cell::new(0usize));
    let (mut record, x) = better_weak::Arc::new(DetectDrop { drops: num_drops.clone() });
    let y = x.clone(&mut record);
    x.release(&mut record);
    // the clone still lives: the destructor must not have run
    assert_eq!(num_drops.get(), 0);
    assert_eq!(record.strong_count(), 1);
    y.release(&mut record);
    // the last strong handle is gone: the destructor ran exactly once
    assert_eq!(num_drops.get(), 1);
    assert_eq!(record.strong_count(), 0);
    assert_eq!(record.alloc_count(), 0);
}

#[test]
fn scenario_weak_outlives_payload() {
    let num_drops = Rc::new(Cell::new(0usize));
    let (mut record, x) = better_weak::Arc::new(DetectDrop { drops: num_drops.clone() });
    let w1 = better_weak::Arc::downgrade(&x, &mut record);
    let w2 = better_weak::Arc::downgrade(&x, &mut record);
    x.release(&mut record);
    // the payload was destroyed exactly once ...
    assert_eq!(num_drops.get(), 1);
    assert_eq!(record.strong_count(), 0);
    // ... and neither weak handle can reach it any more
    assert!(w1.upgrade(&mut record).is_none());
    assert!(w2.upgrade(&mut record).is_none());
    // the allocation itself still lives, for the weak handles' bookkeeping
    assert_eq!(record.alloc_count(), 2);
    w1.release(&mut record);
    w2.release(&mut record);
    assert_eq!(record.alloc_count(), 0);
}

#[test]
fn scenario_concurrent_upgrade() {
    // One interleaving of the race between an upgrading thread and the still
    // live original handle: the upgrade's transition lands while the strong
    // count is positive, so it must succeed and see the full payload.
    let (mut record, x) = better_weak::Arc::new(7u64);
    let w = better_weak::Arc::downgrade(&x, &mut record);
    let upgraded = w.upgrade(&mut record);
    let y = upgraded.unwrap();
    assert_eq!(*y.data(&record), 7);
    assert_eq!(*x.data(&record), 7);
    assert_eq!(record.strong_count(), 2);
    y.release(&mut record);
    w.release(&mut record);
    x.release(&mut record);
    assert_eq!(record.alloc_count(), 0);
}

#[test]
fn scenario_exclusive_access() {
    let (mut record, mut x) = better_weak::Arc::new(5u64);
    let w = better_weak::Arc::downgrade(&x, &mut record);
    // one strong and one weak handle outstanding: the probe must refuse
    assert!(better_weak::Arc::get_mut(&mut x, &mut record).is_none());
    w.release(&mut record);
    // the strong handle is now unique: the probe must grant, and writes
    // through the grant land in the payload
    {
        let m = better_weak::Arc::get_mut(&mut x, &mut record);
        let p = m.unwrap();
        assert_eq!(*p, 5);
        *p = 6;
    }
    assert_eq!(*x.data(&record), 6);
    x.release(&mut record);
    assert_eq!(record.alloc_count(), 0);
}

#[test]
fn basic_exclusive_access() {
    let (mut record, mut x) = basic::Arc::new(11u64);
    let y = x.clone(&mut record);
    // two handles: no exclusive access
    assert!(basic::Arc::get_mut(&mut x, &mut record).is_none());
    y.release(&mut record);
    {
        let m = basic::Arc::get_mut(&mut x, &mut record);
        let p = m.unwrap();
        *p = 12;
    }
    assert_eq!(*x.data(&record), 12);
    x.release(&mut record);
    assert_eq!(record.strong_count(), 0);
}

#[test]
fn with_weak_exclusive_access() {
    let (mut record, mut x) = with_weak::Arc::new(3u64);
    let w = with_weak::Arc::downgrade(&x, &mut record);
    // a weak handle holds an alloc unit of its own: the probe must refuse
    assert!(with_weak::Arc::get_mut(&mut x, &mut record).is_none());
    w.release(&mut record);
    {
        let m = with_weak::Arc::get_mut(&mut x, &mut record);
        let p = m.unwrap();
        *p = 4;
    }
    assert_eq!(*x.data(&record), 4);
    x.release(&mut record);
    assert_eq!(record.alloc_count(), 0);
}

#[test]
fn cloned_weak_handles_count_alike() {
    let (mut record, x) = better_weak::Arc::new(9u64);
    let w1 = better_weak::Arc::downgrade(&x, &mut record);
    let w2 = w1.clone(&mut record);
    assert_eq!(record.alloc_count(), 3);
    // either copy upgrades as well as the other
    let up = w2.upgrade(&mut record).unwrap();
    assert_eq!(*up.data(&record), 9);
    up.release(&mut record);
    w2.release(&mut record);
    w1.release(&mut record);
    x.release(&mut record);
    assert_eq!(record.alloc_count(), 0);

    let (mut record, x) = with_weak::Arc::new(9u64);
    let w1 = with_weak::Arc::downgrade(&x, &mut record);
    let w2 = w1.clone(&mut record);
    // here every handle of either kind holds one combined unit
    assert_eq!(record.alloc_count(), 3);
    x.release(&mut record);
    assert!(w2.upgrade(&mut record).is_none());
    w2.release(&mut record);
    w1.release(&mut record);
    assert_eq!(record.alloc_count(), 0);
}

#[test]
fn stress_interleaved_clones_and_drops() {
    // A deterministic shuffle of clone and drop transitions of both handle
    // kinds, standing for the linearization of many racing threads; at the
    // end every handle is dropped, both counters read zero, and the payload
    // was destroyed exactly once.
    let num_drops = Rc::new(Cell::new(0usize));
    let (mut record, first) = better_weak::Arc::new(DetectDrop { drops: num_drops.clone() });
    let mut strongs = vec![first];
    let mut weaks = Vec::new();
    let mut seed: u64 = 0x9E3779B97F4A7C15;
    for _ in 0..1000 {
        seed ^= seed << 13;
        seed ^= seed >> 7;
        seed ^= seed << 17;
        match seed % 5 {
            0 => {
                let c = strongs.last().unwrap().clone(&mut record);
                strongs.push(c);
            }
            1 => {
                if strongs.len() > 1 {
                    strongs.pop().unwrap().release(&mut record);
                }
            }
            2 => {
                let w = better_weak::Arc::downgrade(strongs.last().unwrap(), &mut record);
                weaks.push(w);
            }
            3 => {
                if let Some(w) = weaks.pop() {
                    w.release(&mut record);
                }
            }
            _ => {
                if let Some(w) = weaks.last() {
                    let upgraded = w.upgrade(&mut record);
                    strongs.push(upgraded.unwrap());
                }
            }
        }
        assert_eq!(record.strong_count(), strongs.len());
        assert_eq!(record.alloc_count(), weaks.len() + 1);
        assert_eq!(num_drops.get(), 0);
    }
    for w in weaks {
        w.release(&mut record);
    }
    while strongs.len() > 0 {
        strongs.pop().unwrap().release(&mut record);
    }
    assert_eq!(record.strong_count(), 0);
    assert_eq!(record.alloc_count(), 0);
    assert_eq!(num_drops.get(), 1);
}
