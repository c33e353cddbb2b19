use rand::RngCore;
use vstd::prelude::*;

verus! {

// Sequential models of three memory-ordering demonstrations. Each one
// races threads on process-wide atomic state; what remains once the atomics
// are peeled away is a small decision, modelled here as one transition per
// atomic operation on state the caller holds.

/// One attempt of the release/acquire demonstration: an acquire swap tries to
/// take the exclusive flag; whoever gets it appends to the shared data and
/// hands the flag back with a release store. A contender that finds the flag
/// taken leaves everything alone.
pub fn f(locked: &mut bool, data: &mut Vec<u8>)
    ensures
        *old(locked) ==> *final(locked) && final(data)@ == old(data)@,
        !*old(locked) ==> !*final(locked) && final(data)@ == old(data)@.push(33u8),
{
    if !*locked {
        *locked = true;
        // holding the exclusive flag, so nothing else touches the data
        data.push(33u8);  // an exclamation mark
        *locked = false;
    }
}

/// The value the lazy-initialization demonstration computes once and shares.
#[derive(Clone, Copy)]
pub struct Data {
    /// A randomly drawn identifier.
    pub id: u64,
}

/// Relies on rand's thread_rng and RngCore::next_u64: a random 64-bit value,
/// of which nothing can be promised.
#[verifier::external_body]
fn random_u64() -> u64 {
    rand::thread_rng().next_u64()
}

/// Draws a fresh candidate value; its identifier is random, so no call
/// promises anything about which value comes back.
pub fn generate_data() -> Data {
    Data { id: random_u64() }
}

/// One call of the double-checked lazy initialization. The concurrent implementation keeps a
/// process-wide atomic pointer: an acquire load finds it either set or null,
/// and a loser of the initialization race frees its own candidate and adopts
/// the winner's by the compare-and-swap's returned value. The cell here is the
/// caller's explicit `cache`, each call is one of those transitions, and a
/// filled cell is never replaced: every call returns the one stored value.
pub fn get_data(cache: &mut Option<Data>) -> (d: Data)
    ensures
        *final(cache) == Some(d),
        *old(cache) is Some ==> *final(cache) == *old(cache),
{
    if cache.is_none() {
        *cache = Some(generate_data());
    }
    match cache {
        Some(d) => *d,
        None => unreached(),
    }
}

/// One thread of the sequential-consistency demonstration, taken as a single
/// transition: raise your own flag with a sequentially consistent store, then
/// claim the shared buffer iff the other thread's flag has not been seen. The
/// total order that sequential consistency gives the four stores and loads is
/// what rules out both threads claiming the buffer; running the two calls in
/// either order shows exactly one claim.
pub fn store_and_check(my_flag: &mut bool, other_flag: &bool, s: &mut Vec<u8>)
    ensures
        *final(my_flag),
        *other_flag ==> final(s)@ == old(s)@,
        !*other_flag ==> final(s)@ == old(s)@.push(33u8),
{
    *my_flag = true;
    if !*other_flag {
        s.push(33u8);  // an exclamation mark
    }
}

/// The per-thread computation of the fence demonstration: each worker computes
/// its slot's value before publishing it with a release store that the main
/// thread's acquire fence pairs with.
pub fn some_calculation(index: usize) -> (r: u64)
    ensures
        r == index as u64,
{
    index as u64
}

} // verus!
