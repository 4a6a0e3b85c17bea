//! The random draws that spawning a piece needs, taken from the `rand`
//! crate. The contracts in this file are believed, not proved.

use crate::shape::Rotation;
use rand::rngs::ThreadRng;
use rand::seq::SliceRandom;
use rand::Rng;
use vstd::prelude::*;

verus! {

/// `rand::rngs::ThreadRng`, the handle to the generator of the running
/// thread. Nothing is known of what it holds.
#[verifier::external_type_specification]
#[verifier::external_body]
pub struct ExThreadRng(ThreadRng);

/// Calls `rand::thread_rng`, which hands out the generator of the running
/// thread. Nothing is claimed of the result. The call takes no argument; it
/// panics only where the operating system gives the generator no seed.
#[verifier::external_body]
pub(crate) fn thread_rng() -> ThreadRng {
    rand::thread_rng()
}

/// Calls `Rng::gen_range` on the inclusive range `low..=high`. `gen_range`
/// panics on an empty range, which `requires` leaves out; what it returns
/// lies in the range. Which number of the range comes back is not stated:
/// it differs from call to call.
#[verifier::external_body]
pub(crate) fn gen_range_inclusive(rng: &mut ThreadRng, low: i32, high: i32) -> (n: i32)
    requires
        low <= high,
    ensures
        low <= n <= high,
{
    rng.gen_range(low..=high)
}

/// Calls `SliceRandom::choose` on the list: `None` if the list is empty,
/// else one of its elements. Which element comes back is not stated: it
/// differs from call to call.
#[verifier::external_body]
pub(crate) fn choose_rotation(rotations: &Vec<Rotation>, rng: &mut ThreadRng) -> (picked: Option<
    Rotation,
>)
    ensures
        match picked {
            Some(rotation) => rotations@.contains(rotation),
            None => rotations@.len() == 0,
        },
{
    rotations.choose(rng).copied()
}

} // verus!
