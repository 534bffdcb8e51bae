//! The random source behind a new grid: the `rand` crate's thread-local
//! generator. Nothing here is proved: the contracts are taken on trust from
//! what `rand` documents.

use rand::rngs::ThreadRng;
use rand::Rng;
use vstd::prelude::*;

verus! {

/// `rand::rngs::ThreadRng`, a handle to the generator of the current thread.
/// It is carried from its creation to the draws and never looked into.
#[verifier::external_type_specification]
#[verifier::external_body]
pub struct ExThreadRng(ThreadRng);

/// Calls `rand::thread_rng`, which hands out the current thread's generator,
/// seeded by the operating system on first use. Nothing is claimed of the
/// handle. The call panics if the operating system gives no entropy.
#[verifier::external_body]
pub(crate) fn thread_generator() -> ThreadRng {
    rand::thread_rng()
}

/// Calls `rand::Rng::gen_ratio`, which returns `true` with the probability
/// `numerator / denominator`. It panics on a zero denominator and on a
/// numerator above the denominator, which `requires` leaves out. Of the
/// outcome only the two certain cases are claimed: it is `true` when the two
/// are equal and `false` when the numerator is 0.
#[verifier::external_body]
pub(crate) fn draw_ratio(rng: &mut ThreadRng, numerator: u32, denominator: u32) -> (drawn: bool)
    requires
        denominator > 0,
        numerator <= denominator,
    ensures
        numerator == denominator ==> drawn,
        numerator == 0 ==> !drawn,
{
    rng.gen_ratio(numerator, denominator)
}

} // verus!
