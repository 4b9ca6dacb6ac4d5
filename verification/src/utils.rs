//! Random numbers.

use vstd::prelude::*;

verus! {

/// Draws a number from `low..=high` with
/// `rand::thread_rng().gen_range(low..=high)`. Trusted: the number lies in
/// that inclusive range, as rand documents; which number it is depends on
/// chance. rand panics on an empty range, which `requires` rules out, and
/// when the system's entropy source cannot seed the thread's generator,
/// which depends on no argument.
#[verifier::external_body]
pub(crate) fn random_in_range(low: u64, high: u64) -> (n: u64)
    requires
        low <= high,
    ensures
        low <= n <= high,
{
    rand::Rng::gen_range(&mut rand::thread_rng(), low..=high)
}

} // verus!
