use vstd::prelude::*;

verus! {

/// Relies on rand::random: it draws a value from the thread-local generator.
/// Nothing is promised of the value; callers must hold for every outcome.
#[verifier::external_body]
pub(crate) fn random_u64() -> u64 {
    rand::random::<u64>()
}

} // verus!
