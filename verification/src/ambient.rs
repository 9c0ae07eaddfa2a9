//! What only the running machine can supply: the time of day and random
//! bytes. Nothing is claimed of either value.

use vstd::prelude::*;

verus! {

/// `chrono::Utc::now().timestamp()`: the current time in whole seconds since
/// the Unix epoch.
#[verifier::external_body]
pub(crate) fn unix_time() -> i64 {
    chrono::Utc::now().timestamp()
}

/// `rand::random::<u8>()`: one byte from the thread-local generator, which
/// is seeded from the operating system.
#[verifier::external_body]
pub(crate) fn random_byte() -> u8 {
    rand::random::<u8>()
}

} // verus!
