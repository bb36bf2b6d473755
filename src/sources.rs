//! Identifiers and timestamps, taken from outside the library.

use vstd::prelude::*;

verus! {

/// Relies on `uuid::Uuid::new_v4` and `Uuid`'s `Display`, which writes the
/// hyphenated form: a random version-4 UUID as 36 characters.
#[verifier::external_body]
pub(crate) fn new_task_id() -> (r: String)
    ensures
        r@.len() == 36,
{
    uuid::Uuid::new_v4().to_string()
}

/// Relies on `std::time::SystemTime::now`: whole seconds since the Unix epoch,
/// read from the system clock (0 if the clock reads before the epoch).
#[verifier::external_body]
pub(crate) fn unix_time_secs() -> (r: u64) {
    match std::time::SystemTime::now().duration_since(std::time::UNIX_EPOCH) {
        Ok(d) => d.as_secs(),
        Err(_) => 0,
    }
}

} // verus!
