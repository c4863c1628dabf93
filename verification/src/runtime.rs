//! What the library takes from the machine it runs on: the time and fresh identifiers.

use vstd::prelude::*;

verus! {

/// Calls `chrono::Utc::now` and hands the instant back twice: as the date-time that rows are
/// stamped with, and as whole seconds since the Unix epoch.
///
/// Assumed of the outside crate: the seconds of a date-time lie within 2^48 of zero, since
/// its days are counted in 32 bits. Nothing is claimed of which instant it is.
#[verifier::external_body]
pub(crate) fn current_time() -> (r: (chrono::NaiveDateTime, i64))
    ensures
        -0x1_0000_0000_0000 < r.1 < 0x1_0000_0000_0000,
{
    let now = chrono::Utc::now();
    (now.naive_utc(), now.timestamp())
}

/// Calls `uuid::Uuid::new_v4` and hands back the 128-bit value of the random UUID. Nothing
/// is claimed of it: that it differs from the ids in use is checked where it is stored.
#[verifier::external_body]
pub(crate) fn random_id() -> u128 {
    uuid::Uuid::new_v4().as_u128()
}

} // verus!
