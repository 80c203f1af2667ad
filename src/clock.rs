//! The wall clock and fresh identifiers, read from outside the library.
use vstd::prelude::*;
use crate::error::Error;

verus! {

/// Reads the wall clock as nanoseconds since the Unix epoch.
///
/// Relies on `std::time::SystemTime::now` and `SystemTime::duration_since`:
/// the latter fails exactly when the clock reads earlier than the epoch,
/// which is reported as a timestamp error. Nothing is promised of the value.
#[verifier::external_body]
pub fn current_timestamp() -> (r: Result<u128, Error>)
    ensures
        r matches Err(e) ==> e is TimestampError,
{
    std::time::SystemTime::now()
        .duration_since(std::time::UNIX_EPOCH)
        .map(|d| d.as_nanos())
        .map_err(|e| Error::TimestampError(e.to_string()))
}

/// Draws a fresh random identifier.
///
/// Relies on `uuid::Uuid::new_v4` and its hyphenated `to_string`: the text
/// has the 36 characters of the hyphenated form. Nothing else is promised.
#[verifier::external_body]
pub fn new_context_id() -> (r: String)
    ensures
        r@.len() == 36,
{
    uuid::Uuid::new_v4().to_string()
}

} // verus!
