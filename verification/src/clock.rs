use vstd::prelude::*;

verus! {

/// The error `std::time::SystemTime` reports when the system clock stands
/// before the instant it is measured from.
#[verifier::external_type_specification]
#[verifier::external_body]
pub struct ExSystemTimeError(std::time::SystemTimeError);

/// Calls `std::time::SystemTime::elapsed` on `std::time::UNIX_EPOCH`: the
/// time from the Unix epoch to the current system time, or an error when the
/// system clock stands before the epoch. The result depends on the clock, so
/// nothing is promised of it.
#[verifier::external_body]
fn elapsed_since_unix_epoch() -> (elapsed: Result<std::time::Duration, std::time::SystemTimeError>) {
    std::time::UNIX_EPOCH.elapsed()
}

/// Calls `std::time::Duration::as_nanos`: the whole number of nanoseconds in
/// the duration. `Duration` is opaque here, so no clause relates the result
/// to it.
#[verifier::external_body]
fn duration_as_nanos(duration: &std::time::Duration) -> (nanos: u128) {
    duration.as_nanos()
}

/// Reads the system clock as nanoseconds since the Unix epoch; when the clock
/// stands before the epoch the error's message is returned instead. The value
/// depends on the clock, so the contract states nothing of it.
pub fn unix_time_nanos() -> (nanos: Result<u128, String>) {
    match elapsed_since_unix_epoch() {
        Ok(duration) => Ok(duration_as_nanos(&duration)),
        Err(error) => Err(error.to_string()),
    }
}

} // verus!
