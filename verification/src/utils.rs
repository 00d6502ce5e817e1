use vstd::prelude::*;

verus! {

/// `std::time::SystemTime`, a reading of the wall clock.
#[verifier::external_type_specification]
#[verifier::external_body]
pub struct ExSystemTime(std::time::SystemTime);

/// `std::time::SystemTimeError`, the failure of `SystemTime::duration_since`.
#[verifier::external_type_specification]
#[verifier::external_body]
pub struct ExSystemTimeError(std::time::SystemTimeError);

/// `SystemTime::now` reads the wall clock: nothing is known of what it returns.
pub assume_specification[ std::time::SystemTime::now ]() -> (now: std::time::SystemTime);

/// `SystemTime::duration_since` fails when `earlier` lies after `this`; the
/// clock decides which, so nothing is stated of the result.
pub assume_specification[ std::time::SystemTime::duration_since ](
    this: &std::time::SystemTime,
    earlier: std::time::SystemTime,
) -> (elapsed: Result<std::time::Duration, std::time::SystemTimeError>);

/// The whole seconds that a duration holds, as `Duration::as_secs` gives
/// them. A duration is opaque here, so the number has a name and no more.
pub uninterp spec fn whole_seconds(d: std::time::Duration) -> u64;

/// `Duration::as_secs` gives the whole seconds of a duration, which depend on
/// the duration alone.
pub assume_specification[ std::time::Duration::as_secs ](d: &std::time::Duration) -> (secs: u64)
    ensures
        secs == whole_seconds(*d),
;

/// The constant `std::time::UNIX_EPOCH`, the start of 1970 in UTC. Nothing
/// is stated of it: the time type is opaque here.
#[verifier::external_body]
fn unix_epoch() -> (epoch: std::time::SystemTime) {
    std::time::UNIX_EPOCH
}

/// The seconds that a measurement of elapsed time stands for.
pub open spec fn seconds_of(
    elapsed: Result<std::time::Duration, std::time::SystemTimeError>,
) -> Option<u64> {
    match elapsed {
        Ok(d) => Some(whole_seconds(d)),
        Err(_) => None,
    }
}

/// The whole seconds of a measured time, and `None` where the measurement
/// failed.
pub fn elapsed_seconds(elapsed: Result<std::time::Duration, std::time::SystemTimeError>) -> (secs:
    Option<u64>)
    ensures
        secs == seconds_of(elapsed),
{
    match elapsed {
        Ok(d) => Some(d.as_secs()),
        Err(_) => None,
    }
}

/// Seconds since the Unix epoch by the wall clock, or `None` if the clock
/// stands before the epoch. The clock alone decides which, and which number:
/// every reading is possible.
pub fn get_utc_now() -> (now: Option<u64>) {
    let t = std::time::SystemTime::now();
    elapsed_seconds(t.duration_since(unix_epoch()))
}

} // verus!
