use vstd::prelude::*;

verus! {

#[verifier::external_type_specification]
#[verifier::external_body]
pub struct ExSystemTime(std::time::SystemTime);

/// `std::time::SystemTime::now()`: the wall clock now. Nothing is stated of
/// its value.
#[verifier::external_body]
fn system_time_now() -> std::time::SystemTime {
    std::time::SystemTime::now()
}

/// `t.duration_since(std::time::UNIX_EPOCH)`, `None` where `t` is before the
/// epoch. Which duration comes out depends on the clock and is not stated.
#[verifier::external_body]
fn since_unix_epoch(t: &std::time::SystemTime) -> Option<std::time::Duration> {
    t.duration_since(std::time::UNIX_EPOCH).ok()
}

/// `d.as_millis()`: the whole milliseconds of `d`. A `Duration` is opaque
/// here, so nothing is stated of the number.
#[verifier::external_body]
fn duration_millis(d: &std::time::Duration) -> u128 {
    d.as_millis()
}

/// Milliseconds as the memory store keeps them: the low 64 bits of the
/// count, read as a signed number (`as i64`).
pub fn millis_to_i64(ms: u128) -> (r: i64)
    ensures
        r == ms as i64,
{
    ms as i64
}

/// The whole milliseconds since the Unix epoch as the memory store keeps
/// them, given the clock's reading: `since` is the whole milliseconds from
/// the epoch to now, `None` when the clock is before the epoch (then `0`).
pub fn millis_since_epoch(since: Option<u128>) -> (r: i64)
    ensures
        r == (match since {
            Some(ms) => ms as i64,
            None => 0i64,
        }),
{
    match since {
        Some(ms) => millis_to_i64(ms),
        None => 0,
    }
}

/// The wall clock in milliseconds since the Unix epoch, `0` when the clock
/// is before the epoch.
pub fn now_ms() -> i64 {
    let t = system_time_now();
    let since: Option<u128> = match since_unix_epoch(&t) {
        Some(d) => Some(duration_millis(&d)),
        None => None,
    };
    millis_since_epoch(since)
}

} // verus!
