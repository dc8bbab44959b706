use vstd::prelude::*;

verus! {

/// `std::time::SystemTime`, carried through opaquely.
#[verifier::external_type_specification]
#[verifier::external_body]
pub struct ExSystemTime(std::time::SystemTime);

/// A moment as its distance from the Unix epoch: whole seconds and the nanoseconds past them,
/// and whether the moment lies before the epoch rather than after it.
#[derive(Debug, Clone, Copy)]
pub struct EpochTime {
    pub before_epoch: bool,
    pub secs: u64,
    pub nanos: u32,
}

/// The whole milliseconds from the epoch to `t`; `None` for a moment before the epoch.
pub open spec fn epoch_millis(t: EpochTime) -> Option<u128> {
    if t.before_epoch {
        None
    } else {
        Some((t.secs * 1000 + t.nanos / 1_000_000) as u128)
    }
}

/// A millisecond count clamped into `u64`: an absent count or one beyond `u64::MAX` is 0.
pub open spec fn millis_or_zero(ms: Option<u128>) -> u64 {
    match ms {
        Some(m) => if m <= u64::MAX { m as u64 } else { 0 },
        None => 0,
    }
}

/// Calls `SystemTime::now()`. The value is the machine's clock, so nothing is claimed of it.
#[verifier::external_body]
fn clock_now() -> (t: std::time::SystemTime) {
    std::time::SystemTime::now()
}

/// Calls `SystemTime::duration_since(UNIX_EPOCH)` on `time` and hands back the distance it
/// reports, from the `Ok` or from the error, as seconds and nanoseconds. `SystemTime` is opaque
/// to Verus, so nothing is claimed of the result.
#[verifier::external_body]
fn epoch_offset(time: &std::time::SystemTime) -> (r: EpochTime) {
    match time.duration_since(std::time::UNIX_EPOCH) {
        Ok(d) => EpochTime { before_epoch: false, secs: d.as_secs(), nanos: d.subsec_nanos() },
        Err(e) => EpochTime {
            before_epoch: true,
            secs: e.duration().as_secs(),
            nanos: e.duration().subsec_nanos(),
        },
    }
}

/// The whole milliseconds from the epoch to `t`; `None` for a moment before the epoch.
pub fn epoch_millis_of(t: EpochTime) -> (r: Option<u128>)
    ensures
        r == epoch_millis(t),
{
    if t.before_epoch {
        None
    } else {
        Some(t.secs as u128 * 1000 + t.nanos as u128 / 1_000_000)
    }
}

/// Milliseconds from the epoch to the machine's clock; `None` where it reads before the epoch.
pub(crate) fn now_millis() -> (r: Option<u128>) {
    let t = clock_now();
    epoch_millis_of(epoch_offset(&t))
}

/// Clamps a millisecond count into `u64` as `system_time_to_millis` does.
pub fn millis_to_u64(ms: Option<u128>) -> (r: u64)
    ensures
        r == millis_or_zero(ms),
{
    match ms {
        Some(m) => if m <= u64::MAX as u128 { m as u64 } else { 0 },
        None => 0,
    }
}

/// Milliseconds from the epoch to `time`; 0 for a moment before the epoch or one more than
/// `u64::MAX` milliseconds after it.
pub fn system_time_to_millis(time: EpochTime) -> (r: u64)
    ensures
        r == millis_or_zero(epoch_millis(time)),
{
    millis_to_u64(epoch_millis_of(time))
}

} // verus!
