//! Reading the clock.
use vstd::prelude::*;

verus! {

/// Reads the system clock through `std::time::SystemTime::now` and
/// `duration_since(UNIX_EPOCH)`: the whole seconds since the Unix epoch and
/// the nanoseconds past them (`as_secs`, `subsec_nanos`), or `None` when the
/// clock reads earlier than the epoch. std documents the nanoseconds as less
/// than one second; nothing else is claimed: the value depends on the time of
/// the call.
#[verifier::external_body]
pub(crate) fn clock_reading() -> (r: Option<(u64, u32)>)
    ensures
        r matches Some(d) ==> d.1 < 1_000_000_000,
{
    match std::time::SystemTime::now().duration_since(std::time::UNIX_EPOCH) {
        Ok(d) => Some((d.as_secs(), d.subsec_nanos())),
        Err(_) => None,
    }
}

/// The milliseconds elapsed since the Unix epoch, as the system clock reads
/// them now (0 when it reads earlier than the epoch).
pub(crate) fn now_millis() -> (ms: u64) {
    match clock_reading() {
        Some((secs, nanos)) => {
            let part: u64 = (nanos / 1_000_000) as u64;
            if secs > (u64::MAX - part) / 1000 {
                u64::MAX
            } else {
                secs * 1000 + part
            }
        },
        None => 0,
    }
}

} // verus!
