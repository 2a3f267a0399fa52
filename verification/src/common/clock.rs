use vstd::prelude::*;

verus! {

/// A moment in time: whole seconds since the start of 1970, in UTC, and the
/// billionths of a second past them.
#[derive(Clone, Copy, Debug, PartialEq, Eq, Structural)]
pub struct Timestamp {
    pub secs: i64,
    pub nanos: u32,
}

/// The moment of the call.
pub(crate) fn now() -> Timestamp {
    moment(since_epoch())
}

/// The whole seconds that have passed since the start of 1970, or nothing
/// where the moment read lies before it.
pub fn unix_time() -> (r: Option<u64>)
    ensures
        exists|moment: Timestamp| r == #[trigger] seconds_of(moment),
{
    seconds_since_epoch(now())
}

/// The whole seconds from the start of 1970 to a moment, or nothing for a
/// moment that lies before it.
pub open spec fn seconds_of(moment: Timestamp) -> Option<u64> {
    if moment.secs >= 0 {
        Some(moment.secs as u64)
    } else {
        None
    }
}

/// Counts the whole seconds from the start of 1970 to a moment.
pub fn seconds_since_epoch(moment: Timestamp) -> (r: Option<u64>)
    ensures
        r == seconds_of(moment),
{
    if moment.secs >= 0 {
        Some(moment.secs as u64)
    } else {
        None
    }
}

/// A billion: the billionths in a second.
pub const BILLION: u32 = 1000000000;

/// The moment that a reading of the clock stands for. A reading says how
/// far the moment lies after the start of 1970 (`Ok`) or before it (`Err`),
/// in whole seconds and billionths of a second. A moment before 1970 is
/// counted from the second that begins before it; one that lies further
/// off than can be counted is the furthest that can.
pub open spec fn moment_of(reading: Result<(u64, u32), (u64, u32)>) -> Timestamp {
    match reading {
        Ok((secs, nanos)) => Timestamp {
            secs: if secs <= i64::MAX {
                secs as i64
            } else {
                i64::MAX
            },
            nanos,
        },
        Err((secs, nanos)) => if 0 < nanos < BILLION {
            Timestamp {
                secs: if secs < i64::MAX {
                    (-secs - 1) as i64
                } else {
                    i64::MIN
                },
                nanos: (BILLION - nanos) as u32,
            }
        } else {
            Timestamp {
                secs: if secs <= i64::MAX {
                    (-secs) as i64
                } else {
                    i64::MIN
                },
                nanos: 0,
            }
        },
    }
}

/// Makes a moment of a reading of the clock.
pub fn moment(reading: Result<(u64, u32), (u64, u32)>) -> (r: Timestamp)
    ensures
        r == moment_of(reading),
{
    match reading {
        Ok((secs, nanos)) => {
            let whole: i64 = if secs <= 9223372036854775807 {
                secs as i64
            } else {
                i64::MAX
            };
            Timestamp { secs: whole, nanos }
        },
        Err((secs, nanos)) => {
            if 0 < nanos && nanos < BILLION {
                let whole: i64 = if secs < 9223372036854775807 {
                    -(secs as i64) - 1
                } else {
                    i64::MIN
                };
                Timestamp { secs: whole, nanos: BILLION - nanos }
            } else {
                let whole: i64 = if secs <= 9223372036854775807 {
                    -(secs as i64)
                } else {
                    i64::MIN
                };
                Timestamp { secs: whole, nanos: 0 }
            }
        },
    }
}

/// Calls `std::time::SystemTime::now` and asks how far that moment lies
/// from `std::time::UNIX_EPOCH`: after it (`Ok`) or before it (`Err`), in
/// whole seconds and billionths of a second. It reads the clock, so nothing
/// is claimed of the result.
#[verifier::external_body]
fn since_epoch() -> Result<(u64, u32), (u64, u32)> {
    match std::time::SystemTime::now().duration_since(std::time::UNIX_EPOCH) {
        Ok(after) => Ok((after.as_secs(), after.subsec_nanos())),
        Err(before) => Err((before.duration().as_secs(), before.duration().subsec_nanos())),
    }
}

} // verus!
