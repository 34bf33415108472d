//! The wall clock.

use vstd::prelude::*;
use crate::calendar;

verus! {

/// `SystemTime::elapsed` of the Unix epoch, as whole milliseconds; nothing
/// when the clock stands before it. Which moment comes back is up to the
/// machine; a duration never has more than `u64::MAX` whole seconds.
#[verifier::external_body]
pub(crate) fn clock_millis() -> (reading: Option<u128>)
    ensures
        reading matches Some(millis) ==> millis / 1000 <= u64::MAX,
{
    match std::time::UNIX_EPOCH.elapsed() {
        Ok(elapsed) => Some(elapsed.as_millis()),
        Err(_) => None,
    }
}

/// The whole seconds of a clock reading; zero before the epoch.
pub open spec fn seconds_of(reading: Option<u128>) -> int {
    match reading {
        Some(millis) => millis as int / 1000,
        None => 0,
    }
}

/// The milliseconds of a clock reading, at most `u64::MAX`; zero before the epoch.
pub open spec fn millis_of(reading: Option<u128>) -> u64 {
    match reading {
        Some(millis) => if millis > u64::MAX {
            u64::MAX
        } else {
            millis as u64
        },
        None => 0,
    }
}

/// The whole seconds of a clock reading.
pub fn seconds_from(reading: Option<u128>) -> (seconds: u64)
    requires
        seconds_of(reading) <= u64::MAX,
    ensures
        seconds == seconds_of(reading),
{
    match reading {
        Some(millis) => (millis / 1000) as u64,
        None => 0,
    }
}

/// The timestamp of a clock reading.
pub fn rfc3339_from_reading(reading: Option<u128>) -> (stamp: String)
    ensures
        stamp@ == calendar::rfc3339(millis_of(reading) as nat),
{
    let millis: u64 = match reading {
        Some(millis) => if millis > 0xffff_ffff_ffff_ffff {
            u64::MAX
        } else {
            millis as u64
        },
        None => 0,
    };
    calendar::rfc3339_from_millis(millis)
}

/// Whether the clock may show `reading` when it is read.
pub closed spec fn shows(reading: Option<u128>) -> bool {
    call_ensures(clock_millis, (), reading)
}

/// The seconds since the Unix epoch that the clock shows.
pub fn unix_seconds() -> (seconds: u64)
    ensures
        exists|reading: Option<u128>| #[trigger]
            shows(reading) && seconds == seconds_of(reading),
{
    let reading = clock_millis();
    assert(shows(reading));
    seconds_from(reading)
}

/// The time that the clock shows as `YYYY-MM-DDTHH:MM:SSZ`.
pub fn rfc3339_now() -> (stamp: String)
    ensures
        exists|reading: Option<u128>| #[trigger]
            shows(reading) && stamp@ == calendar::rfc3339(millis_of(reading) as nat),
{
    let reading = clock_millis();
    assert(shows(reading));
    rfc3339_from_reading(reading)
}

/// A reading of the clock is told in the seconds that have passed, and in a
/// timestamp of that very second. Before the epoch none has.
pub proof fn law_readings_are_told(millis: u128, seconds: u64, stamp: String, first: String)
    requires
        millis <= u64::MAX,
        call_ensures(seconds_from, (Some(millis),), seconds),
        call_ensures(rfc3339_from_reading, (Some(millis),), stamp),
        call_ensures(rfc3339_from_reading, (None,), first),
    ensures
        seconds * 1000 <= millis < seconds * 1000 + 1000,
        stamp@ == calendar::rfc3339(millis as nat),
        first@ == calendar::rfc3339(0),
{
}

/// The clock is told as it shows: the seconds are those of a reading that it
/// may show, and none before the epoch; the timestamp is of one too.
pub proof fn law_clock_is_told_as_it_shows(seconds: u64, stamp: String)
    requires
        call_ensures(unix_seconds, (), seconds),
        call_ensures(rfc3339_now, (), stamp),
    ensures
        exists|reading: Option<u128>| #[trigger]
            shows(reading) && match reading {
                Some(millis) => seconds * 1000 <= millis < seconds * 1000 + 1000,
                None => seconds == 0,
            },
        exists|reading: Option<u128>| #[trigger]
            shows(reading) && match reading {
                Some(millis) => millis <= u64::MAX ==> stamp@ == calendar::rfc3339(millis as nat),
                None => stamp@ == calendar::rfc3339(0),
            },
{
    let told = choose|reading: Option<u128>| #[trigger]
        shows(reading) && seconds == seconds_of(reading);
    assert(shows(told));
    let stamped = choose|reading: Option<u128>| #[trigger]
        shows(reading) && stamp@ == calendar::rfc3339(millis_of(reading) as nat);
    assert(shows(stamped));
}

} // verus!
