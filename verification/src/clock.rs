//! Timestamps of requests.

use crate::error::InverterError;
use vstd::prelude::*;

verus! {

/// The timestamp for a clock that stands `seconds` after the Unix epoch, or
/// before it where there is no such number. A clock past the range of the
/// timestamp counts as its last value.
pub open spec fn timestamp_of(seconds: Option<u64>) -> Result<u32, InverterError> {
    match seconds {
        None => Err(InverterError::ClockBeforeEpoch),
        Some(s) => if s <= u32::MAX {
            Ok(s as u32)
        } else {
            Ok(u32::MAX)
        },
    }
}

/// The same timestamp where a field is signed and must hold it unchanged.
pub open spec fn signed_timestamp_of(seconds: Option<u64>) -> Result<i32, InverterError> {
    match timestamp_of(seconds) {
        Err(e) => Err(e),
        Ok(t) => if t <= i32::MAX {
            Ok(t as i32)
        } else {
            Err(InverterError::TimestampOutOfRange)
        },
    }
}

/// The signed number with the bits of `t`.
pub open spec fn wrapped_timestamp(t: u32) -> i32 {
    if t <= i32::MAX {
        t as i32
    } else {
        (t - 0x1_0000_0000) as i32
    }
}

/// The text that the `format` of `chrono::DateTime` gives under a format string
/// to the date and the time of day that lie `seconds` after the start of 1970
/// on a calendar without time zones.
pub uninterp spec fn calendar_text(format: Seq<char>, seconds: int) -> Seq<char>;

/// Calls `std::time::SystemTime::elapsed` on the Unix epoch: the whole seconds
/// that have passed since then, or nothing where the clock stands before it.
/// Nothing is claimed of the number, which is the time.
#[verifier::external_body]
fn seconds_since_epoch() -> (seconds: Option<u64>) {
    match std::time::UNIX_EPOCH.elapsed() {
        Ok(passed) => Some(passed.as_secs()),
        Err(_) => None,
    }
}

/// Calls `chrono::Local::now` and then its `format`: the date and the time of
/// day in the time zone of the machine. Nothing is claimed of the text, which
/// is the time. `chrono` does not take a clock before the Unix epoch, so
/// callers look at the seconds first. A format string that `chrono` cannot read
/// is left out.
#[verifier::external_body]
fn current_time_string(format: &str) -> (text: String)
    requires
        format@ == "%Y-%m-%d %H:%M:%S"@,
{
    chrono::Local::now().format(format).to_string()
}

/// Calls `chrono::DateTime::<chrono::Local>::from` on the time that lies
/// `seconds` after the Unix epoch, and then its `offset` and its `format`.
/// Claimed: the offset of the local time from UTC is less than a day, and the
/// text is a function of the format string and of the seconds shifted by the
/// offset. Which offset it is stays open, as the time zone of the machine
/// decides. A format string that `chrono` cannot read, or that shows the time
/// zone, is left out.
#[verifier::external_body]
pub(crate) fn local_time_at(format: &str, seconds: u64) -> (local: (i32, String))
    requires
        format@ == "%Y-%m-%d %H:%M:%S.%f"@,
        seconds <= i32::MAX,
    ensures
        -86_400 < local.0 < 86_400,
        local.1@ == calendar_text(format@, seconds + local.0),
{
    let time = std::time::UNIX_EPOCH + std::time::Duration::from_secs(seconds);
    let local = chrono::DateTime::<chrono::Local>::from(time);
    (local.offset().local_minus_utc(), local.format(format).to_string())
}

/// Whether the clock can stand `seconds` after the Unix epoch, or before it
/// where there is no such number: a reading of the clock gave that.
pub closed spec fn clock_shows(seconds: Option<u64>) -> bool {
    call_ensures(seconds_since_epoch, (), seconds)
}

/// Whether the clock can show `text` as local time: a reading of the clock gave
/// that, with date and time of day down to the second.
pub closed spec fn local_clock_shows(text: String) -> bool {
    exists|format: &str|
        format@ == "%Y-%m-%d %H:%M:%S"@ && #[trigger] call_ensures(
            current_time_string,
            (format,),
            text,
        )
}

/// What counts as shown by the clock is what a reading of the clock gave, with
/// nothing done to it.
proof fn law_clock_shows_its_readings(seconds: Option<u64>, text: String)
    ensures
        clock_shows(seconds) ==> call_ensures(seconds_since_epoch, (), seconds),
        local_clock_shows(text) ==> exists|format: &str|
            format@ == "%Y-%m-%d %H:%M:%S"@ && #[trigger] call_ensures(
                current_time_string,
                (format,),
                text,
            ),
{
}

/// Reads the clock.
pub(crate) fn read_clock() -> (seconds: Option<u64>)
    ensures
        clock_shows(seconds),
{
    seconds_since_epoch()
}

/// Reads the clock as local time.
pub(crate) fn read_local_clock() -> (text: String)
    ensures
        local_clock_shows(text),
{
    let format = "%Y-%m-%d %H:%M:%S";
    let text = current_time_string(format);
    assert(format@ == "%Y-%m-%d %H:%M:%S"@ && call_ensures(current_time_string, (format,), text));
    text
}

/// The timestamp for a reading of the clock.
pub fn unix_timestamp(seconds: Option<u64>) -> (r: Result<u32, InverterError>)
    ensures
        r == timestamp_of(seconds),
        r is Ok <==> seconds is Some,
        r matches Ok(t) ==> t == if seconds->0 <= 4_294_967_295 {
            seconds->0 as int
        } else {
            4_294_967_295
        },
{
    match seconds {
        None => Err(InverterError::ClockBeforeEpoch),
        Some(s) => if s <= u32::MAX as u64 {
            Ok(s as u32)
        } else {
            Ok(u32::MAX)
        },
    }
}

/// The signed timestamp for a reading of the clock.
pub fn unix_timestamp_i32(seconds: Option<u64>) -> (r: Result<i32, InverterError>)
    ensures
        r == signed_timestamp_of(seconds),
        r is Ok <==> seconds is Some && seconds->0 <= 2_147_483_647,
        r matches Ok(t) ==> t == seconds->0,
{
    let t = unix_timestamp(seconds)?;
    if t <= i32::MAX as u32 {
        Ok(t as i32)
    } else {
        Err(InverterError::TimestampOutOfRange)
    }
}

/// The signed number with the bits of a timestamp.
pub fn wrap_timestamp(t: u32) -> (r: i32)
    ensures
        r == wrapped_timestamp(t),
{
    if t <= i32::MAX as u32 {
        t as i32
    } else {
        (t as i64 - 0x1_0000_0000) as i32
    }
}

/// A timestamp is the seconds of the clock as long as they fit in 32 bits, and
/// the last timestamp from then on; a clock before the Unix epoch has none.
pub proof fn law_timestamp_is_the_clock(seconds: Option<u64>)
    ensures
        seconds is None ==> timestamp_of(seconds) == Err::<u32, _>(InverterError::ClockBeforeEpoch),
        seconds matches Some(s) ==> timestamp_of(seconds) is Ok,
        seconds matches Some(s) ==> s <= 4_294_967_295 ==> timestamp_of(seconds)->Ok_0 == s,
        seconds matches Some(s) ==> s > 4_294_967_295 ==> timestamp_of(seconds)->Ok_0
            == 4_294_967_295,
{
}

/// A signed timestamp is the seconds of the clock or none at all.
pub proof fn law_signed_timestamp_is_the_clock(seconds: Option<u64>)
    ensures
        seconds is None ==> signed_timestamp_of(seconds) == Err::<i32, _>(
            InverterError::ClockBeforeEpoch,
        ),
        seconds matches Some(s) ==> s <= 2_147_483_647 ==> signed_timestamp_of(seconds) is Ok
            && signed_timestamp_of(seconds)->Ok_0 == s,
        seconds matches Some(s) ==> s > 2_147_483_647 ==> signed_timestamp_of(seconds) == Err::<
            i32,
            _,
        >(InverterError::TimestampOutOfRange),
{
}

/// A wrapped timestamp differs from the timestamp by nothing or by 2^32.
pub proof fn law_wrapped_timestamp_keeps_the_bits(t: u32)
    ensures
        t <= 2_147_483_647 ==> wrapped_timestamp(t) == t,
        t > 2_147_483_647 ==> wrapped_timestamp(t) == t - 4_294_967_296,
{
}

} // verus!
