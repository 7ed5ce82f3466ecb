//! Real-time clock device `/dev/rtc0`: the `RTC_RD_TIME` request, answered
//! with the calendar fields of the wall-clock time as computed by `chrono`.
use vstd::prelude::*;

use chrono::{Datelike, Timelike};

use crate::errno::AxError;

verus! {

/// `_IOR('p', 0x09, struct rtc_time)`.
pub const RTC_RD_TIME: u32 = 0x8024_7009;

/// `struct rtc_time`.
#[derive(Clone, Copy, Debug, PartialEq, Eq, Structural)]
pub struct RtcTime {
    pub tm_sec: i32,
    pub tm_min: i32,
    pub tm_hour: i32,
    pub tm_mday: i32,
    pub tm_mon: i32,
    pub tm_year: i32,
    pub tm_wday: i32,
    pub tm_yday: i32,
    pub tm_isdst: i32,
}

/// UTC calendar fields (second, minute, hour, day of month, month from 0,
/// year) of the instant `nanos` nanoseconds after the Unix epoch, as
/// `chrono` computes them.
pub uninterp spec fn utc_fields_of_nanos(nanos: i64) -> (u32, u32, u32, u32, u32, i32);

/// `chrono::DateTime::from_timestamp_nanos` followed by its `second`,
/// `minute`, `hour`, `day`, `month0` and `year` accessors. The fields are
/// the named calendar fields of `nanos`; the ranges are those that chrono
/// documents for each accessor, and the year stays within chrono's
/// representable years.
#[verifier::external_body]
fn utc_fields_from_nanos(nanos: i64) -> (f: (u32, u32, u32, u32, u32, i32))
    ensures
        f == utc_fields_of_nanos(nanos),
        f.0 <= 59,
        f.1 <= 59,
        f.2 <= 23,
        1 <= f.3 <= 31,
        f.4 <= 11,
        -262143 <= f.5 <= 262142,
{
    let wall = chrono::DateTime::from_timestamp_nanos(nanos);
    (wall.second(), wall.minute(), wall.hour(), wall.day(), wall.month0(), wall.year())
}

/// The `struct rtc_time` for calendar fields `f`: years counted from 1900,
/// week day, year day and DST flag left zero.
pub open spec fn spec_rtc_time(f: (u32, u32, u32, u32, u32, i32)) -> RtcTime {
    RtcTime {
        tm_sec: f.0 as i32,
        tm_min: f.1 as i32,
        tm_hour: f.2 as i32,
        tm_mday: f.3 as i32,
        tm_mon: f.4 as i32,
        tm_year: (f.5 - 1900) as i32,
        tm_wday: 0,
        tm_yday: 0,
        tm_isdst: 0,
    }
}

/// Request understood by the RTC device.
#[derive(Clone, Copy, Debug, PartialEq, Eq, Structural)]
pub enum RtcRequest {
    ReadTime,
}

/// The RTC device.
pub struct Rtc;

impl Rtc {
    /// Reads return no data.
    pub fn read_at(&self, buf: &[u8], offset: u64) -> (r: Result<usize, AxError>)
        ensures
            r == Ok::<usize, AxError>(0),
    {
        Ok(0)
    }

    /// Writes are accepted and ignored.
    pub fn write_at(&self, buf: &[u8], offset: u64) -> (r: Result<usize, AxError>)
        ensures
            r == Ok::<usize, AxError>(0),
    {
        Ok(0)
    }

    /// The request an ioctl command asks for; anything but `RTC_RD_TIME` is
    /// not a terminal request this device knows.
    pub fn ioctl_request(&self, cmd: u32) -> (r: Result<RtcRequest, AxError>)
        ensures
            cmd == RTC_RD_TIME ==> r == Ok::<RtcRequest, AxError>(RtcRequest::ReadTime),
            cmd != RTC_RD_TIME ==> r == Err::<RtcRequest, AxError>(AxError::NotATty),
    {
        if cmd == RTC_RD_TIME {
            Ok(RtcRequest::ReadTime)
        } else {
            Err(AxError::NotATty)
        }
    }

    /// The `struct rtc_time` that `RTC_RD_TIME` copies out for the wall
    /// time `wall_nanos` (nanoseconds since the epoch, taken as a signed
    /// count).
    pub fn read_time(&self, wall_nanos: u64) -> (t: RtcTime)
        ensures
            t == spec_rtc_time(utc_fields_of_nanos(wall_nanos as i64)),
    {
        let f = utc_fields_from_nanos(#[verifier::truncate] (wall_nanos as i64));
        rtc_time_from_fields(f)
    }
}

/// The `struct rtc_time` for calendar fields `f`, within the ranges that
/// the calendar computation produces.
pub fn rtc_time_from_fields(f: (u32, u32, u32, u32, u32, i32)) -> (t: RtcTime)
    requires
        f.0 <= 59,
        f.1 <= 59,
        f.2 <= 23,
        f.3 <= 31,
        f.4 <= 11,
        -262143 <= f.5,
    ensures
        t == spec_rtc_time(f),
{
    RtcTime {
        tm_sec: f.0 as i32,
        tm_min: f.1 as i32,
        tm_hour: f.2 as i32,
        tm_mday: f.3 as i32,
        tm_mon: f.4 as i32,
        tm_year: f.5 - 1900,
        tm_wday: 0,
        tm_yday: 0,
        tm_isdst: 0,
    }
}

} // verus!
