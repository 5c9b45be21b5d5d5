//! The Time Zone RPC: the request time (the caller's UNIX timestamp, or a fixed
//! default when it gives none) and the shape of the answer.

use vstd::prelude::*;

use crate::responses::{string_or_empty, text_or_empty};
use crate::rpc_error::{RpcCode, RpcError};

verus! {

/// The timestamp used when the request carries none (a positive one).
pub const DEFAULT_TIMESTAMP_SECONDS: i64 = 1_700_000_000;

/// The earliest UNIX timestamp that `chrono` represents (the first second of
/// the year -262143).
pub const MIN_UTC_TIMESTAMP: i64 = -8_334_601_228_800;

/// The latest UNIX timestamp that `chrono` represents (the last second of the
/// year 262142).
pub const MAX_UTC_TIMESTAMP: i64 = 8_210_266_876_799;

/// The seconds the request asks about: its timestamp when positive, else the
/// default.
pub open spec fn requested_seconds(timestamp_seconds: i64) -> i64 {
    if timestamp_seconds > 0 {
        timestamp_seconds
    } else {
        DEFAULT_TIMESTAMP_SECONDS
    }
}

/// Whether `chrono::DateTime::from_timestamp(secs, 0)` gives a value. The
/// crate's source gives one exactly when the day of `secs` lies between its
/// earliest and latest dates, that is when `secs` lies between
/// `MIN_UTC_TIMESTAMP` and `MAX_UTC_TIMESTAMP`.
#[verifier::external_body]
fn utc_timestamp_exists(secs: i64) -> (exists: bool)
    ensures
        exists <==> MIN_UTC_TIMESTAMP <= secs <= MAX_UTC_TIMESTAMP,
{
    chrono::DateTime::from_timestamp(secs, 0).is_some()
}

/// The seconds the request asks about: its timestamp when positive, else the
/// default.
pub fn request_seconds(timestamp_seconds: i64) -> (secs: i64)
    ensures
        secs == requested_seconds(timestamp_seconds),
        timestamp_seconds > 0 ==> secs == timestamp_seconds,
        timestamp_seconds <= 0 ==> secs == 1_700_000_000,
{
    if timestamp_seconds > 0 {
        timestamp_seconds
    } else {
        DEFAULT_TIMESTAMP_SECONDS
    }
}

/// The UNIX timestamp (seconds) of the instant the Time Zone RPC asks Google
/// about, checked to be one that `chrono` represents. Fails with the
/// `internal` error "invalid timestamp" exactly when it lies beyond.
pub fn request_time(timestamp_seconds: i64) -> (t: Result<i64, RpcError>)
    ensures
        t is Ok <==> requested_seconds(timestamp_seconds) <= MAX_UTC_TIMESTAMP,
        t matches Ok(secs) ==> secs == requested_seconds(timestamp_seconds),
        0 < timestamp_seconds <= MAX_UTC_TIMESTAMP ==> t == Ok::<i64, RpcError>(timestamp_seconds),
        t matches Err(e) ==> e.code == RpcCode::Internal && e.message@ == "invalid timestamp"@,
{
    let secs = request_seconds(timestamp_seconds);
    if utc_timestamp_exists(secs) {
        Ok(secs)
    } else {
        Err(RpcError::internal("invalid timestamp"))
    }
}

/// What the Maps client reports for a time zone; the status is already in its
/// text form.
pub struct TimeZoneData {
    pub time_zone_id: Option<String>,
    pub time_zone_name: Option<String>,
    pub raw_offset_seconds: Option<i64>,
    pub dst_offset_seconds: Option<i64>,
    pub status: String,
}

/// The Time Zone RPC's answer.
#[derive(Debug)]
pub struct TimeZoneAnswer {
    pub time_zone_id: String,
    pub time_zone_name: String,
    pub raw_offset_seconds: i64,
    pub dst_offset_seconds: i64,
    pub status: String,
}

/// The number, zero when absent.
pub open spec fn number_or_zero(n: Option<i64>) -> i64 {
    match n {
        Some(v) => v,
        None => 0,
    }
}

/// The Time Zone answer: id and name empty when missing, offsets zero when
/// missing, and the status.
pub fn time_zone_answer(data: &TimeZoneData) -> (a: TimeZoneAnswer)
    ensures
        a.time_zone_id@ == text_or_empty(data.time_zone_id),
        a.time_zone_name@ == text_or_empty(data.time_zone_name),
        a.raw_offset_seconds == number_or_zero(data.raw_offset_seconds),
        a.dst_offset_seconds == number_or_zero(data.dst_offset_seconds),
        a.status@ == data.status@,
{
    TimeZoneAnswer {
        time_zone_id: string_or_empty(&data.time_zone_id),
        time_zone_name: string_or_empty(&data.time_zone_name),
        raw_offset_seconds: match data.raw_offset_seconds {
            Some(v) => v,
            None => 0,
        },
        dst_offset_seconds: match data.dst_offset_seconds {
            Some(v) => v,
            None => 0,
        },
        status: data.status.clone(),
    }
}

/// Law: a positive timestamp is asked about as it is; only a timestamp of
/// zero or below falls back to the default of 1 700 000 000.
pub proof fn lemma_requested_seconds(t: i64)
    ensures
        t > 0 ==> requested_seconds(t) == t,
        t <= 0 ==> requested_seconds(t) == 1_700_000_000,
{
}

} // verus!
