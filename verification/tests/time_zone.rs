use google_maps_connectrpc::rpc_error::RpcCode;
use google_maps_connectrpc::time_zone::{
    request_seconds, request_time, time_zone_answer, TimeZoneData, DEFAULT_TIMESTAMP_SECONDS,
    MAX_UTC_TIMESTAMP, MIN_UTC_TIMESTAMP,
};

#[test]
fn missing_timestamp_uses_the_default() {
    assert_eq!(request_seconds(0), 1_700_000_000);
    assert_eq!(request_seconds(-5), DEFAULT_TIMESTAMP_SECONDS);
    assert_eq!(request_seconds(1), 1);
    assert_eq!(request_seconds(1_234_567_890), 1_234_567_890);
}

#[test]
fn request_time_accepts_what_chrono_represents() {
    assert_eq!(request_time(0).ok(), Some(1_700_000_000));
    assert_eq!(request_time(1_600_000_000).ok(), Some(1_600_000_000));
    assert_eq!(request_time(MAX_UTC_TIMESTAMP).ok(), Some(MAX_UTC_TIMESTAMP));
    let err = request_time(MAX_UTC_TIMESTAMP + 1).err().expect("beyond chrono's range");
    assert_eq!(err.code, RpcCode::Internal);
    assert_eq!(err.message, "invalid timestamp");
    assert!(request_time(i64::MAX).is_err());
}

#[test]
fn chrono_bounds_match_the_stated_ones() {
    assert_eq!(chrono::DateTime::<chrono::Utc>::MAX_UTC.timestamp(), MAX_UTC_TIMESTAMP);
    assert_eq!(chrono::DateTime::<chrono::Utc>::MIN_UTC.timestamp(), MIN_UTC_TIMESTAMP);
    let t = chrono::DateTime::from_timestamp(request_time(0).unwrap(), 0).unwrap();
    assert_eq!(t.timestamp(), 1_700_000_000);
}

#[test]
fn time_zone_answer_defaults_missing_fields() {
    let a = time_zone_answer(&TimeZoneData {
        time_zone_id: Some("America/Toronto".into()),
        time_zone_name: None,
        raw_offset_seconds: Some(-18000),
        dst_offset_seconds: None,
        status: "Ok".into(),
    });
    assert_eq!(a.time_zone_id, "America/Toronto");
    assert_eq!(a.time_zone_name, "");
    assert_eq!(a.raw_offset_seconds, -18000);
    assert_eq!(a.dst_offset_seconds, 0);
    assert_eq!(a.status, "Ok");
}
