use lightsync::light::{LightState, Power, SyncError};
use lightsync::master::{master_request_url, master_state_of, read_master_state};

#[test]
fn full_report_is_normalized() {
    let body = "{\"state\":{\"on\":true,\"hue\":32767,\"sat\":127,\"bri\":127}}";
    let st = read_master_state(body).unwrap();
    assert_eq!(st, LightState { power: Power::On, hue: 179, sat: 49, bri: 49 });
}

#[test]
fn power_off_is_reported_off() {
    let body = "{\"state\":{\"on\":false,\"hue\":0,\"sat\":0,\"bri\":255}}";
    let st = read_master_state(body).unwrap();
    assert_eq!(st, LightState { power: Power::Off, hue: 0, sat: 0, bri: 100 });
}

#[test]
fn absent_channels_fall_back_to_defaults() {
    // hue 0, sat 0, bri 127 raw; bri converts to 49.
    let body = "{\"state\":{\"on\":true}}";
    let st = read_master_state(body).unwrap();
    assert_eq!(st, LightState { power: Power::On, hue: 0, sat: 0, bri: 49 });
}

#[test]
fn malformed_channel_falls_back() {
    let body = "{\"state\":{\"on\":true,\"hue\":\"red\",\"sat\":-3,\"bri\":1.5}}";
    let st = read_master_state(body).unwrap();
    assert_eq!(st, LightState { power: Power::On, hue: 0, sat: 0, bri: 49 });
}

#[test]
fn out_of_range_channel_is_clamped() {
    let body = "{\"state\":{\"on\":true,\"hue\":99999,\"sat\":300,\"bri\":256}}";
    let st = read_master_state(body).unwrap();
    assert_eq!(st, LightState { power: Power::On, hue: 360, sat: 100, bri: 100 });
}

#[test]
fn non_json_body_is_a_read_failure() {
    assert_eq!(read_master_state("not json at all"), Err(SyncError::ReadFailure));
    assert_eq!(read_master_state(""), Err(SyncError::ReadFailure));
}

#[test]
fn missing_state_object_is_a_read_failure() {
    assert_eq!(read_master_state("{\"other\":1}"), Err(SyncError::ReadFailure));
    assert_eq!(read_master_state("[1,2,3]"), Err(SyncError::ReadFailure));
}

#[test]
fn missing_power_field_is_a_read_failure() {
    let body = "{\"state\":{\"hue\":32767,\"sat\":127,\"bri\":127}}";
    assert_eq!(read_master_state(body), Err(SyncError::ReadFailure));
}

#[test]
fn textual_power_field_is_a_read_failure() {
    // Power must be a JSON boolean; the string "true" is not decoded.
    let body = "{\"state\":{\"on\":\"true\"}}";
    assert_eq!(read_master_state(body), Err(SyncError::ReadFailure));
}

#[test]
fn normalization_matches_reader() {
    let body = "{\"state\":{\"on\":true,\"hue\":32767,\"sat\":127,\"bri\":127}}";
    let st = read_master_state(body).unwrap();
    assert_eq!(st, master_state_of(true, Some(32767), Some(127), Some(127)));
}

#[test]
fn master_url_is_assembled() {
    assert_eq!(
        master_request_url("bridge.local", "abc123", 4),
        "http://bridge.local/api/abc123/lights/4"
    );
}
