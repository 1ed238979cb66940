use lightsync::convert::{channel_to_slave, clamp, convert_range};
use lightsync::text::u64_to_string;

#[test]
fn convert_zero_gives_zero() {
    assert_eq!(convert_range(0, 65535, 360), 0);
    assert_eq!(convert_range(0, 255, 100), 0);
}

#[test]
fn convert_source_max_gives_destination_max() {
    assert_eq!(convert_range(65535, 65535, 360), 360);
    assert_eq!(convert_range(255, 255, 100), 100);
}

#[test]
fn convert_midpoint_truncates() {
    // floor(32767 / 65535 * 360) = 179, not 180: the scaling truncates.
    assert_eq!(convert_range(32767, 65535, 360), 179);
    assert_eq!(convert_range(127, 255, 100), 49);
}

#[test]
fn convert_is_monotonic_on_samples() {
    let mut last: u64 = 0;
    let mut src: u64 = 0;
    while src <= 65535 {
        let v = convert_range(src, 65535, 360);
        assert!(v >= last);
        assert!(v <= 360);
        last = v;
        src += 117;
    }
}

#[test]
fn clamp_caps_out_of_range_reports() {
    assert_eq!(clamp(70000, 65535), 65535);
    assert_eq!(clamp(65535, 65535), 65535);
    assert_eq!(clamp(12, 65535), 12);
}

#[test]
fn channel_clamps_then_scales() {
    assert_eq!(channel_to_slave(70000, 65535, 360), 360);
    assert_eq!(channel_to_slave(32767, 65535, 360), 179);
    assert_eq!(channel_to_slave(300, 255, 100), 100);
}

#[test]
fn decimal_rendering_single_digits() {
    assert_eq!(u64_to_string(0), "0");
    assert_eq!(u64_to_string(9), "9");
}

#[test]
fn decimal_rendering_multiple_digits() {
    assert_eq!(u64_to_string(10), "10");
    assert_eq!(u64_to_string(179), "179");
    assert_eq!(u64_to_string(65535), "65535");
    assert_eq!(u64_to_string(u64::MAX), "18446744073709551615");
}
