use litra_glow::convert::{
    brightness_from_percent, brightness_to_percent, clamp_brightness, clamp_temperature,
};

#[test]
fn percent_zero_maps_to_device_minimum() {
    assert_eq!(brightness_from_percent(0), 0x14);
}

#[test]
fn percent_hundred_maps_to_device_maximum() {
    assert_eq!(brightness_from_percent(100), 0xfa);
}

#[test]
fn out_of_range_percent_clamps() {
    assert_eq!(brightness_from_percent(150), 0xfa);
    assert_eq!(brightness_from_percent(u16::MAX), 0xfa);
}

#[test]
fn percent_fifty_lands_mid_range() {
    // 0x14 + 50 * 230 / 100 = 20 + 115 = 135
    assert_eq!(brightness_from_percent(50), 135);
}

#[test]
fn every_percent_stays_in_device_range() {
    for p in 0..=200u16 {
        let device = brightness_from_percent(p);
        assert!((0x14..=0xfa).contains(&device));
    }
}

#[test]
fn device_range_maps_back_to_percent() {
    assert_eq!(brightness_to_percent(0x14), 0);
    assert_eq!(brightness_to_percent(0xfa), 100);
    assert_eq!(brightness_to_percent(135), 50);
}

#[test]
fn clamping_brightness_requests() {
    assert_eq!(clamp_brightness(-5), 0x14);
    assert_eq!(clamp_brightness(0), 0x14);
    assert_eq!(clamp_brightness(0x14), 0x14);
    assert_eq!(clamp_brightness(0x80), 0x80);
    assert_eq!(clamp_brightness(0xfa), 0xfa);
    assert_eq!(clamp_brightness(0x3000), 0xfa);
}

#[test]
fn temperature_below_range_clamps_up() {
    // 2650 lies below the range, so it clamps to 2700 and rounds there.
    assert_eq!(clamp_temperature(2650), 2700);
    assert_eq!(clamp_temperature(0), 2700);
    assert_eq!(clamp_temperature(-100), 2700);
}

#[test]
fn temperature_above_range_clamps_down() {
    assert_eq!(clamp_temperature(6550), 6500);
    assert_eq!(clamp_temperature(100_000), 6500);
}

#[test]
fn temperature_rounds_to_nearest_hundred() {
    assert_eq!(clamp_temperature(3249), 3200);
    assert_eq!(clamp_temperature(3250), 3300);
    assert_eq!(clamp_temperature(3300), 3300);
    assert_eq!(clamp_temperature(4475), 4500);
}

#[test]
fn in_range_temperatures_stay_within_fifty_of_the_request() {
    for k in 2700..=6500i32 {
        let rounded = clamp_temperature(k);
        assert_eq!(rounded % 100, 0);
        assert!((i32::from(rounded) - k).abs() <= 50);
    }
}
