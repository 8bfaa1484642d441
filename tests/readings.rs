use rust_clock::clock::{clock_text, lisbon_time_text};
use rust_clock::reading::{
    calibrated_temperature, scale_strength, ClimateReading, BAND_MAX, BAND_MIN,
    TEMPERATURE_OFFSET_TENTHS,
};
use rust_clock::text::{signed_text, tenths_string, two_digit_text};

#[test]
fn scaling_ends_and_midpoint() {
    assert_eq!(scale_strength(-20), BAND_MIN);
    assert_eq!(scale_strength(-80), BAND_MAX);
    assert_eq!(scale_strength(-50), 48);
}

#[test]
fn scaling_exact_value() {
    // (75 - 20) * 32 / 60 + 32 = 61
    assert_eq!(scale_strength(-75), 61);
}

#[test]
fn scaling_clamps_outside_domain() {
    assert_eq!(scale_strength(-5), 32);
    assert_eq!(scale_strength(-100), 64);
    assert_eq!(scale_strength(i32::MIN), 64);
    assert_eq!(scale_strength(0), 32);
}

#[test]
fn calibration_subtracts_offset() {
    let r = ClimateReading { temperature: 250, humidity: 455 };
    assert_eq!(calibrated_temperature(r, 40), 210);
    assert_eq!(tenths_string(calibrated_temperature(r, TEMPERATURE_OFFSET_TENTHS)), "21.0");
}

#[test]
fn tenths_text_values() {
    assert_eq!(tenths_string(210), "21.0");
    assert_eq!(tenths_string(-5), "-0.5");
    assert_eq!(tenths_string(-123), "-12.3");
    assert_eq!(tenths_string(7), "0.7");
    assert_eq!(tenths_string(i64::MIN), "-922337203685477580.8");
}

#[test]
fn signed_and_two_digit_text() {
    assert_eq!(signed_text(0), "0");
    assert_eq!(signed_text(-48), "-48");
    assert_eq!(signed_text(1234), "1234");
    assert_eq!(two_digit_text(7), "07");
    assert_eq!(two_digit_text(42), "42");
}

#[test]
fn clock_text_drops_seconds() {
    assert_eq!(clock_text(9, 5), "09:05");
    assert_eq!(clock_text(23, 59), "23:59");
}

#[test]
fn lisbon_time_in_winter_and_summer() {
    // 2024-01-15 12:34:56 UTC: Lisbon is on UTC.
    assert_eq!(lisbon_time_text(1705322096).as_deref(), Some("12:34"));
    // 2024-07-15 12:34:56 UTC: Lisbon is on UTC+1.
    assert_eq!(lisbon_time_text(1721046896).as_deref(), Some("13:34"));
    assert_eq!(lisbon_time_text(i64::MAX), None);
}
