use vstd::prelude::*;

verus! {

/// Weakest signal magnitude that the trace distinguishes (dBm, as |raw|).
pub const STRENGTH_LOW: i64 = 20;

/// Strongest signal magnitude that the trace distinguishes (dBm, as |raw|).
pub const STRENGTH_HIGH: i64 = 80;

/// Top row of the band in which the trace is drawn.
pub const BAND_MIN: u32 = 32;

/// Bottom row of the band in which the trace is drawn.
pub const BAND_MAX: u32 = 64;

/// Calibration that the clock applies by default: the sensor sits near the
/// display electronics and reads four degrees warm (in tenths of a degree).
pub const TEMPERATURE_OFFSET_TENTHS: i32 = 40;

/// |raw| held to the range that the trace distinguishes.
pub open spec fn clamped_magnitude(raw: int) -> int {
    let m = if raw < 0 { -raw } else { raw };
    if m < STRENGTH_LOW {
        STRENGTH_LOW as int
    } else if m > STRENGTH_HIGH {
        STRENGTH_HIGH as int
    } else {
        m
    }
}

/// The display row of a raw signal strength: its magnitude mapped linearly
/// from `[20, 80]` onto `[32, 64]`, rounded down, magnitudes outside the
/// range held at its ends.
pub open spec fn scaled_row(raw: int) -> int {
    (clamped_magnitude(raw) - STRENGTH_LOW) * (BAND_MAX - BAND_MIN) / (STRENGTH_HIGH
        - STRENGTH_LOW) + BAND_MIN
}

/// The display row at which a raw signal strength (a negative dBm value
/// such as -75) is drawn; always within the trace band.
pub fn scale_strength(raw: i32) -> (r: u32)
    ensures
        r == scaled_row(raw as int),
        BAND_MIN <= r <= BAND_MAX,
{
    let r64: i64 = raw as i64;
    let m: i64 = if r64 < 0 { -r64 } else { r64 };
    let c: i64 = if m < STRENGTH_LOW {
        STRENGTH_LOW
    } else if m > STRENGTH_HIGH {
        STRENGTH_HIGH
    } else {
        m
    };
    let span: i64 = (BAND_MAX - BAND_MIN) as i64;
    let q: i64 = (c - STRENGTH_LOW) * span / (STRENGTH_HIGH - STRENGTH_LOW);
    assert(0 <= q <= 32) by (nonlinear_arith)
        requires
            0 <= c - STRENGTH_LOW <= 60,
            span == 32,
            q == (c - STRENGTH_LOW) * span / 60,
    ;
    (q + BAND_MIN as i64) as u32
}

/// One reading of the climate sensor, in tenths: tenths of a degree
/// Celsius and tenths of a percent of relative humidity.
#[derive(Clone, Copy, Debug, PartialEq, Eq)]
pub struct ClimateReading {
    pub temperature: i32,
    pub humidity: u32,
}

/// The temperature shown for a reading: the raw value less the calibration
/// offset, both in tenths of a degree.
pub fn calibrated_temperature(reading: ClimateReading, offset: i32) -> (r: i64)
    ensures
        r == reading.temperature - offset,
{
    reading.temperature as i64 - offset as i64
}

} // verus!
