//! Integer compensation of raw readings, after the sensor vendor's
//! formulas: temperature and humidity in 32-bit fixed point, pressure in 64-bit.
//!
//! The formulas are stated over mathematical integers; a right shift by `k` is
//! a division by `2^k` rounded toward minus infinity, which is what an
//! arithmetic shift computes. The code evaluates them in 128-bit arithmetic,
//! where no intermediate value can overflow for any calibration constants.
use vstd::prelude::*;
use crate::calibration::CalibrationData;

verus! {

/// Raw pressure or temperature value of a channel that was not measured.
pub const BME280_SKIPPED_20BIT: u32 = 0xFFFFF;

/// Raw humidity value of a channel that was not measured.
pub const BME280_SKIPPED_HUMIDITY: u32 = 0x8000;

/// Largest magnitude of the fine temperature that a 20-bit reading can give.
pub const T_FINE_MAX: i32 = 0x400000;

/// Compensated humidity of 100 %RH in the raw fixed format (Q22.10).
pub const HUMIDITY_RAW_MAX: u32 = 102400;

/// The three raw ADC values of one conversion.
#[derive(Clone, Copy, Debug, PartialEq, Eq, Structural)]
pub struct RawMeasurement {
    pub pressure: u32,
    pub temperature: u32,
    pub humidity: u32,
}

impl RawMeasurement {
    /// Pressure and temperature are 20-bit values, humidity a 16-bit value.
    pub open spec fn wf(self) -> bool {
        self.pressure < 0x100000 && self.temperature < 0x100000 && self.humidity < 0x10000
    }
}

/// The readings held by the 8-byte data block: pressure and temperature as
/// 20-bit big-endian values (the low nibble of their third byte is unused),
/// then humidity as a 16-bit big-endian value.
pub open spec fn raw_of(d: Seq<u8>) -> RawMeasurement {
    RawMeasurement {
        pressure: (d[0] * 4096 + d[1] * 16 + d[2] / 16) as u32,
        temperature: (d[3] * 4096 + d[4] * 16 + d[5] / 16) as u32,
        humidity: (d[6] * 256 + d[7]) as u32,
    }
}

/// Decodes the raw data block.
pub fn parse_raw_data(d: &[u8]) -> (r: RawMeasurement)
    requires
        d@.len() == 8,
    ensures
        r == raw_of(d@),
        r.wf(),
{
    RawMeasurement {
        pressure: d[0] as u32 * 4096 + d[1] as u32 * 16 + d[2] as u32 / 16,
        temperature: d[3] as u32 * 4096 + d[4] as u32 * 16 + d[5] as u32 / 16,
        humidity: d[6] as u32 * 256 + d[7] as u32,
    }
}

/// Fine temperature of a raw temperature reading.
pub open spec fn t_fine_spec(adc: int, c: CalibrationData) -> int {
    let v1 = ((adc / 8 - c.dig_t1 * 2) * c.dig_t2) / 2048;
    let d = adc / 16 - c.dig_t1;
    let v2 = (((d * d) / 4096) * c.dig_t3) / 16384;
    v1 + v2
}

/// Temperature in hundredths of a degree Celsius.
pub open spec fn temperature_spec(t_fine: int) -> int {
    (t_fine * 5 + 128) / 256
}

/// Quotient rounded toward zero.
pub open spec fn trunc_div(a: int, b: int) -> int {
    let q = abs(a) / abs(b);
    if (a < 0) != (b < 0) {
        -q
    } else {
        q
    }
}

pub open spec fn abs(a: int) -> int {
    if a < 0 {
        -a
    } else {
        a
    }
}

/// Divisor of the pressure formula; it depends on the fine temperature and
/// on `dig_p1`, `dig_p2` and `dig_p3` only.
pub open spec fn pressure_divisor_spec(c: CalibrationData, t_fine: int) -> int {
    let v1 = t_fine - 128000;
    let v1 = (v1 * v1 * c.dig_p3) / 256 + v1 * c.dig_p2 * 4096;
    ((0x8000_0000_0000 + v1) * c.dig_p1) / 0x2_0000_0000
}

/// Pressure in Pa, in Q24.8 (Pa times 256). The result is 0 when the formula's
/// divisor is 0. It is absent when an intermediate value or the result lies
/// beyond what the vendor's 64-bit arithmetic and 32-bit result can hold,
/// which no real calibration gives.
pub open spec fn pressure_spec(adc: int, c: CalibrationData, t_fine: int) -> Option<int> {
    let v1 = t_fine - 128000;
    let v2 = v1 * v1 * c.dig_p6 + v1 * c.dig_p5 * 0x20000 + c.dig_p4 * 0x8_0000_0000;
    let v1 = pressure_divisor_spec(c, t_fine);
    if v1 == 0 {
        Some(0)
    } else {
        let p = trunc_div(((0x100000 - adc) * 0x8000_0000 - v2) * 3125, v1);
        if !(-0x10_0000_0000_0000 < p < 0x10_0000_0000_0000) {
            None
        } else {
            let w1 = (c.dig_p9 * ((p / 8192) * (p / 8192))) / 0x2000000;
            let w2 = (c.dig_p8 * p) / 0x80000;
            let r = (p + w1 + w2) / 256 + c.dig_p7 * 16;
            if 0 <= r < 0x1_0000_0000 {
                Some(r)
            } else {
                None
            }
        }
    }
}

/// Humidity before it is brought into range, in Q22.10 times 4096.
pub open spec fn humidity_unclamped_spec(adc: int, c: CalibrationData, t_fine: int) -> int {
    let x = t_fine - 76800;
    let a = (adc * 16384 - c.dig_h4 * 0x100000 - c.dig_h5 * x + 16384) / 32768;
    let b = ((x * c.dig_h6) / 1024) * ((x * c.dig_h3) / 2048 + 32768);
    let b = ((b / 1024 + 0x200000) * c.dig_h2 + 8192) / 16384;
    let v = a * b;
    v - ((((v / 32768) * (v / 32768)) / 128) * c.dig_h1) / 16
}

/// Humidity in %RH, in Q22.10 (%RH times 1024), brought into [0, 100] %RH.
pub open spec fn humidity_spec(adc: int, c: CalibrationData, t_fine: int) -> int {
    let v = humidity_unclamped_spec(adc, c, t_fine);
    let v = if v < 0 {
        0
    } else if v > 419430400 {
        419430400
    } else {
        v
    };
    v / 4096
}

/// Arithmetic right shifts of a 128-bit value are floor divisions.
/// Fine temperature of a 20-bit raw temperature reading.
pub fn compensate_t_fine(adc: u32, c: &CalibrationData) -> (r: i32)
    requires
        adc < 0x100000,
    ensures
        r == t_fine_spec(adc as int, *c),
        -T_FINE_MAX <= r <= T_FINE_MAX,
{
    let x = adc as i128;
    let t1 = c.dig_t1 as i128;
    proof {
        lemma_shifts(x);
    }
    let a = (x >> 3u32) - t1 * 2;
    proof {
        lemma_mul_bound(a as int, c.dig_t2 as int, 0x20000, 0x8000);
    }
    let p = a * c.dig_t2 as i128;
    proof {
        lemma_shifts(p);
    }
    let v1 = p >> 11u32;
    let d = (x >> 4u32) - t1;
    proof {
        lemma_mul_bound(d as int, d as int, 0x10000, 0x10000);
    }
    let dd = d * d;
    proof {
        lemma_shifts(dd);
        lemma_mul_bound((dd / 4096) as int, c.dig_t3 as int, 0x100000, 0x8000);
    }
    let q = (dd >> 12u32) * c.dig_t3 as i128;
    proof {
        lemma_shifts(q);
    }
    let v2 = q >> 14u32;
    (v1 + v2) as i32
}

/// Temperature in hundredths of a degree Celsius, from the fine temperature.
pub fn compensate_temperature(t_fine: i32) -> (r: i32)
    requires
        -T_FINE_MAX <= t_fine <= T_FINE_MAX,
    ensures
        r == temperature_spec(t_fine as int),
{
    let v = t_fine as i128 * 5 + 128;
    proof {
        lemma_shifts(v);
    }
    (v >> 8u32) as i32
}

/// Quotient of two 128-bit values rounded toward zero.
fn div_toward_zero(a: i128, b: i128) -> (r: i128)
    requires
        b != 0,
        -0x1000_0000_0000_0000_0000_0000 < a < 0x1000_0000_0000_0000_0000_0000,
        -0x1000_0000_0000_0000_0000_0000 < b < 0x1000_0000_0000_0000_0000_0000,
    ensures
        r == trunc_div(a as int, b as int),
        -abs(a as int) <= r <= abs(a as int),
{
    let ua: u128 = if a < 0 { (-a) as u128 } else { a as u128 };
    let ub: u128 = if b < 0 { (-b) as u128 } else { b as u128 };
    let q = ua / ub;
    proof {
        lemma_div_bound(ua as int, ub as int, ua as int);
    }
    if (a < 0) != (b < 0) {
        -(q as i128)
    } else {
        q as i128
    }
}

/// Pressure in Q24.8 Pa from a 20-bit raw pressure reading and the fine temperature.
pub fn compensate_pressure(adc: u32, c: &CalibrationData, t_fine: i32) -> (r: Option<u32>)
    requires
        adc < 0x100000,
        -T_FINE_MAX <= t_fine <= T_FINE_MAX,
    ensures
        match pressure_spec(adc as int, *c, t_fine as int) {
            Some(v) => r == Some(v as u32),
            None => r is None,
        },
        pressure_divisor_spec(*c, t_fine as int) == 0 ==> r == Some(0u32),
{
    let dig_p1 = c.dig_p1 as i128;
    let dig_p2 = c.dig_p2 as i128;
    let dig_p3 = c.dig_p3 as i128;
    let dig_p4 = c.dig_p4 as i128;
    let dig_p5 = c.dig_p5 as i128;
    let dig_p6 = c.dig_p6 as i128;
    let dig_p7 = c.dig_p7 as i128;
    let dig_p8 = c.dig_p8 as i128;
    let dig_p9 = c.dig_p9 as i128;
    let v1 = t_fine as i128 - 128000;
    proof {
        lemma_mul_bound(v1 as int, v1 as int, 0x800000, 0x800000);
    }
    let sq = v1 * v1;
    proof {
        lemma_mul_bound(sq as int, dig_p6 as int, 0x4000_0000_0000, 0x8000);
        lemma_mul_bound(v1 as int, dig_p5 as int, 0x800000, 0x8000);
        lemma_mul_bound(sq as int, dig_p3 as int, 0x4000_0000_0000, 0x8000);
        lemma_mul_bound(v1 as int, dig_p2 as int, 0x800000, 0x8000);
    }
    let v2 = sq * dig_p6 + v1 * dig_p5 * 0x20000 + dig_p4 * 0x8_0000_0000;
    let a = sq * dig_p3;
    proof {
        lemma_shifts(a);
        lemma_div_bound(a as int, 256, 0x2000_0000_0000_0000);
    }
    let w = (a >> 8u32) + v1 * dig_p2 * 4096;
    proof {
        lemma_mul_bound(0x8000_0000_0000 + w, dig_p1 as int, 0x80_0000_0000_0000, 0x10000);
    }
    let m = (0x8000_0000_0000 + w) * dig_p1;
    proof {
        lemma_shifts(m);
        lemma_div_bound(m as int, 0x2_0000_0000, 0x80_0000_0000_0000_0000);
    }
    let d = m >> 33u32;
    if d == 0 {
        return Some(0);
    }
    let n = ((0x100000 - adc as i128) * 0x8000_0000 - v2) * 3125;
    let p = div_toward_zero(n, d);
    if !(-0x10_0000_0000_0000 < p && p < 0x10_0000_0000_0000) {
        return None;
    }
    proof {
        lemma_shifts(p);
        lemma_div_bound(p as int, 8192, 0x10_0000_0000_0000);
    }
    let q = p >> 13u32;
    proof {
        lemma_mul_bound(q as int, q as int, 0x10_0000_0000_0000, 0x10_0000_0000_0000);
        lemma_mul_bound(dig_p9 as int, (q * q) as int, 0x8000, 0x100_0000_0000_0000_0000_0000_0000);
        lemma_mul_bound(dig_p8 as int, p as int, 0x8000, 0x10_0000_0000_0000);
    }
    let e = dig_p9 * (q * q);
    let f = dig_p8 * p;
    proof {
        lemma_shifts(e);
        lemma_shifts(f);
        lemma_div_bound(e as int, 0x2000000, 0x80_0000_0000_0000_0000_0000_0000_0000);
        lemma_div_bound(f as int, 0x80000, 0x8_0000_0000_0000_0000);
    }
    let g = p + (e >> 25u32) + (f >> 19u32);
    proof {
        lemma_shifts(g);
        lemma_div_bound(g as int, 256, 0x100_0000_0000_0000_0000_0000_0000);
    }
    let r = (g >> 8u32) + dig_p7 * 16;
    if 0 <= r && r < 0x1_0000_0000 {
        Some(r as u32)
    } else {
        None
    }
}

/// Humidity in Q22.10 %RH from a 16-bit raw humidity reading and the fine temperature.
pub fn compensate_humidity(adc: u32, c: &CalibrationData, t_fine: i32) -> (r: u32)
    requires
        adc < 0x10000,
        -T_FINE_MAX <= t_fine <= T_FINE_MAX,
    ensures
        r == humidity_spec(adc as int, *c, t_fine as int),
        r <= HUMIDITY_RAW_MAX,
{
    let h1 = c.dig_h1 as i128;
    let h2 = c.dig_h2 as i128;
    let h3 = c.dig_h3 as i128;
    let h4 = c.dig_h4 as i128;
    let h5 = c.dig_h5 as i128;
    let h6 = c.dig_h6 as i128;
    let x = t_fine as i128 - 76800;
    proof {
        lemma_mul_bound(h5 as int, x as int, 0x8000, 0x800000);
    }
    let n = adc as i128 * 16384 - h4 * 0x100000 - h5 * x + 16384;
    proof {
        lemma_shifts(n);
        lemma_div_shrink(n as int, 32768, 0x1000000);
        lemma_mul_bound(x as int, h6 as int, 0x800000, 0x80);
        lemma_mul_bound(x as int, h3 as int, 0x800000, 0x100);
    }
    let a = n >> 15u32;
    let xh6 = x * h6;
    let xh3 = x * h3;
    proof {
        lemma_shifts(xh6);
        lemma_shifts(xh3);
        lemma_div_shrink(xh6 as int, 1024, 0x100000);
        lemma_div_shrink(xh3 as int, 2048, 0x100000);
    }
    let b1 = xh6 >> 10u32;
    let b2 = (xh3 >> 11u32) + 32768;
    proof {
        lemma_mul_bound(b1 as int, b2 as int, 0x100000, 0x200000);
    }
    let b3 = b1 * b2;
    proof {
        lemma_shifts(b3);
        lemma_div_shrink(b3 as int, 1024, 0x8000_0000);
    }
    let b4 = (b3 >> 10u32) + 0x200000;
    proof {
        lemma_mul_bound(b4 as int, h2 as int, 0x1_0000_0000, 0x8000);
    }
    let b5 = b4 * h2 + 8192;
    proof {
        lemma_shifts(b5);
        lemma_div_shrink(b5 as int, 16384, 0x4_0000_0000);
    }
    let b = b5 >> 14u32;
    proof {
        lemma_mul_bound(a as int, b as int, 0x1000000, 0x4_0000_0000);
    }
    let v = a * b;
    proof {
        lemma_shifts(v);
        lemma_div_shrink(v as int, 32768, 0x800_0000_0000);
    }
    let sv = v >> 15u32;
    proof {
        lemma_mul_bound(sv as int, sv as int, 0x800_0000_0000, 0x800_0000_0000);
    }
    let ss = sv * sv;
    proof {
        lemma_shifts(ss);
        lemma_div_bound(ss as int, 128, 0x40_0000_0000_0000_0000_0000);
        lemma_mul_bound(ss as int / 128, h1 as int, 0x40_0000_0000_0000_0000_0000, 0x100);
    }
    let k = (ss >> 7u32) * h1;
    proof {
        lemma_shifts(k);
        lemma_div_bound(k as int, 16, 0x4000_0000_0000_0000_0000_0000);
    }
    let u = v - (k >> 4u32);
    let w: i128 = if u < 0 {
        0
    } else if u > 419430400 {
        419430400
    } else {
        u
    };
    proof {
        lemma_shifts(w);
    }
    (w >> 12u32) as u32
}

proof fn lemma_div_shrink(a: int, d: int, x: int)
    requires
        -(x * d) <= a <= x * d,
        d > 0,
    ensures
        -x <= a / d <= x,
{
    assert(-x <= a / d <= x) by (nonlinear_arith)
        requires
            -(x * d) <= a <= x * d,
            d > 0,
    ;
}

/// Compensated readings in the vendor's fixed-point formats; a channel that
/// was not measured is absent.
#[derive(Clone, Copy, Debug, PartialEq, Eq, Structural)]
pub struct MeasurementsFixedRaw {
    /// Hundredths of a degree Celsius.
    pub temperature: Option<i32>,
    /// Pa in Q24.8 (Pa times 256).
    pub pressure: Option<u32>,
    /// %RH in Q22.10 (%RH times 1024).
    pub humidity: Option<u32>,
}

/// Compensated readings rounded to decimal units; a channel that was not
/// measured is absent.
#[derive(Clone, Copy, Debug, PartialEq, Eq, Structural)]
pub struct MeasurementsFixed {
    /// Hundredths of a degree Celsius.
    pub temperature: Option<i32>,
    /// Pa.
    pub pressure: Option<u32>,
    /// Hundredths of a percent of relative humidity.
    pub humidity: Option<u32>,
}

/// Fine temperature after a conversion: that of the new temperature reading,
/// or the previous one when temperature was not measured.
pub open spec fn t_fine_after(raw: RawMeasurement, c: CalibrationData, prev: int) -> int {
    if raw.temperature == BME280_SKIPPED_20BIT {
        prev
    } else {
        t_fine_spec(raw.temperature as int, c)
    }
}

/// Whole compensation of one conversion; absent when pressure was measured and
/// its compensation has no result.
pub open spec fn compensation_spec(raw: RawMeasurement, c: CalibrationData, prev: int) -> Option<MeasurementsFixedRaw> {
    let tf = t_fine_after(raw, c, prev);
    let pressure = pressure_spec(raw.pressure as int, c, tf);
    if raw.pressure != BME280_SKIPPED_20BIT && pressure is None {
        None
    } else {
        Some(MeasurementsFixedRaw {
            temperature: if raw.temperature == BME280_SKIPPED_20BIT {
                None
            } else {
                Some(temperature_spec(tf) as i32)
            },
            pressure: if raw.pressure == BME280_SKIPPED_20BIT {
                None
            } else {
                Some(pressure->0 as u32)
            },
            humidity: if raw.humidity == BME280_SKIPPED_HUMIDITY {
                None
            } else {
                Some(humidity_spec(raw.humidity as int, c, tf) as u32)
            },
        })
    }
}

/// Compensates one conversion. `prev_t_fine` is the fine temperature of the
/// previous conversion, used when temperature was not measured; the fine
/// temperature of this conversion is returned beside the readings.
pub fn compensate(raw: &RawMeasurement, c: &CalibrationData, prev_t_fine: i32) -> (r: Option<(MeasurementsFixedRaw, i32)>)
    requires
        raw.wf(),
        -T_FINE_MAX <= prev_t_fine <= T_FINE_MAX,
    ensures
        match r {
            Some((m, tf)) => {
                &&& compensation_spec(*raw, *c, prev_t_fine as int) == Some(m)
                &&& tf == t_fine_after(*raw, *c, prev_t_fine as int)
                &&& -T_FINE_MAX <= tf <= T_FINE_MAX
            },
            None => compensation_spec(*raw, *c, prev_t_fine as int) is None,
        },
{
    let tf = if raw.temperature == BME280_SKIPPED_20BIT {
        prev_t_fine
    } else {
        compensate_t_fine(raw.temperature, c)
    };
    let temperature = if raw.temperature == BME280_SKIPPED_20BIT {
        None
    } else {
        Some(compensate_temperature(tf))
    };
    let pressure = if raw.pressure == BME280_SKIPPED_20BIT {
        None
    } else {
        match compensate_pressure(raw.pressure, c, tf) {
            Some(p) => Some(p),
            None => {
                return None;
            },
        }
    };
    let humidity = if raw.humidity == BME280_SKIPPED_HUMIDITY {
        None
    } else {
        Some(compensate_humidity(raw.humidity, c, tf))
    };
    Some((MeasurementsFixedRaw { temperature, pressure, humidity }, tf))
}

/// Pressure in Pa, rounded to the nearest, from Q24.8.
pub open spec fn pressure_pa_spec(raw: u32) -> int {
    (raw + 128) / 256
}

/// Humidity in hundredths of a percent, rounded to the nearest, from Q22.10.
pub open spec fn humidity_centi_spec(raw: u32) -> int {
    (raw * 100 + 512) / 1024
}

impl MeasurementsFixed {
    /// Rounds the vendor fixed-point readings to decimal units.
    pub fn from_raw(m: &MeasurementsFixedRaw) -> (r: Self)
        ensures
            r.temperature == m.temperature,
            r.pressure is Some <==> m.pressure is Some,
            m.pressure is Some ==> r.pressure->0 == pressure_pa_spec(m.pressure->0),
            r.humidity is Some <==> m.humidity is Some,
            m.humidity is Some ==> r.humidity->0 == humidity_centi_spec(m.humidity->0),
    {
        let pressure = match m.pressure {
            Some(p) => Some(((p as u64 + 128) / 256) as u32),
            None => None,
        };
        let humidity = match m.humidity {
            Some(h) => Some(((h as u64 * 100 + 512) / 1024) as u32),
            None => None,
        };
        MeasurementsFixed { temperature: m.temperature, pressure, humidity }
    }
}

/// The decimal outputs agree with the vendor fixed-point outputs to within
/// their rounding: pressure to within half a pascal, humidity to within half a
/// hundredth of a percent.
pub proof fn lemma_fixed_within_quantization(pressure_raw: u32, humidity_raw: u32)
    ensures
        -128 <= pressure_pa_spec(pressure_raw) * 256 - pressure_raw <= 128,
        -512 <= humidity_centi_spec(humidity_raw) * 1024 - humidity_raw * 100 <= 512,
{
}

/// Compensated humidity always lies in [0, 100] %RH, whatever the calibration.
pub proof fn lemma_humidity_in_range(adc: int, c: CalibrationData, t_fine: int)
    ensures
        0 <= humidity_spec(adc, c, t_fine) <= HUMIDITY_RAW_MAX,
{
}

/// Where the divisor of the pressure formula is zero, the pressure is zero.
pub proof fn lemma_pressure_zero_divisor(adc: int, c: CalibrationData, t_fine: int)
    requires
        pressure_divisor_spec(c, t_fine) == 0,
    ensures
        pressure_spec(adc, c, t_fine) == Some(0int),
{
}

/// A channel whose raw value is its skip sentinel is absent from the result,
/// whatever the calibration; a conversion without pressure always compensates.
pub proof fn lemma_skipped_channels_absent(raw: RawMeasurement, c: CalibrationData, prev: int)
    ensures
        raw.pressure == BME280_SKIPPED_20BIT ==> compensation_spec(raw, c, prev) is Some,
        compensation_spec(raw, c, prev) matches Some(m) ==> {
            &&& (raw.temperature == BME280_SKIPPED_20BIT <==> m.temperature is None)
            &&& (raw.pressure == BME280_SKIPPED_20BIT <==> m.pressure is None)
            &&& (raw.humidity == BME280_SKIPPED_HUMIDITY <==> m.humidity is None)
        },
{
}

proof fn lemma_shifts(x: i128)
    ensures
        x >> 3u32 == x / 8,
        x >> 4u32 == x / 16,
        x >> 7u32 == x / 128,
        x >> 8u32 == x / 256,
        x >> 10u32 == x / 1024,
        x >> 11u32 == x / 2048,
        x >> 12u32 == x / 4096,
        x >> 13u32 == x / 8192,
        x >> 14u32 == x / 16384,
        x >> 15u32 == x / 32768,
        x >> 19u32 == x / 0x80000,
        x >> 25u32 == x / 0x2000000,
        x >> 33u32 == x / 0x2_0000_0000,
{
    assert(x >> 3u32 == x / 8) by (bit_vector);
    assert(x >> 4u32 == x / 16) by (bit_vector);
    assert(x >> 7u32 == x / 128) by (bit_vector);
    assert(x >> 8u32 == x / 256) by (bit_vector);
    assert(x >> 10u32 == x / 1024) by (bit_vector);
    assert(x >> 11u32 == x / 2048) by (bit_vector);
    assert(x >> 12u32 == x / 4096) by (bit_vector);
    assert(x >> 13u32 == x / 8192) by (bit_vector);
    assert(x >> 14u32 == x / 16384) by (bit_vector);
    assert(x >> 15u32 == x / 32768) by (bit_vector);
    assert(x >> 19u32 == x / 0x80000) by (bit_vector);
    assert(x >> 25u32 == x / 0x2000000) by (bit_vector);
    assert(x >> 33u32 == x / 0x2_0000_0000) by (bit_vector);
}

proof fn lemma_mul_bound(a: int, b: int, x: int, y: int)
    requires
        -x <= a <= x,
        -y <= b <= y,
    ensures
        -(x * y) <= a * b <= x * y,
{
    assert(-(x * y) <= a * b <= x * y) by (nonlinear_arith)
        requires
            -x <= a <= x,
            -y <= b <= y,
    ;
}

proof fn lemma_div_bound(a: int, d: int, x: int)
    requires
        -x <= a <= x,
        d > 0,
    ensures
        -x <= a / d <= x,
{
    assert(-x <= a / d <= x) by (nonlinear_arith)
        requires
            -x <= a <= x,
            d > 0,
    ;
}

} // verus!
