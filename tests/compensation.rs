use bme280::calibration::{parse_calib_data, CalibrationData};
use bme280::compensation::{
    compensate, compensate_humidity, compensate_pressure, compensate_t_fine,
    compensate_temperature, parse_raw_data, MeasurementsFixed, MeasurementsFixedRaw,
    RawMeasurement, BME280_SKIPPED_20BIT, BME280_SKIPPED_HUMIDITY, HUMIDITY_RAW_MAX,
};

fn sample() -> CalibrationData {
    let words: [i32; 12] = [27504, 26435, -1000, 36477, -10685, 3024, 2855, 140, -7, 15500, -14600, 6000];
    let mut pt = Vec::new();
    for w in words {
        pt.extend_from_slice(&(w as u16).to_le_bytes());
    }
    pt.push(0x00);
    pt.push(75);
    let h = vec![0x6A, 0x01, 0x00, 0x13, 0x29, 0x03, 0x1E];
    parse_calib_data(&pt, &h)
}

#[test]
fn temperature_reference_value() {
    let c = sample();
    let tf = compensate_t_fine(519888, &c);
    assert_eq!(tf, 128422);
    assert_eq!(compensate_temperature(tf), 2508);
}

#[test]
fn pressure_reference_value() {
    let c = sample();
    assert_eq!(compensate_pressure(415148, &c, 128422), Some(25767233));
}

#[test]
fn pressure_zero_divisor_gives_zero() {
    let mut c = sample();
    c.dig_p1 = 0;
    assert_eq!(compensate_pressure(415148, &c, 128422), Some(0));
}

#[test]
fn pressure_out_of_range_has_no_result() {
    let mut c = sample();
    c.dig_p1 = 1;
    c.dig_p8 = 32767;
    c.dig_p9 = 32767;
    assert_eq!(compensate_pressure(415148, &c, 128422), None);
}

#[test]
fn humidity_reference_value() {
    let c = sample();
    assert_eq!(compensate_humidity(30000, &c, 128422), 56317);
}

#[test]
fn humidity_clamped_to_range() {
    let c = sample();
    assert_eq!(compensate_humidity(65535, &c, 128422), HUMIDITY_RAW_MAX);
    assert_eq!(compensate_humidity(0, &c, 128422), 0);
    let mut hot = sample();
    hot.dig_h2 = 32767;
    hot.dig_h4 = -2048;
    hot.dig_h1 = 0;
    assert_eq!(compensate_humidity(60000, &hot, 128422), HUMIDITY_RAW_MAX);
    let mut dry = sample();
    dry.dig_h4 = 2047;
    assert_eq!(compensate_humidity(100, &dry, 128422), 0);
}

#[test]
fn raw_data_block_decodes() {
    let raw = parse_raw_data(&[0x65, 0x5A, 0xC0, 0x7E, 0xED, 0x00, 0x75, 0x30]);
    assert_eq!(raw, RawMeasurement { pressure: 415148, temperature: 519888, humidity: 30000 });
}

#[test]
fn full_conversion() {
    let c = sample();
    let raw = RawMeasurement { pressure: 415148, temperature: 519888, humidity: 30000 };
    let (m, tf) = compensate(&raw, &c, 0).unwrap();
    assert_eq!(tf, 128422);
    assert_eq!(
        m,
        MeasurementsFixedRaw { temperature: Some(2508), pressure: Some(25767233), humidity: Some(56317) }
    );
}

#[test]
fn skipped_channels_are_absent() {
    let c = sample();
    let raw = RawMeasurement {
        pressure: BME280_SKIPPED_20BIT,
        temperature: BME280_SKIPPED_20BIT,
        humidity: BME280_SKIPPED_HUMIDITY,
    };
    let (m, tf) = compensate(&raw, &c, 1234).unwrap();
    assert_eq!(tf, 1234);
    assert_eq!(m, MeasurementsFixedRaw { temperature: None, pressure: None, humidity: None });
}

#[test]
fn skipped_temperature_keeps_previous_fine_temperature() {
    let c = sample();
    let raw = RawMeasurement { pressure: 415148, temperature: BME280_SKIPPED_20BIT, humidity: 30000 };
    let (m, tf) = compensate(&raw, &c, 128422).unwrap();
    assert_eq!(tf, 128422);
    assert_eq!(m.temperature, None);
    assert_eq!(m.pressure, Some(25767233));
    assert_eq!(m.humidity, Some(56317));
}

#[test]
fn fixed_rounds_raw_fixed() {
    let raw = MeasurementsFixedRaw { temperature: Some(2508), pressure: Some(25767233), humidity: Some(56317) };
    let m = MeasurementsFixed::from_raw(&raw);
    assert_eq!(m, MeasurementsFixed { temperature: Some(2508), pressure: Some(100653), humidity: Some(5500) });
    let t = 2508.0f64 / 100.0;
    let p = 25767233.0f64 / 256.0;
    assert!((t - 25.08).abs() <= 0.01);
    assert!((p - m.pressure.unwrap() as f64).abs() <= 1.0);
    let none = MeasurementsFixed::from_raw(&MeasurementsFixedRaw { temperature: None, pressure: None, humidity: None });
    assert_eq!(none, MeasurementsFixed { temperature: None, pressure: None, humidity: None });
}
