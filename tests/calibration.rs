use bme280::calibration::{parse_calib_data, CalibrationData};

fn le(v: i32) -> [u8; 2] {
    let w = (v as u16).to_le_bytes();
    [w[0], w[1]]
}

pub fn sample_blocks() -> (Vec<u8>, Vec<u8>) {
    let words = [27504, 26435, -1000, 36477, -10685, 3024, 2855, 140, -7, 15500, -14600, 6000];
    let mut pt = Vec::new();
    for w in words {
        pt.extend_from_slice(&le(w));
    }
    pt.push(0x00);
    pt.push(75);
    let h = vec![0x6A, 0x01, 0x00, 0x13, 0x29, 0x03, 0x1E];
    (pt, h)
}

#[test]
fn calibration_reference_vector() {
    let (pt, h) = sample_blocks();
    assert_eq!(pt.len(), 26);
    let c = parse_calib_data(&pt, &h);
    let expected = CalibrationData {
        dig_t1: 27504,
        dig_t2: 26435,
        dig_t3: -1000,
        dig_p1: 36477,
        dig_p2: -10685,
        dig_p3: 3024,
        dig_p4: 2855,
        dig_p5: 140,
        dig_p6: -7,
        dig_p7: 15500,
        dig_p8: -14600,
        dig_p9: 6000,
        dig_h1: 75,
        dig_h2: 362,
        dig_h3: 0,
        dig_h4: 313,
        dig_h5: 50,
        dig_h6: 30,
    };
    assert_eq!(c, expected);
}

#[test]
fn calibration_split_humidity_words_are_signed() {
    let (pt, _) = sample_blocks();
    let h = vec![0x00, 0x80, 0xFF, 0xFF, 0xAF, 0x80, 0x80];
    let c = parse_calib_data(&pt, &h);
    assert_eq!(c.dig_h2, -32768);
    assert_eq!(c.dig_h3, 255);
    assert_eq!(c.dig_h4, -1);
    assert_eq!(c.dig_h5, -2048 + 10);
    assert_eq!(c.dig_h6, -128);
}
