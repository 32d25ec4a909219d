//! Factory calibration constants and their decoding from the two calibration blocks.
use vstd::prelude::*;

verus! {

/// Trim constants programmed into each sensor at the factory.
#[derive(Clone, Copy, Debug, PartialEq, Eq, Structural)]
pub struct CalibrationData {
    pub dig_t1: u16,
    pub dig_t2: i16,
    pub dig_t3: i16,
    pub dig_p1: u16,
    pub dig_p2: i16,
    pub dig_p3: i16,
    pub dig_p4: i16,
    pub dig_p5: i16,
    pub dig_p6: i16,
    pub dig_p7: i16,
    pub dig_p8: i16,
    pub dig_p9: i16,
    pub dig_h1: u8,
    pub dig_h2: i16,
    pub dig_h3: u8,
    pub dig_h4: i16,
    pub dig_h5: i16,
    pub dig_h6: i8,
}

/// Little-endian unsigned 16-bit word.
pub open spec fn word_le(lo: u8, hi: u8) -> int {
    hi * 256 + lo
}

/// Little-endian 16-bit word read as two's complement.
pub open spec fn signed_word_le(lo: u8, hi: u8) -> int {
    if hi < 128 {
        word_le(lo, hi)
    } else {
        word_le(lo, hi) - 65536
    }
}

/// A byte read as two's complement.
pub open spec fn signed_byte(b: u8) -> int {
    if b < 128 {
        b as int
    } else {
        b - 256
    }
}

/// The constants held by the temperature/pressure block `pt` (26 bytes from
/// register 0x88) and the humidity block `h` (7 bytes from register 0xE1).
/// `dig_h4` and `dig_h5` are 12-bit values that share the middle byte of
/// `h[3..6]`: its low nibble belongs to `dig_h4`, its high nibble to `dig_h5`.
pub open spec fn calibration_of(pt: Seq<u8>, h: Seq<u8>) -> CalibrationData {
    CalibrationData {
        dig_t1: word_le(pt[0], pt[1]) as u16,
        dig_t2: signed_word_le(pt[2], pt[3]) as i16,
        dig_t3: signed_word_le(pt[4], pt[5]) as i16,
        dig_p1: word_le(pt[6], pt[7]) as u16,
        dig_p2: signed_word_le(pt[8], pt[9]) as i16,
        dig_p3: signed_word_le(pt[10], pt[11]) as i16,
        dig_p4: signed_word_le(pt[12], pt[13]) as i16,
        dig_p5: signed_word_le(pt[14], pt[15]) as i16,
        dig_p6: signed_word_le(pt[16], pt[17]) as i16,
        dig_p7: signed_word_le(pt[18], pt[19]) as i16,
        dig_p8: signed_word_le(pt[20], pt[21]) as i16,
        dig_p9: signed_word_le(pt[22], pt[23]) as i16,
        dig_h1: pt[25],
        dig_h2: signed_word_le(h[0], h[1]) as i16,
        dig_h3: h[2],
        dig_h4: (signed_byte(h[3]) * 16 + h[4] % 16) as i16,
        dig_h5: (signed_byte(h[5]) * 16 + h[4] / 16) as i16,
        dig_h6: signed_byte(h[6]) as i8,
    }
}

fn word(lo: u8, hi: u8) -> (r: u16)
    ensures
        r == word_le(lo, hi),
{
    hi as u16 * 256 + lo as u16
}

fn signed_word(lo: u8, hi: u8) -> (r: i16)
    ensures
        r == signed_word_le(lo, hi),
{
    let w = word(lo, hi);
    if w < 32768 {
        w as i16
    } else {
        (w as i32 - 65536) as i16
    }
}

fn sbyte(b: u8) -> (r: i16)
    ensures
        r == signed_byte(b),
{
    if b < 128 {
        b as i16
    } else {
        b as i16 - 256
    }
}

/// Decodes the two calibration blocks.
pub fn parse_calib_data(pt: &[u8], h: &[u8]) -> (r: CalibrationData)
    requires
        pt@.len() == 26,
        h@.len() == 7,
    ensures
        r == calibration_of(pt@, h@),
{
    CalibrationData {
        dig_t1: word(pt[0], pt[1]),
        dig_t2: signed_word(pt[2], pt[3]),
        dig_t3: signed_word(pt[4], pt[5]),
        dig_p1: word(pt[6], pt[7]),
        dig_p2: signed_word(pt[8], pt[9]),
        dig_p3: signed_word(pt[10], pt[11]),
        dig_p4: signed_word(pt[12], pt[13]),
        dig_p5: signed_word(pt[14], pt[15]),
        dig_p6: signed_word(pt[16], pt[17]),
        dig_p7: signed_word(pt[18], pt[19]),
        dig_p8: signed_word(pt[20], pt[21]),
        dig_p9: signed_word(pt[22], pt[23]),
        dig_h1: pt[25],
        dig_h2: signed_word(h[0], h[1]),
        dig_h3: h[2],
        dig_h4: sbyte(h[3]) * 16 + (h[4] % 16) as i16,
        dig_h5: sbyte(h[5]) * 16 + (h[4] / 16) as i16,
        dig_h6: sbyte(h[6]) as i8,
    }
}

} // verus!
