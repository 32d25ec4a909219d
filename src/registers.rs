//! Register map of the sensor and the byte framing of the SPI variant.
use vstd::prelude::*;

verus! {

/// Register holding the chip identifier.
pub const BME280_CHIP_ID_ADDR: u8 = 0xD0;

/// Identifier that a BME280 reports in its chip-ID register.
pub const BME280_CHIP_ID: u8 = 0x60;

/// Register that accepts the soft-reset command.
pub const BME280_SOFT_RESET_ADDR: u8 = 0xE0;

/// Command byte that triggers a soft reset.
pub const BME280_CMD_SOFT_RESET: u8 = 0xB6;

/// Start-up time after a soft reset, in microseconds.
pub const BME280_STARTUP_US: u32 = 2000;

/// First register of the temperature and pressure calibration block.
pub const BME280_P_T_CALIB_DATA_ADDR: u8 = 0x88;

/// Length of the temperature and pressure calibration block.
pub const BME280_P_T_CALIB_DATA_LEN: usize = 26;

/// First register of the humidity calibration block.
pub const BME280_H_CALIB_DATA_ADDR: u8 = 0xE1;

/// Length of the humidity calibration block.
pub const BME280_H_CALIB_DATA_LEN: usize = 7;

/// Humidity oversampling control register.
pub const BME280_CTRL_HUM_ADDR: u8 = 0xF2;

/// Temperature/pressure oversampling and mode register.
pub const BME280_CTRL_MEAS_ADDR: u8 = 0xF4;

/// Filter and standby-time register.
pub const BME280_CONFIG_ADDR: u8 = 0xF5;

/// First register of the raw pressure, temperature and humidity block.
pub const BME280_DATA_ADDR: u8 = 0xF7;

/// Length of the raw data block.
pub const BME280_P_T_H_DATA_LEN: usize = 8;

/// Mode bits: sleep.
pub const BME280_SLEEP_MODE: u8 = 0x00;

/// Mode bits: one forced conversion.
pub const BME280_FORCED_MODE: u8 = 0x01;

/// On the SPI bus bit 7 of the address byte selects the direction; it is clear for a write.
pub open spec fn spi_write_address_spec(register: u8) -> int {
    (register % 128) as int
}

/// Address byte that starts an SPI write of `register`.
pub fn spi_write_address(register: u8) -> (r: u8)
    ensures
        r == spi_write_address_spec(register),
        r < 128,
{
    let r = register & 0x7f;
    assert(register & 0x7f == register % 128) by (bit_vector);
    r
}

/// The two bytes sent on the SPI bus to write `payload` into `register`.
pub fn spi_write_frame(register: u8, payload: u8) -> (r: Vec<u8>)
    ensures
        r@.len() == 2,
        r@[0] == spi_write_address_spec(register),
        r@[1] == payload,
{
    vec![spi_write_address(register), payload]
}

} // verus!
