//! Driver handles for a sensor on an SPI bus.
use vstd::prelude::*;
use crate::driver::{Bme280Common, Error};

verus! {

/// A BME280 on an SPI bus whose runner may suspend while it waits for the bus
/// or a delay.
#[derive(Debug)]
pub struct AsyncBME280<SPI> {
    /// The SPI device, which the runner drives.
    pub spi: SPI,
    /// The protocol state.
    pub common: Bme280Common,
}

/// A BME280 on an SPI bus whose runner blocks on the bus and on delays.
#[derive(Debug)]
pub struct BME280<SPI> {
    /// The SPI device, which the runner drives.
    pub spi: SPI,
    /// The protocol state.
    pub common: Bme280Common,
}

/// Error which occurred during an SPI transaction.
#[derive(Clone, Copy, Debug)]
pub enum SPIError<SPIE> {
    /// The SPI implementation returned an error.
    SPI(SPIE),
}

impl<SPI> AsyncBME280<SPI> {
    /// Takes ownership of the SPI device; no calibration is read yet.
    pub fn new<SPIE>(spi: SPI) -> (r: Result<Self, Error<SPIError<SPIE>>>)
        ensures
            match r {
                Ok(d) => d.spi == spi && d.common.wf() && (d.common.stage is Idle) && (
                d.common.calibration is None),
                Err(_) => false,
            },
    {
        Ok(AsyncBME280 { spi, common: Bme280Common::new() })
    }
}

impl<SPI> BME280<SPI> {
    /// Takes ownership of the SPI device; no calibration is read yet.
    pub fn new<SPIE>(spi: SPI) -> (r: Result<Self, Error<SPIError<SPIE>>>)
        ensures
            match r {
                Ok(d) => d.spi == spi && d.common.wf() && (d.common.stage is Idle) && (
                d.common.calibration is None),
                Err(_) => false,
            },
    {
        Ok(BME280 { spi, common: Bme280Common::new() })
    }
}

} // verus!
