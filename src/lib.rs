//! Driver core for the BME280 temperature, humidity and pressure sensor.
//!
//! The library holds the sensor's register protocol as a state machine, the
//! decoding of its factory calibration, and the integer compensation formulas
//! that turn raw readings into physical units. A bus runner performs the
//! register reads, writes and waits that the state machine asks for.
pub mod registers;
pub mod config;
pub mod calibration;
pub mod compensation;
pub mod driver;
pub mod spi;
