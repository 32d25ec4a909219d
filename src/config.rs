//! Oversampling and filter settings, and their encoding into the control registers.
use vstd::prelude::*;

verus! {

/// Oversampling of one measurement channel.
#[derive(Clone, Copy, Debug, PartialEq, Eq, Structural)]
pub enum Oversampling {
    /// The channel is not measured.
    Skip,
    Oversampling1X,
    Oversampling2X,
    Oversampling4X,
    Oversampling8X,
    Oversampling16X,
}

/// Coefficient of the sensor's low-pass filter.
#[derive(Clone, Copy, Debug, PartialEq, Eq, Structural)]
pub enum IIRFilter {
    Off,
    Coefficient2,
    Coefficient4,
    Coefficient8,
    Coefficient16,
}

impl Oversampling {
    /// Register field value of the setting.
    pub open spec fn bits_spec(self) -> u8 {
        match self {
            Oversampling::Skip => 0,
            Oversampling::Oversampling1X => 1,
            Oversampling::Oversampling2X => 2,
            Oversampling::Oversampling4X => 3,
            Oversampling::Oversampling8X => 4,
            Oversampling::Oversampling16X => 5,
        }
    }

    /// Number of samples averaged per conversion.
    pub open spec fn factor_spec(self) -> u32 {
        match self {
            Oversampling::Skip => 0,
            Oversampling::Oversampling1X => 1,
            Oversampling::Oversampling2X => 2,
            Oversampling::Oversampling4X => 4,
            Oversampling::Oversampling8X => 8,
            Oversampling::Oversampling16X => 16,
        }
    }

    pub fn bits(&self) -> (r: u8)
        ensures
            r == self.bits_spec(),
    {
        match self {
            Oversampling::Skip => 0,
            Oversampling::Oversampling1X => 1,
            Oversampling::Oversampling2X => 2,
            Oversampling::Oversampling4X => 3,
            Oversampling::Oversampling8X => 4,
            Oversampling::Oversampling16X => 5,
        }
    }

    pub fn factor(&self) -> (r: u32)
        ensures
            r == self.factor_spec(),
    {
        match self {
            Oversampling::Skip => 0,
            Oversampling::Oversampling1X => 1,
            Oversampling::Oversampling2X => 2,
            Oversampling::Oversampling4X => 4,
            Oversampling::Oversampling8X => 8,
            Oversampling::Oversampling16X => 16,
        }
    }
}

impl IIRFilter {
    /// Register field value of the setting.
    pub open spec fn bits_spec(self) -> u8 {
        match self {
            IIRFilter::Off => 0,
            IIRFilter::Coefficient2 => 1,
            IIRFilter::Coefficient4 => 2,
            IIRFilter::Coefficient8 => 3,
            IIRFilter::Coefficient16 => 4,
        }
    }

    pub fn bits(&self) -> (r: u8)
        ensures
            r == self.bits_spec(),
    {
        match self {
            IIRFilter::Off => 0,
            IIRFilter::Coefficient2 => 1,
            IIRFilter::Coefficient4 => 2,
            IIRFilter::Coefficient8 => 3,
            IIRFilter::Coefficient16 => 4,
        }
    }
}

/// Oversampling of each channel and the filter coefficient.
#[derive(Clone, Copy, Debug, PartialEq, Eq, Structural)]
pub struct Configuration {
    pub temperature_oversampling: Oversampling,
    pub pressure_oversampling: Oversampling,
    pub humidity_oversampling: Oversampling,
    pub iir_filter: IIRFilter,
}

/// The recommended preset: humidity 1x, pressure 16x, temperature 2x, filter 16.
pub open spec fn recommended_configuration() -> Configuration {
    Configuration {
        temperature_oversampling: Oversampling::Oversampling2X,
        pressure_oversampling: Oversampling::Oversampling16X,
        humidity_oversampling: Oversampling::Oversampling1X,
        iir_filter: IIRFilter::Coefficient16,
    }
}

impl Default for Configuration {
    fn default() -> (r: Self)
        ensures
            r == recommended_configuration(),
    {
        Configuration {
            temperature_oversampling: Oversampling::Oversampling2X,
            pressure_oversampling: Oversampling::Oversampling16X,
            humidity_oversampling: Oversampling::Oversampling1X,
            iir_filter: IIRFilter::Coefficient16,
        }
    }
}

/// Value of the humidity control register.
pub open spec fn ctrl_hum_spec(c: Configuration) -> int {
    c.humidity_oversampling.bits_spec() as int
}

/// Value of the measurement control register: temperature field in bits 7..5,
/// pressure field in bits 4..2, mode in bits 1..0.
pub open spec fn ctrl_meas_spec(c: Configuration, mode: u8) -> int {
    c.temperature_oversampling.bits_spec() * 32 + c.pressure_oversampling.bits_spec() * 4 + mode
}

/// Value of the config register: filter field in bits 4..2, standby time 0.
pub open spec fn config_reg_spec(c: Configuration) -> int {
    c.iir_filter.bits_spec() * 4
}

/// Time for one conversion in the worst case, in microseconds: 1.25 ms, plus
/// 2.3 ms per temperature sample, plus 2.3 ms per pressure or humidity sample
/// and 0.575 ms for each of those two channels that is measured.
pub open spec fn measurement_time_us_spec(c: Configuration) -> int {
    let t = c.temperature_oversampling.factor_spec() as int;
    let p = c.pressure_oversampling.factor_spec() as int;
    let h = c.humidity_oversampling.factor_spec() as int;
    1250 + 2300 * t + (if p == 0 { 0 } else { 2300 * p + 575 }) + (if h == 0 { 0 } else { 2300 * h + 575 })
}

impl Configuration {
    /// Returns the configuration with the temperature oversampling replaced.
    pub fn with_temperature_oversampling(self, oversampling: Oversampling) -> (r: Self)
        ensures
            r == (Configuration { temperature_oversampling: oversampling, ..self }),
    {
        Configuration { temperature_oversampling: oversampling, ..self }
    }

    /// Returns the configuration with the pressure oversampling replaced.
    pub fn with_pressure_oversampling(self, oversampling: Oversampling) -> (r: Self)
        ensures
            r == (Configuration { pressure_oversampling: oversampling, ..self }),
    {
        Configuration { pressure_oversampling: oversampling, ..self }
    }

    /// Returns the configuration with the humidity oversampling replaced.
    pub fn with_humidity_oversampling(self, oversampling: Oversampling) -> (r: Self)
        ensures
            r == (Configuration { humidity_oversampling: oversampling, ..self }),
    {
        Configuration { humidity_oversampling: oversampling, ..self }
    }

    /// Returns the configuration with the filter coefficient replaced.
    pub fn with_iir_filter(self, iir_filter: IIRFilter) -> (r: Self)
        ensures
            r == (Configuration { iir_filter, ..self }),
    {
        Configuration { iir_filter, ..self }
    }

    /// Byte to write into the humidity control register.
    pub fn ctrl_hum(&self) -> (r: u8)
        ensures
            r == ctrl_hum_spec(*self),
    {
        self.humidity_oversampling.bits()
    }

    /// Byte to write into the measurement control register, with the given mode bits.
    pub fn ctrl_meas(&self, mode: u8) -> (r: u8)
        requires
            mode < 4,
        ensures
            r == ctrl_meas_spec(*self, mode),
    {
        self.temperature_oversampling.bits() * 32 + self.pressure_oversampling.bits() * 4 + mode
    }

    /// Byte to write into the config register.
    pub fn config_reg(&self) -> (r: u8)
        ensures
            r == config_reg_spec(*self),
    {
        self.iir_filter.bits() * 4
    }

    /// Worst-case duration of one forced conversion, in microseconds.
    pub fn measurement_time_us(&self) -> (r: u32)
        ensures
            r == measurement_time_us_spec(*self),
    {
        let t = self.temperature_oversampling.factor();
        let p = self.pressure_oversampling.factor();
        let h = self.humidity_oversampling.factor();
        let mut us: u32 = 1250 + 2300 * t;
        if p != 0 {
            us = us + 2300 * p + 575;
        }
        if h != 0 {
            us = us + 2300 * h + 575;
        }
        us
    }
}

/// Each field of the configuration reads back from the register bytes that
/// encode it, and every encoding fits in one byte.
pub proof fn lemma_registers_read_back(c: Configuration, mode: u8)
    requires
        mode < 4,
    ensures
        0 <= ctrl_hum_spec(c) < 256,
        0 <= ctrl_meas_spec(c, mode) < 256,
        0 <= config_reg_spec(c) < 256,
        ctrl_hum_spec(c) % 8 == c.humidity_oversampling.bits_spec(),
        ctrl_meas_spec(c, mode) / 32 == c.temperature_oversampling.bits_spec(),
        (ctrl_meas_spec(c, mode) / 4) % 8 == c.pressure_oversampling.bits_spec(),
        ctrl_meas_spec(c, mode) % 4 == mode,
        (config_reg_spec(c) / 4) % 8 == c.iir_filter.bits_spec(),
        config_reg_spec(c) % 4 == 0,
{
}

} // verus!
