//! The initialization and measurement protocol as a state machine.
//!
//! The machine decides every bus operation; a runner performs it (a register
//! read, a register write, or a wait) and hands the result back as an event.
//! Nothing here blocks or suspends, so one machine serves blocking and
//! suspending runners alike.
use vstd::prelude::*;
use crate::calibration::{CalibrationData, calibration_of, parse_calib_data};
use crate::compensation::{
    MeasurementsFixedRaw, T_FINE_MAX, compensate, compensation_spec, parse_raw_data, raw_of,
    t_fine_after,
};
use crate::config::{Configuration, config_reg_spec, ctrl_hum_spec, ctrl_meas_spec, measurement_time_us_spec};
use crate::registers::{
    BME280_CHIP_ID, BME280_CHIP_ID_ADDR, BME280_CMD_SOFT_RESET, BME280_CONFIG_ADDR,
    BME280_CTRL_HUM_ADDR, BME280_CTRL_MEAS_ADDR, BME280_DATA_ADDR, BME280_FORCED_MODE,
    BME280_H_CALIB_DATA_ADDR, BME280_H_CALIB_DATA_LEN, BME280_P_T_CALIB_DATA_ADDR,
    BME280_P_T_CALIB_DATA_LEN, BME280_P_T_H_DATA_LEN, BME280_SLEEP_MODE, BME280_SOFT_RESET_ADDR,
    BME280_STARTUP_US,
};

verus! {

/// Errors of the driver, over the error type `E` of the bus.
#[derive(Clone, Copy, Debug, PartialEq, Eq)]
pub enum Error<E> {
    /// The bus reported an error.
    Bus(E),
    /// The chip-ID register does not hold the BME280's identifier.
    UnsupportedChip,
    /// A measurement was requested before the calibration was read.
    Uninitialized,
    /// The pressure formula has no result in range for this calibration.
    CompensationFailed,
}

/// What a finished operation produced.
#[derive(Clone, Copy, Debug, PartialEq, Eq)]
pub enum Outcome {
    /// The calibration was read and the configuration written.
    Initialized,
    /// One forced conversion, compensated.
    Measured(MeasurementsFixedRaw),
}

/// The next thing the runner does.
#[derive(Debug, PartialEq, Eq)]
pub enum Action<E> {
    /// Read `len` bytes starting at `register`.
    Read { register: u8, len: usize },
    /// Write `value` into `register`.
    Write { register: u8, value: u8 },
    /// Wait this many microseconds.
    DelayUs(u32),
    /// The operation is over.
    Done(Result<Outcome, Error<E>>),
}

/// What the runner observed when it carried out the last action.
#[derive(Debug)]
pub enum Event<E> {
    /// The bytes of a read.
    Read(Vec<u8>),
    /// A write went through.
    Written,
    /// A wait is over.
    Waited,
    /// The bus failed.
    BusError(E),
}

/// Where the machine stands within an operation.
#[derive(Debug)]
pub enum Stage {
    /// No operation in progress.
    Idle,
    ChipId,
    Reset,
    Startup,
    PtCalib,
    /// Holds the temperature/pressure calibration block until the humidity block arrives.
    HCalib(Vec<u8>),
    CtrlHum,
    CtrlMeas,
    Config,
    Trigger,
    Convert,
    Data,
}

/// State shared by every transport: the stage of the operation in progress,
/// the calibration once read, the configuration, and the fine temperature of
/// the last conversion.
#[derive(Debug)]
pub struct Bme280Common {
    pub stage: Stage,
    pub calibration: Option<CalibrationData>,
    pub config: Configuration,
    pub t_fine: i32,
}

/// Length of the read that a stage waits for, if it waits for one.
pub open spec fn read_len(stage: Stage) -> Option<int> {
    match stage {
        Stage::ChipId => Some(1),
        Stage::PtCalib => Some(BME280_P_T_CALIB_DATA_LEN as int),
        Stage::HCalib(_) => Some(BME280_H_CALIB_DATA_LEN as int),
        Stage::Data => Some(BME280_P_T_H_DATA_LEN as int),
        _ => None,
    }
}

/// Whether a stage waits for a write to complete.
pub open spec fn awaits_write(stage: Stage) -> bool {
    stage is Reset || stage is CtrlHum || stage is CtrlMeas || stage is Config || stage is Trigger
}

/// Whether a stage waits for a delay to end.
pub open spec fn awaits_delay(stage: Stage) -> bool {
    stage is Startup || stage is Convert
}

/// The events that answer the action a stage issued.
pub open spec fn accepts_spec<E>(stage: Stage, e: Event<E>) -> bool {
    match e {
        Event::Read(v) => read_len(stage) == Some(v@.len() as int),
        Event::Written => awaits_write(stage),
        Event::Waited => awaits_delay(stage),
        Event::BusError(_) => read_len(stage) is Some || awaits_write(stage),
    }
}

/// Calibration, configuration and fine temperature are the same in both states.
pub open spec fn same_data(s: Bme280Common, n: Bme280Common) -> bool {
    n.calibration == s.calibration && n.config == s.config && n.t_fine == s.t_fine
}

/// One step of the protocol: the state `n` and action `a` that follow event
/// `e` in state `s`.
pub open spec fn step_spec<E>(s: Bme280Common, e: Event<E>, n: Bme280Common, a: Action<E>) -> bool {
    match e {
        Event::BusError(err) => n.stage is Idle && same_data(s, n) && a == Action::<E>::Done(
            Err(Error::Bus(err)),
        ),
        Event::Read(v) => match s.stage {
            Stage::ChipId => same_data(s, n) && if v@[0] == BME280_CHIP_ID {
                n.stage is Reset && a == Action::<E>::Write {
                    register: BME280_SOFT_RESET_ADDR,
                    value: BME280_CMD_SOFT_RESET,
                }
            } else {
                n.stage is Idle && a == Action::<E>::Done(Err(Error::UnsupportedChip))
            },
            Stage::PtCalib => same_data(s, n) && (n.stage matches Stage::HCalib(pt) && pt@ == v@)
                && a == Action::<E>::Read {
                register: BME280_H_CALIB_DATA_ADDR,
                len: BME280_H_CALIB_DATA_LEN,
            },
            Stage::HCalib(pt) => n.calibration == Some(calibration_of(pt@, v@)) && n.config
                == s.config && n.t_fine == s.t_fine && n.stage is CtrlHum && a
                == Action::<E>::Write {
                register: BME280_CTRL_HUM_ADDR,
                value: ctrl_hum_spec(s.config) as u8,
            },
            Stage::Data => n.stage is Idle && n.calibration == s.calibration && n.config
                == s.config && match compensation_spec(
                raw_of(v@),
                s.calibration->0,
                s.t_fine as int,
            ) {
                Some(m) => n.t_fine == t_fine_after(raw_of(v@), s.calibration->0, s.t_fine as int)
                    && a == Action::<E>::Done(Ok(Outcome::Measured(m))),
                None => n.t_fine == s.t_fine && a == Action::<E>::Done(
                    Err(Error::CompensationFailed),
                ),
            },
            _ => false,
        },
        Event::Written => same_data(s, n) && match s.stage {
            Stage::Reset => n.stage is Startup && a == Action::<E>::DelayUs(BME280_STARTUP_US),
            Stage::CtrlHum => n.stage is CtrlMeas && a == Action::<E>::Write {
                register: BME280_CTRL_MEAS_ADDR,
                value: ctrl_meas_spec(s.config, BME280_SLEEP_MODE) as u8,
            },
            Stage::CtrlMeas => n.stage is Config && a == Action::<E>::Write {
                register: BME280_CONFIG_ADDR,
                value: config_reg_spec(s.config) as u8,
            },
            Stage::Config => n.stage is Idle && a == Action::<E>::Done(Ok(Outcome::Initialized)),
            Stage::Trigger => n.stage is Convert && a == Action::<E>::DelayUs(
                measurement_time_us_spec(s.config) as u32,
            ),
            _ => false,
        },
        Event::Waited => same_data(s, n) && match s.stage {
            Stage::Startup => n.stage is PtCalib && a == Action::<E>::Read {
                register: BME280_P_T_CALIB_DATA_ADDR,
                len: BME280_P_T_CALIB_DATA_LEN,
            },
            Stage::Convert => n.stage is Data && a == Action::<E>::Read {
                register: BME280_DATA_ADDR,
                len: BME280_P_T_H_DATA_LEN,
            },
            _ => false,
        },
    }
}

/// A chip-ID byte other than the BME280's ends initialization with
/// `UnsupportedChip`; no calibration register is read and the held
/// calibration stays as it was.
pub proof fn lemma_wrong_chip_stops<E>(s: Bme280Common, v: Vec<u8>, n: Bme280Common, a: Action<E>)
    requires
        s.stage is ChipId,
        v@.len() == 1,
        v@[0] != BME280_CHIP_ID,
        step_spec(s, Event::Read(v), n, a),
    ensures
        a == Action::<E>::Done(Err(Error::UnsupportedChip)),
        n.stage is Idle,
        n.calibration == s.calibration,
{
}

impl Bme280Common {
    /// The fine temperature stays in the range that a reading can give; a
    /// conversion is read only with a calibration at hand; a held calibration
    /// block has its full length.
    pub open spec fn wf(self) -> bool {
        &&& -T_FINE_MAX <= self.t_fine <= T_FINE_MAX
        &&& (self.stage is Trigger || self.stage is Convert || self.stage is Data)
            ==> self.calibration is Some
        &&& self.stage matches Stage::HCalib(pt) ==> pt@.len() == BME280_P_T_CALIB_DATA_LEN
    }

    /// A driver that has read no calibration yet, with the recommended configuration.
    pub fn new() -> (r: Self)
        ensures
            r.wf(),
            (r.stage is Idle),
            (r.calibration is None),
            r.t_fine == 0,
    {
        Bme280Common {
            stage: Stage::Idle,
            calibration: None,
            config: Configuration::default(),
            t_fine: 0,
        }
    }

    /// Whether the state is well formed.
    pub fn well_formed(&self) -> (r: bool)
        ensures
            r == self.wf(),
    {
        let held = match &self.stage {
            Stage::HCalib(pt) => pt.len() == BME280_P_T_CALIB_DATA_LEN,
            _ => true,
        };
        let measuring = match self.stage {
            Stage::Trigger | Stage::Convert | Stage::Data => true,
            _ => false,
        };
        -T_FINE_MAX <= self.t_fine && self.t_fine <= T_FINE_MAX && (!measuring
            || self.calibration.is_some()) && held
    }

    /// Whether `event` answers the action last issued.
    pub fn accepts<E>(&self, event: &Event<E>) -> (r: bool)
        ensures
            r == accepts_spec(self.stage, *event),
    {
        match event {
            Event::Read(v) => match self.stage {
                Stage::ChipId => v.len() == 1,
                Stage::PtCalib => v.len() == BME280_P_T_CALIB_DATA_LEN,
                Stage::HCalib(_) => v.len() == BME280_H_CALIB_DATA_LEN,
                Stage::Data => v.len() == BME280_P_T_H_DATA_LEN,
                _ => false,
            },
            Event::Written => match self.stage {
                Stage::Reset | Stage::CtrlHum | Stage::CtrlMeas | Stage::Config | Stage::Trigger => true,
                _ => false,
            },
            Event::Waited => match self.stage {
                Stage::Startup | Stage::Convert => true,
                _ => false,
            },
            Event::BusError(_) => match self.stage {
                Stage::ChipId | Stage::PtCalib | Stage::HCalib(_) | Stage::Data | Stage::Reset
                | Stage::CtrlHum | Stage::CtrlMeas | Stage::Config | Stage::Trigger => true,
                _ => false,
            },
        }
    }

    /// Starts initialization with `config`: the first action reads the chip ID.
    pub fn start_init<E>(&mut self, config: Configuration) -> (r: Action<E>)
        requires
            old(self).wf(),
        ensures
            final(self).wf(),
            (final(self).stage is ChipId),
            final(self).config == config,
            final(self).calibration == old(self).calibration,
            final(self).t_fine == old(self).t_fine,
            (r == Action::<E>::Read { register: BME280_CHIP_ID_ADDR, len: 1 }),
    {
        self.stage = Stage::ChipId;
        self.config = config;
        Action::Read { register: BME280_CHIP_ID_ADDR, len: 1 }
    }

    /// Starts a forced conversion. Without a calibration the operation ends at
    /// once with `Uninitialized` and no bus traffic; otherwise the first action
    /// writes the measurement control register with the forced mode.
    pub fn start_measure<E>(&mut self) -> (r: Action<E>)
        requires
            old(self).wf(),
        ensures
            final(self).wf(),
            same_data(*old(self), *final(self)),
            (old(self).calibration is None) ==> (final(self).stage is Idle) && r == Action::<E>::Done(
                Err(Error::Uninitialized),
            ),
            (old(self).calibration is Some) ==> (final(self).stage is Trigger) && (r
                == Action::<E>::Write {
                register: BME280_CTRL_MEAS_ADDR,
                value: ctrl_meas_spec(old(self).config, BME280_FORCED_MODE) as u8,
            }),
    {
        if self.calibration.is_none() {
            self.stage = Stage::Idle;
            return Action::Done(Err(Error::Uninitialized));
        }
        self.stage = Stage::Trigger;
        Action::Write {
            register: BME280_CTRL_MEAS_ADDR,
            value: self.config.ctrl_meas(BME280_FORCED_MODE),
        }
    }

    /// Advances the protocol by the event that answers the last action.
    pub fn step<E>(&mut self, event: Event<E>) -> (r: Action<E>)
        requires
            old(self).wf(),
            accepts_spec(old(self).stage, event),
        ensures
            final(self).wf(),
            step_spec(*old(self), event, *final(self), r),
    {
        match event {
            Event::BusError(err) => {
                self.stage = Stage::Idle;
                Action::Done(Err(Error::Bus(err)))
            },
            Event::Read(v) => {
                let parsed = match &self.stage {
                    Stage::HCalib(pt) => Some(parse_calib_data(pt.as_slice(), v.as_slice())),
                    _ => None,
                };
                match self.stage {
                    Stage::ChipId => {
                        if v[0] == BME280_CHIP_ID {
                            self.stage = Stage::Reset;
                            Action::Write {
                                register: BME280_SOFT_RESET_ADDR,
                                value: BME280_CMD_SOFT_RESET,
                            }
                        } else {
                            self.stage = Stage::Idle;
                            Action::Done(Err(Error::UnsupportedChip))
                        }
                    },
                    Stage::PtCalib => {
                        self.stage = Stage::HCalib(v);
                        Action::Read {
                            register: BME280_H_CALIB_DATA_ADDR,
                            len: BME280_H_CALIB_DATA_LEN,
                        }
                    },
                    Stage::HCalib(_) => {
                        self.calibration = parsed;
                        self.stage = Stage::CtrlHum;
                        Action::Write {
                            register: BME280_CTRL_HUM_ADDR,
                            value: self.config.ctrl_hum(),
                        }
                    },
                    _ => {
                        let raw = parse_raw_data(v.as_slice());
                        self.stage = Stage::Idle;
                        let calibration = self.calibration.unwrap();
                        match compensate(&raw, &calibration, self.t_fine) {
                            Some((m, tf)) => {
                                self.t_fine = tf;
                                Action::Done(Ok(Outcome::Measured(m)))
                            },
                            None => Action::Done(Err(Error::CompensationFailed)),
                        }
                    },
                }
            },
            Event::Written => match self.stage {
                Stage::Reset => {
                    self.stage = Stage::Startup;
                    Action::DelayUs(BME280_STARTUP_US)
                },
                Stage::CtrlHum => {
                    self.stage = Stage::CtrlMeas;
                    Action::Write {
                        register: BME280_CTRL_MEAS_ADDR,
                        value: self.config.ctrl_meas(BME280_SLEEP_MODE),
                    }
                },
                Stage::CtrlMeas => {
                    self.stage = Stage::Config;
                    Action::Write { register: BME280_CONFIG_ADDR, value: self.config.config_reg() }
                },
                Stage::Config => {
                    self.stage = Stage::Idle;
                    Action::Done(Ok(Outcome::Initialized))
                },
                _ => {
                    self.stage = Stage::Convert;
                    Action::DelayUs(self.config.measurement_time_us())
                },
            },
            Event::Waited => match self.stage {
                Stage::Startup => {
                    self.stage = Stage::PtCalib;
                    Action::Read {
                        register: BME280_P_T_CALIB_DATA_ADDR,
                        len: BME280_P_T_CALIB_DATA_LEN,
                    }
                },
                _ => {
                    self.stage = Stage::Data;
                    Action::Read { register: BME280_DATA_ADDR, len: BME280_P_T_H_DATA_LEN }
                },
            },
        }
    }
}

} // verus!
