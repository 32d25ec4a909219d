use bme280::compensation::MeasurementsFixedRaw;
use bme280::config::{Configuration, IIRFilter, Oversampling};
use bme280::driver::{Action, Bme280Common, Error, Event, Outcome, Stage};
use bme280::registers::spi_write_frame;
use bme280::spi::{AsyncBME280, SPIError, BME280};

fn pt_block() -> Vec<u8> {
    let words: [i32; 12] = [27504, 26435, -1000, 36477, -10685, 3024, 2855, 140, -7, 15500, -14600, 6000];
    let mut pt = Vec::new();
    for w in words {
        pt.extend_from_slice(&(w as u16).to_le_bytes());
    }
    pt.push(0x00);
    pt.push(75);
    pt
}

fn h_block() -> Vec<u8> {
    vec![0x6A, 0x01, 0x00, 0x13, 0x29, 0x03, 0x1E]
}

fn initialized(config: Configuration) -> Bme280Common {
    let mut d = Bme280Common::new();
    assert_eq!(d.start_init::<()>(config), Action::Read { register: 0xD0, len: 1 });
    assert_eq!(d.step::<()>(Event::Read(vec![0x60])), Action::Write { register: 0xE0, value: 0xB6 });
    assert_eq!(d.step::<()>(Event::Written), Action::DelayUs(2000));
    assert_eq!(d.step::<()>(Event::Waited), Action::Read { register: 0x88, len: 26 });
    assert_eq!(d.step::<()>(Event::Read(pt_block())), Action::Read { register: 0xE1, len: 7 });
    d
}

#[test]
fn measure_before_init_is_uninitialized() {
    let mut d = Bme280Common::new();
    assert_eq!(d.start_measure::<()>(), Action::Done(Err(Error::Uninitialized)));
    assert!(matches!(d.stage, Stage::Idle));
    let mut spi = AsyncBME280::new::<()>(0u8).unwrap();
    assert_eq!(spi.common.start_measure::<()>(), Action::Done(Err(Error::Uninitialized)));
    let mut blocking = BME280::new::<()>(0u8).unwrap();
    assert_eq!(blocking.common.start_measure::<()>(), Action::Done(Err(Error::Uninitialized)));
}

#[test]
fn wrong_chip_id_is_unsupported() {
    let mut d = Bme280Common::new();
    assert_eq!(d.start_init::<()>(Configuration::default()), Action::Read { register: 0xD0, len: 1 });
    assert_eq!(d.step::<()>(Event::Read(vec![0x58])), Action::Done(Err(Error::UnsupportedChip)));
    assert!(d.calibration.is_none());
    assert!(matches!(d.stage, Stage::Idle));
}

#[test]
fn default_configuration_register_values() {
    let c = Configuration::default();
    assert_eq!(c.ctrl_hum(), 0x01);
    assert_eq!(c.ctrl_meas(0), 0x54);
    assert_eq!(c.ctrl_meas(1), 0x55);
    assert_eq!(c.config_reg(), 0x10);
    assert_eq!(c.measurement_time_us(), 46100);
}

#[test]
fn builder_sets_each_field() {
    let c = Configuration::default()
        .with_humidity_oversampling(Oversampling::Skip)
        .with_pressure_oversampling(Oversampling::Oversampling4X)
        .with_temperature_oversampling(Oversampling::Oversampling8X)
        .with_iir_filter(IIRFilter::Off);
    assert_eq!(c.ctrl_hum(), 0x00);
    assert_eq!(c.ctrl_meas(0), (4 << 5) | (3 << 2));
    assert_eq!(c.config_reg(), 0x00);
    assert_eq!(c.measurement_time_us(), 1250 + 2300 * 8 + 2300 * 4 + 575);
}

#[test]
fn init_writes_configuration_in_order() {
    let mut d = initialized(Configuration::default());
    assert_eq!(d.step::<()>(Event::Read(h_block())), Action::Write { register: 0xF2, value: 0x01 });
    assert!(d.calibration.is_some());
    assert_eq!(d.step::<()>(Event::Written), Action::Write { register: 0xF4, value: 0x54 });
    assert_eq!(d.step::<()>(Event::Written), Action::Write { register: 0xF5, value: 0x10 });
    assert_eq!(d.step::<()>(Event::Written), Action::Done(Ok(Outcome::Initialized)));
}

#[test]
fn measurement_cycle() {
    let mut d = initialized(Configuration::default());
    d.step::<()>(Event::Read(h_block()));
    d.step::<()>(Event::Written);
    d.step::<()>(Event::Written);
    d.step::<()>(Event::Written);
    assert_eq!(d.start_measure::<()>(), Action::Write { register: 0xF4, value: 0x55 });
    assert_eq!(d.step::<()>(Event::Written), Action::DelayUs(46100));
    assert_eq!(d.step::<()>(Event::Waited), Action::Read { register: 0xF7, len: 8 });
    let data = vec![0x65, 0x5A, 0xC0, 0x7E, 0xED, 0x00, 0x75, 0x30];
    assert_eq!(
        d.step::<()>(Event::Read(data)),
        Action::Done(Ok(Outcome::Measured(MeasurementsFixedRaw {
            temperature: Some(2508),
            pressure: Some(25767233),
            humidity: Some(56317),
        })))
    );
    assert_eq!(d.t_fine, 128422);
}

#[test]
fn compensation_failure_is_reported() {
    let mut d = initialized(Configuration::default());
    d.step::<()>(Event::Read(h_block()));
    let mut c = d.calibration.unwrap();
    c.dig_p1 = 1;
    c.dig_p8 = 32767;
    c.dig_p9 = 32767;
    d.calibration = Some(c);
    d.start_measure::<()>();
    d.step::<()>(Event::Written);
    d.step::<()>(Event::Waited);
    let data = vec![0x65, 0x5A, 0xC0, 0x7E, 0xED, 0x00, 0x75, 0x30];
    assert_eq!(d.step::<()>(Event::Read(data)), Action::Done(Err(Error::CompensationFailed)));
    assert_eq!(d.t_fine, 0);
}

#[test]
fn bus_error_ends_operation() {
    let mut d = Bme280Common::new();
    d.start_init::<SPIError<u8>>(Configuration::default());
    assert!(!d.accepts(&Event::<SPIError<u8>>::Written));
    assert!(d.accepts(&Event::Read::<SPIError<u8>>(vec![0x60])));
    assert!(!d.accepts(&Event::Read::<SPIError<u8>>(vec![0x60, 0x00])));
    let a = d.step(Event::BusError(SPIError::SPI(7u8)));
    assert!(matches!(a, Action::Done(Err(Error::Bus(SPIError::SPI(7))))));
    assert!(matches!(d.stage, Stage::Idle));
}

#[test]
fn spi_write_clears_direction_bit() {
    assert_eq!(spi_write_frame(0xF4, 0x55), vec![0x74, 0x55]);
    assert_eq!(spi_write_frame(0x72, 0x01), vec![0x72, 0x01]);
}
