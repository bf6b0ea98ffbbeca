use vstd::prelude::*;

use byteorder::ByteOrder;

use crate::rows::SourceError;
use crate::text::{metric_names, names_of, owned_all, string_views};

verus! {

/// Configuration register.
pub const REG_CONFIG: u8 = 0x00;

/// Bus voltage register.
pub const REG_BUS_VOLTAGE: u8 = 0x02;

/// Power register.
pub const REG_POWER: u8 = 0x03;

/// Current register.
pub const REG_CURRENT: u8 = 0x04;

/// Calibration register.
pub const REG_CALIBRATION: u8 = 0x05;

/// Metrics a power sensor reports.
pub open spec fn power_metrics() -> Seq<Seq<char>> {
    seq!["voltage"@, "current"@, "power"@]
}

/// Big-endian value of two bytes.
pub open spec fn be_u16(hi: u8, lo: u8) -> u16 {
    (hi as int * 256 + lo as int) as u16
}

/// A register write: the register, then its value high byte first.
pub open spec fn register_write(register: u8, value: u16) -> Seq<u8> {
    seq![register, (value / 256) as u8, (value % 256) as u8]
}

/// An INA219 current/power monitor on an I2C bus. `N` is the type of the
/// expected maximum current.
pub struct PowerSensor<N> {
    pub name: String,
    pub dev_bus: String,
    pub address: u8,
    pub expected_amps: N,
}

impl<N> PowerSensor<N> {
    pub fn new(name: String, dev_bus: String, address: u8, expected_amps: N) -> (r: PowerSensor<N>)
        ensures
            r.name == name,
            r.dev_bus == dev_bus,
            r.address == address,
            r.expected_amps == expected_amps,
    {
        PowerSensor { name, dev_bus, address, expected_amps }
    }

    /// `<name>_voltage`, `<name>_current`, `<name>_power`.
    pub fn get_names(&self) -> (r: Vec<String>)
        ensures
            string_views(r@) == names_of(self.name@, power_metrics()),
    {
        let metrics = owned_all(&["voltage", "current", "power"]);
        assert(["voltage", "current", "power"]@.map_values(|s: &str| s@) =~= power_metrics());
        metric_names(self.name.as_str(), &metrics)
    }
}

/// The register protocol of an INA219 at one bus address: which bytes to
/// write and how to read back what the device answers.
pub struct Ina219 {
    pub address: u8,
}

/// Relies on `byteorder::BigEndian::read_u16`: the first two bytes as a
/// big-endian integer (it panics on fewer than two).
#[verifier::external_body]
fn read_be_u16(buf: &[u8]) -> (r: u16)
    requires
        buf@.len() >= 2,
    ensures
        r == be_u16(buf@[0], buf@[1]),
{
    byteorder::BigEndian::read_u16(buf)
}

impl Ina219 {
    pub fn new(address: u8) -> (r: Ina219)
        ensures
            r.address == address,
    {
        Ina219 { address }
    }

    /// The write that stores `value` in the calibration register.
    pub fn calibrate(&self, value: u16) -> (r: Vec<u8>)
        ensures
            r@ == register_write(REG_CALIBRATION, value),
    {
        self.write_register(REG_CALIBRATION, value)
    }

    /// The write that stores `value` in `register`.
    pub fn write_register(&self, register: u8, value: u16) -> (r: Vec<u8>)
        ensures
            r@ == register_write(register, value),
    {
        let mut r: Vec<u8> = Vec::new();
        r.push(register);
        r.push((value >> 8) as u8);
        r.push((value & 0xff) as u8);
        assert((value >> 8) as u8 == (value / 256) as u8) by (bit_vector);
        assert((value & 0xff) as u8 == (value % 256) as u8) by (bit_vector);
        assert(r@ =~= register_write(register, value));
        r
    }

    /// The write that selects `register` for the next read.
    pub fn select(&self, register: u8) -> (r: Vec<u8>)
        ensures
            r@ == seq![register],
    {
        let mut r: Vec<u8> = Vec::new();
        r.push(register);
        assert(r@ =~= seq![register]);
        r
    }

    /// The register value in the (first) two bytes read back.
    pub fn decode(buf: &[u8]) -> (r: u16)
        requires
            buf@.len() >= 2,
        ensures
            r == be_u16(buf@[0], buf@[1]),
    {
        read_be_u16(buf)
    }

    /// The configuration that powers the device down: operating mode bits cleared.
    pub fn sleep_config(config: u16) -> (r: u16)
        ensures
            r == config & 0xfff8,
    {
        config & 0xfff8
    }

    /// The configuration written to wake the device: only the operating mode
    /// bits kept.
    pub fn wake_config(config: u16) -> (r: u16)
        ensures
            r == config & 0x0007,
    {
        config & 0x0007
    }

    /// Bus voltage in millivolts from the raw bus voltage register: the
    /// reading sits above three status bits, at 4 mV per step.
    pub fn bus_millivolts(raw: u16) -> (r: u32)
        ensures
            r == (raw as nat / 8) * 4,
    {
        assert(raw >> 3u16 == raw / 8) by (bit_vector);
        let shifted = raw >> 3;
        (shifted as u32) * 4
    }
}

/// The outcome of a measurement once the device has been put back to low
/// power, which is done whether or not the readings succeeded: a failed
/// reading decides first, then a failed power-down, else the readings.
pub fn after_sleep<V>(readings: Result<Vec<V>, SourceError>, slept: Result<(), SourceError>) -> (r: Result<
    Vec<V>,
    SourceError,
>)
    ensures
        match readings {
            Err(e) => r == Err::<Vec<V>, SourceError>(e),
            Ok(v) => match slept {
                Err(e) => r == Err::<Vec<V>, SourceError>(e),
                Ok(_) => r == Ok::<Vec<V>, SourceError>(v),
            },
        },
{
    match readings {
        Err(e) => Err(e),
        Ok(v) => match slept {
            Err(e) => Err(e),
            Ok(_) => Ok(v),
        },
    }
}

} // verus!
