use vstd::prelude::*;

verus! {

/// Byte written to the sensor to trigger a fresh measurement cycle.
pub const MEASUREMENT_TRIGGER_BYTE: u8 = 0;

/// Milliseconds the sensor needs after the trigger before the new
/// measurement can be read back.
pub const MEASUREMENT_SETTLE_DELAY_MS: u64 = 60;

/// Largest raw humidity code: 14 data bits, all set.
pub const RAW_HUMIDITY_FULL_SCALE: u16 = 0x3fff;

/// Largest raw temperature code: 16 bits with the low 2 masked off.
pub const RAW_TEMPERATURE_FULL_SCALE: u16 = 0xfffc;

#[derive(Clone, Copy, Debug, PartialEq, Eq, Structural)]
pub enum Error {
    I2CCreationError,
    I2CSetSlaveAddressError { i2c_address: u16 },
    I2CReadingError { i2c_address: u16 },
    I2CWritingError { i2c_address: u16 },
}

/// One decoded sensor response: the raw humidity and temperature codes
/// with the status and stale bits already masked off.
#[derive(Clone, Copy, Debug, PartialEq, Eq, Structural)]
pub struct TelemetryReading {
    pub raw_humidity: u16,
    pub raw_temperature: u16,
}

impl TelemetryReading {
    /// The raw codes fit their masks: 14 humidity bits, and a temperature
    /// code whose low 2 bits are clear.
    pub open spec fn wf(self) -> bool {
        &&& self.raw_humidity <= RAW_HUMIDITY_FULL_SCALE
        &&& self.raw_temperature <= RAW_TEMPERATURE_FULL_SCALE
        &&& self.raw_temperature % 4 == 0
    }

    /// Relative humidity in hundredths of a percent: the raw code scaled
    /// linearly so that the full-scale code reads 100.00 %.
    pub fn humidity_centi_percent(&self) -> (h: u16)
        requires
            self.wf(),
        ensures
            h == self.raw_humidity * 10000 / RAW_HUMIDITY_FULL_SCALE as int,
            h <= 10000,
    {
        let wide: u32 = (self.raw_humidity as u32) * 10000;
        let h: u32 = wide / 0x3fff;
        proof {
            assert(wide / 0x3fff <= 10000) by (nonlinear_arith)
                requires
                    wide == self.raw_humidity * 10000,
                    self.raw_humidity <= 0x3fff,
            ;
        }
        h as u16
    }

    /// Temperature in hundredths of a degree Celsius: the raw code scaled
    /// linearly so that code 0 reads -40.00 and the full-scale code reads
    /// 125.00.
    pub fn temperature_centi_celsius(&self) -> (t: i32)
        requires
            self.wf(),
        ensures
            t == self.raw_temperature * 16500 / RAW_TEMPERATURE_FULL_SCALE as int - 4000,
            -4000 <= t <= 12500,
    {
        let wide: u32 = (self.raw_temperature as u32) * 16500;
        let scaled: u32 = wide / 0xfffc;
        proof {
            assert(wide / 0xfffc <= 16500) by (nonlinear_arith)
                requires
                    wide == self.raw_temperature * 16500,
                    self.raw_temperature <= 0xfffc,
            ;
        }
        (scaled as i32) - 4000
    }
}

/// Decodes the 4 bytes of one sensor response. The top 2 bits of the first
/// byte are status flags and are masked off; the remaining 14 bits form the
/// raw humidity code. The last 2 bytes form the raw temperature code, whose
/// low 2 bits carry no data and are masked off.
pub fn decode_reading(b0: u8, b1: u8, b2: u8, b3: u8) -> (r: TelemetryReading)
    ensures
        r.raw_humidity == (b0 as int % 64) * 256 + b1,
        r.raw_temperature == b2 as int * 256 + (b3 as int - b3 as int % 4),
        r.wf(),
{
    let raw_humidity: u16 = ((b0 % 64) as u16) * 256 + (b1 as u16);
    let raw_temperature: u16 = (b2 as u16) * 256 + ((b3 - b3 % 4) as u16);
    TelemetryReading { raw_humidity, raw_temperature }
}

} // verus!
