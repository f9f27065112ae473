//! The driver facade: owns the bus transport, the wait source and the
//! mutable driver state, sequences the device transactions, and translates
//! failures into the single error taxonomy.

use vstd::prelude::*;
use crate::constants::BMP_CALIB_FIRST_REG;
use crate::constants::BMP_CALIB_LEN;
use crate::constants::BMP_CMD_SOFT_RESET;
use crate::constants::BMP_CMD_TEMPERATURE;
use crate::constants::BMP_CTRL_MEAS_REG;
use crate::constants::BMP_DEVICE_ID;
use crate::constants::BMP_ID_REG;
use crate::constants::BMP_OUT_LSB_REG;
use crate::constants::BMP_OUT_MSB_REG;
use crate::constants::BMP_OUT_XLSB_REG;
use crate::constants::BMP_SOFT_RST_REG;
use crate::hal::BusTransport;
use crate::hal::WaitSource;
use crate::logic;
use crate::logic::spec_b5;
use crate::logic::spec_pressure;
use crate::logic::spec_temperature_deci;
use crate::logic::spec_temperature_fits;
use crate::types::decode_calibration;
use crate::types::word_from_bytes;
use crate::types::BMPError;
use crate::types::CalibrationData;
use crate::types::Config;
use crate::types::Oss;
use crate::types::BMP;
use vstd::arithmetic::div_mod::lemma_div_is_ordered;
use vstd::arithmetic::div_mod::lemma_div_pos_is_pos;

verus! {

/// The outcome of an identification read: success exactly on the documented
/// identifier byte, the wrapped bus error on a transport failure, and
/// `InvalidDeviceId` on any other byte.
pub fn evaluate_device_id<E>(reading: Result<u8, E>) -> (r: Result<(), BMPError<E>>)
    ensures
        r is Ok <==> (reading matches Ok(id) && id == BMP_DEVICE_ID),
        (reading matches Ok(id) && id != BMP_DEVICE_ID ==> (r matches Err(d) && d
            is InvalidDeviceId)),
        (reading matches Err(e) ==> r == Err::<(), BMPError<E>>(BMPError::I2C(e))),
{
    match reading {
        Ok(id) => {
            if id == BMP_DEVICE_ID {
                Ok(())
            } else {
                Err(BMPError::InvalidDeviceId)
            }
        },
        Err(e) => Err(BMPError::I2C(e)),
    }
}

impl<B, D> BMP<B, D> where B: BusTransport, D: WaitSource {
    /// Creates a new driver instance, valid for both the BMP085 and BMP180
    /// modules.
    ///
    /// Stores the configuration and an all-zero calibration set; performs no
    /// bus activity.
    pub fn new(i2c: B, delayer: D, config: Config) -> (r: Self)
        ensures
            r.address == config.address,
            r.oss == config.oss,
            r.sea_level_pressure == config.sea_level_pressure,
            r.calib_data == CalibrationData::spec_default(),
    {
        BMP {
            i2c,
            delayer,
            address: config.address,
            calib_data: CalibrationData::default(),
            oss: config.oss,
            sea_level_pressure: config.sea_level_pressure,
        }
    }

    /// Read the identification register.
    fn read_id(&mut self) -> (r: Result<u8, B::BusError>)
        ensures
            final(self).address == old(self).address,
            final(self).calib_data == old(self).calib_data,
            final(self).oss == old(self).oss,
            final(self).sea_level_pressure == old(self).sea_level_pressure,
    {
        let address = self.address;
        self.i2c.read_register(address, BMP_ID_REG)
    }

    /// Check whether a BMP device answers on the configured address; usable
    /// before the driver is initialized.
    ///
    /// Succeeds exactly when the identification register reads as the
    /// documented identifier; any other byte yields `InvalidDeviceId`, a
    /// transport failure the wrapped bus error.
    pub fn test_connection(&mut self) -> (r: Result<(), BMPError<B::BusError>>)
        ensures
            final(self).address == old(self).address,
            final(self).calib_data == old(self).calib_data,
            final(self).oss == old(self).oss,
            final(self).sea_level_pressure == old(self).sea_level_pressure,
            !(r matches Err(e) && e is InvalidCalibrationData),
    {
        let reading = self.read_id();
        evaluate_device_id(reading)
    }

    /// Read the big-endian register pair `reg_h`, `reg_l` as one 16-bit word.
    fn read16_i2c(&mut self, reg_h: u8, reg_l: u8) -> (r: Result<u16, B::BusError>)
        ensures
            final(self).address == old(self).address,
            final(self).calib_data == old(self).calib_data,
            final(self).oss == old(self).oss,
            final(self).sea_level_pressure == old(self).sea_level_pressure,
    {
        let address = self.address;
        let high = match self.i2c.read_register(address, reg_h) {
            Ok(b) => b,
            Err(e) => {
                return Err(e);
            },
        };
        let low = match self.i2c.read_register(address, reg_l) {
            Ok(b) => b,
            Err(e) => {
                return Err(e);
            },
        };
        Ok(word_from_bytes(high, low))
    }

    /// Initialize the driver: read and decode the 22-byte calibration block.
    ///
    /// On success the stored calibration is replaced by the decoded
    /// coefficients; on a bus failure it is left untouched and the error is
    /// surfaced.
    pub fn init(&mut self) -> (r: Result<(), BMPError<B::BusError>>)
        ensures
            final(self).address == old(self).address,
            final(self).oss == old(self).oss,
            final(self).sea_level_pressure == old(self).sea_level_pressure,
            r is Err ==> final(self).calib_data == old(self).calib_data,
            (r matches Err(e) ==> e is I2C),
    {
        let mut image: Vec<u8> = Vec::new();
        let mut k: usize = 0;
        while k < BMP_CALIB_LEN
            invariant
                k <= BMP_CALIB_LEN,
                image@.len() == k,
                self.address == old(self).address,
                self.calib_data == old(self).calib_data,
                self.oss == old(self).oss,
                self.sea_level_pressure == old(self).sea_level_pressure,
            decreases BMP_CALIB_LEN - k,
        {
            let address = self.address;
            let register: u8 = BMP_CALIB_FIRST_REG + (k as u8);
            let b = match self.i2c.read_register(address, register) {
                Ok(b) => b,
                Err(e) => {
                    return Err(BMPError::I2C(e));
                },
            };
            image.push(b);
            k = k + 1;
        }
        self.calib_data = decode_calibration(image.as_slice());
        Ok(())
    }

    /// Start a temperature conversion, wait out the conversion time, and
    /// read the raw 16-bit temperature code.
    fn read_uncompensated_temperature(&mut self) -> (r: Result<i32, B::BusError>)
        ensures
            final(self).address == old(self).address,
            final(self).calib_data == old(self).calib_data,
            final(self).oss == old(self).oss,
            final(self).sea_level_pressure == old(self).sea_level_pressure,
            (r matches Ok(v) ==> 0 <= v <= 0xFFFF),
    {
        let address = self.address;
        match self.i2c.write_register(address, BMP_CTRL_MEAS_REG, BMP_CMD_TEMPERATURE) {
            Ok(u) => u,
            Err(e) => {
                return Err(e);
            },
        };
        self.delayer.delay_ms(5);
        let w = match self.read16_i2c(BMP_OUT_MSB_REG, BMP_OUT_LSB_REG) {
            Ok(w) => w,
            Err(e) => {
                return Err(e);
            },
        };
        Ok(w as i32)
    }

    /// Start a pressure conversion at the configured oversampling level,
    /// wait out the level's conversion time, and read the raw pressure code
    /// from the three output registers.
    fn read_uncompensated_pressure(&mut self) -> (r: Result<i32, B::BusError>)
        ensures
            final(self).address == old(self).address,
            final(self).calib_data == old(self).calib_data,
            final(self).oss == old(self).oss,
            final(self).sea_level_pressure == old(self).sea_level_pressure,
            (r matches Ok(v) ==> 0 <= v < 0x80000),
    {
        let address = self.address;
        // Control value 0x34 + (oss << 6).
        let command: u8 = match self.oss {
            Oss::LowPower => 0x34,
            Oss::Standard => 0x74,
            Oss::HighRes => 0xB4,
            Oss::UltraHighRes => 0xF4,
        };
        match self.i2c.write_register(address, BMP_CTRL_MEAS_REG, command) {
            Ok(u) => u,
            Err(e) => {
                return Err(e);
            },
        };
        let conversion_us: u32 = match self.oss {
            Oss::LowPower => 4500,
            Oss::Standard => 7500,
            Oss::HighRes => 13_000,
            Oss::UltraHighRes => 25_500,
        };
        self.delayer.delay_us(conversion_us);
        let msb = match self.i2c.read_register(address, BMP_OUT_MSB_REG) {
            Ok(b) => b,
            Err(e) => {
                return Err(e);
            },
        };
        let lsb = match self.i2c.read_register(address, BMP_OUT_LSB_REG) {
            Ok(b) => b,
            Err(e) => {
                return Err(e);
            },
        };
        let xlsb = match self.i2c.read_register(address, BMP_OUT_XLSB_REG) {
            Ok(b) => b,
            Err(e) => {
                return Err(e);
            },
        };
        // Big-endian assembly with a leading zero byte, then the
        // arithmetic right shift by 8 - oss of a nonnegative value.
        let assembled: u32 = (msb as u32) * 65536 + (lsb as u32) * 256 + (xlsb as u32);
        let divisor: u32 = match self.oss {
            Oss::LowPower => 256,
            Oss::Standard => 128,
            Oss::HighRes => 64,
            Oss::UltraHighRes => 32,
        };
        proof {
            lemma_div_pos_is_pos(assembled as int, divisor as int);
            lemma_div_is_ordered(assembled as int, 0xFFFFFF, divisor as int);
        }
        let up: u32 = assembled / divisor;
        Ok(up as i32)
    }

    /// Measure the temperature, in tenths of a degree Celsius.
    ///
    /// Acquires a raw temperature code and compensates it with the stored
    /// calibration. A transport failure is surfaced as the wrapped bus
    /// error; a coefficient set on which the fixed-point pipeline would
    /// overflow or divide by zero yields `InvalidCalibrationData`.
    pub fn read_temperature(&mut self) -> (r: Result<i32, BMPError<B::BusError>>)
        ensures
            final(self).address == old(self).address,
            final(self).calib_data == old(self).calib_data,
            final(self).oss == old(self).oss,
            final(self).sea_level_pressure == old(self).sea_level_pressure,
            (r matches Err(e) ==> !(e is InvalidDeviceId)),
            (r matches Ok(t) ==> exists|ut: int|
                0 <= ut <= 0xFFFF && #[trigger] spec_temperature_fits(old(self).calib_data, ut)
                    && t == spec_temperature_deci(old(self).calib_data, ut)),
    {
        let ut = match self.read_uncompensated_temperature() {
            Ok(v) => v,
            Err(e) => {
                return Err(BMPError::I2C(e));
            },
        };
        if !logic::temperature_fits(&self.calib_data, ut) {
            return Err(BMPError::InvalidCalibrationData);
        }
        let (temperature, _b5) = logic::calculate_temperature(&self.calib_data, ut);
        proof {
            assert(spec_temperature_fits(old(self).calib_data, ut as int) && temperature
                == spec_temperature_deci(old(self).calib_data, ut as int));
        }
        Ok(temperature)
    }

    /// Measure the pressure, in pascals.
    ///
    /// Pressure compensation needs the `b5` intermediate of a temperature
    /// measurement, so a temperature acquisition is always performed first.
    /// A transport failure is surfaced as the wrapped bus error; a
    /// compensation overflow or zero divisor yields
    /// `InvalidCalibrationData`.
    pub fn read_pressure(&mut self) -> (r: Result<i32, BMPError<B::BusError>>)
        ensures
            final(self).address == old(self).address,
            final(self).calib_data == old(self).calib_data,
            final(self).oss == old(self).oss,
            final(self).sea_level_pressure == old(self).sea_level_pressure,
            (r matches Err(e) ==> !(e is InvalidDeviceId)),
            (r matches Ok(p) ==> exists|ut: int, up: int|
                #![trigger spec_pressure(
                    old(self).calib_data,
                    old(self).oss.spec_val(),
                    spec_b5(old(self).calib_data, ut),
                    up,
                )]
                0 <= ut <= 0xFFFF && 0 <= up < 0x80000 && spec_temperature_fits(
                    old(self).calib_data,
                    ut,
                ) && spec_pressure(
                    old(self).calib_data,
                    old(self).oss.spec_val(),
                    spec_b5(old(self).calib_data, ut),
                    up,
                ) == Some(p)),
    {
        let ut = match self.read_uncompensated_temperature() {
            Ok(v) => v,
            Err(e) => {
                return Err(BMPError::I2C(e));
            },
        };
        if !logic::temperature_fits(&self.calib_data, ut) {
            return Err(BMPError::InvalidCalibrationData);
        }
        let (_temperature, b5) = logic::calculate_temperature(&self.calib_data, ut);
        let up = match self.read_uncompensated_pressure() {
            Ok(v) => v,
            Err(e) => {
                return Err(BMPError::I2C(e));
            },
        };
        let oss_value = self.oss.val();
        match logic::calculate_pressure(&self.calib_data, oss_value, b5, up) {
            Some(pressure) => {
                proof {
                    assert(spec_pressure(
                        old(self).calib_data,
                        old(self).oss.spec_val(),
                        spec_b5(old(self).calib_data, ut as int),
                        up as int,
                    ) == Some(pressure));
                }
                Ok(pressure)
            },
            None => Err(BMPError::InvalidCalibrationData),
        }
    }

    /// Trigger a soft reset of the device: the same sequence as power-on
    /// reset.
    pub fn soft_reset(&mut self) -> (r: Result<(), BMPError<B::BusError>>)
        ensures
            final(self).address == old(self).address,
            final(self).calib_data == old(self).calib_data,
            final(self).oss == old(self).oss,
            final(self).sea_level_pressure == old(self).sea_level_pressure,
            (r matches Err(e) ==> e is I2C),
    {
        let address = self.address;
        match self.i2c.write_register(address, BMP_SOFT_RST_REG, BMP_CMD_SOFT_RESET) {
            Ok(u) => Ok(u),
            Err(e) => Err(BMPError::I2C(e)),
        }
    }

    /// Set the oversampling setting for subsequent pressure measurements.
    pub fn set_oversampling_setting(&mut self, oss: Oss)
        ensures
            final(self).oss == oss,
            final(self).address == old(self).address,
            final(self).calib_data == old(self).calib_data,
            final(self).sea_level_pressure == old(self).sea_level_pressure,
    {
        self.oss = oss;
    }

    /// Set the sea-level reference pressure, in pascals, used by altitude
    /// conversion. Only positive values are meaningful.
    pub fn set_sea_level_pressure(&mut self, sea_level_pressure: i32)
        requires
            sea_level_pressure > 0,
        ensures
            final(self).sea_level_pressure == sea_level_pressure,
            final(self).address == old(self).address,
            final(self).calib_data == old(self).calib_data,
            final(self).oss == old(self).oss,
    {
        self.sea_level_pressure = sea_level_pressure;
    }

    /// The configured sea-level reference pressure, in pascals.
    pub fn sea_level_pressure(&self) -> (r: i32)
        ensures
            r == self.sea_level_pressure,
    {
        self.sea_level_pressure
    }

    /// The calibration coefficients the driver currently holds.
    pub fn calibration_data(&self) -> (r: CalibrationData)
        ensures
            r == self.calib_data,
    {
        self.calib_data
    }
}

} // verus!
