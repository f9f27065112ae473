//! Register addresses and default configuration values of the BMP085/BMP180.

use vstd::prelude::*;

verus! {

/// Default 7-bit bus address of the device.
pub const BMP_DEVICE_ADDR: u8 = 0x77;

/// Identification register; reads as [`BMP_DEVICE_ID`].
pub const BMP_ID_REG: u8 = 0xD0;

/// Value the identification register reads as on a live device.
pub const BMP_DEVICE_ID: u8 = 0x55;

/// First register of the 22-byte calibration block (`0xAA..=0xBF`).
pub const BMP_CALIB_FIRST_REG: u8 = 0xAA;

/// Number of bytes in the calibration block: eleven big-endian 16-bit words.
pub const BMP_CALIB_LEN: usize = 22;

/// Measurement control register.
pub const BMP_CTRL_MEAS_REG: u8 = 0xF4;

/// Control value that starts a temperature conversion.
pub const BMP_CMD_TEMPERATURE: u8 = 0x2E;

/// Most significant byte of the conversion result.
pub const BMP_OUT_MSB_REG: u8 = 0xF6;

/// Least significant byte of the conversion result.
pub const BMP_OUT_LSB_REG: u8 = 0xF7;

/// Extra low byte of a pressure conversion result.
pub const BMP_OUT_XLSB_REG: u8 = 0xF8;

/// Soft-reset register; writing [`BMP_CMD_SOFT_RESET`] restarts the device.
pub const BMP_SOFT_RST_REG: u8 = 0xE0;

/// Value written to [`BMP_SOFT_RST_REG`] to trigger a reset.
pub const BMP_CMD_SOFT_RESET: u8 = 0xB6;

/// Standard atmosphere at sea level, in pascals.
pub const DEFAULT_SEA_LEVEL_PRESSURE: i32 = 101_325;

} // verus!
