//! Driver for the BMP085 and BMP180 digital pressure sensors.
//!
//! The two devices share a register map and a compensation algorithm: eleven
//! factory-programmed calibration coefficients are read once from the device,
//! and every measurement combines a raw ADC code with those coefficients
//! through a fixed-point arithmetic pipeline to obtain temperature and
//! pressure.
//!
//! The driver is generic over two capabilities supplied by the caller: a
//! [`BusTransport`] that performs the two-wire register accesses, and a
//! [`WaitSource`] that blocks for the conversion times the device needs.
//! Adapters from any concrete bus or timer implementation can be written
//! outside this crate.

mod constants;
mod driver;
mod hal;
mod logic;
mod math;
mod types;

pub use constants::BMP_DEVICE_ADDR;
pub use constants::DEFAULT_SEA_LEVEL_PRESSURE;
pub use driver::evaluate_device_id;
pub use hal::BusTransport;
pub use hal::WaitSource;
pub use logic::calculate_pressure;
pub use logic::calculate_temperature;
pub use logic::lemma_pressure_square_overflow_is_error;
pub use logic::spec_b5;
pub use logic::spec_pressure;
pub use logic::spec_temperature_deci;
pub use logic::spec_temperature_fits;
pub use logic::temperature_fits;
pub use math::fits_i32;
pub use math::fits_u32;
pub use math::tdiv;
pub use math::w32;
pub use types::decode_calibration;
pub use types::lemma_calibration_round_trip;
pub use types::spec_decode_calibration;
pub use types::spec_encode_calibration;
pub use types::word_as_signed;
pub use types::word_from_bytes;
pub use types::BMPError;
pub use types::CalibrationData;
pub use types::Config;
pub use types::Oss;
pub use types::BMP;
