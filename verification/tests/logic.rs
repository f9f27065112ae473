//! Tests of the pure compensation and decoding functions.

use bmp085_180_rs::calculate_pressure;
use bmp085_180_rs::calculate_temperature;
use bmp085_180_rs::decode_calibration;
use bmp085_180_rs::evaluate_device_id;
use bmp085_180_rs::temperature_fits;
use bmp085_180_rs::word_as_signed;
use bmp085_180_rs::word_from_bytes;
use bmp085_180_rs::BMPError;
use bmp085_180_rs::CalibrationData;

/// The data sheet's worked-example calibration set.
fn reference_calibration() -> CalibrationData {
    CalibrationData {
        ac1: 408,
        ac2: -72,
        ac3: -14383,
        ac4: 32741,
        ac5: 32757,
        ac6: 23153,
        b1: 6190,
        b2: 4,
        mb: -32768,
        mc: -8711,
        md: 2868,
    }
}

#[test]
fn calculates_temperature_correctly() {
    let ut: i32 = 27898;
    let (temperature_deci, b5) = calculate_temperature(&reference_calibration(), ut);
    let temperature: f32 = temperature_deci as f32 / 10.0;

    assert!((temperature - 15.0).abs() < 0.1);
    assert!((b5 - 2399).abs() <= 1)
}

#[test]
fn calculates_pressure_correctly() {
    let oss: u8 = 0;
    let b5: i32 = 2399;
    let up: i32 = 23_843;
    let pressure: Option<i32> = calculate_pressure(&reference_calibration(), oss, b5, up);

    assert_eq!(pressure.unwrap(), 69964);
}

#[test]
fn calculates_pressure_correctly_oss_1() {
    let oss: u8 = 1;
    let b5: i32 = 2399;
    let up: i32 = 47_686;
    let pressure: Option<i32> = calculate_pressure(&reference_calibration(), oss, b5, up);

    assert!((pressure.unwrap() - 69964).abs() < 3);
}

#[test]
fn calculates_pressure_correctly_oss_3() {
    let oss: u8 = 3;
    let b5: i32 = 2399;
    let up: i32 = 190_744;
    let pressure: Option<i32> = calculate_pressure(&reference_calibration(), oss, b5, up);

    assert!((pressure.unwrap() - 69964).abs() < 3);
}

#[test]
fn fails_calculating_pressure_given_invalid_calib_data() {
    let oss: u8 = 0;
    let b5: i32 = 2399;
    let up: i32 = 23_843;
    let calib_data = CalibrationData { ac1: i16::MAX, ..reference_calibration() };
    let pressure: Option<i32> = calculate_pressure(&calib_data, oss, b5, up);

    assert!(pressure.is_none());
}

#[test]
fn fails_calculating_pressure_given_zero_ac4() {
    let calib_data = CalibrationData { ac4: 0, ..reference_calibration() };
    let pressure: Option<i32> = calculate_pressure(&calib_data, 0, 2399, 23_843);

    assert!(pressure.is_none());
}

#[test]
fn fails_calculating_pressure_when_raw_below_b3() {
    let pressure: Option<i32> = calculate_pressure(&reference_calibration(), 0, 2399, 0);

    assert!(pressure.is_none());
}

#[test]
fn temperature_fits_rejects_zero_divisor() {
    // With the reference coefficients, a raw code of 20285 drives the
    // x1 + md divisor of the temperature pipeline to exactly zero.
    assert!(!temperature_fits(&reference_calibration(), 20285));
    assert!(temperature_fits(&reference_calibration(), 27898));
    assert!(temperature_fits(&reference_calibration(), 0));
    assert!(temperature_fits(&reference_calibration(), 65535));
}

#[test]
fn combines_register_pairs_big_endian() {
    assert_eq!(word_from_bytes(0x12, 0x34), 0x1234);
    assert_eq!(word_from_bytes(0x00, 0x00), 0x0000);
    assert_eq!(word_from_bytes(0xFF, 0xFF), 0xFFFF);
}

#[test]
fn reads_words_as_twos_complement() {
    assert_eq!(word_as_signed(0x0000), 0);
    assert_eq!(word_as_signed(0x7FFF), 32767);
    assert_eq!(word_as_signed(0x8000), -32768);
    assert_eq!(word_as_signed(0xFFFF), -1);
}

#[test]
fn decodes_calibration_from_register_image() {
    let image: Vec<u8> = vec![
        0x01, 0x98, // ac1 = 408
        0xFF, 0xB8, // ac2 = -72
        0xC7, 0xD1, // ac3 = -14383
        0x7F, 0xE5, // ac4 = 32741
        0x7F, 0xF5, // ac5 = 32757
        0x5A, 0x71, // ac6 = 23153
        0x18, 0x2E, // b1 = 6190
        0x00, 0x04, // b2 = 4
        0x80, 0x00, // mb = -32768
        0xDD, 0xF9, // mc = -8711
        0x0B, 0x34, // md = 2868
    ];
    let decoded: CalibrationData = decode_calibration(&image);

    assert_eq!(decoded, reference_calibration());
}

#[test]
fn evaluates_device_id_for_each_outcome() {
    let ok: Result<(), BMPError<u8>> = evaluate_device_id(Ok(0x55));
    assert_eq!(ok, Ok(()));

    let wrong: Result<(), BMPError<u8>> = evaluate_device_id(Ok(0xFF));
    assert_eq!(wrong, Err(BMPError::InvalidDeviceId));

    let bus: Result<(), BMPError<u8>> = evaluate_device_id(Err(7u8));
    assert_eq!(bus, Err(BMPError::I2C(7u8)));
}
