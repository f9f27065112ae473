//! Data types of the driver: calibration coefficients, oversampling levels,
//! configuration, and the error taxonomy.

use vstd::prelude::*;
use crate::constants::BMP_DEVICE_ADDR;
use crate::constants::DEFAULT_SEA_LEVEL_PRESSURE;
use vstd::arithmetic::div_mod::lemma_div_is_ordered;
use vstd::arithmetic::div_mod::lemma_div_pos_is_pos;
use vstd::arithmetic::div_mod::lemma_fundamental_div_mod;
use vstd::arithmetic::div_mod::lemma_mod_division_less_than_divisor;

verus! {

/// BMP085/BMP180 driver.
///
/// Owns the bus transport and the wait source for its whole lifetime, plus
/// the mutable driver state: the decoded calibration coefficients, the
/// current oversampling setting, and the sea-level reference pressure used
/// for altitude conversion.
pub struct BMP<B, D> {
    pub i2c: B,
    pub delayer: D,
    pub address: u8,
    pub calib_data: CalibrationData,
    pub oss: Oss,
    pub sea_level_pressure: i32,
}

/// All possible errors in this crate.
#[derive(Debug, PartialEq, Eq)]
pub enum BMPError<E> {
    /// Bus error, surfaced verbatim from the transport.
    I2C(E),
    /// The identification register did not read as the documented constant.
    InvalidDeviceId,
    /// Compensation arithmetic hit an overflow or a zero divisor, which
    /// means the calibration coefficients are implausible.
    InvalidCalibrationData,
}

/// The eleven factory calibration coefficients of the device.
///
/// Each is the big-endian interpretation of two consecutive bytes from the
/// calibration register block: two's complement for the signed fields,
/// plain binary for `ac4`, `ac5`, `ac6`.
#[derive(Debug, Clone, Copy, PartialEq, Eq, Hash)]
pub struct CalibrationData {
    pub ac1: i16,
    pub ac2: i16,
    pub ac3: i16,
    pub ac4: u16,
    pub ac5: u16,
    pub ac6: u16,
    pub b1: i16,
    pub b2: i16,
    pub mb: i16,
    pub mc: i16,
    pub md: i16,
}

impl CalibrationData {
    /// The all-zero coefficient set a driver holds before initialization.
    pub open spec fn spec_default() -> CalibrationData {
        CalibrationData {
            ac1: 0,
            ac2: 0,
            ac3: 0,
            ac4: 0,
            ac5: 0,
            ac6: 0,
            b1: 0,
            b2: 0,
            mb: 0,
            mc: 0,
            md: 0,
        }
    }
}

impl Default for CalibrationData {
    /// All coefficients zero, as before initialization.
    fn default() -> (r: Self)
        ensures
            r == Self::spec_default(),
    {
        CalibrationData {
            ac1: 0,
            ac2: 0,
            ac3: 0,
            ac4: 0,
            ac5: 0,
            ac6: 0,
            b1: 0,
            b2: 0,
            mb: 0,
            mc: 0,
            md: 0,
        }
    }
}

/// The 16-bit word `(high << 8) | low` of a big-endian register pair.
pub open spec fn spec_word(high: u8, low: u8) -> u16 {
    (high * 256 + low) as u16
}

/// The two's-complement reading of a 16-bit register word.
pub open spec fn spec_signed(w: u16) -> i16 {
    if w < 32768 {
        w as i16
    } else {
        (w - 65536) as i16
    }
}

/// The coefficients held by a 22-byte calibration register image: eleven
/// big-endian words in the fixed order `ac1 .. md`, the first three and the
/// last five read as two's complement.
pub open spec fn spec_decode_calibration(s: Seq<u8>) -> CalibrationData {
    CalibrationData {
        ac1: spec_signed(spec_word(s[0], s[1])),
        ac2: spec_signed(spec_word(s[2], s[3])),
        ac3: spec_signed(spec_word(s[4], s[5])),
        ac4: spec_word(s[6], s[7]),
        ac5: spec_word(s[8], s[9]),
        ac6: spec_word(s[10], s[11]),
        b1: spec_signed(spec_word(s[12], s[13])),
        b2: spec_signed(spec_word(s[14], s[15])),
        mb: spec_signed(spec_word(s[16], s[17])),
        mc: spec_signed(spec_word(s[18], s[19])),
        md: spec_signed(spec_word(s[20], s[21])),
    }
}

/// High byte of a register word.
pub open spec fn spec_word_high(w: u16) -> u8 {
    (w / 256) as u8
}

/// Low byte of a register word.
pub open spec fn spec_word_low(w: u16) -> u8 {
    (w % 256) as u8
}

/// The unsigned register word that encodes a signed coefficient.
pub open spec fn spec_unsigned(x: i16) -> u16 {
    if x >= 0 {
        x as u16
    } else {
        (x + 65536) as u16
    }
}

/// The 22-byte register image that holds the given coefficients.
pub open spec fn spec_encode_calibration(c: CalibrationData) -> Seq<u8> {
    seq![
        spec_word_high(spec_unsigned(c.ac1)),
        spec_word_low(spec_unsigned(c.ac1)),
        spec_word_high(spec_unsigned(c.ac2)),
        spec_word_low(spec_unsigned(c.ac2)),
        spec_word_high(spec_unsigned(c.ac3)),
        spec_word_low(spec_unsigned(c.ac3)),
        spec_word_high(c.ac4),
        spec_word_low(c.ac4),
        spec_word_high(c.ac5),
        spec_word_low(c.ac5),
        spec_word_high(c.ac6),
        spec_word_low(c.ac6),
        spec_word_high(spec_unsigned(c.b1)),
        spec_word_low(spec_unsigned(c.b1)),
        spec_word_high(spec_unsigned(c.b2)),
        spec_word_low(spec_unsigned(c.b2)),
        spec_word_high(spec_unsigned(c.mb)),
        spec_word_low(spec_unsigned(c.mb)),
        spec_word_high(spec_unsigned(c.mc)),
        spec_word_low(spec_unsigned(c.mc)),
        spec_word_high(spec_unsigned(c.md)),
        spec_word_low(spec_unsigned(c.md)),
    ]
}

/// Splitting a register word into its bytes and recombining them as
/// `(high << 8) | low` gives the word back.
proof fn lemma_word_split_join(w: u16)
    ensures
        spec_word(spec_word_high(w), spec_word_low(w)) == w,
{
    lemma_fundamental_div_mod(w as int, 256);
    lemma_mod_division_less_than_divisor(w as int, 256);
    lemma_div_pos_is_pos(w as int, 256);
    lemma_div_is_ordered(w as int, 65535, 256);
}

/// A coefficient written as its unsigned register word and read back as
/// two's complement is unchanged.
proof fn lemma_signed_split_join(x: i16)
    ensures
        spec_signed(spec_unsigned(x)) == x,
{
}

/// Round trip: decoding the register image that encodes a coefficient set
/// yields exactly that set, whatever the coefficients. The 22-byte
/// big-endian image determines the eleven values and loses nothing; in
/// particular it does not matter whether a pair is fetched as one two-byte
/// read or two one-byte reads, as long as the bytes are combined as
/// `(high << 8) | low`.
pub proof fn lemma_calibration_round_trip(c: CalibrationData)
    ensures
        spec_decode_calibration(spec_encode_calibration(c)) == c,
{
    lemma_word_split_join(spec_unsigned(c.ac1));
    lemma_word_split_join(spec_unsigned(c.ac2));
    lemma_word_split_join(spec_unsigned(c.ac3));
    lemma_word_split_join(c.ac4);
    lemma_word_split_join(c.ac5);
    lemma_word_split_join(c.ac6);
    lemma_word_split_join(spec_unsigned(c.b1));
    lemma_word_split_join(spec_unsigned(c.b2));
    lemma_word_split_join(spec_unsigned(c.mb));
    lemma_word_split_join(spec_unsigned(c.mc));
    lemma_word_split_join(spec_unsigned(c.md));
    lemma_signed_split_join(c.ac1);
    lemma_signed_split_join(c.ac2);
    lemma_signed_split_join(c.ac3);
    lemma_signed_split_join(c.b1);
    lemma_signed_split_join(c.b2);
    lemma_signed_split_join(c.mb);
    lemma_signed_split_join(c.mc);
    lemma_signed_split_join(c.md);
}

/// Combine a big-endian register pair into its 16-bit word.
pub fn word_from_bytes(high: u8, low: u8) -> (w: u16)
    ensures
        w == spec_word(high, low),
{
    (high as u16) * 256 + (low as u16)
}

/// Reinterpret a register word as a two's-complement signed coefficient.
pub fn word_as_signed(w: u16) -> (r: i16)
    ensures
        r == spec_signed(w),
{
    if w < 32768 {
        w as i16
    } else {
        -((65535 - w) as i16) - 1
    }
}

/// Decode the eleven calibration coefficients from the 22-byte register
/// image, high byte before low byte, in the device's fixed register order.
pub fn decode_calibration(image: &[u8]) -> (r: CalibrationData)
    requires
        image@.len() == 22,
    ensures
        r == spec_decode_calibration(image@),
{
    CalibrationData {
        ac1: word_as_signed(word_from_bytes(image[0], image[1])),
        ac2: word_as_signed(word_from_bytes(image[2], image[3])),
        ac3: word_as_signed(word_from_bytes(image[4], image[5])),
        ac4: word_from_bytes(image[6], image[7]),
        ac5: word_from_bytes(image[8], image[9]),
        ac6: word_from_bytes(image[10], image[11]),
        b1: word_as_signed(word_from_bytes(image[12], image[13])),
        b2: word_as_signed(word_from_bytes(image[14], image[15])),
        mb: word_as_signed(word_from_bytes(image[16], image[17])),
        mc: word_as_signed(word_from_bytes(image[18], image[19])),
        md: word_as_signed(word_from_bytes(image[20], image[21])),
    }
}

/// Oversampling setting for pressure measurements. The higher the level, the
/// more samples the device takes and the more accurate the result, at the
/// cost of a longer conversion time.
#[derive(Debug, Clone, Copy, PartialEq, Eq, Hash)]
pub enum Oss {
    /// Up to 4.5 ms measurement time, 1 sample.
    LowPower,
    /// Up to 7.5 ms measurement time, 2 samples.
    Standard,
    /// Up to 13.5 ms measurement time, 4 samples.
    HighRes,
    /// Up to 25.5 ms measurement time, 8 samples.
    UltraHighRes,
}

impl Oss {
    /// Numeric level of the setting.
    pub open spec fn spec_val(self) -> u8 {
        match self {
            Oss::LowPower => 0,
            Oss::Standard => 1,
            Oss::HighRes => 2,
            Oss::UltraHighRes => 3,
        }
    }

    /// Numeric level of the setting, `0..=3`.
    pub(crate) fn val(&self) -> (v: u8)
        ensures
            v == self.spec_val(),
            v <= 3,
    {
        match *self {
            Oss::LowPower => 0,
            Oss::Standard => 1,
            Oss::HighRes => 2,
            Oss::UltraHighRes => 3,
        }
    }
}

/// Driver configuration, consumed once at construction.
#[derive(Debug, Clone, Copy, PartialEq, Eq, Hash)]
pub struct Config {
    pub oss: Oss,
    /// Device bus address, default is `0x77`.
    pub address: u8,
    /// Pressure at sea level in Pa, used in altitude calculation. This value
    /// varies with atmospheric conditions, so it can be fine-tuned here.
    /// Default is `101_325`.
    pub sea_level_pressure: i32,
}

impl Default for Config {
    /// Default configuration: lowest oversampling, the well-known device
    /// address, and a standard atmosphere as the sea-level reference.
    fn default() -> (r: Self)
        ensures
            r == (Config {
                oss: Oss::LowPower,
                address: BMP_DEVICE_ADDR,
                sea_level_pressure: DEFAULT_SEA_LEVEL_PRESSURE,
            }),
    {
        Config { oss: Oss::LowPower, address: BMP_DEVICE_ADDR, sea_level_pressure: DEFAULT_SEA_LEVEL_PRESSURE }
    }
}

} // verus!
