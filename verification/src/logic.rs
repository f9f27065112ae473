//! Compensation engine: the vendor fixed-point pipeline that turns raw ADC
//! codes into temperature and pressure.
//!
//! Every stage of the pipeline is stated over mathematical integers:
//! arithmetic right shifts appear as floor divisions by powers of two, C-style
//! truncating division as [`tdiv`], and `as u32` reinterpretation of signed
//! intermediates as [`w32`]. The executable functions compute exactly those
//! stages in 32-bit arithmetic; any intermediate that leaves its 32-bit range
//! ends the pressure computation with `None`, the calibration-error outcome.

use vstd::prelude::*;
use crate::math::fits_i32;
use crate::math::fits_u32;
use crate::math::floor_div_i32;
use crate::math::lemma_tdiv_range;
use crate::math::tdiv;
use crate::math::trunc_div_i32;
use crate::math::w32;
use crate::math::wrap_u32;
use crate::types::CalibrationData;
use vstd::arithmetic::div_mod::lemma_div_is_ordered;

verus! {

// ------------------------------------------------------------------
// Temperature compensation
// ------------------------------------------------------------------

/// First temperature term: `x1 = ((ut - ac6) * ac5) >> 15`.
pub open spec fn spec_temp_x1(c: CalibrationData, ut: int) -> int {
    ((ut - c.ac6) * c.ac5) / 32768
}

/// Second temperature term: `x2 = (mc << 11) / (x1 + md)`, a truncating
/// division.
pub open spec fn spec_temp_x2(c: CalibrationData, ut: int) -> int {
    tdiv(c.mc * 2048, spec_temp_x1(c, ut) + c.md)
}

/// The `b5` intermediate that couples temperature and pressure compensation.
pub open spec fn spec_b5(c: CalibrationData, ut: int) -> int {
    spec_temp_x1(c, ut) + spec_temp_x2(c, ut)
}

/// Compensated temperature in tenths of a degree Celsius: `(b5 + 8) >> 4`.
pub open spec fn spec_temperature_deci(c: CalibrationData, ut: int) -> int {
    (spec_b5(c, ut) + 8) / 16
}

/// The inputs on which the 32-bit temperature pipeline neither overflows nor
/// divides by zero.
pub open spec fn spec_temperature_fits(c: CalibrationData, ut: int) -> bool {
    &&& fits_i32(ut - c.ac6)
    &&& fits_i32((ut - c.ac6) * c.ac5)
    &&& spec_temp_x1(c, ut) + c.md != 0
}

/// Whether the temperature pipeline is well-defined for these inputs.
///
/// Returns exactly [`spec_temperature_fits`]; callers that obtain the raw
/// code from the device test this before compensating.
pub fn temperature_fits(calib_data: &CalibrationData, ut: i32) -> (r: bool)
    ensures
        r == spec_temperature_fits(*calib_data, ut as int),
{
    let diff: i64 = (ut as i64) - (calib_data.ac6 as i64);
    if diff < (i32::MIN as i64) || diff > (i32::MAX as i64) {
        return false;
    }
    proof {
        assert(i32::MIN as int * 65536 <= diff as int * (calib_data.ac5 as int)
            <= i32::MAX as int * 65536) by (nonlinear_arith)
            requires
                i32::MIN <= diff <= i32::MAX,
                0 <= calib_data.ac5 < 65536,
        ;
    }
    let prod: i64 = diff * (calib_data.ac5 as i64);
    if prod < (i32::MIN as i64) || prod > (i32::MAX as i64) {
        return false;
    }
    let x1: i32 = floor_div_i32(prod as i32, 32768);
    (x1 as i64) + (calib_data.md as i64) != 0
}

/// Temperature compensation.
///
/// Returns the compensated temperature in tenths of a degree Celsius together
/// with the `b5` intermediate that pressure compensation consumes.
pub fn calculate_temperature(calib_data: &CalibrationData, ut: i32) -> (r: (i32, i32))
    requires
        spec_temperature_fits(*calib_data, ut as int),
    ensures
        r.0 == spec_temperature_deci(*calib_data, ut as int),
        r.1 == spec_b5(*calib_data, ut as int),
{
    let diff: i32 = ut - (calib_data.ac6 as i32);
    let prod: i32 = diff * (calib_data.ac5 as i32);
    let x1: i32 = floor_div_i32(prod, 32768);
    proof {
        lemma_div_is_ordered(i32::MIN as int, prod as int, 32768);
        lemma_div_is_ordered(prod as int, i32::MAX as int, 32768);
        assert(-65536 <= x1 <= 65535);
    }
    let den: i32 = x1 + (calib_data.md as i32);
    let num: i32 = (calib_data.mc as i32) * 2048;
    proof {
        lemma_tdiv_range(num as int, den as int);
    }
    let x2: i32 = trunc_div_i32(num, den);
    let b5: i32 = x1 + x2;
    let deci: i32 = floor_div_i32(b5 + 8, 16);
    (deci, b5)
}

// ------------------------------------------------------------------
// Pressure compensation
// ------------------------------------------------------------------

/// `2^oss` for the oversampling levels `0..=3`.
pub open spec fn spec_oss_scale(oss: u8) -> int {
    if oss == 0 {
        1
    } else if oss == 1 {
        2
    } else if oss == 2 {
        4
    } else {
        8
    }
}

/// The `50000 >> oss` scale of the `b7` term.
pub open spec fn spec_press_factor(oss: u8) -> int {
    if oss == 0 {
        50000
    } else if oss == 1 {
        25000
    } else if oss == 2 {
        12500
    } else {
        6250
    }
}

/// `b6 = b5 - 4000`.
pub open spec fn spec_press_b6(b5: int) -> int {
    b5 - 4000
}

/// The shared term `(b6 * b6) >> 12`.
pub open spec fn spec_press_t1(b5: int) -> int {
    (spec_press_b6(b5) * spec_press_b6(b5)) / 4096
}

/// `x1 = (b2 * ((b6 * b6) >> 12)) >> 11`.
pub open spec fn spec_press_xa1(c: CalibrationData, b5: int) -> int {
    (c.b2 * spec_press_t1(b5)) / 2048
}

/// `x2 = (ac2 * b6) >> 11`.
pub open spec fn spec_press_xa2(c: CalibrationData, b5: int) -> int {
    (c.ac2 * spec_press_b6(b5)) / 2048
}

/// `x3 = x1 + x2`.
pub open spec fn spec_press_xa3(c: CalibrationData, b5: int) -> int {
    spec_press_xa1(c, b5) + spec_press_xa2(c, b5)
}

/// The dividend of the `b3` step: `((ac1 * 4 + x3) << oss) + 2`.
pub open spec fn spec_press_b3_num(c: CalibrationData, oss: u8, b5: int) -> int {
    (c.ac1 * 4 + spec_press_xa3(c, b5)) * spec_oss_scale(oss) + 2
}

/// `b3 = (((ac1 * 4 + x3) << oss) + 2) / 4`, a truncating division.
pub open spec fn spec_press_b3(c: CalibrationData, oss: u8, b5: int) -> int {
    tdiv(spec_press_b3_num(c, oss, b5), 4)
}

/// `x1 = (ac3 * b6) >> 13` of the second triple.
pub open spec fn spec_press_xb1(c: CalibrationData, b5: int) -> int {
    (c.ac3 * spec_press_b6(b5)) / 8192
}

/// `x2 = (b1 * ((b6 * b6) >> 12)) >> 16` of the second triple.
pub open spec fn spec_press_xb2(c: CalibrationData, b5: int) -> int {
    (c.b1 * spec_press_t1(b5)) / 65536
}

/// `x3 = (x1 + x2 + 2) >> 2` of the second triple.
pub open spec fn spec_press_xb3(c: CalibrationData, b5: int) -> int {
    (spec_press_xb1(c, b5) + spec_press_xb2(c, b5) + 2) / 4
}

/// `b4 = (ac4 as u32 * (x3 as u32 + 0x8000)) >> 15`, in unsigned 32-bit
/// arithmetic.
pub open spec fn spec_press_b4(c: CalibrationData, b5: int) -> int {
    (c.ac4 * (w32(spec_press_xb3(c, b5)) + 0x8000)) / 32768
}

/// `b7 = (up as u32 - b3 as u32) * (50000 >> oss)`, in unsigned 32-bit
/// arithmetic.
pub open spec fn spec_press_b7(c: CalibrationData, oss: u8, b5: int, up: int) -> int {
    (w32(up) - w32(spec_press_b3(c, oss, b5))) * spec_press_factor(oss)
}

/// The uncorrected pressure `p`, dividing `b7` by `b4` with a 64-bit widening
/// on the multiply-before-divide branch.
pub open spec fn spec_press_p(c: CalibrationData, oss: u8, b5: int, up: int) -> int {
    if spec_press_b7(c, oss, b5, up) < 0x8000_0000 {
        (spec_press_b7(c, oss, b5, up) * 2) / spec_press_b4(c, b5)
    } else {
        (spec_press_b7(c, oss, b5, up) / spec_press_b4(c, b5)) * 2
    }
}

/// The squared term `(p >> 8) * (p >> 8)`.
pub open spec fn spec_press_sq(c: CalibrationData, oss: u8, b5: int, up: int) -> int {
    (spec_press_p(c, oss, b5, up) / 256) * (spec_press_p(c, oss, b5, up) / 256)
}

/// `x1 = (sq * 3038) >> 16` of the final correction.
pub open spec fn spec_press_xc1(c: CalibrationData, oss: u8, b5: int, up: int) -> int {
    (spec_press_sq(c, oss, b5, up) * 3038) / 65536
}

/// `x2 = (-7357 * p) >> 16` of the final correction.
pub open spec fn spec_press_xc2(c: CalibrationData, oss: u8, b5: int, up: int) -> int {
    (-7357 * spec_press_p(c, oss, b5, up)) / 65536
}

/// The compensated pressure `p + ((x1 + x2 + 3791) >> 4)`.
pub open spec fn spec_press_final(c: CalibrationData, oss: u8, b5: int, up: int) -> int {
    spec_press_p(c, oss, b5, up) + (spec_press_xc1(c, oss, b5, up) + spec_press_xc2(
        c,
        oss,
        b5,
        up,
    ) + 3791) / 16
}

/// The 32-bit range conditions of the first triple, through `x3`.
pub open spec fn spec_press_fits_a(c: CalibrationData, b5: int) -> bool {
    &&& fits_i32(spec_press_b6(b5))
    &&& fits_i32(spec_press_b6(b5) * spec_press_b6(b5))
    &&& fits_i32(c.b2 * spec_press_t1(b5))
    &&& fits_i32(c.ac2 * spec_press_b6(b5))
    &&& fits_i32(spec_press_xa3(c, b5))
}

/// The 32-bit range conditions of the `b3` step.
pub open spec fn spec_press_fits_b3(c: CalibrationData, oss: u8, b5: int) -> bool {
    &&& fits_i32(c.ac1 * 4 + spec_press_xa3(c, b5))
    &&& fits_i32((c.ac1 * 4 + spec_press_xa3(c, b5)) * spec_oss_scale(oss))
    &&& fits_i32(spec_press_b3_num(c, oss, b5))
}

/// The range conditions of the second triple and the unsigned `b4` step.
pub open spec fn spec_press_fits_b4(c: CalibrationData, b5: int) -> bool {
    &&& fits_i32(c.ac3 * spec_press_b6(b5))
    &&& fits_i32(c.b1 * spec_press_t1(b5))
    &&& fits_i32(spec_press_xb1(c, b5) + spec_press_xb2(c, b5))
    &&& fits_i32(spec_press_xb1(c, b5) + spec_press_xb2(c, b5) + 2)
    &&& fits_u32(w32(spec_press_xb3(c, b5)) + 0x8000)
    &&& fits_u32(c.ac4 * (w32(spec_press_xb3(c, b5)) + 0x8000))
}

/// The range conditions of the final correction terms.
pub open spec fn spec_press_fits_tail(c: CalibrationData, oss: u8, b5: int, up: int) -> bool {
    &&& fits_i32(spec_press_sq(c, oss, b5, up) * 3038)
    &&& fits_i32(-7357 * spec_press_p(c, oss, b5, up))
    &&& fits_i32(spec_press_xc1(c, oss, b5, up) + spec_press_xc2(c, oss, b5, up))
    &&& fits_i32(spec_press_xc1(c, oss, b5, up) + spec_press_xc2(c, oss, b5, up) + 3791)
    &&& fits_i32(spec_press_final(c, oss, b5, up))
}

/// The full outcome of pressure compensation: the compensated pressure in
/// pascals, or `None` when an intermediate leaves its fixed 32-bit width, the
/// `up - b3` subtraction underflows, or `b4` is zero — all of which indicate
/// implausible calibration coefficients.
pub open spec fn spec_pressure(c: CalibrationData, oss: u8, b5: int, up: int) -> Option<i32> {
    if !spec_press_fits_a(c, b5) {
        None
    } else if !spec_press_fits_b3(c, oss, b5) {
        None
    } else if !spec_press_fits_b4(c, b5) {
        None
    } else if w32(up) < w32(spec_press_b3(c, oss, b5)) {
        None
    } else if !fits_u32(spec_press_b7(c, oss, b5, up)) {
        None
    } else if spec_press_b4(c, b5) == 0 {
        None
    } else if spec_press_p(c, oss, b5, up) > i32::MAX {
        None
    } else if !fits_i32(spec_press_sq(c, oss, b5, up)) {
        None
    } else if !spec_press_fits_tail(c, oss, b5, up) {
        None
    } else {
        Some(spec_press_final(c, oss, b5, up) as i32)
    }
}

/// Whatever the surrounding state of the pipeline, an overflow of the
/// `(p >> 8) * (p >> 8)` step yields the calibration-error outcome, never a
/// wrapped numeric result.
pub proof fn lemma_pressure_square_overflow_is_error(
    c: CalibrationData,
    oss: u8,
    b5: int,
    up: int,
)
    requires
        !fits_i32(spec_press_sq(c, oss, b5, up)),
    ensures
        spec_pressure(c, oss, b5, up) is None,
{
}

/// Pressure compensation.
///
/// `oss` is the numeric oversampling level the raw code was acquired with and
/// `b5` the intermediate from temperature compensation. Returns the
/// compensated pressure in pascals, or `None` exactly when
/// [`spec_pressure`] says the coefficients are implausible.
#[verifier::rlimit(100)]
pub fn calculate_pressure(calib_data: &CalibrationData, oss: u8, b5: i32, up: i32) -> (r: Option<
    i32,
>)
    requires
        oss <= 3,
    ensures
        r == spec_pressure(*calib_data, oss, b5 as int, up as int),
{
    let b6: i32 = match b5.checked_sub(4000) {
        Some(v) => v,
        None => {
            return None;
        },
    };
    let sq: i32 = match b6.checked_mul(b6) {
        Some(v) => v,
        None => {
            return None;
        },
    };
    let t1: i32 = floor_div_i32(sq, 4096);
    let m1: i32 = match (calib_data.b2 as i32).checked_mul(t1) {
        Some(v) => v,
        None => {
            return None;
        },
    };
    let xa1: i32 = floor_div_i32(m1, 2048);
    let m2: i32 = match (calib_data.ac2 as i32).checked_mul(b6) {
        Some(v) => v,
        None => {
            return None;
        },
    };
    let xa2: i32 = floor_div_i32(m2, 2048);
    let xa3: i32 = match xa1.checked_add(xa2) {
        Some(v) => v,
        None => {
            return None;
        },
    };
    let s1: i32 = match ((calib_data.ac1 as i32) * 4).checked_add(xa3) {
        Some(v) => v,
        None => {
            return None;
        },
    };
    let scale: i32 = if oss == 0 {
        1
    } else if oss == 1 {
        2
    } else if oss == 2 {
        4
    } else {
        8
    };
    let s2: i32 = match s1.checked_mul(scale) {
        Some(v) => v,
        None => {
            return None;
        },
    };
    let s3: i32 = match s2.checked_add(2) {
        Some(v) => v,
        None => {
            return None;
        },
    };
    let b3: i32 = trunc_div_i32(s3, 4);
    let m3: i32 = match (calib_data.ac3 as i32).checked_mul(b6) {
        Some(v) => v,
        None => {
            return None;
        },
    };
    let xb1: i32 = floor_div_i32(m3, 8192);
    let m4: i32 = match (calib_data.b1 as i32).checked_mul(t1) {
        Some(v) => v,
        None => {
            return None;
        },
    };
    let xb2: i32 = floor_div_i32(m4, 65536);
    let s4: i32 = match xb1.checked_add(xb2) {
        Some(v) => v,
        None => {
            return None;
        },
    };
    let s5: i32 = match s4.checked_add(2) {
        Some(v) => v,
        None => {
            return None;
        },
    };
    let xb3: i32 = floor_div_i32(s5, 4);
    let xw: u32 = wrap_u32(xb3);
    let t2: u32 = match xw.checked_add(0x8000) {
        Some(v) => v,
        None => {
            return None;
        },
    };
    let m5: u32 = match (calib_data.ac4 as u32).checked_mul(t2) {
        Some(v) => v,
        None => {
            return None;
        },
    };
    let b4: u32 = m5 / 32768;
    let upw: u32 = wrap_u32(up);
    let b3w: u32 = wrap_u32(b3);
    let diff: u32 = match upw.checked_sub(b3w) {
        Some(v) => v,
        None => {
            return None;
        },
    };
    let factor: u32 = if oss == 0 {
        50000
    } else if oss == 1 {
        25000
    } else if oss == 2 {
        12500
    } else {
        6250
    };
    let b7: u32 = match diff.checked_mul(factor) {
        Some(v) => v,
        None => {
            return None;
        },
    };
    if b4 == 0 {
        return None;
    }
    let p: i32 = if b7 < 0x8000_0000 {
        let q: u64 = ((b7 as u64) * 2) / (b4 as u64);
        if q > (i32::MAX as u64) {
            return None;
        }
        q as i32
    } else {
        let d: u32 = b7 / b4;
        let m: u32 = match d.checked_mul(2) {
            Some(v) => v,
            None => {
                return None;
            },
        };
        if m > (i32::MAX as u32) {
            return None;
        }
        m as i32
    };
    let ph: i32 = floor_div_i32(p, 256);
    let sq2: i32 = match ph.checked_mul(ph) {
        Some(v) => v,
        None => {
            return None;
        },
    };
    let m6: i32 = match sq2.checked_mul(3038) {
        Some(v) => v,
        None => {
            return None;
        },
    };
    let xc1: i32 = floor_div_i32(m6, 65536);
    let m7: i32 = match (-7357i32).checked_mul(p) {
        Some(v) => v,
        None => {
            return None;
        },
    };
    let xc2: i32 = floor_div_i32(m7, 65536);
    let s6: i32 = match xc1.checked_add(xc2) {
        Some(v) => v,
        None => {
            return None;
        },
    };
    let s7: i32 = match s6.checked_add(3791) {
        Some(v) => v,
        None => {
            return None;
        },
    };
    let adj: i32 = floor_div_i32(s7, 16);
    let pressure: i32 = match p.checked_add(adj) {
        Some(v) => v,
        None => {
            return None;
        },
    };
    Some(pressure)
}

} // verus!
