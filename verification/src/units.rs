//! Fixed-point scalars.
//!
//! Camera angles and intensity-window parameters are kept in micro-units: an
//! `i64` counts millionths of a radian (or of a dimensionless unit). The range
//! is wide enough for any realistic session; sums saturate at the ends of the
//! `i64` range instead of wrapping.

use vstd::prelude::*;

verus! {

/// Number of fixed-point steps per unit (per radian).
pub const MICRO: i64 = 1000000;

/// Half pi in micro-radians, rounded down.
pub const HALF_PI_MICRO: i64 = 1570796;

/// Margin kept between the camera elevation and the poles, in micro-radians.
pub const DELTA_MARGIN_MICRO: i64 = 1000;

/// Largest committed or previewed camera elevation.
pub const DELTA_MAX_MICRO: i64 = HALF_PI_MICRO - DELTA_MARGIN_MICRO;

/// Smallest committed or previewed camera elevation.
pub const DELTA_MIN_MICRO: i64 = -DELTA_MAX_MICRO;

/// Saturating addition on the `i64` range.
pub open spec fn sat_add_spec(a: int, b: int) -> int {
    if a + b > i64::MAX {
        i64::MAX as int
    } else if a + b < i64::MIN {
        i64::MIN as int
    } else {
        a + b
    }
}

/// Clamp of the camera elevation to the open interval around the poles.
pub open spec fn clamp_delta_spec(v: int) -> int {
    if v < DELTA_MIN_MICRO {
        DELTA_MIN_MICRO as int
    } else if v > DELTA_MAX_MICRO {
        DELTA_MAX_MICRO as int
    } else {
        v
    }
}

/// A cursor travel of `d` pixels across a viewport extent of `e` pixels,
/// normalized to the viewport half-extent and scaled to micro-units: the
/// fixed-point value of `d / (e / 2)`. Zero when the viewport has no extent.
/// Truncation is toward zero, so the sign of `d` is preserved.
pub open spec fn drag_norm_spec(d: int, e: int) -> int {
    if e <= 0 {
        0
    } else if d >= 0 {
        (2 * d * MICRO) / e
    } else {
        -((2 * (-d) * MICRO) / e)
    }
}

pub fn sat_add(a: i64, b: i64) -> (r: i64)
    ensures
        r == sat_add_spec(a as int, b as int),
{
    if b >= 0 {
        if a > i64::MAX - b {
            i64::MAX
        } else {
            a + b
        }
    } else {
        if a < i64::MIN - b {
            i64::MIN
        } else {
            a + b
        }
    }
}

pub fn clamp_delta(v: i64) -> (r: i64)
    ensures
        r == clamp_delta_spec(v as int),
{
    if v < DELTA_MIN_MICRO {
        DELTA_MIN_MICRO
    } else if v > DELTA_MAX_MICRO {
        DELTA_MAX_MICRO
    } else {
        v
    }
}

/// The normalized drag travel never exceeds the scaled travel itself.
pub proof fn lemma_drag_norm_bound(d: int, e: int)
    requires
        -4294967296 <= d <= 4294967296,
    ensures
        -8589934592000000 <= drag_norm_spec(d, e) <= 8589934592000000,
{
    if e >= 1 {
        if d >= 0 {
            assert((2 * d * MICRO) / e <= 2 * d * MICRO && (2 * d * MICRO) / e >= 0)
                by (nonlinear_arith)
                requires
                    e >= 1,
                    d >= 0,
            ;
        } else {
            assert((2 * (-d) * MICRO) / e <= 2 * (-d) * MICRO && (2 * (-d) * MICRO) / e >= 0)
                by (nonlinear_arith)
                requires
                    e >= 1,
                    d < 0,
            ;
        }
    }
}

pub fn drag_norm(d: i64, e: u32) -> (r: i64)
    requires
        -4294967296 <= d <= 4294967296,
    ensures
        r == drag_norm_spec(d as int, e as int),
        -8589934592000000 <= r <= 8589934592000000,
{
    proof {
        lemma_drag_norm_bound(d as int, e as int);
    }
    if e == 0 {
        0
    } else if d >= 0 {
        (2 * (d as u64) * 1000000 / (e as u64)) as i64
    } else {
        -((2 * ((-d) as u64) * 1000000 / (e as u64)) as i64)
    }
}

} // verus!
