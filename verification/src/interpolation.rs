//! Interpolation between two neighbouring amplitudes of a sample.
//!
//! The place between the two is a fraction in units of 1/65536: `t == 0` is
//! the first amplitude, and the second would be reached at 65536.

use vstd::prelude::*;

verus! {

/// A way to fill in the amplitude between two neighbouring amplitudes.
pub trait Interpolation {
    /// The amplitude at fraction `t` of the way from `v0` to `v1`.
    spec fn amplitude(v0: i16, v1: i16, t: u16) -> int;

    /// The amplitude at fraction `t` of the way from `v0` to `v1`.
    fn interpolate(v0: i16, v1: i16, t: u16) -> (r: i16)
        ensures
            r == Self::amplitude(v0, v1, t),
    ;
}

/// A straight line from one amplitude to the next.
pub struct LinearInterpolation;

/// Windowed-sinc interpolation: a marker for a mode that is not provided.
pub struct SincLinearInterpolation;

/// Cubic interpolation: a marker for a mode that is not provided.
pub struct CubicInterpolation;

/// No interpolation: the amplitude before the position stands for it.
pub struct NoInterpolation;

/// The point at fraction `t` of the straight line from `v0` to `v1`,
/// rounded down.
pub open spec fn linear(v0: i16, v1: i16, t: u16) -> int {
    v0 + (t * (v1 - v0)) / 65536
}

/// The straight line starts at `v0`, stays between the two amplitudes, and
/// its distance to `v1` shrinks in proportion to what is left of the way:
/// at the last fraction before `v1` it is within one step of it.
pub proof fn lemma_linear(v0: i16, v1: i16, t: u16)
    ensures
        t == 0 ==> linear(v0, v1, t) == v0,
        v0 <= v1 ==> v0 <= linear(v0, v1, t) <= v1,
        v1 <= v0 ==> v1 <= linear(v0, v1, t) <= v0,
        (65536 - t) * (v1 - v0) <= 65536 * (v1 - linear(v0, v1, t)) < (65536 - t) * (v1 - v0) + 65536,
        t == 65535 ==> -1 <= v1 - linear(v0, v1, t) <= 1,
{
    let d = v1 - v0;
    let q = (t * d) / 65536;
    assert(-65536 < d < 65536);
    assert(t * d == 65536 * q + (t * d) % 65536);
    assert((65536 - t) * d == 65536 * d - t * d) by (nonlinear_arith);
    if d >= 0 {
        assert(0 <= t * d <= 65535 * d) by (nonlinear_arith)
            requires
                0 <= t <= 65535,
                d >= 0,
        ;
    } else {
        assert(65535 * d <= t * d <= 0) by (nonlinear_arith)
            requires
                0 <= t <= 65535,
                d < 0,
        ;
    }
}

impl Interpolation for LinearInterpolation {
    open spec fn amplitude(v0: i16, v1: i16, t: u16) -> int {
        linear(v0, v1, t)
    }

    fn interpolate(v0: i16, v1: i16, t: u16) -> (r: i16) {
        let d: i64 = v1 as i64 - v0 as i64;
        assert(-4294967296 < t * d < 4294967296) by (nonlinear_arith)
            requires
                0 <= t < 65536,
                -65536 < d < 65536,
        ;
        let scaled: i64 = t as i64 * d;
        let q: i64 = if scaled >= 0 {
            scaled / 65536
        } else {
            -((65535 - scaled) / 65536)
        };
        proof {
            lemma_linear(v0, v1, t);
        }
        (v0 as i64 + q) as i16
    }
}

impl Interpolation for NoInterpolation {
    open spec fn amplitude(v0: i16, v1: i16, t: u16) -> int {
        v0 as int
    }

    fn interpolate(v0: i16, v1: i16, t: u16) -> (r: i16) {
        v0
    }
}

} // verus!
