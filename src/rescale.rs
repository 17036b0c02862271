use vstd::prelude::*;
use crate::codec::AVRational;

verus! {

/// `|a| * b / c` rounded to the nearest integer, halves away from zero
/// (the half is `c / 2`, rounded down), with the sign of `a`.
pub open spec fn round_near_inf(a: int, b: int, c: int) -> int
    recommends
        b >= 0,
        c > 0,
{
    if a >= 0 {
        (a * b + c / 2) / c
    } else {
        -(((-a) * b + c / 2) / c)
    }
}

/// `a * b / c` rounded to nearest, as the engine computes it:
/// an invalid ratio (`c <= 0` or `b < 0`) or a result outside `i64` gives
/// `AV_NOPTS_VALUE`; with `pass_minmax` the two extreme values stand for
/// "unknown" and are passed through unchanged; otherwise `i64::MIN` is
/// first clamped to `-i64::MAX`.
pub open spec fn rescale_rnd_spec(a: int, b: int, c: int, pass_minmax: bool) -> int {
    if c <= 0 || b < 0 {
        i64::MIN as int
    } else if pass_minmax && (a == i64::MIN || a == i64::MAX) {
        a
    } else {
        let a1 = if a < -(i64::MAX as int) { -(i64::MAX as int) } else { a };
        let q = round_near_inf(a1, b, c);
        if q > i64::MAX || q < -(i64::MAX as int) {
            i64::MIN as int
        } else {
            q
        }
    }
}

/// A timestamp `a` expressed in unit `from`, re-expressed in unit `to`:
/// `a * from / to`, rounded to nearest.
pub open spec fn rescale_q_spec(a: int, from: AVRational, to: AVRational, pass_minmax: bool) -> int {
    rescale_rnd_spec(a, from.num * to.den, to.num * from.den, pass_minmax)
}

/// Rescales `a` from `from` to `to`, rounding to nearest (halves away from
/// zero); `i64::MIN` and `i64::MAX` stand for unknown and are kept as they are.
pub fn rescale_q_near_pass_minmax(a: i64, from: AVRational, to: AVRational) -> (r: i64)
    ensures
        r == rescale_q_spec(a as int, from, to, true),
{
    rescale_q_rnd(a, from, to, true)
}

fn rescale_q_rnd(a: i64, from: AVRational, to: AVRational, pass_minmax: bool) -> (r: i64)
    ensures
        r == rescale_q_spec(a as int, from, to, pass_minmax),
{
    let fnum = from.num as i64;
    let fden = from.den as i64;
    let tnum = to.num as i64;
    let tden = to.den as i64;
    assert(-0x8000_0000 * 0x8000_0000 <= fnum * tden <= 0x8000_0000 * 0x8000_0000) by (nonlinear_arith)
        requires
            -0x8000_0000 <= fnum < 0x8000_0000,
            -0x8000_0000 <= tden < 0x8000_0000,
    ;
    assert(-0x8000_0000 * 0x8000_0000 <= tnum * fden <= 0x8000_0000 * 0x8000_0000) by (nonlinear_arith)
        requires
            -0x8000_0000 <= tnum < 0x8000_0000,
            -0x8000_0000 <= fden < 0x8000_0000,
    ;
    let b = fnum * tden;
    let c = tnum * fden;
    rescale_rnd(a, b, c, pass_minmax)
}

fn rescale_rnd(a: i64, b: i64, c: i64, pass_minmax: bool) -> (r: i64)
    requires
        -0x4000_0000_0000_0000 <= b <= 0x4000_0000_0000_0000,
        -0x4000_0000_0000_0000 <= c <= 0x4000_0000_0000_0000,
    ensures
        r == rescale_rnd_spec(a as int, b as int, c as int, pass_minmax),
{
    if c <= 0 || b < 0 {
        return i64::MIN;
    }
    if pass_minmax && (a == i64::MIN || a == i64::MAX) {
        return a;
    }
    let a1: i64 = if a < -i64::MAX { -i64::MAX } else { a };
    let neg = a1 < 0;
    let m: i128 = if neg { -(a1 as i128) } else { a1 as i128 };
    assert(0 <= m * (b as i128) <= 0x8000_0000_0000_0000 * 0x4000_0000_0000_0000) by (nonlinear_arith)
        requires
            0 <= m <= 0x8000_0000_0000_0000,
            0 <= b <= 0x4000_0000_0000_0000,
    ;
    let p: i128 = m * (b as i128) + (c as i128) / 2;
    let q: i128 = p / (c as i128);
    assert(0 <= q <= p) by (nonlinear_arith)
        requires
            0 <= p,
            c >= 1,
            q == (p as int) / (c as int),
    ;
    if q > i64::MAX as i128 {
        i64::MIN
    } else if neg {
        -(q as i64)
    } else {
        q as i64
    }
}

} // verus!
