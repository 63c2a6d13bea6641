//! Fixed-point numbers.
//!
//! Every coordinate, speed and amplitude of the game is a whole number of
//! millionths, held in an `i64`. Sums and products are formed exactly in
//! `i128` and brought back into `i64` by cutting them off at its limits, so
//! that no operation of the game can overflow.

use vstd::prelude::*;

verus! {

/// The real number one, in millionths.
pub const ONE: i64 = 1_000_000;

/// `x` raised to `min` and then lowered to `max`.
///
/// Where `min > max` the result is `max`.
pub open spec fn clamped(x: int, min: int, max: int) -> int {
    let raised = if x > min { x } else { min };
    if raised < max { raised } else { max }
}

/// `v` cut off at the limits of `i64`.
pub open spec fn clip(v: int) -> int {
    clamped(v, i64::MIN as int, i64::MAX as int)
}

/// `v` cut off at the limits of `i32`.
pub open spec fn clip32(v: int) -> int {
    clamped(v, i32::MIN as int, i32::MAX as int)
}

/// The distance of `v` from zero.
pub open spec fn magnitude(v: int) -> int {
    if v < 0 { -v } else { v }
}

/// `a` divided by `b`, rounded toward zero.
pub open spec fn quotient(a: int, b: int) -> int
    recommends
        b > 0,
{
    if a >= 0 { a / b } else { -((-a) / b) }
}

/// How far something moves in `delta` ticks at `velocity` (in millionths)
/// times `rate` (in millionths per tick).
pub open spec fn travel(velocity: int, delta: int, rate: int) -> int {
    quotient(velocity * delta * rate, ONE as int)
}

/// How much a quantity changes in `delta` ticks when it changes by `per_second`
/// in a thousand ticks.
pub open spec fn drift(per_second: int, delta: int) -> int {
    quotient(per_second * delta, 1000)
}

/// Whether `delta` can be the difference of two `i32` timestamps.
pub open spec fn delta_in_range(delta: int) -> bool {
    -0x1_0000_0000 < delta < 0x1_0000_0000
}

/// Dividing a multiple of one million by one million gives the factor back.
pub proof fn lemma_quotient_of_multiple(k: int)
    ensures
        quotient(ONE * k, ONE as int) == k,
        quotient(-ONE * k, ONE as int) == -k,
{
    assert((1_000_000 * k) / 1_000_000 == k) by (nonlinear_arith);
    assert((1_000_000 * -k) / 1_000_000 == -k) by (nonlinear_arith);
    assert(-(1_000_000 * k) == 1_000_000 * -k) by (nonlinear_arith);
    assert(-(-1_000_000 * k) == 1_000_000 * k) by (nonlinear_arith);
    assert(-1_000_000 * k == 1_000_000 * -k) by (nonlinear_arith);
}

/// At unit speed in either direction, the distance travelled is `delta * rate`.
pub proof fn lemma_travel_at_unit_velocity(delta: int, rate: int)
    ensures
        travel(ONE as int, delta, rate) == delta * rate,
        travel(-ONE as int, delta, rate) == -(delta * rate),
{
    lemma_quotient_of_multiple(delta * rate);
    assert(ONE * delta * rate == ONE * (delta * rate)) by (nonlinear_arith);
    assert((-ONE) * delta * rate == -ONE * (delta * rate)) by (nonlinear_arith);
}

/// Cuts `v` off at the limits of `i64`.
pub fn saturate(v: i128) -> (r: i64)
    ensures
        r == clip(v as int),
{
    if v < i64::MIN as i128 {
        i64::MIN
    } else if v > i64::MAX as i128 {
        i64::MAX
    } else {
        v as i64
    }
}

/// Cuts `v` off at the limits of `i32`.
pub fn saturate32(v: i128) -> (r: i32)
    ensures
        r == clip32(v as int),
{
    if v < i32::MIN as i128 {
        i32::MIN
    } else if v > i32::MAX as i128 {
        i32::MAX
    } else {
        v as i32
    }
}

/// The exact product of two `i64` values.
pub fn product(a: i64, b: i64) -> (r: i128)
    ensures
        r == a * b,
        -0x4000_0000_0000_0000_0000_0000_0000_0000 <= r <= 0x4000_0000_0000_0000_0000_0000_0000_0000,
{
    assert(-0x4000_0000_0000_0000_0000_0000_0000_0000 <= a * b
        <= 0x4000_0000_0000_0000_0000_0000_0000_0000) by (nonlinear_arith)
        requires
            -0x8000_0000_0000_0000 <= a <= 0x8000_0000_0000_0000,
            -0x8000_0000_0000_0000 <= b <= 0x8000_0000_0000_0000,
    ;
    (a as i128) * (b as i128)
}

/// `a` divided by `b`, rounded toward zero.
pub fn divide(a: i128, b: i128) -> (r: i128)
    requires
        b > 0,
    ensures
        r == quotient(a as int, b as int),
        magnitude(r as int) <= magnitude(a as int),
{
    let r: i128 = a / b;
    assert(magnitude(r as int) <= magnitude(a as int)) by (nonlinear_arith)
        requires
            b > 0,
            r == quotient(a as int, b as int),
    ;
    r
}

/// `position` moved by the distance travelled in `delta` ticks at `velocity`
/// times `rate`, cut off at the limits of `i64`.
pub fn advance(position: i64, velocity: i64, delta: i64, rate: i64) -> (r: i64)
    requires
        delta_in_range(delta as int),
        0 <= rate <= 0x1_0000,
    ensures
        r == clip(position + travel(velocity as int, delta as int, rate as int)),
{
    let vd: i128 = product(velocity, delta);
    assert(-0x8000_0000_0000_0000_0000_0000 <= velocity * delta <= 0x8000_0000_0000_0000_0000_0000)
        by (nonlinear_arith)
        requires
            -0x8000_0000_0000_0000 <= velocity <= 0x8000_0000_0000_0000,
            -0x1_0000_0000 <= delta <= 0x1_0000_0000,
    ;
    assert(-0x8000_0000_0000_0000_0000_0000_0000 <= vd * rate
        <= 0x8000_0000_0000_0000_0000_0000_0000) by (nonlinear_arith)
        requires
            -0x8000_0000_0000_0000_0000_0000 <= vd <= 0x8000_0000_0000_0000_0000_0000,
            0 <= rate <= 0x1_0000,
    ;
    let scaled: i128 = vd * (rate as i128);
    let moved: i128 = divide(scaled, ONE as i128);
    saturate(position as i128 + moved)
}

/// `value` changed by what `per_second` amounts to over `delta` ticks, cut off
/// at the limits of `i64`.
pub fn integrate(value: i64, per_second: i64, delta: i64) -> (r: i64)
    ensures
        r == clip(value + drift(per_second as int, delta as int)),
{
    let change: i128 = divide(product(per_second, delta), 1000);
    saturate(value as i128 + change)
}

} // verus!
