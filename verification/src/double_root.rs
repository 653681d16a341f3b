//! Roots taken by raising a double-precision number to the double-precision reciprocal of
//! the degree, then rounded down.
//!
//! Neither the value nor the reciprocal is exact in double precision, and the power is
//! rounded once more, so the result can miss an exact root or reach one too early: the
//! cube root of 64 comes out as 3. The search of shared-memory stages depends on these
//! roundings. They are computed here in whole numbers, for a power that is rounded
//! correctly. A math library that rounds a power the other way where it lies within a
//! hundredth of a unit of the midpoint can differ for some values beyond `2^49`, none of
//! them among the roots up to 17 that the stage search asks for.

use vstd::arithmetic::power::pow;
use vstd::prelude::*;

use crate::arith::{
    exact_log2_bounds, highest_power_of_two_at_most, is_pow2, log2_floor, next_power_of_two,
    pow2_at_least, pow2_at_least_is_least, pow2_at_most, pow2_at_most_is_greatest,
};

verus! {

/// The value rounded to a significand of 53 binary digits, ties to even.
pub open spec fn nearest_double(value: int) -> int {
    if value < 0x20_0000_0000_0000 {
        value
    } else {
        let unit = pow2_at_most(value) / 0x10_0000_0000_0000;
        let below = value / unit;
        let left = value % unit;
        if 2 * left > unit || (2 * left == unit && below % 2 == 1) {
            (below + 1) * unit
        } else {
            below * unit
        }
    }
}

fn round_to_double(value: usize) -> (rounded: u128)
    ensures
        rounded == nearest_double(value as int),
        rounded <= 0x2_0000_0000_0000_0000,
{
    let wide: u128 = value as u128;
    if wide < 0x20_0000_0000_0000 {
        return wide;
    }
    proof {
        pow2_at_most_is_greatest(value as int);
    }
    let unit: u128 = highest_power_of_two_at_most(value) as u128 / 0x10_0000_0000_0000;
    let below: u128 = wide / unit;
    let left: u128 = wide % unit;
    assert(below * unit + left == wide && 0 <= below <= wide && left < unit) by (nonlinear_arith)
        requires
            unit > 0,
            below == wide / unit,
            left == wide % unit,
    ;
    assert((below + 1) * unit == below * unit + unit) by (nonlinear_arith);
    if 2 * left > unit || (2 * left == unit && below % 2 == 1) {
        (below + 1) * unit
    } else {
        below * unit
    }
}

/// The next binary digits of a logarithm: squaring a significand between 1 and 2, held
/// with 62 fractional digits, doubles its logarithm, and a square of 2 or more gives a
/// digit 1.
pub open spec fn log_digits(significand: int, digits: int, count: nat) -> int
    decreases count,
{
    if count == 0 {
        digits
    } else {
        let square = significand * significand / 0x4000_0000_0000_0000;
        if square >= 0x8000_0000_0000_0000 {
            log_digits(square / 2, 2 * digits + 1, (count - 1) as nat)
        } else {
            log_digits(square, 2 * digits, (count - 1) as nat)
        }
    }
}

/// The natural logarithm of a positive number, with 32 fractional binary digits: the
/// base-2 logarithm times that of 2.
pub open spec fn natural_log(value: int) -> int {
    (log2_floor(value) * 0x1_0000_0000 + log_digits(
        value * 0x4000_0000_0000_0000 / pow2_at_most(value),
        0,
        32,
    )) * 0xb172_17f8 / 0x1_0000_0000
}

fn find_log_digits(significand: u128) -> (digits: u128)
    requires
        0x4000_0000_0000_0000 <= significand < 0x8000_0000_0000_0000,
    ensures
        digits == log_digits(significand as int, 0, 32),
        digits <= 0x1_0000_0000,
{
    let mut rest: u128 = significand;
    let mut digits: u128 = 0;
    let mut bound: u128 = 1;
    let mut count: usize = 32;
    proof {
        vstd::arithmetic::power2::lemma2_to64();
    }
    while count > 0
        invariant
            count <= 32,
            0x4000_0000_0000_0000 <= rest < 0x8000_0000_0000_0000,
            digits < bound,
            bound == vstd::arithmetic::power2::pow2((32 - count) as nat),
            bound <= 0x1_0000_0000,
            log_digits(rest as int, digits as int, count as nat) == log_digits(
                significand as int,
                0,
                32,
            ),
        decreases count,
    {
        assert(0x1000_0000_0000_0000_0000_0000_0000_0000 <= rest * rest
            < 0x4000_0000_0000_0000_0000_0000_0000_0000) by (nonlinear_arith)
            requires
                0x4000_0000_0000_0000 <= rest < 0x8000_0000_0000_0000,
        ;
        proof {
            vstd::arithmetic::power2::lemma_pow2_unfold((33 - count) as nat);
            vstd::arithmetic::power2::lemma2_to64();
            if count > 1 {
                vstd::arithmetic::power2::lemma_pow2_strictly_increases((33 - count) as nat, 32);
            }
        }
        let square: u128 = rest * rest / 0x4000_0000_0000_0000;
        if square >= 0x8000_0000_0000_0000 {
            rest = square / 2;
            digits = 2 * digits + 1;
        } else {
            rest = square;
            digits = 2 * digits;
        }
        bound = 2 * bound;
        count = count - 1;
    }
    digits
}

proof fn log2_floor_is_small(value: int, digits: nat)
    requires
        value < vstd::arithmetic::power2::pow2(digits),
    ensures
        log2_floor(value) <= digits,
    decreases digits,
{
    vstd::arithmetic::power2::lemma2_to64();
    if value > 1 {
        vstd::arithmetic::power2::lemma_pow2_unfold(digits);
        log2_floor_is_small(value / 2, (digits - 1) as nat);
    }
}

fn find_natural_log(value: usize) -> (log: u128)
    requires
        value > 0,
    ensures
        log == natural_log(value as int),
        log <= 0x40_0000_0000,
{
    proof {
        vstd::arithmetic::power2::lemma2_to64();
        log2_floor_is_small(value as int, 64);
        pow2_at_most_is_greatest(value as int);
    }
    let power: usize = highest_power_of_two_at_most(value);
    let shifted: u128 = value as u128 * 0x4000_0000_0000_0000;
    let significand: u128 = shifted / power as u128;
    assert(0x4000_0000_0000_0000 <= significand < 0x8000_0000_0000_0000) by (nonlinear_arith)
        requires
            significand == shifted as int / power as int,
            shifted == value * 0x4000_0000_0000_0000,
            0 < power <= value < 2 * power,
    ;
    let digits: u128 = find_log_digits(significand);
    let (exponent, _above) = exact_log2_bounds(value);
    (exponent as u128 * 0x1_0000_0000 + digits) * 0xb172_17f8 / 0x1_0000_0000
}

/// By how much the double nearest to the reciprocal of the degree, times the degree,
/// exceeds 1, in units of the last place of that reciprocal.
pub open spec fn reciprocal_error(degree: int) -> int {
    let left = (0x20_0000_0000_0000 * pow2_at_most(degree)) % degree;
    if 2 * left > degree {
        degree - left
    } else {
        -left
    }
}

/// How far below `root^degree` a double may lie and its power still reach `root`; where
/// negative, how far above it has to lie.
///
/// Rounding the power bridges half the distance from `root` down to the next double. The
/// error of the reciprocal moves the power by that error times the logarithm of the value.
pub open spec fn root_slack(degree: int, root: int) -> int {
    let scale = pow2_at_most(degree);
    let gap = degree * (pow(root, (degree - 1) as nat) * pow2_at_least(root)) * scale
        * 0x1_0000_0000;
    let drift = 2 * degree * pow(root, degree as nat) * (reciprocal_error(degree) * natural_log(
        root,
    ));
    (gap + drift - 1) / (0x40_0000_0000_0000_0000_0000 * scale)
}

/// Whether the power of the value, rounded to double precision, is at least `root`.
pub open spec fn reaches_root(value: int, degree: int, root: int) -> bool {
    pow(root, degree as nat) <= nearest_double(value) + root_slack(degree, root)
}

/// The greatest number up to `bound` whose power is within the value.
pub open spec fn floor_root_up_to(value: int, degree: int, bound: int) -> int
    decreases bound,
{
    if bound <= 0 {
        0
    } else if pow(bound, degree as nat) <= value {
        bound
    } else {
        floor_root_up_to(value, degree, bound - 1)
    }
}

/// The root of the value in whole numbers, rounded down.
pub open spec fn floor_root(value: int, degree: int) -> int {
    floor_root_up_to(value, degree, value)
}

/// The root of the value as double precision gives it, rounded down: the whole root, or
/// its neighbour where a rounding crosses to it. A first power is the value rounded to
/// double precision, and beyond degree 64 no value reaches 2.
#[verifier::opaque]
pub open spec fn pow_root(value: usize, degree: usize) -> usize {
    if degree <= 1 {
        if nearest_double(value as int) > usize::MAX {
            usize::MAX
        } else {
            nearest_double(value as int) as usize
        }
    } else if degree > 64 {
        if value == 0 {
            0
        } else {
            1
        }
    } else {
        let whole = floor_root(value as int, degree as int);
        if reaches_root(value as int, degree as int, whole + 1) {
            (whole + 1) as usize
        } else if whole == 0 || reaches_root(value as int, degree as int, whole) {
            whole as usize
        } else {
            (whole - 1) as usize
        }
    }
}

/// Greater bases have greater powers.
proof fn pow_grows(low: int, high: int, degree: nat)
    requires
        1 <= low < high,
        degree >= 1,
    ensures
        pow(low, degree) < pow(high, degree),
        low <= pow(low, degree),
    decreases degree,
{
    vstd::arithmetic::power::lemma_pow1(low);
    vstd::arithmetic::power::lemma_pow1(high);
    if degree > 1 {
        let before = (degree - 1) as nat;
        pow_grows(low, high, before);
        vstd::arithmetic::power::lemma_pow_adds(low, before, 1);
        vstd::arithmetic::power::lemma_pow_adds(high, before, 1);
        let a = pow(low, before);
        let b = pow(high, before);
        assert(a * low < b * high && low <= a * low) by (nonlinear_arith)
            requires
                1 <= low <= a,
                a < b,
                low < high,
        ;
    }
}

/// The whole root is the one number whose power is within the value while that of the
/// next number is not.
pub proof fn floor_root_is_bracketed(value: int, degree: int, root: int)
    requires
        value >= 0,
        degree >= 1,
        root >= 0,
        root > 0 ==> pow(root, degree as nat) <= value,
        value < pow(root + 1, degree as nat),
    ensures
        floor_root(value, degree) == root,
{
    if root > 0 {
        pow_grows(root, root + 1, degree as nat);
    }
    floor_root_up_to_is_bracketed(value, degree, root, value);
}

proof fn floor_root_up_to_is_bracketed(value: int, degree: int, root: int, bound: int)
    requires
        degree >= 1,
        0 <= root <= bound,
        root > 0 ==> pow(root, degree as nat) <= value,
        value < pow(root + 1, degree as nat),
    ensures
        floor_root_up_to(value, degree, bound) == root,
    decreases bound,
{
    if bound > root {
        if bound > root + 1 {
            pow_grows(root + 1, bound, degree as nat);
        }
        floor_root_up_to_is_bracketed(value, degree, root, bound - 1);
    }
}

/// A power where it is at most `2^66`.
fn bounded_power(base: u128, degree: usize) -> (power: Option<u128>)
    requires
        base >= 1,
    ensures
        match power {
            Some(found) => found == pow(base as int, degree as nat) && 1 <= found
                <= 0x4_0000_0000_0000_0000,
            None => pow(base as int, degree as nat) > 0x4_0000_0000_0000_0000,
        },
{
    let mut power: u128 = 1;
    let mut done: usize = 0;
    proof {
        vstd::arithmetic::power::lemma_pow0(base as int);
    }
    while done < degree
        invariant
            base >= 1,
            done <= degree,
            power == pow(base as int, done as nat),
            1 <= power <= 0x4_0000_0000_0000_0000,
        decreases degree - done,
    {
        proof {
            vstd::arithmetic::power::lemma_pow_adds(base as int, done as nat, 1);
            vstd::arithmetic::power::lemma_pow1(base as int);
        }
        if power > 0x4_0000_0000_0000_0000u128 / base {
            assert(power * base > 0x4_0000_0000_0000_0000) by (nonlinear_arith)
                requires
                    power > 0x4_0000_0000_0000_0000int / base as int,
                    base >= 1,
            ;
            proof {
                vstd::arithmetic::power::lemma_pow_increases(
                    base as nat,
                    (done + 1) as nat,
                    degree as nat,
                );
            }
            return None;
        }
        assert(1 <= power * base <= 0x4_0000_0000_0000_0000) by (nonlinear_arith)
            requires
                1 <= power <= 0x4_0000_0000_0000_0000int / base as int,
                base >= 1,
        ;
        power = power * base;
        done = done + 1;
    }
    Some(power)
}

fn find_floor_root(value: usize, degree: usize) -> (root: usize)
    requires
        degree >= 2,
    ensures
        root == floor_root(value as int, degree as int),
        root > 0 ==> root * root <= value,
{
    let mut low: u128 = 0;
    let mut high: u128 = value as u128 + 1;
    proof {
        pow_grows(high as int, high + 1, degree as nat);
    }
    while high - low > 1
        invariant
            low < high <= value + 1,
            degree >= 2,
            low > 0 ==> pow(low as int, degree as nat) <= value,
            value < pow(high as int, degree as nat),
        decreases high - low,
    {
        let middle: u128 = low + (high - low) / 2;
        match bounded_power(middle, degree) {
            Some(power) => if power <= value as u128 {
                low = middle;
            } else {
                high = middle;
            },
            None => {
                high = middle;
            },
        }
    }
    proof {
        floor_root_is_bracketed(value as int, degree as int, low as int);
        if low > 0 {
            vstd::arithmetic::power::lemma_pow_increases(low as nat, 2, degree as nat);
            vstd::arithmetic::power::lemma_pow1(low as int);
            vstd::arithmetic::power::lemma_pow_adds(low as int, 1, 1);
        }
    }
    low as usize
}

fn find_reciprocal_error(degree: usize, scale: usize) -> (error: (u128, bool))
    requires
        2 <= degree <= 64,
        scale == pow2_at_most(degree as int),
    ensures
        reciprocal_error(degree as int) == if error.1 {
            -(error.0 as int)
        } else {
            error.0 as int
        },
        error.0 <= scale <= degree,
{
    proof {
        pow2_at_most_is_greatest(degree as int);
    }
    let left: u128 = (0x20_0000_0000_0000u128 * scale as u128) % (degree as u128);
    if 2 * left > degree as u128 {
        (degree as u128 - left, false)
    } else {
        (left, true)
    }
}

/// The parts of the slack are small beside the power.
proof fn slack_parts_are_small(
    degree: int,
    scale: int,
    power: int,
    spread: int,
    error: int,
    log: int,
)
    requires
        2 <= degree <= 64,
        1 <= scale <= 64,
        power >= 1,
        1 <= spread <= 2 * power,
        0 <= error <= scale,
        0 <= log <= 0x40_0000_0000,
    ensures
        1 <= degree * spread <= 128 * power,
        1 <= degree * spread * scale * 0x1_0000_0000 <= 0x80_0000_0000 * (power * scale),
        0 <= error * log <= scale * 0x40_0000_0000,
        0 <= 2 * degree * power <= 128 * power,
        0 <= 2 * degree * power * (error * log) <= 0x2000_0000_0000 * (power * scale),
{
    assert(1 <= degree * spread <= 128 * power) by (nonlinear_arith)
        requires
            1 <= degree <= 64,
            1 <= spread <= 2 * power,
    ;
    let weight = degree * spread;
    assert(1 <= weight * scale <= 128 * (power * scale)) by (nonlinear_arith)
        requires
            1 <= weight <= 128 * power,
            1 <= scale,
    ;
    assert(0 <= error * log <= scale * 0x40_0000_0000) by (nonlinear_arith)
        requires
            0 <= error <= scale,
            0 <= log <= 0x40_0000_0000,
    ;
    let moved = error * log;
    assert(0 <= 2 * degree * power <= 128 * power) by (nonlinear_arith)
        requires
            0 <= degree <= 64,
            power >= 1,
    ;
    let doubled = 2 * degree * power;
    assert(0 <= doubled * moved <= (128 * power) * (scale * 0x40_0000_0000)) by (nonlinear_arith)
        requires
            0 <= doubled <= 128 * power,
            0 <= moved <= scale * 0x40_0000_0000,
    ;
    assert((128 * power) * (scale * 0x40_0000_0000) == 0x2000_0000_0000 * (power * scale))
        by (nonlinear_arith);
}

/// The last power below `root^degree`, widened to the next power of two.
proof fn spread_is_bounded(degree: nat, root: int)
    requires
        degree >= 1,
        root >= 1,
    ensures
        pow(root, degree) == pow(root, (degree - 1) as nat) * root,
        1 <= pow(root, (degree - 1) as nat),
        1 <= pow(root, degree),
        1 <= pow(root, (degree - 1) as nat) * pow2_at_least(root) <= 2 * pow(root, degree),
{
    let before = (degree - 1) as nat;
    vstd::arithmetic::power::lemma_pow1(root);
    vstd::arithmetic::power::lemma_pow_adds(root, before, 1);
    vstd::arithmetic::power::lemma_pow_positive(root, before);
    vstd::arithmetic::power::lemma_pow_positive(root, degree);
    pow2_at_least_is_least(root);
    let power = pow(root, before);
    let widened = pow2_at_least(root);
    assert(1 <= power * widened <= 2 * (power * root)) by (nonlinear_arith)
        requires
            1 <= power,
            1 <= widened <= 2 * root,
    ;
}

/// The slack is far smaller than the power.
proof fn slack_is_small(degree: int, root: int)
    requires
        2 <= degree <= 64,
        1 <= root,
        natural_log(root) <= 0x40_0000_0000,
        0 <= natural_log(root),
    ensures
        root_slack(degree, root) <= pow(root, degree as nat) / 2,
{
    pow2_at_most_is_greatest(degree);
    spread_is_bounded(degree as nat, root);
    let scale = pow2_at_most(degree);
    let power = pow(root, degree as nat);
    let spread = pow(root, (degree - 1) as nat) * pow2_at_least(root);
    let error = reciprocal_error(degree);
    let log = natural_log(root);
    let size = if error < 0 {
        -error
    } else {
        error
    };
    slack_parts_are_small(degree, scale, power, spread, size, log);
    let gap = degree * spread * scale * 0x1_0000_0000;
    let drift = 2 * degree * power * (error * log);
    assert(drift <= 2 * degree * power * (size * log)) by (nonlinear_arith)
        requires
            drift == 2 * degree * power * (error * log),
            error <= size,
            log >= 0,
            degree >= 0,
            power >= 0,
    ;
    let unit = 0x40_0000_0000_0000_0000_0000 * scale;
    assert((gap + drift - 1) / unit <= power / 2) by (nonlinear_arith)
        requires
            gap + drift <= 0x4000_0000_0000 * (power * scale),
            unit == 0x40_0000_0000_0000_0000_0000 * scale,
            scale >= 1,
            power >= 1,
    ;
}

fn root_is_reached(rounded: u128, value: usize, degree: usize, root: usize) -> (reached: bool)
    requires
        2 <= degree <= 64,
        1 <= root <= usize::MAX / 2,
        rounded == nearest_double(value as int),
        rounded <= 0x2_0000_0000_0000_0000,
    ensures
        reached == reaches_root(value as int, degree as int, root as int),
{
    let log: u128 = find_natural_log(root);
    proof {
        slack_is_small(degree as int, root as int);
        spread_is_bounded(degree as nat, root as int);
        pow2_at_least_is_least(root as int);
        pow2_at_most_is_greatest(degree as int);
    }
    let power: u128 = match bounded_power(root as u128, degree) {
        None => {
            return false;
        },
        Some(found) => found,
    };
    let ghost before = pow(root as int, (degree - 1) as nat);
    let below: u128 = power / root as u128;
    assert(below == before) by (nonlinear_arith)
        requires
            below == power as int / root as int,
            power == before * root,
            root >= 1,
    ;
    let widened: usize = match next_power_of_two(root) {
        None => {
            return false;
        },
        Some(found) => found,
    };
    let scale: usize = highest_power_of_two_at_most(degree);
    let (error, lowered) = find_reciprocal_error(degree, scale);
    proof {
        slack_parts_are_small(
            degree as int,
            scale as int,
            power as int,
            before * widened,
            error as int,
            log as int,
        );
        assert(power * scale <= 0x4_0000_0000_0000_0000 * 64) by (nonlinear_arith)
            requires
                0 <= power <= 0x4_0000_0000_0000_0000,
                0 <= scale <= 64,
        ;
    }
    let spread: u128 = below * widened as u128;
    assert(degree * spread * scale <= 0x8000_0000_0000_0000_0000) by (nonlinear_arith)
        requires
            0 <= degree * spread <= 128 * power,
            power <= 0x4_0000_0000_0000_0000,
            0 <= scale <= 64,
    ;
    let gap: u128 = degree as u128 * spread * scale as u128 * 0x1_0000_0000;
    let drift: u128 = 2 * degree as u128 * power * (error * log);
    let unit: u128 = 0x40_0000_0000_0000_0000_0000u128 * scale as u128;
    if lowered {
        assert(2 * degree * power * (-(error as int) * log) == -(drift as int)) by (nonlinear_arith)
            requires
                drift == 2 * degree * power * (error * log),
        ;
        if gap > drift {
            power <= rounded + (gap - drift - 1) / unit
        } else {
            let short: u128 = (drift - gap) / unit;
            assert((gap - drift - 1) / (unit as int) == -(short + 1)) by (nonlinear_arith)
                requires
                    short == (drift - gap) / (unit as int),
                    drift >= gap,
                    unit > 0,
            ;
            power + short + 1 <= rounded
        }
    } else {
        power <= rounded + (gap + drift - 1) / unit
    }
}

/// The root of a value as double precision gives it, rounded down.
pub fn upstream_floor_nth_root(value: usize, degree: usize) -> (root: usize)
    requires
        degree > 0,
    ensures
        root == pow_root(value, degree),
{
    reveal(pow_root);
    let rounded: u128 = round_to_double(value);
    if degree == 1 {
        return if rounded > usize::MAX as u128 {
            usize::MAX
        } else {
            rounded as usize
        };
    }
    if degree > 64 {
        return if value == 0 {
            0
        } else {
            1
        };
    }
    let whole: usize = find_floor_root(value, degree);
    assert(whole < usize::MAX / 2) by (nonlinear_arith)
        requires
            whole > 0 ==> whole * whole <= usize::MAX,
            usize::MAX >= 0xffff_ffff,
    ;
    if root_is_reached(rounded, value, degree, whole + 1) {
        whole + 1
    } else if whole == 0 || root_is_reached(rounded, value, degree, whole) {
        whole
    } else {
        whole - 1
    }
}

/// Rounding moves a root by one at most.
pub proof fn rounding_moves_a_root_by_one(value: usize, degree: usize)
    requires
        2 <= degree <= 64,
    ensures
        floor_root(value as int, degree as int) - 1 <= pow_root(value, degree) <= floor_root(
            value as int,
            degree as int,
        ) + 1,
{
    reveal(pow_root);
    floor_root_is_within(value as int, degree as int, value as int);
    let whole = floor_root(value as int, degree as int);
    assert(whole < 0x1_0000_0000 && whole < usize::MAX) by (nonlinear_arith)
        requires
            0 <= whole,
            whole * whole <= value,
            value <= usize::MAX,
            usize::MAX == 0xffff_ffff || usize::MAX == 0xffff_ffff_ffff_ffff,
    ;
}

proof fn floor_root_is_within(value: int, degree: int, bound: int)
    requires
        degree >= 2,
        value >= 0,
    ensures
        floor_root_up_to(value, degree, bound) >= 0,
        floor_root_up_to(value, degree, bound) * floor_root_up_to(value, degree, bound) <= value,
    decreases bound,
{
    if bound > 0 {
        if pow(bound, degree as nat) <= value {
            vstd::arithmetic::power::lemma_pow_increases(bound as nat, 2, degree as nat);
            vstd::arithmetic::power::lemma_pow1(bound);
            vstd::arithmetic::power::lemma_pow_adds(bound, 1, 1);
        } else {
            floor_root_is_within(value, degree, bound - 1);
        }
    }
}

proof fn square_slack_is_zero(root: int)
    requires
        1 <= root <= 0x400_0000,
    ensures
        root_slack(2, root) == 0,
{
    reveal_with_fuel(pow2_at_most, 3);
    reveal_with_fuel(is_pow2, 28);
    pow2_at_least_is_least(root);
    assert(is_pow2(0x400_0000));
    vstd::arithmetic::power::lemma_pow1(root);
    let widened = pow2_at_least(root);
    let power = pow(root, 2);
    let log = natural_log(root);
    let error = reciprocal_error(2);
    assert(error == 0);
    assert(1 <= root * widened <= 0x10_0000_0000_0000) by (nonlinear_arith)
        requires
            1 <= root <= 0x400_0000,
            1 <= widened <= 0x400_0000,
    ;
    assert(2 * 2 * power * (error * log) == 0) by (nonlinear_arith)
        requires
            error == 0,
    ;
    let spread = root * widened;
    let gap = 2 * spread * 2 * 0x1_0000_0000;
    assert(root_slack(2, root) == (gap - 1) / 0x80_0000_0000_0000_0000_0000int);
}

/// Below `2^52` a square root is the whole root, exact squares included.
pub proof fn square_roots_are_whole(value: usize)
    requires
        value < 0x10_0000_0000_0000,
    ensures
        pow_root(value, 2) == floor_root(value as int, 2),
{
    reveal(pow_root);
    let whole = floor_root(value as int, 2);
    floor_root_is_within(value as int, 2, value as int);
    floor_root_up_to_is_greatest(value as int, 2, value as int);
    assert(whole < 0x400_0000) by (nonlinear_arith)
        requires
            0 <= whole,
            whole * whole <= value,
            value < 0x10_0000_0000_0000,
    ;
    square_slack_is_zero(whole + 1);
    if whole > 0 {
        square_slack_is_zero(whole);
    }
}

/// The root found is within the value, and the next one, up to the bound, is not.
proof fn floor_root_up_to_is_greatest(value: int, degree: int, bound: int)
    requires
        degree >= 1,
        value >= 0,
    ensures
        ({
            let root = floor_root_up_to(value, degree, bound);
            &&& bound >= 0 ==> 0 <= root <= bound
            &&& root > 0 ==> pow(root, degree as nat) <= value
            &&& root < bound ==> pow(root + 1, degree as nat) > value
            &&& bound >= value ==> pow(root + 1, degree as nat) > value
        }),
    decreases bound,
{
    if bound <= 0 {
        vstd::arithmetic::power::lemma1_pow(degree as nat);
    } else {
        pow_grows(bound, bound + 1, degree as nat);
        if bound >= value {
            pow_grows(bound + 1, bound + 2, degree as nat);
        }
        if pow(bound, degree as nat) > value {
            floor_root_up_to_is_greatest(value, degree, bound - 1);
        }
    }
}

} // verus!
