//! Integer arithmetic of the scheduler: checked operations, exact roots and logarithms,
//! and the two ratio comparisons that pick register counts.

use vstd::arithmetic::power::pow;
use vstd::prelude::*;

use crate::error::{PlanResult, VkFftError};

verus! {

#[verifier::allow_in_spec]
pub fn umin(a: usize, b: usize) -> usize
    returns
        (if a <= b {
            a
        } else {
            b
        }),
{
    if a <= b {
        a
    } else {
        b
    }
}

#[verifier::allow_in_spec]
pub fn umax(a: usize, b: usize) -> usize
    returns
        (if a >= b {
            a
        } else {
            b
        }),
{
    if a >= b {
        a
    } else {
        b
    }
}

/// `lhs * rhs`, or the overflow error of the named operation.
#[verifier::allow_in_spec]
pub fn checked_mul(lhs: usize, rhs: usize, operation: &'static str) -> PlanResult<usize>
    returns
        (if lhs * rhs > usize::MAX {
            Err(VkFftError::ArithmeticOverflow { operation })
        } else {
            Ok((lhs * rhs) as usize)
        }),
{
    match lhs.checked_mul(rhs) {
        Some(product) => Ok(product),
        None => Err(VkFftError::ArithmeticOverflow { operation }),
    }
}

/// `lhs * rhs`, or `usize::MAX` where the product does not fit.
#[verifier::allow_in_spec]
pub fn saturating_product(lhs: usize, rhs: usize) -> usize
    returns
        (if lhs * rhs > usize::MAX {
            usize::MAX
        } else {
            (lhs * rhs) as usize
        }),
{
    match lhs.checked_mul(rhs) {
        Some(product) => product,
        None => usize::MAX,
    }
}

/// `value / divisor` rounded up. Rounding adds `divisor - 1` first, and that sum has to
/// fit.
#[verifier::allow_in_spec]
pub fn ceil_div(value: usize, divisor: usize) -> PlanResult<usize>
    returns
        (if divisor == 0 {
            Err(VkFftError::InvalidKernelIr("NVIDIA scheduler attempted division by zero"))
        } else if value + divisor - 1 > usize::MAX {
            Err(VkFftError::ArithmeticOverflow { operation: "NVIDIA scheduler ceil division" })
        } else {
            Ok(((value + divisor - 1) / divisor as int) as usize)
        }),
{
    if divisor == 0 {
        return Err(VkFftError::InvalidKernelIr("NVIDIA scheduler attempted division by zero"));
    }
    match value.checked_add(divisor - 1) {
        Some(adjusted) => {
            proof {
                vstd::arithmetic::div_mod::lemma_div_is_ordered_by_denominator(
                    adjusted as int,
                    1,
                    divisor as int,
                );
            }
            Ok(adjusted / divisor)
        },
        None => Err(
            VkFftError::ArithmeticOverflow { operation: "NVIDIA scheduler ceil division" },
        ),
    }
}

/// Half of `value`, rounded up.
#[verifier::allow_in_spec]
pub fn half_up(value: usize) -> usize
    returns
        (value / 2 + value % 2) as usize,
{
    value / 2 + value % 2
}

/// What rounding up means: the least count of `divisor`-sized groups that holds `value`.
pub proof fn ceil_div_is_least_cover(value: usize, divisor: usize)
    requires
        ceil_div(value, divisor) is Ok,
    ensures
        ceil_div(value, divisor)->Ok_0 * divisor >= value,
        forall|count: int| #![trigger count * divisor]
            count * divisor >= value ==> count >= ceil_div(value, divisor)->Ok_0,
        ceil_div(value, divisor)->Ok_0 <= value,
        ceil_div(value, divisor)->Ok_0 == 0 <==> value == 0,
        ceil_div(value, divisor)->Ok_0 * divisor <= value + divisor - 1,
{
    let d = divisor as int;
    let s = value + divisor - 1;
    let q = s / d;
    vstd::arithmetic::div_mod::lemma_fundamental_div_mod(s, d);
    vstd::arithmetic::div_mod::lemma_mod_bound(s, d);
    assert(d * q == q * d) by (nonlinear_arith);
    assert(0 <= q <= s) by (nonlinear_arith)
        requires
            q == s / d,
            d >= 1,
            s >= 0,
    ;
    assert(q <= value) by (nonlinear_arith)
        requires
            q * d <= value + d - 1,
            d >= 1,
            value >= 0,
    ;
    if q == 0 {
        assert(0 * d == 0) by (nonlinear_arith);
    }
    if value == 0 {
        assert(q == 0) by (nonlinear_arith)
            requires
                q * d <= d - 1,
                d >= 1,
                q >= 0,
        ;
    }
    assert forall|count: int| #![trigger count * divisor] count * divisor >= value implies count
        >= q by {
        assert(count >= q) by (nonlinear_arith)
            requires
                count * d >= value,
                q * d <= value + d - 1,
                d >= 1,
        ;
    }
}

/// Whether `value` is a power of two.
pub open spec fn is_pow2(value: int) -> bool
    decreases value,
{
    value == 1 || (value > 1 && value % 2 == 0 && is_pow2(value / 2))
}

#[verifier::when_used_as_spec(is_power_of_two_spec)]
pub fn is_power_of_two(value: usize) -> (found: bool)
    ensures
        found == is_pow2(value as int),
{
    let mut rest: usize = value;
    while rest > 1 && rest % 2 == 0
        invariant
            is_pow2(rest as int) == is_pow2(value as int),
        decreases rest,
    {
        rest = rest / 2;
    }
    rest == 1
}

pub open spec fn is_power_of_two_spec(value: usize) -> bool {
    is_pow2(value as int)
}

/// The least power of two that is at least `value`.
pub open spec fn pow2_at_least(value: int) -> int
    decreases value,
{
    if value <= 1 {
        1
    } else {
        2 * pow2_at_least((value + 1) / 2)
    }
}

/// The greatest power of two that is at most `value`; 0 for 0.
pub open spec fn pow2_at_most(value: int) -> int
    decreases value,
{
    if value <= 0 {
        0
    } else if value == 1 {
        1
    } else {
        2 * pow2_at_most(value / 2)
    }
}

/// `pow2_at_least` is a power of two that covers `value`, and half of it does not.
pub proof fn pow2_at_least_is_least(value: int)
    ensures
        is_pow2(pow2_at_least(value)),
        value <= pow2_at_least(value),
        1 < value ==> pow2_at_least(value) < 2 * value,
        forall|other: int| is_pow2(other) && other >= value ==> other >= pow2_at_least(value),
    decreases value,
{
    if value > 1 {
        pow2_at_least_is_least((value + 1) / 2);
        assert forall|other: int| is_pow2(other) && other >= value implies other >= pow2_at_least(
            value,
        ) by {
            assert(is_pow2(other / 2));
        }
    } else {
        assert forall|other: int| is_pow2(other) implies other >= 1 by {}
    }
}

/// `pow2_at_most` is a power of two within `value`, and twice it is not.
pub proof fn pow2_at_most_is_greatest(value: int)
    requires
        value >= 1,
    ensures
        is_pow2(pow2_at_most(value)),
        pow2_at_most(value) <= value < 2 * pow2_at_most(value),
    decreases value,
{
    if value > 1 {
        pow2_at_most_is_greatest(value / 2);
    }
}

/// The least power of two at least `value`, where it fits.
#[verifier::when_used_as_spec(next_power_of_two_spec)]
pub fn next_power_of_two(value: usize) -> (found: Option<usize>)
    ensures
        found == next_power_of_two_spec(value),
{
    let mut power: usize = 1;
    proof {
        pow2_at_least_is_least(value as int);
    }
    while power < value
        invariant
            is_pow2(power as int),
            is_pow2(pow2_at_least(value as int)),
            value <= pow2_at_least(value as int),
            1 < value ==> pow2_at_least(value as int) < 2 * value,
            forall|other: int|
                is_pow2(other) && other >= value ==> other >= pow2_at_least(value as int),
            power <= pow2_at_least(value as int),
        decreases pow2_at_least(value as int) - power,
    {
        assert(is_pow2(2 * power as int));
        if power > usize::MAX / 2 {
            proof {
                pow2_step(power as int, pow2_at_least(value as int));
            }
            return None;
        }
        proof {
            pow2_step(power as int, pow2_at_least(value as int));
        }
        power = power * 2;
    }
    Some(power)
}

/// Distinct powers of two are at least a factor of two apart.
pub proof fn pow2_step(low: int, high: int)
    requires
        is_pow2(low),
        is_pow2(high),
        low < high,
    ensures
        2 * low <= high,
    decreases high,
{
    if low > 1 {
        pow2_step(low / 2, high / 2);
    }
}

pub open spec fn next_power_of_two_spec(value: usize) -> Option<usize> {
    if pow2_at_least(value as int) > usize::MAX {
        None
    } else {
        Some(pow2_at_least(value as int) as usize)
    }
}

/// The greatest power of two at most `value`; 0 for 0.
pub fn highest_power_of_two_at_most(value: usize) -> (power: usize)
    ensures
        power == pow2_at_most(value as int),
{
    if value == 0 {
        return 0;
    }
    proof {
        pow2_at_most_is_greatest(value as int);
    }
    let mut power: usize = 1;
    while power <= value / 2
        invariant
            value >= 1,
            is_pow2(power as int),
            power <= value,
        decreases value - power,
    {
        assert(is_pow2(2 * power as int));
        power = power * 2;
    }
    proof {
        let best = pow2_at_most(value as int);
        if power < best {
            pow2_step(power as int, best);
        }
        if best < power {
            pow2_step(best, power as int);
        }
    }
    power
}

/// How often `prime` divides `value`.
pub open spec fn multiplicity(value: int, prime: int) -> nat
    decreases value,
{
    if value <= 0 || prime < 2 || value % prime != 0 {
        0
    } else {
        proof {
            assert(value / prime < value) by (nonlinear_arith)
                requires
                    value > 0,
                    prime >= 2,
            ;
        }
        1 + multiplicity(value / prime, prime)
    }
}

/// `value` with every factor `prime` taken out.
pub open spec fn stripped(value: int, prime: int) -> int
    decreases value,
{
    if value <= 0 || prime < 2 || value % prime != 0 {
        value
    } else {
        proof {
            assert(value / prime < value) by (nonlinear_arith)
                requires
                    value > 0,
                    prime >= 2,
            ;
        }
        stripped(value / prime, prime)
    }
}

/// Taking the factors out and multiplying them back gives the value again.
pub proof fn stripped_times_power(value: int, prime: int)
    requires
        value > 0,
        prime >= 2,
    ensures
        value == stripped(value, prime) * pow(prime, multiplicity(value, prime)),
        stripped(value, prime) > 0,
        stripped(value, prime) <= value,
        stripped(value, prime) % prime != 0,
        multiplicity(value, prime) <= value,
    decreases value,
{
    vstd::arithmetic::power::lemma_pow0(prime);
    if value % prime == 0 {
        let rest = value / prime;
        assert(0 < rest < value) by (nonlinear_arith)
            requires
                value > 0,
                prime >= 2,
                value % prime == 0,
                rest == value / prime,
        ;
        stripped_times_power(rest, prime);
        let m = multiplicity(rest, prime);
        let s = stripped(rest, prime);
        vstd::arithmetic::power::lemma_pow_adds(prime, 1, m);
        vstd::arithmetic::power::lemma_pow1(prime);
        vstd::arithmetic::div_mod::lemma_fundamental_div_mod(value, prime);
        assert(prime * (s * pow(prime, m)) == s * (prime * pow(prime, m))) by (nonlinear_arith);
    } else {
        assert(stripped(value, prime) * 1 == stripped(value, prime)) by (nonlinear_arith);
    }
}

/// A factor occurs at most as often as the value has binary digits.
pub proof fn multiplicity_is_small(value: usize, prime: int)
    requires
        value > 0,
        prime >= 2,
    ensures
        multiplicity(value as int, prime) < 64,
{
    multiplicity_within_log(value as int, prime);
    vstd::arithmetic::power2::lemma2_to64();
    log2_floor_below(value as int, 64);
}

proof fn multiplicity_within_log(value: int, prime: int)
    requires
        value > 0,
        prime >= 2,
    ensures
        multiplicity(value, prime) <= log2_floor(value),
    decreases value,
{
    if value % prime == 0 {
        let rest = value / prime;
        assert(0 < rest < value && rest <= value / 2) by (nonlinear_arith)
            requires
                value > 0,
                prime >= 2,
                value % prime == 0,
                rest == value / prime,
        ;
        multiplicity_within_log(rest, prime);
        log2_floor_grows(rest, value / 2);
    }
}

proof fn log2_floor_grows(low: int, high: int)
    requires
        low <= high,
    ensures
        log2_floor(low) <= log2_floor(high),
    decreases high,
{
    if low > 1 {
        log2_floor_grows(low / 2, high / 2);
    }
}

proof fn log2_floor_below(value: int, exponent: nat)
    requires
        1 <= value < vstd::arithmetic::power2::pow2(exponent),
    ensures
        log2_floor(value) < exponent,
    decreases exponent,
{
    vstd::arithmetic::power2::lemma2_to64();
    if exponent > 0 {
        vstd::arithmetic::power2::lemma_pow2_unfold(exponent);
        if value > 1 {
            log2_floor_below(value / 2, (exponent - 1) as nat);
        }
    }
}

/// Takes every factor `prime` out of `value`, and counts them.
pub fn strip_factor(value: usize, prime: usize) -> (split: (usize, usize))
    requires
        value > 0,
        prime >= 2,
    ensures
        split.0 == stripped(value as int, prime as int),
        split.1 == multiplicity(value as int, prime as int),
        0 < split.0 <= value,
        split.1 < 64,
{
    let mut rest: usize = value;
    let mut count: usize = 0;
    proof {
        multiplicity_is_small(value, prime as int);
    }
    while rest % prime == 0
        invariant
            0 < rest <= value,
            prime >= 2,
            stripped(rest as int, prime as int) == stripped(value as int, prime as int),
            count + multiplicity(rest as int, prime as int) == multiplicity(
                value as int,
                prime as int,
            ),
            multiplicity(value as int, prime as int) < 64,
        decreases rest,
    {
        assert(0 < rest / prime < rest) by (nonlinear_arith)
            requires
                rest > 0,
                prime >= 2,
                rest % prime == 0,
        ;
        count = count + 1;
        rest = rest / prime;
    }
    (rest, count)
}

/// `base^exponent`, the exponent held to 32 bits.
pub open spec fn checked_pow_spec(
    base: usize,
    exponent: usize,
    operation: &'static str,
) -> PlanResult<usize> {
    if exponent > u32::MAX {
        Err(VkFftError::ValueOutOfRange { field: "NVIDIA scheduler upload exponent" })
    } else if pow(base as int, exponent as nat) > usize::MAX {
        Err(VkFftError::ArithmeticOverflow { operation })
    } else {
        Ok(pow(base as int, exponent as nat) as usize)
    }
}

pub fn checked_pow(base: usize, exponent: usize, operation: &'static str) -> (power: PlanResult<
    usize,
>)
    ensures
        power == checked_pow_spec(base, exponent, operation),
{
    if exponent > u32::MAX as usize {
        return Err(VkFftError::ValueOutOfRange { field: "NVIDIA scheduler upload exponent" });
    }
    proof {
        vstd::arithmetic::power::lemma_pow0(base as int);
    }
    if exponent == 0 {
        return Ok(1);
    }
    if base <= 1 {
        proof {
            if base == 0 {
                vstd::arithmetic::power::lemma0_pow(exponent as nat);
            } else {
                vstd::arithmetic::power::lemma1_pow(exponent as nat);
            }
        }
        return Ok(base);
    }
    let mut covered: usize = 1;
    let mut done: usize = 0;
    while done < exponent
        invariant
            done <= exponent,
            base >= 2,
            covered == pow(base as int, done as nat),
            covered >= 1,
            exponent <= u32::MAX,
        decreases exponent - done,
    {
        proof {
            pow_next(base as int, done as nat);
        }
        match covered.checked_mul(base) {
            Some(next) => {
                assert(next >= 1) by (nonlinear_arith)
                    requires
                        next == covered * base,
                        covered >= 1,
                        base >= 2,
                ;
                covered = next;
            },
            None => {
                assert(pow(base as int, exponent as nat) > usize::MAX) by {
                    vstd::arithmetic::power::lemma_pow_increases(
                        base as nat,
                        done as nat + 1,
                        exponent as nat,
                    );
                }
                return Err(VkFftError::ArithmeticOverflow { operation });
            },
        }
        done = done + 1;
    }
    Ok(covered)
}

proof fn pow_next(base: int, exponent: nat)
    ensures
        pow(base, exponent + 1) == pow(base, exponent) * base,
{
    vstd::arithmetic::power::lemma_pow_adds(base, exponent, 1);
    vstd::arithmetic::power::lemma_pow1(base);
}

/// The exponents `e` from `exponent` on, `covered` being `base^exponent`, tried in turn
/// until `base^e` reaches `target`.
pub open spec fn cover_from(
    target: int,
    base: int,
    covered: int,
    exponent: int,
) -> PlanResult<usize>
    decreases usize::MAX - covered,
{
    if base < 2 || covered < 1 {
        arbitrary()
    } else if covered >= target {
        Ok(exponent as usize)
    } else if covered * base > usize::MAX {
        Err(VkFftError::ArithmeticOverflow { operation: "NVIDIA scheduler upload coverage" })
    } else {
        proof {
            assert(covered * base > covered) by (nonlinear_arith)
                requires
                    covered >= 1,
                    base >= 2,
            ;
        }
        cover_from(target, base, covered * base, exponent + 1)
    }
}

/// The least positive exponent whose power of `base` reaches `target`.
pub open spec fn exponent_covering_spec(target: usize, base: usize) -> PlanResult<usize> {
    if base <= 1 {
        if target <= 1 {
            Ok(1)
        } else {
            Err(
                VkFftError::ResourceLimitExceeded {
                    resource: "NVIDIA scheduler strided upload base",
                    required: 2,
                    available: base,
                },
            )
        }
    } else {
        cover_from(target as int, base as int, base as int, 1)
    }
}

pub fn exponent_covering(target: usize, base: usize) -> (exponent: PlanResult<usize>)
    ensures
        exponent == exponent_covering_spec(target, base),
{
    if base <= 1 {
        if target <= 1 {
            return Ok(1);
        }
        return Err(
            VkFftError::ResourceLimitExceeded {
                resource: "NVIDIA scheduler strided upload base",
                required: 2,
                available: base,
            },
        );
    }
    let mut exponent: usize = 1;
    let mut covered: usize = base;
    while covered < target
        invariant
            base >= 2,
            covered >= 1,
            exponent <= covered,
            exponent_covering_spec(target, base) == cover_from(
                target as int,
                base as int,
                covered as int,
                exponent as int,
            ),
        decreases usize::MAX - covered,
    {
        match covered.checked_mul(base) {
            Some(next) => {
                assert(next >= covered + 1) by (nonlinear_arith)
                    requires
                        next == covered * base,
                        covered >= 1,
                        base >= 2,
                ;
                covered = next;
            },
            None => {
                return Err(
                    VkFftError::ArithmeticOverflow {
                        operation: "NVIDIA scheduler upload coverage",
                    },
                );
            },
        }
        exponent = exponent + 1;
    }
    Ok(exponent)
}

/// The exponent found is the least that covers the target.
pub proof fn exponent_covering_is_least(target: usize, base: usize)
    requires
        base >= 2,
        exponent_covering_spec(target, base) is Ok,
    ensures
        ({
            let exponent = exponent_covering_spec(target, base)->Ok_0 as nat;
            &&& exponent >= 1
            &&& pow(base as int, exponent) >= target
            &&& exponent > 1 ==> pow(base as int, (exponent - 1) as nat) < target
        }),
{
    vstd::arithmetic::power::lemma_pow1(base as int);
    cover_from_is_least(target as int, base as int, base as int, 1);
}

proof fn cover_from_is_least(target: int, base: int, covered: int, exponent: int)
    requires
        base >= 2,
        target <= usize::MAX,
        1 <= exponent <= covered <= usize::MAX,
        covered == pow(base, exponent as nat),
        exponent > 1 ==> pow(base, (exponent - 1) as nat) < target,
        cover_from(target, base, covered, exponent) is Ok,
    ensures
        ({
            let found = cover_from(target, base, covered, exponent)->Ok_0 as nat;
            &&& found >= 1
            &&& pow(base, found) >= target
            &&& found > 1 ==> pow(base, (found - 1) as nat) < target
        }),
    decreases usize::MAX - covered,
{
    if covered < target {
        pow_next(base, exponent as nat);
        assert(covered * base >= covered + 1) by (nonlinear_arith)
            requires
                covered >= 1,
                base >= 2,
        ;
        cover_from_is_least(target, base, covered * base, exponent + 1);
    }
}

/// The greatest power of eight at most `value`; 0 for 0.
pub open spec fn pow8_at_most(value: int) -> int
    decreases value,
{
    if value <= 0 {
        0
    } else if value < 8 {
        1
    } else {
        8 * pow8_at_most(value / 8)
    }
}

pub open spec fn power_of_eight_floor_spec(value: usize) -> PlanResult<usize> {
    if value == 0 {
        Err(
            VkFftError::ResourceLimitExceeded {
                resource: "NVIDIA scheduler power-of-eight capacity",
                required: 1,
                available: 0,
            },
        )
    } else {
        Ok(pow8_at_most(value as int) as usize)
    }
}

proof fn pow8_scaled(value: int, power: int)
    requires
        value >= 1,
        power >= 1,
    ensures
        1 <= pow8_at_most(value) <= value,
    decreases value,
{
    if value >= 8 {
        pow8_scaled(value / 8, power);
    }
}

pub fn power_of_eight_floor(value: usize) -> (power: PlanResult<usize>)
    ensures
        power == power_of_eight_floor_spec(value),
{
    if value == 0 {
        return Err(
            VkFftError::ResourceLimitExceeded {
                resource: "NVIDIA scheduler power-of-eight capacity",
                required: 1,
                available: 0,
            },
        );
    }
    let mut power: usize = 1;
    let mut rest: usize = value;
    proof {
        pow8_scaled(value as int, 1);
    }
    while rest >= 8
        invariant
            rest >= 1,
            power >= 1,
            power * rest <= value,
            power * pow8_at_most(rest as int) == pow8_at_most(value as int),
        decreases rest,
    {
        let next: usize = rest / 8;
        assert(power * 8 * next <= value && power * 8 <= value) by (nonlinear_arith)
            requires
                power * rest <= value,
                next == rest / 8,
                rest >= 8,
                power >= 1,
        ;
        assert(power * (8 * pow8_at_most(next as int)) == (power * 8) * pow8_at_most(next as int))
            by (nonlinear_arith);
        power = power * 8;
        rest = next;
    }
    Ok(power)
}

/// `2^(usize::BITS / 2)`: every `usize` is below its square.
#[verifier::allow_in_spec]
pub fn half_word() -> usize
    returns
        (if usize::BITS == 64 {
            (0x1_0000int * 0x1_0000int) as usize
        } else {
            0x1_0000usize
        }),
{
    if usize::BITS == 64 {
        0x1_0000usize * 0x1_0000usize
    } else {
        0x1_0000usize
    }
}

/// Whether `root` is the square root of `value`, rounded up.
pub open spec fn is_ceil_sqrt(value: int, root: int) -> bool {
    &&& root * root >= value
    &&& root > 0 ==> (root - 1) * (root - 1) < value
}

proof fn half_word_squared()
    ensures
        half_word() * half_word() == usize::MAX + 1,
        half_word() >= 2,
{
    assert(usize::BITS == 64 || usize::BITS == 32);
    assert(0x1_0000_0000int * 0x1_0000_0000int == 0x1_0000_0000_0000_0000int) by (nonlinear_arith);
    assert(0x1_0000int * 0x1_0000int == 0x1_0000_0000int) by (nonlinear_arith);
}

/// The square root of `value`, rounded up.
pub open spec fn sqrt_up(value: int) -> int {
    choose|root: int| 0 <= root && is_ceil_sqrt(value, root)
}

proof fn ceil_sqrt_is_unique(value: int, a: int, b: int)
    requires
        0 <= a,
        0 <= b,
        is_ceil_sqrt(value, a),
        is_ceil_sqrt(value, b),
    ensures
        a == b,
{
    if a < b {
        assert(a * a <= (b - 1) * (b - 1)) by (nonlinear_arith)
            requires
                0 <= a <= b - 1,
        ;
    }
    if b < a {
        assert(b * b <= (a - 1) * (a - 1)) by (nonlinear_arith)
            requires
                0 <= b <= a - 1,
        ;
    }
}

/// Square root rounded up, or the error of a division that no longer fits: for the
/// largest values, a search that divides by every candidate below `2^(BITS/2)` overflows.
pub open spec fn ceil_sqrt_spec(value: usize) -> PlanResult<usize> {
    if value > 1 && value + half_word() - 2 > usize::MAX {
        Err(VkFftError::ArithmeticOverflow { operation: "NVIDIA scheduler ceil division" })
    } else {
        Ok(sqrt_up(value as int) as usize)
    }
}

/// Square root rounded up. The search divides by candidates up to `2^(BITS/2) - 1`, and
/// for the few largest values that division no longer fits.
pub fn ceil_sqrt(value: usize) -> (root: PlanResult<usize>)
    ensures
        root == ceil_sqrt_spec(value),
        value > 1 && value + half_word() - 2 > usize::MAX ==> root == Err::<usize, VkFftError>(
            VkFftError::ArithmeticOverflow { operation: "NVIDIA scheduler ceil division" },
        ),
        !(value > 1 && value + half_word() - 2 > usize::MAX) ==> root is Ok && is_ceil_sqrt(
            value as int,
            root->Ok_0 as int,
        ),
{
    if value <= 1 {
        assert(0int * 0int == 0 && 1int * 1int == 1) by (nonlinear_arith);
        assert(is_ceil_sqrt(value as int, value as int));
        proof {
            ceil_sqrt_is_unique(value as int, value as int, sqrt_up(value as int));
        }
        return Ok(value);
    }
    proof {
        half_word_squared();
    }
    let half: usize = half_word();
    let mut low: usize = 1;
    let mut high: usize = umin(value, half);
    assert(high * high >= value) by {
        if value <= half {
            assert(value * value >= value) by (nonlinear_arith)
                requires
                    value >= 1,
            ;
        }
    }
    assert((low - 1) * (low - 1) < value) by {
        assert(0int * 0int == 0) by (nonlinear_arith);
    }
    while low < high
        invariant
            half == half_word(),
            half * half == usize::MAX + 1,
            value > 1,
            1 <= low <= high <= half,
            high * high >= value,
            (low - 1) * (low - 1) < value,
            value + half - 2 > usize::MAX ==> low < half && high == half,
        decreases high - low,
    {
        let mid: usize = low + (high - low) / 2;
        match ceil_div(value, mid) {
            Ok(quotient) => {
                proof {
                    ceil_div_is_least_cover(value, mid);
                    assert((mid as int) * mid >= value ==> mid >= quotient);
                    if mid >= quotient {
                        assert(mid * mid >= value) by (nonlinear_arith)
                            requires
                                quotient * mid >= value,
                                mid >= quotient,
                                mid >= 1,
                        ;
                    }
                }
                if mid >= quotient {
                    assert(value + half - 2 <= usize::MAX) by (nonlinear_arith)
                        requires
                            mid * mid >= value,
                            1 <= mid <= half - 1,
                            half * half == usize::MAX + 1,
                            half >= 2,
                    ;
                    high = mid;
                } else {
                    low = mid + 1;
                }
            },
            Err(error) => {
                return Err(error);
            },
        }
    }
    assert(is_ceil_sqrt(value as int, low as int));
    proof {
        ceil_sqrt_is_unique(value as int, low as int, sqrt_up(value as int));
    }
    Ok(low)
}

/// Whether `root` is the cube root of `value`, rounded up.
pub open spec fn is_ceil_cuberoot(value: int, root: int) -> bool {
    &&& cube(root) >= value
    &&& root > 0 ==> cube(root - 1) < value
}

pub open spec fn cube(value: int) -> int {
    value * value * value
}

proof fn cube_grows(low: int, high: int)
    requires
        0 <= low <= high,
    ensures
        cube(low) <= cube(high),
{
    assert(low * low <= high * high) by (nonlinear_arith)
        requires
            0 <= low <= high,
    ;
    assert(low * low * low <= high * high * high) by (nonlinear_arith)
        requires
            0 <= low <= high,
            0 <= low * low <= high * high,
    ;
}

/// The cube root of `value`, rounded up.
pub open spec fn cuberoot_up(value: int) -> int {
    choose|root: int| 0 <= root && is_ceil_cuberoot(value, root)
}

proof fn ceil_cuberoot_is_unique(value: int, a: int, b: int)
    requires
        0 <= a,
        0 <= b,
        is_ceil_cuberoot(value, a),
        is_ceil_cuberoot(value, b),
    ensures
        a == b,
{
    if a < b {
        cube_grows(a, b - 1);
    }
    if b < a {
        cube_grows(b, a - 1);
    }
}

/// Cube root rounded up.
pub fn ceil_cuberoot(value: usize) -> (root: PlanResult<usize>)
    ensures
        root == Ok::<usize, VkFftError>(cuberoot_up(value as int) as usize),
        root->Ok_0 == cuberoot_up(value as int),
        is_ceil_cuberoot(value as int, root->Ok_0 as int),
{
    assert(cube(0) == 0 && cube(1) == 1) by (nonlinear_arith);
    if value <= 1 {
        proof {
            assert(is_ceil_cuberoot(value as int, value as int));
            ceil_cuberoot_is_unique(value as int, value as int, cuberoot_up(value as int));
        }
        return Ok(value);
    }
    let mut low: usize = 1;
    proof {
        pow2_at_most_is_greatest(value as int);
    }
    let mut high: usize = saturating_product(highest_power_of_two_at_most(value), 2);
    assert(cube(high as int) >= value) by {
        assert(high >= value);
        assert(high * high * high >= high) by (nonlinear_arith)
            requires
                high >= 1,
        ;
    }
    while low < high
        invariant
            1 <= low <= high,
            cube(high as int) >= value,
            cube(low - 1) < value,
        decreases high - low,
    {
        let mid: usize = low + (high - low) / 2;
        let reached: bool = match mid.checked_mul(mid) {
            None => {
                assert(cube(mid as int) >= value) by (nonlinear_arith)
                    requires
                        mid * mid > usize::MAX,
                        mid >= 1,
                        value <= usize::MAX,
                        cube(mid as int) == mid * mid * mid,
                ;
                true
            },
            Some(square) => match square.checked_mul(mid) {
                None => true,
                Some(product) => product >= value,
            },
        };
        if reached {
            high = mid;
        } else {
            low = mid + 1;
        }
    }
    proof {
        assert(is_ceil_cuberoot(value as int, low as int));
        ceil_cuberoot_is_unique(value as int, low as int, cuberoot_up(value as int));
    }
    Ok(low)
}

/// Base-2 logarithm rounded down; 0 below 2.
pub open spec fn log2_floor(value: int) -> nat
    decreases value,
{
    if value <= 1 {
        0
    } else {
        1 + log2_floor(value / 2)
    }
}

/// Base-2 logarithm rounded up.
pub open spec fn log2_ceil(value: int) -> nat {
    if is_pow2(value) {
        log2_floor(value)
    } else {
        log2_floor(value) + 1
    }
}

/// Base-2 logarithm of a positive integer, rounded down and rounded up.
pub fn exact_log2_bounds(value: usize) -> (bounds: (usize, usize))
    requires
        value > 0,
    ensures
        bounds.0 == log2_floor(value as int),
        bounds.1 == log2_ceil(value as int),
{
    let mut floor: usize = 0;
    let mut rest: usize = value;
    while rest > 1
        invariant
            value > 0,
            1 <= rest,
            floor + rest <= value,
            floor + log2_floor(rest as int) == log2_floor(value as int),
        decreases rest,
    {
        rest = rest / 2;
        floor = floor + 1;
    }
    if is_power_of_two(value) {
        (floor, floor)
    } else {
        (floor, floor + 1)
    }
}

/// The logarithms bracket the value between powers of two.
pub proof fn log2_brackets(value: int)
    requires
        value >= 1,
    ensures
        pow(2, log2_floor(value)) <= value < pow(2, log2_floor(value) + 1),
        value <= pow(2, log2_ceil(value)),
    decreases value,
{
    vstd::arithmetic::power::lemma_pow0(2);
    vstd::arithmetic::power::lemma_pow1(2);
    if value > 1 {
        log2_brackets(value / 2);
        pow_next(2, log2_floor(value / 2));
        pow_next(2, log2_floor(value / 2) + 1);
    }
    if is_pow2(value) {
        pow2_is_its_log(value);
    }
}

proof fn pow2_is_its_log(value: int)
    requires
        is_pow2(value),
    ensures
        value == pow(2, log2_floor(value)),
    decreases value,
{
    vstd::arithmetic::power::lemma_pow0(2);
    if value > 1 {
        pow2_is_its_log(value / 2);
        pow_next(2, log2_floor(value / 2));
    }
}

/// Which whole multiple of `value` lies nearer to `maximum`: with `q` the quotient
/// rounded down, `q` where `value * (q + 1) / maximum` exceeds `maximum / (value * q)`,
/// else `q + 1`.
pub open spec fn nearest_multiple(maximum: int, value: int) -> int {
    let floor = maximum / value;
    if maximum % value == 0 || (value * (floor + 1)) * (value * floor) > maximum * maximum {
        floor
    } else {
        floor + 1
    }
}

pub fn nearest_register_multiple_multiplier(maximum: usize, value: usize) -> (multiplier: usize)
    requires
        value > 0,
    ensures
        multiplier == nearest_multiple(maximum as int, value as int),
{
    let floor: usize = maximum / value;
    let remainder: usize = maximum % value;
    if remainder == 0 {
        return floor;
    }
    proof {
        vstd::arithmetic::div_mod::lemma_fundamental_div_mod(maximum as int, value as int);
        assert(floor < maximum) by (nonlinear_arith)
            requires
                maximum == value * floor + remainder,
                value >= 2,
                remainder >= 1,
        ;
        product_fits_u128((value - remainder) as usize, (maximum - remainder) as usize);
        product_fits_u128(remainder, maximum);
        let (m, v, q, r) = (maximum as int, value as int, floor as int, remainder as int);
        assert((v * (q + 1)) * (v * q) - m * m == (v - r) * (m - r) - r * m) by (nonlinear_arith)
            requires
                m == v * q + r,
        ;
    }
    let floor_side: u128 = (value - remainder) as u128 * (maximum - remainder) as u128;
    let ceil_side: u128 = remainder as u128 * maximum as u128;
    if floor_side > ceil_side {
        floor
    } else {
        floor + 1
    }
}

proof fn product_fits_u128(a: usize, b: usize)
    ensures
        0 <= a * b <= u128::MAX,
{
    assert(0 <= a * b <= 0xffff_ffff_ffff_ffff * 0xffff_ffff_ffff_ffff) by (nonlinear_arith)
        requires
            0 <= a <= 0xffff_ffff_ffff_ffff,
            0 <= b <= 0xffff_ffff_ffff_ffff,
    ;
}

/// Whether `threads` fills one subgroup and less than half of a second one.
pub open spec fn near_single_subgroup(threads: int, subgroup: int) -> bool {
    subgroup <= threads < 2 * subgroup && 2 * threads < 3 * subgroup
}

pub fn upstream_near_single_subgroup(threads: usize, subgroup: usize) -> (near: bool)
    requires
        subgroup > 0,
    ensures
        near == near_single_subgroup(threads as int, subgroup as int),
{
    proof {
        let q = threads as int / subgroup as int;
        vstd::arithmetic::div_mod::lemma_fundamental_div_mod(threads as int, subgroup as int);
        assert(q == 1 <==> subgroup <= threads < 2 * subgroup) by (nonlinear_arith)
            requires
                threads == subgroup * q + threads as int % subgroup as int,
                0 <= threads as int % subgroup as int,
                (threads as int % subgroup as int) < subgroup,
                subgroup > 0,
        ;
    }
    threads / subgroup == 1 && (threads as u128) * 2 < (subgroup as u128) * 3
}

/// Whether the square of `candidate` fits in `usize` and divides `value`.
pub open spec fn square_divides(value: usize, candidate: int) -> bool {
    candidate * candidate <= usize::MAX && value as int % (candidate * candidate) == 0
}

/// The greatest candidate up to `limit` (1 at least) whose square divides `sequence_len`.
pub open spec fn square_divisor_boost(sequence_len: usize, limit: int) -> int
    decreases limit,
{
    if limit <= 1 {
        1
    } else if square_divides(sequence_len, limit) {
        limit
    } else {
        square_divisor_boost(sequence_len, limit - 1)
    }
}

pub fn largest_square_divisor_boost(sequence_len: usize, limit: usize) -> (selected: usize)
    ensures
        selected == square_divisor_boost(sequence_len, limit as int),
{
    let mut candidate: usize = umax(limit, 1);
    while candidate > 1
        invariant
            candidate >= 1,
            square_divisor_boost(sequence_len, candidate as int) == square_divisor_boost(
                sequence_len,
                limit as int,
            ),
        decreases candidate,
    {
        if let Some(square) = candidate.checked_mul(candidate) {
            assert(square > 0) by (nonlinear_arith)
                requires
                    square == candidate * candidate,
                    candidate > 1,
            ;
            if sequence_len % square == 0 {
                return candidate;
            }
        }
        candidate = candidate - 1;
    }
    1
}

/// The candidate found is the greatest one.
pub proof fn square_divisor_boost_is_greatest(sequence_len: usize, limit: int)
    ensures
        1 <= square_divisor_boost(sequence_len, limit),
        square_divisor_boost(sequence_len, limit) <= if limit <= 1 {
            1
        } else {
            limit
        },
        square_divides(sequence_len, square_divisor_boost(sequence_len, limit)),
        forall|other: int|
            square_divisor_boost(sequence_len, limit) < other <= limit ==> !square_divides(
                sequence_len,
                other,
            ),
    decreases limit,
{
    assert(1int * 1int == 1) by (nonlinear_arith);
    if limit > 1 && !square_divides(sequence_len, limit) {
        square_divisor_boost_is_greatest(sequence_len, limit - 1);
    }
}

} // verus!
