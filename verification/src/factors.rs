//! Prime factorization by trial division.

use vstd::arithmetic::power::pow;
use vstd::prelude::*;

use crate::arith::{multiplicity, strip_factor, stripped, stripped_times_power};

verus! {

/// Whether a number has no divisor but 1 and itself.
pub open spec fn is_prime(value: int) -> bool {
    &&& value >= 2
    &&& no_divisor_below(value, value)
}

/// Whether no number from 2 up to `end` divides the value.
pub open spec fn no_divisor_below(value: int, end: int) -> bool {
    forall|d: int| 2 <= d < end ==> #[trigger] (value % d) != 0
}

/// The number tried after `candidate`: 2, 3 and then every odd number.
pub open spec fn next_candidate(candidate: int) -> int {
    if candidate == 2 {
        3
    } else {
        candidate + 2
    }
}

/// The factors of `value`, none of which lies below `candidate`, behind those already
/// found.
pub open spec fn factors_from(value: int, candidate: int, found: Seq<(usize, usize)>) -> Seq<
    (usize, usize),
>
    decreases
            (if value >= candidate {
                value - candidate + 1
            } else {
                0
            }),
{
    if value <= 0 || candidate < 2 || candidate * candidate > value {
        if value > 1 {
            found.push((value as usize, 1))
        } else {
            found
        }
    } else {
        proof {
            stripped_times_power(value, candidate);
            assert(candidate <= value) by (nonlinear_arith)
                requires
                    candidate * candidate <= value,
                    candidate >= 2,
            ;
        }
        if value % candidate == 0 {
            factors_from(
                stripped(value, candidate),
                next_candidate(candidate),
                found.push((candidate as usize, multiplicity(value, candidate) as usize)),
            )
        } else {
            factors_from(value, next_candidate(candidate), found)
        }
    }
}

/// The distinct prime factors of a number in ascending order, each with its multiplicity.
pub open spec fn distinct_factors(value: usize) -> Seq<(usize, usize)> {
    factors_from(value as int, 2, Seq::empty())
}

pub fn distinct_prime_factors(value: usize) -> (factors: Vec<(usize, usize)>)
    ensures
        factors@ == distinct_factors(value),
{
    let mut rest: usize = value;
    let mut candidate: usize = 2;
    let mut factors: Vec<(usize, usize)> = Vec::new();
    while candidate <= rest / candidate
        invariant
            2 <= candidate,
            factors_from(rest as int, candidate as int, factors@) == distinct_factors(value),
        decreases
                (if rest >= candidate {
                    rest - candidate + 1
                } else {
                    0
                }),
    {
        proof {
            quotient_bounds_square(rest as int, candidate as int);
            stripped_times_power(rest as int, candidate as int);
            assert(candidate + candidate <= rest) by (nonlinear_arith)
                requires
                    candidate * candidate <= rest,
                    candidate >= 2,
            ;
        }
        if rest % candidate == 0 {
            let (left, count) = strip_factor(rest, candidate);
            factors.push((candidate, count));
            rest = left;
        }
        candidate = candidate + if candidate == 2 { 1 } else { 2 };
    }
    proof {
        quotient_bounds_square(rest as int, candidate as int);
    }
    if rest > 1 {
        factors.push((rest, 1));
    }
    factors
}

proof fn quotient_bounds_square(value: int, candidate: int)
    requires
        value >= 0,
        candidate >= 2,
    ensures
        (candidate <= value / candidate) == (candidate * candidate <= value),
{
    vstd::arithmetic::div_mod::lemma_fundamental_div_mod(value, candidate);
    let q = value / candidate;
    let r = value % candidate;
    assert((candidate <= q) == (candidate * candidate <= candidate * q + r)) by (nonlinear_arith)
        requires
            candidate >= 2,
            0 <= r < candidate,
    ;
}

/// The product of the first `end` prime powers.
pub open spec fn factor_product(factors: Seq<(usize, usize)>, end: int) -> int
    decreases end,
{
    if end <= 0 {
        1
    } else {
        factor_product(factors, end - 1) * pow(
            factors[end - 1].0 as int,
            factors[end - 1].1 as nat,
        )
    }
}

/// Whether the pairs are prime powers with ascending primes below `end`.
pub open spec fn ascending_primes(factors: Seq<(usize, usize)>, end: int) -> bool {
    &&& forall|i: int|
        0 <= i < factors.len() ==> is_prime((#[trigger] factors[i]).0 as int) && factors[i].1 >= 1
            && factors[i].0 < end
    &&& forall|i: int, j: int|
        0 <= i < j < factors.len() ==> (#[trigger] factors[i]).0 < (#[trigger] factors[j]).0
}

proof fn product_of_pushed(factors: Seq<(usize, usize)>, pair: (usize, usize))
    ensures
        factor_product(factors.push(pair), factors.len() as int + 1) == factor_product(
            factors,
            factors.len() as int,
        ) * pow(pair.0 as int, pair.1 as nat),
{
    product_of_prefix(factors, factors.push(pair), factors.len() as int);
}

proof fn product_of_prefix(a: Seq<(usize, usize)>, b: Seq<(usize, usize)>, end: int)
    requires
        0 <= end <= a.len(),
        end <= b.len(),
        forall|i: int| 0 <= i < end ==> #[trigger] a[i] == b[i],
    ensures
        factor_product(a, end) == factor_product(b, end),
    decreases end,
{
    if end > 0 {
        product_of_prefix(a, b, end - 1);
        assert(a[end - 1] == b[end - 1]);
    }
}

/// A divisor of a divisor divides.
proof fn divides_through(value: int, middle: int, d: int)
    requires
        d >= 2,
        middle >= 2,
        value % middle == 0,
        middle % d == 0,
    ensures
        value % d == 0,
{
    vstd::arithmetic::div_mod::lemma_fundamental_div_mod(value, middle);
    vstd::arithmetic::div_mod::lemma_fundamental_div_mod(middle, d);
    let a = value / middle;
    let b = middle / d;
    assert(value == (a * b) * d) by (nonlinear_arith)
        requires
            value == middle * a,
            middle == d * b,
    ;
    vstd::arithmetic::div_mod::lemma_mod_multiples_basic(a * b, d);
}

/// What is left after taking a factor out has no new divisors.
proof fn strip_adds_no_divisor(value: int, candidate: int, d: int)
    requires
        value > 0,
        candidate >= 2,
        d >= 2,
        value % d != 0,
    ensures
        stripped(value, candidate) % d != 0,
{
    stripped_times_power(value, candidate);
    let rest = stripped(value, candidate);
    let power = pow(candidate, multiplicity(value, candidate));
    if rest % d == 0 {
        vstd::arithmetic::div_mod::lemma_fundamental_div_mod(rest, d);
        let q = rest / d;
        assert(value == (q * power) * d) by (nonlinear_arith)
            requires
                value == rest * power,
                rest == d * q,
        ;
        vstd::arithmetic::div_mod::lemma_mod_multiples_basic(q * power, d);
    }
}

/// A number without divisors up to its square root is prime.
proof fn no_small_divisor_means_prime(value: int, candidate: int)
    requires
        value > 1,
        candidate >= 2,
        candidate * candidate > value,
        no_divisor_below(value, candidate),
    ensures
        is_prime(value),
{
    assert forall|d: int| 2 <= d < value implies #[trigger] (value % d) != 0 by {
        if value % d == 0 {
            vstd::arithmetic::div_mod::lemma_fundamental_div_mod(value, d);
            let e = value / d;
            assert(value == d * e);
            assert(2 <= e && (d >= candidate && e >= candidate ==> d * e >= candidate * candidate))
                by (nonlinear_arith)
                requires
                    value == d * e,
                    2 <= d < value,
                    candidate >= 2,
            ;
            vstd::arithmetic::div_mod::lemma_mod_multiples_basic(d, e);
            assert(value % e == 0);
            if d < candidate {
                assert(value % d != 0);
            } else {
                assert(e < candidate);
                assert(value % e != 0);
            }
        }
    }
}

/// Where an even number was ruled out as a divisor, no even number divides.
proof fn odd_has_no_even_divisor(value: int, d: int)
    requires
        value % 2 != 0,
        d >= 2,
        d % 2 == 0,
    ensures
        value % d != 0,
{
    if value % d == 0 {
        divides_through(value, d, 2);
    }
}

proof fn factors_from_are_prime(value: int, candidate: int, found: Seq<(usize, usize)>)
    requires
        0 < value <= usize::MAX,
        candidate >= 2,
        no_divisor_below(value, candidate),
        candidate == 2 || candidate % 2 == 1,
        ascending_primes(found, candidate),
    ensures
        ({
            let all = factors_from(value, candidate, found);
            &&& factor_product(all, all.len() as int) == factor_product(
                found,
                found.len() as int,
            ) * value
            &&& ascending_primes(all, usize::MAX + 1)
        }),
    decreases
            (if value >= candidate {
                value - candidate + 1
            } else {
                0
            }),
{
    let before = factor_product(found, found.len() as int);
    if candidate * candidate > value {
        if value > 1 {
            no_small_divisor_means_prime(value, candidate);
            let all = found.push((value as usize, 1));
            product_of_pushed(found, (value as usize, 1));
            vstd::arithmetic::power::lemma_pow1(value);
            assert(value >= candidate) by {
                if value < candidate {
                    assert(value % value != 0);
                    vstd::arithmetic::div_mod::lemma_mod_self_0(value);
                }
            }
            assert forall|i: int, j: int| 0 <= i < j < all.len() implies (#[trigger] all[i]).0 < (
            #[trigger] all[j]).0 by {
                if j == found.len() {
                    assert(found[i].0 < candidate);
                }
            }
            assert(ascending_primes(all, usize::MAX + 1));
        } else {
            assert(before * value == before);
        }
    } else {
        stripped_times_power(value, candidate);
        assert(candidate <= value) by (nonlinear_arith)
            requires
                candidate * candidate <= value,
                candidate >= 2,
        ;
        let next = next_candidate(candidate);
        if value % candidate == 0 {
            let count = multiplicity(value, candidate);
            let rest = stripped(value, candidate);
            let pair = (candidate as usize, count as usize);
            let more = found.push(pair);
            crate::arith::multiplicity_is_small(value as usize, candidate);
            assert(count >= 1);
            assert forall|d: int| 2 <= d < candidate implies #[trigger] (candidate % d) != 0 by {
                if candidate % d == 0 {
                    divides_through(value, candidate, d);
                    assert(value % d != 0);
                }
            }
            assert forall|d: int| 2 <= d < next implies #[trigger] (rest % d) != 0 by {
                if d < candidate {
                    assert(value % d != 0);
                    strip_adds_no_divisor(value, candidate, d);
                } else if d > candidate {
                    assert(value % 2 != 0);
                    odd_has_no_even_divisor(value, d);
                    strip_adds_no_divisor(value, candidate, d);
                }
            }
            assert forall|i: int, j: int| 0 <= i < j < more.len() implies (#[trigger] more[i]).0 < (
            #[trigger] more[j]).0 by {
                if j == found.len() {
                    assert(found[i].0 < candidate);
                }
            }
            assert forall|i: int| 0 <= i < more.len() implies is_prime(
                (#[trigger] more[i]).0 as int,
            ) && more[i].1 >= 1 && more[i].0 < next by {
                if i < found.len() {
                    assert(more[i] == found[i]);
                }
            }
            product_of_pushed(found, pair);
            factors_from_are_prime(rest, next, more);
            let power = pow(candidate, count);
            assert((before * power) * rest == before * (rest * power)) by (nonlinear_arith);
        } else {
            assert forall|d: int| 2 <= d < next implies #[trigger] (value % d) != 0 by {
                if d > candidate {
                    assert(value % 2 != 0);
                    odd_has_no_even_divisor(value, d);
                }
            }
            assert(ascending_primes(found, next));
            factors_from_are_prime(value, next, found);
        }
    }
}

/// The factors of a number are its prime factorization: distinct primes in ascending
/// order, whose powers multiply to the number.
pub proof fn distinct_factors_are_the_prime_factorization(value: usize)
    requires
        value > 0,
    ensures
        factor_product(distinct_factors(value), distinct_factors(value).len() as int) == value,
        ascending_primes(distinct_factors(value), usize::MAX + 1),
{
    factors_from_are_prime(value as int, 2, Seq::empty());
}

/// Whether no factor exceeds the bound.
pub open spec fn factors_at_most(factors: Seq<(usize, usize)>, bound: int) -> bool {
    forall|i: int| 0 <= i < factors.len() ==> (#[trigger] factors[i]).0 <= bound
}

proof fn factors_from_are_bounded(
    value: int,
    candidate: int,
    found: Seq<(usize, usize)>,
    bound: int,
)
    requires
        0 < value <= usize::MAX,
        value <= bound,
        candidate >= 2,
        factors_at_most(found, bound),
    ensures
        factors_at_most(factors_from(value, candidate, found), bound),
    decreases
            (if value >= candidate {
                value - candidate + 1
            } else {
                0
            }),
{
    if candidate * candidate <= value {
        stripped_times_power(value, candidate);
        assert(candidate <= value) by (nonlinear_arith)
            requires
                candidate * candidate <= value,
                candidate >= 2,
        ;
        if value % candidate == 0 {
            let more = found.push((candidate as usize, multiplicity(value, candidate) as usize));
            assert forall|i: int| 0 <= i < more.len() implies (#[trigger] more[i]).0 <= bound by {
                if i < found.len() {
                    assert(more[i] == found[i]);
                }
            }
            factors_from_are_bounded(
                stripped(value, candidate),
                next_candidate(candidate),
                more,
                bound,
            );
        } else {
            factors_from_are_bounded(value, next_candidate(candidate), found, bound);
        }
    } else if value > 1 {
        let all = found.push((value as usize, 1));
        assert(factors_from(value, candidate, found) == all);
        assert forall|i: int| 0 <= i < all.len() implies (#[trigger] all[i]).0 <= bound by {
            if i < found.len() {
                assert(all[i] == found[i]);
            }
        }
    }
}

/// No factor exceeds the number.
pub proof fn distinct_factors_are_bounded(value: usize)
    requires
        value > 0,
    ensures
        factors_at_most(distinct_factors(value), value as int),
{
    factors_from_are_bounded(value as int, 2, Seq::empty(), value as int);
}

} // verus!
