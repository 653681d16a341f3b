//! Why register schedules exist: the radix optimizer only regroups prime factors, so the
//! stages of a schedule multiply to the transform length, and every length over the
//! primes 2 to 13 has one.

use vstd::arithmetic::power::pow;
use vstd::prelude::*;

use crate::arith::{multiplicity, stripped, stripped_times_power, umax, umin};
use crate::error::VkFftError;
use crate::registers::{
    boost_stage, expanded, extrema_from, fewest_stage_log, first_stage_with, largest_used,
    least_first, mixed_radix_schedule, multiplier_product, odd_radix_demand, optimized,
    power_of_two_schedule, prime_table, primitive_registers, radix_in_table, shifted,
    small_exponents, small_mixed_schedule, small_power_of_two, small_rest, split_for_boost,
    stage_extrema, stage_product, two_three_schedule, with_composites, zero_table,
    RadixRegisterModel, RadixTables, SmallExponents, VKFFT_RADIX_TABLE_LEN,
};

verus! {

/// How often each prime from 2 to 13 occurs in a product.
pub struct Exponents {
    pub two: int,
    pub three: int,
    pub five: int,
    pub seven: int,
    pub eleven: int,
    pub thirteen: int,
}

impl Exponents {
    pub open spec fn nonnegative(self) -> bool {
        &&& self.two >= 0
        &&& self.three >= 0
        &&& self.five >= 0
        &&& self.seven >= 0
        &&& self.eleven >= 0
        &&& self.thirteen >= 0
    }

    pub open spec fn plus(self, other: Exponents) -> Exponents {
        Exponents {
            two: self.two + other.two,
            three: self.three + other.three,
            five: self.five + other.five,
            seven: self.seven + other.seven,
            eleven: self.eleven + other.eleven,
            thirteen: self.thirteen + other.thirteen,
        }
    }

    pub open spec fn times(self, count: int) -> Exponents {
        Exponents {
            two: self.two * count,
            three: self.three * count,
            five: self.five * count,
            seven: self.seven * count,
            eleven: self.eleven * count,
            thirteen: self.thirteen * count,
        }
    }

    /// The product the exponents stand for.
    pub open spec fn value(self) -> int {
        ((pow(2, self.two as nat) * pow(3, self.three as nat)) * (pow(5, self.five as nat) * pow(
            7,
            self.seven as nat,
        ))) * (pow(11, self.eleven as nat) * pow(13, self.thirteen as nat))
    }
}

proof fn pairs_regroup(a: int, b: int, c: int, d: int)
    ensures
        (a * b) * (c * d) == (a * c) * (b * d),
{
    assert((a * b) * (c * d) == (a * c) * (b * d)) by (nonlinear_arith);
}

/// Adding exponents multiplies the products.
pub proof fn exponents_add(a: Exponents, b: Exponents)
    requires
        a.nonnegative(),
        b.nonnegative(),
    ensures
        a.plus(b).value() == a.value() * b.value(),
{
    let c = a.plus(b);
    vstd::arithmetic::power::lemma_pow_adds(2, a.two as nat, b.two as nat);
    vstd::arithmetic::power::lemma_pow_adds(3, a.three as nat, b.three as nat);
    vstd::arithmetic::power::lemma_pow_adds(5, a.five as nat, b.five as nat);
    vstd::arithmetic::power::lemma_pow_adds(7, a.seven as nat, b.seven as nat);
    vstd::arithmetic::power::lemma_pow_adds(11, a.eleven as nat, b.eleven as nat);
    vstd::arithmetic::power::lemma_pow_adds(13, a.thirteen as nat, b.thirteen as nat);
    let a2 = pow(2, a.two as nat);
    let a3 = pow(3, a.three as nat);
    let a5 = pow(5, a.five as nat);
    let a7 = pow(7, a.seven as nat);
    let a11 = pow(11, a.eleven as nat);
    let a13 = pow(13, a.thirteen as nat);
    let b2 = pow(2, b.two as nat);
    let b3 = pow(3, b.three as nat);
    let b5 = pow(5, b.five as nat);
    let b7 = pow(7, b.seven as nat);
    let b11 = pow(11, b.eleven as nat);
    let b13 = pow(13, b.thirteen as nat);
    pairs_regroup(a2, b2, a3, b3);
    pairs_regroup(a5, b5, a7, b7);
    pairs_regroup(a11, b11, a13, b13);
    pairs_regroup(a2 * a3, b2 * b3, a5 * a7, b5 * b7);
    pairs_regroup((a2 * a3) * (a5 * a7), (b2 * b3) * (b5 * b7), a11 * a13, b11 * b13);
}

/// Multiplying exponents raises the product to a power.
pub proof fn exponents_scale(a: Exponents, count: nat)
    requires
        a.nonnegative(),
    ensures
        a.times(count as int).nonnegative(),
        a.times(count as int).value() == pow(a.value(), count),
    decreases count,
{
    assert forall|x: int| x >= 0 implies #[trigger] (x * count) >= 0 by {
        assert(x * count >= 0) by (nonlinear_arith)
            requires
                x >= 0,
        ;
    }
    if count == 0 {
        vstd::arithmetic::power::lemma_pow0(a.value());
        vstd::arithmetic::power::lemma_pow0(2);
        vstd::arithmetic::power::lemma_pow0(3);
        vstd::arithmetic::power::lemma_pow0(5);
        vstd::arithmetic::power::lemma_pow0(7);
        vstd::arithmetic::power::lemma_pow0(11);
        vstd::arithmetic::power::lemma_pow0(13);
        assert forall|x: int| #[trigger] (x * count) == 0 by {
            assert(x * count == 0) by (nonlinear_arith)
                requires
                    count == 0,
            ;
        }
    } else {
        let less = (count - 1) as nat;
        exponents_scale(a, less);
        let rest = a.times(less as int);
        assert forall|x: int| #[trigger] (x * count) == x + x * less by {
            assert(x * count == x + x * less) by (nonlinear_arith)
                requires
                    count == less + 1,
            ;
        }
        assert(a.times(count as int) == a.plus(rest));
        exponents_add(a, rest);
        vstd::arithmetic::power::lemma_pow_adds(a.value(), 1, less);
        vstd::arithmetic::power::lemma_pow1(a.value());
    }
}

/// The prime factors of a radix a kernel exists for.
pub open spec fn radix_exponents(radix: int) -> Exponents {
    Exponents {
        two: if radix == 2 || radix == 6 || radix == 10 || radix == 14 {
            1
        } else if radix == 4 || radix == 12 {
            2
        } else if radix == 8 {
            3
        } else if radix == 16 {
            4
        } else if radix == 32 {
            5
        } else {
            0
        },
        three: if radix == 3 || radix == 6 || radix == 12 || radix == 15 {
            1
        } else if radix == 9 {
            2
        } else {
            0
        },
        five: if radix == 5 || radix == 10 || radix == 15 {
            1
        } else {
            0
        },
        seven: if radix == 7 || radix == 14 {
            1
        } else {
            0
        },
        eleven: if radix == 11 {
            1
        } else {
            0
        },
        thirteen: if radix == 13 {
            1
        } else {
            0
        },
    }
}

/// Whether a kernel exists for the radix.
pub open spec fn has_kernel(radix: int) -> bool {
    2 <= radix <= 16 || radix == 32
}

/// The powers of each prime in a radix multiply to it.
proof fn factors_of_a_radix(radix: int, a: int, b: int, c: int, d: int, e: int, f: int)
    requires
        radix == 2 ==> a == 2 && b == 1 && c == 1 && d == 1 && e == 1 && f == 1,
        radix == 3 ==> a == 1 && b == 3 && c == 1 && d == 1 && e == 1 && f == 1,
        radix == 4 ==> a == 4 && b == 1 && c == 1 && d == 1 && e == 1 && f == 1,
        radix == 5 ==> a == 1 && b == 1 && c == 5 && d == 1 && e == 1 && f == 1,
        radix == 6 ==> a == 2 && b == 3 && c == 1 && d == 1 && e == 1 && f == 1,
        radix == 7 ==> a == 1 && b == 1 && c == 1 && d == 7 && e == 1 && f == 1,
        radix == 8 ==> a == 8 && b == 1 && c == 1 && d == 1 && e == 1 && f == 1,
        radix == 9 ==> a == 1 && b == 9 && c == 1 && d == 1 && e == 1 && f == 1,
        radix == 10 ==> a == 2 && b == 1 && c == 5 && d == 1 && e == 1 && f == 1,
        radix == 11 ==> a == 1 && b == 1 && c == 1 && d == 1 && e == 11 && f == 1,
        radix == 12 ==> a == 4 && b == 3 && c == 1 && d == 1 && e == 1 && f == 1,
        radix == 13 ==> a == 1 && b == 1 && c == 1 && d == 1 && e == 1 && f == 13,
        radix == 14 ==> a == 2 && b == 1 && c == 1 && d == 7 && e == 1 && f == 1,
        radix == 15 ==> a == 1 && b == 3 && c == 5 && d == 1 && e == 1 && f == 1,
        radix == 16 ==> a == 16 && b == 1 && c == 1 && d == 1 && e == 1 && f == 1,
        radix == 32 ==> a == 32 && b == 1 && c == 1 && d == 1 && e == 1 && f == 1,
        has_kernel(radix),
    ensures
        ((a * b) * (c * d)) * (e * f) == radix,
{
    assert(((a * b) * (c * d)) * (e * f) == radix) by (nonlinear_arith)
        requires
            radix == 2 ==> a == 2 && b == 1 && c == 1 && d == 1 && e == 1 && f == 1,
            radix == 3 ==> a == 1 && b == 3 && c == 1 && d == 1 && e == 1 && f == 1,
            radix == 4 ==> a == 4 && b == 1 && c == 1 && d == 1 && e == 1 && f == 1,
            radix == 5 ==> a == 1 && b == 1 && c == 5 && d == 1 && e == 1 && f == 1,
            radix == 6 ==> a == 2 && b == 3 && c == 1 && d == 1 && e == 1 && f == 1,
            radix == 7 ==> a == 1 && b == 1 && c == 1 && d == 7 && e == 1 && f == 1,
            radix == 8 ==> a == 8 && b == 1 && c == 1 && d == 1 && e == 1 && f == 1,
            radix == 9 ==> a == 1 && b == 9 && c == 1 && d == 1 && e == 1 && f == 1,
            radix == 10 ==> a == 2 && b == 1 && c == 5 && d == 1 && e == 1 && f == 1,
            radix == 11 ==> a == 1 && b == 1 && c == 1 && d == 1 && e == 11 && f == 1,
            radix == 12 ==> a == 4 && b == 3 && c == 1 && d == 1 && e == 1 && f == 1,
            radix == 13 ==> a == 1 && b == 1 && c == 1 && d == 1 && e == 1 && f == 13,
            radix == 14 ==> a == 2 && b == 1 && c == 1 && d == 7 && e == 1 && f == 1,
            radix == 15 ==> a == 1 && b == 3 && c == 5 && d == 1 && e == 1 && f == 1,
            radix == 16 ==> a == 16 && b == 1 && c == 1 && d == 1 && e == 1 && f == 1,
            radix == 32 ==> a == 32 && b == 1 && c == 1 && d == 1 && e == 1 && f == 1,
            2 <= radix <= 16 || radix == 32,
    ;
}

proof fn radix_is_its_factors(radix: int)
    requires
        has_kernel(radix),
    ensures
        radix_exponents(radix).value() == radix,
        radix_exponents(radix).nonnegative(),
{
    reveal_with_fuel(pow, 6);
    let e = radix_exponents(radix);
    factors_of_a_radix(
        radix,
        pow(2, e.two as nat),
        pow(3, e.three as nat),
        pow(5, e.five as nat),
        pow(7, e.seven as nat),
        pow(11, e.eleven as nat),
        pow(13, e.thirteen as nat),
    );
}

/// The product of `radix^multiplier` over the radices below `end`.
pub open spec fn radix_product(multipliers: Seq<usize>, end: int) -> int
    decreases end,
{
    if end <= 2 {
        1
    } else {
        radix_product(multipliers, end - 1) * pow(end - 1, multipliers[end - 1] as nat)
    }
}

/// The prime factors of the stages below `end`.
pub open spec fn stage_exponents(multipliers: Seq<usize>, end: int) -> Exponents
    decreases end,
{
    if end <= 2 {
        Exponents { two: 0, three: 0, five: 0, seven: 0, eleven: 0, thirteen: 0 }
    } else {
        stage_exponents(multipliers, end - 1).plus(
            radix_exponents(end - 1).times(multipliers[end - 1] as int),
        )
    }
}

/// Whether only radices that kernels exist for have stages.
pub open spec fn kernels_only(multipliers: Seq<usize>) -> bool {
    forall|radix: int|
        0 <= radix < VKFFT_RADIX_TABLE_LEN && !has_kernel(radix) ==> #[trigger] multipliers[radix]
            == 0
}

proof fn stage_exponents_multiply(multipliers: Seq<usize>, end: int)
    requires
        end <= VKFFT_RADIX_TABLE_LEN,
        kernels_only(multipliers),
    ensures
        stage_exponents(multipliers, end).nonnegative(),
        stage_exponents(multipliers, end).value() == radix_product(multipliers, end),
    decreases end,
{
    if end <= 2 {
        vstd::arithmetic::power::lemma_pow0(2);
        vstd::arithmetic::power::lemma_pow0(3);
        vstd::arithmetic::power::lemma_pow0(5);
        vstd::arithmetic::power::lemma_pow0(7);
        vstd::arithmetic::power::lemma_pow0(11);
        vstd::arithmetic::power::lemma_pow0(13);
    } else {
        let radix = end - 1;
        let count = multipliers[radix] as nat;
        stage_exponents_multiply(multipliers, radix);
        let below = stage_exponents(multipliers, radix);
        let here = radix_exponents(radix).times(count as int);
        if has_kernel(radix) {
            radix_is_its_factors(radix);
            exponents_scale(radix_exponents(radix), count);
            exponents_add(below, here);
        } else {
            assert(multipliers[radix] == 0);
            vstd::arithmetic::power::lemma_pow0(radix);
            assert(here == (Exponents {
                two: 0,
                three: 0,
                five: 0,
                seven: 0,
                eleven: 0,
                thirteen: 0,
            }));
            assert(below.plus(here) == below);
        }
    }
}

/// The prime factors of all stages, written out.
pub open spec fn total_exponents(m: Seq<usize>) -> Exponents {
    Exponents {
        two: m[2] + 2 * m[4] + m[6] + 3 * m[8] + m[10] + 2 * m[12] + m[14] + 4 * m[16] + 5 * m[32],
        three: m[3] + m[6] + 2 * m[9] + m[12] + m[15],
        five: m[5] + m[10] + m[15],
        seven: m[7] + m[14],
        eleven: m[11] as int,
        thirteen: m[13] as int,
    }
}

proof fn total_exponents_are_all(m: Seq<usize>)
    ensures
        stage_exponents(m, VKFFT_RADIX_TABLE_LEN as int) == total_exponents(m),
{
    reveal_with_fuel(stage_exponents, 34);
}

/// What the optimizer keeps: table sizes, kernels only, and registers for every stage.
pub open spec fn tables_usable(t: RadixTables) -> bool {
    &&& t.sized()
    &&& kernels_only(t.multipliers)
    &&& forall|radix: int|
        0 <= radix < VKFFT_RADIX_TABLE_LEN && t.multipliers[radix] > 0
            ==> #[trigger] t.registers[radix] > 0
}

/// Whether two tables have the same stages but for three radices.
spec fn same_but(a: Seq<usize>, b: Seq<usize>, x: int, y: int, z: int) -> bool {
    forall|radix: int|
        0 <= radix < VKFFT_RADIX_TABLE_LEN && radix != x && radix != y && radix != z
            ==> #[trigger] a[radix] == b[radix]
}

proof fn division_bounds(value: int, divisor: int)
    requires
        value >= 0,
        1 <= divisor <= 5,
    ensures
        (value / divisor) * divisor <= value,
        divisor == 1 ==> (value / divisor) * divisor == value / divisor,
        divisor == 2 ==> (value / divisor) * divisor == 2 * (value / divisor),
        divisor == 3 ==> (value / divisor) * divisor == 3 * (value / divisor),
        divisor == 4 ==> (value / divisor) * divisor == 4 * (value / divisor),
        divisor == 5 ==> (value / divisor) * divisor == 5 * (value / divisor),
{
    vstd::arithmetic::div_mod::lemma_fundamental_div_mod(value, divisor);
    let q = value / divisor;
    assert(divisor * q == q * divisor) by (nonlinear_arith);
    assert((divisor == 2 ==> q * divisor == 2 * q) && (divisor == 3 ==> q * divisor == 3 * q) && (
    divisor == 4 ==> q * divisor == 4 * q) && (divisor == 5 ==> q * divisor == 5 * q) && (divisor
        == 1 ==> q * divisor == q)) by (nonlinear_arith);
}

proof fn power_step(t: RadixTables, radix: int, log: usize)
    requires
        t.sized(),
        radix == 4 && log == 2 || radix == 8 && log == 3 || radix == 16 && log == 4 || radix == 32
            && log == 5,
        t.multipliers[radix] == 0,
    ensures
        t.take_power(radix, log).sized(),
        tables_usable(t) ==> tables_usable(t.take_power(radix, log)),
        total_exponents(t.take_power(radix, log).multipliers) == total_exponents(t.multipliers),
        same_but(t.take_power(radix, log).multipliers, t.multipliers, 2, radix, radix),
{
    let next = t.take_power(radix, log);
    assert(tables_usable(t) && t.multipliers[2] > 0 ==> t.registers[2] > 0);
    division_bounds(t.multipliers[2] as int, log as int);
    assert forall|r: int|
        0 <= r < VKFFT_RADIX_TABLE_LEN
            && tables_usable(t) && next.multipliers[r] > 0 implies #[trigger] next.registers[r]
        > 0 by {
        assert(t.multipliers[r] > 0 ==> t.registers[r] > 0);
    }
    assert forall|r: int| 0 <= r < VKFFT_RADIX_TABLE_LEN && tables_usable(t)
        && !has_kernel(r) implies #[trigger] next.multipliers[r] == 0 by {
        assert(t.multipliers[r] == 0);
    }
}

proof fn pair_step(t: RadixTables, radix: int, a: int, per_a: usize, b: int)
    requires
        t.sized(),
        radix == 15 && a == 3 && per_a == 1 && b == 5 || radix == 14 && a == 2 && per_a == 1 && b
            == 7 || radix == 12 && a == 2 && per_a == 2 && b == 3 || radix == 10 && a == 2 && per_a
            == 1 && b == 5 || radix == 6 && a == 2 && per_a == 1 && b == 3,
        t.multipliers[radix] == 0,
    ensures
        t.take_pair(radix, a, per_a, b).sized(),
        tables_usable(t) ==> tables_usable(t.take_pair(radix, a, per_a, b)),
        total_exponents(t.take_pair(radix, a, per_a, b).multipliers) == total_exponents(
            t.multipliers,
        ),
        same_but(t.take_pair(radix, a, per_a, b).multipliers, t.multipliers, a, b, radix),
{
    let next = t.take_pair(radix, a, per_a, b);
    if next != t {
        let count = umin(t.multipliers[b], t.multipliers[a] / per_a);
        division_bounds(t.multipliers[a] as int, per_a as int);
        assert((per_a == 1 ==> per_a * count == count) && (per_a == 2 ==> per_a * count == 2
            * count)) by (nonlinear_arith);
    }
    assert forall|r: int|
        0 <= r < VKFFT_RADIX_TABLE_LEN
            && tables_usable(t) && next.multipliers[r] > 0 implies #[trigger] next.registers[r]
        > 0 by {
        assert(t.multipliers[r] > 0 ==> t.registers[r] > 0);
    }
    assert forall|r: int| 0 <= r < VKFFT_RADIX_TABLE_LEN && tables_usable(t)
        && !has_kernel(r) implies #[trigger] next.multipliers[r] == 0 by {
        assert(t.multipliers[r] == 0);
    }
}

proof fn nine_step(t: RadixTables)
    requires
        t.sized(),
        t.multipliers[9] == 0,
    ensures
        t.take_nine().sized(),
        tables_usable(t) ==> tables_usable(t.take_nine()),
        total_exponents(t.take_nine().multipliers) == total_exponents(t.multipliers),
        same_but(t.take_nine().multipliers, t.multipliers, 3, 9, 9),
{
    let next = t.take_nine();
    assert forall|r: int|
        0 <= r < VKFFT_RADIX_TABLE_LEN
            && tables_usable(t) && next.multipliers[r] > 0 implies #[trigger] next.registers[r]
        > 0 by {
        assert(t.multipliers[r] > 0 ==> t.registers[r] > 0);
    }
    assert forall|r: int| 0 <= r < VKFFT_RADIX_TABLE_LEN && tables_usable(t)
        && !has_kernel(r) implies #[trigger] next.multipliers[r] == 0 by {
        assert(t.multipliers[r] == 0);
    }
}

/// Whether no composite radix has a stage yet.
pub open spec fn primes_only(m: Seq<usize>) -> bool {
    m[4] == 0 && m[6] == 0 && m[8] == 0 && m[9] == 0 && m[10] == 0 && m[12] == 0 && m[14] == 0
        && m[15] == 0 && m[16] == 0 && m[32] == 0
}

/// The radix optimizer regroups prime factors and never loses or adds one, and where every
/// stage has registers, every stage it makes has them too.
pub proof fn grouping_keeps_the_exponents(t: RadixTables)
    requires
        t.sized(),
        primes_only(t.multipliers),
    ensures
        total_exponents(t.grouped().multipliers) == total_exponents(t.multipliers),
        tables_usable(t) ==> tables_usable(t.grouped()),
{
    reveal(RadixTables::grouped);
    let a = t.take_power(32, 5);
    power_step(t, 32, 5);
    assert(a.multipliers[16] == t.multipliers[16]);
    let b = a.take_power(16, 4);
    power_step(a, 16, 4);
    assert(b.multipliers[15] == a.multipliers[15] && a.multipliers[15] == t.multipliers[15]);
    let c = b.take_pair(15, 3, 1, 5);
    pair_step(b, 15, 3, 1, 5);
    assert(c.multipliers[14] == b.multipliers[14] && b.multipliers[14] == a.multipliers[14]
        && a.multipliers[14] == t.multipliers[14]);
    let d = c.take_pair(14, 2, 1, 7);
    pair_step(c, 14, 2, 1, 7);
    assert(d.multipliers[12] == c.multipliers[12] && c.multipliers[12] == b.multipliers[12]
        && b.multipliers[12] == a.multipliers[12] && a.multipliers[12] == t.multipliers[12]);
    let e = d.take_pair(12, 2, 2, 3);
    pair_step(d, 12, 2, 2, 3);
    assert(e.multipliers[10] == d.multipliers[10] && d.multipliers[10] == c.multipliers[10]
        && c.multipliers[10] == b.multipliers[10] && b.multipliers[10] == a.multipliers[10]
        && a.multipliers[10] == t.multipliers[10]);
    let f = e.take_pair(10, 2, 1, 5);
    pair_step(e, 10, 2, 1, 5);
    assert(f.multipliers[9] == e.multipliers[9] && e.multipliers[9] == d.multipliers[9]
        && d.multipliers[9] == c.multipliers[9] && c.multipliers[9] == b.multipliers[9]
        && b.multipliers[9] == a.multipliers[9] && a.multipliers[9] == t.multipliers[9]);
    let g = f.take_nine();
    nine_step(f);
    assert(g.multipliers[8] == f.multipliers[8] && f.multipliers[8] == e.multipliers[8]
        && e.multipliers[8] == d.multipliers[8] && d.multipliers[8] == c.multipliers[8]
        && c.multipliers[8] == b.multipliers[8] && b.multipliers[8] == a.multipliers[8]
        && a.multipliers[8] == t.multipliers[8]);
    let h = g.take_power(8, 3);
    power_step(g, 8, 3);
    assert(h.multipliers[6] == g.multipliers[6] && g.multipliers[6] == f.multipliers[6]
        && f.multipliers[6] == e.multipliers[6] && e.multipliers[6] == d.multipliers[6]
        && d.multipliers[6] == c.multipliers[6] && c.multipliers[6] == b.multipliers[6]
        && b.multipliers[6] == a.multipliers[6] && a.multipliers[6] == t.multipliers[6]);
    let i = h.take_pair(6, 2, 1, 3);
    pair_step(h, 6, 2, 1, 3);
    assert(i.multipliers[4] == h.multipliers[4] && h.multipliers[4] == g.multipliers[4]
        && g.multipliers[4] == f.multipliers[4] && f.multipliers[4] == e.multipliers[4]
        && e.multipliers[4] == d.multipliers[4] && d.multipliers[4] == c.multipliers[4]
        && c.multipliers[4] == b.multipliers[4] && b.multipliers[4] == a.multipliers[4]
        && a.multipliers[4] == t.multipliers[4]);
    power_step(i, 4, 2);
}

/// Tables that can be used stay so: the optimizer keeps their prime factors, and every
/// stage it makes has registers.
pub proof fn grouping_keeps_the_factors(t: RadixTables)
    requires
        tables_usable(t),
        primes_only(t.multipliers),
    ensures
        tables_usable(t.grouped()),
        total_exponents(t.grouped().multipliers) == total_exponents(t.multipliers),
{
    grouping_keeps_the_exponents(t);
}

/// The product of the stages from index `from` on.
pub open spec fn stages_multiply_to(stages: Seq<usize>, from: int) -> int
    decreases stages.len() - from,
{
    if from >= stages.len() {
        1
    } else {
        stages[from] * stages_multiply_to(stages, from + 1)
    }
}

proof fn product_of_suffix(a: Seq<usize>, b: Seq<usize>, from: int)
    requires
        0 <= from <= b.len(),
    ensures
        stages_multiply_to(a + b, a.len() + from) == stages_multiply_to(b, from),
    decreases b.len() - from,
{
    if from < b.len() {
        product_of_suffix(a, b, from + 1);
        assert((a + b)[a.len() + from] == b[from]);
    }
}

proof fn product_of_joined(a: Seq<usize>, b: Seq<usize>, from: int)
    requires
        0 <= from <= a.len(),
    ensures
        stages_multiply_to(a + b, from) == stages_multiply_to(a, from) * stages_multiply_to(b, 0),
    decreases a.len() - from,
{
    if from < a.len() {
        product_of_joined(a, b, from + 1);
        assert((a + b)[from] == a[from]);
        let x = a[from] as int;
        let y = stages_multiply_to(a, from + 1);
        let z = stages_multiply_to(b, 0);
        assert(x * (y * z) == (x * y) * z) by (nonlinear_arith);
    } else {
        product_of_suffix(a, b, 0);
    }
}

proof fn product_of_repeated(radix: usize, count: nat, from: int)
    requires
        0 <= from <= count,
    ensures
        stages_multiply_to(Seq::new(count, |i: int| radix), from) == pow(
            radix as int,
            (count - from) as nat,
        ),
    decreases count - from,
{
    let stages = Seq::new(count, |i: int| radix);
    if from < count {
        product_of_repeated(radix, count, from + 1);
        vstd::arithmetic::power::lemma_pow_adds(radix as int, 1, (count - from - 1) as nat);
        vstd::arithmetic::power::lemma_pow1(radix as int);
    } else {
        vstd::arithmetic::power::lemma_pow0(radix as int);
    }
}

proof fn expanded_stages_multiply(multipliers: Seq<usize>, radix: int)
    requires
        radix < VKFFT_RADIX_TABLE_LEN,
    ensures
        stages_multiply_to(expanded(multipliers, radix), 0) == radix_product(
            multipliers,
            radix + 1,
        ),
    decreases radix,
{
    if radix >= 2 {
        expanded_stages_multiply(multipliers, radix - 1);
        let here = Seq::new(multipliers[radix] as nat, |i: int| radix as usize);
        let below = expanded(multipliers, radix - 1);
        product_of_joined(here, below, 0);
        product_of_repeated(radix as usize, multipliers[radix] as nat, 0);
        let x = pow(radix, multipliers[radix] as nat);
        let y = radix_product(multipliers, radix);
        assert(x * y == y * x) by (nonlinear_arith);
    }
}

/// Every expanded stage is a radix that has stages.
pub open spec fn stages_used(stages: Seq<usize>, multipliers: Seq<usize>) -> bool {
    forall|i: int|
        0 <= i < stages.len() ==> radix_in_table(#[trigger] stages[i])
            && multipliers[stages[i] as int] > 0
}

pub(crate) proof fn expanded_stages_are_used(multipliers: Seq<usize>, radix: int)
    requires
        radix < VKFFT_RADIX_TABLE_LEN,
    ensures
        stages_used(expanded(multipliers, radix), multipliers),
    decreases radix,
{
    if radix >= 2 {
        expanded_stages_are_used(multipliers, radix - 1);
        let here = Seq::new(multipliers[radix] as nat, |i: int| radix as usize);
        let below = expanded(multipliers, radix - 1);
        let all = expanded(multipliers, radix);
        assert(all == here + below);
        assert forall|i: int| 0 <= i < all.len() implies radix_in_table(#[trigger] all[i])
            && multipliers[all[i] as int] > 0 by {
            if i >= here.len() {
                assert(all[i] == below[i - here.len()]);
            }
        }
    }
}

proof fn product_is_positive(stages: Seq<usize>, from: int)
    requires
        0 <= from,
        forall|i: int| 0 <= i < stages.len() ==> #[trigger] stages[i] >= 1,
    ensures
        stages_multiply_to(stages, from) >= 1,
    decreases stages.len() - from,
{
    if from < stages.len() {
        product_is_positive(stages, from + 1);
        let x = stages[from] as int;
        let y = stages_multiply_to(stages, from + 1);
        assert(x * y >= 1) by (nonlinear_arith)
            requires
                x >= 1,
                y >= 1,
        ;
    }
}

/// Replacing one stage scales the product.
proof fn product_of_replaced(stages: Seq<usize>, index: int, value: usize, from: int)
    requires
        0 <= from,
        0 <= index < stages.len(),
    ensures
        from <= index ==> stages_multiply_to(stages.update(index, value), from) * stages[index]
            == stages_multiply_to(stages, from) * value,
        from > index ==> stages_multiply_to(stages.update(index, value), from)
            == stages_multiply_to(stages, from),
    decreases stages.len() - from,
{
    if from < stages.len() {
        product_of_replaced(stages, index, value, from + 1);
        let after = stages_multiply_to(stages.update(index, value), from + 1);
        let before = stages_multiply_to(stages, from + 1);
        let old_value = stages[index] as int;
        let new_value = value as int;
        if from == index {
            assert((new_value * before) * old_value == (old_value * before) * new_value)
                by (nonlinear_arith);
        } else if from < index {
            let x = stages[from] as int;
            assert((x * after) * old_value == (x * before) * new_value) by (nonlinear_arith)
                requires
                    after * old_value == before * new_value,
            ;
        }
    }
}

proof fn found_stage_is_in_range(
    stages: Seq<usize>,
    registers: Seq<usize>,
    wanted: usize,
    from: int,
)
    requires
        0 <= from,
    ensures
        first_stage_with(stages, registers, wanted, from) matches Some(index) ==> from <= index
            < stages.len(),
    decreases stages.len() - from,
{
    if from < stages.len() {
        found_stage_is_in_range(stages, registers, wanted, from + 1);
    }
}

/// Moving a stage to the front keeps the product and the radices.
proof fn reordering_keeps_the_product(
    stages: Seq<usize>,
    registers: Seq<usize>,
    multipliers: Seq<usize>,
    most: usize,
    least: usize,
)
    requires
        stages_used(stages, multipliers),
    ensures
        stages_multiply_to(least_first(stages, registers, most, least), 0) == stages_multiply_to(
            stages,
            0,
        ),
        stages_used(least_first(stages, registers, most, least), multipliers),
        least_first(stages, registers, most, least).len() == stages.len(),
{
    found_stage_is_in_range(stages, registers, least, 0);
    if least != most {
        if let Some(index) = first_stage_with(stages, registers, least, 0) {
            let moved = stages.update(0, stages[index]);
            let all = moved.update(index, stages[0]);
            assert(radix_in_table(stages[index]) && radix_in_table(stages[0]));
            product_of_replaced(stages, 0, stages[index], 0);
            product_of_replaced(moved, index, stages[0], 0);
            if index == 0 {
                assert(all =~= stages);
            } else {
                let p = stages_multiply_to(stages, 0);
                let q = stages_multiply_to(moved, 0);
                let r = stages_multiply_to(all, 0);
                let x = stages[0] as int;
                let y = stages[index] as int;
                assert(moved[index] == stages[index]);
                assert(r == p) by (nonlinear_arith)
                    requires
                        q * x == p * y,
                        r * y == q * x,
                        y >= 2,
                ;
            }
        }
    }
}

proof fn stage_product_succeeds(
    stages: Seq<usize>,
    registers: Seq<usize>,
    multipliers: Seq<usize>,
    from: int,
    product: usize,
)
    requires
        0 <= from,
        stages_used(stages, multipliers),
        forall|radix: int|
            0 <= radix < VKFFT_RADIX_TABLE_LEN && multipliers[radix] > 0
                ==> #[trigger] registers[radix] > 0,
        product * stages_multiply_to(stages, from) <= usize::MAX,
    ensures
        stage_product(stages, registers, from, product) == Ok::<usize, VkFftError>(
            (product * stages_multiply_to(stages, from)) as usize,
        ),
    decreases stages.len() - from,
{
    if from < stages.len() {
        let radix = stages[from];
        assert(radix_in_table(radix) && multipliers[radix as int] > 0);
        assert(registers[radix as int] > 0);
        assert forall|i: int| 0 <= i < stages.len() implies #[trigger] stages[i] >= 1 by {
            assert(radix_in_table(stages[i]));
        }
        product_is_positive(stages, from + 1);
        let rest = stages_multiply_to(stages, from + 1);
        let p = product as int;
        let r = radix as int;
        assert(p * (r * rest) == (p * r) * rest && p * r <= (p * r) * rest) by (nonlinear_arith)
            requires
                p >= 0,
                r >= 0,
                rest >= 1,
        ;
        stage_product_succeeds(
            stages,
            registers,
            multipliers,
            from + 1,
            (product * radix) as usize,
        );
    } else {
        assert(product * 1 == product);
    }
}

/// The product of `radix^multiplier` from `radix` up to the end of the table.
spec fn upper_product(multipliers: Seq<usize>, radix: int) -> int
    decreases VKFFT_RADIX_TABLE_LEN - radix,
{
    if radix >= VKFFT_RADIX_TABLE_LEN {
        1
    } else {
        pow(radix, multipliers[radix] as nat) * upper_product(multipliers, radix + 1)
    }
}

proof fn upper_product_completes(multipliers: Seq<usize>, radix: int)
    requires
        2 <= radix <= VKFFT_RADIX_TABLE_LEN,
    ensures
        radix_product(multipliers, radix) * upper_product(multipliers, radix) == radix_product(
            multipliers,
            VKFFT_RADIX_TABLE_LEN as int,
        ),
    decreases VKFFT_RADIX_TABLE_LEN - radix,
{
    if radix < VKFFT_RADIX_TABLE_LEN {
        upper_product_completes(multipliers, radix + 1);
        let x = radix_product(multipliers, radix);
        let y = pow(radix, multipliers[radix] as nat);
        let z = upper_product(multipliers, radix + 1);
        assert(x * (y * z) == (x * y) * z) by (nonlinear_arith);
    } else {
        assert(radix_product(multipliers, radix) * 1 == radix_product(multipliers, radix));
    }
}

proof fn upper_product_is_positive(multipliers: Seq<usize>, radix: int)
    requires
        2 <= radix,
    ensures
        upper_product(multipliers, radix) >= 1,
    decreases VKFFT_RADIX_TABLE_LEN - radix,
{
    if radix < VKFFT_RADIX_TABLE_LEN {
        upper_product_is_positive(multipliers, radix + 1);
        vstd::arithmetic::power::lemma_pow_positive(radix, multipliers[radix] as nat);
        let x = pow(radix, multipliers[radix] as nat);
        let y = upper_product(multipliers, radix + 1);
        assert(x * y >= 1) by (nonlinear_arith)
            requires
                x >= 1,
                y >= 1,
        ;
    }
}

proof fn multiplier_product_succeeds(multipliers: Seq<usize>, radix: int, product: usize)
    requires
        2 <= radix,
        product >= 1,
        forall|r: int|
            2 <= r < VKFFT_RADIX_TABLE_LEN ==> #[trigger] multipliers[r] <= u32::MAX,
        product * upper_product(multipliers, radix) <= usize::MAX,
    ensures
        multiplier_product(multipliers, radix, product) == Ok::<usize, VkFftError>(
            (product * upper_product(multipliers, radix)) as usize,
        ),
    decreases VKFFT_RADIX_TABLE_LEN - radix,
{
    if radix < VKFFT_RADIX_TABLE_LEN {
        let count = multipliers[radix];
        let power = pow(radix, count as nat);
        let rest = upper_product(multipliers, radix + 1);
        upper_product_is_positive(multipliers, radix + 1);
        vstd::arithmetic::power::lemma_pow_positive(radix, count as nat);
        let p = product as int;
        assert(p * (power * rest) == (p * power) * rest && p * power <= (p * power) * rest && power
            <= p * power && p * power >= 1) by (nonlinear_arith)
            requires
                p >= 1,
                power >= 1,
                rest >= 1,
        ;
        if count == 0 {
            vstd::arithmetic::power::lemma_pow0(radix);
            assert(p * power == p);
            multiplier_product_succeeds(multipliers, radix + 1, product);
        } else {
            multiplier_product_succeeds(multipliers, radix + 1, (product * power) as usize);
        }
    } else {
        assert(product * 1 == product);
    }
}

proof fn extrema_are_positive(
    stages: Seq<usize>,
    registers: Seq<usize>,
    multipliers: Seq<usize>,
    from: int,
    most: usize,
    least: usize,
)
    requires
        0 <= from,
        stages_used(stages, multipliers),
        forall|radix: int|
            0 <= radix < VKFFT_RADIX_TABLE_LEN && multipliers[radix] > 0
                ==> #[trigger] registers[radix] > 0,
        least > 0,
        most > 0 ==> least <= most,
        from < stages.len() || most > 0,
    ensures
        ({
            let (largest, smallest) = extrema_from(stages, registers, from, most, least);
            0 < smallest <= largest
        }),
    decreases stages.len() - from,
{
    if from < stages.len() {
        assert(radix_in_table(stages[from]) && multipliers[stages[from] as int] > 0);
        let value = registers[stages[from] as int];
        assert(value > 0);
        extrema_are_positive(
            stages,
            registers,
            multipliers,
            from + 1,
            umax(most, value),
            umin(least, value),
        );
    }
}

proof fn demand_is_positive(multipliers: Seq<usize>, end: int)
    ensures
        odd_radix_demand(multipliers, end).0 >= 1,
        odd_radix_demand(multipliers, end).1 >= 1,
    decreases end,
{
    if end > 2 {
        demand_is_positive(multipliers, end - 1);
    }
}

proof fn exponents_bound_the_multipliers(m: Seq<usize>, bound: int)
    requires
        m.len() == VKFFT_RADIX_TABLE_LEN,
        kernels_only(m),
        total_exponents(m).two <= bound,
        total_exponents(m).three <= bound,
        total_exponents(m).five <= bound,
        total_exponents(m).seven <= bound,
        total_exponents(m).eleven <= bound,
        total_exponents(m).thirteen <= bound,
        bound >= 0,
    ensures
        forall|r: int| 2 <= r < VKFFT_RADIX_TABLE_LEN ==> #[trigger] m[r] <= bound,
{
    assert forall|r: int| 2 <= r < VKFFT_RADIX_TABLE_LEN implies #[trigger] m[r] <= bound by {
        if !has_kernel(r) {
            assert(m[r] == 0);
        } else if r == 2 || r == 4 || r == 6 || r == 8 {
        } else if r == 3 || r == 5 || r == 7 || r == 9 {
        } else if r == 10 || r == 11 || r == 12 || r == 13 {
        }
    }
}

/// Tables whose primes multiply to the length, with registers for each, give a schedule.
pub proof fn usable_tables_give_a_schedule(
    fft_len: usize,
    rhs_transform_count: usize,
    tables: RadixTables,
    reorder: bool,
    empty: &'static str,
)
    requires
        fft_len >= 2,
        rhs_transform_count > 0,
        tables_usable(tables),
        primes_only(tables.multipliers),
        total_exponents(tables.multipliers).value() == fft_len,
        forall|r: int| 2 <= r < VKFFT_RADIX_TABLE_LEN ==> #[trigger] tables.multipliers[r] < 64,
    ensures
        mixed_radix_schedule(fft_len, rhs_transform_count, tables, reorder, empty) is Ok,
{
    reveal(split_for_boost);
    reveal(RadixRegisterModel::checked);
    grouping_keeps_the_factors(tables);
    let best = optimized(tables, 1);
    let m = best.multipliers;
    assert(best.multipliers == tables.grouped().multipliers);
    let len = VKFFT_RADIX_TABLE_LEN as int;
    stage_exponents_multiply(m, len);
    total_exponents_are_all(m);
    assert(radix_product(m, len) == fft_len);
    exponents_bound_the_multipliers(m, 1000);
    let stages = expanded(m, len - 1);
    expanded_stages_multiply(m, len - 1);
    expanded_stages_are_used(m, len - 1);
    let (most, least) = stage_extrema(stages, best.registers);
    assert(stages.len() > 0);
    extrema_are_positive(stages, best.registers, m, 0, 0, usize::MAX);
    demand_is_positive(m, len);
    reordering_keeps_the_product(stages, best.registers, m, most, least);
    let ordered = if reorder {
        least_first(stages, best.registers, most, least)
    } else {
        stages
    };
    assert(1 * stages_multiply_to(ordered, 0) == fft_len);
    stage_product_succeeds(ordered, best.registers, m, 0, 1);
    upper_product_completes(m, 2);
    assert(radix_product(m, 2) == 1);
    assert(1 * upper_product(m, 2) == fft_len);
    multiplier_product_succeeds(m, 2, 1);
    assert(crate::arith::is_power_of_two(1)) by {
        reveal_with_fuel(crate::arith::is_pow2, 2);
    }
}

/// The exponents of a factored length.
pub open spec fn exponents_of(e: SmallExponents) -> Exponents {
    Exponents {
        two: e.two as int,
        three: e.three as int,
        five: e.five as int,
        seven: e.seven as int,
        eleven: e.eleven as int,
        thirteen: e.thirteen as int,
    }
}

/// Whether an exponent of each prime is below 64.
pub open spec fn exponents_small(e: SmallExponents) -> bool {
    e.two < 64 && e.three < 64 && e.five < 64 && e.seven < 64 && e.eleven < 64 && e.thirteen < 64
}

/// A length that small primes factor completely is the product of their powers.
pub proof fn small_exponents_multiply(fft_len: usize)
    requires
        fft_len > 0,
        small_rest(fft_len as int) == 1,
    ensures
        exponents_of(small_exponents(fft_len as int)).value() == fft_len,
        exponents_small(small_exponents(fft_len as int)),
{
    reveal(small_rest);
    reveal(small_exponents);
    let n = fft_len as int;
    let a = stripped(n, 2);
    stripped_times_power(n, 2);
    crate::arith::multiplicity_is_small(fft_len, 2);
    let b = stripped(a, 3);
    stripped_times_power(a, 3);
    crate::arith::multiplicity_is_small(a as usize, 3);
    let c = stripped(b, 5);
    stripped_times_power(b, 5);
    crate::arith::multiplicity_is_small(b as usize, 5);
    let d = stripped(c, 7);
    stripped_times_power(c, 7);
    crate::arith::multiplicity_is_small(c as usize, 7);
    let f = stripped(d, 11);
    stripped_times_power(d, 11);
    crate::arith::multiplicity_is_small(d as usize, 11);
    stripped_times_power(f, 13);
    crate::arith::multiplicity_is_small(f as usize, 13);
    let p2 = pow(2, multiplicity(n, 2));
    let p3 = pow(3, multiplicity(a, 3));
    let p5 = pow(5, multiplicity(b, 5));
    let p7 = pow(7, multiplicity(c, 7));
    let p11 = pow(11, multiplicity(d, 11));
    let p13 = pow(13, multiplicity(f, 13));
    assert(n == ((p2 * p3) * (p5 * p7)) * (p11 * p13)) by (nonlinear_arith)
        requires
            n == a * p2,
            a == b * p3,
            b == c * p5,
            c == d * p7,
            d == f * p11,
            f == 1 * p13,
    ;
}

/// The tables of a factored length are usable where each of its primes has registers.
pub(crate) proof fn prime_tables_are_usable(
    e: SmallExponents,
    two: usize,
    three: usize,
    five: usize,
    seven: usize,
    eleven: usize,
    thirteen: usize,
)
    requires
        exponents_small(e),
        e.two > 0 ==> two > 0,
        e.three > 0 ==> three > 0,
        e.five > 0 ==> five > 0,
        e.seven > 0 ==> seven > 0,
        e.eleven > 0 ==> eleven > 0,
        e.thirteen > 0 ==> thirteen > 0,
    ensures
        ({
            let multipliers = prime_table(e.two, e.three, e.five, e.seven, e.eleven, e.thirteen);
            let registers = with_composites(
                prime_table(two, three, five, seven, eleven, thirteen),
            );
            &&& tables_usable(RadixTables { registers, multipliers })
            &&& primes_only(multipliers)
            &&& total_exponents(multipliers) == exponents_of(e)
            &&& forall|r: int|
                2 <= r < VKFFT_RADIX_TABLE_LEN ==> #[trigger] multipliers[r] < 64
        }),
{
    reveal(prime_table);
    reveal(with_composites);
    let multipliers = prime_table(e.two, e.three, e.five, e.seven, e.eleven, e.thirteen);
    let registers = with_composites(prime_table(two, three, five, seven, eleven, thirteen));
    assert forall|radix: int|
        0 <= radix < VKFFT_RADIX_TABLE_LEN
            && multipliers[radix] > 0 implies #[trigger] registers[radix]
        > 0 by {
        assert(radix == 2 || radix == 3 || radix == 5 || radix == 7 || radix == 11 || radix == 13);
    }
}

/// Every length of at least 3 over the primes 2 to 13 with an odd prime factor has a
/// register schedule, and no other length has one.
pub proof fn every_smooth_length_has_a_schedule(fft_len: usize, rhs_transform_count: usize)
    requires
        fft_len >= 3,
        rhs_transform_count > 0,
    ensures
        small_mixed_schedule(fft_len, rhs_transform_count) is Ok <==> {
            let e = small_exponents(fft_len as int);
            &&& small_rest(fft_len as int) == 1
            &&& e.three > 0 || e.five > 0 || e.seven > 0 || e.eleven > 0 || e.thirteen > 0
        },
{
    if small_rest(fft_len as int) == 1 {
        small_exponents_multiply(fft_len);
        let e = small_exponents(fft_len as int);
        let odd = e.five > 0 || e.seven > 0 || e.eleven > 0 || e.thirteen > 0;
        if e.two > 0 && e.three > 0 && !odd {
            two_three_length_has_a_schedule(fft_len, rhs_transform_count);
        } else if e.three > 0 || odd {
            let r = primitive_registers(e);
            prime_tables_are_usable(e, r.two, r.three, r.five, r.seven, r.eleven, r.thirteen);
            usable_tables_give_a_schedule(
                fft_len,
                rhs_transform_count,
                RadixTables {
                    registers: with_composites(
                        prime_table(r.two, r.three, r.five, r.seven, r.eleven, r.thirteen),
                    ),
                    multipliers: prime_table(
                        e.two,
                        e.three,
                        e.five,
                        e.seven,
                        e.eleven,
                        e.thirteen,
                    ),
                },
                true,
                "mixed-radix scheduler produced no executable stages",
            );
        }
    }
}

/// Every length `2^a * 3^b` with both exponents positive has a register schedule.
pub proof fn two_three_length_has_a_schedule(fft_len: usize, rhs_transform_count: usize)
    requires
        fft_len >= 3,
        rhs_transform_count > 0,
        small_rest(fft_len as int) == 1,
        small_exponents(fft_len as int).two > 0,
        small_exponents(fft_len as int).three > 0,
        small_exponents(fft_len as int).five == 0,
        small_exponents(fft_len as int).seven == 0,
        small_exponents(fft_len as int).eleven == 0,
        small_exponents(fft_len as int).thirteen == 0,
    ensures
        two_three_schedule(fft_len, rhs_transform_count) is Ok,
{
    small_exponents_multiply(fft_len);
    let e = small_exponents(fft_len as int);
    reveal(small_rest);
    reveal(small_exponents);
    let n = fft_len as int;
    let after2 = stripped(n, 2);
    let after3 = stripped(after2, 3);
    stripped_times_power(n, 2);
    stripped_times_power(after2, 3);
    stripped_times_power(after3, 5);
    let after5 = stripped(after3, 5);
    stripped_times_power(after5, 7);
    let after7 = stripped(after5, 7);
    stripped_times_power(after7, 11);
    let after11 = stripped(after7, 11);
    stripped_times_power(after11, 13);
    vstd::arithmetic::power::lemma_pow0(5);
    vstd::arithmetic::power::lemma_pow0(7);
    vstd::arithmetic::power::lemma_pow0(11);
    vstd::arithmetic::power::lemma_pow0(13);
    crate::arith::multiplicity_is_small(after3 as usize, 5);
    crate::arith::multiplicity_is_small(after5 as usize, 7);
    crate::arith::multiplicity_is_small(after7 as usize, 11);
    crate::arith::multiplicity_is_small(after11 as usize, 13);
    assert(after3 == 1) by (nonlinear_arith)
        requires
            after3 == after5 * 1,
            after5 == after7 * 1,
            after7 == after11 * 1,
            after11 == 1 * 1,
    ;
    assert(fft_len >= 6) by {
        crate::arith::multiplicity_is_small(fft_len, 2);
        crate::arith::multiplicity_is_small(after2 as usize, 3);
        vstd::arithmetic::power::lemma_pow_increases(2, 1, multiplicity(n, 2));
        vstd::arithmetic::power::lemma_pow_increases(3, 1, multiplicity(after2, 3));
        vstd::arithmetic::power::lemma_pow1(2);
        vstd::arithmetic::power::lemma_pow1(3);
        let x = pow(2, multiplicity(n, 2));
        let y = pow(3, multiplicity(after2, 3));
        assert(n >= 6) by (nonlinear_arith)
            requires
                n == after2 * x,
                after2 == 1 * y,
                x >= 2,
                y >= 3,
        ;
    }
    let primitive: usize = if e.two == e.three || e.two == 1 {
        6
    } else {
        12
    };
    prime_tables_are_usable(e, primitive, primitive, 0, 0, 0, 0);
    usable_tables_give_a_schedule(
        fft_len,
        rhs_transform_count,
        RadixTables {
            registers: with_composites(prime_table(primitive, primitive, 0, 0, 0, 0)),
            multipliers: prime_table(e.two, e.three, 0, 0, 0, 0),
        },
        false,
        "2x3 radix scheduler produced no executable stages",
    );
}

/// What a schedule that checks promises: its stages multiply to the transform length, and
/// every stage has registers.
pub proof fn checked_stages_multiply_to_the_length(model: RadixRegisterModel)
    requires
        model.checked() is Ok,
    ensures
        stages_multiply_to(model.stage_radices, 0) == model.fft_len,
        forall|i: int|
            0 <= i < model.stage_radices.len() ==> radix_in_table(
                #[trigger] model.stage_radices[i],
            ) && model.registers_per_thread_per_radix[model.stage_radices[i] as int] > 0,
{
    reveal(RadixRegisterModel::checked);
    crate::registers::checked_stages_are_in_table(model);
    checked_product_is_exact(
        model.stage_radices,
        model.registers_per_thread_per_radix,
        0,
        1,
    );
    assert(1 * stages_multiply_to(model.stage_radices, 0) == stages_multiply_to(
        model.stage_radices,
        0,
    ));
}

proof fn checked_product_is_exact(
    stages: Seq<usize>,
    registers: Seq<usize>,
    from: int,
    product: usize,
)
    requires
        0 <= from,
        stage_product(stages, registers, from, product) is Ok,
    ensures
        stage_product(stages, registers, from, product)->Ok_0 == product * stages_multiply_to(
            stages,
            from,
        ),
    decreases stages.len() - from,
{
    if from < stages.len() {
        let next = (product * stages[from]) as usize;
        checked_product_is_exact(stages, registers, from + 1, next);
        let p = product as int;
        let r = stages[from] as int;
        let rest = stages_multiply_to(stages, from + 1);
        assert((p * r) * rest == p * (r * rest)) by (nonlinear_arith);
    } else {
        assert(product * 1 == product);
    }
}

/// Tables of a power of two: stages of 2, 4 and 8 only, and registers for whatever a stage
/// of 8 or 4 could be split into.
pub open spec fn power_tables(t: RadixTables, exponent: int) -> bool {
    &&& tables_usable(t)
    &&& total_exponents(t.multipliers) == (Exponents {
        two: exponent,
        three: 0,
        five: 0,
        seven: 0,
        eleven: 0,
        thirteen: 0,
    })
    &&& t.multipliers[16] == 0
    &&& t.multipliers[32] == 0
    &&& t.registers[2] > 0
    &&& t.multipliers[8] > 0 ==> t.registers[4] > 0
}

/// The tables of a power of two before grouping.
pub open spec fn power_start(exponent: usize, two: usize) -> RadixTables {
    RadixTables {
        registers: with_composites(prime_table(two, 0, 0, 0, 0, 0)),
        multipliers: prime_table(exponent, 0, 0, 0, 0, 0),
    }
}

/// Only stages of 8 and 4 are grouped.
pub(crate) proof fn power_start_groups(exponent: usize, two: usize)
    requires
        two == 2 || two == 4 || two == 8,
    ensures
        power_start(exponent, two).grouped() == power_start(exponent, two).take_power(
            8,
            3,
        ).take_power(4, 2),
{
    let t = power_start(exponent, two);
    reveal(RadixTables::grouped);
    reveal(prime_table);
    reveal(with_composites);
    assert(t.take_power(32, 5) == t);
    assert(t.take_power(16, 4) == t);
    assert(t.take_pair(15, 3, 1, 5) == t);
    assert(t.take_pair(14, 2, 1, 7) == t);
    assert(t.take_pair(12, 2, 2, 3) == t);
    assert(t.take_pair(10, 2, 1, 5) == t);
    assert(t.take_nine() == t);
    let a = t.take_power(8, 3);
    assert(a.multipliers[3] == 0);
    assert(a.take_pair(6, 2, 1, 3) == a);
}

/// Grouping the stages of a power of two gives stages of 2, 4 and 8.
pub(crate) proof fn power_grouping(exponent: usize, two: usize)
    requires
        1 <= exponent < 64,
        two == 2 || two == 4 || two == 8,
    ensures
        power_tables(power_start(exponent, two).grouped(), exponent as int),
{
    let e = SmallExponents {
        two: exponent,
        three: 0,
        five: 0,
        seven: 0,
        eleven: 0,
        thirteen: 0,
    };
    prime_tables_are_usable(e, two, 0, 0, 0, 0, 0);
    let t = power_start(exponent, two);
    grouping_keeps_the_factors(t);
    power_start_groups(exponent, two);
    reveal(prime_table);
    reveal(with_composites);
}

/// Splitting a stage for a register boost keeps the factors, and every part has registers.
pub(crate) proof fn splitting_keeps_the_factors(
    t: RadixTables,
    exponent: int,
    register_boost: usize,
)
    requires
        power_tables(t, exponent),
        exponent < 64,
    ensures
        power_tables(
            (RadixTables {
                registers: t.registers,
                multipliers: split_for_boost(t.multipliers, register_boost),
            }),
            exponent,
        ),
{
    reveal(split_for_boost);
    let m = t.multipliers;
    let next = split_for_boost(m, register_boost);
    let after = RadixTables { registers: t.registers, multipliers: next };
    assert(m[2] < 64 && m[4] < 64 && m[8] < 64);
    assert(m[8] > 0 ==> t.registers[8] > 0);
    assert(m[4] > 0 ==> t.registers[4] > 0);
    assert forall|r: int|
        0 <= r < VKFFT_RADIX_TABLE_LEN && next[r] > 0 implies #[trigger] after.registers[r] > 0 by {
        assert(m[r] > 0 ==> t.registers[r] > 0);
    }
    assert forall|r: int| 0 <= r < VKFFT_RADIX_TABLE_LEN
        && !has_kernel(r) implies #[trigger] after.multipliers[r] == 0 by {
        assert(m[r] == 0);
    }
}

pub(crate) proof fn largest_used_has_stages(multipliers: Seq<usize>, radix: int)
    requires
        radix < VKFFT_RADIX_TABLE_LEN,
    ensures
        largest_used(multipliers, radix) matches Some(found) ==> 2 <= found <= radix
            && multipliers[found as int] > 0,
        largest_used(multipliers, radix) is None ==> forall|r: int|
            2 <= r <= radix ==> #[trigger] multipliers[r] == 0,
    decreases radix,
{
    if radix >= 2 && multipliers[radix] == 0 {
        largest_used_has_stages(multipliers, radix - 1);
        if largest_used(multipliers, radix) is None {
            assert forall|r: int| 2 <= r <= radix implies #[trigger] multipliers[r] == 0 by {
                if r < radix {
                    assert(multipliers[r] == 0);
                }
            }
        }
    }
}

/// Taking one stage out divides the product by its radix.
proof fn removed_stage_divides(multipliers: Seq<usize>, radix: int, end: int)
    requires
        2 <= radix < multipliers.len(),
        end <= multipliers.len(),
        multipliers[radix] > 0,
    ensures
        end > radix ==> radix_product(shifted(multipliers, radix, -1), end) * radix
            == radix_product(multipliers, end),
        end <= radix ==> radix_product(shifted(multipliers, radix, -1), end) == radix_product(
            multipliers,
            end,
        ),
    decreases end,
{
    let less = shifted(multipliers, radix, -1);
    if end > 2 {
        removed_stage_divides(multipliers, radix, end - 1);
        if end - 1 == radix {
            let count = multipliers[radix] as nat;
            vstd::arithmetic::power::lemma_pow_adds(radix, (count - 1) as nat, 1);
            vstd::arithmetic::power::lemma_pow1(radix);
            let x = radix_product(multipliers, radix);
            let y = pow(radix, (count - 1) as nat);
            assert((x * y) * radix == x * (y * radix)) by (nonlinear_arith);
        } else if end - 1 > radix {
            assert(less[end - 1] == multipliers[end - 1]);
            let x = radix_product(less, end - 1);
            let y = pow(end - 1, multipliers[end - 1] as nat);
            assert((x * y) * radix == (x * radix) * y) by (nonlinear_arith);
        } else {
            assert(less[end - 1] == multipliers[end - 1]);
        }
    }
}

pub(crate) proof fn power_exponent(fft_len: usize)
    requires
        crate::arith::is_pow2(fft_len as int),
        fft_len >= 2,
    ensures
        1 <= multiplicity(fft_len as int, 2) < 64,
        pow(2, multiplicity(fft_len as int, 2)) == fft_len,
{
    crate::arith::multiplicity_is_small(fft_len, 2);
    power_is_stripped(fft_len as int);
    stripped_times_power(fft_len as int, 2);
    let p = pow(2, multiplicity(fft_len as int, 2));
    assert(1 * p == p);
    vstd::arithmetic::power::lemma_pow0(2);
}

proof fn power_is_stripped(value: int)
    requires
        crate::arith::is_pow2(value),
    ensures
        stripped(value, 2) == 1,
    decreases value,
{
    if value > 1 {
        power_is_stripped(value / 2);
    }
}

/// Every power of two has a register schedule under every register boost, as long as the
/// estimate of active threads fits.
pub proof fn every_power_of_two_has_a_schedule(
    fft_len: usize,
    rhs_transform_count: usize,
    register_boost: usize,
)
    requires
        crate::arith::is_power_of_two(fft_len),
        rhs_transform_count > 0,
        crate::arith::is_power_of_two(register_boost),
        register_boost < VKFFT_RADIX_TABLE_LEN,
        umax(rhs_transform_count / 64, 1) * fft_len <= usize::MAX,
    ensures
        power_of_two_schedule(fft_len, rhs_transform_count, register_boost) is Ok,
{
    reveal(RadixRegisterModel::checked);
    let len = VKFFT_RADIX_TABLE_LEN as int;
    if fft_len == 1 {
        let none = zero_table();
        assert forall|radix: int| 2 <= radix <= len implies #[trigger] upper_product(none, radix)
            == 1 by {
            empty_upper_product(radix);
        }
        multiplier_product_succeeds(none, 2, 1);
    } else {
        power_exponent(fft_len);
        let exponent = multiplicity(fft_len as int, 2) as usize;
        let two = small_power_of_two(umin(exponent, fewest_stage_log(exponent)));
        power_grouping(exponent, two);
        let start = RadixTables {
            registers: with_composites(prime_table(two, 0, 0, 0, 0, 0)),
            multipliers: prime_table(exponent, 0, 0, 0, 0, 0),
        };
        splitting_keeps_the_factors(start.grouped(), exponent as int, register_boost);
        let best = optimized(start, register_boost);
        let m = best.multipliers;
        stage_exponents_multiply(m, len);
        total_exponents_are_all(m);
        vstd::arithmetic::power::lemma_pow0(3);
        vstd::arithmetic::power::lemma_pow0(5);
        vstd::arithmetic::power::lemma_pow0(7);
        vstd::arithmetic::power::lemma_pow0(11);
        vstd::arithmetic::power::lemma_pow0(13);
        let p = pow(2, exponent as nat);
        assert(((p * 1) * (1 * 1)) * (1 * 1) == p) by (nonlinear_arith);
        assert(radix_product(m, len) == fft_len);
        exponents_bound_the_multipliers(m, 1000);
        demand_is_positive(m, len);
        largest_used_has_stages(m, len - 1);
        if register_boost <= 1 {
            unboosted_power_checks(fft_len, rhs_transform_count, best);
        } else {
            let radix = boost_stage(m, register_boost)->Some_0;
            assert(m[2] > 0 || m[4] > 0 || m[8] > 0);
            boosted_power_checks(fft_len, rhs_transform_count, register_boost, best, radix);
        }
    }
}

proof fn empty_upper_product(radix: int)
    requires
        2 <= radix <= VKFFT_RADIX_TABLE_LEN,
    ensures
        upper_product(zero_table(), radix) == 1,
    decreases VKFFT_RADIX_TABLE_LEN - radix,
{
    if radix < VKFFT_RADIX_TABLE_LEN {
        empty_upper_product(radix + 1);
        vstd::arithmetic::power::lemma_pow0(radix);
    }
}

proof fn unboosted_power_checks(fft_len: usize, rhs_transform_count: usize, best: RadixTables)
    requires
        fft_len >= 2,
        rhs_transform_count > 0,
        tables_usable(best),
        radix_product(best.multipliers, VKFFT_RADIX_TABLE_LEN as int) == fft_len,
        forall|r: int|
            2 <= r < VKFFT_RADIX_TABLE_LEN ==> #[trigger] best.multipliers[r] <= 1000,
    ensures
        ({
            let stages = expanded(best.multipliers, VKFFT_RADIX_TABLE_LEN - 1);
            let (most, least) = stage_extrema(stages, best.registers);
            &&& stages.len() > 0
            &&& 0 < least <= most
            &&& stage_product(
                least_first(stages, best.registers, most, least),
                best.registers,
                0,
                1,
            ) == Ok::<usize, VkFftError>(fft_len)
            &&& multiplier_product(best.multipliers, 2, 1) == Ok::<usize, VkFftError>(fft_len)
        }),
{
    let len = VKFFT_RADIX_TABLE_LEN as int;
    let m = best.multipliers;
    let stages = expanded(m, len - 1);
    expanded_stages_multiply(m, len - 1);
    expanded_stages_are_used(m, len - 1);
    let (most, least) = stage_extrema(stages, best.registers);
    assert(stages.len() > 0);
    extrema_are_positive(stages, best.registers, m, 0, 0, usize::MAX);
    reordering_keeps_the_product(stages, best.registers, m, most, least);
    let ordered = least_first(stages, best.registers, most, least);
    assert(1 * stages_multiply_to(ordered, 0) == fft_len);
    stage_product_succeeds(ordered, best.registers, m, 0, 1);
    upper_product_completes(m, 2);
    assert(radix_product(m, 2) == 1);
    assert(1 * upper_product(m, 2) == fft_len);
    multiplier_product_succeeds(m, 2, 1);
}

proof fn boosted_power_checks(
    fft_len: usize,
    rhs_transform_count: usize,
    register_boost: usize,
    best: RadixTables,
    radix: usize,
)
    requires
        fft_len >= 2,
        tables_usable(best),
        radix_in_table(radix),
        best.multipliers[radix as int] > 0,
        radix_product(best.multipliers, VKFFT_RADIX_TABLE_LEN as int) == fft_len,
        forall|r: int|
            2 <= r < VKFFT_RADIX_TABLE_LEN ==> #[trigger] best.multipliers[r] <= 1000,
    ensures
        ({
            let multipliers = shifted(best.multipliers, radix as int, -1);
            let stages = expanded(multipliers, VKFFT_RADIX_TABLE_LEN - 1);
            let (most, least) = stage_extrema(stages, best.registers);
            &&& stages.len() > 0 ==> 0 < least <= most
            &&& stage_product(stages.push(radix), best.registers, 0, 1) == Ok::<
                usize,
                VkFftError,
            >(fft_len)
            &&& multiplier_product(multipliers, 2, 1) matches Ok(covered) && covered * radix
                == fft_len
        }),
{
    let len = VKFFT_RADIX_TABLE_LEN as int;
    let m = best.multipliers;
    let less = shifted(m, radix as int, -1);
    removed_stage_divides(m, radix as int, len);
    let stages = expanded(less, len - 1);
    expanded_stages_multiply(less, len - 1);
    expanded_stages_are_used(less, len - 1);
    assert forall|r: int| 0 <= r < len && less[r] > 0 implies #[trigger] best.registers[r] > 0 by {
        assert(m[r] > 0);
    }
    if stages.len() > 0 {
        extrema_are_positive(stages, best.registers, less, 0, 0, usize::MAX);
    }
    let all = stages.push(radix);
    let last = seq![radix];
    assert(all =~= stages + last);
    product_of_joined(stages, last, 0);
    assert(stages_multiply_to(last, 1) == 1);
    assert(stages_multiply_to(last, 0) == last[0] * stages_multiply_to(last, 1));
    assert(last[0] * 1 == radix);
    assert forall|i: int| 0 <= i < all.len() implies radix_in_table(#[trigger] all[i])
        && m[all[i] as int] > 0 by {
        if i < stages.len() {
            assert(all[i] == stages[i]);
            assert(less[stages[i] as int] > 0);
        }
    }
    assert(1 * stages_multiply_to(all, 0) == fft_len);
    stage_product_succeeds(all, best.registers, m, 0, 1);
    upper_product_completes(less, 2);
    assert(radix_product(less, 2) == 1);
    let covered = upper_product(less, 2);
    upper_product_is_positive(less, 2);
    assert(1 * covered == covered);
    assert(covered <= fft_len) by (nonlinear_arith)
        requires
            covered * radix == fft_len,
            radix >= 1,
            fft_len >= 0,
    ;
    assert forall|r: int| 2 <= r < len implies #[trigger] less[r] <= u32::MAX by {
        assert(m[r] <= 1000);
    }
    multiplier_product_succeeds(less, 2, 1);
}

} // verus!
