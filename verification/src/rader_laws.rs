//! How the convolution length of a Rader prime falls into small radices, a rest without
//! them, and stages of shared memory.

use vstd::arithmetic::power::pow;
use vstd::prelude::*;

use crate::arith::{multiplicity, multiplicity_is_small, stripped, stripped_times_power, umax, umin};
use crate::double_root::pow_root;
use crate::error::VkFftError;
use crate::rader_tables::{peeled_from, peeled_multipliers};
use crate::registers::{zero_table, VKFFT_RADIX_TABLE_LEN};
use crate::shared_search::{
    cut_stages, kept_stages, shared_stages, stages_bounded, MAX_SHARED_STAGE,
};
use crate::split_laws::product_of;

verus! {

/// The product of the radices from 2 up to `end`, each to the power of its count.
pub open spec fn radix_powers(multipliers: Seq<usize>, end: int) -> int
    decreases end,
{
    if end <= 2 {
        1
    } else {
        radix_powers(multipliers, end - 1) * pow(end - 1, multipliers[end - 1] as nat)
    }
}

/// Whether no radix from 2 up to `end` divides the value.
pub open spec fn no_radix_divides(value: int, end: int) -> bool {
    forall|radix: int| 2 <= radix < end ==> #[trigger] (value % radix) != 0
}

proof fn powers_below_an_update(multipliers: Seq<usize>, index: int, value: usize, end: int)
    requires
        end <= index < multipliers.len(),
    ensures
        radix_powers(multipliers.update(index, value), end) == radix_powers(multipliers, end),
    decreases end,
{
    if end > 2 {
        powers_below_an_update(multipliers, index, value, end - 1);
    }
}

proof fn factor_keeps_the_radices_out(value: int, factor: int, other: int, end: int)
    requires
        value == factor * other,
        no_radix_divides(value, end),
    ensures
        no_radix_divides(factor, end),
{
    assert forall|radix: int| 2 <= radix < end implies #[trigger] (factor % radix) != 0 by {
        if factor % radix == 0 {
            vstd::arithmetic::div_mod::lemma_fundamental_div_mod(factor, radix);
            let part = factor / radix;
            assert(value == (part * other) * radix) by (nonlinear_arith)
                requires
                    value == factor * other,
                    factor == radix * part,
            ;
            vstd::arithmetic::div_mod::lemma_mod_multiples_basic(part * other, radix);
            assert(value % radix == 0);
        }
    }
}

proof fn peeling_keeps_the_product(
    len: int,
    rest: int,
    multipliers: Seq<usize>,
    radix: int,
    end: int,
)
    requires
        2 <= radix,
        end <= VKFFT_RADIX_TABLE_LEN,
        multipliers.len() == VKFFT_RADIX_TABLE_LEN,
        1 <= rest <= usize::MAX,
        radix_powers(multipliers, radix) * rest == len,
        no_radix_divides(rest, radix),
    ensures
        ({
            let (peeled, residual) = peeled_from(rest, multipliers, radix, end);
            let last = if radix >= end {
                radix
            } else {
                end
            };
            &&& radix_powers(peeled, last) * residual == len
            &&& no_radix_divides(residual as int, last)
            &&& residual >= 1
        }),
    decreases end - radix,
{
    if radix < end {
        let count = multiplicity(rest, radix);
        let left = stripped(rest, radix);
        stripped_times_power(rest, radix);
        multiplicity_is_small(rest as usize, radix);
        let next = multipliers.update(radix, count as usize);
        powers_below_an_update(multipliers, radix, count as usize, radix);
        let before = radix_powers(multipliers, radix);
        let power = pow(radix, count);
        assert(radix_powers(next, radix + 1) == before * power);
        assert((before * power) * left == len) by (nonlinear_arith)
            requires
                before * rest == len,
                rest == left * power,
        ;
        factor_keeps_the_radices_out(rest, left, power, radix);
        assert(no_radix_divides(left, radix + 1));
        peeling_keeps_the_product(len, left, next, radix + 1, end);
    }
}

/// The counted radices and the rest multiply to the length again, and no radix that was
/// taken out divides the rest.
pub proof fn peeled_radices_multiply_back(
    fft_len: usize,
    min_direct_prime: usize,
    multipliers: Seq<usize>,
    residual: usize,
)
    requires
        peeled_multipliers(fft_len, min_direct_prime) == Ok::<(Seq<usize>, usize), VkFftError>(
            (multipliers, residual),
        ),
    ensures
        radix_powers(multipliers, umin(min_direct_prime, VKFFT_RADIX_TABLE_LEN) as int) * residual
            == fft_len,
        no_radix_divides(
            residual as int,
            umin(min_direct_prime, VKFFT_RADIX_TABLE_LEN) as int,
        ),
{
    let end = umin(min_direct_prime, VKFFT_RADIX_TABLE_LEN) as int;
    assert(radix_powers(zero_table(), 2) * fft_len == fft_len);
    peeling_keeps_the_product(fft_len as int, fft_len as int, zero_table(), 2, end);
}

proof fn cutting_keeps_the_product(
    len: int,
    rest: usize,
    candidate: int,
    stages: Seq<usize>,
    slots: nat,
)
    requires
        product_of(stages) * rest == len,
        stages_bounded(stages),
    ensures
        ({
            let (left, found) = cut_stages(rest, candidate, stages, slots);
            &&& product_of(found) * left == len
            &&& stages_bounded(found)
        }),
    decreases slots, MAX_SHARED_STAGE + 1 - candidate,
{
    if candidate >= 1 && candidate <= MAX_SHARED_STAGE && slots != 0 {
        if rest as int % candidate == 0 {
            let next = (rest as int / candidate) as usize;
            let pushed = stages.push(candidate as usize);
            vstd::arithmetic::div_mod::lemma_fundamental_div_mod(rest as int, candidate);
            vstd::arithmetic::div_mod::lemma_div_pos_is_pos(rest as int, candidate);
            vstd::arithmetic::div_mod::lemma_div_is_ordered_by_denominator(
                rest as int,
                1,
                candidate,
            );
            assert(pushed.drop_last() =~= stages);
            let product = product_of(stages);
            assert((product * candidate) * next == len) by (nonlinear_arith)
                requires
                    product * rest == len,
                    rest == candidate * next,
            ;
            cutting_keeps_the_product(
                len,
                next,
                umax(pow_root(next, (slots - 1) as usize), 1) as int,
                pushed,
                (slots - 1) as nat,
            );
        } else {
            cutting_keeps_the_product(len, rest, candidate + 1, stages, slots);
        }
    }
}

proof fn bounded_product_is_positive(stages: Seq<usize>)
    requires
        stages_bounded(stages),
    ensures
        product_of(stages) > 0,
    decreases stages.len(),
{
    if stages.len() > 0 {
        bounded_product_is_positive(stages.drop_last());
        let (front, last) = (product_of(stages.drop_last()), stages.last() as int);
        assert(front * last > 0) by (nonlinear_arith)
            requires
                front > 0,
                last >= 1,
        ;
    }
}

proof fn product_divides(stages: Seq<usize>, rest: int, len: int)
    requires
        stages_bounded(stages),
        product_of(stages) * rest == len,
    ensures
        product_of(stages) > 0,
        len % product_of(stages) == 0,
{
    bounded_product_is_positive(stages);
    let product = product_of(stages);
    vstd::arithmetic::div_mod::lemma_mod_multiples_basic(rest, product);
    assert(rest * product == product * rest) by (nonlinear_arith);
}

proof fn kept_stages_divide(len: usize, count: int, kept: Seq<usize>)
    requires
        stages_bounded(kept),
        len as int % product_of(kept) == 0,
    ensures
        stages_bounded(kept_stages(len, count, kept)),
        len as int % product_of(kept_stages(len, count, kept)) == 0,
    decreases 20 - count,
{
    if count < 20 {
        if pow_root(len, count as usize) > MAX_SHARED_STAGE {
            kept_stages_divide(len, count + 1, kept);
        } else {
            let first = umax(pow_root(len, count as usize), 1) as int;
            assert(product_of(Seq::<usize>::empty()) * len == len);
            cutting_keeps_the_product(len as int, len, first, Seq::empty(), count as nat);
            let (rest, stages) = cut_stages(len, first, Seq::empty(), count as nat);
            product_divides(stages, rest as int, len as int);
            if !(rest == 1 && stages.len() == count) {
                kept_stages_divide(len, count + 1, stages);
            }
        }
    }
}

/// The shared-memory stages of a length are between 1 and the largest stage, and their
/// product divides the length.
pub proof fn shared_stages_divide_the_length(len: usize)
    ensures
        stages_bounded(shared_stages(len)),
        product_of(shared_stages(len)) > 0,
        len as int % product_of(shared_stages(len)) == 0,
{
    assert(product_of(Seq::<usize>::empty()) == 1);
    kept_stages_divide(len, 1, Seq::empty());
    bounded_product_is_positive(shared_stages(len));
}

} // verus!
