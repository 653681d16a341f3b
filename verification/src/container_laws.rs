//! How primes are convolved: which range sends a prime where, and what the register table of
//! a convolution in shared memory holds.

use vstd::arithmetic::power::pow;
use vstd::prelude::*;

use crate::arith::{is_power_of_two, nearest_multiple, pow8_at_most};
use crate::config::{upstream_effective_tuning, DeviceProfile, PlannerTuning};
use crate::coupling_laws::entries_within;
use crate::factors::distinct_factors;
use crate::quad::extrema_span_used_entries;
use crate::rader_containers::{container_kind, MultiFftRaderContainerKind};
use crate::rader_tables::{outer_power_state, outer_state};
use crate::radix_laws::{checked_stages_multiply_to_the_length, power_exponent};
use crate::register_laws::{extrema_from_span, smooth_schedules_are_true, spans_the_stages};
use crate::registers::{small_mixed_schedule, table_extrema, VKFFT_RADIX_TABLE_LEN};
use crate::scaling_laws::{extrema_are_taken, table_holds};
use crate::shared_search::{largest_multiple, shared_register_table, shared_stages, stage_table};

verus! {

/// Whether a prime lies in the direct range.
pub open spec fn in_direct_range(prime: int, tuning: PlannerTuning) -> bool {
    tuning.min_rader_direct_prime <= prime < tuning.max_rader_direct_prime
}

/// Whether a prime lies in the range convolved by transforms.
pub open spec fn in_fft_range(prime: int, tuning: PlannerTuning) -> bool {
    tuning.min_rader_fft_prime <= prime < tuning.max_rader_fft_prime
}

/// A device narrows the direct range to the primes of which two more than the prime fit half
/// its lanes, and changes nothing else.
pub proof fn devices_narrow_the_direct_range(
    tuning: PlannerTuning,
    device: DeviceProfile,
    prime: int,
)
    requires
        prime >= 0,
    ensures
        ({
            let effective = upstream_effective_tuning(tuning, device);
            &&& in_direct_range(prime, effective) <==> in_direct_range(prime, tuning) && 2 * (prime
                + 2) <= device.max_threads_per_block
            &&& in_fft_range(prime, effective) <==> in_fft_range(prime, tuning)
            &&& effective.min_rader_direct_prime == tuning.min_rader_direct_prime
            &&& effective.allow_recursive_fft_rader == tuning.allow_recursive_fft_rader
        }),
{
}

/// Where nothing is known of a device, primes from 17 on are convolved, directly below 89 and
/// by transforms below 16384, and none inside another.
pub proof fn portable_ranges_start_at_seventeen(prime: int)
    ensures
        ({
            let portable = PlannerTuning::portable_ranges();
            &&& in_direct_range(prime, portable) <==> 17 <= prime < 89
            &&& in_fft_range(prime, portable) <==> 17 <= prime < 16_384
            &&& !portable.allow_recursive_fft_rader
            &&& portable.valid()
        }),
{
}

/// Where a prime is convolved. One outside both ranges is not. One in the range of transforms
/// goes there where all prime factors of its length lie below the direct range, or where
/// nesting is allowed and the direct range does not hold it. Else the direct range decides.
pub proof fn ranges_decide_the_container(prime: usize, tuning: PlannerTuning)
    ensures
        ({
            let kind = container_kind(prime, tuning);
            let fft = in_fft_range(prime as int, tuning);
            let direct = in_direct_range(prime as int, tuning);
            let smooth = prime >= 3 && forall|i: int|
                0 <= i < distinct_factors((prime - 1) as usize).len() ==> (
                #[trigger] distinct_factors((prime - 1) as usize)[i]).0
                    < tuning.min_rader_direct_prime;
            &&& prime < 3 ==> kind is None
            &&& !fft && !direct ==> kind is None
            &&& prime >= 3 && direct ==> kind is Some
            &&& prime >= 3 && fft && tuning.allow_recursive_fft_rader ==> kind is Some
            &&& fft && smooth ==> kind == Some(MultiFftRaderContainerKind::Fft)
            &&& kind == Some(MultiFftRaderContainerKind::Fft) ==> fft && (smooth || (
            tuning.allow_recursive_fft_rader && !direct))
            &&& kind == Some(MultiFftRaderContainerKind::Direct) ==> direct && !(fft && smooth)
        }),
{
}

/// The greatest power of eight within a value is one, and eight times it is not within it.
pub proof fn pow8_is_bracketed(value: int) -> (exponent: nat)
    requires
        value >= 1,
    ensures
        pow8_at_most(value) == pow(8, exponent),
        pow8_at_most(value) <= value < 8 * pow8_at_most(value),
    decreases value,
{
    if value < 8 {
        vstd::arithmetic::power::lemma_pow0(8);
        0
    } else {
        let below = pow8_is_bracketed(value / 8);
        vstd::arithmetic::power::lemma_pow_adds(8, 1, below);
        vstd::arithmetic::power::lemma_pow1(8);
        below + 1
    }
}

/// The multiple of a count that a maximum is matched to: the maximum itself where it is one,
/// else one of the two around it, the larger exactly where the maximum is at least as near to
/// it by ratio.
pub proof fn matched_multiples_are_nearest(maximum: int, value: int)
    requires
        1 <= value <= maximum,
    ensures
        ({
            let matched = value * nearest_multiple(maximum, value);
            &&& matched >= value
            &&& matched % value == 0
            &&& maximum % value == 0 ==> matched == maximum
            &&& maximum - value < matched < maximum + value
            &&& matched < maximum ==> matched * (matched + value) > maximum * maximum
            &&& matched > maximum ==> (matched - value) * matched <= maximum * maximum
        }),
{
    let floor = maximum / value;
    let nearest = nearest_multiple(maximum, value);
    vstd::arithmetic::div_mod::lemma_fundamental_div_mod(maximum, value);
    vstd::arithmetic::div_mod::lemma_div_non_zero(maximum, value);
    let low = value * floor;
    let high = value * (floor + 1);
    assert(high == low + value) by (nonlinear_arith)
        requires
            low == value * floor,
            high == value * (floor + 1),
    ;
    assert(low >= value) by (nonlinear_arith)
        requires
            low == value * floor,
            floor >= 1,
            value >= 1,
    ;
    vstd::arithmetic::div_mod::lemma_mod_multiples_basic(nearest, value);
    assert(nearest * value == value * nearest) by (nonlinear_arith);
    assert(low * high == high * low) by (nonlinear_arith);
    if maximum % value == 0 {
        assert(nearest == floor);
    }
}

proof fn largest_multiple_is_the_largest(stages: Seq<usize>, radix: int, count: int)
    requires
        0 <= count <= stages.len(),
    ensures
        ({
            let largest = largest_multiple(stages, radix, count);
            &&& forall|i: int|
                0 <= i < count && #[trigger] stages[i] as int % radix == 0 ==> stages[i] <= largest
            &&& largest == 0 || exists|i: int|
                0 <= i < count && #[trigger] stages[i] == largest && stages[i] as int % radix == 0
        }),
    decreases count,
{
    if count > 0 {
        largest_multiple_is_the_largest(stages, radix, count - 1);
    }
}

/// The table of a stage list: each radix has the largest stage that it divides, and none
/// where it divides none.
pub proof fn stage_tables_hold_the_largest_stage(stages: Seq<usize>, radix: int)
    requires
        2 <= radix < VKFFT_RADIX_TABLE_LEN,
    ensures
        ({
            let entry = stage_table(stages)[radix];
            &&& forall|i: int|
                0 <= i < stages.len() && #[trigger] stages[i] as int % radix == 0 ==> stages[i]
                    <= entry
            &&& entry == 0 || exists|i: int|
                0 <= i < stages.len() && #[trigger] stages[i] == entry && stages[i] as int % radix
                    == 0
        }),
{
    largest_multiple_is_the_largest(stages, radix, stages.len() as int);
}

/// The register table of a convolution in shared memory: its counts bound every used entry
/// and are taken, every entry holds whole butterflies of its radix, and only radices that
/// divide a stage are used.
pub proof fn shared_tables_hold_whole_butterflies(fft_len: usize)
    ensures
        shared_register_table(fft_len) matches Ok((table, most, least)) ==> {
            &&& table.len() == VKFFT_RADIX_TABLE_LEN
            &&& table[0] == 0 && table[1] == 0
            &&& entries_within(table, least, most)
            &&& table_holds(table, most) && table_holds(table, least)
            &&& 1 <= least <= most
            &&& forall|radix: int|
                2 <= radix < VKFFT_RADIX_TABLE_LEN && #[trigger] table[radix] != 0 ==> {
                    &&& table[radix] as int % radix == 0
                    &&& exists|i: int|
                        0 <= i < shared_stages(fft_len).len() && #[trigger] shared_stages(
                            fft_len,
                        )[i] as int % radix == 0
                }
        },
{
    if shared_register_table(fft_len) is Ok {
        let (table, most, least) = shared_register_table(fft_len)->Ok_0;
        let stages = shared_stages(fft_len);
        let first = stage_table(stages);
        let top = table_extrema(first).0;
        crate::rader_laws::shared_stages_divide_the_length(fft_len);
        assert forall|radix: int| 2 <= radix < VKFFT_RADIX_TABLE_LEN implies first[radix] <= 16 by {
            stage_tables_hold_the_largest_stage(stages, radix);
        }
        extrema_are_taken(first, 0, 0, usize::MAX);
        assert(top <= 16) by {
            if table_holds(first, top) {
                let r = choose|r: int| 0 <= r < first.len() && #[trigger] first[r] == top;
                if r >= 2 {
                    assert(first[r] <= 16);
                }
            }
        }
        extrema_are_taken(table, 0, 0, usize::MAX);
        assert forall|r: int| 0 <= r < table.len() && #[trigger] table[r] != 0 implies least
            <= table[r] <= most by {
            extrema_span_used_entries(table, 0, 0, usize::MAX, r);
        }
        assert forall|radix: int|
            2 <= radix < VKFFT_RADIX_TABLE_LEN && #[trigger] table[radix] != 0 implies {
            &&& table[radix] as int % radix == 0
            &&& exists|i: int| 0 <= i < stages.len() && #[trigger] stages[i] as int % radix == 0
        } by {
            stage_tables_hold_the_largest_stage(stages, radix);
            let entry = first[radix] as int;
            assert(entry != 0);
            extrema_span_used_entries(first, 0, 0, usize::MAX, radix);
            matched_multiples_are_nearest(top as int, entry);
            let times = nearest_multiple(top as int, entry);
            let part = entry / radix;
            vstd::arithmetic::div_mod::lemma_fundamental_div_mod(entry, radix);
            assert(entry * times == (part * times) * radix) by (nonlinear_arith)
                requires
                    entry == radix * part,
            ;
            vstd::arithmetic::div_mod::lemma_mod_multiples_basic(part * times, radix);
        }
        assert(exists|r: int| 0 <= r < table.len() && #[trigger] table[r] != 0) by {
            if table_holds(table, least) {
            }
        }
    }
}


/// The registers around Rader containers. Where nothing is around them, two registers are
/// taken and no table is used. Around a power of two every used radix takes the same count,
/// which is 2, 4 or 8 and no larger than that power. Elsewhere the counts are the largest and
/// smallest of the stages that the smooth factor is scheduled in.
pub proof fn outer_counts_are_those_of_the_stages(
    outer_fft_len: usize,
    container_fft_num: usize,
    outer_batch_count: usize,
)
    ensures
        outer_state(outer_fft_len, container_fft_num, outer_batch_count) matches Ok(
            (table, most, least),
        ) ==> {
            &&& container_fft_num == 1 ==> most == 2 && least == 2 && forall|r: int|
                0 <= r < VKFFT_RADIX_TABLE_LEN ==> #[trigger] table[r] == 0
            &&& container_fft_num > 1 && is_power_of_two(container_fft_num) ==> {
                &&& most == least && most == table[2]
                &&& most == 2 || most == 4 || most == 8
                &&& most <= container_fft_num
                &&& entries_within(table, least, most)
            }
            &&& !is_power_of_two(container_fft_num) ==> {
                let planned = small_mixed_schedule(container_fft_num, outer_batch_count);
                &&& planned is Ok
                &&& table == planned->Ok_0.registers_per_thread_per_radix
                &&& spans_the_stages(planned->Ok_0.stage_radices, table, most, least)
            }
        },
{
    reveal(outer_state);
    reveal(outer_power_state);
    let planned = outer_state(outer_fft_len, container_fft_num, outer_batch_count);
    if planned is Ok {
        let (table, most, least) = planned->Ok_0;
        if container_fft_num > 1 && is_power_of_two(container_fft_num) {
            power_exponent(container_fft_num);
            let two = table[2];
            let exponent = crate::rader_tables::twos_in(container_fft_num);
            extrema_are_taken(table, 0, 0, usize::MAX);
            extrema_span_used_entries(table, 0, 0, usize::MAX, 2);
            assert forall|r: int| 0 <= r < table.len() && #[trigger] table[r] != 0 implies table[r]
                == two by {
                reveal(crate::registers::zero_table);
            }
            assert(two <= container_fft_num) by {
                vstd::arithmetic::power::lemma_pow1(2);
                if exponent >= 2 {
                    vstd::arithmetic::power::lemma_pow_increases(2, 2, exponent as nat);
                    assert(pow(2, 2) == 4) by {
                        vstd::arithmetic::power::lemma_pow_adds(2, 1, 1);
                    }
                }
                if exponent >= 3 {
                    vstd::arithmetic::power::lemma_pow_increases(2, 3, exponent as nat);
                    assert(pow(2, 3) == 8) by {
                        vstd::arithmetic::power::lemma_pow_adds(2, 1, 1);
                        vstd::arithmetic::power::lemma_pow_adds(2, 1, 2);
                    }
                }
            }
        } else if !is_power_of_two(container_fft_num) {
            smooth_schedules_are_true(container_fft_num, outer_batch_count);
            let model = small_mixed_schedule(container_fft_num, outer_batch_count)->Ok_0;
            crate::registers::mixed_schedule_is_checked(container_fft_num, outer_batch_count);
            checked_stages_multiply_to_the_length(model);
            extrema_from_span(
                model.stage_radices,
                model.registers_per_thread_per_radix,
                0,
                0,
                usize::MAX,
            );
        }
    }
}

} // verus!
