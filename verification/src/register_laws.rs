//! What the figures of a register schedule say of its stages: how many registers a stage
//! takes at least and at most, which odd radices it runs, and that every lane holds whole
//! butterflies.

use vstd::prelude::*;

use crate::arith::{
    is_pow2, multiplicity, multiplicity_is_small, stripped, stripped_times_power, umax, umin,
};
use crate::pressure_laws::whole_quotient;
use crate::quad::{quad_factors, quad_registers, quad_schedule, quad_table, QuadFactors};
use crate::rader_registers::convolution_schedule;
use crate::radix_laws::{
    checked_stages_multiply_to_the_length, expanded_stages_are_used, grouping_keeps_the_factors,
    has_kernel, kernels_only, largest_used_has_stages, power_exponent, power_grouping, power_start,
    power_start_groups, power_tables, prime_tables_are_usable, primes_only,
    small_exponents_multiply, splitting_keeps_the_factors, stages_multiply_to, stages_used,
    tables_usable, total_exponents,
};
use crate::registers::{
    boost_stage, expanded, extrema_from, fewest_stage_log, first_stage_with, least_first,
    local_registers, mixed_radix_schedule, odd_radix_demand, optimized, power_of_two_schedule,
    prime_table, primitive_registers, shifted, small_exponents, small_mixed_schedule,
    small_power_of_two, stage_extrema, table_extrema_from, two_three_schedule, with_composites,
    PrimitiveRegisters, RadixRegisterModel, RadixTables, SmallExponents, VKFFT_RADIX_TABLE_LEN,
};

verus! {

/// Registers of the stage at an index.
pub open spec fn stage_registers(stages: Seq<usize>, registers: Seq<usize>, index: int) -> usize {
    registers[stages[index] as int]
}

/// Whether `most` and `least` are the largest and the smallest register count of a stage.
pub open spec fn spans_the_stages(
    stages: Seq<usize>,
    registers: Seq<usize>,
    most: usize,
    least: usize,
) -> bool {
    &&& forall|i: int|
        0 <= i < stages.len() ==> least <= #[trigger] stage_registers(stages, registers, i) <= most
    &&& exists|i: int|
        0 <= i < stages.len() && #[trigger] stage_registers(stages, registers, i) == most
    &&& exists|i: int|
        0 <= i < stages.len() && #[trigger] stage_registers(stages, registers, i) == least
}

pub(crate) proof fn extrema_from_span(
    stages: Seq<usize>,
    registers: Seq<usize>,
    from: int,
    most: usize,
    least: usize,
)
    requires
        0 <= from <= stages.len(),
        forall|i: int|
            0 <= i < stages.len() ==> #[trigger] stage_registers(stages, registers, i) > 0,
        from > 0 ==> most > 0 && {
            &&& forall|i: int|
                0 <= i < from ==> least <= #[trigger] stage_registers(stages, registers, i) <= most
            &&& exists|i: int|
                0 <= i < from && #[trigger] stage_registers(stages, registers, i) == most
            &&& exists|i: int|
                0 <= i < from && #[trigger] stage_registers(stages, registers, i) == least
        },
        from == 0 ==> most == 0 && least == usize::MAX,
        stages.len() > 0,
    ensures
        ({
            let (m, l) = extrema_from(stages, registers, from, most, least);
            spans_the_stages(stages, registers, m, l)
        }),
    decreases stages.len() - from,
{
    if from < stages.len() {
        let value = stage_registers(stages, registers, from);
        let m = umax(most, value);
        let l = umin(least, value);
        assert(value > 0);
        if from > 0 {
            let x = choose|i: int|
                0 <= i < from && #[trigger] stage_registers(stages, registers, i) == most;
            let y = choose|i: int|
                0 <= i < from && #[trigger] stage_registers(stages, registers, i) == least;
            assert(stage_registers(stages, registers, x) == m || value == m);
            assert(stage_registers(stages, registers, y) == l || value == l);
        }
        extrema_from_span(stages, registers, from + 1, m, l);
    }
}

/// Moving a stage to the front only exchanges two stages.
proof fn reordering_keeps_the_span(
    stages: Seq<usize>,
    registers: Seq<usize>,
    most: usize,
    least: usize,
)
    requires
        spans_the_stages(stages, registers, most, least),
    ensures
        spans_the_stages(
            least_first(stages, registers, most, least),
            registers,
            most,
            least,
        ),
        least_first(stages, registers, most, least).len() == stages.len(),
        stage_registers(least_first(stages, registers, most, least), registers, 0) == least,
{
    let ordered = least_first(stages, registers, most, least);
    least_stage_is_found(stages, registers, least, 0);
    if least != most {
        let index = first_stage_with(stages, registers, least, 0)->Some_0;
        assert(ordered[0] == stages[index]) by {
            if index == 0 {
                assert(ordered =~= stages);
            }
        }
        assert(ordered[index] == stages[0]);
        let place = |i: int|
            if i == 0 {
                index
            } else if i == index {
                0
            } else {
                i
            };
        assert forall|i: int| 0 <= i < stages.len() implies stage_registers(ordered, registers, i)
            == #[trigger] stage_registers(stages, registers, place(i)) by {}
        assert forall|i: int| 0 <= i < ordered.len() implies least <= #[trigger] stage_registers(
            ordered,
            registers,
            i,
        ) <= most by {
            assert(stage_registers(stages, registers, place(i)) <= most);
        }
        let x = choose|i: int|
            0 <= i < stages.len() && #[trigger] stage_registers(stages, registers, i) == most;
        assert(stage_registers(ordered, registers, place(x)) == most) by {
            assert(place(place(x)) == x);
        }
        assert(stage_registers(ordered, registers, 0) == least) by {
            assert(stage_registers(stages, registers, index) == least);
        }
    } else {
        assert(stage_registers(stages, registers, 0) == least);
    }
}

proof fn least_stage_is_found(
    stages: Seq<usize>,
    registers: Seq<usize>,
    wanted: usize,
    from: int,
)
    requires
        0 <= from,
    ensures
        first_stage_with(stages, registers, wanted, from) matches Some(index) ==> from <= index
            < stages.len() && stage_registers(stages, registers, index) == wanted,
        first_stage_with(stages, registers, wanted, from) is None ==> forall|i: int|
            from <= i < stages.len() ==> #[trigger] stage_registers(stages, registers, i) != wanted,
    decreases stages.len() - from,
{
    if from < stages.len() {
        least_stage_is_found(stages, registers, wanted, from + 1);
        assert(stage_registers(stages, registers, from) == registers[stages[from] as int]);
    }
}

/// Whether the lanes of every stage hold whole butterflies.
pub open spec fn whole_butterflies(stages: Seq<usize>, registers: Seq<usize>) -> bool {
    forall|i: int|
        0 <= i < stages.len() ==> #[trigger] stage_registers(stages, registers, i) as int
            % stages[i] as int == 0
}

/// Whether `prime` is one that a stage needs scratch registers for.
pub open spec fn odd_prime(prime: int) -> bool {
    prime == 3 || prime == 5 || prime == 7 || prime == 11 || prime == 13
}

/// What the figures of a schedule say of its stages: both register counts are taken by
/// some stage and bound all of them, a schedule is good where no stage takes more than 16
/// registers and none twice those of another, and the demand of odd radices is that of the
/// largest odd radix and the largest odd prime among the stages.
pub open spec fn figures_are_true(model: RadixRegisterModel) -> bool {
    let stages = model.stage_radices;
    &&& spans_the_stages(
        stages,
        model.registers_per_thread_per_radix,
        model.registers_per_thread,
        model.min_registers_per_thread,
    )
    &&& model.is_good_sequence <==> model.registers_per_thread <= 16 && model.registers_per_thread
        < 2 * model.min_registers_per_thread
    &&& forall|i: int|
        0 <= i < stages.len() && !is_pow2(#[trigger] stages[i] as int) ==> stages[i]
            <= model.max_non_power_of_two_radix
    &&& model.max_non_power_of_two_radix == 1 || exists|i: int|
        0 <= i < stages.len() && #[trigger] stages[i] == model.max_non_power_of_two_radix
            && !is_pow2(stages[i] as int)
    &&& forall|i: int, prime: int| #![trigger stages[i], odd_prime(prime)]
        0 <= i < stages.len() && odd_prime(prime) && stages[i] as int % prime == 0 ==> prime
            <= model.required_local_registers
    &&& model.required_local_registers == 1 || odd_prime(
        model.required_local_registers as int,
    ) && exists|i: int|
        0 <= i < stages.len() && #[trigger] stages[i] as int
            % model.required_local_registers as int == 0
}

proof fn demand_is_that_of_the_radices(m: Seq<usize>, end: int)
    requires
        kernels_only(m),
        end <= VKFFT_RADIX_TABLE_LEN,
    ensures
        ({
            let (largest, local) = odd_radix_demand(m, end);
            &&& forall|r: int|
                2 <= r < end && #[trigger] m[r] > 0 && !is_pow2(r) ==> r <= largest
                    && local_registers(r as usize) <= local
            &&& largest == 1 || 2 <= largest < end && m[largest as int] > 0 && !is_pow2(
                largest as int,
            )
            &&& local == 1 || exists|r: int|
                2 <= r < end && #[trigger] m[r] > 0 && !is_pow2(r) && local_registers(r as usize)
                    == local
        }),
    decreases end,
{
    if end > 2 {
        demand_is_that_of_the_radices(m, end - 1);
        let r = end - 1;
        let (below, below_local) = odd_radix_demand(m, r);
        if m[r] > 0 && !is_pow2(r) {
            if local_registers(r as usize) < below_local {
                let x = choose|x: int|
                    2 <= x < r && #[trigger] m[x] > 0 && !is_pow2(x) && local_registers(x as usize)
                        == below_local;
                assert(m[x] > 0);
            }
        } else if below_local != 1 {
            let x = choose|x: int|
                2 <= x < r && #[trigger] m[x] > 0 && !is_pow2(x) && local_registers(x as usize)
                    == below_local;
            assert(m[x] > 0);
        }
    }
}

/// The scratch registers of a kernel are its largest odd prime.
proof fn local_registers_are_the_largest_prime(radix: usize)
    requires
        has_kernel(radix as int),
    ensures
        !is_pow2(radix as int) ==> odd_prime(local_registers(radix) as int) && radix as int
            % local_registers(radix) as int == 0,
        forall|prime: int| #[trigger] odd_prime(prime) && radix as int % prime == 0 ==> !is_pow2(
            radix as int,
        ) && prime <= local_registers(radix),
{
    reveal_with_fuel(is_pow2, 7);
    if radix == 3 || radix == 6 || radix == 9 || radix == 12 {
        assert(local_registers(radix) == 3 && radix as int % 3 == 0);
    } else if radix == 5 || radix == 10 || radix == 15 {
        assert(local_registers(radix) == 5 && radix as int % 5 == 0);
    } else if radix == 7 || radix == 14 {
        assert(local_registers(radix) == 7 && radix as int % 7 == 0);
    } else if radix == 11 {
        assert(radix as int % 11 == 0);
    } else if radix == 13 {
        assert(radix as int % 13 == 0);
    }
    assert forall|prime: int| #[trigger] odd_prime(prime) && radix as int % prime
        == 0 implies !is_pow2(radix as int) && prime <= local_registers(radix) by {
        if prime == 3 {
        } else if prime == 5 {
        } else if prime == 7 {
        } else if prime == 11 {
        } else {
        }
    }
}

/// Every radix with stages is among the expanded ones.
proof fn used_radices_have_a_stage(m: Seq<usize>, radix: int, used: int)
    requires
        radix < VKFFT_RADIX_TABLE_LEN,
        2 <= used <= radix,
        m[used] > 0,
    ensures
        exists|i: int|
            0 <= i < expanded(m, radix).len() && #[trigger] expanded(m, radix)[i] == used,
    decreases radix,
{
    let here = Seq::new(m[radix] as nat, |i: int| radix as usize);
    let below = expanded(m, radix - 1);
    let all = expanded(m, radix);
    assert(all == here + below);
    if used == radix {
        assert(all[0] == here[0]);
    } else {
        used_radices_have_a_stage(m, radix - 1, used);
        let i = choose|i: int| 0 <= i < below.len() && #[trigger] below[i] == used;
        assert(all[here.len() + i] == below[i]);
    }
}

/// Whether two lists hold the same radices.
#[verifier::opaque]
spec fn same_radices(a: Seq<usize>, b: Seq<usize>) -> bool {
    &&& forall|i: int| 0 <= i < a.len() ==>
        exists|j: int| 0 <= j < b.len() && b[j] == #[trigger] a[i]
    &&& forall|j: int| 0 <= j < b.len() ==>
        exists|i: int| 0 <= i < a.len() && a[i] == #[trigger] b[j]
}

proof fn reordering_keeps_the_radices(
    stages: Seq<usize>,
    registers: Seq<usize>,
    most: usize,
    least: usize,
)
    ensures
        same_radices(least_first(stages, registers, most, least), stages),
{
    reveal(same_radices);
    let ordered = least_first(stages, registers, most, least);
    least_stage_is_found(stages, registers, least, 0);
    if least != most && first_stage_with(stages, registers, least, 0) is Some {
        let index = first_stage_with(stages, registers, least, 0)->Some_0;
        if index == 0 {
            assert(ordered =~= stages);
        }
        assert(ordered[0] == stages[index] && ordered[index] == stages[0]);
        assert forall|i: int| 0 <= i < ordered.len() implies exists|j: int|
            0 <= j < stages.len() && stages[j] == #[trigger] ordered[i] by {
            if i == 0 {
                assert(stages[index] == ordered[i]);
            } else if i == index {
                assert(stages[0] == ordered[i]);
            } else {
                assert(stages[i] == ordered[i]);
            }
        }
        assert forall|j: int| 0 <= j < stages.len() implies exists|i: int|
            0 <= i < ordered.len() && ordered[i] == #[trigger] stages[j] by {
            if j == 0 {
                assert(ordered[index] == stages[j]);
            } else if j == index {
                assert(ordered[0] == stages[j]);
            } else {
                assert(ordered[j] == stages[j]);
            }
        }
    } else {
        assert(ordered == stages);
    }
}

/// The stages of usable tables, in either order.
spec fn ordered_stages(t: RadixTables, reorder: bool) -> Seq<usize> {
    let stages = expanded(t.multipliers, VKFFT_RADIX_TABLE_LEN - 1);
    let (most, least) = stage_extrema(stages, t.registers);
    if reorder {
        least_first(stages, t.registers, most, least)
    } else {
        stages
    }
}

proof fn ordered_span(t: RadixTables, reorder: bool)
    requires
        tables_usable(t),
        expanded(t.multipliers, VKFFT_RADIX_TABLE_LEN - 1).len() > 0,
    ensures
        ({
            let stages = expanded(t.multipliers, VKFFT_RADIX_TABLE_LEN - 1);
            let (most, least) = stage_extrema(stages, t.registers);
            let ordered = ordered_stages(t, reorder);
            &&& spans_the_stages(ordered, t.registers, most, least)
            &&& reorder ==> stage_registers(ordered, t.registers, 0) == least
            &&& same_radices(ordered, stages)
        }),
{
    let m = t.multipliers;
    let stages = expanded(m, VKFFT_RADIX_TABLE_LEN - 1);
    let (most, least) = stage_extrema(stages, t.registers);
    expanded_stages_are_used(m, VKFFT_RADIX_TABLE_LEN - 1);
    assert forall|i: int| 0 <= i < stages.len() implies #[trigger] stage_registers(
        stages,
        t.registers,
        i,
    ) > 0 by {
        assert(m[stages[i] as int] > 0);
        assert(t.registers[stages[i] as int] > 0);
    }
    extrema_from_span(stages, t.registers, 0, 0, usize::MAX);
    reordering_keeps_the_span(stages, t.registers, most, least);
    reordering_keeps_the_radices(stages, t.registers, most, least);
    if !reorder {
        reveal(same_radices);
    }
}

proof fn mixed_figures_are_true(
    fft_len: usize,
    rhs_transform_count: usize,
    tables: RadixTables,
    reorder: bool,
    empty: &'static str,
)
    requires
        tables_usable(tables.grouped()),
    ensures
        mixed_radix_schedule(fft_len, rhs_transform_count, tables, reorder, empty) matches Ok(
            model,
        ) ==> {
            &&& figures_are_true(model)
            &&& model.fft_len == fft_len
            &&& model.rhs_transform_count == rhs_transform_count
            &&& model.register_boost == 1
            &&& model.register_boost_stage_radix is None
            &&& model.checked() is Ok
            &&& model.stage_radix_multipliers == tables.grouped().multipliers
            &&& model.registers_per_thread_per_radix == tables.grouped().registers
            &&& stages_used(model.stage_radices, tables.grouped().multipliers)
            &&& reorder ==> stage_registers(
                model.stage_radices,
                model.registers_per_thread_per_radix,
                0,
            ) == model.min_registers_per_thread
        },
{
    reveal(crate::registers::split_for_boost);
    let best = optimized(tables, 1);
    assert(best.multipliers == tables.grouped().multipliers);
    let stages = expanded(best.multipliers, VKFFT_RADIX_TABLE_LEN - 1);
    if let Ok(model) = mixed_radix_schedule(fft_len, rhs_transform_count, tables, reorder, empty) {
        assert(stages.len() > 0) by {
            if stages.len() == 0 {
                assert(extrema_from(stages, best.registers, 0, 0, usize::MAX) == (0usize, 0usize));
            }
        }
        assert(best == tables.grouped());
        ordered_span(best, reorder);
        assert(model.stage_radices == ordered_stages(best, reorder));
        ordered_demand(best.multipliers, stages, model.stage_radices);
    }
}

proof fn ordered_demand(m: Seq<usize>, stages: Seq<usize>, ordered: Seq<usize>)
    requires
        kernels_only(m),
        stages == expanded(m, VKFFT_RADIX_TABLE_LEN - 1),
        same_radices(ordered, stages),
    ensures
        stages_used(ordered, m),
        ({
            let (largest, local) = odd_radix_demand(m, VKFFT_RADIX_TABLE_LEN as int);
            &&& forall|i: int|
                0 <= i < ordered.len() && !is_pow2(#[trigger] ordered[i] as int) ==> ordered[i]
                    <= largest
            &&& largest == 1 || exists|i: int|
                0 <= i < ordered.len() && #[trigger] ordered[i] == largest && !is_pow2(
                    ordered[i] as int,
                )
            &&& forall|i: int, prime: int| #![trigger ordered[i], odd_prime(prime)]
                0 <= i < ordered.len() && odd_prime(prime) && ordered[i] as int % prime == 0
                    ==> prime <= local
            &&& local == 1 || odd_prime(local as int) && exists|i: int|
                0 <= i < ordered.len() && #[trigger] ordered[i] as int % local as int == 0
        }),
{
    reveal(same_radices);
    let end = VKFFT_RADIX_TABLE_LEN as int;
    expanded_stages_are_used(m, end - 1);
    demand_is_that_of_the_radices(m, end);
    let (largest, local) = odd_radix_demand(m, end);
    assert forall|i: int| 0 <= i < ordered.len() implies crate::registers::radix_in_table(
        #[trigger] ordered[i],
    ) && m[ordered[i] as int] > 0 by {
        let j = choose|j: int| 0 <= j < stages.len() && stages[j] == ordered[i];
        assert(m[stages[j] as int] > 0);
    }
    assert forall|i: int, prime: int| #![trigger ordered[i], odd_prime(prime)]
        0 <= i < ordered.len() && odd_prime(prime) && ordered[i] as int % prime == 0 implies prime
        <= local by {
        let r = ordered[i];
        assert(m[r as int] > 0);
        assert(has_kernel(r as int));
        local_registers_are_the_largest_prime(r);
    }
    if largest != 1 {
        used_radices_have_a_stage(m, end - 1, largest as int);
        let j = choose|j: int| 0 <= j < stages.len() && #[trigger] stages[j] == largest;
        let i = choose|i: int| 0 <= i < ordered.len() && ordered[i] == stages[j];
        assert(ordered[i] == largest);
    }
    if local != 1 {
        let r = choose|r: int|
            2 <= r < end && #[trigger] m[r] > 0 && !is_pow2(r) && local_registers(r as usize)
                == local;
        assert(has_kernel(r));
        local_registers_are_the_largest_prime(r as usize);
        used_radices_have_a_stage(m, end - 1, r);
        let j = choose|j: int| 0 <= j < stages.len() && #[trigger] stages[j] == r;
        let i = choose|i: int| 0 <= i < ordered.len() && ordered[i] == stages[j];
        assert(ordered[i] as int % local as int == 0);
    }
}

/// Whether every radix with stages has registers for whole butterflies.
pub open spec fn tables_whole(t: RadixTables) -> bool {
    forall|r: int|
        2 <= r < VKFFT_RADIX_TABLE_LEN && t.multipliers[r] > 0 ==> #[trigger] t.registers[r] as int
            % r == 0
}

proof fn power_keeps_whole(t: RadixTables, radix: int, log: usize)
    requires
        t.sized(),
        tables_whole(t),
        2 < radix < VKFFT_RADIX_TABLE_LEN,
        1 <= log <= 5,
    ensures
        t.take_power(radix, log).sized(),
        tables_whole(t.take_power(radix, log)),
{
    let next = t.take_power(radix, log);
    let all = t.multipliers[2] as int;
    assert(0 <= all - (all / log as int) * log <= all) by (nonlinear_arith)
        requires
            all >= 0,
            log >= 1,
    ;
    assert forall|r: int|
        2 <= r < VKFFT_RADIX_TABLE_LEN
            && next.multipliers[r] > 0 implies #[trigger] next.registers[r] as int
        % r == 0 by {
        if r != radix {
            assert(t.multipliers[r] > 0 ==> t.registers[r] as int % r == 0);
        }
    }
}

proof fn pair_keeps_whole(t: RadixTables, radix: int, a: int, per_a: usize, b: int)
    requires
        t.sized(),
        tables_whole(t),
        2 < radix < VKFFT_RADIX_TABLE_LEN,
        2 <= a < radix,
        2 <= b < radix,
        per_a == 1 || per_a == 2,
    ensures
        t.take_pair(radix, a, per_a, b).sized(),
        tables_whole(t.take_pair(radix, a, per_a, b)),
{
    let next = t.take_pair(radix, a, per_a, b);
    let all = t.multipliers[a] as int;
    let count = umin(t.multipliers[b], (all / per_a as int) as usize) as int;
    assert(0 <= per_a * count <= all) by (nonlinear_arith)
        requires
            0 <= count <= all / per_a as int,
            per_a >= 1,
            all >= 0,
    ;
    assert forall|r: int|
        2 <= r < VKFFT_RADIX_TABLE_LEN
            && next.multipliers[r] > 0 implies #[trigger] next.registers[r] as int
        % r == 0 by {
        if r != radix {
            assert(t.multipliers[r] > 0 ==> t.registers[r] as int % r == 0);
        }
    }
}

proof fn nine_keeps_whole(t: RadixTables)
    requires
        t.sized(),
        tables_whole(t),
    ensures
        t.take_nine().sized(),
        tables_whole(t.take_nine()),
{
    let next = t.take_nine();
    assert forall|r: int|
        2 <= r < VKFFT_RADIX_TABLE_LEN
            && next.multipliers[r] > 0 implies #[trigger] next.registers[r] as int
        % r == 0 by {
        if r != 9 {
            assert(t.multipliers[r] > 0 ==> t.registers[r] as int % r == 0);
        }
    }
}

/// Grouping makes only stages whose butterflies a lane holds whole.
pub proof fn grouping_keeps_whole_butterflies(t: RadixTables)
    requires
        t.sized(),
        tables_whole(t),
    ensures
        tables_whole(t.grouped()),
{
    reveal(RadixTables::grouped);
    power_keeps_whole(t, 32, 5);
    let t = t.take_power(32, 5);
    power_keeps_whole(t, 16, 4);
    let t = t.take_power(16, 4);
    pair_keeps_whole(t, 15, 3, 1, 5);
    let t = t.take_pair(15, 3, 1, 5);
    pair_keeps_whole(t, 14, 2, 1, 7);
    let t = t.take_pair(14, 2, 1, 7);
    pair_keeps_whole(t, 12, 2, 2, 3);
    let t = t.take_pair(12, 2, 2, 3);
    pair_keeps_whole(t, 10, 2, 1, 5);
    let t = t.take_pair(10, 2, 1, 5);
    nine_keeps_whole(t);
    let t = t.take_nine();
    power_keeps_whole(t, 8, 3);
    let t = t.take_power(8, 3);
    pair_keeps_whole(t, 6, 2, 1, 3);
    power_keeps_whole(t.take_pair(6, 2, 1, 3), 4, 2);
}

/// The tables of a factored length hold whole butterflies of each of its primes.
proof fn prime_tables_are_whole(e: SmallExponents, r: PrimitiveRegisters)
    requires
        e.two > 0 ==> r.two as int % 2 == 0,
        e.three > 0 ==> r.three as int % 3 == 0,
        e.five > 0 ==> r.five as int % 5 == 0,
        e.seven > 0 ==> r.seven as int % 7 == 0,
        e.eleven > 0 ==> r.eleven as int % 11 == 0,
        e.thirteen > 0 ==> r.thirteen as int % 13 == 0,
    ensures
        tables_whole(
            RadixTables {
                registers: with_composites(
                    prime_table(r.two, r.three, r.five, r.seven, r.eleven, r.thirteen),
                ),
                multipliers: prime_table(e.two, e.three, e.five, e.seven, e.eleven, e.thirteen),
            },
        ),
{
    reveal(prime_table);
    reveal(with_composites);
}

proof fn primitive_registers_are_whole(e: SmallExponents)
    ensures
        ({
            let r = primitive_registers(e);
            &&& e.two > 0 ==> r.two > 0 && r.two as int % 2 == 0
            &&& e.three > 0 ==> r.three > 0 && r.three as int % 3 == 0
            &&& e.five > 0 ==> r.five > 0 && r.five as int % 5 == 0
            &&& e.seven > 0 ==> r.seven > 0 && r.seven as int % 7 == 0
            &&& e.eleven > 0 ==> r.eleven > 0 && r.eleven as int % 11 == 0
            &&& e.thirteen > 0 ==> r.thirteen > 0 && r.thirteen as int % 13 == 0
        }),
{
}

/// What every schedule of a smooth length with an odd prime factor promises: its stages are
/// a transform of the length, its figures are those of its stages, and every lane holds
/// whole butterflies.
pub proof fn smooth_schedules_are_true(fft_len: usize, rhs_transform_count: usize)
    ensures
        small_mixed_schedule(fft_len, rhs_transform_count) matches Ok(model) ==> {
            &&& model.fft_len == fft_len
            &&& model.rhs_transform_count == rhs_transform_count
            &&& model.register_boost == 1
            &&& model.register_boost_stage_radix is None
            &&& stages_multiply_to(model.stage_radices, 0) == fft_len
            &&& figures_are_true(model)
            &&& whole_butterflies(model.stage_radices, model.registers_per_thread_per_radix)
            // But for `2^a * 3^b`, the stage of the fewest registers comes first.
            &&& {
                let e = small_exponents(fft_len as int);
                e.two == 0 || e.three == 0 || e.five > 0 || e.seven > 0 || e.eleven > 0
                    || e.thirteen > 0
            } ==> stage_registers(model.stage_radices, model.registers_per_thread_per_radix, 0)
                == model.min_registers_per_thread
        },
{
    if let Ok(model) = small_mixed_schedule(fft_len, rhs_transform_count) {
        small_exponents_multiply(fft_len);
        let e = small_exponents(fft_len as int);
        let odd = e.five > 0 || e.seven > 0 || e.eleven > 0 || e.thirteen > 0;
        if e.two > 0 && e.three > 0 && !odd {
            two_three_schedules_are_true(fft_len, rhs_transform_count);
        } else {
            let r = primitive_registers(e);
            primitive_registers_are_whole(e);
            prime_tables_are_usable(e, r.two, r.three, r.five, r.seven, r.eleven, r.thirteen);
            prime_tables_are_whole(e, r);
            let tables = RadixTables {
                registers: with_composites(
                    prime_table(r.two, r.three, r.five, r.seven, r.eleven, r.thirteen),
                ),
                multipliers: prime_table(e.two, e.three, e.five, e.seven, e.eleven, e.thirteen),
            };
            true_schedule(
                fft_len,
                rhs_transform_count,
                tables,
                true,
                "mixed-radix scheduler produced no executable stages",
            );
        }
    }
}

proof fn true_schedule(
    fft_len: usize,
    rhs_transform_count: usize,
    tables: RadixTables,
    reorder: bool,
    empty: &'static str,
)
    requires
        tables_usable(tables),
        primes_only(tables.multipliers),
        tables_whole(tables),
    ensures
        mixed_radix_schedule(fft_len, rhs_transform_count, tables, reorder, empty) matches Ok(
            model,
        ) ==> {
            &&& model.fft_len == fft_len
            &&& model.rhs_transform_count == rhs_transform_count
            &&& model.register_boost == 1
            &&& model.register_boost_stage_radix is None
            &&& stages_multiply_to(model.stage_radices, 0) == fft_len
            &&& figures_are_true(model)
            &&& whole_butterflies(model.stage_radices, model.registers_per_thread_per_radix)
            &&& reorder ==> stage_registers(
                model.stage_radices,
                model.registers_per_thread_per_radix,
                0,
            ) == model.min_registers_per_thread
        },
{
    grouping_keeps_the_factors(tables);
    grouping_keeps_whole_butterflies(tables);
    mixed_figures_are_true(fft_len, rhs_transform_count, tables, reorder, empty);
    if let Ok(model) = mixed_radix_schedule(fft_len, rhs_transform_count, tables, reorder, empty) {
        checked_stages_multiply_to_the_length(model);
        assert forall|i: int| 0 <= i < model.stage_radices.len() implies #[trigger] stage_registers(
            model.stage_radices,
            model.registers_per_thread_per_radix,
            i,
        ) as int % model.stage_radices[i] as int == 0 by {
            let r = model.stage_radices[i] as int;
            assert(crate::registers::radix_in_table(model.stage_radices[i]));
            assert(tables.grouped().multipliers[r] > 0);
            assert(tables.grouped().registers[r] as int % r == 0);
        }
    }
}

/// The same of a length `2^a * 3^b`.
pub proof fn two_three_schedules_are_true(fft_len: usize, rhs_transform_count: usize)
    ensures
        two_three_schedule(fft_len, rhs_transform_count) matches Ok(model) ==> {
            &&& model.fft_len == fft_len
            &&& model.rhs_transform_count == rhs_transform_count
            &&& model.register_boost == 1
            &&& model.register_boost_stage_radix is None
            &&& stages_multiply_to(model.stage_radices, 0) == fft_len
            &&& figures_are_true(model)
            &&& whole_butterflies(model.stage_radices, model.registers_per_thread_per_radix)
        },
{
    if two_three_schedule(fft_len, rhs_transform_count) is Ok {
        let after2 = stripped(fft_len as int, 2);
        let exponent2 = multiplicity(fft_len as int, 2) as usize;
        let exponent3 = multiplicity(after2, 3) as usize;
        stripped_times_power(fft_len as int, 2);
        multiplicity_is_small(fft_len, 2);
        multiplicity_is_small(after2 as usize, 3);
        let primitive: usize = if exponent2 == exponent3 || exponent2 == 1 {
            6
        } else {
            12
        };
        let e = SmallExponents {
            two: exponent2,
            three: exponent3,
            five: 0,
            seven: 0,
            eleven: 0,
            thirteen: 0,
        };
        let r = PrimitiveRegisters {
            two: primitive,
            three: primitive,
            five: 0,
            seven: 0,
            eleven: 0,
            thirteen: 0,
        };
        prime_tables_are_usable(e, primitive, primitive, 0, 0, 0, 0);
        prime_tables_are_whole(e, r);
        true_schedule(
            fft_len,
            rhs_transform_count,
            RadixTables {
                registers: with_composites(prime_table(primitive, primitive, 0, 0, 0, 0)),
                multipliers: prime_table(exponent2, exponent3, 0, 0, 0, 0),
            },
            false,
            "2x3 radix scheduler produced no executable stages",
        );
    }
}

/// The stages of a power of two that are not taken out for a register boost.
pub open spec fn unboosted_stages(model: RadixRegisterModel) -> Seq<usize> {
    match model.register_boost_stage_radix {
        Some(_) => model.stage_radices.drop_last(),
        None => model.stage_radices,
    }
}

/// What the schedule of a power of two promises of its figures. Stages that run within the
/// boosted registers count for none of them.
pub open spec fn power_figures_are_true(model: RadixRegisterModel) -> bool {
    let body = unboosted_stages(model);
    &&& model.is_good_sequence
    &&& model.max_non_power_of_two_radix == 1
    &&& model.required_local_registers == 1
    &&& forall|i: int|
        0 <= i < model.stage_radices.len() ==> #[trigger] model.stage_radices[i] == 2
            || model.stage_radices[i] == 4 || model.stage_radices[i] == 8
    &&& body.len() > 0 ==> spans_the_stages(
        body,
        model.registers_per_thread_per_radix,
        model.registers_per_thread,
        model.min_registers_per_thread,
    )
    &&& body.len() == 0 ==> model.registers_per_thread == 2 && model.min_registers_per_thread == 2
    &&& whole_butterflies(model.stage_radices, model.registers_per_thread_per_radix)
    // One stage is taken out exactly where registers are boosted, and it comes last.
    &&& model.register_boost_stage_radix is Some <==> model.register_boost > 1
        && model.stage_radices.len() > 0
    &&& model.register_boost_stage_radix matches Some(radix) ==> model.stage_radices.len() > 0
        && model.stage_radices.last() == radix
    // Without a boost, the stage of the fewest registers comes first.
    &&& model.register_boost <= 1 && body.len() > 0 ==> stage_registers(
        model.stage_radices,
        model.registers_per_thread_per_radix,
        0,
    ) == model.min_registers_per_thread
}

proof fn power_registers_are_whole(exponent: usize, two: usize)
    requires
        two == 2 || two == 4 || two == 8,
    ensures
        ({
            let registers = power_start(exponent, two).grouped().registers;
            &&& registers[2] as int % 2 == 0
            &&& registers[4] as int % 4 == 0
            &&& registers[8] as int % 8 == 0
        }),
{
    power_start_groups(exponent, two);
    reveal(prime_table);
    reveal(with_composites);
}

proof fn power_demand_is_one(m: Seq<usize>, end: int)
    requires
        end <= VKFFT_RADIX_TABLE_LEN,
        forall|r: int| 2 <= r < VKFFT_RADIX_TABLE_LEN && #[trigger] m[r] > 0 ==> r == 2 || r == 4
            || r == 8,
    ensures
        odd_radix_demand(m, end) == (1usize, 1usize),
    decreases end,
{
    reveal_with_fuel(is_pow2, 5);
    if end > 2 {
        power_demand_is_one(m, end - 1);
        assert(m[end - 1] > 0 ==> is_pow2(end - 1));
    }
}

proof fn power_radices(t: RadixTables, exponent: int)
    requires
        power_tables(t, exponent),
    ensures
        forall|r: int|
            2 <= r < VKFFT_RADIX_TABLE_LEN && #[trigger] t.multipliers[r] > 0 ==> r == 2 || r == 4
                || r == 8,
{
    assert forall|r: int|
        2 <= r < VKFFT_RADIX_TABLE_LEN && #[trigger] t.multipliers[r] > 0 implies r == 2 || r == 4
        || r == 8 by {
        assert(has_kernel(r));
        let e = total_exponents(t.multipliers);
        assert(e.three == 0 && e.five == 0 && e.seven == 0 && e.eleven == 0 && e.thirteen == 0);
    }
}

/// Splitting leaves a stage of the boost's radix.
proof fn boost_finds_its_radix(exponent: usize, two: usize, register_boost: usize)
    requires
        1 <= exponent < 64,
        two == 2 || two == 4 || two == 8,
        exponent >= 2 ==> two >= 4,
    ensures
        ({
            let m = optimized(power_start(exponent, two), register_boost).multipliers;
            &&& register_boost == 2 ==> m[2] > 0
            &&& register_boost == 4 && exponent >= 2 ==> m[4] > 0
        }),
{
    reveal(crate::registers::split_for_boost);
    power_grouping(exponent, two);
    let t = power_start(exponent, two).grouped();
    power_radices(t, exponent as int);
    assert(t.multipliers[2] < 64 && t.multipliers[4] < 64 && t.multipliers[8] < 64);
    assert(exponent >= 2 ==> t.multipliers[4] > 0 || t.multipliers[8] > 0) by {
        power_start_groups(exponent, two);
        reveal(prime_table);
        reveal(with_composites);
    }
}

/// Every schedule of a power of two is a transform of its length with true figures.
pub proof fn power_of_two_schedules_are_true(
    fft_len: usize,
    rhs_transform_count: usize,
    register_boost: usize,
)
    ensures
        power_of_two_schedule(fft_len, rhs_transform_count, register_boost) matches Ok(model) ==> {
            &&& model.fft_len == fft_len
            &&& model.rhs_transform_count == rhs_transform_count
            &&& model.register_boost == register_boost
            &&& stages_multiply_to(model.stage_radices, 0) == fft_len
            &&& power_figures_are_true(model)
            // A boost of 2 or 4 takes out a stage of its own radix.
            &&& register_boost == 2 && fft_len >= 2 || register_boost == 4 && fft_len >= 4
                ==> model.register_boost_stage_radix == Some(register_boost)
        },
{
    if let Ok(model) = power_of_two_schedule(fft_len, rhs_transform_count, register_boost) {
        checked_stages_multiply_to_the_length(model);
        if fft_len != 1 {
            power_exponent(fft_len);
            let exponent = multiplicity(fft_len as int, 2) as usize;
            let two = small_power_of_two(umin(exponent, fewest_stage_log(exponent)));
            power_grouping(exponent, two);
            power_registers_are_whole(exponent, two);
            let start = power_start(exponent, two);
            splitting_keeps_the_factors(start.grouped(), exponent as int, register_boost);
            let best = optimized(start, register_boost);
            power_radices(best, exponent as int);
            power_demand_is_one(best.multipliers, VKFFT_RADIX_TABLE_LEN as int);
            largest_used_has_stages(best.multipliers, VKFFT_RADIX_TABLE_LEN - 1);
            assert(best.multipliers[2] > 0 || best.multipliers[4] > 0 || best.multipliers[8] > 0);
            boost_finds_its_radix(exponent, two, register_boost);
            if fft_len >= 4 {
                vstd::arithmetic::power::lemma_pow1(2);
            }
            power_stages_are_true(best, exponent as int, register_boost, model);
        }
    }
}

proof fn power_stages_are_true(
    best: RadixTables,
    exponent: int,
    register_boost: usize,
    model: RadixRegisterModel,
)
    requires
        power_tables(best, exponent),
        exponent >= 1,
        best.registers[2] as int % 2 == 0,
        best.registers[4] as int % 4 == 0,
        best.registers[8] as int % 8 == 0,
        odd_radix_demand(best.multipliers, VKFFT_RADIX_TABLE_LEN as int) == (1usize, 1usize),
        forall|r: int|
            2 <= r < VKFFT_RADIX_TABLE_LEN && #[trigger] best.multipliers[r] > 0 ==> r == 2 || r
                == 4 || r == 8,
        boost_stage(best.multipliers, register_boost) is Some <==> register_boost > 1,
        boost_stage(best.multipliers, register_boost) matches Some(radix)
            ==> best.multipliers[radix as int] > 0 && 2 <= radix < VKFFT_RADIX_TABLE_LEN,
        ({
            let boost_radix = boost_stage(best.multipliers, register_boost);
            let multipliers = match boost_radix {
                Some(radix) => shifted(best.multipliers, radix as int, -1),
                None => best.multipliers,
            };
            let stages = expanded(multipliers, VKFFT_RADIX_TABLE_LEN - 1);
            let (most, least) = if stages.len() == 0 {
                (2usize, 2usize)
            } else {
                stage_extrema(stages, best.registers)
            };
            &&& model.registers_per_thread_per_radix == best.registers
            &&& model.stage_radices == match boost_radix {
                Some(radix) => stages.push(radix),
                None => least_first(stages, best.registers, most, least),
            }
            &&& model.register_boost == register_boost
            &&& model.register_boost_stage_radix == boost_radix
            &&& model.registers_per_thread == most
            &&& model.min_registers_per_thread == least
            &&& model.is_good_sequence
            &&& model.max_non_power_of_two_radix == 1
            &&& model.required_local_registers == 1
        }),
    ensures
        power_figures_are_true(model),
{
    let boost_radix = boost_stage(best.multipliers, register_boost);
    let multipliers = match boost_radix {
        Some(radix) => shifted(best.multipliers, radix as int, -1),
        None => best.multipliers,
    };
    let less = RadixTables { registers: best.registers, multipliers };
    let stages = expanded(multipliers, VKFFT_RADIX_TABLE_LEN - 1);
    assert(tables_usable(less)) by {
        assert forall|r: int|
            0 <= r < VKFFT_RADIX_TABLE_LEN
                && less.multipliers[r] > 0 implies #[trigger] less.registers[r] > 0 by {
            assert(best.multipliers[r] > 0);
        }
        assert forall|r: int| 0 <= r < VKFFT_RADIX_TABLE_LEN
            && !has_kernel(r) implies #[trigger] less.multipliers[r] == 0 by {
            assert(best.multipliers[r] == 0);
        }
    }
    expanded_stages_are_used(multipliers, VKFFT_RADIX_TABLE_LEN - 1);
    if boost_radix is None {
        if stages.len() == 0 {
            assert(best.multipliers[2] > 0 || best.multipliers[4] > 0 || best.multipliers[8] > 0);
            if best.multipliers[2] > 0 {
                used_radices_have_a_stage(best.multipliers, VKFFT_RADIX_TABLE_LEN - 1, 2);
            } else if best.multipliers[4] > 0 {
                used_radices_have_a_stage(best.multipliers, VKFFT_RADIX_TABLE_LEN - 1, 4);
            } else {
                used_radices_have_a_stage(best.multipliers, VKFFT_RADIX_TABLE_LEN - 1, 8);
            }
        }
        ordered_span(less, true);
        ordered_demand(multipliers, stages, model.stage_radices);
    } else {
        let radix = boost_radix->Some_0;
        assert(model.stage_radices.drop_last() =~= stages);
        if stages.len() > 0 {
            ordered_span(less, false);
        }
    }
    let all = model.stage_radices;
    assert forall|i: int| 0 <= i < all.len() implies #[trigger] all[i] == 2 || all[i] == 4 || all[i]
        == 8 by {
        if boost_radix is Some && i < stages.len() {
            assert(all[i] == stages[i]);
        }
        assert(best.multipliers[all[i] as int] > 0);
    }
    assert forall|i: int| 0 <= i < all.len() implies #[trigger] stage_registers(
        all,
        best.registers,
        i,
    ) as int % all[i] as int == 0 by {
        assert(all[i] == 2 || all[i] == 4 || all[i] == 8);
    }
}

/// The schedule inside a Rader convolution has the register counts of its stages.
pub proof fn convolution_schedules_span(
    convolution_len: usize,
    batch_count: usize,
    container_fft_num: usize,
    max_threads_per_block: usize,
    table: Seq<usize>,
)
    ensures
        convolution_schedule(
            convolution_len,
            batch_count,
            container_fft_num,
            max_threads_per_block,
            table,
        ) matches Ok(model) ==> {
            &&& model.fft_len == convolution_len
            &&& model.rhs_transform_count == batch_count
            &&& model.register_boost == 1
            &&& stages_multiply_to(model.stage_radices, 0) == convolution_len
            &&& spans_the_stages(
                model.stage_radices,
                model.registers_per_thread_per_radix,
                model.registers_per_thread,
                model.min_registers_per_thread,
            )
            &&& model.is_good_sequence <==> model.registers_per_thread <= 16
                && model.registers_per_thread < 2 * model.min_registers_per_thread
        },
{
    reveal(convolution_schedule);
    if let Ok(model) = convolution_schedule(
        convolution_len,
        batch_count,
        container_fft_num,
        max_threads_per_block,
        table,
    ) {
        checked_stages_multiply_to_the_length(model);
        let stages = model.stage_radices;
        let registers = model.registers_per_thread_per_radix;
        if stages.len() == 0 {
            assert(extrema_from(stages, registers, 0, 0, usize::MAX) == (0usize, 0usize));
        }
        assert forall|i: int| 0 <= i < stages.len() implies #[trigger] stage_registers(
            stages,
            registers,
            i,
        ) > 0 by {
            assert(registers[stages[i] as int] > 0);
        }
        extrema_from_span(stages, registers, 0, 0, usize::MAX);
    }
}

/// Whether a table has an entry of this size.
pub open spec fn has_entry(table: Seq<usize>, size: usize) -> bool {
    exists|r: int| 0 <= r < table.len() && #[trigger] table[r] == size
}

proof fn table_extrema_are_entries(table: Seq<usize>, from: int, most: usize, least: usize)
    requires
        0 <= from <= table.len(),
        most > 0 ==> has_entry(table, most) && has_entry(table, least),
        most == 0 ==> least == usize::MAX,
        forall|r: int| 0 <= r < from && #[trigger] table[r] != 0 ==> least <= table[r] <= most,
    ensures
        ({
            let (m, l) = table_extrema_from(table, from, most, least);
            &&& m > 0 ==> has_entry(table, m) && has_entry(table, l)
            &&& forall|r: int|
                0 <= r < table.len() && #[trigger] table[r] != 0 ==> l <= table[r] <= m
        }),
    decreases table.len() - from,
{
    if from < table.len() {
        if table[from] == 0 {
            table_extrema_are_entries(table, from + 1, most, least);
        } else {
            let m = umax(most, table[from]);
            let l = umin(least, table[from]);
            assert(table[from] == table[from]);
            assert(has_entry(table, table[from]));
            table_extrema_are_entries(table, from + 1, m, l);
        }
    }
}

/// The double-double schedule of a length has the register counts of its table, both of
/// them taken by some radix, and every prime of the length has registers for whole
/// butterflies.
pub proof fn quad_schedules_are_true(fft_len: usize, rhs_transform_count: usize)
    ensures
        quad_schedule(fft_len, rhs_transform_count) matches Ok(model) ==> {
            let table = model.registers_per_thread_per_radix;
            &&& model.fft_len == fft_len
            &&& model.rhs_transform_count == rhs_transform_count
            &&& has_entry(table, model.registers_per_thread)
            &&& has_entry(table, model.min_registers_per_thread)
            &&& 0 < model.min_registers_per_thread
            &&& forall|r: int|
                0 <= r < table.len() && #[trigger] table[r] != 0 ==> model.min_registers_per_thread
                    <= table[r] <= model.registers_per_thread
            &&& model.is_good_sequence <==> model.registers_per_thread <= 16
                && model.registers_per_thread < 2 * model.min_registers_per_thread
            &&& fft_len as int % 2 == 0 ==> table[2] > 0 && table[2] as int % 2 == 0
            &&& stripped(fft_len as int, 2) % 3 == 0 ==> table[3] > 0 && table[3] as int % 3 == 0
            &&& stripped(stripped(fft_len as int, 2), 3) % 5 == 0 ==> table[5] > 0
                && table[5] as int % 5 == 0
            &&& stripped(stripped(stripped(fft_len as int, 2), 3), 5) % 7 == 0 ==> table[7] > 0
                && table[7] as int % 7 == 0
        },
{
    reveal(quad_schedule);
    if let Ok(model) = quad_schedule(fft_len, rhs_transform_count) {
        let table = model.registers_per_thread_per_radix;
        table_extrema_are_entries(table, 0, 0, usize::MAX);
        least_entry_is_positive(table, 0, 0, usize::MAX);
        let a = stripped(fft_len as int, 2);
        let b = stripped(a, 3);
        let c = stripped(b, 5);
        stripped_times_power(fft_len as int, 2);
        stripped_times_power(a, 3);
        stripped_times_power(b, 5);
        multiplicity_is_small(fft_len, 2);
        multiplicity_is_small(a as usize, 3);
        multiplicity_is_small(b as usize, 5);
        multiplicity_is_small(c as usize, 7);
        let f = quad_factors(fft_len);
        quad_entries(quad_registers(f));
        quad_registers_are_whole(f);
    }
}

proof fn quad_entries(r: (usize, usize, usize, usize))
    ensures
        quad_table(r)[2] == r.0,
        quad_table(r)[3] == r.1,
        quad_table(r)[5] == r.2,
        quad_table(r)[7] == r.3,
{
    reveal(prime_table);
    reveal(with_composites);
}

proof fn quad_registers_are_whole(f: QuadFactors)
    ensures
        ({
            let r = quad_registers(f);
            &&& f.two > 0 ==> r.0 > 0 && r.0 as int % 2 == 0
            &&& f.three > 0 ==> r.1 > 0 && r.1 as int % 3 == 0
            &&& f.five > 0 ==> r.2 > 0 && r.2 as int % 5 == 0
            &&& f.seven > 0 ==> r.3 > 0 && r.3 as int % 7 == 0
        }),
{
}

proof fn least_entry_is_positive(table: Seq<usize>, from: int, most: usize, least: usize)
    requires
        least > 0,
    ensures
        table_extrema_from(table, from, most, least).1 > 0,
    decreases table.len() - from,
{
    if from < table.len() {
        if table[from] == 0 {
            least_entry_is_positive(table, from + 1, most, least);
        } else {
            least_entry_is_positive(
                table,
                from + 1,
                umax(most, table[from]),
                umin(least, table[from]),
            );
        }
    }
}


/// How many registers each primitive radix of a smooth length takes, radix by radix. A prime
/// that does not occur takes none, and 11 and 13 take one per point. The others depend on
/// which small primes occur with them, and on how often 2 and 3 do.
pub proof fn primitive_counts_by_radix(e: SmallExponents)
    ensures
        ({
            let r = primitive_registers(e);
            let (two, three, five, seven) = (e.two > 0, e.three > 0, e.five > 0, e.seven > 0);
            let wide = e.eleven > 0 || e.thirteen > 0;
            &&& r.eleven == if e.eleven > 0 {
                11usize
            } else {
                0
            }
            &&& r.thirteen == if e.thirteen > 0 {
                13usize
            } else {
                0
            }
            &&& !seven ==> r.seven == 0
            &&& seven ==> r.seven == 7 || r.seven == 14
            &&& seven && !two ==> (r.seven == 14 <==> three && (five || (wide && e.three == 1)))
            &&& seven && two && three ==> (r.seven == 14 <==> five || wide)
            &&& seven && two && !three && five ==> (r.seven == 14 <==> wide)
            &&& seven && two && !three && !five ==> (r.seven == 14 <==> wide || e.two <= 2)
            &&& !five ==> r.five == 0
            &&& five ==> r.five == 5 || r.five == 10 || r.five == 15
            &&& five && !two ==> (r.five == 15 <==> three) && (r.five == 5 <==> !three)
            &&& five && two && !three ==> r.five == 10
            &&& five && two && three ==> (r.five == 15 <==> seven) && (r.five == 5 <==> !seven
                && !wide && e.two == 1)
            &&& !three ==> r.three == 0
            &&& three && !two && five ==> r.three == 15
            &&& three && !two && !five && e.three >= 2 ==> r.three == 9
            &&& three && !two && !five && e.three == 1 ==> r.three == if seven {
                if wide {
                    12usize
                } else {
                    6
                }
            } else if e.thirteen > 0 {
                12
            } else if e.eleven > 0 {
                9
            } else {
                3
            }
            &&& three && two && e.two >= 2 && (five || wide || !seven) ==> r.three == 12
            &&& three && two && !five && !wide && seven ==> r.three == 6
            &&& three && e.two == 1 && five ==> r.three == if seven || wide {
                15usize
            } else {
                6
            }
            &&& three && e.two == 1 && !five ==> r.three == if seven && wide {
                12usize
            } else {
                6
            }
            &&& !two ==> r.two == 0
            &&& two && three && five && seven ==> r.two == if e.two == 1 {
                14usize
            } else if e.two <= 3 {
                12
            } else {
                16
            }
            &&& two && three && five && !seven ==> r.two == if e.two >= 2 {
                12usize
            } else if wide {
                10
            } else {
                6
            }
            &&& two && three && !five && seven ==> r.two == if wide {
                12usize
            } else if e.two <= 2 {
                6
            } else {
                8
            }
            &&& two && three && !five && !seven ==> r.two == if e.two == 1 {
                6usize
            } else {
                12
            }
            &&& two && !three && five && e.two <= 2 ==> r.two == 10
            &&& two && !three && !five && seven && e.two <= 2 ==> r.two == 14
            &&& two && !three && (five || seven) && e.two == 3 ==> r.two == 8
            &&& two && !three && (five || seven) && e.two > 3 ==> r.two == if seven && wide {
                16usize
            } else {
                8
            }
            &&& two && !three && !five && !seven && e.two > 2 ==> r.two == 8
            &&& two && !three && !five && !seven && e.two == 2 ==> r.two == if e.thirteen > 0 {
                12usize
            } else {
                8
            }
            &&& two && !three && !five && !seven && e.two == 1 ==> r.two == if e.thirteen > 0 {
                12usize
            } else {
                10
            }
        }),
{
}


/// Stages of radices from 2 to `radix`.
spec fn stage_count(m: Seq<usize>, radix: int) -> int
    decreases radix,
{
    if radix < 2 {
        0
    } else {
        m[radix] + stage_count(m, radix - 1)
    }
}

proof fn expanded_length(m: Seq<usize>, radix: int)
    ensures
        expanded(m, radix).len() == stage_count(m, radix),
    decreases radix,
{
    if radix >= 2 {
        expanded_length(m, radix - 1);
    }
}

/// An unboosted power of two takes the fewest stages that radices up to 8 allow: one for
/// every three binary digits, rounded up.
pub proof fn powers_of_two_take_the_fewest_stages(fft_len: usize, rhs_transform_count: usize)
    requires
        fft_len >= 2,
    ensures
        power_of_two_schedule(fft_len, rhs_transform_count, 1) matches Ok(model) ==> {
            let digits = multiplicity(fft_len as int, 2) as int;
            let stages = model.stage_radices.len() as int;
            &&& 3 * (stages - 1) < digits <= 3 * stages
            &&& forall|i: int|
                0 <= i < stages ==> {
                    let radix = #[trigger] model.stage_radices[i];
                    radix == 2 || radix == 4 || radix == 8
                }
        },
{
    if let Ok(model) = power_of_two_schedule(fft_len, rhs_transform_count, 1) {
        power_exponent(fft_len);
        let exponent = multiplicity(fft_len as int, 2) as usize;
        let two = small_power_of_two(umin(exponent, fewest_stage_log(exponent)));
        power_grouping(exponent, two);
        let start = power_start(exponent, two);
        power_start_groups(exponent, two);
        reveal(crate::registers::split_for_boost);
        let best = optimized(start, 1);
        assert(best == start.grouped());
        let m = best.multipliers;
        reveal(prime_table);
        reveal(with_composites);
        assert(two == 8 ==> m[8] == exponent / 3 && m[4] == (exponent % 3) / 2 && m[2] == (exponent
            % 3) % 2);
        assert(two == 4 ==> m[8] == 0 && m[4] == exponent / 2 && m[2] == exponent % 2);
        assert(two == 2 ==> m[8] == 0 && m[4] == 0 && m[2] == exponent);
        power_radices(best, exponent as int);
        let stages = expanded(m, VKFFT_RADIX_TABLE_LEN - 1);
        expanded_length(m, VKFFT_RADIX_TABLE_LEN - 1);
        assert(stage_count(m, 32) == m[2] + m[4] + m[8]) by {
            reveal_with_fuel(stage_count, 33);
        }
        expanded_stages_are_used(m, VKFFT_RADIX_TABLE_LEN - 1);
        let (most, least) = stage_extrema(stages, best.registers);
        let ordered = least_first(stages, best.registers, most, least);
        first_stage_lies_within(stages, best.registers, least, 0);
        assert(stages.len() == m[2] + m[4] + m[8]);
        assert(model.stage_radices == ordered);
        assert(ordered.len() == stages.len());
        assert forall|i: int| 0 <= i < ordered.len() implies {
            let radix = #[trigger] ordered[i];
            radix == 2 || radix == 4 || radix == 8
        } by {
            assert(exists|j: int| 0 <= j < stages.len() && #[trigger] stages[j] == ordered[i]);
        }
        assert(3 * (stages.len() - 1) < exponent <= 3 * stages.len());
    }
}

proof fn first_stage_lies_within(
    stages: Seq<usize>,
    registers: Seq<usize>,
    wanted: usize,
    from: int,
)
    requires
        0 <= from,
    ensures
        crate::registers::first_stage_with(stages, registers, wanted, from) matches Some(index)
            ==> from <= index < stages.len(),
    decreases stages.len() - from,
{
    if from < stages.len() {
        first_stage_lies_within(stages, registers, wanted, from + 1);
    }
}


/// Whether one table has no more primitive stages than another, and the same registers but
/// for one radix.
spec fn primitives_shrank(before: RadixTables, after: RadixTables, radix: int) -> bool {
    &&& after.sized()
    &&& after.multipliers[2] <= before.multipliers[2]
    &&& after.multipliers[3] <= before.multipliers[3]
    &&& after.multipliers[5] <= before.multipliers[5]
    &&& after.multipliers[7] <= before.multipliers[7]
    &&& forall|r: int|
        0 <= r < VKFFT_RADIX_TABLE_LEN && r != radix ==> (#[trigger] after.registers[r])
            == before.registers[r]
}

/// Whether a radix could take stages: its registers hold whole butterflies of it.
pub open spec fn takes_stages(t: RadixTables, radix: int) -> bool {
    t.registers[radix] > 0 && t.registers[radix] as int % radix == 0
}

proof fn power_leaves_too_few(t: RadixTables, radix: int, log: usize)
    requires
        t.sized(),
        4 <= radix < VKFFT_RADIX_TABLE_LEN,
        radix != 5 && radix != 7,
        2 <= log <= 5,
    ensures
        primitives_shrank(t, t.take_power(radix, log), radix),
        takes_stages(t.take_power(radix, log), radix) ==> t.take_power(radix, log).multipliers[2]
            < log,
{
    let count = t.multipliers[2] / log;
    whole_quotient(t.multipliers[2] as int, log as int);
    assert((count + 1) * log == count * log + log) by (nonlinear_arith);
}

proof fn pair_leaves_none(t: RadixTables, radix: int, a: int, per_a: usize, b: int)
    requires
        t.sized(),
        6 <= radix < VKFFT_RADIX_TABLE_LEN,
        radix != 7,
        a == 2 || a == 3,
        b == 3 || b == 5 || b == 7,
        a != b,
        1 <= per_a <= 2,
    ensures
        primitives_shrank(t, t.take_pair(radix, a, per_a, b), radix),
        t.take_pair(radix, a, per_a, b).registers == t.registers,
        takes_stages(t, radix) ==> t.take_pair(radix, a, per_a, b).multipliers[a] < per_a
            || t.take_pair(radix, a, per_a, b).multipliers[b] == 0,
{
    let most = t.multipliers[a] / per_a;
    whole_quotient(t.multipliers[a] as int, per_a as int);
    assert((most + 1) * per_a == most * per_a + per_a) by (nonlinear_arith);
    let count = umin(t.multipliers[b], most as usize);
    assert(per_a * count <= per_a * most && per_a * most == most * per_a) by (nonlinear_arith)
        requires
            count <= most,
    ;
}

/// What grouping leaves: no stages that a larger radix with whole butterflies could still
/// take. Radices 4, 8, 16 and 32 leave fewer stages of 2 than they hold, 9 leaves one stage
/// of 3 at most, and 6, 10, 12, 14 and 15 leave no pair of theirs.
pub proof fn grouping_leaves_nothing_to_group(t: RadixTables)
    requires
        t.sized(),
    ensures
        ({
            let g = t.grouped();
            let m = g.multipliers;
            &&& takes_stages(g, 4) ==> m[2] < 2
            &&& takes_stages(g, 8) ==> m[2] < 3
            &&& takes_stages(g, 16) ==> m[2] < 4
            &&& takes_stages(g, 32) ==> m[2] < 5
            &&& takes_stages(g, 9) ==> m[3] < 2
            &&& takes_stages(g, 6) ==> m[2] == 0 || m[3] == 0
            &&& takes_stages(g, 10) ==> m[2] == 0 || m[5] == 0
            &&& takes_stages(g, 12) ==> m[2] < 2 || m[3] == 0
            &&& takes_stages(g, 14) ==> m[2] == 0 || m[7] == 0
            &&& takes_stages(g, 15) ==> m[3] == 0 || m[5] == 0
        }),
{
    reveal(RadixTables::grouped);
    let t1 = t.take_power(32, 5);
    power_leaves_too_few(t, 32, 5);
    let t2 = t1.take_power(16, 4);
    power_leaves_too_few(t1, 16, 4);
    let t3 = t2.take_pair(15, 3, 1, 5);
    pair_leaves_none(t2, 15, 3, 1, 5);
    let t4 = t3.take_pair(14, 2, 1, 7);
    pair_leaves_none(t3, 14, 2, 1, 7);
    let t5 = t4.take_pair(12, 2, 2, 3);
    pair_leaves_none(t4, 12, 2, 2, 3);
    let t6 = t5.take_pair(10, 2, 1, 5);
    pair_leaves_none(t5, 10, 2, 1, 5);
    let t7 = t6.take_nine();
    assert(primitives_shrank(t6, t7, 9));
    let t8 = t7.take_power(8, 3);
    power_leaves_too_few(t7, 8, 3);
    let t9 = t8.take_pair(6, 2, 1, 3);
    pair_leaves_none(t8, 6, 2, 1, 3);
    let t10 = t9.take_power(4, 2);
    power_leaves_too_few(t9, 4, 2);
    assert(t10 == t.grouped());
}

/// How many registers each radix of a double-double length takes. Radices 5 and 7 take one
/// per point. Radix 3 takes 6 beside 2 or 7, else one per point, and 9 alone where it occurs
/// twice. Radix 2 takes 6 beside 3 unless 7 occurs and 2 more than twice, 4 beside 5 alone,
/// 8 beside 7 unless 5 occurs and 2 once, and by itself as many as its stage groups.
pub proof fn quad_counts_by_radix(f: QuadFactors)
    ensures
        ({
            let (two, three, five, seven) = quad_registers(f);
            &&& seven == if f.seven > 0 {
                7usize
            } else {
                0
            }
            &&& five == if f.five > 0 {
                5usize
            } else {
                0
            }
            &&& f.three == 0 ==> three == 0
            &&& f.three > 0 && (f.two > 0 || f.seven > 0) ==> three == 6
            &&& f.three > 0 && f.two == 0 && f.seven == 0 ==> three == if f.five == 0 && f.three
                >= 2 {
                9usize
            } else {
                3
            }
            &&& f.two == 0 ==> two == 0
            &&& f.two > 0 && f.three > 0 ==> two == if f.five == 0 && f.seven > 0 && f.two > 2 {
                8usize
            } else {
                6
            }
            &&& f.two > 0 && f.three == 0 && f.seven > 0 ==> two == if f.five > 0 && f.two == 1 {
                6usize
            } else {
                8
            }
            &&& f.two > 0 && f.three == 0 && f.seven == 0 && f.five > 0 ==> two == 4
            &&& f.two > 0 && f.three == 0 && f.seven == 0 && f.five == 0 ==> two == if f.two == 1 {
                2usize
            } else if f.two == 2 || f.two == 4 {
                4
            } else {
                8
            }
        }),
{
}

/// What composite radices take: a power of two or of three the count of its prime where that
/// holds whole butterflies of it, a product of two primes the smaller count of both, and 12
/// that one only where both hold twelve. Primes keep theirs.
pub proof fn composite_counts_follow_their_primes(registers: Seq<usize>)
    requires
        registers.len() == VKFFT_RADIX_TABLE_LEN,
    ensures
        ({
            let all = with_composites(registers);
            let (two, three, five, seven) = (
                registers[2],
                registers[3],
                registers[5],
                registers[7],
            );
            &&& all.len() == VKFFT_RADIX_TABLE_LEN
            &&& all[2] == two && all[3] == three && all[5] == five && all[7] == seven
            &&& all[11] == registers[11] && all[13] == registers[13]
            &&& all[4] == if two % 4 == 0 {
                two
            } else {
                0
            }
            &&& all[8] == if two % 8 == 0 {
                two
            } else {
                0
            }
            &&& all[16] == if two % 16 == 0 {
                two
            } else {
                0
            }
            &&& all[32] == if two % 32 == 0 {
                two
            } else {
                0
            }
            &&& all[9] == if three % 9 == 0 {
                three
            } else {
                0
            }
            &&& all[6] == umin(two, three)
            &&& all[10] == umin(two, five)
            &&& all[14] == umin(two, seven)
            &&& all[15] == umin(three, five)
            &&& two >= 12 && three >= 12 ==> all[12] == if umin(two, three) % 12 == 0 {
                umin(two, three)
            } else {
                0
            }
        }),
{
    reveal(with_composites);
}

} // verus!
