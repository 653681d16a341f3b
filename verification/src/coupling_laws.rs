//! How the registers of a Rader container are brought together with those around it: no
//! count shrinks, every count stays a multiple of its radix, and the lanes around hold all
//! containers.

use vstd::prelude::*;

use crate::arith::{ceil_div, ceil_div_is_least_cover, umax, umin};
use crate::axis_block::{quotient, round_down};
use crate::error::VkFftError;
use crate::group_laws::{lanes_cover_tightly, product_grows, rounding_loses_less_than_a_unit};
use crate::memory_laws::lanes_cover;
use crate::pressure_laws::whole_quotient;
use crate::quad::extrema_span_used_entries;
use crate::rader_containers::{MultiFftRaderContainerKind, RaderContainerModel};
use crate::rader_tables::{
    aligned_coupling, coupled_container, floor_scaled_from, harmonised, lifted_table, lifted_value,
    occupancy_fits, occupied_coupling, occupied_from, occupied_value, raised_from, raised_value,
    single_container_table, thread_scaled, thread_scaled_from, thread_scaled_value, used_extrema,
    CouplingModel,
};
use crate::rader_tree::{
    coupled_from, lifted_from, nested_optimized_from, optimized_tree, with_coupled, with_registers,
    with_subcontainers, RaderTreeModel,
};
use crate::registers::VKFFT_RADIX_TABLE_LEN;

verus! {

/// Whether one table of registers grew into another: the same radices are used, no count
/// shrank, and a count of whole butterflies stays one.
pub open spec fn table_grew(before: Seq<usize>, after: Seq<usize>) -> bool {
    &&& after.len() == before.len()
    &&& forall|r: int|
        0 <= r < before.len() ==> {
            &&& (#[trigger] after[r] == 0) == (before[r] == 0)
            &&& after[r] >= before[r]
            &&& r >= 2 && before[r] as int % r == 0 ==> after[r] as int % r == 0
        }
}

proof fn growing_goes_on(first: Seq<usize>, second: Seq<usize>, third: Seq<usize>)
    requires
        table_grew(first, second),
        table_grew(second, third),
    ensures
        table_grew(first, third),
{
    assert forall|r: int| 0 <= r < first.len() implies {
        &&& (#[trigger] third[r] == 0) == (first[r] == 0)
        &&& third[r] >= first[r]
        &&& r >= 2 && first[r] as int % r == 0 ==> third[r] as int % r == 0
    } by {
        assert((second[r] == 0) == (first[r] == 0));
    }
}

proof fn growing_entry(table: Seq<usize>, radix: int, value: usize)
    requires
        0 <= radix < table.len(),
        (value == 0) == (table[radix] == 0),
        value >= table[radix],
        radix >= 2 && table[radix] as int % radix == 0 ==> value as int % radix == 0,
    ensures
        table_grew(table, table.update(radix, value)),
{
}

/// A container's lanes are enough where the lanes around it hold all containers: a container
/// takes the fewest whole lanes that hold it, or several containers share one lane. There
/// are then as many registers as values.
pub proof fn fitting_occupancy_holds_all_containers(
    outer_threads: usize,
    container_fft_num: usize,
    container_fft_dim: usize,
    registers: usize,
)
    ensures
        occupancy_fits(outer_threads, container_fft_num, container_fft_dim, registers) matches Ok(
            fits,
        ) ==> {
            &&& fits ==> outer_threads * registers >= container_fft_num * container_fft_dim
            &&& registers < container_fft_dim ==> exists|lanes: int| #[trigger]
                lanes_cover(lanes, registers as int, container_fft_dim as int) && (fits
                    <==> container_fft_num * lanes <= outer_threads)
            &&& registers >= container_fft_dim ==> exists|shared: int|
                #![trigger outer_threads * shared]
                shared * container_fft_dim <= registers < (shared + 1) * container_fft_dim && (fits
                    <==> container_fft_num <= outer_threads * shared)
        },
{
    let planned = occupancy_fits(outer_threads, container_fft_num, container_fft_dim, registers);
    if planned is Ok {
        if registers < container_fft_dim {
            lanes_cover_tightly(container_fft_dim, registers);
            let lanes = ceil_div(container_fft_dim, registers)->Ok_0;
            assert(lanes_cover(lanes as int, registers as int, container_fft_dim as int));
            if planned->Ok_0 {
                product_grows(container_fft_num * lanes, outer_threads as int, registers as int);
                product_grows(
                    container_fft_dim as int,
                    lanes * registers,
                    container_fft_num as int,
                );
                assert((container_fft_num * lanes) * registers == container_fft_num * (lanes
                    * registers)) by (nonlinear_arith);
            }
        } else {
            let shared = registers as int / container_fft_dim as int;
            whole_quotient(registers as int, container_fft_dim as int);
            assert(outer_threads * shared == outer_threads * shared);
            if planned->Ok_0 {
                product_grows(
                    container_fft_num as int,
                    outer_threads * shared,
                    container_fft_dim as int,
                );
                product_grows(
                    shared * container_fft_dim,
                    registers as int,
                    outer_threads as int,
                );
                assert((outer_threads * shared) * container_fft_dim == outer_threads * (shared
                    * container_fft_dim)) by (nonlinear_arith);
            }
        }
    }
}

proof fn step_keeps_remainder(value: int, radix: int, steps: int)
    requires
        radix > 0,
    ensures
        (value + steps * radix) % radix == value % radix,
{
    vstd::arithmetic::div_mod::lemma_mod_multiples_vanish(steps, value, radix);
    assert(radix * steps == steps * radix) by (nonlinear_arith);
}

/// A count raised to a floor is the first of its steps by the radix that reaches it.
pub proof fn raised_value_is_the_first_step(
    value: int,
    radix: int,
    floor: int,
    operation: &'static str,
)
    requires
        0 <= value <= usize::MAX,
        radix > 0,
    ensures
        raised_value(value, radix, floor, operation) matches Ok(raised) ==> {
            &&& raised >= value
            &&& raised >= floor
            &&& raised as int % radix == value % radix
            &&& raised > value ==> raised - radix < floor
        },
    decreases usize::MAX - value,
{
    if value < floor && value + radix <= usize::MAX {
        raised_value_is_the_first_step(value + radix, radix, floor, operation);
        step_keeps_remainder(value, radix, 1);
    }
}

/// A count raised until the containers fit is the first of its steps by the radix at which
/// they do.
pub proof fn occupied_value_is_the_first_step(
    value: int,
    radix: int,
    outer_threads: usize,
    container_fft_num: usize,
    container_fft_dim: usize,
    operation: &'static str,
)
    requires
        0 <= value <= usize::MAX,
        radix > 0,
    ensures
        occupied_value(
            value,
            radix,
            outer_threads,
            container_fft_num,
            container_fft_dim,
            operation,
        ) matches Ok(raised) ==> {
            &&& raised >= value
            &&& raised > 0
            &&& raised as int % radix == value % radix
            &&& outer_threads * raised >= container_fft_num * container_fft_dim
            &&& occupancy_fits(
                outer_threads,
                container_fft_num,
                container_fft_dim,
                raised,
            ) == Ok::<bool, VkFftError>(true)
            &&& raised > value ==> raised - radix >= value && occupancy_fits(
                outer_threads,
                container_fft_num,
                container_fft_dim,
                (raised - radix) as usize,
            ) == Ok::<bool, VkFftError>(false)
        },
    decreases usize::MAX - value,
{
    let fits = occupancy_fits(
        outer_threads,
        container_fft_num,
        container_fft_dim,
        value as usize,
    );
    fitting_occupancy_holds_all_containers(
        outer_threads,
        container_fft_num,
        container_fft_dim,
        value as usize,
    );
    if fits is Ok && !fits->Ok_0 && value + radix <= usize::MAX {
        occupied_value_is_the_first_step(
            value + radix,
            radix,
            outer_threads,
            container_fft_num,
            container_fft_dim,
            operation,
        );
        step_keeps_remainder(value, radix, 1);
    }
}

/// A count lifted towards a maximum is the last of its steps by the radix that passes it by
/// one at most.
pub proof fn lifted_value_is_the_last_step(value: int, radix: int, most: int)
    requires
        0 <= value <= usize::MAX,
        0 <= most <= usize::MAX,
        radix > 0,
    ensures
        ({
            let lifted = lifted_value(value, radix, most);
            &&& value <= lifted <= usize::MAX
            &&& lifted % radix == value % radix
            &&& lifted > value ==> lifted <= most + 1
            &&& lifted + radix > most + 1 || lifted + radix > usize::MAX
        }),
    decreases most + 1 - value,
{
    if value + radix <= usize::MAX && value + radix <= most + 1 {
        lifted_value_is_the_last_step(value + radix, radix, most);
        step_keeps_remainder(value, radix, 1);
    }
}

proof fn multiplied_entry(value: usize, times: int, radix: int)
    requires
        radix >= 2,
        value as int % radix == 0,
    ensures
        (value * times) % radix == 0,
{
    let q = value as int / radix;
    vstd::arithmetic::div_mod::lemma_fundamental_div_mod(value as int, radix);
    assert(value * times == (q * times) * radix) by (nonlinear_arith)
        requires
            value == radix * q,
    ;
    vstd::arithmetic::div_mod::lemma_mod_multiples_basic(q * times, radix);
}

proof fn floor_scaling_grows(table: Seq<usize>, floor: usize, most: usize, radix: int)
    requires
        table.len() == VKFFT_RADIX_TABLE_LEN,
        0 <= radix <= table.len(),
    ensures
        floor_scaled_from(table, floor, most, radix) matches Ok((scaled, largest)) ==> {
            &&& table_grew(table, scaled)
            &&& forall|r: int| 0 <= r < radix ==> scaled[r] == #[trigger] table[r]
            &&& forall|r: int|
                radix <= r < table.len() && #[trigger] scaled[r] != 0 ==> scaled[r] >= floor
                    && scaled[r] <= largest
            &&& forall|r: int|
                0 <= r < table.len() && table[r] != 0 ==> (#[trigger] scaled[r]) as int
                    % table[r] as int == 0
            &&& largest >= most
        },
    decreases VKFFT_RADIX_TABLE_LEN - radix,
{
    if radix < VKFFT_RADIX_TABLE_LEN {
        if 0 < table[radix] < floor {
            if ceil_div(floor, table[radix]) is Ok {
                let times = ceil_div(floor, table[radix])->Ok_0;
                ceil_div_is_least_cover(floor, table[radix]);
                assert(times * table[radix] == table[radix] * times) by (nonlinear_arith);
                let value = (table[radix] * times) as usize;
                if radix >= 2 && table[radix] as int % radix == 0 {
                    multiplied_entry(table[radix], times as int, radix);
                }
                let next = table.update(radix, value);
                growing_entry(table, radix, value);
                floor_scaling_grows(next, floor, umax(most, value), radix + 1);
                if floor_scaled_from(table, floor, most, radix) is Ok {
                    let scaled = floor_scaled_from(table, floor, most, radix)->Ok_0.0;
                    growing_goes_on(table, next, scaled);
                    assert(scaled[radix] == next[radix]);
                    assert forall|r: int| 0 <= r < table.len() && table[r] != 0 implies (
                    #[trigger] scaled[r]) as int % table[r] as int == 0 by {
                        if r == radix {
                            vstd::arithmetic::div_mod::lemma_mod_multiples_basic(
                                times as int,
                                table[radix] as int,
                            );
                        } else {
                            assert(next[r] == table[r]);
                        }
                    }
                }
            }
        } else {
            floor_scaling_grows(table, floor, umax(most, table[radix]), radix + 1);
        }
    } else {
        assert forall|r: int| 0 <= r < table.len() && table[r] != 0 implies (
        #[trigger] table[r]) as int % table[r] as int == 0 by {
            vstd::arithmetic::div_mod::lemma_mod_self_0(table[r] as int);
        }
    }
}

proof fn raising_grows(
    table: Seq<usize>,
    floor: usize,
    most: usize,
    radix: int,
    operation: &'static str,
)
    requires
        table.len() == VKFFT_RADIX_TABLE_LEN,
        2 <= radix <= table.len(),
    ensures
        raised_from(table, floor, most, radix, operation) matches Ok((raised, largest)) ==> {
            &&& table_grew(table, raised)
            &&& forall|r: int| 0 <= r < radix ==> raised[r] == #[trigger] table[r]
            &&& forall|r: int|
                radix <= r < table.len() && #[trigger] raised[r] != 0 ==> raised[r] >= floor
                    && raised[r] <= largest
            &&& largest >= most
        },
    decreases VKFFT_RADIX_TABLE_LEN - radix,
{
    if radix < VKFFT_RADIX_TABLE_LEN {
        if table[radix] == 0 {
            raising_grows(table, floor, most, radix + 1, operation);
        } else {
            let here = raised_value(table[radix] as int, radix, floor as int, operation);
            raised_value_is_the_first_step(table[radix] as int, radix, floor as int, operation);
            if here is Ok {
                let value = here->Ok_0;
                let next = table.update(radix, value);
                growing_entry(table, radix, value);
                raising_grows(next, floor, umax(most, value), radix + 1, operation);
                if raised_from(table, floor, most, radix, operation) is Ok {
                    let raised = raised_from(table, floor, most, radix, operation)->Ok_0.0;
                    growing_goes_on(table, next, raised);
                    assert(raised[radix] == next[radix]);
                }
            }
        }
    }
}

proof fn occupying_grows(
    table: Seq<usize>,
    most: usize,
    radix: int,
    outer_threads: usize,
    container_fft_num: usize,
    container_fft_dim: usize,
    operation: &'static str,
)
    requires
        table.len() == VKFFT_RADIX_TABLE_LEN,
        2 <= radix <= table.len(),
    ensures
        occupied_from(
            table,
            most,
            radix,
            outer_threads,
            container_fft_num,
            container_fft_dim,
            operation,
        ) matches Ok((raised, largest)) ==> {
            &&& table_grew(table, raised)
            &&& forall|r: int| 0 <= r < radix ==> raised[r] == #[trigger] table[r]
            &&& forall|r: int|
                radix <= r < table.len() && #[trigger] raised[r] != 0 ==> outer_threads * raised[r]
                    >= container_fft_num * container_fft_dim && raised[r] <= largest
            &&& largest >= most
        },
    decreases VKFFT_RADIX_TABLE_LEN - radix,
{
    if radix < VKFFT_RADIX_TABLE_LEN {
        if table[radix] == 0 {
            occupying_grows(
                table,
                most,
                radix + 1,
                outer_threads,
                container_fft_num,
                container_fft_dim,
                operation,
            );
        } else {
            let here = occupied_value(
                table[radix] as int,
                radix,
                outer_threads,
                container_fft_num,
                container_fft_dim,
                operation,
            );
            occupied_value_is_the_first_step(
                table[radix] as int,
                radix,
                outer_threads,
                container_fft_num,
                container_fft_dim,
                operation,
            );
            if here is Ok {
                let value = here->Ok_0;
                let next = table.update(radix, value);
                growing_entry(table, radix, value);
                occupying_grows(
                    next,
                    umax(most, value),
                    radix + 1,
                    outer_threads,
                    container_fft_num,
                    container_fft_dim,
                    operation,
                );
                let all = occupied_from(
                    table,
                    most,
                    radix,
                    outer_threads,
                    container_fft_num,
                    container_fft_dim,
                    operation,
                );
                if all is Ok {
                    growing_goes_on(table, next, all->Ok_0.0);
                    assert(all->Ok_0.0[radix] == next[radix]);
                }
            }
        }
    }
}


/// Whether every used entry of a table lies between two counts.
pub open spec fn entries_within(table: Seq<usize>, least: usize, most: usize) -> bool {
    forall|r: int|
        0 <= r < table.len() && #[trigger] table[r] != 0 ==> least <= table[r] <= most
}

/// Whichever side has less than half the other's least count is multiplied up towards it:
/// afterwards neither least count is twice the other, no count has shrunk, and no largest
/// count either.
pub proof fn harmonised_counts_meet(c: CouplingModel)
    requires
        c.outer.len() == VKFFT_RADIX_TABLE_LEN,
        c.table.len() == VKFFT_RADIX_TABLE_LEN,
        c.outer_least >= 1,
        c.least >= 1,
    ensures
        harmonised(c) matches Ok(h) ==> {
            &&& table_grew(c.outer, h.outer)
            &&& table_grew(c.table, h.table)
            &&& h.outer_least >= c.outer_least && h.least >= c.least
            &&& h.outer_least as int % c.outer_least as int == 0
            &&& h.least as int % c.least as int == 0
            &&& h.outer_most >= c.outer_most && h.most >= c.most
            &&& h.outer_least < 2 * h.least && h.least < 2 * h.outer_least
            &&& entries_within(c.table, c.least, c.most) ==> entries_within(
                h.table,
                h.least,
                h.most,
            )
            &&& entries_within(c.outer, c.outer_least, c.outer_most) ==> entries_within(
                h.outer,
                h.outer_least,
                h.outer_most,
            )
        },
{
    reveal(harmonised);
    growing_nothing(c.outer);
    growing_nothing(c.table);
    whole_quotient(c.least as int, c.outer_least as int);
    whole_quotient(c.outer_least as int, c.least as int);
    vstd::arithmetic::div_mod::lemma_mod_self_0(c.least as int);
    vstd::arithmetic::div_mod::lemma_mod_self_0(c.outer_least as int);
    let up = quotient(c.least, c.outer_least);
    let down = quotient(c.outer_least, c.least);
    if up >= 2 {
        let floor = round_down(c.least, c.outer_least);
        rounding_loses_less_than_a_unit(c.least, c.outer_least);
        product_grows(2, up as int, c.outer_least as int);
        floor_scaling_grows(c.outer, floor, c.outer_most, 0);
    } else if down >= 2 {
        let floor = round_down(c.outer_least, c.least);
        rounding_loses_less_than_a_unit(c.outer_least, c.least);
        product_grows(2, down as int, c.least as int);
        floor_scaling_grows(c.table, floor, c.most, 0);
    } else {
        product_grows(up + 1, 2, c.outer_least as int);
        product_grows(down + 1, 2, c.least as int);
    }
}

proof fn growing_nothing(table: Seq<usize>)
    ensures
        table_grew(table, table),
{
}

/// A table with unused entries below radix 2, as every register table has.
pub open spec fn starts_at_two(table: Seq<usize>) -> bool {
    table.len() == VKFFT_RADIX_TABLE_LEN && table[0] == 0 && table[1] == 0
}

/// A container coupled to the transform around it uses the radices it used, with counts that
/// never shrink and stay whole butterflies. The lanes around, from a least count that never
/// shrinks either, then hold all values of all containers in every stage's registers.
pub proof fn coupled_containers_are_held(
    c: CouplingModel,
    sequence_len: usize,
    container_fft_num: usize,
    container_fft_dim: usize,
    alignment_operation: &'static str,
    occupancy_operation: &'static str,
)
    requires
        starts_at_two(c.table),
        starts_at_two(c.outer),
        c.outer_least >= 1,
        c.least >= 1,
        sequence_len >= 1,
    ensures
        coupled_container(
            c,
            sequence_len,
            container_fft_num,
            container_fft_dim,
            alignment_operation,
            occupancy_operation,
        ) matches Ok(done) ==> {
            &&& table_grew(c.table, done.table)
            &&& table_grew(c.outer, done.outer)
            &&& done.outer_least >= c.outer_least
            &&& done.least >= c.least
            &&& done.most >= c.most && done.outer_most >= c.outer_most
            &&& exists|threads: int| #[trigger]
                lanes_cover(threads, done.outer_least as int, sequence_len as int) && forall|r: int|
                    0 <= r < done.table.len() && #[trigger] done.table[r] != 0 ==> threads
                        * done.table[r] >= container_fft_num * container_fft_dim && (
                    done.table[r] >= done.outer_least || done.outer_least <= done.least)
        },
{
    let first = harmonised(c);
    harmonised_counts_meet(c);
    if first is Ok {
        let harmonic = first->Ok_0;
        reveal(aligned_coupling);
        growing_nothing(harmonic.table);
        raising_grows(
            harmonic.table,
            harmonic.outer_least,
            harmonic.most,
            2,
            alignment_operation,
        );
        let second = aligned_coupling(harmonic, alignment_operation);
        if second is Ok {
            let aligned = second->Ok_0;
            growing_goes_on(c.table, harmonic.table, aligned.table);
            occupied_containers_are_held(
                aligned,
                sequence_len,
                container_fft_num,
                container_fft_dim,
                occupancy_operation,
            );
            let third = occupied_coupling(
                aligned,
                sequence_len,
                container_fft_num,
                container_fft_dim,
                occupancy_operation,
            );
            if third is Ok {
                growing_goes_on(c.table, aligned.table, third->Ok_0.table);
                let threads = ceil_div(sequence_len, aligned.outer_least)->Ok_0;
                assert(lanes_cover(
                    threads as int,
                    third->Ok_0.outer_least as int,
                    sequence_len as int,
                ));
                let done = third->Ok_0;
                assert forall|r: int|
                    0 <= r < done.table.len() && #[trigger] done.table[r] != 0 implies threads
                    * done.table[r] >= container_fft_num * container_fft_dim && (done.table[r]
                    >= done.outer_least || done.outer_least <= done.least) by {
                    assert(aligned.table[r] != 0);
                    assert(harmonic.table[r] != 0);
                }
            }
        }
    }
}

proof fn occupied_containers_are_held(
    c: CouplingModel,
    sequence_len: usize,
    container_fft_num: usize,
    container_fft_dim: usize,
    operation: &'static str,
)
    requires
        starts_at_two(c.table),
        c.outer_least >= 1,
        sequence_len >= 1,
    ensures
        occupied_coupling(c, sequence_len, container_fft_num, container_fft_dim, operation) matches
            Ok(done) ==> {
            let threads = ceil_div(sequence_len, c.outer_least)->Ok_0;
            &&& table_grew(c.table, done.table)
            &&& done.outer == c.outer && done.outer_least == c.outer_least && done.outer_most
                == c.outer_most && done.least == c.least
            &&& done.most >= c.most
            &&& ceil_div(sequence_len, c.outer_least) is Ok
            &&& lanes_cover(threads as int, c.outer_least as int, sequence_len as int)
            &&& forall|r: int|
                0 <= r < done.table.len() && #[trigger] done.table[r] != 0 ==> threads
                    * done.table[r] >= container_fft_num * container_fft_dim
        },
{
    reveal(occupied_coupling);
    if ceil_div(sequence_len, c.outer_least) is Ok {
        let threads = ceil_div(sequence_len, c.outer_least)->Ok_0;
        lanes_cover_tightly(sequence_len, c.outer_least);
        occupying_grows(
            c.table,
            c.most,
            2,
            threads,
            container_fft_num,
            container_fft_dim,
            operation,
        );
    }
}

proof fn lifting_grows(table: Seq<usize>, most: usize)
    ensures
        table_grew(table, lifted_table(table, most)),
{
    let lifted = lifted_table(table, most);
    assert forall|r: int| 0 <= r < table.len() implies {
        &&& (#[trigger] lifted[r] == 0) == (table[r] == 0)
        &&& lifted[r] >= table[r]
        &&& r >= 2 && table[r] as int % r == 0 ==> lifted[r] as int % r == 0
    } by {
        if r >= 2 && table[r] != 0 {
            lifted_value_is_the_last_step(table[r] as int, r, most as int);
        }
    }
}

/// The only container of a transform: its table uses the radices it used, with counts that
/// never shrink and stay whole butterflies. The lanes around it, from a least count between
/// the least returned and the outer one's multiple, hold all values of all containers in
/// every stage's registers. The count returned is no larger than any of them.
pub proof fn single_containers_are_held(
    outer_fft_len: usize,
    container_fft_num: usize,
    outer: Seq<usize>,
    outer_most: usize,
    outer_least: usize,
    table: Seq<usize>,
)
    requires
        starts_at_two(table),
        starts_at_two(outer),
    ensures
        single_container_table(
            outer_fft_len,
            container_fft_num,
            outer,
            outer_most,
            outer_least,
            table,
        ) matches Ok((done, least)) ==> {
            &&& table_grew(table, done)
            &&& outer_fft_len % container_fft_num == 0
            &&& forall|r: int| 0 <= r < done.len() && #[trigger] done[r] != 0 ==> least <= done[r]
            &&& exists|outer_count: int, threads: int| #[trigger]
                lanes_cover(threads, outer_count, outer_fft_len as int) && outer_count
                    >= outer_least && outer_count >= least && forall|r: int|
                    0 <= r < done.len() && #[trigger] done[r] != 0 ==> threads * done[r]
                        >= container_fft_num * (outer_fft_len / container_fft_num - 1)
        },
{
    reveal(single_container_table);
    let planned = single_container_table(
        outer_fft_len,
        container_fft_num,
        outer,
        outer_most,
        outer_least,
        table,
    );
    if planned is Ok {
        let (done, least) = planned->Ok_0;
        let (most, smallest) = used_extrema(table)->Ok_0;
        some_count_is_positive(table, 0, 0, usize::MAX);
        let coupling = CouplingModel {
            outer,
            outer_most,
            outer_least,
            table,
            most,
            least: smallest,
        };
        harmonised_counts_meet(coupling);
        let harmonic = harmonised(coupling)->Ok_0;
        reveal(aligned_coupling);
        growing_nothing(harmonic.table);
        raising_grows(
            harmonic.table,
            harmonic.outer_least,
            harmonic.most,
            2,
            "Rader register alignment",
        );
        let aligned = aligned_coupling(harmonic, "Rader register alignment")->Ok_0;
        growing_goes_on(table, harmonic.table, aligned.table);
        let prime = (outer_fft_len / container_fft_num) as usize;
        let dim = prime.saturating_sub(1);
        occupied_containers_are_held(
            aligned,
            outer_fft_len,
            container_fft_num,
            dim,
            "Rader occupancy register scaling",
        );
        let occupied = occupied_coupling(
            aligned,
            outer_fft_len,
            container_fft_num,
            dim,
            "Rader occupancy register scaling",
        )->Ok_0;
        growing_goes_on(table, aligned.table, occupied.table);
        let top = umax(occupied.outer_most, occupied.most);
        lifting_grows(occupied.table, top);
        growing_goes_on(table, occupied.table, done);
        let threads = ceil_div(outer_fft_len, aligned.outer_least)->Ok_0;
        assert forall|r: int| 0 <= r < done.len() && #[trigger] done[r] != 0 implies {
            &&& least <= done[r]
            &&& threads * done[r] >= container_fft_num * (outer_fft_len / container_fft_num - 1)
        } by {
            extrema_span_used_entries(done, 0, 0, usize::MAX, r);
            assert(occupied.table[r] != 0);
            product_grows(occupied.table[r] as int, done[r] as int, threads as int);
            product_grows(
                outer_fft_len / container_fft_num - 1,
                dim as int,
                container_fft_num as int,
            );
        }
        assert(lanes_cover(threads as int, aligned.outer_least as int, outer_fft_len as int));
    }
}

proof fn some_count_is_positive(table: Seq<usize>, from: int, most: usize, least: usize)
    requires
        0 <= from,
        least >= 1,
    ensures
        crate::registers::table_extrema_from(table, from, most, least).1 >= 1,
    decreases table.len() - from,
{
    if from < table.len() {
        if table[from] == 0 {
            some_count_is_positive(table, from + 1, most, least);
        } else {
            some_count_is_positive(
                table,
                from + 1,
                umax(most, table[from]),
                umin(least, table[from]),
            );
        }
    }
}


/// A stage count raised until its lanes keep to a limit is the first of its steps by the
/// radix at which they do.
proof fn thread_scaled_value_is_the_first_step(value: int, radix: int, len: usize, limit: usize)
    requires
        0 < value <= usize::MAX,
        radix > 0,
    ensures
        thread_scaled_value(value, radix, len, limit) matches Ok(scaled) ==> {
            &&& scaled >= value
            &&& scaled as int % radix == value % radix
            &&& limit * scaled >= len
            &&& scaled > value ==> scaled - radix >= value && limit * (scaled - radix) < len
        },
    decreases usize::MAX - value,
{
    if ceil_div(len, value as usize) is Ok {
        let lanes = ceil_div(len, value as usize)->Ok_0;
        ceil_div_is_least_cover(len, value as usize);
        if lanes <= limit {
            product_grows(lanes as int, limit as int, value);
        } else if value + radix <= usize::MAX {
            thread_scaled_value_is_the_first_step(value + radix, radix, len, limit);
            step_keeps_remainder(value, radix, 1);
            assert((limit as int) * value < len);
            let done = thread_scaled_value(value, radix, len, limit);
            if done is Ok && done->Ok_0 > value {
                product_grows(value, done->Ok_0 - radix, limit as int);
            }
        }
    }
}

proof fn thread_scaling_fits(
    table: Seq<usize>,
    stages: Seq<usize>,
    len: usize,
    limit: usize,
    from: int,
)
    requires
        table.len() == VKFFT_RADIX_TABLE_LEN,
        0 <= from <= stages.len(),
    ensures
        thread_scaled_from(table, stages, len, limit, from) matches Ok(scaled) ==> {
            &&& scaled.len() == table.len()
            &&& forall|i: int|
                from <= i < stages.len() ==> {
                    let radix = #[trigger] stages[i] as int;
                    &&& 0 < radix < table.len()
                    &&& scaled[radix] as int % radix == 0
                    &&& limit * scaled[radix] >= len
                }
            &&& forall|r: int|
                0 <= r < table.len() ==> {
                    &&& (#[trigger] scaled[r]) >= table[r]
                    &&& scaled[r] > table[r] ==> limit * (scaled[r] - r) < len && exists|i: int|
                        from <= i < stages.len() && #[trigger] stages[i] == r
                    &&& limit * table[r] >= len ==> scaled[r] == table[r]
                    &&& table[r] as int % r == 0 ==> r == 0 || scaled[r] as int % r == 0
                }
        },
    decreases stages.len() - from,
{
    if from < stages.len() && stages[from] < VKFFT_RADIX_TABLE_LEN {
        let radix = stages[from] as int;
        let start = table[radix];
        if start != 0 && crate::axis_block::multiple_of(start, stages[from]) {
            let here = thread_scaled_value(start as int, radix, len, limit);
            assert(radix > 0);
            thread_scaled_value_is_the_first_step(start as int, radix, len, limit);
            if here is Ok {
                let value = here->Ok_0;
                let next = table.update(radix, value);
                thread_scaling_fits(next, stages, len, limit, from + 1);
                if value > start {
                    product_grows(start as int, value - radix, limit as int);
                }
                let all = thread_scaled_from(table, stages, len, limit, from);
                if all is Ok {
                    let scaled = all->Ok_0;
                    assert(scaled[radix] == value);
                    assert forall|r: int| 0 <= r < table.len() implies {
                        &&& (#[trigger] scaled[r]) >= table[r]
                        &&& scaled[r] > table[r] ==> limit * (scaled[r] - r) < len && exists|i: int|
                            from <= i < stages.len() && #[trigger] stages[i] == r
                        &&& limit * table[r] >= len ==> scaled[r] == table[r]
                        &&& table[r] as int % r == 0 ==> r == 0 || scaled[r] as int % r == 0
                    } by {
                        if r == radix {
                            assert(stages[from] == r);
                        } else {
                            assert(next[r] == table[r]);
                        }
                    }
                }
            }
        }
    }
}

/// Stage counts that are raised to a workgroup's limit: as many lanes as all containers may
/// take hold a convolution in every stage's registers. A count is raised only for a stage and
/// by no step more than needed, and stays a multiple of its radix.
pub proof fn scaled_stages_fit_the_workgroup(
    convolution_len: usize,
    container_fft_num: usize,
    max_threads_per_block: usize,
    stages: Seq<usize>,
    table: Seq<usize>,
)
    requires
        table.len() == VKFFT_RADIX_TABLE_LEN,
    ensures
        thread_scaled(
            convolution_len,
            container_fft_num,
            max_threads_per_block,
            stages,
            table,
        ) matches Ok(scaled) ==> {
            let limit = max_threads_per_block as int / container_fft_num as int;
            &&& 1 <= limit
            &&& limit * container_fft_num <= max_threads_per_block
            &&& scaled.len() == table.len()
            &&& forall|i: int|
                0 <= i < stages.len() ==> {
                    let radix = #[trigger] stages[i] as int;
                    &&& scaled[radix] as int % radix == 0
                    &&& limit * scaled[radix] >= convolution_len
                }
            &&& forall|r: int|
                0 <= r < table.len() ==> {
                    &&& (#[trigger] scaled[r]) >= table[r]
                    &&& scaled[r] > table[r] ==> limit * (scaled[r] - r) < convolution_len
                        && exists|i: int| 0 <= i < stages.len() && #[trigger] stages[i] == r
                }
        },
        thread_scaled(
            convolution_len,
            container_fft_num,
            max_threads_per_block,
            stages,
            table,
        ) is Ok ==> container_fft_num <= max_threads_per_block,
{
    if convolution_len != 0 && container_fft_num != 0 && container_fft_num
        <= max_threads_per_block {
        whole_quotient(max_threads_per_block as int, container_fft_num as int);
        vstd::arithmetic::div_mod::lemma_div_non_zero(
            max_threads_per_block as int,
            container_fft_num as int,
        );
        thread_scaling_fits(
            table,
            stages,
            convolution_len,
            (max_threads_per_block / container_fft_num) as usize,
            0,
        );
    }
}


/// Whether a container's table starts at radix 2 and, where it is convolved by transforms,
/// has a least count.
pub open spec fn container_sound(container: RaderContainerModel) -> bool {
    &&& starts_at_two(container.registers_per_thread_per_radix)
    &&& container.kind != MultiFftRaderContainerKind::Direct ==> container.min_registers_per_thread
        >= 1
}

/// The same of every container inside it.
pub open spec fn deeply_sound(container: RaderContainerModel) -> bool
    decreases container,
{
    &&& container_sound(container)
    &&& forall|i: int|
        0 <= i < container.subcontainers.len() ==> deeply_sound(
            #[trigger] container.subcontainers[i],
        )
}

/// Whether a tree has a least count, an outer table that starts at radix 2 and sound
/// containers.
pub open spec fn tree_sound(tree: RaderTreeModel) -> bool {
    &&& starts_at_two(tree.outer)
    &&& tree.least >= 1
    &&& forall|i: int| 0 <= i < tree.containers.len() ==>
        container_sound(#[trigger] tree.containers[i])
}

/// Whether the registers of every container of a list grew.
pub open spec fn containers_grew(
    before: Seq<RaderContainerModel>,
    after: Seq<RaderContainerModel>,
) -> bool {
    &&& before.len() == after.len()
    &&& forall|i: int|
        0 <= i < before.len() ==> table_grew(
            before[i].registers_per_thread_per_radix,
            (#[trigger] after[i]).registers_per_thread_per_radix,
        ) && after[i].kind == before[i].kind
}

proof fn containers_growing_goes_on(
    first: Seq<RaderContainerModel>,
    second: Seq<RaderContainerModel>,
    third: Seq<RaderContainerModel>,
)
    requires
        containers_grew(first, second),
        containers_grew(second, third),
    ensures
        containers_grew(first, third),
{
    assert forall|i: int| 0 <= i < first.len() implies table_grew(
        first[i].registers_per_thread_per_radix,
        (#[trigger] third[i]).registers_per_thread_per_radix,
    ) && third[i].kind == first[i].kind by {
        assert(second[i].kind == first[i].kind);
        growing_goes_on(
            first[i].registers_per_thread_per_radix,
            second[i].registers_per_thread_per_radix,
            third[i].registers_per_thread_per_radix,
        );
    }
}

proof fn containers_growing_nothing(containers: Seq<RaderContainerModel>)
    ensures
        containers_grew(containers, containers),
{
}

proof fn replacing_one_grows(
    containers: Seq<RaderContainerModel>,
    index: int,
    after: RaderContainerModel,
)
    requires
        0 <= index < containers.len(),
        table_grew(
            containers[index].registers_per_thread_per_radix,
            after.registers_per_thread_per_radix,
        ),
        after.kind == containers[index].kind,
    ensures
        containers_grew(containers, containers.update(index, after)),
{
}

proof fn grown_starts_at_two(before: Seq<usize>, after: Seq<usize>)
    requires
        starts_at_two(before),
        table_grew(before, after),
    ensures
        starts_at_two(after),
{
    assert((after[0] == 0) == (before[0] == 0));
    assert((after[1] == 0) == (before[1] == 0));
}

proof fn coupling_grows_the_tree(sequence_len: usize, tree: RaderTreeModel, from: nat)
    requires
        tree_sound(tree),
        sequence_len >= 1,
    ensures
        coupled_from(sequence_len, tree, from) matches Ok(coupled) ==> {
            &&& tree_sound(coupled)
            &&& table_grew(tree.outer, coupled.outer)
            &&& containers_grew(tree.containers, coupled.containers)
            &&& coupled.least >= tree.least
        },
    decreases tree.containers.len() - from,
{
    growing_nothing(tree.outer);
    containers_growing_nothing(tree.containers);
    if from < tree.containers.len() {
        let container = tree.containers[from as int];
        assert(container_sound(container));
        if container.kind == MultiFftRaderContainerKind::Direct {
            coupling_grows_the_tree(sequence_len, tree, from + 1);
        } else {
            let c = CouplingModel {
                outer: tree.outer,
                outer_most: tree.most,
                outer_least: tree.least,
                table: container.registers_per_thread_per_radix,
                most: container.registers_per_thread,
                least: container.min_registers_per_thread,
            };
            coupled_containers_are_held(
                c,
                sequence_len,
                container.container_fft_num,
                container.prime.saturating_sub(1),
                "multi FFT-Rader register alignment",
                "multi FFT-Rader occupancy register scaling",
            );
            let planned = coupled_container(
                c,
                sequence_len,
                container.container_fft_num,
                container.prime.saturating_sub(1),
                "multi FFT-Rader register alignment",
                "multi FFT-Rader occupancy register scaling",
            );
            if planned is Ok {
                let done = planned->Ok_0;
                let next = with_coupled(tree, from as int, done);
                grown_starts_at_two(c.outer, done.outer);
                grown_starts_at_two(c.table, done.table);
                let after = with_registers(container, done.table, done.most, done.least);
                replacing_one_grows(tree.containers, from as int, after);
                coupling_grows_the_tree(sequence_len, next, from + 1);
                let all = coupled_from(sequence_len, tree, from);
                if all is Ok {
                    growing_goes_on(tree.outer, next.outer, all->Ok_0.outer);
                    containers_growing_goes_on(
                        tree.containers,
                        next.containers,
                        all->Ok_0.containers,
                    );
                }
            }
        }
    }
}

/// Lifting the containers of a tree towards its largest count: no count shrinks, and every
/// used count of a container convolved by transforms ends less than one step of its radix
/// from one above the largest.
pub proof fn lifting_grows_the_list(containers: Seq<RaderContainerModel>, most: usize, from: nat)
    requires
        forall|i: int| 0 <= i < containers.len() ==> container_sound(#[trigger] containers[i]),
    ensures
        lifted_from(containers, most, from) matches Ok(lifted) ==> {
            &&& containers_grew(containers, lifted)
            &&& forall|i: int| 0 <= i < lifted.len() ==> container_sound(#[trigger] lifted[i])
            &&& forall|i: int| 0 <= i < from ==> lifted[i] == #[trigger] containers[i]
            &&& forall|i: int, r: int|
                #![trigger lifted[i].registers_per_thread_per_radix[r]]
                from <= i < lifted.len() && lifted[i].kind != MultiFftRaderContainerKind::Direct
                    && 2 <= r < VKFFT_RADIX_TABLE_LEN
                    && lifted[i].registers_per_thread_per_radix[r] != 0
                    ==> lifted[i].registers_per_thread_per_radix[r] + r > most + 1
                    || lifted[i].registers_per_thread_per_radix[r] + r > usize::MAX
        },
    decreases containers.len() - from,
{
    containers_growing_nothing(containers);
    if from < containers.len() {
        let container = containers[from as int];
        assert(container_sound(container));
        if container.kind == MultiFftRaderContainerKind::Direct {
            lifting_grows_the_list(containers, most, from + 1);
            let all = lifted_from(containers, most, from);
            if all is Ok {
                assert(all->Ok_0[from as int] == containers[from as int]);
            }
        } else {
            let before = container.registers_per_thread_per_radix;
            let table = lifted_table(before, most);
            lifting_grows(before, most);
            grown_starts_at_two(before, table);
            if used_extrema(table) is Ok {
                let (largest, smallest) = used_extrema(table)->Ok_0;
                some_count_is_positive(table, 0, 0, usize::MAX);
                let after = with_registers(container, table, largest, smallest);
                let next = containers.update(from as int, after);
                replacing_one_grows(containers, from as int, after);
                assert(container_sound(after));
                lifting_grows_the_list(next, most, from + 1);
                let all = lifted_from(containers, most, from);
                if all is Ok {
                    let lifted = all->Ok_0;
                    containers_growing_goes_on(containers, next, lifted);
                    assert(lifted[from as int] == next[from as int]);
                    assert forall|i: int| 0 <= i < from implies lifted[i]
                        == #[trigger] containers[i] by {
                        assert(next[i] == containers[i]);
                    }
                    assert forall|r: int|
                        2 <= r < VKFFT_RADIX_TABLE_LEN && #[trigger] table[r] != 0 implies table[r]
                        + r > most + 1 || table[r] + r > usize::MAX by {
                        lifted_value_is_the_last_step(before[r] as int, r, most as int);
                    }
                }
            }
        }
    }
}

proof fn nesting_grows_the_tree(
    sequence_len: usize,
    original: Seq<RaderContainerModel>,
    tree: RaderTreeModel,
    from: nat,
)
    requires
        sequence_len >= 1,
        starts_at_two(tree.outer),
        original.len() == tree.containers.len(),
        forall|i: int| 0 <= i < original.len() ==> deeply_sound(#[trigger] original[i]),
    ensures
        nested_optimized_from(sequence_len, original, tree, from) matches Ok(nested) ==> {
            &&& table_grew(tree.outer, nested.outer)
            &&& containers_grew(tree.containers, nested.containers)
            &&& starts_at_two(nested.outer)
        },
    decreases original, original.len() - from,
{
    growing_nothing(tree.outer);
    containers_growing_nothing(tree.containers);
    if from < original.len() {
        assert(deeply_sound(original[from as int]));
        let inside = original[from as int].subcontainers;
        if inside.len() == 0 {
            nesting_grows_the_tree(sequence_len, original, tree, from + 1);
        } else {
            let inner = RaderTreeModel {
                outer: tree.outer,
                most: tree.most,
                least: tree.least,
                containers: inside,
            };
            optimizing_grows_the_tree(sequence_len, inner);
            let planned = optimized_tree(sequence_len, inner);
            if planned is Ok {
                let nested = planned->Ok_0;
                let after = with_subcontainers(
                    tree.containers[from as int],
                    nested.containers,
                );
                growing_nothing(after.registers_per_thread_per_radix);
                replacing_one_grows(tree.containers, from as int, after);
                let next = RaderTreeModel {
                    outer: nested.outer,
                    most: nested.most,
                    least: nested.least,
                    containers: tree.containers.update(from as int, after),
                };
                grown_starts_at_two(tree.outer, nested.outer);
                nesting_grows_the_tree(sequence_len, original, next, from + 1);
                let all = nested_optimized_from(sequence_len, original, tree, from);
                if all is Ok {
                    growing_goes_on(tree.outer, next.outer, all->Ok_0.outer);
                    containers_growing_goes_on(
                        tree.containers,
                        next.containers,
                        all->Ok_0.containers,
                    );
                }
            }
        }
    }
}

/// Optimizing the registers of a tree never shrinks a count: the outer table and the table
/// of every container use the radices they used, with counts that are no smaller and stay
/// whole butterflies.
pub proof fn optimizing_grows_the_tree(sequence_len: usize, tree: RaderTreeModel)
    requires
        starts_at_two(tree.outer),
        forall|i: int|
            0 <= i < tree.containers.len() ==> deeply_sound(#[trigger] tree.containers[i]),
    ensures
        optimized_tree(sequence_len, tree) matches Ok(optimized) ==> {
            &&& table_grew(tree.outer, optimized.outer)
            &&& containers_grew(tree.containers, optimized.containers)
        },
    decreases tree.containers, tree.containers.len() + 1,
{
    let planned = optimized_tree(sequence_len, tree);
    if planned is Ok {
        assert forall|i: int| 0 <= i < tree.containers.len() implies container_sound(
            #[trigger] tree.containers[i],
        ) by {
            assert(deeply_sound(tree.containers[i]));
        }
        coupling_grows_the_tree(sequence_len, tree, 0);
        let coupled = coupled_from(sequence_len, tree, 0)->Ok_0;
        lifting_grows_the_list(coupled.containers, coupled.most, 0);
        let lifted = lifted_from(coupled.containers, coupled.most, 0)->Ok_0;
        containers_growing_goes_on(tree.containers, coupled.containers, lifted);
        let start = RaderTreeModel { containers: lifted, ..coupled };
        nesting_grows_the_tree(sequence_len, tree.containers, start, 0);
        let nested = nested_optimized_from(sequence_len, tree.containers, start, 0)->Ok_0;
        growing_goes_on(tree.outer, coupled.outer, nested.outer);
        containers_growing_goes_on(tree.containers, lifted, nested.containers);
    }
}

} // verus!
