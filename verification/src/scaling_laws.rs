//! How the registers of a transform with Rader containers are scaled: by the least factor at
//! which a workgroup holds its values, with counts that bound every table.

use vstd::prelude::*;

use crate::arith::{ceil_div, ceil_div_is_least_cover, umax, umin};

use crate::group_laws::{lanes_cover_tightly, product_grows, rounding_loses_less_than_a_unit};
use crate::memory_laws::lanes_cover;
use crate::pressure_laws::whole_quotient;
use crate::quad::extrema_span_used_entries;
use crate::rader_containers::RaderContainerModel;
use crate::rader_tree::{
    containers_scaled_from, effective_coalescing, levelled_table, outer_floor_from, register_scale,
    relieved_tree, scaled_outer, scaled_tree, stage_pressure, table_scaled_from,
    tables_extrema_from, tree_extrema, with_counts, RaderTreeModel,
};
use crate::registers::{table_extrema, table_extrema_from, VKFFT_RADIX_TABLE_LEN};

verus! {

/// The factor by which registers are scaled is the least at which the lanes of a workgroup
/// hold the values.
pub proof fn register_scale_is_least(elements: usize, least: usize, limit: usize)
    requires
        elements >= 1,
    ensures
        register_scale(elements, least, limit) matches Ok(scale) ==> {
            &&& scale >= 1
            &&& elements <= (least * limit) * scale
            &&& scale > 1 ==> (least * limit) * (scale - 1) < elements
        },
{
    if ceil_div(elements, least) is Ok {
        let threads = ceil_div(elements, least)->Ok_0;
        ceil_div_is_least_cover(elements, least);
        if threads <= limit {
            product_grows(threads as int, limit as int, least as int);
            assert((least * limit) * 1 == least * limit) by (nonlinear_arith);
        } else if least * limit <= usize::MAX && ceil_div(
            elements,
            (least * limit) as usize,
        ) is Ok {
            let capacity = (least * limit) as usize;
            lanes_cover_tightly(elements, capacity);
            let scale = ceil_div(elements, capacity)->Ok_0;
            assert(capacity * scale == scale * capacity && capacity * (scale - 1) == (scale - 1)
                * capacity) by (nonlinear_arith);
        }
    }
}

/// The first upload keeps the most transforms that the lanes hold, and one at least.
/// Elsewhere nothing is given up.
pub proof fn coalescing_keeps_what_fits(
    sequence_len: usize,
    max_batch_coalesced: usize,
    shrink_first_upload_coalescing: bool,
    limit: usize,
    least: usize,
)
    requires
        sequence_len >= 1,
    ensures
        effective_coalescing(
            sequence_len,
            max_batch_coalesced,
            shrink_first_upload_coalescing,
            limit,
            least,
        ) matches Ok(coalesced) ==> {
            &&& !shrink_first_upload_coalescing ==> coalesced == max_batch_coalesced
            &&& shrink_first_upload_coalescing && max_batch_coalesced > 1 ==> {
                &&& coalesced >= 1
                &&& coalesced > 1 ==> coalesced * sequence_len <= limit * least
                &&& (coalesced + 1) * sequence_len > limit * least
            }
        },
{
    whole_quotient(limit * least, sequence_len as int);
    if limit * least < sequence_len {
        product_grows(1, 2, sequence_len as int);
        assert(1 * sequence_len == sequence_len) by (nonlinear_arith);
    }
}

proof fn scaling_multiplies(table: Seq<usize>, scale: usize, operation: &'static str, from: int)
    requires
        table.len() == VKFFT_RADIX_TABLE_LEN,
        0 <= from <= table.len(),
    ensures
        table_scaled_from(table, scale, operation, from) matches Ok(scaled) ==> {
            &&& scaled.len() == table.len()
            &&& forall|r: int| 0 <= r < from ==> scaled[r] == #[trigger] table[r]
            &&& forall|r: int|
                from <= r < table.len() ==> #[trigger] scaled[r] == table[r] * scale
        },
    decreases VKFFT_RADIX_TABLE_LEN - from,
{
    if from < VKFFT_RADIX_TABLE_LEN {
        if table[from] == 0 {
            scaling_multiplies(table, scale, operation, from + 1);
            let here = table[from];
            assert(here * scale == 0) by (nonlinear_arith)
                requires
                    here == 0,
            ;
            let all = table_scaled_from(table, scale, operation, from);
            if all is Ok {
                assert(all->Ok_0[from] == table[from]);
            }
        } else if table[from] * scale <= usize::MAX {
            let next = table.update(from, (table[from] * scale) as usize);
            scaling_multiplies(next, scale, operation, from + 1);
            let all = table_scaled_from(table, scale, operation, from);
            if all is Ok {
                assert(all->Ok_0[from] == next[from]);
                assert forall|r: int| 0 <= r < from implies all->Ok_0[r] == #[trigger] table[r] by {
                    assert(next[r] == table[r]);
                }
                assert forall|r: int| from <= r < table.len() implies #[trigger] all->Ok_0[r]
                    == table[r] * scale by {
                    if r > from {
                        assert(next[r] == table[r]);
                    }
                }
            }
        }
    }
}

/// Scaling a register table multiplies every count.
pub proof fn scaled_tables_are_multiples(
    table: Seq<usize>,
    scale: usize,
    operation: &'static str,
)
    requires
        table.len() == VKFFT_RADIX_TABLE_LEN,
    ensures
        crate::rader_tree::table_scaled(table, scale, operation) matches Ok(scaled) ==> {
            &&& scaled.len() == table.len()
            &&& forall|r: int| 0 <= r < table.len() ==> #[trigger] scaled[r] == table[r] * scale
        },
{
    scaling_multiplies(table, scale, operation, 0);
}

/// Whether a count is used by a table.
pub open spec fn table_holds(table: Seq<usize>, count: usize) -> bool {
    exists|r: int| 0 <= r < table.len() && #[trigger] table[r] == count
}

pub(crate) proof fn extrema_are_taken(table: Seq<usize>, from: int, most: usize, least: usize)
    requires
        0 <= from <= table.len(),
    ensures
        ({
            let (largest, smallest) = table_extrema_from(table, from, most, least);
            &&& largest >= most && smallest <= least
            &&& largest == most || table_holds(table, largest)
            &&& smallest == least || (table_holds(table, smallest) && smallest != 0)
        }),
    decreases table.len() - from,
{
    if from < table.len() {
        if table[from] == 0 {
            extrema_are_taken(table, from + 1, most, least);
        } else {
            extrema_are_taken(
                table,
                from + 1,
                umax(most, table[from]),
                umin(least, table[from]),
            );
            assert(table_holds(table, table[from]));
        }
    }
}

/// Whether the counts of a tree bound every used entry of its tables.
pub open spec fn counts_bound_the_tables(tree: RaderTreeModel, most: usize, least: usize) -> bool {
    &&& forall|r: int|
        0 <= r < tree.outer.len() && #[trigger] tree.outer[r] != 0 ==> least <= tree.outer[r]
            <= most
    &&& forall|i: int, r: int|
        #![trigger tree.containers[i].registers_per_thread_per_radix[r]]
        0 <= i < tree.containers.len() && 0 <= r
            < tree.containers[i].registers_per_thread_per_radix.len()
            && tree.containers[i].registers_per_thread_per_radix[r] != 0 ==> least
            <= tree.containers[i].registers_per_thread_per_radix[r] <= most
}

/// Whether some table of a tree holds a count.
pub open spec fn tree_holds(tree: RaderTreeModel, count: usize) -> bool {
    ||| table_holds(tree.outer, count)
    ||| exists|i: int|
        0 <= i < tree.containers.len() && table_holds(
            (#[trigger] tree.containers[i]).registers_per_thread_per_radix,
            count,
        )
}

proof fn containers_extrema_span(
    containers: Seq<RaderContainerModel>,
    most: usize,
    least: usize,
    from: int,
)
    requires
        0 <= from <= containers.len(),
    ensures
        ({
            let (largest, smallest) = tables_extrema_from(containers, most, least, from);
            &&& largest >= most && smallest <= least
            &&& forall|i: int, r: int|
                #![trigger containers[i].registers_per_thread_per_radix[r]]
                from <= i < containers.len() && 0 <= r
                    < containers[i].registers_per_thread_per_radix.len()
                    && containers[i].registers_per_thread_per_radix[r] != 0 ==> smallest
                    <= containers[i].registers_per_thread_per_radix[r] <= largest
            &&& largest == most || exists|i: int|
                from <= i < containers.len() && table_holds(
                    (#[trigger] containers[i]).registers_per_thread_per_radix,
                    largest,
                )
            &&& smallest == least || exists|i: int|
                from <= i < containers.len() && table_holds(
                    (#[trigger] containers[i]).registers_per_thread_per_radix,
                    smallest,
                )
        }),
    decreases containers.len() - from,
{
    if from < containers.len() {
        let table = containers[from].registers_per_thread_per_radix;
        let (here_most, here_least) = table_extrema(table);
        extrema_are_taken(table, 0, 0, usize::MAX);
        containers_extrema_span(
            containers,
            umax(most, here_most),
            umin(least, here_least),
            from + 1,
        );
        assert forall|r: int| 0 <= r < table.len() && #[trigger] table[r] != 0 implies here_least
            <= table[r] <= here_most by {
            extrema_span_used_entries(table, 0, 0, usize::MAX, r);
        }
    }
}

/// The counts of a tree bound every table of it and the counts handed in, and each of them
/// is taken by some table or handed in.
pub proof fn tree_counts_span_the_tables(tree: RaderTreeModel, most: usize, least: usize)
    ensures
        ({
            let (largest, smallest) = tree_extrema(tree, most, least);
            &&& largest >= most && smallest <= least
            &&& counts_bound_the_tables(tree, largest, smallest)
            &&& largest == most || tree_holds(tree, largest)
            &&& smallest == least || tree_holds(tree, smallest)
        }),
{
    let (outer_most, outer_least) = table_extrema(tree.outer);
    extrema_are_taken(tree.outer, 0, 0, usize::MAX);
    containers_extrema_span(tree.containers, umax(most, outer_most), umin(least, outer_least), 0);
    assert forall|r: int| 0 <= r < tree.outer.len() && #[trigger] tree.outer[r]
        != 0 implies outer_least <= tree.outer[r] <= outer_most by {
        extrema_span_used_entries(tree.outer, 0, 0, usize::MAX, r);
    }
}

/// A levelled table: every count is the largest multiple of what it was within the target,
/// or what it was where that is larger than half the target.
pub proof fn levelled_tables_are_largest_multiples(table: Seq<usize>, target: usize)
    ensures
        levelled_table(table, target).len() == table.len(),
        forall|r: int|
            0 <= r < table.len() ==> {
                let levelled = #[trigger] levelled_table(table, target)[r];
                &&& table[r] == 0 ==> levelled == 0
                &&& table[r] != 0 ==> {
                    &&& levelled as int % table[r] as int == 0
                    &&& levelled >= table[r]
                    &&& levelled <= target || levelled == table[r]
                    &&& target < levelled + table[r]
                }
            },
{
    assert forall|r: int| 0 <= r < table.len() && table[r] != 0 implies {
        let levelled = #[trigger] levelled_table(table, target)[r];
        &&& levelled as int % table[r] as int == 0
        &&& levelled >= table[r]
        &&& levelled <= target || levelled == table[r]
        &&& target < levelled + table[r]
    } by {
        rounding_loses_less_than_a_unit(target, table[r]);
        whole_quotient(target as int, table[r] as int);
        vstd::arithmetic::div_mod::lemma_mod_self_0(table[r] as int);
        let times = target as int / table[r] as int;
        if times < 2 {
            product_grows(times + 1, 2, table[r] as int);
        } else {
            product_grows(2, times, table[r] as int);
        }
    }
}

/// What the stages of a convolution ask for: the smallest count is no larger than that of any
/// stage with registers, the lanes hold all containers in each, and both come from a stage or
/// were handed in.
pub proof fn stage_pressure_spans_the_stages(
    registers: Seq<usize>,
    multipliers: Seq<usize>,
    container_fft_num: usize,
    convolution_len: usize,
    seen: bool,
    least: usize,
    threads: usize,
    radix: int,
)
    requires
        radix < VKFFT_RADIX_TABLE_LEN,
        convolution_len >= 1,
    ensures
        stage_pressure(
            registers,
            multipliers,
            container_fft_num,
            convolution_len,
            seen,
            least,
            threads,
            radix,
        ) matches Ok((found, smallest, most)) ==> {
            &&& smallest <= least && most >= threads
            &&& forall|r: int|
                2 <= r <= radix && multipliers[r] != 0 && #[trigger] registers[r] != 0 ==> {
                    &&& found
                    &&& smallest <= registers[r]
                    &&& exists|lanes: int| #[trigger]
                        lanes_cover(lanes, registers[r] as int, convolution_len as int)
                            && container_fft_num * lanes <= most
                }
            &&& found == seen || exists|r: int|
                2 <= r <= radix && multipliers[r] != 0 && #[trigger] registers[r] != 0
            &&& smallest == least || exists|r: int|
                2 <= r <= radix && multipliers[r] != 0 && #[trigger] registers[r] == smallest
            &&& most == threads || exists|r: int, lanes: int|
                2 <= r <= radix && multipliers[r] != 0 && registers[r] != 0 && #[trigger]
                    lanes_cover(lanes, registers[r] as int, convolution_len as int)
                    && container_fft_num * lanes == most
        },
    decreases radix,
{
    if radix >= 2 {
        if multipliers[radix] == 0 || registers[radix] == 0 {
            stage_pressure_spans_the_stages(
                registers,
                multipliers,
                container_fft_num,
                convolution_len,
                seen,
                least,
                threads,
                radix - 1,
            );
        } else if ceil_div(convolution_len, registers[radix]) is Ok {
            let lanes = ceil_div(convolution_len, registers[radix])->Ok_0;
            lanes_cover_tightly(convolution_len, registers[radix]);
            if container_fft_num * lanes <= usize::MAX {
                let total = (container_fft_num * lanes) as usize;
                stage_pressure_spans_the_stages(
                    registers,
                    multipliers,
                    container_fft_num,
                    convolution_len,
                    true,
                    umin(least, registers[radix]),
                    umax(threads, total),
                    radix - 1,
                );
                assert(lanes_cover(
                    lanes as int,
                    registers[radix] as int,
                    convolution_len as int,
                ));
            }
        }
    }
}

/// The floor of the outer stages is no larger than the count of any stage that occurs, each
/// of which has registers, and is one of them or what was handed in.
pub proof fn outer_floor_is_the_least(
    registers: Seq<usize>,
    multipliers: Seq<usize>,
    least: usize,
    operation: &'static str,
    radix: int,
)
    requires
        2 <= radix <= VKFFT_RADIX_TABLE_LEN,
    ensures
        outer_floor_from(registers, multipliers, least, operation, radix) matches Ok(floor) ==> {
            &&& floor <= least
            &&& forall|r: int|
                radix <= r < VKFFT_RADIX_TABLE_LEN && #[trigger] multipliers[r] != 0
                    ==> registers[r] != 0 && floor <= registers[r]
            &&& floor == least || exists|r: int|
                radix <= r < VKFFT_RADIX_TABLE_LEN && #[trigger] multipliers[r] != 0
                    && registers[r] == floor
        },
    decreases VKFFT_RADIX_TABLE_LEN - radix,
{
    if radix < VKFFT_RADIX_TABLE_LEN {
        if multipliers[radix] == 0 {
            outer_floor_is_the_least(registers, multipliers, least, operation, radix + 1);
        } else if registers[radix] != 0 {
            outer_floor_is_the_least(
                registers,
                multipliers,
                umin(least, registers[radix]),
                operation,
                radix + 1,
            );
        }
    }
}


/// Whether every table of a tree has an entry per radix.
pub open spec fn tables_sized(tree: RaderTreeModel) -> bool {
    &&& tree.outer.len() == VKFFT_RADIX_TABLE_LEN
    &&& forall|i: int|
        0 <= i < tree.containers.len() ==> (
        #[trigger] tree.containers[i]).registers_per_thread_per_radix.len()
            == VKFFT_RADIX_TABLE_LEN
}

proof fn scaling_containers_multiplies(
    containers: Seq<RaderContainerModel>,
    scale: usize,
    from: nat,
)
    requires
        from <= containers.len(),
        forall|i: int|
            0 <= i < containers.len() ==> (
            #[trigger] containers[i]).registers_per_thread_per_radix.len()
                == VKFFT_RADIX_TABLE_LEN,
    ensures
        containers_scaled_from(containers, scale, from) matches Ok(scaled) ==> {
            &&& scaled.len() == containers.len()
            &&& forall|i: int| 0 <= i < from ==> scaled[i] == #[trigger] containers[i]
            &&& forall|i: int|
                from <= i < containers.len() ==> (
                #[trigger] scaled[i]).registers_per_thread_per_radix.len()
                    == VKFFT_RADIX_TABLE_LEN
            &&& forall|i: int, r: int|
                #![trigger scaled[i].registers_per_thread_per_radix[r]]
                from <= i < containers.len() && 0 <= r < VKFFT_RADIX_TABLE_LEN
                    ==> scaled[i].registers_per_thread_per_radix[r]
                    == containers[i].registers_per_thread_per_radix[r] * scale
        },
    decreases containers.len() - from,
{
    if from < containers.len() {
        let container = containers[from as int];
        let operation = "axis-0 global FFT-Rader register-table scaling";
        let table = container.registers_per_thread_per_radix;
        scaled_tables_are_multiples(table, scale, operation);
        let planned = crate::rader_tree::table_scaled(table, scale, operation);
        if planned is Ok {
            let next = containers.update(
                from as int,
                crate::rader_tree::with_registers(
                    container,
                    planned->Ok_0,
                    container.registers_per_thread,
                    container.min_registers_per_thread,
                ),
            );
            scaling_containers_multiplies(next, scale, from + 1);
            let all = containers_scaled_from(containers, scale, from);
            if all is Ok {
                let scaled = all->Ok_0;
                assert(scaled[from as int] == next[from as int]);
                assert forall|i: int| 0 <= i < from implies scaled[i]
                    == #[trigger] containers[i] by {
                    assert(next[i] == containers[i]);
                }
                assert forall|i: int, r: int|
                    #![trigger scaled[i].registers_per_thread_per_radix[r]]
                    from <= i < containers.len() && 0 <= r
                        < VKFFT_RADIX_TABLE_LEN implies scaled[i].registers_per_thread_per_radix[r]
                    == containers[i].registers_per_thread_per_radix[r] * scale by {
                    if i > from {
                        assert(next[i] == containers[i]);
                    }
                }
            }
        }
    }
}

/// Scaling a transform's registers: the lanes of a workgroup hold all its coalesced values at
/// the smallest count, which bounds every table, and the factor is the least that does. The
/// outer table is multiplied by it; the containers' tables are multiplied too or stay.
pub proof fn scaled_trees_fit_the_workgroup(
    sequence_len: usize,
    max_batch_coalesced: usize,
    shrink_first_upload_coalescing: bool,
    limit: usize,
    tree: RaderTreeModel,
)
    requires
        tables_sized(tree),
        counts_bound_the_tables(tree, tree.most, tree.least),
        tree.least <= tree.most,
    ensures
        scaled_tree(
            sequence_len,
            max_batch_coalesced,
            shrink_first_upload_coalescing,
            limit,
            tree,
        ) matches Ok((scaled, scale)) ==> {
            let coalesced = effective_coalescing(
                sequence_len,
                max_batch_coalesced,
                shrink_first_upload_coalescing,
                limit,
                tree.least,
            )->Ok_0;
            let elements = sequence_len * coalesced;
            &&& coalesced >= 1
            &&& elements <= scaled.least * limit
            &&& counts_bound_the_tables(scaled, scaled.most, scaled.least)
            &&& scale >= 1
            &&& elements <= (tree.least * limit) * scale
            &&& scale > 1 ==> (tree.least * limit) * (scale - 1) < elements
            &&& scaled.containers.len() == tree.containers.len()
            &&& forall|r: int|
                0 <= r < VKFFT_RADIX_TABLE_LEN ==> #[trigger] scaled.outer[r] == tree.outer[r]
                    * scale
            &&& scaled.containers == tree.containers || forall|i: int, r: int|
                #![trigger scaled.containers[i].registers_per_thread_per_radix[r]]
                0 <= i < tree.containers.len() && 0 <= r < VKFFT_RADIX_TABLE_LEN
                    ==> scaled.containers[i].registers_per_thread_per_radix[r]
                    == tree.containers[i].registers_per_thread_per_radix[r] * scale
        },
{
    reveal(scaled_tree);
    reveal(scaled_outer);
    reveal(relieved_tree);
    let planned = scaled_tree(
        sequence_len,
        max_batch_coalesced,
        shrink_first_upload_coalescing,
        limit,
        tree,
    );
    if planned is Ok {
        let (scaled, scale) = planned->Ok_0;
        let coalesced = effective_coalescing(
            sequence_len,
            max_batch_coalesced,
            shrink_first_upload_coalescing,
            limit,
            tree.least,
        )->Ok_0;
        coalescing_keeps_what_fits(
            sequence_len,
            max_batch_coalesced,
            shrink_first_upload_coalescing,
            limit,
            tree.least,
        );
        let elements = (sequence_len * coalesced) as usize;
        product_grows(1, coalesced as int, sequence_len as int);
        assert(sequence_len * coalesced == coalesced * sequence_len) by (nonlinear_arith);
        register_scale_is_least(elements, tree.least, limit);
        scaled_tables_are_multiples(
            tree.outer,
            scale,
            "axis-0 global ordinary register-table scaling",
        );
        let enlarged = scaled_outer(tree, scale)->Ok_0;
        scaling_containers_multiplies(tree.containers, scale, 0);
        let relieved = relieved_tree(enlarged, elements, scale, limit)->Ok_0;
        let (all_most, smallest) = tree_extrema(enlarged, 0, usize::MAX);
        tree_counts_span_the_tables(enlarged, 0, usize::MAX);
        let low = umin(relieved.most, relieved.least);
        let high = umax(relieved.most, relieved.least);
        tree_counts_span_the_tables(relieved, high, low);
        let (most, least) = tree_extrema(relieved, high, low);
        assert((tree.least * limit) * scale == (tree.least * scale) * limit) by (nonlinear_arith);
        assert(scaled == with_counts(relieved, most, least));
        assert(counts_bound_the_tables(scaled, most, least));
        ceil_div_is_least_cover(elements, smallest);
        let threads = ceil_div(elements, smallest)->Ok_0;
        if threads <= limit {
            product_grows(threads as int, limit as int, smallest as int);
            assert(limit * smallest == smallest * limit) by (nonlinear_arith);
            assert(relieved.least == smallest);
            smallest_is_no_larger(tree, enlarged, scale, smallest);
            least_of_relieved(relieved, smallest, elements, limit, high, low);
        } else {
            let floor = (tree.least * scale) as usize;
            product_grows(tree.least as int, tree.most as int, scale as int);
            least_of_multiples(tree, relieved, scale, floor, high, low);
            product_grows(floor as int, least as int, limit as int);
        }
    }
}

/// No count of a tree whose outer table was multiplied passes the multiplied largest one.
proof fn smallest_is_no_larger(
    tree: RaderTreeModel,
    enlarged: RaderTreeModel,
    scale: usize,
    smallest: usize,
)
    requires
        tables_sized(tree),
        tables_sized(enlarged),
        counts_bound_the_tables(tree, tree.most, tree.least),
        enlarged.containers == tree.containers,
        scale >= 1,
        tree_holds(enlarged, smallest),
        smallest != 0,
        forall|r: int|
            0 <= r < VKFFT_RADIX_TABLE_LEN ==> #[trigger] enlarged.outer[r] == tree.outer[r]
                * scale,
    ensures
        smallest <= tree.most * scale,
{
    product_grows(1, scale as int, tree.most as int);
    if table_holds(enlarged.outer, smallest) {
        let r = choose|r: int| 0 <= r < enlarged.outer.len() && #[trigger] enlarged.outer[r]
            == smallest;
        let before = tree.outer[r];
        assert(before != 0) by {
            if before == 0 {
                assert(before * scale == 0) by (nonlinear_arith)
                    requires
                        before == 0,
                ;
            }
        }
        product_grows(before as int, tree.most as int, scale as int);
    } else {
        let i = choose|i: int|
            0 <= i < tree.containers.len() && table_holds(
                (#[trigger] tree.containers[i]).registers_per_thread_per_radix,
                smallest,
            );
        let table = tree.containers[i].registers_per_thread_per_radix;
        let r = choose|r: int| 0 <= r < table.len() && #[trigger] table[r] == smallest;
        assert(tree.containers[i].registers_per_thread_per_radix[r] <= tree.most);
    }
}

/// Where the smallest count of all tables is the least, it stays the least.
proof fn least_of_relieved(
    relieved: RaderTreeModel,
    smallest: usize,
    elements: usize,
    limit: usize,
    high: usize,
    low: usize,
)
    requires
        relieved.least == smallest,
        counts_bound_the_tables(relieved, usize::MAX, smallest),
        low == umin(relieved.most, relieved.least),
        high == umax(relieved.most, relieved.least),
        elements <= smallest * limit,
        relieved.most >= smallest,
        smallest != 0,
    ensures
        elements <= tree_extrema(relieved, high, low).1 * limit,
{
    least_is_bounded_below(relieved, high, low, smallest);
    product_grows(
        smallest as int,
        tree_extrema(relieved, high, low).1 as int,
        limit as int,
    );
}

/// The smallest count of a tree is no smaller than a bound on its tables and on what was
/// handed in.
proof fn least_is_bounded_below(tree: RaderTreeModel, most: usize, least: usize, bound: usize)
    requires
        counts_bound_the_tables(tree, usize::MAX, bound),
        least >= bound,
    ensures
        tree_extrema(tree, most, least).1 >= bound,
{
    let (outer_most, outer_least) = table_extrema(tree.outer);
    extrema_are_taken(tree.outer, 0, 0, usize::MAX);
    containers_least_is_bounded(
        tree.containers,
        umax(most, outer_most),
        umin(least, outer_least),
        bound,
        0,
    );
}

proof fn containers_least_is_bounded(
    containers: Seq<RaderContainerModel>,
    most: usize,
    least: usize,
    bound: usize,
    from: int,
)
    requires
        0 <= from <= containers.len(),
        least >= bound,
        forall|i: int, r: int|
            #![trigger containers[i].registers_per_thread_per_radix[r]]
            0 <= i < containers.len() && 0 <= r
                < containers[i].registers_per_thread_per_radix.len()
                && containers[i].registers_per_thread_per_radix[r] != 0 ==> bound
                <= containers[i].registers_per_thread_per_radix[r],
    ensures
        tables_extrema_from(containers, most, least, from).1 >= bound,
    decreases containers.len() - from,
{
    if from < containers.len() {
        let table = containers[from].registers_per_thread_per_radix;
        let (here_most, here_least) = table_extrema(table);
        extrema_are_taken(table, 0, 0, usize::MAX);
        containers_least_is_bounded(
            containers,
            umax(most, here_most),
            umin(least, here_least),
            bound,
            from + 1,
        );
    }
}

/// Where every table was multiplied, so was the bound on them.
proof fn least_of_multiples(
    tree: RaderTreeModel,
    relieved: RaderTreeModel,
    scale: usize,
    floor: usize,
    high: usize,
    low: usize,
)
    requires
        tables_sized(tree),
        tables_sized(relieved),
        counts_bound_the_tables(tree, tree.most, tree.least),
        relieved.containers.len() == tree.containers.len(),
        floor == tree.least * scale,
        relieved.least == floor,
        relieved.most == tree.most * scale,
        low >= floor,
        forall|r: int|
            0 <= r < VKFFT_RADIX_TABLE_LEN ==> #[trigger] relieved.outer[r] == tree.outer[r]
                * scale,
        forall|i: int, r: int|
            #![trigger relieved.containers[i].registers_per_thread_per_radix[r]]
            0 <= i < tree.containers.len() && 0 <= r < VKFFT_RADIX_TABLE_LEN
                ==> relieved.containers[i].registers_per_thread_per_radix[r]
                == tree.containers[i].registers_per_thread_per_radix[r] * scale,
    ensures
        tree_extrema(relieved, high, low).1 >= floor,
{
    assert forall|r: int| 0 <= r < relieved.outer.len() && #[trigger] relieved.outer[r]
        != 0 implies floor <= relieved.outer[r] by {
        let before = tree.outer[r];
        assert(before != 0) by {
            if before == 0 {
                assert(before * scale == 0) by (nonlinear_arith)
                    requires
                        before == 0,
                ;
            }
        }
        product_grows(tree.least as int, before as int, scale as int);
    }
    assert forall|i: int, r: int|
        #![trigger relieved.containers[i].registers_per_thread_per_radix[r]]
        0 <= i < relieved.containers.len() && 0 <= r
            < relieved.containers[i].registers_per_thread_per_radix.len()
            && relieved.containers[i].registers_per_thread_per_radix[r] != 0 implies floor
        <= relieved.containers[i].registers_per_thread_per_radix[r] by {
        let before = tree.containers[i].registers_per_thread_per_radix[r];
        assert(before != 0) by {
            if before == 0 {
                assert(before * scale == 0) by (nonlinear_arith)
                    requires
                        before == 0,
                ;
            }
        }
        product_grows(tree.least as int, before as int, scale as int);
    }
    least_is_bounded_below(relieved, high, low, floor);
}

} // verus!
