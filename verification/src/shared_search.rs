//! The register table of a Rader convolution that stays in shared memory: the transform
//! is cut into a few nearly equal stages of at most 16 points.

use vstd::prelude::*;

use crate::arith::{nearest_multiple, nearest_register_multiple_multiplier, umax};
use crate::double_root::{pow_root, upstream_floor_nth_root};
use crate::error::{PlanResult, VkFftError};
use crate::registers::{
    min_max_table_registers, table_extrema, viewed, RadixTable, VKFFT_RADIX_TABLE_LEN,
};

verus! {

/// The largest stage of the search.
pub const MAX_SHARED_STAGE: usize = 16;

/// The stages found from here on: each candidate that divides what is left is taken, and
/// the next search starts at the root of the rest over the slots that remain.
pub open spec fn cut_stages(
    rest: usize,
    candidate: int,
    stages: Seq<usize>,
    slots: nat,
) -> (usize, Seq<usize>)
    decreases slots, MAX_SHARED_STAGE + 1 - candidate,
{
    if candidate < 1 || candidate > MAX_SHARED_STAGE || slots == 0 {
        (rest, stages)
    } else if rest as int % candidate == 0 {
        let next = (rest as int / candidate) as usize;
        cut_stages(
            next,
            umax(pow_root(next, (slots - 1) as usize), 1) as int,
            stages.push(candidate as usize),
            (slots - 1) as nat,
        )
    } else {
        cut_stages(rest, candidate + 1, stages, slots)
    }
}

/// Stages are between 1 and the largest one.
pub open spec fn stages_bounded(stages: Seq<usize>) -> bool {
    forall|i: int| 0 <= i < stages.len() ==> 1 <= #[trigger] stages[i] <= MAX_SHARED_STAGE
}

fn find_stages(len: usize, stage_count: usize, first: usize) -> (found: (usize, Vec<usize>))
    requires
        1 <= stage_count,
        first >= 1,
    ensures
        (found.0, found.1@) == cut_stages(len, first as int, Seq::empty(), stage_count as nat),
        stages_bounded(found.1@),
        found.1@.len() <= stage_count,
{
    let mut rest: usize = len;
    let mut stages: Vec<usize> = Vec::new();
    let mut candidate: usize = first;
    let mut slots: usize = stage_count;
    while candidate <= MAX_SHARED_STAGE && slots > 0
        invariant
            candidate >= 1,
            slots <= stage_count,
            stages@.len() + slots == stage_count,
            stages_bounded(stages@),
            cut_stages(rest, candidate as int, stages@, slots as nat) == cut_stages(
                len,
                first as int,
                Seq::empty(),
                stage_count as nat,
            ),
        decreases slots, MAX_SHARED_STAGE + 1 - candidate,
    {
        if rest % candidate == 0 {
            rest = rest / candidate;
            stages.push(candidate);
            slots = slots - 1;
            if slots == 0 {
                assert(cut_stages(rest, umax(pow_root(rest, 0), 1) as int, stages@, 0) == (
                    rest,
                    stages@,
                ));
                return (rest, stages);
            }
            candidate = umax(upstream_floor_nth_root(rest, slots), 1);
        } else {
            candidate = candidate + 1;
        }
    }
    (rest, stages)
}

/// The stage list kept after trying the stage counts from `count` on: each try replaces
/// the list, and the first that covers the length in exactly its count ends the search.
pub open spec fn kept_stages(len: usize, count: int, kept: Seq<usize>) -> Seq<usize>
    decreases 20 - count,
{
    if count >= 20 {
        kept
    } else if pow_root(len, count as usize) > MAX_SHARED_STAGE {
        kept_stages(len, count + 1, kept)
    } else {
        let (rest, stages) = cut_stages(
            len,
            umax(pow_root(len, count as usize), 1) as int,
            Seq::empty(),
            count as nat,
        );
        if rest == 1 && stages.len() == count {
            stages
        } else {
            kept_stages(len, count + 1, stages)
        }
    }
}

/// The stages of a length.
pub open spec fn shared_stages(len: usize) -> Seq<usize> {
    kept_stages(len, 1, Seq::empty())
}

fn search_shared_stages(len: usize) -> (stages: Vec<usize>)
    ensures
        stages@ == shared_stages(len),
        stages_bounded(stages@),
{
    let mut kept: Vec<usize> = Vec::new();
    let mut count: usize = 1;
    while count < 20
        invariant
            1 <= count <= 20,
            stages_bounded(kept@),
            kept_stages(len, count as int, kept@) == shared_stages(len),
        decreases 20 - count,
    {
        let minimum: usize = upstream_floor_nth_root(len, count);
        if minimum <= MAX_SHARED_STAGE {
            let (rest, stages) = find_stages(len, count, umax(minimum, 1));
            if rest == 1 && stages.len() == count {
                return stages;
            }
            kept = stages;
        }
        count = count + 1;
    }
    kept
}

/// The largest of the first `count` stages that the radix divides; 0 for none.
pub open spec fn largest_multiple(stages: Seq<usize>, radix: int, count: int) -> usize
    decreases count,
{
    if count <= 0 {
        0
    } else {
        let before = largest_multiple(stages, radix, count - 1);
        if stages[count - 1] as int % radix == 0 {
            umax(before, stages[count - 1])
        } else {
            before
        }
    }
}

proof fn largest_multiple_bounded(stages: Seq<usize>, radix: int, count: int)
    requires
        stages_bounded(stages),
        count <= stages.len(),
    ensures
        largest_multiple(stages, radix, count) <= MAX_SHARED_STAGE,
    decreases count,
{
    if count > 0 {
        largest_multiple_bounded(stages, radix, count - 1);
        assert(1 <= stages[count - 1] <= MAX_SHARED_STAGE);
    }
}

/// One entry per radix: the largest stage it divides.
pub open spec fn stage_table(stages: Seq<usize>) -> Seq<usize> {
    Seq::new(
        VKFFT_RADIX_TABLE_LEN as nat,
        |radix: int|
            if radix < 2 {
                0
            } else {
                largest_multiple(stages, radix, stages.len() as int)
            },
    )
}

/// Every entry moved to the nearest whole multiple of itself around `most`.
pub open spec fn matched_table(table: Seq<usize>, most: usize) -> Seq<usize> {
    Seq::new(
        table.len(),
        |radix: int|
            if table[radix] == 0 {
                0
            } else {
                (table[radix] * nearest_multiple(most as int, table[radix] as int)) as usize
            },
    )
}

fn build_stage_table(stages: &Vec<usize>) -> (table: RadixTable)
    requires
        stages_bounded(stages@),
    ensures
        table@ == stage_table(stages@),
        forall|i: int| 0 <= i < table@.len() ==> #[trigger] table@[i] <= MAX_SHARED_STAGE,
{
    let mut table: RadixTable = [0; VKFFT_RADIX_TABLE_LEN];
    let mut radix: usize = 2;
    while radix < VKFFT_RADIX_TABLE_LEN
        invariant
            2 <= radix <= VKFFT_RADIX_TABLE_LEN,
            stages_bounded(stages@),
            forall|i: int| 0 <= i < 2 ==> table@[i] == 0,
            forall|i: int|
                2 <= i < radix ==> #[trigger] table@[i] == largest_multiple(
                    stages@,
                    i,
                    stages@.len() as int,
                ),
            forall|i: int| 0 <= i < table@.len() ==> #[trigger] table@[i] <= MAX_SHARED_STAGE,
        decreases VKFFT_RADIX_TABLE_LEN - radix,
    {
        let mut largest: usize = 0;
        let mut index: usize = 0;
        while index < stages.len()
            invariant
                index <= stages.len(),
                2 <= radix < VKFFT_RADIX_TABLE_LEN,
                largest == largest_multiple(stages@, radix as int, index as int),
            decreases stages.len() - index,
        {
            if stages[index] % radix == 0 {
                largest = umax(largest, stages[index]);
            }
            index = index + 1;
        }
        proof {
            largest_multiple_bounded(stages@, radix as int, stages@.len() as int);
        }
        table[radix] = largest;
        radix = radix + 1;
    }
    assert(table@ =~= stage_table(stages@));
    table
}

fn match_table(table: &RadixTable, most: usize) -> (matched: RadixTable)
    requires
        most <= MAX_SHARED_STAGE,
        forall|i: int| 0 <= i < table@.len() ==> #[trigger] table@[i] <= MAX_SHARED_STAGE,
    ensures
        matched@ == matched_table(table@, most),
{
    let mut matched: RadixTable = [0; VKFFT_RADIX_TABLE_LEN];
    let mut radix: usize = 0;
    while radix < VKFFT_RADIX_TABLE_LEN
        invariant
            radix <= VKFFT_RADIX_TABLE_LEN,
            most <= MAX_SHARED_STAGE,
            forall|i: int| 0 <= i < table@.len() ==> #[trigger] table@[i] <= MAX_SHARED_STAGE,
            forall|i: int|
                0 <= i < radix ==> #[trigger] matched@[i] == matched_table(table@, most)[i],
        decreases VKFFT_RADIX_TABLE_LEN - radix,
    {
        let value: usize = table[radix];
        if value == 0 {
            matched[radix] = 0;
        } else {
            let multiplier: usize = nearest_register_multiple_multiplier(most, value);
            assert(table@[radix as int] <= MAX_SHARED_STAGE);
            assert(multiplier <= 17) by (nonlinear_arith)
                requires
                    multiplier <= most as int / value as int + 1,
                    most <= 16,
                    value >= 1,
            ;
            assert(0 <= value * multiplier <= 16 * 17) by (nonlinear_arith)
                requires
                    value <= 16,
                    multiplier <= 17,
            ;
            matched[radix] = value * multiplier;
        }
        radix = radix + 1;
    }
    assert(matched@ =~= matched_table(table@, most));
    matched
}

/// Register table of a shared-memory convolution, with its largest and smallest entry.
/// A length the stages do not cover keeps the last list tried.
pub open spec fn shared_register_table(fft_len: usize) -> PlanResult<(Seq<usize>, usize, usize)> {
    let stages = shared_stages(fft_len);
    let table = stage_table(stages);
    let most = table_extrema(table).0;
    let matched = matched_table(table, most);
    let (largest, smallest) = table_extrema(matched);
    if fft_len < 2 {
        Err(
            VkFftError::UnsupportedKernelPath(
                "Rader optimize-shared register table requires an FFT length of at least two",
            ),
        )
    } else if stages.len() == 0 {
        Err(
            VkFftError::UnsupportedKernelPath(
                "VkFFT optimize-shared search produced no usable Rader stage candidates",
            ),
        )
    } else if most == 0 {
        Err(
            VkFftError::InvalidKernelIr(
                "Rader optimize-shared search produced an empty register table",
            ),
        )
    } else if smallest == usize::MAX {
        Err(
            VkFftError::InvalidKernelIr(
                "Rader optimize-shared register table has no supported radix",
            ),
        )
    } else {
        Ok((matched, largest, smallest))
    }
}

proof fn extrema_bounded(table: Seq<usize>, from: int, most: usize, least: usize, bound: usize)
    requires
        0 <= from,
        most <= bound,
        forall|i: int| 0 <= i < table.len() ==> #[trigger] table[i] <= bound,
    ensures
        crate::registers::table_extrema_from(table, from, most, least).0 <= bound,
    decreases table.len() - from,
{
    if from < table.len() {
        assert(table[from] <= bound);
        if table[from] == 0 {
            extrema_bounded(table, from + 1, most, least, bound);
        } else {
            extrema_bounded(
                table,
                from + 1,
                umax(most, table[from]),
                crate::arith::umin(least, table[from]),
                bound,
            );
        }
    }
}

pub fn rader_optimize_shared_register_table(fft_len: usize) -> (table: PlanResult<
    (RadixTable, usize, usize),
>)
    ensures
        viewed(table) == shared_register_table(fft_len),
{
    if fft_len < 2 {
        return Err(
            VkFftError::UnsupportedKernelPath(
                "Rader optimize-shared register table requires an FFT length of at least two",
            ),
        );
    }
    let stages: Vec<usize> = search_shared_stages(fft_len);
    if stages.len() == 0 {
        return Err(
            VkFftError::UnsupportedKernelPath(
                "VkFFT optimize-shared search produced no usable Rader stage candidates",
            ),
        );
    }
    let table: RadixTable = build_stage_table(&stages);
    let (most, _least) = min_max_table_registers(&table);
    if most == 0 {
        return Err(
            VkFftError::InvalidKernelIr(
                "Rader optimize-shared search produced an empty register table",
            ),
        );
    }
    proof {
        extrema_bounded(table@, 0, 0, usize::MAX, MAX_SHARED_STAGE);
    }
    let matched: RadixTable = match_table(&table, most);
    let (largest, smallest) = min_max_table_registers(&matched);
    if smallest == usize::MAX {
        return Err(
            VkFftError::InvalidKernelIr(
                "Rader optimize-shared register table has no supported radix",
            ),
        );
    }
    Ok((matched, largest, smallest))
}

} // verus!
