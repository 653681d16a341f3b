//! How the register tables of an outer transform and of a Rader convolution inside it are
//! brought together.

use vstd::prelude::*;

use crate::arith::{
    ceil_div, checked_mul, exact_log2_bounds, is_power_of_two, log2_floor, strip_factor, umax, umin,
};
use crate::axis_block::{multiple_of, quotient, round_down};
use crate::error::{PlanResult, VkFftError};
use crate::registers::{
    divided, expanded, fewest_stage_log, min_max_stage_registers, min_max_table_registers,
    odd_radix_demand, optimize_radix_kernels, optimized, plan_gpu_small_mixed_radix_registers,
    small_mixed_schedule, small_power_of_two, stage_extrema, stages_indexable, table_extrema,
    viewed, zero_table, RadixRegisterModel, RadixRegisterSchedule, RadixTable, RadixTables,
    VKFFT_RADIX_TABLE_LEN,
};

verus! {

/// The register tables of an outer transform and of one Rader container, each with its
/// largest and smallest count.
#[derive(Debug, Clone, Copy, PartialEq, Eq)]
pub struct RegisterCoupling {
    pub outer: RadixTable,
    pub outer_most: usize,
    pub outer_least: usize,
    pub table: RadixTable,
    pub most: usize,
    pub least: usize,
}

/// Mathematical content of a [`RegisterCoupling`].
#[verifier::ext_equal]
pub struct CouplingModel {
    pub outer: Seq<usize>,
    pub outer_most: usize,
    pub outer_least: usize,
    pub table: Seq<usize>,
    pub most: usize,
    pub least: usize,
}

impl View for RegisterCoupling {
    type V = CouplingModel;

    open spec fn view(&self) -> CouplingModel {
        CouplingModel {
            outer: self.outer@,
            outer_most: self.outer_most,
            outer_least: self.outer_least,
            table: self.table@,
            most: self.most,
            least: self.least,
        }
    }
}

/// The entries from `radix` on that lie below `floor` multiplied up to it, and the
/// largest entry met.
pub open spec fn floor_scaled_from(
    table: Seq<usize>,
    floor: usize,
    most: usize,
    radix: int,
) -> PlanResult<(Seq<usize>, usize)>
    decreases VKFFT_RADIX_TABLE_LEN - radix,
{
    if radix >= VKFFT_RADIX_TABLE_LEN {
        Ok((table, most))
    } else if 0 < table[radix] < floor {
        match ceil_div(floor, table[radix]) {
            Err(error) => Err(error),
            Ok(times) => {
                let value = (table[radix] * times) as usize;
                floor_scaled_from(table.update(radix, value), floor, umax(most, value), radix + 1)
            },
        }
    } else {
        floor_scaled_from(table, floor, umax(most, table[radix]), radix + 1)
    }
}

/// The same for the whole table.
pub open spec fn floor_scaled(table: Seq<usize>, floor: usize, most: usize) -> PlanResult<
    (Seq<usize>, usize),
> {
    floor_scaled_from(table, floor, most, 0)
}

fn scale_to_floor(table: RadixTable, floor: usize, most: usize) -> (scaled: PlanResult<
    (RadixTable, usize),
>)
    ensures
        viewed(scaled) == floor_scaled(table@, floor, most),
{
    let mut result: RadixTable = table;
    let mut largest: usize = most;
    let mut radix: usize = 0;
    while radix < VKFFT_RADIX_TABLE_LEN
        invariant
            radix <= VKFFT_RADIX_TABLE_LEN,
            result@.len() == VKFFT_RADIX_TABLE_LEN,
            floor_scaled_from(result@, floor, largest, radix as int) == floor_scaled(
                table@,
                floor,
                most,
            ),
        decreases VKFFT_RADIX_TABLE_LEN - radix,
    {
        let value: usize = result[radix];
        if value > 0 && value < floor {
            let times: usize = ceil_div(floor, value)?;
            proof {
                crate::arith::ceil_div_is_least_cover(floor, value);
                assert(times * value == value * times) by (nonlinear_arith);
            }
            result[radix] = value * times;
        }
        largest = umax(largest, result[radix]);
        radix = radix + 1;
    }
    Ok((result, largest))
}

/// Whichever table has the smaller minimum is multiplied up towards the other, in whole
/// multiples of that minimum.
#[verifier::opaque]
pub open spec fn harmonised(
    c: CouplingModel,
) -> PlanResult<CouplingModel> {
    if quotient(c.least, c.outer_least) >= 2 {
        let floor = round_down(c.least, c.outer_least);
        match floor_scaled(c.outer, floor, c.outer_most) {
            Err(error) => Err(error),
            Ok((outer, outer_most)) => Ok(
                CouplingModel {
                    outer,
                    outer_most,
                    outer_least: floor,
                    table: c.table,
                    most: c.most,
                    least: c.least,
                },
            ),
        }
    } else if quotient(c.outer_least, c.least) >= 2 {
        let floor = round_down(c.outer_least, c.least);
        match floor_scaled(c.table, floor, c.most) {
            Err(error) => Err(error),
            Ok((table, most)) => Ok(
                CouplingModel {
                    outer: c.outer,
                    outer_most: c.outer_most,
                    outer_least: c.outer_least,
                    table,
                    most,
                    least: floor,
                },
            ),
        }
    } else {
        Ok(c)
    }
}

fn harmonise(
    c: RegisterCoupling,
) -> (planned: PlanResult<RegisterCoupling>)
    ensures
        viewed(planned) == harmonised(c@),
{
    reveal(harmonised);
    if quotient(c.least, c.outer_least) >= 2 {
        let floor: usize = round_down(c.least, c.outer_least);
        let (outer, outer_most) = scale_to_floor(c.outer, floor, c.outer_most)?;
        return Ok(
            RegisterCoupling {
                outer,
                outer_most,
                outer_least: floor,
                table: c.table,
                most: c.most,
                least: c.least,
            },
        );
    }
    if quotient(c.outer_least, c.least) >= 2 {
        let floor: usize = round_down(c.outer_least, c.least);
        let (table, most) = scale_to_floor(c.table, floor, c.most)?;
        return Ok(
            RegisterCoupling {
                outer: c.outer,
                outer_most: c.outer_most,
                outer_least: c.outer_least,
                table,
                most,
                least: floor,
            },
        );
    }
    Ok(c)
}

/// `value` raised in steps of the radix until it reaches the floor.
pub open spec fn raised_value(
    value: int,
    radix: int,
    floor: int,
    operation: &'static str,
) -> PlanResult<usize>
    decreases usize::MAX - value,
{
    if value >= floor || radix <= 0 {
        Ok(value as usize)
    } else if value + radix > usize::MAX {
        Err(VkFftError::ArithmeticOverflow { operation })
    } else {
        raised_value(value + radix, radix, floor, operation)
    }
}

fn raise_value(value: usize, radix: usize, floor: usize, operation: &'static str) -> (raised:
    PlanResult<usize>)
    requires
        radix > 0,
    ensures
        raised == raised_value(value as int, radix as int, floor as int, operation),
{
    let mut raised: usize = value;
    while raised < floor
        invariant
            radix > 0,
            raised_value(raised as int, radix as int, floor as int, operation) == raised_value(
                value as int,
                radix as int,
                floor as int,
                operation,
            ),
        decreases usize::MAX - raised,
    {
        match raised.checked_add(radix) {
            Some(next) => {
                raised = next;
            },
            None => {
                return Err(VkFftError::ArithmeticOverflow { operation });
            },
        }
    }
    Ok(raised)
}

/// Every used entry from `radix` on raised to the floor.
pub open spec fn raised_from(
    table: Seq<usize>,
    floor: usize,
    most: usize,
    radix: int,
    operation: &'static str,
) -> PlanResult<(Seq<usize>, usize)>
    decreases VKFFT_RADIX_TABLE_LEN - radix,
{
    if radix >= VKFFT_RADIX_TABLE_LEN {
        Ok((table, most))
    } else if table[radix] == 0 {
        raised_from(table, floor, most, radix + 1, operation)
    } else {
        match raised_value(table[radix] as int, radix, floor as int, operation) {
            Err(error) => Err(error),
            Ok(value) => raised_from(
                table.update(radix, value),
                floor,
                umax(most, value),
                radix + 1,
                operation,
            ),
        }
    }
}

/// The same for every radix.
pub open spec fn raised_table(
    table: Seq<usize>,
    floor: usize,
    most: usize,
    operation: &'static str,
) -> PlanResult<(Seq<usize>, usize)> {
    raised_from(table, floor, most, 2, operation)
}

fn raise_table(table: RadixTable, floor: usize, most: usize, operation: &'static str) -> (raised:
    PlanResult<(RadixTable, usize)>)
    ensures
        viewed(raised) == raised_table(table@, floor, most, operation),
{
    let mut result: RadixTable = table;
    let mut largest: usize = most;
    let mut radix: usize = 2;
    while radix < VKFFT_RADIX_TABLE_LEN
        invariant
            2 <= radix <= VKFFT_RADIX_TABLE_LEN,
            raised_from(result@, floor, largest, radix as int, operation) == raised_table(
                table@,
                floor,
                most,
                operation,
            ),
        decreases VKFFT_RADIX_TABLE_LEN - radix,
    {
        let value: usize = result[radix];
        if value != 0 {
            let raised: usize = raise_value(value, radix, floor, operation)?;
            result[radix] = raised;
            largest = umax(largest, raised);
        }
        radix = radix + 1;
    }
    Ok((result, largest))
}

/// The container's entries raised to the outer minimum where they lie below it.
#[verifier::opaque]
pub open spec fn aligned_coupling(
    c: CouplingModel,
    operation: &'static str,
) -> PlanResult<CouplingModel> {
    if c.least >= c.outer_least {
        Ok(c)
    } else {
        match raised_table(c.table, c.outer_least, c.most, operation) {
            Err(error) => Err(error),
            Ok((table, most)) => Ok(
                CouplingModel {
                    outer: c.outer,
                    outer_most: c.outer_most,
                    outer_least: c.outer_least,
                    table,
                    most,
                    least: c.least,
                },
            ),
        }
    }
}

fn align_coupling(
    c: RegisterCoupling,
    operation: &'static str,
) -> (planned: PlanResult<RegisterCoupling>)
    ensures
        viewed(planned) == aligned_coupling(c@, operation),
{
    reveal(aligned_coupling);
    if c.least >= c.outer_least {
        return Ok(c);
    }
    let (table, most) = raise_table(c.table, c.outer_least, c.most, operation)?;
    Ok(
        RegisterCoupling {
            outer: c.outer,
            outer_most: c.outer_most,
            outer_least: c.outer_least,
            table,
            most,
            least: c.least,
        },
    )
}

/// Whether the outer transform's lanes can execute all containers at this register
/// count. A container that fits a single lane shares it with others.
pub open spec fn occupancy_fits(
    outer_threads: usize,
    container_fft_num: usize,
    container_fft_dim: usize,
    registers: usize,
) -> PlanResult<bool> {
    if outer_threads == 0 || container_fft_num == 0 || container_fft_dim == 0 || registers == 0 {
        Err(VkFftError::InvalidKernelIr("Rader occupancy comparison requires non-zero dimensions"))
    } else if registers < container_fft_dim {
        match ceil_div(container_fft_dim, registers) {
            Err(error) => Err(error),
            Ok(lanes) => match checked_mul(container_fft_num, lanes, "Rader container occupancy") {
                Err(error) => Err(error),
                Ok(required) => Ok(outer_threads >= required),
            },
        }
    } else {
        match checked_mul(
            outer_threads,
            registers / container_fft_dim,
            "Rader packed-container occupancy",
        ) {
            Err(error) => Err(error),
            Ok(capacity) => Ok(capacity >= container_fft_num),
        }
    }
}

pub fn rader_container_occupancy_fits(
    outer_threads: usize,
    container_fft_num: usize,
    container_fft_dim: usize,
    registers: usize,
) -> (planned: PlanResult<bool>)
    ensures
        planned == occupancy_fits(outer_threads, container_fft_num, container_fft_dim, registers),
{
    if outer_threads == 0 || container_fft_num == 0 || container_fft_dim == 0 || registers == 0 {
        return Err(
            VkFftError::InvalidKernelIr("Rader occupancy comparison requires non-zero dimensions"),
        );
    }
    if registers < container_fft_dim {
        let lanes: usize = ceil_div(container_fft_dim, registers)?;
        let required: usize = checked_mul(container_fft_num, lanes, "Rader container occupancy")?;
        return Ok(outer_threads >= required);
    }
    let capacity: usize = checked_mul(
        outer_threads,
        registers / container_fft_dim,
        "Rader packed-container occupancy",
    )?;
    Ok(capacity >= container_fft_num)
}

/// `value` raised in steps of the radix until the containers fit.
pub open spec fn occupied_value(
    value: int,
    radix: int,
    outer_threads: usize,
    container_fft_num: usize,
    container_fft_dim: usize,
    operation: &'static str,
) -> PlanResult<usize>
    decreases usize::MAX - value,
{
    match occupancy_fits(outer_threads, container_fft_num, container_fft_dim, value as usize) {
        Err(error) => Err(error),
        Ok(fits) => if fits || radix <= 0 {
            Ok(value as usize)
        } else if value + radix > usize::MAX {
            Err(VkFftError::ArithmeticOverflow { operation })
        } else {
            occupied_value(
                value + radix,
                radix,
                outer_threads,
                container_fft_num,
                container_fft_dim,
                operation,
            )
        },
    }
}

fn occupy_value(
    value: usize,
    radix: usize,
    outer_threads: usize,
    container_fft_num: usize,
    container_fft_dim: usize,
    operation: &'static str,
) -> (occupied: PlanResult<usize>)
    requires
        radix > 0,
    ensures
        occupied == occupied_value(
            value as int,
            radix as int,
            outer_threads,
            container_fft_num,
            container_fft_dim,
            operation,
        ),
{
    let mut raised: usize = value;
    loop
        invariant
            radix > 0,
            occupied_value(
                raised as int,
                radix as int,
                outer_threads,
                container_fft_num,
                container_fft_dim,
                operation,
            ) == occupied_value(
                value as int,
                radix as int,
                outer_threads,
                container_fft_num,
                container_fft_dim,
                operation,
            ),
        decreases usize::MAX - raised,
    {
        let fits: bool = rader_container_occupancy_fits(
            outer_threads,
            container_fft_num,
            container_fft_dim,
            raised,
        )?;
        if fits {
            return Ok(raised);
        }
        match raised.checked_add(radix) {
            Some(next) => {
                raised = next;
            },
            None => {
                return Err(VkFftError::ArithmeticOverflow { operation });
            },
        }
    }
}

/// Every used entry from `radix` on raised until the containers fit.
pub open spec fn occupied_from(
    table: Seq<usize>,
    most: usize,
    radix: int,
    outer_threads: usize,
    container_fft_num: usize,
    container_fft_dim: usize,
    operation: &'static str,
) -> PlanResult<(Seq<usize>, usize)>
    decreases VKFFT_RADIX_TABLE_LEN - radix,
{
    if radix >= VKFFT_RADIX_TABLE_LEN {
        Ok((table, most))
    } else if table[radix] == 0 {
        occupied_from(
            table,
            most,
            radix + 1,
            outer_threads,
            container_fft_num,
            container_fft_dim,
            operation,
        )
    } else {
        match occupied_value(
            table[radix] as int,
            radix,
            outer_threads,
            container_fft_num,
            container_fft_dim,
            operation,
        ) {
            Err(error) => Err(error),
            Ok(value) => occupied_from(
                table.update(radix, value),
                umax(most, value),
                radix + 1,
                outer_threads,
                container_fft_num,
                container_fft_dim,
                operation,
            ),
        }
    }
}

/// The same for every radix.
pub open spec fn occupied_table(
    table: Seq<usize>,
    most: usize,
    outer_threads: usize,
    container_fft_num: usize,
    container_fft_dim: usize,
    operation: &'static str,
) -> PlanResult<(Seq<usize>, usize)> {
    occupied_from(
        table,
        most,
        2,
        outer_threads,
        container_fft_num,
        container_fft_dim,
        operation,
    )
}

fn occupy_table(
    table: RadixTable,
    most: usize,
    outer_threads: usize,
    container_fft_num: usize,
    container_fft_dim: usize,
    operation: &'static str,
) -> (occupied: PlanResult<(RadixTable, usize)>)
    ensures
        viewed(occupied) == occupied_table(
            table@,
            most,
            outer_threads,
            container_fft_num,
            container_fft_dim,
            operation,
        ),
{
    let mut result: RadixTable = table;
    let mut largest: usize = most;
    let mut radix: usize = 2;
    while radix < VKFFT_RADIX_TABLE_LEN
        invariant
            2 <= radix <= VKFFT_RADIX_TABLE_LEN,
            occupied_from(
                result@,
                largest,
                radix as int,
                outer_threads,
                container_fft_num,
                container_fft_dim,
                operation,
            ) == occupied_table(
                table@,
                most,
                outer_threads,
                container_fft_num,
                container_fft_dim,
                operation,
            ),
        decreases VKFFT_RADIX_TABLE_LEN - radix,
    {
        let value: usize = result[radix];
        if value != 0 {
            let raised: usize = occupy_value(
                value,
                radix,
                outer_threads,
                container_fft_num,
                container_fft_dim,
                operation,
            )?;
            result[radix] = raised;
            largest = umax(largest, raised);
        }
        radix = radix + 1;
    }
    Ok((result, largest))
}

/// The container's entries raised until the outer lanes can execute all containers.
#[verifier::opaque]
pub open spec fn occupied_coupling(
    c: CouplingModel,
    sequence_len: usize,
    container_fft_num: usize,
    container_fft_dim: usize,
    operation: &'static str,
) -> PlanResult<CouplingModel> {
    match ceil_div(sequence_len, c.outer_least) {
        Err(error) => Err(error),
        Ok(outer_threads) => match occupied_table(
            c.table,
            c.most,
            outer_threads,
            container_fft_num,
            container_fft_dim,
            operation,
        ) {
            Err(error) => Err(error),
            Ok((table, most)) => Ok(
                CouplingModel {
                    outer: c.outer,
                    outer_most: c.outer_most,
                    outer_least: c.outer_least,
                    table,
                    most,
                    least: c.least,
                },
            ),
        },
    }
}

fn occupy_coupling(
    c: RegisterCoupling,
    sequence_len: usize,
    container_fft_num: usize,
    container_fft_dim: usize,
    operation: &'static str,
) -> (planned: PlanResult<RegisterCoupling>)
    ensures
        viewed(planned) == occupied_coupling(
            c@,
            sequence_len,
            container_fft_num,
            container_fft_dim,
            operation,
        ),
{
    reveal(occupied_coupling);
    let outer_threads: usize = ceil_div(sequence_len, c.outer_least)?;
    let (table, most) = occupy_table(
        c.table,
        c.most,
        outer_threads,
        container_fft_num,
        container_fft_dim,
        operation,
    )?;
    Ok(
        RegisterCoupling {
            outer: c.outer,
            outer_most: c.outer_most,
            outer_least: c.outer_least,
            table,
            most,
            least: c.least,
        },
    )
}

/// One container brought together with the outer transform, up to the outer maximum.
pub open spec fn coupled_container(
    c: CouplingModel,
    sequence_len: usize,
    container_fft_num: usize,
    container_fft_dim: usize,
    alignment_operation: &'static str,
    occupancy_operation: &'static str,
) -> PlanResult<CouplingModel> {
    match harmonised(c) {
        Err(error) => Err(error),
        Ok(harmonic) => match aligned_coupling(harmonic, alignment_operation) {
            Err(error) => Err(error),
            Ok(aligned) => occupied_coupling(
                aligned,
                sequence_len,
                container_fft_num,
                container_fft_dim,
                occupancy_operation,
            ),
        },
    }
}

pub fn couple_container(
    c: RegisterCoupling,
    sequence_len: usize,
    container_fft_num: usize,
    container_fft_dim: usize,
    alignment_operation: &'static str,
    occupancy_operation: &'static str,
) -> (planned: PlanResult<RegisterCoupling>)
    ensures
        viewed(planned) == coupled_container(
            c@,
            sequence_len,
            container_fft_num,
            container_fft_dim,
            alignment_operation,
            occupancy_operation,
        ),
{
    let harmonic: RegisterCoupling = harmonise(c)?;
    let aligned: RegisterCoupling = align_coupling(harmonic, alignment_operation)?;
    occupy_coupling(
        aligned,
        sequence_len,
        container_fft_num,
        container_fft_dim,
        occupancy_operation,
    )
}

/// `value` raised in steps of the radix while it stays within one of the maximum.
pub open spec fn lifted_value(value: int, radix: int, most: int) -> int
    decreases most + 1 - value,
{
    if radix <= 0 || value + radix > usize::MAX || value + radix > most + 1 {
        value
    } else {
        lifted_value(value + radix, radix, most)
    }
}

/// Every used entry lifted towards the maximum.
pub open spec fn lifted_table(table: Seq<usize>, most: usize) -> Seq<usize> {
    Seq::new(
        table.len(),
        |radix: int|
            if radix < 2 || table[radix] == 0 {
                table[radix]
            } else {
                lifted_value(table[radix] as int, radix, most as int) as usize
            },
    )
}

pub fn lift_table(table: RadixTable, most: usize) -> (lifted: RadixTable)
    ensures
        lifted@ == lifted_table(table@, most),
{
    let mut lifted: RadixTable = table;
    let mut radix: usize = 2;
    while radix < VKFFT_RADIX_TABLE_LEN
        invariant
            2 <= radix <= VKFFT_RADIX_TABLE_LEN,
            lifted@.len() == table@.len(),
            forall|i: int| 0 <= i < radix ==>
                #[trigger] lifted@[i] == lifted_table(table@, most)[i],
            forall|i: int| radix <= i < table@.len() ==> #[trigger] lifted@[i] == table@[i],
        decreases VKFFT_RADIX_TABLE_LEN - radix,
    {
        let start: usize = table[radix];
        assert(lifted@[radix as int] == table@[radix as int]);
        if start != 0 {
            let mut value: usize = start;
            while value <= usize::MAX - radix && value + radix - 1 <= most
                invariant
                    2 <= radix < VKFFT_RADIX_TABLE_LEN,
                    lifted_value(value as int, radix as int, most as int) == lifted_value(
                        start as int,
                        radix as int,
                        most as int,
                    ),
                decreases usize::MAX - value,
            {
                value = value + radix;
            }
            lifted[radix] = value;
        }
        assert(lifted@[radix as int] == lifted_table(table@, most)[radix as int]);
        radix = radix + 1;
    }
    assert(lifted@ =~= lifted_table(table@, most));
    lifted
}

/// The largest and smallest used entry of a table.
pub open spec fn used_extrema(
    registers: Seq<usize>,
) -> PlanResult<(usize, usize)> {
    let (most, least) = table_extrema(registers);
    if least == usize::MAX {
        Err(VkFftError::InvalidKernelIr("Rader register table has no supported radix"))
    } else {
        Ok((most, least))
    }
}

pub fn rader_register_min_max(
    registers: &RadixTable,
) -> (planned: PlanResult<(usize, usize)>)
    ensures
        planned == used_extrema(registers@),
{
    let (most, least) = min_max_table_registers(registers);
    if least == usize::MAX {
        return Err(VkFftError::InvalidKernelIr("Rader register table has no supported radix"));
    }
    Ok((most, least))
}

/// The table of the only container of an outer transform, and the smallest count of both.
#[verifier::opaque]
pub open spec fn single_container_table(
    outer_fft_len: usize,
    container_fft_num: usize,
    outer: Seq<usize>,
    outer_most: usize,
    outer_least: usize,
    table: Seq<usize>,
) -> PlanResult<(Seq<usize>, usize)> {
    if outer_fft_len == 0 || container_fft_num == 0 || outer_most == 0 || outer_least == 0 {
        Err(VkFftError::InvalidKernelIr("Rader optimizer outer register state must be non-zero"))
    } else {
        match used_extrema(table) {
            Err(error) => Err(error),
            Ok((most, least)) => {
                let coupling = CouplingModel { outer, outer_most, outer_least, table, most, least };
                match harmonised(coupling) {
                    Err(error) => Err(error),
                    Ok(harmonic) => match aligned_coupling(harmonic, "Rader register alignment") {
                        Err(error) => Err(error),
                        Ok(aligned) => if !multiple_of(outer_fft_len, container_fft_num) {
                            Err(
                                VkFftError::UnsupportedKernelPath(
                                    "Rader optimizer requires an exact physical container count",
                                ),
                            )
                        } else {
                            let prime = outer_fft_len / container_fft_num;
                            match occupied_coupling(
                                aligned,
                                outer_fft_len,
                                container_fft_num,
                                prime.saturating_sub(1),
                                "Rader occupancy register scaling",
                            ) {
                                Err(error) => Err(error),
                                Ok(occupied) => {
                                    let lifted = lifted_table(
                                        occupied.table,
                                        umax(occupied.outer_most, occupied.most),
                                    );
                                    match used_extrema(lifted) {
                                        Err(error) => Err(error),
                                        Ok((_final_most, final_least)) => Ok(
                                            (lifted, umin(occupied.outer_least, final_least)),
                                        ),
                                    }
                                },
                            }
                        },
                    },
                }
            },
        }
    }
}

pub fn couple_single_container(
    outer_fft_len: usize,
    container_fft_num: usize,
    outer: RadixTable,
    outer_most: usize,
    outer_least: usize,
    table: RadixTable,
) -> (planned: PlanResult<(RadixTable, usize)>)
    ensures
        viewed(planned) == single_container_table(
            outer_fft_len,
            container_fft_num,
            outer@,
            outer_most,
            outer_least,
            table@,
        ),
{
    reveal(single_container_table);
    if outer_fft_len == 0 || container_fft_num == 0 || outer_most == 0 || outer_least == 0 {
        return Err(
            VkFftError::InvalidKernelIr("Rader optimizer outer register state must be non-zero"),
        );
    }
    let (most, least) = rader_register_min_max(&table)?;
    let coupling: RegisterCoupling = RegisterCoupling {
        outer,
        outer_most,
        outer_least,
        table,
        most,
        least,
    };
    let harmonic: RegisterCoupling = harmonise(coupling)?;
    let aligned: RegisterCoupling = align_coupling(harmonic, "Rader register alignment")?;
    if !multiple_of(outer_fft_len, container_fft_num) {
        return Err(
            VkFftError::UnsupportedKernelPath(
                "Rader optimizer requires an exact physical container count",
            ),
        );
    }
    let prime: usize = outer_fft_len / container_fft_num;
    let occupied: RegisterCoupling = occupy_coupling(
        aligned,
        outer_fft_len,
        container_fft_num,
        prime.saturating_sub(1),
        "Rader occupancy register scaling",
    )?;
    let lifted: RadixTable = lift_table(occupied.table, umax(occupied.outer_most, occupied.most));
    let (_final_most, final_least) = rader_register_min_max(&lifted)?;
    Ok((lifted, umin(occupied.outer_least, final_least)))
}

/// A radix-2 count and the composite powers of two it serves.
pub open spec fn power_table(two: usize) -> Seq<usize> {
    zero_table().update(2, two).update(32, divided(two, 32)).update(16, divided(two, 16)).update(
        8,
        divided(two, 8),
    ).update(4, divided(two, 4))
}

fn build_power_table(two: usize) -> (table: RadixTable)
    ensures
        table@ == power_table(two),
{
    let mut table: RadixTable = [0; VKFFT_RADIX_TABLE_LEN];
    assert(table@ =~= zero_table());
    table[2] = two;
    table[32] = if two % 32 == 0 { two } else { 0 };
    table[16] = if two % 16 == 0 { two } else { 0 };
    table[8] = if two % 8 == 0 { two } else { 0 };
    table[4] = if two % 4 == 0 { two } else { 0 };
    assert(table@ =~= power_table(two));
    table
}

pub fn build_zero_table() -> (table: RadixTable)
    ensures
        table@ == zero_table(),
{
    let table: RadixTable = [0; VKFFT_RADIX_TABLE_LEN];
    assert(table@ =~= zero_table());
    table
}

/// How often 2 divides a length.
pub open spec fn twos_in(value: usize) -> usize {
    crate::arith::multiplicity(value as int, 2) as usize
}

fn twos_of(value: usize) -> (count: usize)
    requires
        value > 0,
    ensures
        count == twos_in(value),
{
    let (_rest, count) = strip_factor(value, 2);
    count
}

/// Base-2 logarithm of a length, rounded down.
pub open spec fn floor_log(value: usize) -> usize {
    log2_floor(value as int) as usize
}

fn floor_log_of(value: usize) -> (log: usize)
    requires
        value > 0,
    ensures
        log == floor_log(value),
{
    exact_log2_bounds(value).0
}

/// Registers of radix 2 for a power-of-two outer factor with this exponent, one stage
/// group covering `log` digits.
#[verifier::allow_in_spec]
pub fn outer_two_registers(
    exponent: usize,
    log: usize,
) -> usize
    returns
        (small_power_of_two(if exponent < 3 { exponent } else { umin(exponent, log) })),
{
    small_power_of_two(if exponent < 3 { exponent } else { umin(exponent, log) })
}

/// The table of a power-of-two outer factor, with its largest and smallest entry.
#[verifier::opaque]
pub open spec fn outer_power_state(
    outer_fft_len: usize,
    container_fft_num: usize,
    outer_batch_count: usize,
) -> PlanResult<(Seq<usize>, usize, usize)> {
    if container_fft_num == 1 {
        Ok((zero_table(), 2, 2))
    } else if !is_power_of_two(container_fft_num) || outer_fft_len == 0 || outer_batch_count == 0 {
        Err(
            VkFftError::UnsupportedKernelPath(
                "Rader outer power-of-two register state requires valid dimensions",
            ),
        )
    } else {
        match checked_mul(
            umax(outer_batch_count / 64, 1),
            outer_fft_len,
            "Rader outer active thread estimate",
        ) {
            Err(error) => Err(error),
            Ok(_active) => {
                let two = outer_two_registers(
                    twos_in(container_fft_num),
                    fewest_stage_log(floor_log(outer_fft_len)),
                );
                let table = power_table(two);
                let (most, least) = table_extrema(table);
                Ok((table, most, least))
            },
        }
    }
}

fn rader_outer_power_of_two_register_state(
    outer_fft_len: usize,
    container_fft_num: usize,
    outer_batch_count: usize,
) -> (planned: PlanResult<(RadixTable, usize, usize)>)
    ensures
        viewed(planned) == outer_power_state(outer_fft_len, container_fft_num, outer_batch_count),
{
    reveal(outer_power_state);
    if container_fft_num == 1 {
        return Ok((build_zero_table(), 2, 2));
    }
    if !is_power_of_two(container_fft_num) || outer_fft_len == 0 || outer_batch_count == 0 {
        return Err(
            VkFftError::UnsupportedKernelPath(
                "Rader outer power-of-two register state requires valid dimensions",
            ),
        );
    }
    let _active: usize = checked_mul(
        umax(outer_batch_count / 64, 1),
        outer_fft_len,
        "Rader outer active thread estimate",
    )?;
    let two: usize = outer_two_registers(
        twos_of(container_fft_num),
        fewest_stage_log(floor_log_of(outer_fft_len)),
    );
    let table: RadixTable = build_power_table(two);
    let (most, least) = min_max_table_registers(&table);
    Ok((table, most, least))
}

/// The register table of the smooth factor around Rader containers, with its largest and
/// smallest entry.
#[verifier::opaque]
pub open spec fn outer_state(
    outer_fft_len: usize,
    container_fft_num: usize,
    outer_batch_count: usize,
) -> PlanResult<(Seq<usize>, usize, usize)> {
    if is_power_of_two(container_fft_num) {
        outer_power_state(outer_fft_len, container_fft_num, outer_batch_count)
    } else if outer_fft_len == 0 || outer_batch_count == 0 {
        Err(
            VkFftError::UnsupportedKernelPath(
                "Rader outer register state requires valid dimensions",
            ),
        )
    } else {
        match small_mixed_schedule(container_fft_num, outer_batch_count) {
            Err(error) => Err(error),
            Ok(outer) => {
                let (most, least) = stage_extrema(
                    outer.stage_radices,
                    outer.registers_per_thread_per_radix,
                );
                if most == 0 || least == 0 {
                    Err(
                        VkFftError::InvalidKernelIr(
                            "Rader outer smooth register state has no active stages",
                        ),
                    )
                } else {
                    Ok((outer.registers_per_thread_per_radix, most, least))
                }
            },
        }
    }
}

pub fn rader_outer_register_state(
    outer_fft_len: usize,
    container_fft_num: usize,
    outer_batch_count: usize,
) -> (planned: PlanResult<(RadixTable, usize, usize)>)
    ensures
        viewed(planned) == outer_state(outer_fft_len, container_fft_num, outer_batch_count),
{
    reveal(outer_state);
    if is_power_of_two(container_fft_num) {
        return rader_outer_power_of_two_register_state(
            outer_fft_len,
            container_fft_num,
            outer_batch_count,
        );
    }
    if outer_fft_len == 0 || outer_batch_count == 0 {
        return Err(
            VkFftError::UnsupportedKernelPath(
                "Rader outer register state requires valid dimensions",
            ),
        );
    }
    let outer: RadixRegisterSchedule = plan_gpu_small_mixed_radix_registers(
        container_fft_num,
        outer_batch_count,
    )?;
    proof {
        crate::registers::mixed_schedule_is_checked(container_fft_num, outer_batch_count);
        crate::registers::checked_stages_are_in_table(outer@);
    }
    let (most, least) = min_max_stage_registers(
        outer.stage_radices.as_slice(),
        &outer.registers_per_thread_per_radix,
    );
    if most == 0 || least == 0 {
        return Err(
            VkFftError::InvalidKernelIr("Rader outer smooth register state has no active stages"),
        );
    }
    Ok((outer.registers_per_thread_per_radix, most, least))
}

/// The table of the only container of an outer transform, from the smooth factor around
/// all Rader primes.
pub open spec fn optimized_single_container(
    outer_fft_len: usize,
    smooth_outer_factor: usize,
    container_fft_num: usize,
    outer_batch_count: usize,
    table: Seq<usize>,
) -> PlanResult<(Seq<usize>, usize)> {
    match outer_state(outer_fft_len, smooth_outer_factor, outer_batch_count) {
        Err(error) => Err(error),
        Ok((outer, most, least)) => single_container_table(
            outer_fft_len,
            container_fft_num,
            outer,
            most,
            least,
            table,
        ),
    }
}

pub fn optimize_container_table(
    outer_fft_len: usize,
    smooth_outer_factor: usize,
    container_fft_num: usize,
    outer_batch_count: usize,
    table: RadixTable,
) -> (planned: PlanResult<(RadixTable, usize)>)
    ensures
        viewed(planned) == optimized_single_container(
            outer_fft_len,
            smooth_outer_factor,
            container_fft_num,
            outer_batch_count,
            table@,
        ),
{
    let (outer, most, least) = rader_outer_register_state(
        outer_fft_len,
        smooth_outer_factor,
        outer_batch_count,
    )?;
    couple_single_container(outer_fft_len, container_fft_num, outer, most, least, table)
}

/// Replaces the container's table; an error leaves it as it was.
pub fn optimize_single_rader_container_registers(
    outer_fft_len: usize,
    smooth_outer_factor: usize,
    container_fft_num: usize,
    outer_batch_count: usize,
    rader_registers: &mut RadixTable,
) -> (least: PlanResult<usize>)
    ensures
        match optimized_single_container(
            outer_fft_len,
            smooth_outer_factor,
            container_fft_num,
            outer_batch_count,
            old(rader_registers)@,
        ) {
            Ok((table, smallest)) => {
                &&& least == Ok::<usize, VkFftError>(smallest)
                &&& final(rader_registers)@ == table
            },
            Err(error) => {
                &&& least == Err::<usize, VkFftError>(error)
                &&& final(rader_registers)@ == old(rader_registers)@
            },
        },
{
    let (table, smallest) = optimize_container_table(
        outer_fft_len,
        smooth_outer_factor,
        container_fft_num,
        outer_batch_count,
        *rader_registers,
    )?;
    *rader_registers = table;
    Ok(smallest)
}

/// `rest` with the radices from `radix` up to `end` taken out in turn, and how often each
/// was.
pub open spec fn peeled_from(rest: int, multipliers: Seq<usize>, radix: int, end: int) -> (
    Seq<usize>,
    usize,
)
    decreases end - radix,
{
    if radix >= end {
        (multipliers, rest as usize)
    } else {
        peeled_from(
            crate::arith::stripped(rest, radix),
            multipliers.update(radix, crate::arith::multiplicity(rest, radix) as usize),
            radix + 1,
            end,
        )
    }
}

/// The radices below `min_direct_prime` that a convolution length holds, and what they
/// leave of it.
pub open spec fn peeled_multipliers(fft_len: usize, min_direct_prime: usize) -> PlanResult<
    (Seq<usize>, usize),
> {
    if fft_len < 2 {
        Err(
            VkFftError::UnsupportedKernelPath(
                "Rader small-radix factorization requires an FFT length of at least two",
            ),
        )
    } else {
        Ok(
            peeled_from(
                fft_len as int,
                zero_table(),
                2,
                umin(min_direct_prime, VKFFT_RADIX_TABLE_LEN) as int,
            ),
        )
    }
}

pub fn rader_small_radix_multipliers_with_residual(
    fft_len: usize,
    min_rader_direct_prime: usize,
) -> (peeled: PlanResult<(RadixTable, usize)>)
    ensures
        viewed(peeled) == peeled_multipliers(fft_len, min_rader_direct_prime),
        peeled matches Ok(found) ==> 1 <= found.1 <= fft_len,
{
    if fft_len < 2 {
        return Err(
            VkFftError::UnsupportedKernelPath(
                "Rader small-radix factorization requires an FFT length of at least two",
            ),
        );
    }
    let end: usize = umin(min_rader_direct_prime, VKFFT_RADIX_TABLE_LEN);
    let mut multipliers: RadixTable = build_zero_table();
    let mut rest: usize = fft_len;
    let mut radix: usize = 2;
    while radix < end
        invariant
            2 <= radix,
            end <= VKFFT_RADIX_TABLE_LEN,
            1 <= rest <= fft_len,
            peeled_from(rest as int, multipliers@, radix as int, end as int) == peeled_from(
                fft_len as int,
                zero_table(),
                2,
                end as int,
            ),
        decreases end - radix,
    {
        let (left, count) = strip_factor(rest, radix);
        multipliers[radix] = count;
        rest = left;
        radix = radix + 1;
    }
    Ok((multipliers, rest))
}

/// The same for a convolution that small radices cover completely.
pub open spec fn small_radix_multipliers(
    fft_len: usize,
) -> PlanResult<Seq<usize>> {
    match peeled_multipliers(fft_len, 17) {
        Err(error) => Err(error),
        Ok((multipliers, rest)) => if rest != 1 {
            Err(
                VkFftError::UnsupportedKernelPath(
                    "Rader convolution still requires nested/sub-prime scheduling",
                ),
            )
        } else {
            Ok(multipliers)
        },
    }
}

pub fn rader_small_radix_multipliers(
    fft_len: usize,
) -> (planned: PlanResult<RadixTable>)
    ensures
        viewed(planned) == small_radix_multipliers(fft_len),
{
    let (multipliers, rest) = rader_small_radix_multipliers_with_residual(fft_len, 17)?;
    if rest != 1 {
        return Err(
            VkFftError::UnsupportedKernelPath(
                "Rader convolution still requires nested/sub-prime scheduling",
            ),
        );
    }
    Ok(multipliers)
}

/// A stage's register count raised in steps of its radix until a container's lanes keep
/// to the limit.
pub open spec fn thread_scaled_value(
    value: int,
    radix: int,
    len: usize,
    limit: usize,
) -> PlanResult<usize>
    decreases usize::MAX - value,
{
    match ceil_div(len, value as usize) {
        Err(error) => Err(error),
        Ok(lanes) => if lanes <= limit || radix <= 0 {
            Ok(value as usize)
        } else if value + radix > usize::MAX {
            Err(
                VkFftError::ArithmeticOverflow { operation: "Rader thread-limit register scaling" },
            )
        } else {
            thread_scaled_value(value + radix, radix, len, limit)
        },
    }
}

/// The same for every stage from index `from` on.
pub open spec fn thread_scaled_from(
    table: Seq<usize>,
    stages: Seq<usize>,
    len: usize,
    limit: usize,
    from: int,
) -> PlanResult<Seq<usize>>
    decreases stages.len() - from,
{
    if from >= stages.len() {
        Ok(table)
    } else if stages[from] >= VKFFT_RADIX_TABLE_LEN {
        Err(VkFftError::InvalidKernelIr("Rader stage radix exceeds the register table"))
    } else if table[stages[from] as int] == 0 || !multiple_of(
        table[stages[from] as int],
        stages[from],
    ) {
        Err(
            VkFftError::InvalidKernelIr(
                "Rader thread-limit scaling found an invalid register count",
            ),
        )
    } else {
        match thread_scaled_value(
            table[stages[from] as int] as int,
            stages[from] as int,
            len,
            limit,
        ) {
            Err(error) => Err(error),
            Ok(value) => thread_scaled_from(
                table.update(stages[from] as int, value),
                stages,
                len,
                limit,
                from + 1,
            ),
        }
    }
}

/// The stage counts of a convolution raised until all its containers fit a workgroup.
pub open spec fn thread_scaled(
    convolution_len: usize,
    container_fft_num: usize,
    max_threads_per_block: usize,
    stages: Seq<usize>,
    table: Seq<usize>,
) -> PlanResult<Seq<usize>> {
    if convolution_len == 0 || container_fft_num == 0 || max_threads_per_block == 0 {
        Err(
            VkFftError::InvalidKernelIr("Rader thread-limit scaling requires non-zero dimensions"),
        )
    } else if container_fft_num > max_threads_per_block {
        Err(
            VkFftError::ResourceLimitExceeded {
                resource: "Rader container count per workgroup",
                required: container_fft_num,
                available: max_threads_per_block,
            },
        )
    } else {
        thread_scaled_from(
            table,
            stages,
            convolution_len,
            max_threads_per_block / container_fft_num,
            0,
        )
    }
}

fn scale_thread_value(value: usize, radix: usize, len: usize, limit: usize) -> (scaled: PlanResult<
    usize,
>)
    requires
        radix > 0,
    ensures
        scaled == thread_scaled_value(value as int, radix as int, len, limit),
{
    let mut raised: usize = value;
    loop
        invariant
            radix > 0,
            thread_scaled_value(raised as int, radix as int, len, limit) == thread_scaled_value(
                value as int,
                radix as int,
                len,
                limit,
            ),
        decreases usize::MAX - raised,
    {
        let lanes: usize = ceil_div(len, raised)?;
        if lanes <= limit {
            return Ok(raised);
        }
        match raised.checked_add(radix) {
            Some(next) => {
                raised = next;
            },
            None => {
                return Err(
                    VkFftError::ArithmeticOverflow {
                        operation: "Rader thread-limit register scaling",
                    },
                );
            },
        }
    }
}

pub fn scale_rader_stage_registers_to_thread_limit(
    convolution_len: usize,
    container_fft_num: usize,
    max_threads_per_block: usize,
    stage_radices: &[usize],
    registers: RadixTable,
) -> (scaled: PlanResult<RadixTable>)
    ensures
        viewed(scaled) == thread_scaled(
            convolution_len,
            container_fft_num,
            max_threads_per_block,
            stage_radices@,
            registers@,
        ),
{
    if convolution_len == 0 || container_fft_num == 0 || max_threads_per_block == 0 {
        return Err(
            VkFftError::InvalidKernelIr("Rader thread-limit scaling requires non-zero dimensions"),
        );
    }
    if container_fft_num > max_threads_per_block {
        return Err(
            VkFftError::ResourceLimitExceeded {
                resource: "Rader container count per workgroup",
                required: container_fft_num,
                available: max_threads_per_block,
            },
        );
    }
    let limit: usize = max_threads_per_block / container_fft_num;
    let mut table: RadixTable = registers;
    let mut index: usize = 0;
    while index < stage_radices.len()
        invariant
            index <= stage_radices.len(),
            table@.len() == VKFFT_RADIX_TABLE_LEN,
            thread_scaled_from(table@, stage_radices@, convolution_len, limit, index as int)
                == thread_scaled(
                convolution_len,
                container_fft_num,
                max_threads_per_block,
                stage_radices@,
                registers@,
            ),
        decreases stage_radices.len() - index,
    {
        let radix: usize = stage_radices[index];
        if radix >= VKFFT_RADIX_TABLE_LEN {
            return Err(
                VkFftError::InvalidKernelIr("Rader stage radix exceeds the register table"),
            );
        }
        let value: usize = table[radix];
        if value == 0 || !multiple_of(value, radix) {
            return Err(
                VkFftError::InvalidKernelIr(
                    "Rader thread-limit scaling found an invalid register count",
                ),
            );
        }
        let scaled: usize = scale_thread_value(value, radix, convolution_len, limit)?;
        table[radix] = scaled;
        index = index + 1;
    }
    Ok(table)
}

/// The tables after the radix optimizer without register boost, and what the radices that
/// are no powers of two demand.
pub open spec fn optimized_radices(registers: Seq<usize>, multipliers: Seq<usize>) -> (
    Seq<usize>,
    Seq<usize>,
    usize,
    usize,
) {
    let best = optimized(RadixTables { registers, multipliers }, 1);
    let demand = odd_radix_demand(best.multipliers, VKFFT_RADIX_TABLE_LEN as int);
    (best.registers, best.multipliers, demand.0, demand.1)
}

pub fn optimize_tables(registers: RadixTable, multipliers: RadixTable) -> (best: (
    RadixTable,
    RadixTable,
    usize,
    usize,
))
    ensures
        best@ == optimized_radices(registers@, multipliers@),
{
    let mut best_registers: RadixTable = registers;
    let mut best_multipliers: RadixTable = multipliers;
    let (largest, required) = optimize_radix_kernels(
        &mut best_registers,
        &mut best_multipliers,
        1,
    );
    (best_registers, best_multipliers, largest, required)
}

/// All stages a multiplier table stands for, largest radix first.
pub open spec fn all_stages(multipliers: Seq<usize>) -> Seq<usize> {
    expanded(multipliers, VKFFT_RADIX_TABLE_LEN - 1)
}

/// The most lanes one stage of a transform takes, the stages from `from` on counted.
pub open spec fn stage_lanes_from(
    fft_len: usize,
    stages: Seq<usize>,
    registers: Seq<usize>,
    from: int,
    most: usize,
) -> PlanResult<usize>
    decreases stages.len() - from,
{
    if from >= stages.len() {
        Ok(most)
    } else if registers[stages[from] as int] == 0 {
        Err(VkFftError::InvalidKernelIr("Rader FFT stage is missing its register count"))
    } else {
        match ceil_div(fft_len, registers[stages[from] as int]) {
            Err(error) => Err(error),
            Ok(lanes) => stage_lanes_from(fft_len, stages, registers, from + 1, umax(most, lanes)),
        }
    }
}

/// The lanes one container of the scheduled transform takes.
pub open spec fn container_lanes(schedule: RadixRegisterModel) -> PlanResult<usize> {
    stage_lanes_from(
        schedule.fft_len,
        schedule.stage_radices,
        schedule.registers_per_thread_per_radix,
        0,
        0,
    )
}

pub fn rader_fft_threads_per_container(schedule: &RadixRegisterSchedule) -> (lanes: PlanResult<
    usize,
>)
    requires
        stages_indexable(schedule.stage_radices@),
    ensures
        lanes == container_lanes(schedule@),
{
    let mut most: usize = 0;
    let mut index: usize = 0;
    while index < schedule.stage_radices.len()
        invariant
            index <= schedule.stage_radices.len(),
            stages_indexable(schedule.stage_radices@),
            stage_lanes_from(
                schedule.fft_len,
                schedule.stage_radices@,
                schedule.registers_per_thread_per_radix@,
                index as int,
                most,
            ) == container_lanes(schedule@),
        decreases schedule.stage_radices.len() - index,
    {
        let radix: usize = schedule.stage_radices[index];
        assert(radix < VKFFT_RADIX_TABLE_LEN);
        let registers: usize = schedule.registers_per_thread_per_radix[radix];
        if registers == 0 {
            return Err(
                VkFftError::InvalidKernelIr("Rader FFT stage is missing its register count"),
            );
        }
        most = umax(most, ceil_div(schedule.fft_len, registers)?);
        index = index + 1;
    }
    Ok(most)
}

} // verus!
