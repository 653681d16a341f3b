//! Register counts per radix and the radix sequence of one Stockham transform.
//!
//! A transform length is first factored into small primes. A table gives the registers a
//! thread spends on each primitive radix, composite radices are derived from it, and the
//! radix optimizer then trades primitive stages for composite ones.

use vstd::prelude::*;

use crate::arith::{checked_mul, checked_pow, is_power_of_two, strip_factor, umax, umin};
use crate::error::{PlanResult, VkFftError};

verus! {

/// One more than the largest radix a kernel implements.
pub const VKFFT_RADIX_TABLE_LEN: usize = 33;

/// One number per radix; entries 0 and 1 are unused.
pub type RadixTable = [usize; VKFFT_RADIX_TABLE_LEN];

/// The contract-level form of a planning result: the value is replaced by its view.
pub open spec fn viewed<T: View>(result: PlanResult<T>) -> PlanResult<T::V> {
    match result {
        Ok(value) => Ok(value@),
        Err(error) => Err(error),
    }
}

/// Like [`viewed`], for a plan that may decline.
pub open spec fn viewed_option<T: View>(result: PlanResult<Option<T>>) -> PlanResult<Option<T::V>> {
    match result {
        Ok(Some(value)) => Ok(Some(value@)),
        Ok(None) => Ok(None),
        Err(error) => Err(error),
    }
}

/// Register and radix schedule of one transform.
#[derive(Debug, Clone, PartialEq, Eq)]
pub struct RadixRegisterSchedule {
    pub fft_len: usize,
    pub rhs_transform_count: usize,
    pub register_boost: usize,
    pub registers_per_thread_per_radix: RadixTable,
    pub stage_radix_multipliers: RadixTable,
    pub stage_radices: Vec<usize>,
    pub register_boost_stage_radix: Option<usize>,
    pub registers_per_thread: usize,
    pub min_registers_per_thread: usize,
    pub is_good_sequence: bool,
    pub max_non_power_of_two_radix: usize,
    pub required_local_registers: usize,
}

/// Mathematical content of a [`RadixRegisterSchedule`].
#[verifier::ext_equal]
pub struct RadixRegisterModel {
    pub fft_len: usize,
    pub rhs_transform_count: usize,
    pub register_boost: usize,
    pub registers_per_thread_per_radix: Seq<usize>,
    pub stage_radix_multipliers: Seq<usize>,
    pub stage_radices: Seq<usize>,
    pub register_boost_stage_radix: Option<usize>,
    pub registers_per_thread: usize,
    pub min_registers_per_thread: usize,
    pub is_good_sequence: bool,
    pub max_non_power_of_two_radix: usize,
    pub required_local_registers: usize,
}

impl View for RadixRegisterSchedule {
    type V = RadixRegisterModel;

    open spec fn view(&self) -> RadixRegisterModel {
        RadixRegisterModel {
            fft_len: self.fft_len,
            rhs_transform_count: self.rhs_transform_count,
            register_boost: self.register_boost,
            registers_per_thread_per_radix: self.registers_per_thread_per_radix@,
            stage_radix_multipliers: self.stage_radix_multipliers@,
            stage_radices: self.stage_radices@,
            register_boost_stage_radix: self.register_boost_stage_radix,
            registers_per_thread: self.registers_per_thread,
            min_registers_per_thread: self.min_registers_per_thread,
            is_good_sequence: self.is_good_sequence,
            max_non_power_of_two_radix: self.max_non_power_of_two_radix,
            required_local_registers: self.required_local_registers,
        }
    }
}

/// Whether a kernel exists for the radix.
pub open spec fn radix_in_table(radix: usize) -> bool {
    2 <= radix < VKFFT_RADIX_TABLE_LEN
}

/// `product` times the radices of the stages from index `from` on, each of which must be
/// a table radix with registers.
pub open spec fn stage_product(
    stages: Seq<usize>,
    registers: Seq<usize>,
    from: int,
    product: usize,
) -> PlanResult<usize>
    decreases stages.len() - from,
{
    if from >= stages.len() {
        Ok(product)
    } else if !radix_in_table(stages[from]) || registers[stages[from] as int] == 0 {
        Err(VkFftError::InvalidKernelIr("radix register schedule contains an unsupported stage"))
    } else {
        match checked_mul(product, stages[from], "radix register stage product") {
            Err(error) => Err(error),
            Ok(next) => stage_product(stages, registers, from + 1, next),
        }
    }
}

/// `product` times `radix^multiplier` over the table's radices from `radix` on.
pub open spec fn multiplier_product(
    multipliers: Seq<usize>,
    radix: int,
    product: usize,
) -> PlanResult<usize>
    decreases VKFFT_RADIX_TABLE_LEN - radix,
{
    if radix >= VKFFT_RADIX_TABLE_LEN {
        Ok(product)
    } else if multipliers[radix] == 0 {
        multiplier_product(multipliers, radix + 1, product)
    } else {
        match crate::arith::checked_pow_spec(
            radix as usize,
            multipliers[radix],
            "radix register multiplier product",
        ) {
            Err(error) => Err(error),
            Ok(power) => match checked_mul(product, power, "radix register multiplier product") {
                Err(error) => Err(error),
                Ok(next) => multiplier_product(multipliers, radix + 1, next),
            },
        }
    }
}

impl RadixRegisterModel {
    /// Whether the scalar fields can belong to one schedule.
    pub open spec fn scalars_consistent(self) -> bool {
        &&& self.fft_len != 0
        &&& self.rhs_transform_count != 0
        &&& is_power_of_two(self.register_boost)
        &&& self.register_boost < VKFFT_RADIX_TABLE_LEN
        &&& self.min_registers_per_thread != 0
        &&& self.registers_per_thread >= self.min_registers_per_thread
        &&& self.max_non_power_of_two_radix != 0
        &&& self.required_local_registers != 0
    }

    /// What checking the schedule reports: its stages and its multipliers (with the
    /// extracted boost stage) must each multiply to the transform length.
    #[verifier::opaque]
    pub open spec fn checked(self) -> PlanResult<()> {
        if !self.scalars_consistent() {
            Err(VkFftError::InvalidKernelIr("radix register schedule metadata is inconsistent"))
        } else {
            match stage_product(
                self.stage_radices,
                self.registers_per_thread_per_radix,
                0,
                1,
            ) {
                Err(error) => Err(error),
                Ok(product) => if product != self.fft_len {
                    Err(
                        VkFftError::InvalidKernelIr(
                            "radix register stages do not cover the FFT length",
                        ),
                    )
                } else {
                    match multiplier_product(self.stage_radix_multipliers, 2, 1) {
                        Err(error) => Err(error),
                        Ok(covered) => match self.covered_with_boost(covered) {
                            Err(error) => Err(error),
                            Ok(total) => if total != self.fft_len {
                                Err(
                                    VkFftError::InvalidKernelIr(
                                        "optimized radix multipliers do not cover the FFT length",
                                    ),
                                )
                            } else {
                                Ok(())
                            },
                        },
                    }
                },
            }
        }
    }

    /// The multiplier product with the extracted boost stage multiplied in.
    pub open spec fn covered_with_boost(self, covered: usize) -> PlanResult<usize> {
        match self.register_boost_stage_radix {
            None => Ok(covered),
            Some(radix) => if !radix_in_table(radix) {
                Err(VkFftError::InvalidKernelIr("register-boost stage radix is out of range"))
            } else {
                checked_mul(covered, radix, "radix register boost-stage product")
            },
        }
    }

    /// The model itself where it checks, else what the check reports.
    pub open spec fn if_checked(self) -> PlanResult<RadixRegisterModel> {
        match self.checked() {
            Err(error) => Err(error),
            Ok(_) => Ok(self),
        }
    }
}

impl RadixRegisterSchedule {
    pub fn validate(&self) -> (checked: PlanResult<()>)
        ensures
            checked == self@.checked(),
    {
        reveal(RadixRegisterModel::checked);
        if self.fft_len == 0 || self.rhs_transform_count == 0 || self.register_boost == 0
            || !is_power_of_two(self.register_boost) || self.register_boost
            >= VKFFT_RADIX_TABLE_LEN || self.registers_per_thread == 0
            || self.min_registers_per_thread == 0 || self.registers_per_thread
            < self.min_registers_per_thread || self.max_non_power_of_two_radix == 0
            || self.required_local_registers == 0 {
            return Err(
                VkFftError::InvalidKernelIr("radix register schedule metadata is inconsistent"),
            );
        }
        let mut product: usize = 1;
        let mut index: usize = 0;
        while index < self.stage_radices.len()
            invariant
                index <= self.stage_radices.len(),
                stage_product(
                    self.stage_radices@,
                    self.registers_per_thread_per_radix@,
                    index as int,
                    product,
                ) == stage_product(
                    self.stage_radices@,
                    self.registers_per_thread_per_radix@,
                    0,
                    1,
                ),
                self@.scalars_consistent(),
            decreases self.stage_radices.len() - index,
        {
            reveal(RadixRegisterModel::checked);
            let radix: usize = self.stage_radices[index];
            if radix < 2 || radix >= VKFFT_RADIX_TABLE_LEN
                || self.registers_per_thread_per_radix[radix] == 0 {
                return Err(
                    VkFftError::InvalidKernelIr(
                        "radix register schedule contains an unsupported stage",
                    ),
                );
            }
            product = checked_mul(product, radix, "radix register stage product")?;
            index = index + 1;
        }
        if product != self.fft_len {
            return Err(
                VkFftError::InvalidKernelIr("radix register stages do not cover the FFT length"),
            );
        }
        let mut covered: usize = 1;
        let mut radix: usize = 2;
        while radix < VKFFT_RADIX_TABLE_LEN
            invariant
                2 <= radix <= VKFFT_RADIX_TABLE_LEN,
                multiplier_product(self.stage_radix_multipliers@, radix as int, covered)
                    == multiplier_product(self.stage_radix_multipliers@, 2, 1),
                self@.scalars_consistent(),
                stage_product(
                    self.stage_radices@,
                    self.registers_per_thread_per_radix@,
                    0,
                    1,
                ) == Ok::<usize, VkFftError>(self.fft_len),
            decreases VKFFT_RADIX_TABLE_LEN - radix,
        {
            reveal(RadixRegisterModel::checked);
            let count: usize = self.stage_radix_multipliers[radix];
            if count != 0 {
                let power: usize = checked_pow(radix, count, "radix register multiplier product")?;
                covered = checked_mul(covered, power, "radix register multiplier product")?;
            }
            radix = radix + 1;
        }
        if let Some(boost) = self.register_boost_stage_radix {
            if boost < 2 || boost >= VKFFT_RADIX_TABLE_LEN {
                return Err(
                    VkFftError::InvalidKernelIr("register-boost stage radix is out of range"),
                );
            }
            covered = checked_mul(covered, boost, "radix register boost-stage product")?;
        }
        if covered != self.fft_len {
            return Err(
                VkFftError::InvalidKernelIr(
                    "optimized radix multipliers do not cover the FFT length",
                ),
            );
        }
        Ok(())
    }
}

/// The two tables the radix optimizer works on.
#[verifier::ext_equal]
pub struct RadixTables {
    pub registers: Seq<usize>,
    pub multipliers: Seq<usize>,
}

impl RadixTables {
    pub open spec fn sized(self) -> bool {
        &&& self.registers.len() == VKFFT_RADIX_TABLE_LEN
        &&& self.multipliers.len() == VKFFT_RADIX_TABLE_LEN
    }

    /// Groups radix-2 stages, `log` at a time, into stages of `radix == 2^log`.
    pub open spec fn take_power(self, radix: int, log: usize) -> RadixTables {
        if (self.registers[radix] > 0 || self.registers[2] as int % radix == 0)
            && self.registers[radix] as int % radix == 0 && self.multipliers[2] >= log {
            let count = self.multipliers[2] / log;
            RadixTables {
                registers: if self.registers[2] as int % radix == 0 {
                    self.registers.update(radix, self.registers[2])
                } else {
                    self.registers
                },
                multipliers: self.multipliers.update(radix, count).update(
                    2,
                    (self.multipliers[2] - count * log) as usize,
                ),
            }
        } else {
            self
        }
    }

    /// Groups stages of radix `a`, `per_a` of them at a time, with one stage of radix `b`
    /// each into stages of `radix`.
    pub open spec fn take_pair(self, radix: int, a: int, per_a: usize, b: int) -> RadixTables {
        if self.registers[radix] > 0 && self.registers[radix] as int % radix == 0
            && self.multipliers[a] >= per_a && self.multipliers[b] >= 1 {
            let count = umin(self.multipliers[b], self.multipliers[a] / per_a);
            RadixTables {
                registers: self.registers,
                multipliers: self.multipliers.update(radix, count).update(
                    a,
                    (self.multipliers[a] - per_a * count) as usize,
                ).update(b, (self.multipliers[b] - count) as usize),
            }
        } else {
            self
        }
    }

    /// Groups pairs of radix-3 stages into radix-9 stages.
    pub open spec fn take_nine(self) -> RadixTables {
        if self.registers[9] > 0 && self.registers[9] % 9 == 0 && self.multipliers[3] >= 2 {
            RadixTables {
                registers: self.registers,
                multipliers: self.multipliers.update(9, self.multipliers[3] / 2).update(
                    3,
                    self.multipliers[3] % 2,
                ),
            }
        } else {
            self
        }
    }

    /// Every grouping, largest radix first.
    #[verifier::opaque]
    pub open spec fn grouped(self) -> RadixTables {
        self.take_power(32, 5).take_power(16, 4).take_pair(15, 3, 1, 5).take_pair(
            14,
            2,
            1,
            7,
        ).take_pair(12, 2, 2, 3).take_pair(10, 2, 1, 5).take_nine().take_power(8, 3).take_pair(
            6,
            2,
            1,
            3,
        ).take_power(4, 2)
    }
}

/// Moves `count` stages between entries of a multiplier table.
pub open spec fn shifted(multipliers: Seq<usize>, radix: int, change: int) -> Seq<usize> {
    multipliers.update(radix, (multipliers[radix] + change) as usize)
}

/// Splits one larger stage so that a register boost of 2 finds a radix-2 stage.
pub open spec fn split_for_boost_two(m: Seq<usize>) -> Seq<usize> {
    if m[2] != 0 {
        m
    } else if m[4] > 0 {
        shifted(m, 4, -1).update(2, 2)
    } else if m[8] > 0 {
        shifted(shifted(shifted(m, 8, -1), 4, 1), 2, 1)
    } else if m[16] > 0 {
        shifted(shifted(shifted(m, 16, -1), 8, 1), 2, 1)
    } else if m[32] > 0 {
        shifted(shifted(shifted(m, 32, -1), 16, 1), 2, 1)
    } else {
        m
    }
}

/// Splits one larger stage so that a register boost of 4 finds a radix-4 stage.
pub open spec fn split_for_boost_four(m: Seq<usize>) -> Seq<usize> {
    if m[4] != 0 {
        m
    } else if m[8] > 0 {
        shifted(shifted(shifted(m, 8, -1), 4, 1), 2, 1)
    } else if m[16] > 0 {
        if m[2] == 0 {
            shifted(m, 16, -1).update(4, 2)
        } else {
            shifted(shifted(shifted(shifted(m, 16, -1), 4, 1), 2, -1), 8, 1)
        }
    } else if m[32] > 0 {
        if m[2] == 0 {
            shifted(shifted(shifted(m, 32, -1), 8, 1), 4, 1)
        } else {
            shifted(shifted(shifted(shifted(m, 32, -1), 16, 1), 4, 1), 2, -1)
        }
    } else {
        m
    }
}

/// The multipliers once the boost's own radix has a stage where one can be split off.
#[verifier::opaque]
pub open spec fn split_for_boost(multipliers: Seq<usize>, register_boost: usize) -> Seq<usize> {
    if register_boost == 2 {
        split_for_boost_two(multipliers)
    } else if register_boost == 4 {
        split_for_boost_four(multipliers)
    } else {
        multipliers
    }
}

/// The tables after the radix optimizer.
pub open spec fn optimized(tables: RadixTables, register_boost: usize) -> RadixTables {
    let grouped = tables.grouped();
    RadixTables {
        registers: grouped.registers,
        multipliers: split_for_boost(grouped.multipliers, register_boost),
    }
}

/// Registers a kernel of this radix keeps beside its inputs.
#[verifier::allow_in_spec]
pub fn local_registers(radix: usize) -> usize
    returns
        (match radix {
            6 | 9 | 12 => 3,
            10 | 15 => 5,
            14 => 7,
            _ => radix,
        }),
{
    match radix {
        6 | 9 | 12 => 3,
        10 | 15 => 5,
        14 => 7,
        _ => radix,
    }
}

/// The largest used radix below `end` that is no power of two, and the most local
/// registers such a radix needs; 1 each where there is none.
pub open spec fn odd_radix_demand(multipliers: Seq<usize>, end: int) -> (usize, usize)
    decreases end,
{
    if end <= 2 {
        (1, 1)
    } else {
        let below = odd_radix_demand(multipliers, end - 1);
        let radix = (end - 1) as usize;
        if multipliers[end - 1] > 0 && !is_power_of_two(radix) {
            (umax(below.0, radix), umax(below.1, local_registers(radix)))
        } else {
            below
        }
    }
}

/// Whether the stages that splitting for a boost adds can be counted: only a radix-8 stage
/// split beside radix-2 stages adds to a count that is not 0.
pub open spec fn boost_split_fits(multipliers: Seq<usize>, register_boost: usize) -> bool {
    register_boost == 4 && multipliers[4] == 0 && multipliers[8] > 0 ==> multipliers[2]
        < usize::MAX
}

proof fn take_power_keeps_twos(tables: RadixTables, radix: int, log: usize)
    requires
        tables.sized(),
        2 < radix < VKFFT_RADIX_TABLE_LEN,
        1 <= log,
    ensures
        tables.take_power(radix, log).sized(),
        tables.take_power(radix, log).multipliers[2] <= tables.multipliers[2],
{
    let all = tables.multipliers[2] as int;
    let count = all / log as int;
    assert(0 <= count * log <= all) by (nonlinear_arith)
        requires
            count == all / log as int,
            log >= 1,
            all >= 0,
    ;
}

proof fn take_pair_keeps_twos(tables: RadixTables, radix: int, a: int, per_a: usize, b: int)
    requires
        tables.sized(),
        2 < radix < VKFFT_RADIX_TABLE_LEN,
        2 <= a < radix,
        2 < b < radix,
        per_a == 1 || per_a == 2,
    ensures
        tables.take_pair(radix, a, per_a, b).sized(),
        tables.take_pair(radix, a, per_a, b).multipliers[2] <= tables.multipliers[2],
{
    let all = tables.multipliers[a] as int;
    let count = umin(tables.multipliers[b], (all / per_a as int) as usize) as int;
    assert(0 <= per_a * count <= all) by (nonlinear_arith)
        requires
            0 <= count <= all / per_a as int,
            per_a >= 1,
            all >= 0,
    ;
}

/// Grouping adds no radix-2 stage.
proof fn grouping_keeps_twos(tables: RadixTables)
    requires
        tables.sized(),
    ensures
        tables.grouped().multipliers[2] <= tables.multipliers[2],
{
    reveal(RadixTables::grouped);
    take_power_keeps_twos(tables, 32, 5);
    let t = tables.take_power(32, 5);
    take_power_keeps_twos(t, 16, 4);
    let t = t.take_power(16, 4);
    take_pair_keeps_twos(t, 15, 3, 1, 5);
    let t = t.take_pair(15, 3, 1, 5);
    take_pair_keeps_twos(t, 14, 2, 1, 7);
    let t = t.take_pair(14, 2, 1, 7);
    take_pair_keeps_twos(t, 12, 2, 2, 3);
    let t = t.take_pair(12, 2, 2, 3);
    take_pair_keeps_twos(t, 10, 2, 1, 5);
    let t = t.take_pair(10, 2, 1, 5).take_nine();
    take_power_keeps_twos(t, 8, 3);
    let t = t.take_power(8, 3);
    take_pair_keeps_twos(t, 6, 2, 1, 3);
    take_power_keeps_twos(t.take_pair(6, 2, 1, 3), 4, 2);
}

fn take_power(registers: &mut RadixTable, multipliers: &mut RadixTable, radix: usize, log: usize)
    requires
        2 < radix < VKFFT_RADIX_TABLE_LEN,
        1 <= log,
    ensures
        (RadixTables { registers: final(registers)@, multipliers: final(multipliers)@ }) == (
        RadixTables { registers: old(registers)@, multipliers: old(multipliers)@ }).take_power(
            radix as int,
            log,
        ),
{
    if (registers[radix] > 0 || registers[2] % radix == 0) && registers[radix] % radix == 0
        && multipliers[2] >= log {
        let count: usize = multipliers[2] / log;
        proof {
            let all = multipliers[2] as int;
            assert(count * log <= all && count <= all) by (nonlinear_arith)
                requires
                    count == all / log as int,
                    log >= 1,
                    all >= 0,
            ;
        }
        let rest: usize = multipliers[2] - count * log;
        multipliers[radix] = count;
        multipliers[2] = rest;
        if registers[2] % radix == 0 {
            let own: usize = registers[2];
            registers[radix] = own;
        }
    }
}

fn take_pair(
    registers: &RadixTable,
    multipliers: &mut RadixTable,
    radix: usize,
    a: usize,
    per_a: usize,
    b: usize,
)
    requires
        a != b,
        2 < radix < VKFFT_RADIX_TABLE_LEN,
        a < radix,
        b < radix,
        per_a == 1 || per_a == 2,
    ensures
        (RadixTables { registers: registers@, multipliers: final(multipliers)@ }) == (RadixTables {
            registers: registers@,
            multipliers: old(multipliers)@,
        }).take_pair(radix as int, a as int, per_a, b as int),
{
    if registers[radix] > 0 && registers[radix] % radix == 0 && multipliers[a] >= per_a
        && multipliers[b] >= 1 {
        let count: usize = umin(multipliers[b], multipliers[a] / per_a);
        proof {
            let all = multipliers[a as int] as int;
            assert(per_a * count <= all) by (nonlinear_arith)
                requires
                    count <= all / (per_a as int),
                    per_a >= 1,
                    all >= 0,
            ;
        }
        let rest_a: usize = multipliers[a] - per_a * count;
        let rest_b: usize = multipliers[b] - count;
        multipliers[radix] = count;
        multipliers[a] = rest_a;
        multipliers[b] = rest_b;
    }
}

fn take_nine(registers: &RadixTable, multipliers: &mut RadixTable)
    ensures
        (RadixTables { registers: registers@, multipliers: final(multipliers)@ }) == (RadixTables {
            registers: registers@,
            multipliers: old(multipliers)@,
        }).take_nine(),
{
    if registers[9] > 0 && registers[9] % 9 == 0 && multipliers[3] >= 2 {
        let all: usize = multipliers[3];
        multipliers[9] = all / 2;
        multipliers[3] = all % 2;
    }
}

fn shift(multipliers: &mut RadixTable, radix: usize, up: bool)
    requires
        radix < VKFFT_RADIX_TABLE_LEN,
        if up {
            old(multipliers)@[radix as int] < usize::MAX
        } else {
            old(multipliers)@[radix as int] > 0
        },
    ensures
        final(multipliers)@ == shifted(
            old(multipliers)@,
            radix as int,
            if up {
                1
            } else {
                -1
            },
        ),
{
    let count: usize = multipliers[radix];
    if up {
        multipliers[radix] = count + 1;
    } else {
        multipliers[radix] = count - 1;
    }
}

fn apply_boost_split(multipliers: &mut RadixTable, register_boost: usize)
    requires
        boost_split_fits(old(multipliers)@, register_boost),
    ensures
        final(multipliers)@ == split_for_boost(old(multipliers)@, register_boost),
{
    reveal(split_for_boost);
    if register_boost == 2 && multipliers[2] == 0 {
        if multipliers[4] > 0 {
            shift(multipliers, 4, false);
            multipliers[2] = 2;
        } else if multipliers[8] > 0 {
            shift(multipliers, 8, false);
            shift(multipliers, 4, true);
            shift(multipliers, 2, true);
        } else if multipliers[16] > 0 {
            shift(multipliers, 16, false);
            shift(multipliers, 8, true);
            shift(multipliers, 2, true);
        } else if multipliers[32] > 0 {
            shift(multipliers, 32, false);
            shift(multipliers, 16, true);
            shift(multipliers, 2, true);
        }
    }
    if register_boost == 4 && multipliers[4] == 0 {
        if multipliers[8] > 0 {
            shift(multipliers, 8, false);
            shift(multipliers, 4, true);
            shift(multipliers, 2, true);
        } else if multipliers[16] > 0 {
            shift(multipliers, 16, false);
            if multipliers[2] == 0 {
                multipliers[4] = 2;
            } else {
                shift(multipliers, 4, true);
                shift(multipliers, 2, false);
                shift(multipliers, 8, true);
            }
        } else if multipliers[32] > 0 {
            shift(multipliers, 32, false);
            if multipliers[2] == 0 {
                shift(multipliers, 8, true);
                shift(multipliers, 4, true);
            } else {
                shift(multipliers, 16, true);
                shift(multipliers, 4, true);
                shift(multipliers, 2, false);
            }
        }
    }
}

/// Trades primitive stages for composite ones and reports what the radices that are no
/// powers of two demand.
pub fn optimize_radix_kernels(
    registers: &mut RadixTable,
    multipliers: &mut RadixTable,
    register_boost: usize,
) -> (demand: (usize, usize))
    requires
        boost_split_fits(
            (RadixTables {
                registers: old(registers)@,
                multipliers: old(multipliers)@,
            }).grouped().multipliers,
            register_boost,
        ),
    ensures
        (RadixTables { registers: final(registers)@, multipliers: final(multipliers)@ })
            == optimized(
            RadixTables { registers: old(registers)@, multipliers: old(multipliers)@ },
            register_boost,
        ),
        demand == odd_radix_demand(final(multipliers)@, VKFFT_RADIX_TABLE_LEN as int),
{
    reveal(RadixTables::grouped);
    take_power(registers, multipliers, 32, 5);
    take_power(registers, multipliers, 16, 4);
    take_pair(registers, multipliers, 15, 3, 1, 5);
    take_pair(registers, multipliers, 14, 2, 1, 7);
    take_pair(registers, multipliers, 12, 2, 2, 3);
    take_pair(registers, multipliers, 10, 2, 1, 5);
    take_nine(registers, multipliers);
    take_power(registers, multipliers, 8, 3);
    take_pair(registers, multipliers, 6, 2, 1, 3);
    take_power(registers, multipliers, 4, 2);
    apply_boost_split(multipliers, register_boost);
    let mut largest: usize = 1;
    let mut required: usize = 1;
    let mut radix: usize = 2;
    while radix < VKFFT_RADIX_TABLE_LEN
        invariant
            2 <= radix <= VKFFT_RADIX_TABLE_LEN,
            (largest, required) == odd_radix_demand(multipliers@, radix as int),
        decreases VKFFT_RADIX_TABLE_LEN - radix,
    {
        if multipliers[radix] > 0 && !is_power_of_two(radix) {
            largest = umax(largest, radix);
            required = umax(required, local_registers(radix));
        }
        radix = radix + 1;
    }
    (largest, required)
}

/// `registers[2]` where the radix divides it, else 0.
pub open spec fn divided(value: usize, radix: int) -> usize {
    if value as int % radix == 0 {
        value
    } else {
        0
    }
}

/// The register table with its composite radices filled in from the primitive ones.
#[verifier::opaque]
pub open spec fn with_composites(r: Seq<usize>) -> Seq<usize> {
    r.update(32, divided(r[2], 32)).update(16, divided(r[2], 16)).update(
        8,
        divided(r[2], 8),
    ).update(4, divided(r[2], 4)).update(
        12,
        if r[2] >= 12 && r[3] >= 12 {
            divided(umin(r[2], r[3]), 12)
        } else {
            0
        },
    ).update(6, umin(r[2], r[3])).update(9, divided(r[3], 9)).update(
        10,
        umin(r[2], r[5]),
    ).update(14, umin(r[2], r[7])).update(15, umin(r[3], r[5]))
}

fn divided_or_zero(value: usize, radix: usize) -> (entry: usize)
    requires
        radix > 0,
    ensures
        entry == divided(value, radix as int),
{
    if value % radix == 0 {
        value
    } else {
        0
    }
}

/// Fills the composite radices in from the primitive ones.
pub fn derive_vkfft_composite_registers(registers: &mut RadixTable)
    ensures
        final(registers)@ == with_composites(old(registers)@),
{
    reveal(with_composites);
    let two: usize = registers[2];
    let three: usize = registers[3];
    let five: usize = registers[5];
    let seven: usize = registers[7];
    registers[32] = divided_or_zero(two, 32);
    registers[16] = divided_or_zero(two, 16);
    registers[8] = divided_or_zero(two, 8);
    registers[4] = divided_or_zero(two, 4);
    registers[12] = if two >= 12 && three >= 12 {
        divided_or_zero(umin(two, three), 12)
    } else {
        0
    };
    registers[6] = umin(two, three);
    registers[9] = divided_or_zero(three, 9);
    registers[10] = umin(two, five);
    registers[14] = umin(two, seven);
    registers[15] = umin(three, five);
}

/// The stages a multiplier table stands for, largest radix first, radices above `radix`
/// left out.
pub open spec fn expanded(multipliers: Seq<usize>, radix: int) -> Seq<usize>
    decreases radix,
{
    if radix < 2 {
        Seq::empty()
    } else {
        Seq::new(multipliers[radix] as nat, |i: int| radix as usize) + expanded(
            multipliers,
            radix - 1,
        )
    }
}

/// Every stage is a table radix.
pub open spec fn stages_in_table(stages: Seq<usize>) -> bool {
    forall|i: int| 0 <= i < stages.len() ==> radix_in_table(#[trigger] stages[i])
}

pub fn expand_stages(multipliers: &RadixTable) -> (stages: Vec<usize>)
    ensures
        stages@ == expanded(multipliers@, VKFFT_RADIX_TABLE_LEN - 1),
        stages_in_table(stages@),
{
    let mut stages: Vec<usize> = Vec::new();
    let mut radix: usize = VKFFT_RADIX_TABLE_LEN - 1;
    while radix >= 2
        invariant
            1 <= radix < VKFFT_RADIX_TABLE_LEN,
            stages@ + expanded(multipliers@, radix as int) == expanded(
                multipliers@,
                VKFFT_RADIX_TABLE_LEN - 1,
            ),
            stages_in_table(stages@),
        decreases radix,
    {
        let count: usize = multipliers[radix];
        let ghost before = stages@;
        let mut done: usize = 0;
        while done < count
            invariant
                done <= count,
                radix_in_table(radix),
                stages@ == before + Seq::new(done as nat, |i: int| radix),
                stages_in_table(stages@),
            decreases count - done,
        {
            stages.push(radix);
            done = done + 1;
            assert(stages@ =~= before + Seq::new(done as nat, |i: int| radix));
        }
        assert(stages@ + expanded(multipliers@, radix - 1) =~= before + expanded(
            multipliers@,
            radix as int,
        ));
        radix = radix - 1;
    }
    assert(stages@ + expanded(multipliers@, 1) =~= stages@);
    stages
}

/// The largest and smallest non-zero register count over the stages from index `from`
/// on, `most` and `least` being those over the earlier stages.
pub open spec fn extrema_from(
    stages: Seq<usize>,
    registers: Seq<usize>,
    from: int,
    most: usize,
    least: usize,
) -> (usize, usize)
    decreases stages.len() - from,
{
    if from >= stages.len() {
        if most == 0 {
            (0, 0)
        } else {
            (most, least)
        }
    } else {
        let value = registers[stages[from] as int];
        if value > 0 {
            extrema_from(stages, registers, from + 1, umax(most, value), umin(least, value))
        } else {
            extrema_from(stages, registers, from + 1, most, least)
        }
    }
}

/// The largest and smallest non-zero register count over all stages; zeros where there
/// is none.
pub open spec fn stage_extrema(stages: Seq<usize>, registers: Seq<usize>) -> (usize, usize) {
    extrema_from(stages, registers, 0, 0, usize::MAX)
}

/// Whether every stage has an entry in a register table.
pub open spec fn stages_indexable(stages: Seq<usize>) -> bool {
    forall|i: int| 0 <= i < stages.len() ==> #[trigger] stages[i] < VKFFT_RADIX_TABLE_LEN
}

pub fn min_max_stage_registers(stage_radices: &[usize], registers: &RadixTable) -> (extrema: (
    usize,
    usize,
))
    requires
        stages_indexable(stage_radices@),
    ensures
        extrema == stage_extrema(stage_radices@, registers@),
{
    let mut most: usize = 0;
    let mut least: usize = usize::MAX;
    let mut index: usize = 0;
    while index < stage_radices.len()
        invariant
            index <= stage_radices.len(),
            stages_indexable(stage_radices@),
            extrema_from(stage_radices@, registers@, index as int, most, least) == stage_extrema(
                stage_radices@,
                registers@,
            ),
        decreases stage_radices.len() - index,
    {
        assert(stage_radices@[index as int] < VKFFT_RADIX_TABLE_LEN);
        let value: usize = registers[stage_radices[index]];
        if value > 0 {
            most = umax(most, value);
            least = umin(least, value);
        }
        index = index + 1;
    }
    if most == 0 {
        (0, 0)
    } else {
        (most, least)
    }
}

/// The largest and smallest non-zero entry of a table from index `from` on, `most` and
/// `least` being those of the earlier entries.
pub open spec fn table_extrema_from(
    table: Seq<usize>,
    from: int,
    most: usize,
    least: usize,
) -> (usize, usize)
    decreases table.len() - from,
{
    if from >= table.len() {
        (most, least)
    } else if table[from] == 0 {
        table_extrema_from(table, from + 1, most, least)
    } else {
        table_extrema_from(table, from + 1, umax(most, table[from]), umin(least, table[from]))
    }
}

/// The largest and smallest non-zero entry of a table; 0 and `usize::MAX` where every
/// entry is 0.
pub open spec fn table_extrema(table: Seq<usize>) -> (usize, usize) {
    table_extrema_from(table, 0, 0, usize::MAX)
}

pub fn min_max_table_registers(table: &RadixTable) -> (extrema: (usize, usize))
    ensures
        extrema == table_extrema(table@),
{
    let mut most: usize = 0;
    let mut least: usize = usize::MAX;
    let mut index: usize = 0;
    while index < VKFFT_RADIX_TABLE_LEN
        invariant
            index <= VKFFT_RADIX_TABLE_LEN,
            table_extrema_from(table@, index as int, most, least) == table_extrema(table@),
        decreases VKFFT_RADIX_TABLE_LEN - index,
    {
        let value: usize = table[index];
        if value != 0 {
            most = umax(most, value);
            least = umin(least, value);
        }
        index = index + 1;
    }
    (most, least)
}

/// The first stage from index `from` on whose register count is `wanted`.
pub open spec fn first_stage_with(
    stages: Seq<usize>,
    registers: Seq<usize>,
    wanted: usize,
    from: int,
) -> Option<int>
    decreases stages.len() - from,
{
    if from >= stages.len() {
        None
    } else if registers[stages[from] as int] == wanted {
        Some(from)
    } else {
        first_stage_with(stages, registers, wanted, from + 1)
    }
}

/// The stages with the first of the least register demand moved to the front, in
/// exchange for the front stage.
pub open spec fn least_first(
    stages: Seq<usize>,
    registers: Seq<usize>,
    most: usize,
    least: usize,
) -> Seq<usize> {
    if least == most {
        stages
    } else {
        match first_stage_with(stages, registers, least, 0) {
            None => stages,
            Some(index) => stages.update(0, stages[index]).update(index, stages[0]),
        }
    }
}

fn move_least_first(stages: &mut Vec<usize>, registers: &RadixTable, most: usize, least: usize)
    requires
        stages_in_table(old(stages)@),
    ensures
        final(stages)@ == least_first(old(stages)@, registers@, most, least),
        stages_in_table(final(stages)@),
{
    if least == most {
        return ;
    }
    let mut index: usize = 0;
    while index < stages.len()
        invariant
            index <= stages.len(),
            stages@ == old(stages)@,
            stages_in_table(stages@),
            first_stage_with(stages@, registers@, least, index as int) == first_stage_with(
                stages@,
                registers@,
                least,
                0,
            ),
            least != most,
        decreases stages.len() - index,
    {
        assert(radix_in_table(stages@[index as int]));
        if registers[stages[index]] == least {
            let front: usize = stages[0];
            let found: usize = stages[index];
            stages.set(0, found);
            stages.set(index, front);
            return ;
        }
        index = index + 1;
    }
}

/// Registers of the primitive radices 2, 3, 5, 7, 11 and 13, in this order.
pub struct PrimitiveRegisters {
    pub two: usize,
    pub three: usize,
    pub five: usize,
    pub seven: usize,
    pub eleven: usize,
    pub thirteen: usize,
}

/// How often 2, 3, 5, 7, 11 and 13 divide a transform length.
pub struct SmallExponents {
    pub two: usize,
    pub three: usize,
    pub five: usize,
    pub seven: usize,
    pub eleven: usize,
    pub thirteen: usize,
}

/// What is left of a transform length once its small primes are taken out in turn.
#[verifier::opaque]
pub open spec fn small_rest(fft_len: int) -> int {
    crate::arith::stripped(
        crate::arith::stripped(
            crate::arith::stripped(
                crate::arith::stripped(
                    crate::arith::stripped(crate::arith::stripped(fft_len, 2), 3),
                    5,
                ),
                7,
            ),
            11,
        ),
        13,
    )
}

/// The exponents of the small primes, each counted after the smaller ones are taken out.
#[verifier::opaque]
pub open spec fn small_exponents(fft_len: int) -> SmallExponents {
    let after2 = crate::arith::stripped(fft_len, 2);
    let after3 = crate::arith::stripped(after2, 3);
    let after5 = crate::arith::stripped(after3, 5);
    let after7 = crate::arith::stripped(after5, 7);
    let after11 = crate::arith::stripped(after7, 11);
    SmallExponents {
        two: crate::arith::multiplicity(fft_len, 2) as usize,
        three: crate::arith::multiplicity(after2, 3) as usize,
        five: crate::arith::multiplicity(after3, 5) as usize,
        seven: crate::arith::multiplicity(after5, 7) as usize,
        eleven: crate::arith::multiplicity(after7, 11) as usize,
        thirteen: crate::arith::multiplicity(after11, 13) as usize,
    }
}

/// Factors a length over the small primes; the second value is what is left.
pub fn factor_small(fft_len: usize) -> (factored: (SmallExponents, usize))
    requires
        fft_len > 0,
    ensures
        factored.0 == small_exponents(fft_len as int),
        factored.1 == small_rest(fft_len as int),
        factored.0.two < 64,
        factored.0.three < 64,
        factored.0.five < 64,
        factored.0.seven < 64,
        factored.0.eleven < 64,
        factored.0.thirteen < 64,
{
    reveal(small_exponents);
    reveal(small_rest);
    let (after2, two) = strip_factor(fft_len, 2);
    let (after3, three) = strip_factor(after2, 3);
    let (after5, five) = strip_factor(after3, 5);
    let (after7, seven) = strip_factor(after5, 7);
    let (after11, eleven) = strip_factor(after7, 11);
    let (rest, thirteen) = strip_factor(after11, 13);
    (SmallExponents { two, three, five, seven, eleven, thirteen }, rest)
}

/// Registers per primitive radix of a smooth length with an odd prime factor, other than
/// `2^a * 3^b`. Radices 11 and 13 always take as many registers as they have points; the
/// rest depends on which of 2, 3, 5 and 7 occur, on whether 11 or 13 does, and on how
/// often 2 and 3 do.
#[verifier::allow_in_spec]
pub fn primitive_registers(e: SmallExponents) -> PrimitiveRegisters
    returns
        ({
            let eleven = if e.eleven > 0 {
                11usize
            } else {
                0
            };
            let thirteen = if e.thirteen > 0 {
                13usize
            } else {
                0
            };
            let wide = e.eleven > 0 || e.thirteen > 0;
            let (two, three, five, seven) = if e.two > 0 && e.three > 0 {
                two_three_base(e, wide)
            } else if e.two > 0 {
                two_base(e, wide)
            } else if e.three > 0 {
                three_base(e, wide)
            } else {
                (
                    0usize,
                    0usize,
                    if e.five > 0 {
                        5usize
                    } else {
                        0
                    },
                    if e.seven > 0 {
                        7usize
                    } else {
                        0
                    },
                )
            };
            PrimitiveRegisters { two, three, five, seven, eleven, thirteen }
        }),
{
    let eleven: usize = if e.eleven > 0 {
        11
    } else {
        0
    };
    let thirteen: usize = if e.thirteen > 0 {
        13
    } else {
        0
    };
    let wide: bool = e.eleven > 0 || e.thirteen > 0;
    let (two, three, five, seven): (usize, usize, usize, usize) = if e.two > 0 && e.three > 0 {
        two_three_base(e, wide)
    } else if e.two > 0 {
        two_base(e, wide)
    } else if e.three > 0 {
        three_base(e, wide)
    } else {
        (
            0,
            0,
            if e.five > 0 {
                5
            } else {
                0
            },
            if e.seven > 0 {
                7
            } else {
                0
            },
        )
    };
    PrimitiveRegisters { two, three, five, seven, eleven, thirteen }
}

/// Registers of radices 2, 3, 5 and 7 where both 2 and 3 divide the length.
#[verifier::allow_in_spec]
pub fn two_three_base(e: SmallExponents, wide: bool) -> (usize, usize, usize, usize)
    returns
        (if e.five > 0 && e.seven > 0 {
            if e.two == 1 {
                (14usize, 15usize, 15usize, 14usize)
            } else if e.two <= 3 {
                (12, 12, 15, 14)
            } else {
                (16, 12, 15, 14)
            }
        } else if e.five > 0 {
            if e.two == 1 {
                if wide {
                    (10, 15, 10, 0)
                } else {
                    (6, 6, 5, 0)
                }
            } else {
                (12, 12, 10, 0)
            }
        } else if e.seven > 0 {
            if wide {
                (12, 12, 0, 14)
            } else if e.two <= 2 {
                (6, 6, 0, 7)
            } else {
                (8, 6, 0, 7)
            }
        } else if e.two == 1 {
            (6, 6, 0, 0)
        } else {
            (12, 12, 0, 0)
        }),
{
    if e.five > 0 && e.seven > 0 {
        if e.two == 1 {
            (14, 15, 15, 14)
        } else if e.two <= 3 {
            (12, 12, 15, 14)
        } else {
            (16, 12, 15, 14)
        }
    } else if e.five > 0 {
        if e.two == 1 {
            if wide {
                (10, 15, 10, 0)
            } else {
                (6, 6, 5, 0)
            }
        } else {
            (12, 12, 10, 0)
        }
    } else if e.seven > 0 {
        if wide {
            (12, 12, 0, 14)
        } else if e.two <= 2 {
            (6, 6, 0, 7)
        } else {
            (8, 6, 0, 7)
        }
    } else if e.two == 1 {
        (6, 6, 0, 0)
    } else {
        (12, 12, 0, 0)
    }
}

/// Registers of radices 2, 3, 5 and 7 where 2 divides the length and 3 does not.
#[verifier::allow_in_spec]
pub fn two_base(e: SmallExponents, wide: bool) -> (usize, usize, usize, usize)
    returns
        (if e.five > 0 && e.seven > 0 && wide {
            if e.two <= 2 {
                (10usize, 0usize, 10usize, 14usize)
            } else if e.two == 3 {
                (8, 0, 10, 14)
            } else {
                (16, 0, 10, 14)
            }
        } else if e.five > 0 {
            (
                if e.two <= 2 {
                    10
                } else {
                    8
                },
                0,
                10,
                if e.seven > 0 {
                    7
                } else {
                    0
                },
            )
        } else if e.seven > 0 {
            if e.two <= 2 {
                (14, 0, 0, 14)
            } else if !wide {
                (8, 0, 0, 7)
            } else if e.two == 3 {
                (8, 0, 0, 14)
            } else {
                (16, 0, 0, 14)
            }
        } else if e.thirteen > 0 {
            (
                if e.two <= 2 {
                    12
                } else {
                    8
                },
                0,
                0,
                0,
            )
        } else {
            (
                if e.two == 1 {
                    10
                } else {
                    8
                },
                0,
                0,
                0,
            )
        }),
{
    if e.five > 0 && e.seven > 0 && wide {
        if e.two <= 2 {
            (10, 0, 10, 14)
        } else if e.two == 3 {
            (8, 0, 10, 14)
        } else {
            (16, 0, 10, 14)
        }
    } else if e.five > 0 {
        (
            if e.two <= 2 {
                10
            } else {
                8
            },
            0,
            10,
            if e.seven > 0 {
                7
            } else {
                0
            },
        )
    } else if e.seven > 0 {
        if e.two <= 2 {
            (14, 0, 0, 14)
        } else if !wide {
            (8, 0, 0, 7)
        } else if e.two == 3 {
            (8, 0, 0, 14)
        } else {
            (16, 0, 0, 14)
        }
    } else if e.thirteen > 0 {
        (
            if e.two <= 2 {
                12
            } else {
                8
            },
            0,
            0,
            0,
        )
    } else {
        (
            if e.two == 1 {
                10
            } else {
                8
            },
            0,
            0,
            0,
        )
    }
}

/// Registers of radices 2, 3, 5 and 7 where 3 divides the length and 2 does not.
#[verifier::allow_in_spec]
pub fn three_base(e: SmallExponents, wide: bool) -> (usize, usize, usize, usize)
    returns
        (if e.five > 0 {
            (
                0usize,
                15usize,
                15usize,
                if e.seven > 0 {
                    14usize
                } else {
                    0
                },
            )
        } else if e.seven > 0 {
            if e.three != 1 {
                (0, 9, 0, 7)
            } else if wide {
                (0, 12, 0, 14)
            } else {
                (0, 6, 0, 7)
            }
        } else if e.thirteen > 0 {
            (
                0,
                if e.three == 1 {
                    12
                } else {
                    9
                },
                0,
                0,
            )
        } else if e.eleven > 0 || e.three != 1 {
            (0, 9, 0, 0)
        } else {
            (0, 3, 0, 0)
        }),
{
    if e.five > 0 {
        (
            0,
            15,
            15,
            if e.seven > 0 {
                14
            } else {
                0
            },
        )
    } else if e.seven > 0 {
        if e.three != 1 {
            (0, 9, 0, 7)
        } else if wide {
            (0, 12, 0, 14)
        } else {
            (0, 6, 0, 7)
        }
    } else if e.thirteen > 0 {
        (
            0,
            if e.three == 1 {
                12
            } else {
                9
            },
            0,
            0,
        )
    } else if e.eleven > 0 || e.three != 1 {
        (0, 9, 0, 0)
    } else {
        (0, 3, 0, 0)
    }
}

/// A table that is 0 everywhere.
pub open spec fn zero_table() -> Seq<usize> {
    Seq::new(VKFFT_RADIX_TABLE_LEN as nat, |i: int| 0usize)
}

/// A table with these entries at the primes 2 to 13 and 0 elsewhere.
#[verifier::opaque]
pub open spec fn prime_table(
    two: usize,
    three: usize,
    five: usize,
    seven: usize,
    eleven: usize,
    thirteen: usize,
) -> Seq<usize> {
    zero_table().update(2, two).update(3, three).update(5, five).update(7, seven).update(
        11,
        eleven,
    ).update(13, thirteen)
}

pub fn build_prime_table(
    two: usize,
    three: usize,
    five: usize,
    seven: usize,
    eleven: usize,
    thirteen: usize,
) -> (table: RadixTable)
    ensures
        table@ == prime_table(two, three, five, seven, eleven, thirteen),
        table@[2] == two,
{
    reveal(prime_table);
    let mut table: RadixTable = [0; VKFFT_RADIX_TABLE_LEN];
    assert(table@ =~= zero_table());
    table[2] = two;
    table[3] = three;
    table[5] = five;
    table[7] = seven;
    table[11] = eleven;
    table[13] = thirteen;
    table
}

/// A length is good where its stages take at most 16 registers and the largest demand is
/// less than twice the smallest.
pub open spec fn good_sequence(most: usize, least: usize) -> bool {
    most <= 16 && most < 2 * least
}

/// The schedule of a length with an odd prime factor, from its primitive tables.
pub open spec fn mixed_radix_schedule(
    fft_len: usize,
    rhs_transform_count: usize,
    tables: RadixTables,
    reorder: bool,
    empty: &'static str,
) -> PlanResult<RadixRegisterModel> {
    let best = optimized(tables, 1);
    let stages = expanded(best.multipliers, VKFFT_RADIX_TABLE_LEN - 1);
    let (most, least) = stage_extrema(stages, best.registers);
    let demand = odd_radix_demand(best.multipliers, VKFFT_RADIX_TABLE_LEN as int);
    if most == 0 || least == 0 {
        Err(VkFftError::InvalidKernelIr(empty))
    } else {
        (RadixRegisterModel {
            fft_len,
            rhs_transform_count,
            register_boost: 1,
            registers_per_thread_per_radix: best.registers,
            stage_radix_multipliers: best.multipliers,
            stage_radices: if reorder {
                least_first(stages, best.registers, most, least)
            } else {
                stages
            },
            register_boost_stage_radix: None,
            registers_per_thread: most,
            min_registers_per_thread: least,
            is_good_sequence: good_sequence(most, least),
            max_non_power_of_two_radix: demand.0,
            required_local_registers: demand.1,
        }).if_checked()
    }
}

fn finalize_mixed_radix_register_schedule(
    fft_len: usize,
    rhs_transform_count: usize,
    registers: RadixTable,
    multipliers: RadixTable,
    reorder: bool,
    empty: &'static str,
) -> (planned: PlanResult<RadixRegisterSchedule>)
    ensures
        viewed(planned) == mixed_radix_schedule(
            fft_len,
            rhs_transform_count,
            RadixTables { registers: registers@, multipliers: multipliers@ },
            reorder,
            empty,
        ),
{
    let mut registers = registers;
    let mut multipliers = multipliers;
    let (max_non_power_of_two_radix, required_local_registers) = optimize_radix_kernels(
        &mut registers,
        &mut multipliers,
        1,
    );
    let mut stage_radices: Vec<usize> = expand_stages(&multipliers);
    let (most, least) = min_max_stage_registers(stage_radices.as_slice(), &registers);
    if most == 0 || least == 0 {
        return Err(VkFftError::InvalidKernelIr(empty));
    }
    if reorder {
        move_least_first(&mut stage_radices, &registers, most, least);
    }
    let schedule = RadixRegisterSchedule {
        fft_len,
        rhs_transform_count,
        register_boost: 1,
        registers_per_thread_per_radix: registers,
        stage_radix_multipliers: multipliers,
        stage_radices,
        register_boost_stage_radix: None,
        registers_per_thread: most,
        min_registers_per_thread: least,
        is_good_sequence: !(most > 16 || most / 2 >= least),
        max_non_power_of_two_radix,
        required_local_registers,
    };
    schedule.validate()?;
    Ok(schedule)
}

/// The schedule of a length `2^a * 3^b` with both exponents positive. Both primitive
/// radices take 6 registers where the exponents agree or 2 divides only once, else 12.
pub open spec fn two_three_schedule(
    fft_len: usize,
    rhs_transform_count: usize,
) -> PlanResult<RadixRegisterModel> {
    let exponent2 = crate::arith::multiplicity(fft_len as int, 2) as usize;
    let after2 = crate::arith::stripped(fft_len as int, 2);
    let exponent3 = crate::arith::multiplicity(after2, 3) as usize;
    let primitive: usize = if exponent2 == exponent3 || exponent2 == 1 {
        6
    } else {
        12
    };
    if fft_len < 6 || rhs_transform_count == 0 {
        Err(
            VkFftError::UnsupportedKernelPath(
                "2x3 radix register scheduling requires a non-trivial FFT and RHS count",
            ),
        )
    } else if crate::arith::stripped(after2, 3) != 1 || exponent2 == 0 || exponent3 == 0 {
        Err(
            VkFftError::UnsupportedKernelPath(
                "first mixed-radix Stockham register slice covers exactly 2^a * 3^b",
            ),
        )
    } else {
        mixed_radix_schedule(
            fft_len,
            rhs_transform_count,
            RadixTables {
                registers: with_composites(prime_table(primitive, primitive, 0, 0, 0, 0)),
                multipliers: prime_table(exponent2, exponent3, 0, 0, 0, 0),
            },
            false,
            "2x3 radix scheduler produced no executable stages",
        )
    }
}

pub fn plan_nvidia_vulkan_two_three_radix_registers(
    fft_len: usize,
    rhs_transform_count: usize,
) -> (planned: PlanResult<RadixRegisterSchedule>)
    ensures
        viewed(planned) == two_three_schedule(fft_len, rhs_transform_count),
{
    if fft_len < 6 || rhs_transform_count == 0 {
        return Err(
            VkFftError::UnsupportedKernelPath(
                "2x3 radix register scheduling requires a non-trivial FFT and RHS count",
            ),
        );
    }
    let (after2, exponent2) = strip_factor(fft_len, 2);
    let (rest, exponent3) = strip_factor(after2, 3);
    if rest != 1 || exponent2 == 0 || exponent3 == 0 {
        return Err(
            VkFftError::UnsupportedKernelPath(
                "first mixed-radix Stockham register slice covers exactly 2^a * 3^b",
            ),
        );
    }
    let primitive: usize = if exponent2 == exponent3 || exponent2 == 1 {
        6
    } else {
        12
    };
    let mut registers: RadixTable = build_prime_table(primitive, primitive, 0, 0, 0, 0);
    derive_vkfft_composite_registers(&mut registers);
    let multipliers: RadixTable = build_prime_table(exponent2, exponent3, 0, 0, 0, 0);
    finalize_mixed_radix_register_schedule(
        fft_len,
        rhs_transform_count,
        registers,
        multipliers,
        false,
        "2x3 radix scheduler produced no executable stages",
    )
}

/// The schedule of any length over the primes 2 to 13 that has an odd prime factor.
pub open spec fn small_mixed_schedule(
    fft_len: usize,
    rhs_transform_count: usize,
) -> PlanResult<RadixRegisterModel> {
    let e = small_exponents(fft_len as int);
    let r = primitive_registers(e);
    let odd = e.five > 0 || e.seven > 0 || e.eleven > 0 || e.thirteen > 0;
    if fft_len < 3 || rhs_transform_count == 0 {
        Err(
            VkFftError::UnsupportedKernelPath(
                "non-power-of-two register scheduling requires an FFT length >= 3 and RHS count",
            ),
        )
    } else if small_rest(fft_len as int) != 1 {
        Err(
            VkFftError::UnsupportedKernelPath(
                "mixed-radix register slice requires factors from 2/3/5/7/11/13 only",
            ),
        )
    } else if e.three == 0 && !odd {
        Err(
            VkFftError::UnsupportedKernelPath(
                "power-of-two or empty factorization belongs to a different scheduler branch",
            ),
        )
    } else if e.two > 0 && e.three > 0 && !odd {
        two_three_schedule(fft_len, rhs_transform_count)
    } else {
        mixed_radix_schedule(
            fft_len,
            rhs_transform_count,
            RadixTables {
                registers: with_composites(
                    prime_table(r.two, r.three, r.five, r.seven, r.eleven, r.thirteen),
                ),
                multipliers: prime_table(e.two, e.three, e.five, e.seven, e.eleven, e.thirteen),
            },
            true,
            "mixed-radix scheduler produced no executable stages",
        )
    }
}

pub fn plan_nvidia_vulkan_small_mixed_radix_registers(
    fft_len: usize,
    rhs_transform_count: usize,
) -> (planned: PlanResult<RadixRegisterSchedule>)
    ensures
        viewed(planned) == small_mixed_schedule(fft_len, rhs_transform_count),
{
    if fft_len < 3 || rhs_transform_count == 0 {
        return Err(
            VkFftError::UnsupportedKernelPath(
                "non-power-of-two register scheduling requires an FFT length >= 3 and RHS count",
            ),
        );
    }
    let (e, rest) = factor_small(fft_len);
    if rest != 1 {
        return Err(
            VkFftError::UnsupportedKernelPath(
                "mixed-radix register slice requires factors from 2/3/5/7/11/13 only",
            ),
        );
    }
    let odd: bool = e.five > 0 || e.seven > 0 || e.eleven > 0 || e.thirteen > 0;
    if e.three == 0 && !odd {
        return Err(
            VkFftError::UnsupportedKernelPath(
                "power-of-two or empty factorization belongs to a different scheduler branch",
            ),
        );
    }
    if e.two > 0 && e.three > 0 && !odd {
        return plan_nvidia_vulkan_two_three_radix_registers(fft_len, rhs_transform_count);
    }
    let multipliers: RadixTable = build_prime_table(
        e.two,
        e.three,
        e.five,
        e.seven,
        e.eleven,
        e.thirteen,
    );
    let r = primitive_registers(e);
    let mut registers: RadixTable = build_prime_table(
        r.two,
        r.three,
        r.five,
        r.seven,
        r.eleven,
        r.thirteen,
    );
    derive_vkfft_composite_registers(&mut registers);
    finalize_mixed_radix_register_schedule(
        fft_len,
        rhs_transform_count,
        registers,
        multipliers,
        true,
        "mixed-radix scheduler produced no executable stages",
    )
}

/// The same schedule for any GPU backend.
pub fn plan_gpu_small_mixed_radix_registers(
    fft_len: usize,
    rhs_transform_count: usize,
) -> (planned: PlanResult<RadixRegisterSchedule>)
    ensures
        viewed(planned) == small_mixed_schedule(fft_len, rhs_transform_count),
{
    plan_nvidia_vulkan_small_mixed_radix_registers(fft_len, rhs_transform_count)
}

/// Binary digits one radix-2 stage group covers: the least of 1, 2 and 3 that reaches
/// the fewest stages over `exponent` digits.
#[verifier::allow_in_spec]
pub fn fewest_stage_log(exponent: usize) -> usize
    returns
        (if exponent <= 1 {
            1usize
        } else if exponent == 2 || exponent == 4 {
            2
        } else {
            3
        }),
{
    if exponent <= 1 {
        1
    } else if exponent == 2 || exponent == 4 {
        2
    } else {
        3
    }
}

/// What makes the group size the right one: no group size up to 3 needs fewer stages,
/// and no smaller one needs as few.
pub proof fn fewest_stage_log_is_best(exponent: usize, other: int)
    requires
        1 <= other <= 3,
    ensures
        ({
            let best = fewest_stage_log(exponent) as int;
            let stages = (exponent + best - 1) / best;
            let others = (exponent + other - 1) / other;
            &&& stages <= others
            &&& other < best ==> stages < others
        }),
{
    let best = fewest_stage_log(exponent) as int;
    if other == 1 {
        assert((exponent + other - 1) / other == (exponent + 1 - 1) / 1);
    } else if other == 2 {
        assert((exponent + other - 1) / other == (exponent + 2 - 1) / 2);
    } else {
        assert((exponent + other - 1) / other == (exponent + 3 - 1) / 3);
    }
    if best == 1 {
        assert((exponent + best - 1) / best == (exponent + 1 - 1) / 1);
    } else if best == 2 {
        assert((exponent + best - 1) / best == (exponent + 2 - 1) / 2);
    } else {
        assert((exponent + best - 1) / best == (exponent + 3 - 1) / 3);
    }
}

/// `2^log` for a stage group.
#[verifier::allow_in_spec]
pub fn small_power_of_two(log: usize) -> usize
    returns
        (if log == 0 {
            1usize
        } else if log == 1 {
            2
        } else if log == 2 {
            4
        } else {
            8
        }),
{
    if log == 0 {
        1
    } else if log == 1 {
        2
    } else if log == 2 {
        4
    } else {
        8
    }
}

/// The register table of a power of two: radix 2 takes the registers of one stage group,
/// and the composite powers of two follow. The estimate of active threads has to fit.
pub open spec fn power_of_two_table(
    fft_len: usize,
    exponent: usize,
    rhs_transform_count: usize,
) -> PlanResult<Seq<usize>> {
    match checked_mul(
        umax(rhs_transform_count / 64, 1),
        fft_len,
        "power-of-two register scheduler active thread estimate",
    ) {
        Err(error) => Err(error),
        Ok(_) => Ok(
            with_composites(
                prime_table(
                    small_power_of_two(umin(exponent, fewest_stage_log(exponent))),
                    0,
                    0,
                    0,
                    0,
                    0,
                ),
            ),
        ),
    }
}

fn power_of_two_register_table(
    fft_len: usize,
    exponent: usize,
    rhs_transform_count: usize,
) -> (table: PlanResult<RadixTable>)
    ensures
        match table {
            Ok(registers) => power_of_two_table(fft_len, exponent, rhs_transform_count) == Ok::<
                Seq<usize>,
                VkFftError,
            >(registers@),
            Err(error) => power_of_two_table(fft_len, exponent, rhs_transform_count) == Err::<
                Seq<usize>,
                VkFftError,
            >(error),
        },
{
    let _active_threads: usize = checked_mul(
        umax(rhs_transform_count / 64, 1),
        fft_len,
        "power-of-two register scheduler active thread estimate",
    )?;
    let mut registers: RadixTable = build_prime_table(
        small_power_of_two(umin(exponent, fewest_stage_log(exponent))),
        0,
        0,
        0,
        0,
        0,
    );
    derive_vkfft_composite_registers(&mut registers);
    Ok(registers)
}

/// The largest radix up to `radix` that has a stage.
pub open spec fn largest_used(multipliers: Seq<usize>, radix: int) -> Option<usize>
    decreases radix,
{
    if radix < 2 {
        None
    } else if multipliers[radix] > 0 {
        Some(radix as usize)
    } else {
        largest_used(multipliers, radix - 1)
    }
}

/// Which stage a register boost takes out of the sequence: the boost's own radix where
/// it has a stage, else the largest radix that has one.
pub open spec fn boost_stage(multipliers: Seq<usize>, register_boost: usize) -> Option<usize> {
    if register_boost <= 1 {
        None
    } else if multipliers[register_boost as int] > 0 {
        Some(register_boost)
    } else {
        largest_used(multipliers, VKFFT_RADIX_TABLE_LEN - 1)
    }
}

fn find_boost_stage(multipliers: &RadixTable, register_boost: usize) -> (stage: Option<usize>)
    requires
        register_boost < VKFFT_RADIX_TABLE_LEN,
    ensures
        stage == boost_stage(multipliers@, register_boost),
        stage matches Some(radix) ==> radix < VKFFT_RADIX_TABLE_LEN && multipliers@[radix as int]
            > 0,
{
    if register_boost <= 1 {
        return None;
    }
    if multipliers[register_boost] > 0 {
        return Some(register_boost);
    }
    let mut radix: usize = VKFFT_RADIX_TABLE_LEN - 1;
    while radix >= 2
        invariant
            1 <= radix < VKFFT_RADIX_TABLE_LEN,
            largest_used(multipliers@, radix as int) == largest_used(
                multipliers@,
                VKFFT_RADIX_TABLE_LEN - 1,
            ),
            register_boost > 1,
            register_boost < VKFFT_RADIX_TABLE_LEN,
            multipliers@[register_boost as int] == 0,
        decreases radix,
    {
        if multipliers[radix] > 0 {
            return Some(radix);
        }
        radix = radix - 1;
    }
    None
}

/// The schedule of a power of two. A boost stage is taken out of the sequence before the
/// register demand is measured, and appended at its end.
pub open spec fn power_of_two_schedule(
    fft_len: usize,
    rhs_transform_count: usize,
    register_boost: usize,
) -> PlanResult<RadixRegisterModel> {
    let exponent = crate::arith::multiplicity(fft_len as int, 2) as usize;
    if !is_power_of_two(fft_len) {
        Err(
            VkFftError::UnsupportedKernelPath(
                "power-of-two radix register scheduling requires a power-of-two FFT length",
            ),
        )
    } else if rhs_transform_count == 0 {
        Err(
            VkFftError::InvalidKernelIr(
                "radix register scheduler requires a non-zero RHS transform count",
            ),
        )
    } else if !is_power_of_two(register_boost) || register_boost >= VKFFT_RADIX_TABLE_LEN {
        Err(
            VkFftError::InvalidKernelIr(
                "power-of-two radix scheduler requires a supported power-of-two register boost",
            ),
        )
    } else if fft_len == 1 {
        (RadixRegisterModel {
            fft_len,
            rhs_transform_count,
            register_boost,
            registers_per_thread_per_radix: zero_table(),
            stage_radix_multipliers: zero_table(),
            stage_radices: Seq::empty(),
            register_boost_stage_radix: None,
            registers_per_thread: 2,
            min_registers_per_thread: 2,
            is_good_sequence: true,
            max_non_power_of_two_radix: 1,
            required_local_registers: 1,
        }).if_checked()
    } else {
        match power_of_two_table(fft_len, exponent, rhs_transform_count) {
            Err(error) => Err(error),
            Ok(registers) => {
                let best = optimized(
                    RadixTables { registers, multipliers: prime_table(exponent, 0, 0, 0, 0, 0) },
                    register_boost,
                );
                let boost_radix = boost_stage(best.multipliers, register_boost);
                let multipliers = match boost_radix {
                    Some(radix) => shifted(best.multipliers, radix as int, -1),
                    None => best.multipliers,
                };
                let demand = odd_radix_demand(best.multipliers, VKFFT_RADIX_TABLE_LEN as int);
                let stages = expanded(multipliers, VKFFT_RADIX_TABLE_LEN - 1);
                let (most, least) = if stages.len() == 0 {
                    (2usize, 2usize)
                } else {
                    stage_extrema(stages, best.registers)
                };
                (RadixRegisterModel {
                    fft_len,
                    rhs_transform_count,
                    register_boost,
                    registers_per_thread_per_radix: best.registers,
                    stage_radix_multipliers: multipliers,
                    stage_radices: match boost_radix {
                        Some(radix) => stages.push(radix),
                        None => least_first(stages, best.registers, most, least),
                    },
                    register_boost_stage_radix: boost_radix,
                    registers_per_thread: most,
                    min_registers_per_thread: least,
                    is_good_sequence: true,
                    max_non_power_of_two_radix: demand.0,
                    required_local_registers: demand.1,
                }).if_checked()
            },
        }
    }
}

pub fn plan_nvidia_vulkan_power_of_two_radix_registers(
    fft_len: usize,
    rhs_transform_count: usize,
    register_boost: usize,
) -> (planned: PlanResult<RadixRegisterSchedule>)
    ensures
        viewed(planned) == power_of_two_schedule(fft_len, rhs_transform_count, register_boost),
{
    if fft_len == 0 || !is_power_of_two(fft_len) {
        return Err(
            VkFftError::UnsupportedKernelPath(
                "power-of-two radix register scheduling requires a power-of-two FFT length",
            ),
        );
    }
    if rhs_transform_count == 0 {
        return Err(
            VkFftError::InvalidKernelIr(
                "radix register scheduler requires a non-zero RHS transform count",
            ),
        );
    }
    if register_boost == 0 || !is_power_of_two(register_boost) || register_boost
        >= VKFFT_RADIX_TABLE_LEN {
        return Err(
            VkFftError::InvalidKernelIr(
                "power-of-two radix scheduler requires a supported power-of-two register boost",
            ),
        );
    }
    if fft_len == 1 {
        let zero: RadixTable = [0; VKFFT_RADIX_TABLE_LEN];
        assert(zero@ =~= zero_table());
        let schedule = RadixRegisterSchedule {
            fft_len,
            rhs_transform_count,
            register_boost,
            registers_per_thread_per_radix: zero,
            stage_radix_multipliers: zero,
            stage_radices: Vec::new(),
            register_boost_stage_radix: None,
            registers_per_thread: 2,
            min_registers_per_thread: 2,
            is_good_sequence: true,
            max_non_power_of_two_radix: 1,
            required_local_registers: 1,
        };
        schedule.validate()?;
        return Ok(schedule);
    }
    let (_rest, exponent) = strip_factor(fft_len, 2);
    let mut registers: RadixTable = power_of_two_register_table(
        fft_len,
        exponent,
        rhs_transform_count,
    )?;
    let mut multipliers: RadixTable = build_prime_table(exponent, 0, 0, 0, 0, 0);
    proof {
        grouping_keeps_twos(RadixTables { registers: registers@, multipliers: multipliers@ });
    }
    let (max_non_power_of_two_radix, required_local_registers) = optimize_radix_kernels(
        &mut registers,
        &mut multipliers,
        register_boost,
    );
    let register_boost_stage_radix: Option<usize> = find_boost_stage(&multipliers, register_boost);
    if let Some(radix) = register_boost_stage_radix {
        shift(&mut multipliers, radix, false);
    }
    let mut stage_radices: Vec<usize> = expand_stages(&multipliers);
    let (most, least) = if stage_radices.len() == 0 {
        (2, 2)
    } else {
        min_max_stage_registers(stage_radices.as_slice(), &registers)
    };
    match register_boost_stage_radix {
        Some(radix) => {
            stage_radices.push(radix);
        },
        None => {
            move_least_first(&mut stage_radices, &registers, most, least);
        },
    }
    let schedule = RadixRegisterSchedule {
        fft_len,
        rhs_transform_count,
        register_boost,
        registers_per_thread_per_radix: registers,
        stage_radix_multipliers: multipliers,
        stage_radices,
        register_boost_stage_radix,
        registers_per_thread: most,
        min_registers_per_thread: least,
        is_good_sequence: true,
        max_non_power_of_two_radix,
        required_local_registers,
    };
    schedule.validate()?;
    Ok(schedule)
}

/// The same schedule for any GPU backend.
pub fn plan_gpu_power_of_two_radix_registers(
    fft_len: usize,
    rhs_transform_count: usize,
    register_boost: usize,
) -> (planned: PlanResult<RadixRegisterSchedule>)
    ensures
        viewed(planned) == power_of_two_schedule(fft_len, rhs_transform_count, register_boost),
{
    plan_nvidia_vulkan_power_of_two_radix_registers(fft_len, rhs_transform_count, register_boost)
}

proof fn stage_product_in_table(
    stages: Seq<usize>,
    registers: Seq<usize>,
    from: int,
    product: usize,
)
    requires
        0 <= from,
        stage_product(stages, registers, from, product) is Ok,
    ensures
        forall|i: int|
            from <= i < stages.len() ==> radix_in_table(#[trigger] stages[i])
                && registers[stages[i] as int] > 0,
    decreases stages.len() - from,
{
    if from < stages.len() {
        let next = checked_mul(product, stages[from], "radix register stage product")->Ok_0;
        stage_product_in_table(stages, registers, from + 1, next);
    }
}

/// Every stage of a schedule that checks is a table radix and has registers.
pub proof fn checked_stages_are_in_table(model: RadixRegisterModel)
    requires
        model.checked() is Ok,
    ensures
        stages_in_table(model.stage_radices),
        forall|i: int|
            0 <= i < model.stage_radices.len()
                ==> model.registers_per_thread_per_radix[(#[trigger] model.stage_radices[i]) as int]
                > 0,
{
    reveal(RadixRegisterModel::checked);
    stage_product_in_table(
        model.stage_radices,
        model.registers_per_thread_per_radix,
        0,
        1,
    );
}

/// Every mixed-radix schedule that is handed out checks.
pub proof fn mixed_schedule_is_checked(fft_len: usize, rhs_transform_count: usize)
    ensures
        small_mixed_schedule(fft_len, rhs_transform_count) matches Ok(model) ==> model.checked()
            is Ok,
{
}

} // verus!
