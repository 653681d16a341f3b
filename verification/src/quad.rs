//! Register counts of double-double transforms, which have a table of their own over the
//! radices 2, 3, 5 and 7.

use vstd::prelude::*;

use crate::arith::{
    checked_mul, multiplicity, strip_factor, stripped, stripped_times_power, umax, umin,
};
use crate::error::{PlanResult, VkFftError};
use crate::registers::{
    build_prime_table, derive_vkfft_composite_registers, fewest_stage_log, good_sequence,
    min_max_table_registers, prime_table, small_power_of_two, table_extrema, table_extrema_from,
    viewed, with_composites, RadixTable, VKFFT_RADIX_TABLE_LEN,
};

verus! {

/// Register schedule of one double-double transform.
#[derive(Debug, Clone, PartialEq, Eq)]
pub struct DoubleDoubleQuadRegisterSchedule {
    pub fft_len: usize,
    pub rhs_transform_count: usize,
    pub registers_per_thread_per_radix: RadixTable,
    pub registers_per_thread: usize,
    pub min_registers_per_thread: usize,
    pub is_good_sequence: bool,
}

/// Mathematical content of a [`DoubleDoubleQuadRegisterSchedule`].
#[verifier::ext_equal]
pub struct QuadRegisterModel {
    pub fft_len: usize,
    pub rhs_transform_count: usize,
    pub registers_per_thread_per_radix: Seq<usize>,
    pub registers_per_thread: usize,
    pub min_registers_per_thread: usize,
    pub is_good_sequence: bool,
}

impl View for DoubleDoubleQuadRegisterSchedule {
    type V = QuadRegisterModel;

    open spec fn view(&self) -> QuadRegisterModel {
        QuadRegisterModel {
            fft_len: self.fft_len,
            rhs_transform_count: self.rhs_transform_count,
            registers_per_thread_per_radix: self.registers_per_thread_per_radix@,
            registers_per_thread: self.registers_per_thread,
            min_registers_per_thread: self.min_registers_per_thread,
            is_good_sequence: self.is_good_sequence,
        }
    }
}

/// How often 2, 3, 5 and 7 divide a length, and what they leave of it.
#[derive(Debug, Clone, Copy, PartialEq, Eq, Structural)]
pub struct QuadFactors {
    pub two: usize,
    pub three: usize,
    pub five: usize,
    pub seven: usize,
    pub rest: usize,
}

/// The factors of a length, each counted after the smaller ones are taken out.
pub open spec fn quad_factors(fft_len: usize) -> QuadFactors {
    let after2 = stripped(fft_len as int, 2);
    let after3 = stripped(after2, 3);
    let after5 = stripped(after3, 5);
    QuadFactors {
        two: multiplicity(fft_len as int, 2) as usize,
        three: multiplicity(after2, 3) as usize,
        five: multiplicity(after3, 5) as usize,
        seven: multiplicity(after5, 7) as usize,
        rest: stripped(after5, 7) as usize,
    }
}

pub fn factor_quad(fft_len: usize) -> (factors: QuadFactors)
    requires
        fft_len > 0,
    ensures
        factors == quad_factors(fft_len),
{
    let (after2, two) = strip_factor(fft_len, 2);
    let (after3, three) = strip_factor(after2, 3);
    let (after5, five) = strip_factor(after3, 5);
    let (rest, seven) = strip_factor(after5, 7);
    QuadFactors { two, three, five, seven, rest }
}

/// Registers of radices 2, 3, 5 and 7.
#[verifier::allow_in_spec]
pub fn quad_registers(f: QuadFactors) -> (usize, usize, usize, usize)
    returns
        (if f.two > 0 && f.three > 0 && f.five > 0 {
            (6usize, 6usize, 5usize, if f.seven > 0 { 7usize } else { 0 })
        } else if f.two > 0 && f.three > 0 && f.seven > 0 {
            (if f.two <= 2 { 6 } else { 8 }, 6, 0, 7)
        } else if f.two > 0 && f.three > 0 {
            (6, 6, 0, 0)
        } else if f.two > 0 && f.five > 0 && f.seven > 0 {
            (if f.two == 1 { 6 } else { 8 }, 0, 5, 7)
        } else if f.two > 0 && f.five > 0 {
            (4, 0, 5, 0)
        } else if f.two > 0 && f.seven > 0 {
            (8, 0, 0, 7)
        } else if f.two > 0 {
            (small_power_of_two(umin(f.two, fewest_stage_log(f.two))), 0, 0, 0)
        } else if f.three > 0 && f.seven > 0 {
            (0, 6, if f.five > 0 { 5 } else { 0 }, 7)
        } else if f.three > 0 && f.five > 0 {
            (0, 3, 5, 0)
        } else if f.three > 0 {
            (0, if f.three == 1 { 3 } else { 9 }, 0, 0)
        } else {
            (0, 0, if f.five > 0 { 5 } else { 0 }, if f.seven > 0 { 7 } else { 0 })
        }),
{
    if f.two > 0 && f.three > 0 && f.five > 0 {
        (6, 6, 5, if f.seven > 0 { 7 } else { 0 })
    } else if f.two > 0 && f.three > 0 && f.seven > 0 {
        (if f.two <= 2 { 6 } else { 8 }, 6, 0, 7)
    } else if f.two > 0 && f.three > 0 {
        (6, 6, 0, 0)
    } else if f.two > 0 && f.five > 0 && f.seven > 0 {
        (if f.two == 1 { 6 } else { 8 }, 0, 5, 7)
    } else if f.two > 0 && f.five > 0 {
        (4, 0, 5, 0)
    } else if f.two > 0 && f.seven > 0 {
        (8, 0, 0, 7)
    } else if f.two > 0 {
        (small_power_of_two(umin(f.two, fewest_stage_log(f.two))), 0, 0, 0)
    } else if f.three > 0 && f.seven > 0 {
        (0, 6, if f.five > 0 { 5 } else { 0 }, 7)
    } else if f.three > 0 && f.five > 0 {
        (0, 3, 5, 0)
    } else if f.three > 0 {
        (0, if f.three == 1 { 3 } else { 9 }, 0, 0)
    } else {
        (0, 0, if f.five > 0 { 5 } else { 0 }, if f.seven > 0 { 7 } else { 0 })
    }
}

/// Whether a length is a power of two and so takes the active-thread estimate.
#[verifier::allow_in_spec]
pub fn only_twos(f: QuadFactors) -> bool
    returns
        f.two > 0 && f.three == 0 && f.five == 0 && f.seven == 0,
{
    f.two > 0 && f.three == 0 && f.five == 0 && f.seven == 0
}

/// Thread estimate of a power of two: one workgroup column per 64 transforms.
#[verifier::allow_in_spec]
pub fn quad_active_threads(
    fft_len: usize,
    rhs_transform_count: usize,
    f: QuadFactors,
) -> PlanResult<usize>
    returns
        (if only_twos(f) {
            checked_mul(
                umax(rhs_transform_count / 64, 1),
                fft_len,
                "double-double Quad active thread estimate",
            )
        } else {
            Ok(fft_len)
        }),
{
    if only_twos(f) {
        checked_mul(
            umax(rhs_transform_count / 64, 1),
            fft_len,
            "double-double Quad active thread estimate",
        )
    } else {
        Ok(fft_len)
    }
}

/// The table with its composite radices.
pub open spec fn quad_table(r: (usize, usize, usize, usize)) -> Seq<usize> {
    with_composites(prime_table(r.0, r.1, r.2, r.3, 0, 0))
}

fn build_quad_table(r: (usize, usize, usize, usize)) -> (table: RadixTable)
    ensures
        table@ == quad_table(r),
{
    let mut table: RadixTable = build_prime_table(r.0, r.1, r.2, r.3, 0, 0);
    derive_vkfft_composite_registers(&mut table);
    table
}

/// The double-double register schedule of a length over the primes 2, 3, 5 and 7.
#[verifier::opaque]
pub open spec fn quad_schedule(
    fft_len: usize,
    rhs_transform_count: usize,
) -> PlanResult<QuadRegisterModel> {
    if fft_len < 2 || rhs_transform_count == 0 {
        Err(
            VkFftError::UnsupportedKernelPath(
                "double-double Quad register scheduling requires N>=2 and non-zero RHS",
            ),
        )
    } else {
        let factors = quad_factors(fft_len);
        if factors.rest != 1 {
            Err(
                VkFftError::UnsupportedKernelPath(
                    "fixed-upstream Quad register table supports only factors 2/3/5/7",
                ),
            )
        } else {
            match quad_active_threads(fft_len, rhs_transform_count, factors) {
                Err(error) => Err(error),
                Ok(_active) => {
                    let table = quad_table(quad_registers(factors));
                    let (most, least) = table_extrema(table);
                    if most == 0 || least == usize::MAX {
                        Err(
                            VkFftError::InvalidKernelIr(
                                "double-double Quad register table produced no executable radix",
                            ),
                        )
                    } else {
                        let is_good_sequence = good_sequence(most, least);
                        Ok(QuadRegisterModel {
                            fft_len,
                            rhs_transform_count,
                            registers_per_thread_per_radix: table,
                            registers_per_thread: most,
                            min_registers_per_thread: least,
                            is_good_sequence,
                        })
                    }
                },
            }
        }
    }
}

pub fn plan_gpu_double_double_quad_registers(
    fft_len: usize,
    rhs_transform_count: usize,
) -> (planned: PlanResult<DoubleDoubleQuadRegisterSchedule>)
    ensures
        viewed(planned) == quad_schedule(fft_len, rhs_transform_count),
{
    reveal(quad_schedule);
    if fft_len < 2 || rhs_transform_count == 0 {
        return Err(
            VkFftError::UnsupportedKernelPath(
                "double-double Quad register scheduling requires N>=2 and non-zero RHS",
            ),
        );
    }
    let factors: QuadFactors = factor_quad(fft_len);
    if factors.rest != 1 {
        return Err(
            VkFftError::UnsupportedKernelPath(
                "fixed-upstream Quad register table supports only factors 2/3/5/7",
            ),
        );
    }
    let _active: usize = quad_active_threads(fft_len, rhs_transform_count, factors)?;
    let table: RadixTable = build_quad_table(quad_registers(factors));
    let (most, least) = min_max_table_registers(&table);
    if most == 0 || least == usize::MAX {
        return Err(
            VkFftError::InvalidKernelIr(
                "double-double Quad register table produced no executable radix",
            ),
        );
    }
    let is_good_sequence: bool = is_good(most, least);
    Ok(DoubleDoubleQuadRegisterSchedule {
        fft_len,
        rhs_transform_count,
        registers_per_thread_per_radix: table,
        registers_per_thread: most,
        min_registers_per_thread: least,
        is_good_sequence,
    })
}

pub fn is_good(most: usize, least: usize) -> (good: bool)
    ensures
        good == good_sequence(most, least),
{
    !(most > 16 || most / 2 >= least)
}

proof fn extrema_only_widen(table: Seq<usize>, from: int, most: usize, least: usize)
    requires
        0 <= from,
    ensures
        table_extrema_from(table, from, most, least).0 >= most,
        table_extrema_from(table, from, most, least).1 <= least,
    decreases table.len() - from,
{
    if from < table.len() {
        if table[from] == 0 {
            extrema_only_widen(table, from + 1, most, least);
        } else {
            extrema_only_widen(
                table,
                from + 1,
                umax(most, table[from]),
                umin(least, table[from]),
            );
        }
    }
}

pub(crate) proof fn extrema_span_used_entries(
    table: Seq<usize>,
    from: int,
    most: usize,
    least: usize,
    index: int,
)
    requires
        0 <= from <= index < table.len(),
        table[index] != 0,
    ensures
        table_extrema_from(table, from, most, least).0 >= table[index],
        table_extrema_from(table, from, most, least).1 <= table[index],
    decreases table.len() - from,
{
    if from == index {
        extrema_only_widen(table, from + 1, umax(most, table[from]), umin(least, table[from]));
    } else if table[from] == 0 {
        extrema_span_used_entries(table, from + 1, most, least, index);
    } else {
        extrema_span_used_entries(
            table,
            from + 1,
            umax(most, table[from]),
            umin(least, table[from]),
            index,
        );
    }
}

/// Exactly the lengths over 2, 3, 5 and 7 have a double-double register schedule, and its
/// counts span every used register.
pub proof fn every_quad_length_has_a_schedule(fft_len: usize, rhs_transform_count: usize)
    requires
        fft_len >= 2,
        rhs_transform_count > 0,
        umax(rhs_transform_count / 64, 1) * fft_len <= usize::MAX,
    ensures
        quad_schedule(fft_len, rhs_transform_count) is Ok <==> quad_factors(fft_len).rest == 1,
        quad_schedule(fft_len, rhs_transform_count) matches Ok(schedule) ==> {
            &&& schedule.fft_len == fft_len
            &&& schedule.rhs_transform_count == rhs_transform_count
            &&& forall|radix: int|
                0 <= radix < schedule.registers_per_thread_per_radix.len() && (
                #[trigger] schedule.registers_per_thread_per_radix[radix]) != 0
                    ==> schedule.min_registers_per_thread
                    <= schedule.registers_per_thread_per_radix[radix]
                    <= schedule.registers_per_thread
        },
{
    reveal(quad_schedule);
    let f = quad_factors(fft_len);
    let r = quad_registers(f);
    let table = quad_table(r);
    if f.rest == 1 {
        let after2 = stripped(fft_len as int, 2);
        let after3 = stripped(after2, 3);
        let after5 = stripped(after3, 5);
        stripped_times_power(fft_len as int, 2);
        stripped_times_power(after2, 3);
        stripped_times_power(after3, 5);
        stripped_times_power(after5, 7);
        vstd::arithmetic::power::lemma_pow0(2);
        vstd::arithmetic::power::lemma_pow0(3);
        vstd::arithmetic::power::lemma_pow0(5);
        vstd::arithmetic::power::lemma_pow0(7);
        assert(f.two > 0 || f.three > 0 || f.five > 0 || f.seven > 0);
        let used: int = if f.two > 0 {
            2
        } else if f.three > 0 {
            3
        } else if f.five > 0 {
            5
        } else {
            7
        };
        assert(table.len() == VKFFT_RADIX_TABLE_LEN && table[2] == r.0 && table[3] == r.1
            && table[5] == r.2 && table[7] == r.3) by {
            reveal(prime_table);
            reveal(with_composites);
        }
        assert(0 < table[used] < usize::MAX);
        extrema_span_used_entries(table, 0, 0, usize::MAX, used);
        assert forall|radix: int| 0 <= radix < table.len() && (#[trigger] table[radix])
            != 0 implies table_extrema(table).1 <= table[radix] <= table_extrema(table).0 by {
            extrema_span_used_entries(table, 0, 0, usize::MAX, radix);
        }
    }
}

} // verus!
