//! Lane estimates of transforms whose primes are convolved directly.
//!
//! A direct prime `p` keeps `(p + 1) / 2` lanes busy for every container that is active at
//! the same time. Registers are scaled up, two at a time, until all lanes of a transform
//! fit a workgroup.

use vstd::prelude::*;

use crate::arith::{ceil_div, checked_mul, checked_pow, checked_pow_spec, half_up, umax, umin};
use crate::axis_block::{multiple_of, product_within, quotient};
use crate::config::DeviceProfile;
use crate::error::{PlanResult, VkFftError};
use crate::factors::factor_product;
use crate::quad::{
    plan_gpu_double_double_quad_registers, quad_schedule, DoubleDoubleQuadRegisterSchedule,
};
use crate::rader_tables::{build_zero_table, outer_state, rader_outer_register_state};
use crate::registers::{viewed, viewed_option, zero_table, RadixTable};

verus! {

/// The operations an estimate names where they overflow.
#[derive(Debug, Clone, Copy)]
pub struct EstimateOperations {
    pub scaling: &'static str,
    pub ordinary: &'static str,
    pub denominator: &'static str,
    pub coverage: &'static str,
    pub rounded: &'static str,
    pub coalesced: &'static str,
    pub estimate: &'static str,
    pub local: &'static str,
}

/// Operations of an estimate for several transforms at once.
#[verifier::allow_in_spec]
pub fn axis0_operations(
) -> EstimateOperations
    returns
        (
            EstimateOperations {
                scaling: "axis0 direct-Rader shared register scaling",
                ordinary: "axis0 direct-Rader coalesced ordinary pressure",
                denominator: "axis0 direct-Rader type-1 denominator",
                coverage: "axis0 direct-Rader type-1 active coverage",
                rounded: "axis0 direct-Rader type-1 rounded estimate",
                coalesced: "axis0 direct-Rader coalesced rounded estimate",
                estimate: "axis0 direct-Rader type-1 local estimate",
                local: "axis0 direct-Rader coalesced local pressure",
            }
        ),
{
    EstimateOperations {
        scaling: "axis0 direct-Rader shared register scaling",
        ordinary: "axis0 direct-Rader coalesced ordinary pressure",
        denominator: "axis0 direct-Rader type-1 denominator",
        coverage: "axis0 direct-Rader type-1 active coverage",
        rounded: "axis0 direct-Rader type-1 rounded estimate",
        coalesced: "axis0 direct-Rader coalesced rounded estimate",
        estimate: "axis0 direct-Rader type-1 local estimate",
        local: "axis0 direct-Rader coalesced local pressure",
    }
}

/// Operations of an estimate for one prime.
#[verifier::allow_in_spec]
pub fn composite_operations(
) -> EstimateOperations
    returns
        (
            EstimateOperations {
                scaling: "composite direct-Rader minimum register scaling",
                ordinary: "composite direct-Rader thread estimate",
                denominator: "composite direct-Rader container denominator",
                coverage: "composite direct-Rader active container coverage",
                rounded: "composite direct-Rader rounded thread estimate",
                coalesced: "composite direct-Rader rounded thread estimate",
                estimate: "composite direct-Rader thread estimate",
                local: "composite direct-Rader thread estimate",
            }
        ),
{
    EstimateOperations {
        scaling: "composite direct-Rader minimum register scaling",
        ordinary: "composite direct-Rader thread estimate",
        denominator: "composite direct-Rader container denominator",
        coverage: "composite direct-Rader active container coverage",
        rounded: "composite direct-Rader rounded thread estimate",
        coalesced: "composite direct-Rader rounded thread estimate",
        estimate: "composite direct-Rader thread estimate",
        local: "composite direct-Rader thread estimate",
    }
}

/// Operations of an estimate for distinct primes.
#[verifier::allow_in_spec]
pub fn multi_operations(
) -> EstimateOperations
    returns
        (
            EstimateOperations {
                scaling: "multi direct-Rader minimum register scaling",
                ordinary: "multi direct-Rader thread estimate",
                denominator: "multi direct-Rader container denominator",
                coverage: "multi direct-Rader active container coverage",
                rounded: "multi direct-Rader rounded thread estimate",
                coalesced: "multi direct-Rader rounded thread estimate",
                estimate: "multi direct-Rader thread estimate",
                local: "multi direct-Rader thread estimate",
            }
        ),
{
    EstimateOperations {
        scaling: "multi direct-Rader minimum register scaling",
        ordinary: "multi direct-Rader thread estimate",
        denominator: "multi direct-Rader container denominator",
        coverage: "multi direct-Rader active container coverage",
        rounded: "multi direct-Rader rounded thread estimate",
        coalesced: "multi direct-Rader rounded thread estimate",
        estimate: "multi direct-Rader thread estimate",
        local: "multi direct-Rader thread estimate",
    }
}

/// Operations of an estimate for distinct primes in double-double precision.
#[verifier::allow_in_spec]
pub fn double_double_operations(
) -> EstimateOperations
    returns
        (
            EstimateOperations {
                scaling: "double-double composite direct-Rader minimum register scaling",
                ordinary: "double-double composite direct-Rader thread estimate",
                denominator: "double-double composite direct-Rader container denominator",
                coverage: "double-double composite direct-Rader active coverage",
                rounded: "double-double composite direct-Rader rounded estimate",
                coalesced: "double-double composite direct-Rader rounded estimate",
                estimate: "double-double composite direct-Rader thread estimate",
                local: "double-double composite direct-Rader thread estimate",
            }
        ),
{
    EstimateOperations {
        scaling: "double-double composite direct-Rader minimum register scaling",
        ordinary: "double-double composite direct-Rader thread estimate",
        denominator: "double-double composite direct-Rader container denominator",
        coverage: "double-double composite direct-Rader active coverage",
        rounded: "double-double composite direct-Rader rounded estimate",
        coalesced: "double-double composite direct-Rader rounded estimate",
        estimate: "double-double composite direct-Rader thread estimate",
        local: "double-double composite direct-Rader thread estimate",
    }
}

/// Containers active at the same time: one fewer than rounding up gives where the last
/// round would be at most half full and the lanes of one fewer still fit.
pub open spec fn kept_active_containers(
    active: usize,
    rounds: usize,
    containers: usize,
    lanes: usize,
    max_batch_coalesced: usize,
    thread_limit: usize,
    operations: EstimateOperations,
) -> PlanResult<usize> {
    if active <= 1 {
        Ok(active)
    } else {
        match checked_mul(active, rounds, operations.coverage) {
            Err(error) => Err(error),
            Ok(covered) => match ceil_div(containers, active.saturating_sub(1)) {
                Err(error) => Err(error),
                Ok(fewer) => match checked_mul(fewer, lanes, operations.rounded) {
                    Err(error) => Err(error),
                    Ok(fewer_threads) => match checked_mul(
                        fewer_threads,
                        max_batch_coalesced,
                        operations.coalesced,
                    ) {
                        Err(error) => Err(error),
                        Ok(fewer_total) => if covered.saturating_sub(containers) >= half_up(rounds)
                            && fewer_total <= thread_limit {
                            Ok(active.saturating_sub(1))
                        } else {
                            Ok(active)
                        },
                    },
                },
            },
        }
    }
}

fn keep_active_containers(
    active: usize,
    rounds: usize,
    containers: usize,
    lanes: usize,
    max_batch_coalesced: usize,
    thread_limit: usize,
    operations: EstimateOperations,
) -> (planned: PlanResult<usize>)
    ensures
        planned == kept_active_containers(
            active,
            rounds,
            containers,
            lanes,
            max_batch_coalesced,
            thread_limit,
            operations,
        ),
{
    if active <= 1 {
        return Ok(active);
    }
    let covered: usize = checked_mul(active, rounds, operations.coverage)?;
    let fewer: usize = ceil_div(containers, active.saturating_sub(1))?;
    let fewer_threads: usize = checked_mul(fewer, lanes, operations.rounded)?;
    let fewer_total: usize = checked_mul(fewer_threads, max_batch_coalesced, operations.coalesced)?;
    if covered.saturating_sub(containers) >= half_up(rounds) && fewer_total <= thread_limit {
        return Ok(active.saturating_sub(1));
    }
    Ok(active)
}

/// Lanes one transform takes for its direct prime at this register count.
#[verifier::opaque]
pub open spec fn direct_lane_estimate(
    sequence_len: usize,
    prime: usize,
    rader_min_registers: usize,
    max_batch_coalesced: usize,
    thread_limit: usize,
    operations: EstimateOperations,
) -> PlanResult<Option<usize>> {
    if prime < 3
        || rader_min_registers == 0
        || max_batch_coalesced == 0
        || !multiple_of(sequence_len, prime) {
        Ok(None)
    } else {
        let lanes = half_up(prime);
        if !product_within(lanes, max_batch_coalesced, thread_limit) {
            Ok(None)
        } else {
            let containers = quotient(sequence_len, prime);
            match checked_mul(rader_min_registers, lanes, operations.denominator) {
                Err(error) => Err(error),
                Ok(denominator) => match ceil_div(sequence_len, denominator) {
                    Err(error) => Err(error),
                    Ok(rounds) => match ceil_div(containers, umax(rounds, 1)) {
                        Err(error) => Err(error),
                        Ok(needed) => match kept_active_containers(
                            umax(needed, 1),
                            umax(rounds, 1),
                            containers,
                            lanes,
                            max_batch_coalesced,
                            thread_limit,
                            operations,
                        ) {
                            Err(error) => Err(error),
                            Ok(active) => match ceil_div(containers, active) {
                                Err(error) => Err(error),
                                Ok(per_round) => match checked_mul(
                                    per_round,
                                    lanes,
                                    operations.estimate,
                                ) {
                                    Err(error) => Err(error),
                                    Ok(estimate) => Ok(Some(estimate)),
                                },
                            },
                        },
                    },
                },
            }
        }
    }
}

fn estimate_direct_lanes(
    sequence_len: usize,
    prime: usize,
    rader_min_registers: usize,
    max_batch_coalesced: usize,
    thread_limit: usize,
    operations: EstimateOperations,
) -> (planned: PlanResult<Option<usize>>)
    ensures
        planned == direct_lane_estimate(
            sequence_len,
            prime,
            rader_min_registers,
            max_batch_coalesced,
            thread_limit,
            operations,
        ),
{
    reveal(direct_lane_estimate);
    if prime < 3
        || rader_min_registers == 0
        || max_batch_coalesced == 0
        || !multiple_of(sequence_len, prime) {
        return Ok(None);
    }
    let lanes: usize = half_up(prime);
    if !product_within(lanes, max_batch_coalesced, thread_limit) {
        return Ok(None);
    }
    let containers: usize = quotient(sequence_len, prime);
    let denominator: usize = checked_mul(rader_min_registers, lanes, operations.denominator)?;
    let rounds: usize = ceil_div(sequence_len, denominator)?;
    let needed: usize = ceil_div(containers, umax(rounds, 1))?;
    let active: usize = keep_active_containers(
        umax(needed, 1),
        umax(rounds, 1),
        containers,
        lanes,
        max_batch_coalesced,
        thread_limit,
        operations,
    )?;
    let per_round: usize = ceil_div(containers, active)?;
    let estimate: usize = checked_mul(per_round, lanes, operations.estimate)?;
    Ok(Some(estimate))
}

/// The estimate where several transforms share a workgroup.
pub open spec fn axis0_direct_lane_estimate(
    sequence_len: usize,
    prime: usize,
    rader_min_registers: usize,
    max_batch_coalesced: usize,
    physical_thread_limit: usize,
) -> PlanResult<Option<usize>> {
    direct_lane_estimate(
        sequence_len,
        prime,
        rader_min_registers,
        max_batch_coalesced,
        physical_thread_limit,
        axis0_operations(),
    )
}

pub fn axis0_direct_rader_local_thread_estimate_with_max_batch_coalesced(
    sequence_len: usize,
    prime: usize,
    rader_min_registers: usize,
    max_batch_coalesced: usize,
    physical_thread_limit: usize,
) -> (planned: PlanResult<Option<usize>>)
    ensures
        planned == axis0_direct_lane_estimate(
            sequence_len,
            prime,
            rader_min_registers,
            max_batch_coalesced,
            physical_thread_limit,
        ),
{
    estimate_direct_lanes(
        sequence_len,
        prime,
        rader_min_registers,
        max_batch_coalesced,
        physical_thread_limit,
        axis0_operations(),
    )
}

/// The most lanes of the primes from index `from` on, for all transforms of a workgroup.
pub open spec fn direct_pressure_from(
    sequence_len: usize,
    primes: Seq<(usize, usize)>,
    rader_min_registers: usize,
    max_batch_coalesced: usize,
    thread_limit: usize,
    operations: EstimateOperations,
    most: usize,
    from: int,
) -> PlanResult<Option<usize>>
    decreases primes.len() - from,
{
    if from >= primes.len() {
        Ok(Some(most))
    } else if primes[from].1 == 0 {
        Ok(None)
    } else {
        match direct_lane_estimate(
            sequence_len,
            primes[from].0,
            rader_min_registers,
            max_batch_coalesced,
            thread_limit,
            operations,
        ) {
            Err(error) => Err(error),
            Ok(None) => Ok(None),
            Ok(Some(estimate)) => match checked_mul(
                estimate,
                max_batch_coalesced,
                operations.local,
            ) {
                Err(error) => Err(error),
                Ok(total) => direct_pressure_from(
                    sequence_len,
                    primes,
                    rader_min_registers,
                    max_batch_coalesced,
                    thread_limit,
                    operations,
                    umax(most, total),
                    from + 1,
                ),
            },
        }
    }
}

/// The same for all primes, over at least `ordinary` lanes.
pub open spec fn direct_pressure(
    sequence_len: usize,
    primes: Seq<(usize, usize)>,
    rader_min_registers: usize,
    max_batch_coalesced: usize,
    thread_limit: usize,
    operations: EstimateOperations,
    ordinary: usize,
) -> PlanResult<Option<usize>> {
    direct_pressure_from(
        sequence_len,
        primes,
        rader_min_registers,
        max_batch_coalesced,
        thread_limit,
        operations,
        ordinary,
        0,
    )
}

fn measure_direct_pressure(
    sequence_len: usize,
    primes: &[(usize, usize)],
    rader_min_registers: usize,
    max_batch_coalesced: usize,
    thread_limit: usize,
    operations: EstimateOperations,
    ordinary: usize,
) -> (pressure: PlanResult<Option<usize>>)
    ensures
        pressure == direct_pressure(
            sequence_len,
            primes@,
            rader_min_registers,
            max_batch_coalesced,
            thread_limit,
            operations,
            ordinary,
        ),
{
    let mut most: usize = ordinary;
    let mut index: usize = 0;
    while index < primes.len()
        invariant
            index <= primes.len(),
            direct_pressure_from(
                sequence_len,
                primes@,
                rader_min_registers,
                max_batch_coalesced,
                thread_limit,
                operations,
                most,
                index as int,
            ) == direct_pressure(
                sequence_len,
                primes@,
                rader_min_registers,
                max_batch_coalesced,
                thread_limit,
                operations,
                ordinary,
            ),
        decreases primes.len() - index,
    {
        let (prime, multiplicity) = primes[index];
        if multiplicity == 0 {
            return Ok(None);
        }
        let estimate: usize = match estimate_direct_lanes(
            sequence_len,
            prime,
            rader_min_registers,
            max_batch_coalesced,
            thread_limit,
            operations,
        )? {
            Some(estimate) => estimate,
            None => {
                return Ok(None);
            },
        };
        let total: usize = checked_mul(estimate, max_batch_coalesced, operations.local)?;
        most = umax(most, total);
        index = index + 1;
    }
    Ok(Some(most))
}

/// The even register count `2 * (base / 2 + scale)`.
pub open spec fn scaled_pair(
    base: usize,
    scale: usize,
    operation: &'static str,
) -> PlanResult<usize> {
    if scale > usize::MAX - base / 2 {
        Err(VkFftError::ArithmeticOverflow { operation })
    } else {
        let half = (base / 2 + scale) as usize;
        checked_mul(half, 2, operation)
    }
}

fn scale_pair(
    base: usize,
    scale: usize,
    operation: &'static str,
) -> (planned: PlanResult<usize>)
    ensures
        planned == scaled_pair(base, scale, operation),
{
    if scale > usize::MAX - base / 2 {
        return Err(VkFftError::ArithmeticOverflow { operation });
    }
    let half: usize = base / 2 + scale;
    checked_mul(half, 2, operation)
}

/// The registers and lanes at one scale; `None` where there is nothing to estimate.
#[verifier::opaque]
pub open spec fn scale_attempt(
    sequence_len: usize,
    primes: Seq<(usize, usize)>,
    doubling_base: usize,
    scale: usize,
    max_batch_coalesced: usize,
    thread_limit: usize,
    operations: EstimateOperations,
) -> PlanResult<Option<(usize, usize)>> {
    match scaled_pair(doubling_base, scale, operations.scaling) {
        Err(error) => Err(error),
        Ok(registers) => if registers == 0 {
            Ok(None)
        } else {
            match checked_mul(
                quotient(sequence_len, registers),
                max_batch_coalesced,
                operations.ordinary,
            ) {
                Err(error) => Err(error),
                Ok(ordinary) => match direct_pressure(
                    sequence_len,
                    primes,
                    registers,
                    max_batch_coalesced,
                    thread_limit,
                    operations,
                    ordinary,
                ) {
                    Err(error) => Err(error),
                    Ok(None) => Ok(None),
                    Ok(Some(pressure)) => Ok(Some((registers, pressure))),
                },
            }
        },
    }
}

fn attempt_scale(
    sequence_len: usize,
    primes: &[(usize, usize)],
    doubling_base: usize,
    scale: usize,
    max_batch_coalesced: usize,
    thread_limit: usize,
    operations: EstimateOperations,
) -> (planned: PlanResult<Option<(usize, usize)>>)
    ensures
        planned == scale_attempt(
            sequence_len,
            primes@,
            doubling_base,
            scale,
            max_batch_coalesced,
            thread_limit,
            operations,
        ),
{
    reveal(scale_attempt);
    let registers: usize = scale_pair(doubling_base, scale, operations.scaling)?;
    if registers == 0 {
        return Ok(None);
    }
    let ordinary: usize = checked_mul(
        quotient(sequence_len, registers),
        max_batch_coalesced,
        operations.ordinary,
    )?;
    let pressure: usize = match measure_direct_pressure(
        sequence_len,
        primes,
        registers,
        max_batch_coalesced,
        thread_limit,
        operations,
        ordinary,
    ) {
        Ok(Some(value)) => value,
        Ok(None) => {
            return Ok(None);
        },
        Err(error) => {
            return Err(error);
        },
    };
    Ok(Some((registers, pressure)))
}

/// Whether the lanes fit, with more than four registers wherever more than 256 lanes are
/// called for.
#[verifier::allow_in_spec]
pub fn scale_suffices(
    sequence_len: usize,
    pressure_base: usize,
    registers: usize,
    pressure: usize,
    thread_limit: usize,
) -> bool
    returns
        pressure <= thread_limit
            && !((quotient(sequence_len, pressure_base) > 256 || pressure > 256) && registers <= 4),
{
    pressure <= thread_limit
        && !((quotient(sequence_len, pressure_base) > 256 || pressure > 256) && registers <= 4)
}

/// The first scale from `scale` on that suffices: its registers and lanes.
pub open spec fn scaled_floor_from(
    sequence_len: usize,
    primes: Seq<(usize, usize)>,
    doubling_base: usize,
    pressure_base: usize,
    max_batch_coalesced: usize,
    thread_limit: usize,
    operations: EstimateOperations,
    scale: int,
) -> PlanResult<Option<(usize, usize)>>
    decreases sequence_len - scale,
{
    match scale_attempt(
        sequence_len,
        primes,
        doubling_base,
        scale as usize,
        max_batch_coalesced,
        thread_limit,
        operations,
    ) {
        Err(error) => Err(error),
        Ok(None) => Ok(None),
        Ok(Some((registers, pressure))) => if scale_suffices(
            sequence_len,
            pressure_base,
            registers,
            pressure,
            thread_limit,
        ) {
            Ok(Some((registers, umax(pressure, 1))))
        } else if scale + 1 > sequence_len {
            Ok(None)
        } else {
            scaled_floor_from(
                sequence_len,
                primes,
                doubling_base,
                pressure_base,
                max_batch_coalesced,
                thread_limit,
                operations,
                scale + 1,
            )
        },
    }
}

/// The registers and lanes at the least scale that suffices.
#[verifier::opaque]
pub open spec fn scaled_floor(
    sequence_len: usize,
    primes: Seq<(usize, usize)>,
    doubling_base: usize,
    pressure_base: usize,
    max_batch_coalesced: usize,
    thread_limit: usize,
    operations: EstimateOperations,
) -> PlanResult<Option<(usize, usize)>> {
    if primes.len() == 0 || doubling_base == 0 || max_batch_coalesced == 0 || thread_limit == 0 {
        Ok(None)
    } else {
        scaled_floor_from(
            sequence_len,
            primes,
            doubling_base,
            pressure_base,
            max_batch_coalesced,
            thread_limit,
            operations,
            0,
        )
    }
}

fn scale_direct_registers(
    sequence_len: usize,
    primes: &[(usize, usize)],
    doubling_base: usize,
    pressure_base: usize,
    max_batch_coalesced: usize,
    thread_limit: usize,
    operations: EstimateOperations,
) -> (floor: PlanResult<Option<(usize, usize)>>)
    ensures
        floor == scaled_floor(
            sequence_len,
            primes@,
            doubling_base,
            pressure_base,
            max_batch_coalesced,
            thread_limit,
            operations,
        ),
{
    reveal(scaled_floor);
    if primes.len() == 0 || doubling_base == 0 || max_batch_coalesced == 0 || thread_limit == 0 {
        return Ok(None);
    }
    let mut scale: usize = 0;
    loop
        invariant
            scale <= sequence_len,
            primes.len() > 0,
            doubling_base > 0,
            max_batch_coalesced > 0,
            thread_limit > 0,
            scaled_floor_from(
                sequence_len,
                primes@,
                doubling_base,
                pressure_base,
                max_batch_coalesced,
                thread_limit,
                operations,
                scale as int,
            ) == scaled_floor(
                sequence_len,
                primes@,
                doubling_base,
                pressure_base,
                max_batch_coalesced,
                thread_limit,
                operations,
            ),
        decreases sequence_len - scale,
    {
        let (registers, pressure) = match attempt_scale(
            sequence_len,
            primes,
            doubling_base,
            scale,
            max_batch_coalesced,
            thread_limit,
            operations,
        )? {
            Some(found) => found,
            None => {
                return Ok(None);
            },
        };
        if scale_suffices(sequence_len, pressure_base, registers, pressure, thread_limit) {
            return Ok(Some((registers, umax(pressure, 1))));
        }
        if scale >= sequence_len {
            return Ok(None);
        }
        scale = scale + 1;
    }
}

/// The register floor of the direct primes of an axis, and the lanes of all transforms of
/// a workgroup at that floor.
pub open spec fn axis0_scaled_floor(
    sequence_len: usize,
    direct_prime_multiplicities: Seq<(usize, usize)>,
    base_min_registers: usize,
    max_batch_coalesced: usize,
    physical_thread_limit: usize,
) -> PlanResult<Option<(usize, usize)>> {
    scaled_floor(
        sequence_len,
        direct_prime_multiplicities,
        base_min_registers,
        base_min_registers,
        max_batch_coalesced,
        physical_thread_limit,
        axis0_operations(),
    )
}

pub fn scale_axis0_direct_rader_type1_register_floor_with_max_batch_coalesced(
    sequence_len: usize,
    direct_prime_multiplicities: &[(usize, usize)],
    base_min_registers: usize,
    max_batch_coalesced: usize,
    physical_thread_limit: usize,
) -> (planned: PlanResult<Option<(usize, usize)>>)
    ensures
        planned == axis0_scaled_floor(
            sequence_len,
            direct_prime_multiplicities@,
            base_min_registers,
            max_batch_coalesced,
            physical_thread_limit,
        ),
{
    scale_direct_registers(
        sequence_len,
        direct_prime_multiplicities,
        base_min_registers,
        base_min_registers,
        max_batch_coalesced,
        physical_thread_limit,
        axis0_operations(),
    )
}

/// Whether one of the first `end` pairs is of this prime.
pub open spec fn lists_prime(primes: Seq<(usize, usize)>, prime: usize, end: int) -> bool {
    exists|i: int| 0 <= i < end && (#[trigger] primes[i]).0 == prime
}

pub fn lists_prime_before(primes: &[(usize, usize)], prime: usize, end: usize) -> (listed: bool)
    requires
        end <= primes.len(),
    ensures
        listed == lists_prime(primes@, prime, end as int),
{
    let mut index: usize = 0;
    while index < end
        invariant
            index <= end <= primes.len(),
            forall|i: int| 0 <= i < index ==> (#[trigger] primes@[i]).0 != prime,
        decreases end - index,
    {
        if primes[index].0 == prime {
            assert(primes@[index as int].0 == prime);
            return true;
        }
        index = index + 1;
    }
    false
}

/// A prime to its multiplicity.
pub open spec fn prime_power(
    prime: usize,
    multiplicity: usize,
    operation: &'static str,
) -> PlanResult<usize> {
    if multiplicity > 64 {
        Err(VkFftError::ArithmeticOverflow { operation })
    } else {
        checked_pow_spec(prime, multiplicity, operation)
    }
}

pub fn raise_prime(
    prime: usize,
    multiplicity: usize,
    operation: &'static str,
) -> (planned: PlanResult<usize>)
    ensures
        planned == prime_power(prime, multiplicity, operation),
{
    if multiplicity > 64 {
        return Err(VkFftError::ArithmeticOverflow { operation });
    }
    checked_pow(prime, multiplicity, operation)
}

/// Whether a prime may stand at its place: it is odd, divides the transform, occurs, has
/// not been listed before, and its lanes keep to the limit.
pub open spec fn direct_prime_admissible(
    sequence_len: usize,
    primes: Seq<(usize, usize)>,
    index: int,
    lane_limit: usize,
) -> bool {
    &&& primes[index].0 >= 3
    &&& primes[index].1 != 0
    &&& multiple_of(sequence_len, primes[index].0)
    &&& half_up(primes[index].0) <= lane_limit
    &&& !lists_prime(primes, primes[index].0, index)
}

/// `product` times the prime powers from index `from` on; `None` where one may not stand
/// at its place.
pub open spec fn prime_product_from(
    sequence_len: usize,
    primes: Seq<(usize, usize)>,
    lane_limit: usize,
    operation: &'static str,
    product: usize,
    from: int,
) -> PlanResult<Option<usize>>
    decreases primes.len() - from,
{
    if from >= primes.len() {
        Ok(Some(product))
    } else if !direct_prime_admissible(sequence_len, primes, from, lane_limit) {
        Ok(None)
    } else {
        match prime_power(primes[from].0, primes[from].1, operation) {
            Err(error) => Err(error),
            Ok(power) => match checked_mul(product, power, operation) {
                Err(error) => Err(error),
                Ok(next) => prime_product_from(
                    sequence_len,
                    primes,
                    lane_limit,
                    operation,
                    next,
                    from + 1,
                ),
            },
        }
    }
}

/// The product of all prime powers.
pub open spec fn prime_product(
    sequence_len: usize,
    primes: Seq<(usize, usize)>,
    lane_limit: usize,
    operation: &'static str,
) -> PlanResult<Option<usize>> {
    prime_product_from(sequence_len, primes, lane_limit, operation, 1, 0)
}

pub fn multiply_primes(
    sequence_len: usize,
    primes: &[(usize, usize)],
    lane_limit: usize,
    operation: &'static str,
) -> (product: PlanResult<Option<usize>>)
    ensures
        product == prime_product(sequence_len, primes@, lane_limit, operation),
{
    let mut product: usize = 1;
    let mut index: usize = 0;
    while index < primes.len()
        invariant
            index <= primes.len(),
            prime_product_from(
                sequence_len,
                primes@,
                lane_limit,
                operation,
                product,
                index as int,
            ) == prime_product(sequence_len, primes@, lane_limit, operation),
        decreases primes.len() - index,
    {
        let (prime, multiplicity) = primes[index];
        if prime < 3 || multiplicity == 0 || !multiple_of(sequence_len, prime) || half_up(prime)
            > lane_limit || lists_prime_before(primes, prime, index) {
            return Ok(None);
        }
        let power: usize = raise_prime(prime, multiplicity, operation)?;
        product = checked_mul(product, power, operation)?;
        index = index + 1;
    }
    Ok(Some(product))
}

/// Every prime once.
pub open spec fn each_once(primes: Seq<usize>) -> Seq<(usize, usize)> {
    Seq::new(primes.len(), |i: int| (primes[i], 1usize))
}

fn pair_each_once(primes: &[usize]) -> (pairs: Vec<(usize, usize)>)
    ensures
        pairs@ == each_once(primes@),
{
    let mut pairs: Vec<(usize, usize)> = Vec::new();
    let mut index: usize = 0;
    while index < primes.len()
        invariant
            index <= primes.len(),
            pairs@ =~= each_once(primes@).take(index as int),
        decreases primes.len() - index,
    {
        pairs.push((primes[index], 1));
        index = index + 1;
    }
    pairs
}

/// One prime, once.
pub open spec fn once(prime: usize) -> Seq<(usize, usize)> {
    seq![(prime, 1usize)]
}

pub fn single_pair(prime: usize) -> (pairs: Vec<(usize, usize)>)
    ensures
        pairs@ == once(prime),
{
    let mut pairs: Vec<(usize, usize)> = Vec::new();
    pairs.push((prime, 1));
    pairs
}

/// The pairs themselves.
pub open spec fn same_pairs(pairs: Seq<(usize, usize)>) -> Seq<(usize, usize)> {
    pairs
}

pub fn copy_pairs(pairs: &[(usize, usize)]) -> (copy: Vec<(usize, usize)>)
    ensures
        copy@ == same_pairs(pairs@),
{
    let mut copy: Vec<(usize, usize)> = Vec::new();
    let mut index: usize = 0;
    while index < pairs.len()
        invariant
            index <= pairs.len(),
            copy@ =~= pairs@.take(index as int),
        decreases pairs.len() - index,
    {
        copy.push(pairs[index]);
        index = index + 1;
    }
    copy
}

/// Lanes along one dimension of a workgroup.
#[verifier::allow_in_spec]
pub fn dimension_limit(
    device: DeviceProfile,
    extent: usize,
) -> usize
    returns
        umin(device.max_threads_per_block, extent),
{
    umin(device.max_threads_per_block, extent)
}

/// The double-double register table of the smooth factor around Rader containers, with
/// its largest and smallest entry.
pub open spec fn quad_outer_state(
    sequence_len: usize,
    smooth_outer_factor: usize,
    batch_count: usize,
    operation: &'static str,
) -> PlanResult<(Seq<usize>, usize, usize)> {
    if smooth_outer_factor == 1 {
        Ok((zero_table(), 2, 2))
    } else {
        match checked_mul(sequence_len, batch_count, operation) {
            Err(error) => Err(error),
            Ok(total) => match quad_schedule(
                smooth_outer_factor,
                quotient(total, smooth_outer_factor),
            ) {
                Err(error) => Err(error),
                Ok(quad) => Ok(
                    (
                        quad.registers_per_thread_per_radix,
                        quad.registers_per_thread,
                        quad.min_registers_per_thread,
                    ),
                ),
            },
        }
    }
}

pub fn plan_quad_outer_state(
    sequence_len: usize,
    smooth_outer_factor: usize,
    batch_count: usize,
    operation: &'static str,
) -> (planned: PlanResult<(RadixTable, usize, usize)>)
    ensures
        viewed(planned) == quad_outer_state(
            sequence_len,
            smooth_outer_factor,
            batch_count,
            operation,
        ),
{
    if smooth_outer_factor == 1 {
        return Ok((build_zero_table(), 2, 2));
    }
    let total: usize = checked_mul(sequence_len, batch_count, operation)?;
    let quad: DoubleDoubleQuadRegisterSchedule = plan_gpu_double_double_quad_registers(
        smooth_outer_factor,
        quotient(total, smooth_outer_factor),
    )?;
    Ok(
        (
            quad.registers_per_thread_per_radix,
            quad.registers_per_thread,
            quad.min_registers_per_thread,
        ),
    )
}

/// Lanes of one transform that holds one direct prime once.
#[verifier::opaque]
pub open spec fn composite_direct_threads(
    sequence_len: usize,
    direct_prime: usize,
    batch_count: usize,
    device: DeviceProfile,
) -> PlanResult<Option<usize>> {
    if sequence_len < 2
        || direct_prime < 3
        || batch_count == 0
        || !multiple_of(sequence_len, direct_prime)
        || device.max_threads_per_block == 0
        || device.max_workgroup_size[0 as int] == 0 {
        Ok(None)
    } else {
        let containers = quotient(sequence_len, direct_prime);
        if containers <= 1 {
            Ok(None)
        } else {
            match outer_state(sequence_len, containers, batch_count) {
                Err(VkFftError::UnsupportedKernelPath(_)) => Ok(None),
                Err(error) => Err(error),
                Ok((_outer, _most, least)) => {
                    let limit = dimension_limit(device, device.max_workgroup_size[0 as int]);
                    if half_up(direct_prime) > limit {
                        Ok(None)
                    } else {
                        let primes = once(direct_prime);
                        match scaled_floor(
                            sequence_len,
                            primes,
                            least,
                            least,
                            1,
                            limit,
                            composite_operations(),
                        ) {
                            Err(error) => Err(error),
                            Ok(None) => Ok(None),
                            Ok(Some((_registers, threads))) => Ok(Some(threads)),
                        }
                    }
                },
            }
        }
    }
}

pub fn plan_gpu_axis0_composite_direct_rader_threads(
    sequence_len: usize,
    direct_prime: usize,
    batch_count: usize,
    device: DeviceProfile,
) -> (planned: PlanResult<Option<usize>>)
    ensures
        planned == composite_direct_threads(sequence_len, direct_prime, batch_count, device),
{
    reveal(composite_direct_threads);
    if sequence_len < 2
        || direct_prime < 3
        || batch_count == 0
        || !multiple_of(sequence_len, direct_prime)
        || device.max_threads_per_block == 0
        || device.max_workgroup_size[0] == 0 {
        return Ok(None);
    }
    let containers: usize = quotient(sequence_len, direct_prime);
    if containers <= 1 {
        return Ok(None);
    }
    let (_outer, _most, least) = match rader_outer_register_state(
        sequence_len,
        containers,
        batch_count,
    ) {
        Ok(value) => value,
        Err(VkFftError::UnsupportedKernelPath(_)) => {
            return Ok(None);
        },
        Err(error) => {
            return Err(error);
        },
    };
    let limit: usize = dimension_limit(device, device.max_workgroup_size[0]);
    if half_up(direct_prime) > limit {
        return Ok(None);
    }
    let primes: Vec<(usize, usize)> = single_pair(direct_prime);
    let (_registers, threads) = match scale_direct_registers(
        sequence_len,
        primes.as_slice(),
        least,
        least,
        1,
        limit,
        composite_operations(),
    ) {
        Ok(Some(value)) => value,
        Ok(None) => {
            return Ok(None);
        },
        Err(error) => {
            return Err(error);
        },
    };
    Ok(Some(threads))
}

/// Lanes of one transform from the register floor that its direct primes share.
#[verifier::opaque]
pub open spec fn direct_floor_threads(
    sequence_len: usize,
    direct_prime_multiplicities: Seq<(usize, usize)>,
    base_min_registers: usize,
    max_batch_coalesced: usize,
    physical_thread_limit: usize,
) -> PlanResult<Option<usize>> {
    match axis0_scaled_floor(
        sequence_len,
        direct_prime_multiplicities,
        umin(base_min_registers, 2),
        max_batch_coalesced,
        physical_thread_limit,
    ) {
        Err(error) => Err(error),
        Ok(None) => Ok(None),
        Ok(Some((registers, _total))) => match widest_prime(
            sequence_len,
            direct_prime_multiplicities,
            registers,
            max_batch_coalesced,
            physical_thread_limit,
            quotient(sequence_len, registers),
        ) {
            Err(error) => Err(error),
            Ok(None) => Ok(None),
            Ok(Some(threads)) => Ok(Some(umax(threads, 1))),
        },
    }
}

fn plan_direct_floor_threads(
    sequence_len: usize,
    direct_prime_multiplicities: &[(usize, usize)],
    base_min_registers: usize,
    max_batch_coalesced: usize,
    physical_thread_limit: usize,
) -> (planned: PlanResult<Option<usize>>)
    ensures
        planned == direct_floor_threads(
            sequence_len,
            direct_prime_multiplicities@,
            base_min_registers,
            max_batch_coalesced,
            physical_thread_limit,
        ),
{
    reveal(direct_floor_threads);
    let (
        registers,
        _total,
    ) = match scale_axis0_direct_rader_type1_register_floor_with_max_batch_coalesced(
        sequence_len,
        direct_prime_multiplicities,
        umin(base_min_registers, 2),
        max_batch_coalesced,
        physical_thread_limit,
    ) {
        Ok(Some(value)) => value,
        Ok(None) => {
            return Ok(None);
        },
        Err(error) => {
            return Err(error);
        },
    };
    let threads: usize = match widest_direct_prime(
        sequence_len,
        direct_prime_multiplicities,
        registers,
        max_batch_coalesced,
        physical_thread_limit,
        quotient(sequence_len, registers),
    ) {
        Ok(Some(value)) => value,
        Ok(None) => {
            return Ok(None);
        },
        Err(error) => {
            return Err(error);
        },
    };
    Ok(Some(umax(threads, 1)))
}

/// The most lanes any prime from index `from` on takes in one transform.
pub open spec fn widest_prime_from(
    sequence_len: usize,
    primes: Seq<(usize, usize)>,
    registers: usize,
    max_batch_coalesced: usize,
    thread_limit: usize,
    most: usize,
    from: int,
) -> PlanResult<Option<usize>>
    decreases primes.len() - from,
{
    if from >= primes.len() {
        Ok(Some(most))
    } else {
        match axis0_direct_lane_estimate(
            sequence_len,
            primes[from].0,
            registers,
            max_batch_coalesced,
            thread_limit,
        ) {
            Err(error) => Err(error),
            Ok(None) => Ok(None),
            Ok(Some(estimate)) => widest_prime_from(
                sequence_len,
                primes,
                registers,
                max_batch_coalesced,
                thread_limit,
                umax(most, estimate),
                from + 1,
            ),
        }
    }
}

/// The same for all primes, over at least `ordinary` lanes.
pub open spec fn widest_prime(
    sequence_len: usize,
    primes: Seq<(usize, usize)>,
    registers: usize,
    max_batch_coalesced: usize,
    thread_limit: usize,
    ordinary: usize,
) -> PlanResult<Option<usize>> {
    widest_prime_from(
        sequence_len,
        primes,
        registers,
        max_batch_coalesced,
        thread_limit,
        ordinary,
        0,
    )
}

fn widest_direct_prime(
    sequence_len: usize,
    primes: &[(usize, usize)],
    registers: usize,
    max_batch_coalesced: usize,
    thread_limit: usize,
    ordinary: usize,
) -> (widest: PlanResult<Option<usize>>)
    ensures
        widest == widest_prime(
            sequence_len,
            primes@,
            registers,
            max_batch_coalesced,
            thread_limit,
            ordinary,
        ),
{
    let mut most: usize = ordinary;
    let mut index: usize = 0;
    while index < primes.len()
        invariant
            index <= primes.len(),
            widest_prime_from(
                sequence_len,
                primes@,
                registers,
                max_batch_coalesced,
                thread_limit,
                most,
                index as int,
            ) == widest_prime(
                sequence_len,
                primes@,
                registers,
                max_batch_coalesced,
                thread_limit,
                ordinary,
            ),
        decreases primes.len() - index,
    {
        let estimate: usize =
            match axis0_direct_rader_local_thread_estimate_with_max_batch_coalesced(
            sequence_len,
            primes[index].0,
            registers,
            max_batch_coalesced,
            thread_limit,
        )? {
            Some(estimate) => estimate,
            None => {
                return Ok(None);
            },
        };
        most = umax(most, estimate);
        index = index + 1;
    }
    Ok(Some(most))
}

/// Whether there is anything to estimate on this device.
#[verifier::allow_in_spec]
pub fn direct_request_empty(
    sequence_len: usize,
    batch_count: usize,
    max_batch_coalesced: usize,
    device: DeviceProfile,
    extent: usize,
) -> bool
    returns
        sequence_len < 2
            || batch_count == 0
            || max_batch_coalesced == 0
            || device.max_threads_per_block == 0
            || extent == 0,
{
    sequence_len < 2
        || batch_count == 0
        || max_batch_coalesced == 0
        || device.max_threads_per_block == 0
        || extent == 0
}

/// Lanes of one transform that holds direct primes with multiplicities, several
/// transforms sharing a workgroup. A prime counts once however often it occurs.
#[verifier::opaque]
pub open spec fn direct_threads_coalesced(
    sequence_len: usize,
    direct_prime_multiplicities: Seq<(usize, usize)>,
    batch_count: usize,
    max_batch_coalesced: usize,
    device: DeviceProfile,
) -> PlanResult<Option<usize>> {
    if direct_prime_multiplicities.len() == 0
        || direct_request_empty(
            sequence_len,
            batch_count,
            max_batch_coalesced,
            device,
            device.max_workgroup_size[0 as int],
        ) {
        Ok(None)
    } else {
        let limit = dimension_limit(device, device.max_workgroup_size[0 as int]);
        match prime_product(
            sequence_len,
            direct_prime_multiplicities,
            usize::MAX,
            "composite direct-Rader prime-power product",
        ) {
            Err(error) => Err(error),
            Ok(None) => Ok(None),
            Ok(Some(product)) => if !multiple_of(sequence_len, product) {
                Ok(None)
            } else {
                match outer_state(sequence_len, quotient(sequence_len, product), batch_count) {
                    Err(VkFftError::UnsupportedKernelPath(_)) => Ok(None),
                    Err(error) => Err(error),
                    Ok((_outer, _most, least)) => direct_floor_threads(
                        sequence_len,
                        direct_prime_multiplicities,
                        least,
                        max_batch_coalesced,
                        limit,
                    ),
                }
            },
        }
    }
}

pub fn plan_gpu_axis0_composite_direct_rader_threads_for_prime_multiplicities_with_max_batch_coalesced(
    sequence_len: usize,
    direct_prime_multiplicities: &[(usize, usize)],
    batch_count: usize,
    max_batch_coalesced: usize,
    device: DeviceProfile,
) -> (planned: PlanResult<Option<usize>>)
    ensures
        planned == direct_threads_coalesced(
            sequence_len,
            direct_prime_multiplicities@,
            batch_count,
            max_batch_coalesced,
            device,
        ),
{
    reveal(direct_threads_coalesced);
    if direct_prime_multiplicities.len() == 0
        || direct_request_empty(
            sequence_len,
            batch_count,
            max_batch_coalesced,
            device,
            device.max_workgroup_size[0],
        ) {
        return Ok(None);
    }
    let limit: usize = dimension_limit(device, device.max_workgroup_size[0]);
    let product: usize = match multiply_primes(
        sequence_len,
        direct_prime_multiplicities,
        usize::MAX,
        "composite direct-Rader prime-power product",
    ) {
        Ok(Some(value)) => value,
        Ok(None) => {
            return Ok(None);
        },
        Err(error) => {
            return Err(error);
        },
    };
    if !multiple_of(sequence_len, product) {
        return Ok(None);
    }
    let (_outer, _most, least) = match rader_outer_register_state(
        sequence_len,
        quotient(sequence_len, product),
        batch_count,
    ) {
        Ok(value) => value,
        Err(VkFftError::UnsupportedKernelPath(_)) => {
            return Ok(None);
        },
        Err(error) => {
            return Err(error);
        },
    };
    plan_direct_floor_threads(
        sequence_len,
        direct_prime_multiplicities,
        least,
        max_batch_coalesced,
        limit,
    )
}

/// The same for one transform per workgroup.
pub open spec fn direct_threads(
    sequence_len: usize,
    direct_prime_multiplicities: Seq<(usize, usize)>,
    batch_count: usize,
    device: DeviceProfile,
) -> PlanResult<Option<usize>> {
    direct_threads_coalesced(sequence_len, direct_prime_multiplicities, batch_count, 1, device)
}

pub fn plan_gpu_axis0_composite_direct_rader_threads_for_prime_multiplicities(
    sequence_len: usize,
    direct_prime_multiplicities: &[(usize, usize)],
    batch_count: usize,
    device: DeviceProfile,
) -> (planned: PlanResult<Option<usize>>)
    ensures
        planned == direct_threads(sequence_len, direct_prime_multiplicities@, batch_count, device),
{
    plan_gpu_axis0_composite_direct_rader_threads_for_prime_multiplicities_with_max_batch_coalesced(
        sequence_len,
        direct_prime_multiplicities,
        batch_count,
        1,
        device,
    )
}

/// Lanes of one transform that holds several direct primes, each once.
#[verifier::opaque]
pub open spec fn direct_threads_for_primes(
    sequence_len: usize,
    direct_primes: Seq<usize>,
    batch_count: usize,
    device: DeviceProfile,
) -> PlanResult<Option<usize>> {
    if direct_primes.len() == 0
        || direct_request_empty(
            sequence_len,
            batch_count,
            1,
            device,
            device.max_workgroup_size[0 as int],
        ) {
        Ok(None)
    } else {
        let limit = dimension_limit(device, device.max_workgroup_size[0 as int]);
        let primes = each_once(direct_primes);
        match prime_product(sequence_len, primes, limit, "composite direct-Rader prime product") {
            Err(error) => Err(error),
            Ok(None) => Ok(None),
            Ok(Some(product)) => if !multiple_of(sequence_len, product) {
                Ok(None)
            } else {
                match outer_state(sequence_len, quotient(sequence_len, product), batch_count) {
                    Err(VkFftError::UnsupportedKernelPath(_)) => Ok(None),
                    Err(error) => Err(error),
                    Ok((_outer, _most, least)) => match scaled_floor(
                        sequence_len,
                        primes,
                        least,
                        least,
                        1,
                        limit,
                        multi_operations(),
                    ) {
                        Err(error) => Err(error),
                        Ok(None) => Ok(None),
                        Ok(Some((_registers, threads))) => Ok(Some(threads)),
                    },
                }
            },
        }
    }
}

pub fn plan_gpu_axis0_composite_direct_rader_threads_for_primes(
    sequence_len: usize,
    direct_primes: &[usize],
    batch_count: usize,
    device: DeviceProfile,
) -> (planned: PlanResult<Option<usize>>)
    ensures
        planned == direct_threads_for_primes(sequence_len, direct_primes@, batch_count, device),
{
    reveal(direct_threads_for_primes);
    if direct_primes.len() == 0
        || direct_request_empty(
            sequence_len,
            batch_count,
            1,
            device,
            device.max_workgroup_size[0],
        ) {
        return Ok(None);
    }
    let limit: usize = dimension_limit(device, device.max_workgroup_size[0]);
    let primes: Vec<(usize, usize)> = pair_each_once(direct_primes);
    let product: usize = match multiply_primes(
        sequence_len,
        primes.as_slice(),
        limit,
        "composite direct-Rader prime product",
    ) {
        Ok(Some(value)) => value,
        Ok(None) => {
            return Ok(None);
        },
        Err(error) => {
            return Err(error);
        },
    };
    if !multiple_of(sequence_len, product) {
        return Ok(None);
    }
    let (_outer, _most, least) = match rader_outer_register_state(
        sequence_len,
        quotient(sequence_len, product),
        batch_count,
    ) {
        Ok(value) => value,
        Err(VkFftError::UnsupportedKernelPath(_)) => {
            return Ok(None);
        },
        Err(error) => {
            return Err(error);
        },
    };
    let (_registers, threads) = match scale_direct_registers(
        sequence_len,
        primes.as_slice(),
        least,
        least,
        1,
        limit,
        multi_operations(),
    ) {
        Ok(Some(value)) => value,
        Ok(None) => {
            return Ok(None);
        },
        Err(error) => {
            return Err(error);
        },
    };
    Ok(Some(threads))
}

/// What splitting an axis with direct primes needs to know of its plan.
#[derive(Debug, Clone, PartialEq, Eq)]
pub struct Axis0RaderSplitState {
    pub base_axis_threads: usize,
    pub rader_min_registers: usize,
    pub min_rader_fft_thread_num: usize,
    pub direct_prime_multiplicities: Vec<(usize, usize)>,
}

/// Mathematical content of an [`Axis0RaderSplitState`].
#[verifier::ext_equal]
pub struct RaderSplitModel {
    pub base_axis_threads: usize,
    pub rader_min_registers: usize,
    pub min_rader_fft_thread_num: usize,
    pub direct_prime_multiplicities: Seq<(usize, usize)>,
}

impl View for Axis0RaderSplitState {
    type V = RaderSplitModel;

    open spec fn view(&self) -> RaderSplitModel {
        RaderSplitModel {
            base_axis_threads: self.base_axis_threads,
            rader_min_registers: self.rader_min_registers,
            min_rader_fft_thread_num: self.min_rader_fft_thread_num,
            direct_prime_multiplicities: self.direct_prime_multiplicities@,
        }
    }
}

/// The smooth factor's smallest double-double register count.
#[verifier::opaque]
pub open spec fn double_double_direct_base(
    sequence_len: usize,
    direct_prime_multiplicities: Seq<(usize, usize)>,
    batch_count: usize,
    lane_limit: usize,
    product_operation: &'static str,
    total_operation: &'static str,
) -> PlanResult<Option<usize>> {
    match prime_product(sequence_len, direct_prime_multiplicities, lane_limit, product_operation) {
        Err(error) => Err(error),
        Ok(None) => Ok(None),
        Ok(Some(product)) => if !multiple_of(sequence_len, product) {
            Ok(None)
        } else {
            match quad_outer_state(
                sequence_len,
                quotient(sequence_len, product),
                batch_count,
                total_operation,
            ) {
                Err(VkFftError::UnsupportedKernelPath(_)) => Ok(None),
                Err(error) => Err(error),
                Ok((_outer, _most, least)) => Ok(Some(least)),
            }
        },
    }
}

fn plan_double_double_direct_base(
    sequence_len: usize,
    direct_prime_multiplicities: &[(usize, usize)],
    batch_count: usize,
    lane_limit: usize,
    product_operation: &'static str,
    total_operation: &'static str,
) -> (planned: PlanResult<Option<usize>>)
    ensures
        planned == double_double_direct_base(
            sequence_len,
            direct_prime_multiplicities@,
            batch_count,
            lane_limit,
            product_operation,
            total_operation,
        ),
{
    reveal(double_double_direct_base);
    let product: usize = match multiply_primes(
        sequence_len,
        direct_prime_multiplicities,
        lane_limit,
        product_operation,
    ) {
        Ok(Some(value)) => value,
        Ok(None) => {
            return Ok(None);
        },
        Err(error) => {
            return Err(error);
        },
    };
    if !multiple_of(sequence_len, product) {
        return Ok(None);
    }
    let (_outer, _most, least) = match plan_quad_outer_state(
        sequence_len,
        quotient(sequence_len, product),
        batch_count,
        total_operation,
    ) {
        Ok(value) => value,
        Err(VkFftError::UnsupportedKernelPath(_)) => {
            return Ok(None);
        },
        Err(error) => {
            return Err(error);
        },
    };
    Ok(Some(least))
}

/// The split state of a double-double transform whose primes are all direct.
#[verifier::opaque]
pub open spec fn double_double_direct_split(
    sequence_len: usize,
    direct_prime_multiplicities: Seq<(usize, usize)>,
    batch_count: usize,
    max_batch_coalesced: usize,
    device: DeviceProfile,
) -> PlanResult<Option<RaderSplitModel>> {
    if direct_prime_multiplicities.len() == 0
        || direct_request_empty(
            sequence_len,
            batch_count,
            max_batch_coalesced,
            device,
            device.max_workgroup_size[0 as int],
        ) {
        Ok(None)
    } else {
        let limit = dimension_limit(device, device.max_workgroup_size[0 as int]);
        match double_double_direct_base(
            sequence_len,
            direct_prime_multiplicities,
            batch_count,
            limit,
            "double-double direct-Rader split-state prime-power product",
            "double-double direct-Rader split-state total elements",
        ) {
            Err(error) => Err(error),
            Ok(None) => Ok(None),
            Ok(Some(least)) => match axis0_scaled_floor(
                sequence_len,
                direct_prime_multiplicities,
                umin(least, 2),
                max_batch_coalesced,
                limit,
            ) {
                Err(error) => Err(error),
                Ok(None) => Ok(None),
                Ok(Some((registers, _total))) => match ceil_div(sequence_len, registers) {
                    Err(error) => Err(error),
                    Ok(base_axis_threads) => Ok(
                        Some(
                            RaderSplitModel {
                                base_axis_threads,
                                rader_min_registers: registers,
                                min_rader_fft_thread_num: 0,
                                direct_prime_multiplicities: same_pairs(
                                    direct_prime_multiplicities,
                                ),
                            },
                        ),
                    ),
                },
            },
        }
    }
}

pub fn plan_gpu_double_double_axis0_composite_direct_rader_split_state_for_prime_multiplicities_with_max_batch_coalesced(
    sequence_len: usize,
    direct_prime_multiplicities: &[(usize, usize)],
    batch_count: usize,
    max_batch_coalesced: usize,
    device: DeviceProfile,
) -> (planned: PlanResult<Option<Axis0RaderSplitState>>)
    ensures
        viewed_option(planned) == double_double_direct_split(
            sequence_len,
            direct_prime_multiplicities@,
            batch_count,
            max_batch_coalesced,
            device,
        ),
{
    reveal(double_double_direct_split);
    if direct_prime_multiplicities.len() == 0
        || direct_request_empty(
            sequence_len,
            batch_count,
            max_batch_coalesced,
            device,
            device.max_workgroup_size[0],
        ) {
        return Ok(None);
    }
    let limit: usize = dimension_limit(device, device.max_workgroup_size[0]);
    let least: usize = match plan_double_double_direct_base(
        sequence_len,
        direct_prime_multiplicities,
        batch_count,
        limit,
        "double-double direct-Rader split-state prime-power product",
        "double-double direct-Rader split-state total elements",
    ) {
        Ok(Some(value)) => value,
        Ok(None) => {
            return Ok(None);
        },
        Err(error) => {
            return Err(error);
        },
    };
    let (
        registers,
        _total,
    ) = match scale_axis0_direct_rader_type1_register_floor_with_max_batch_coalesced(
        sequence_len,
        direct_prime_multiplicities,
        umin(least, 2),
        max_batch_coalesced,
        limit,
    ) {
        Ok(Some(value)) => value,
        Ok(None) => {
            return Ok(None);
        },
        Err(error) => {
            return Err(error);
        },
    };
    let base_axis_threads: usize = ceil_div(sequence_len, registers)?;
    Ok(
        Some(
            Axis0RaderSplitState {
                base_axis_threads,
                rader_min_registers: registers,
                min_rader_fft_thread_num: 0,
                direct_prime_multiplicities: copy_pairs(direct_prime_multiplicities),
            },
        ),
    )
}

/// Lanes of one double-double transform that holds direct primes with multiplicities,
/// several transforms sharing a workgroup.
#[verifier::opaque]
pub open spec fn double_double_direct_threads_coalesced(
    sequence_len: usize,
    direct_prime_multiplicities: Seq<(usize, usize)>,
    batch_count: usize,
    max_batch_coalesced: usize,
    device: DeviceProfile,
) -> PlanResult<Option<usize>> {
    if direct_prime_multiplicities.len() == 0
        || direct_request_empty(
            sequence_len,
            batch_count,
            max_batch_coalesced,
            device,
            device.max_workgroup_size[0 as int],
        ) {
        Ok(None)
    } else {
        let limit = dimension_limit(device, device.max_workgroup_size[0 as int]);
        match double_double_direct_base(
            sequence_len,
            direct_prime_multiplicities,
            batch_count,
            limit,
            "double-double composite direct-Rader prime-power product",
            "double-double multiplicity-aware direct-Rader total elements",
        ) {
            Err(error) => Err(error),
            Ok(None) => Ok(None),
            Ok(Some(least)) => direct_floor_threads(
                sequence_len,
                direct_prime_multiplicities,
                least,
                max_batch_coalesced,
                limit,
            ),
        }
    }
}

pub fn plan_gpu_double_double_axis0_composite_direct_rader_threads_for_prime_multiplicities_with_max_batch_coalesced(
    sequence_len: usize,
    direct_prime_multiplicities: &[(usize, usize)],
    batch_count: usize,
    max_batch_coalesced: usize,
    device: DeviceProfile,
) -> (planned: PlanResult<Option<usize>>)
    ensures
        planned == double_double_direct_threads_coalesced(
            sequence_len,
            direct_prime_multiplicities@,
            batch_count,
            max_batch_coalesced,
            device,
        ),
{
    reveal(double_double_direct_threads_coalesced);
    if direct_prime_multiplicities.len() == 0
        || direct_request_empty(
            sequence_len,
            batch_count,
            max_batch_coalesced,
            device,
            device.max_workgroup_size[0],
        ) {
        return Ok(None);
    }
    let limit: usize = dimension_limit(device, device.max_workgroup_size[0]);
    let least: usize = match plan_double_double_direct_base(
        sequence_len,
        direct_prime_multiplicities,
        batch_count,
        limit,
        "double-double composite direct-Rader prime-power product",
        "double-double multiplicity-aware direct-Rader total elements",
    ) {
        Ok(Some(value)) => value,
        Ok(None) => {
            return Ok(None);
        },
        Err(error) => {
            return Err(error);
        },
    };
    plan_direct_floor_threads(
        sequence_len,
        direct_prime_multiplicities,
        least,
        max_batch_coalesced,
        limit,
    )
}

/// The same for one transform per workgroup.
pub open spec fn double_double_direct_threads(
    sequence_len: usize,
    direct_prime_multiplicities: Seq<(usize, usize)>,
    batch_count: usize,
    device: DeviceProfile,
) -> PlanResult<Option<usize>> {
    double_double_direct_threads_coalesced(
        sequence_len,
        direct_prime_multiplicities,
        batch_count,
        1,
        device,
    )
}

pub fn plan_gpu_double_double_axis0_composite_direct_rader_threads_for_prime_multiplicities(
    sequence_len: usize,
    direct_prime_multiplicities: &[(usize, usize)],
    batch_count: usize,
    device: DeviceProfile,
) -> (planned: PlanResult<Option<usize>>)
    ensures
        planned == double_double_direct_threads(
            sequence_len,
            direct_prime_multiplicities@,
            batch_count,
            device,
        ),
{
    plan_gpu_double_double_axis0_composite_direct_rader_threads_for_prime_multiplicities_with_max_batch_coalesced(
        sequence_len,
        direct_prime_multiplicities,
        batch_count,
        1,
        device,
    )
}

/// Lanes of a double-double transform along a higher axis that holds one direct prime
/// once: one lane group per transform of the smooth factor.
#[verifier::opaque]
pub open spec fn double_double_other_axis_direct_threads(
    sequence_len: usize,
    direct_prime_multiplicities: Seq<(usize, usize)>,
    batch_count: usize,
    device: DeviceProfile,
) -> PlanResult<Option<usize>> {
    if sequence_len < 2
        || batch_count == 0
        || direct_prime_multiplicities.len() != 1
        || device.max_threads_per_block == 0
        || device.max_workgroup_size[1 as int] == 0 {
        Ok(None)
    } else {
        let prime = direct_prime_multiplicities[0 as int].0;
        if direct_prime_multiplicities[0 as int].1 != 1
            || prime < 3
            || !multiple_of(sequence_len, prime) {
            Ok(None)
        } else {
            let smooth = quotient(sequence_len, prime);
            if smooth <= 1 {
                Ok(None)
            } else {
                match checked_mul(
                    smooth,
                    half_up(prime),
                    "DD higher-axis single Direct-Rader composite thread count",
                ) {
                    Err(error) => Err(error),
                    Ok(threads) => if threads > dimension_limit(
                        device,
                        device.max_workgroup_size[1 as int],
                    ) {
                        Ok(None)
                    } else {
                        Ok(Some(threads))
                    },
                }
            }
        }
    }
}

pub fn plan_gpu_double_double_other_axis_composite_direct_rader_threads_for_prime_multiplicities(
    sequence_len: usize,
    direct_prime_multiplicities: &[(usize, usize)],
    batch_count: usize,
    device: DeviceProfile,
) -> (planned: PlanResult<Option<usize>>)
    ensures
        planned == double_double_other_axis_direct_threads(
            sequence_len,
            direct_prime_multiplicities@,
            batch_count,
            device,
        ),
{
    reveal(double_double_other_axis_direct_threads);
    if sequence_len < 2
        || batch_count == 0
        || direct_prime_multiplicities.len() != 1
        || device.max_threads_per_block == 0
        || device.max_workgroup_size[1] == 0 {
        return Ok(None);
    }
    let prime: usize = direct_prime_multiplicities[0].0;
    if direct_prime_multiplicities[0].1 != 1 || prime < 3 || !multiple_of(sequence_len, prime) {
        return Ok(None);
    }
    let smooth: usize = quotient(sequence_len, prime);
    if smooth <= 1 {
        return Ok(None);
    }
    let threads: usize = checked_mul(
        smooth,
        half_up(prime),
        "DD higher-axis single Direct-Rader composite thread count",
    )?;
    if threads > dimension_limit(device, device.max_workgroup_size[1]) {
        return Ok(None);
    }
    Ok(Some(threads))
}

/// Lanes of one double-double transform that holds several direct primes, each once.
#[verifier::opaque]
pub open spec fn double_double_direct_threads_for_primes(
    sequence_len: usize,
    direct_primes: Seq<usize>,
    batch_count: usize,
    device: DeviceProfile,
) -> PlanResult<Option<usize>> {
    if direct_primes.len() == 0
        || direct_request_empty(
            sequence_len,
            batch_count,
            1,
            device,
            device.max_workgroup_size[0 as int],
        ) {
        Ok(None)
    } else {
        let limit = dimension_limit(device, device.max_workgroup_size[0 as int]);
        let primes = each_once(direct_primes);
        match double_double_direct_base(
            sequence_len,
            primes,
            batch_count,
            limit,
            "double-double composite direct-Rader prime product",
            "double-double composite direct-Rader total element count",
        ) {
            Err(error) => Err(error),
            Ok(None) => Ok(None),
            Ok(Some(least)) => match scaled_floor(
                sequence_len,
                primes,
                umin(least, 2),
                least,
                1,
                limit,
                double_double_operations(),
            ) {
                Err(error) => Err(error),
                Ok(None) => Ok(None),
                Ok(Some((_registers, threads))) => Ok(Some(threads)),
            },
        }
    }
}

pub fn plan_gpu_double_double_axis0_composite_direct_rader_threads_for_primes(
    sequence_len: usize,
    direct_primes: &[usize],
    batch_count: usize,
    device: DeviceProfile,
) -> (planned: PlanResult<Option<usize>>)
    ensures
        planned == double_double_direct_threads_for_primes(
            sequence_len,
            direct_primes@,
            batch_count,
            device,
        ),
{
    reveal(double_double_direct_threads_for_primes);
    if direct_primes.len() == 0
        || direct_request_empty(
            sequence_len,
            batch_count,
            1,
            device,
            device.max_workgroup_size[0],
        ) {
        return Ok(None);
    }
    let limit: usize = dimension_limit(device, device.max_workgroup_size[0]);
    let primes: Vec<(usize, usize)> = pair_each_once(direct_primes);
    let least: usize = match plan_double_double_direct_base(
        sequence_len,
        primes.as_slice(),
        batch_count,
        limit,
        "double-double composite direct-Rader prime product",
        "double-double composite direct-Rader total element count",
    ) {
        Ok(Some(value)) => value,
        Ok(None) => {
            return Ok(None);
        },
        Err(error) => {
            return Err(error);
        },
    };
    let (_registers, threads) = match scale_direct_registers(
        sequence_len,
        primes.as_slice(),
        umin(least, 2),
        least,
        1,
        limit,
        double_double_operations(),
    ) {
        Ok(Some(value)) => value,
        Ok(None) => {
            return Ok(None);
        },
        Err(error) => {
            return Err(error);
        },
    };
    Ok(Some(threads))
}

/// The most lanes of one transform over the direct primes from index `from` on, the
/// ordinary lanes rounded up to whole lane groups of each.
pub open spec fn rounded_direct_from(
    sequence_len: usize,
    primes: Seq<(usize, usize)>,
    base_axis_threads: usize,
    registers: usize,
    max_batch_coalesced: usize,
    thread_limit: usize,
    operation: &'static str,
    most: usize,
    from: int,
) -> PlanResult<Option<usize>>
    decreases primes.len() - from,
{
    if from >= primes.len() {
        Ok(Some(most))
    } else if primes[from].1 == 0 {
        Ok(None)
    } else {
        match axis0_direct_lane_estimate(
            sequence_len,
            primes[from].0,
            registers,
            max_batch_coalesced,
            thread_limit,
        ) {
            Err(error) => Err(error),
            Ok(None) => Ok(None),
            Ok(Some(estimate)) => match ceil_div(base_axis_threads, half_up(primes[from].0)) {
                Err(error) => Err(error),
                Ok(groups) => match checked_mul(groups, half_up(primes[from].0), operation) {
                    Err(error) => Err(error),
                    Ok(rounded) => rounded_direct_from(
                        sequence_len,
                        primes,
                        base_axis_threads,
                        registers,
                        max_batch_coalesced,
                        thread_limit,
                        operation,
                        umax(umax(most, estimate), rounded),
                        from + 1,
                    ),
                },
            },
        }
    }
}

/// The same for all primes.
pub open spec fn rounded_direct(
    sequence_len: usize,
    primes: Seq<(usize, usize)>,
    base_axis_threads: usize,
    registers: usize,
    max_batch_coalesced: usize,
    thread_limit: usize,
    operation: &'static str,
) -> PlanResult<Option<usize>> {
    rounded_direct_from(
        sequence_len,
        primes,
        base_axis_threads,
        registers,
        max_batch_coalesced,
        thread_limit,
        operation,
        0,
        0,
    )
}

pub fn round_direct_threads(
    sequence_len: usize,
    primes: &[(usize, usize)],
    base_axis_threads: usize,
    registers: usize,
    max_batch_coalesced: usize,
    thread_limit: usize,
    operation: &'static str,
) -> (rounded: PlanResult<Option<usize>>)
    ensures
        rounded == rounded_direct(
            sequence_len,
            primes@,
            base_axis_threads,
            registers,
            max_batch_coalesced,
            thread_limit,
            operation,
        ),
{
    let mut most: usize = 0;
    let mut index: usize = 0;
    while index < primes.len()
        invariant
            index <= primes.len(),
            rounded_direct_from(
                sequence_len,
                primes@,
                base_axis_threads,
                registers,
                max_batch_coalesced,
                thread_limit,
                operation,
                most,
                index as int,
            ) == rounded_direct(
                sequence_len,
                primes@,
                base_axis_threads,
                registers,
                max_batch_coalesced,
                thread_limit,
                operation,
            ),
        decreases primes.len() - index,
    {
        let (prime, multiplicity) = primes[index];
        if multiplicity == 0 {
            return Ok(None);
        }
        let estimate: usize =
            match axis0_direct_rader_local_thread_estimate_with_max_batch_coalesced(
            sequence_len,
            prime,
            registers,
            max_batch_coalesced,
            thread_limit,
        )? {
            Some(estimate) => estimate,
            None => {
                return Ok(None);
            },
        };
        let groups: usize = ceil_div(base_axis_threads, half_up(prime))?;
        let rounded: usize = checked_mul(groups, half_up(prime), operation)?;
        most = umax(umax(most, estimate), rounded);
        index = index + 1;
    }
    Ok(Some(most))
}

/// Lanes one transform takes for its direct primes, from its split state.
#[verifier::opaque]
pub open spec fn direct_threads_from_split(
    sequence_len: usize,
    state: RaderSplitModel,
    max_batch_coalesced: usize,
    physical_thread_limit: usize,
) -> PlanResult<Option<usize>> {
    if sequence_len == 0
        || state.base_axis_threads == 0
        || state.rader_min_registers == 0
        || state.direct_prime_multiplicities.len() == 0
        || max_batch_coalesced == 0
        || physical_thread_limit == 0 {
        Ok(None)
    } else {
        match rounded_direct(
            sequence_len,
            state.direct_prime_multiplicities,
            state.base_axis_threads,
            state.rader_min_registers,
            max_batch_coalesced,
            physical_thread_limit,
            "axis0 Rader split-state Direct rounding",
        ) {
            Err(error) => Err(error),
            Ok(None) => Ok(None),
            Ok(Some(threads)) => Ok(Some(umax(umin(threads, physical_thread_limit), 1))),
        }
    }
}

pub fn axis0_direct_rader_threads_from_split_state(
    sequence_len: usize,
    state: &Axis0RaderSplitState,
    max_batch_coalesced: usize,
    physical_thread_limit: usize,
) -> (planned: PlanResult<Option<usize>>)
    ensures
        planned == direct_threads_from_split(
            sequence_len,
            state@,
            max_batch_coalesced,
            physical_thread_limit,
        ),
{
    reveal(direct_threads_from_split);
    if sequence_len == 0
        || state.base_axis_threads == 0
        || state.rader_min_registers == 0
        || state.direct_prime_multiplicities.len() == 0
        || max_batch_coalesced == 0
        || physical_thread_limit == 0 {
        return Ok(None);
    }
    let threads: usize = match round_direct_threads(
        sequence_len,
        state.direct_prime_multiplicities.as_slice(),
        state.base_axis_threads,
        state.rader_min_registers,
        max_batch_coalesced,
        physical_thread_limit,
        "axis0 Rader split-state Direct rounding",
    ) {
        Ok(Some(value)) => value,
        Ok(None) => {
            return Ok(None);
        },
        Err(error) => {
            return Err(error);
        },
    };
    Ok(Some(umax(umin(threads, physical_thread_limit), 1)))
}

/// A count, or zero where there is none.
#[verifier::allow_in_spec]
pub fn count_or_zero(count: Option<usize>) -> usize
    returns
        (match count {
            Some(value) => value,
            None => 0,
        }),
{
    match count {
        Some(value) => value,
        None => 0,
    }
}

/// Lanes one transform takes for all its Rader primes, from its split state.
#[verifier::opaque]
pub open spec fn threads_from_split(
    sequence_len: usize,
    state: RaderSplitModel,
    max_batch_coalesced: usize,
    physical_thread_limit: usize,
) -> PlanResult<Option<usize>> {
    if sequence_len == 0
        || state.base_axis_threads == 0
        || state.rader_min_registers == 0
        || max_batch_coalesced == 0
        || physical_thread_limit == 0 {
        Ok(None)
    } else {
        match direct_threads_from_split(
            sequence_len,
            state,
            max_batch_coalesced,
            physical_thread_limit,
        ) {
            Err(error) => Err(error),
            Ok(direct) => Ok(
                Some(
                    umax(
                        umin(
                            umax(count_or_zero(direct), state.min_rader_fft_thread_num),
                            physical_thread_limit,
                        ),
                        1,
                    ),
                ),
            ),
        }
    }
}

pub fn axis0_rader_threads_from_split_state(
    sequence_len: usize,
    state: &Axis0RaderSplitState,
    max_batch_coalesced: usize,
    physical_thread_limit: usize,
) -> (planned: PlanResult<Option<usize>>)
    ensures
        planned == threads_from_split(
            sequence_len,
            state@,
            max_batch_coalesced,
            physical_thread_limit,
        ),
{
    reveal(threads_from_split);
    if sequence_len == 0
        || state.base_axis_threads == 0
        || state.rader_min_registers == 0
        || max_batch_coalesced == 0
        || physical_thread_limit == 0 {
        return Ok(None);
    }
    let direct: Option<usize> = axis0_direct_rader_threads_from_split_state(
        sequence_len,
        state,
        max_batch_coalesced,
        physical_thread_limit,
    )?;
    Ok(
        Some(
            umax(
                umin(
                    umax(count_or_zero(direct), state.min_rader_fft_thread_num),
                    physical_thread_limit,
                ),
                1,
            ),
        ),
    )
}

proof fn prime_product_from_is_exact(
    sequence_len: usize,
    primes: Seq<(usize, usize)>,
    lane_limit: usize,
    operation: &'static str,
    product: usize,
    from: int,
)
    requires
        0 <= from <= primes.len(),
        product == factor_product(primes, from),
    ensures
        prime_product_from(sequence_len, primes, lane_limit, operation, product, from) matches Ok(
            Some(total),
        ) ==> total == factor_product(primes, primes.len() as int),
    decreases primes.len() - from,
{
    if from < primes.len() && direct_prime_admissible(sequence_len, primes, from, lane_limit) {
        if let Ok(power) = prime_power(primes[from].0, primes[from].1, operation) {
            vstd::arithmetic::power::lemma_pow_positive(
                primes[from].0 as int,
                primes[from].1 as nat,
            );
            if let Ok(next) = checked_mul(product, power, operation) {
                prime_product_from_is_exact(
                    sequence_len,
                    primes,
                    lane_limit,
                    operation,
                    next,
                    from + 1,
                );
            }
        }
    }
}

/// Every occurrence of a prime is taken out of the smooth factor: the product of a list is
/// that of all its prime powers.
pub proof fn prime_product_counts_every_occurrence(
    sequence_len: usize,
    primes: Seq<(usize, usize)>,
    lane_limit: usize,
    operation: &'static str,
)
    ensures
        prime_product(sequence_len, primes, lane_limit, operation) matches Ok(Some(total)) ==> total
            == factor_product(primes, primes.len() as int),
{
    prime_product_from_is_exact(sequence_len, primes, lane_limit, operation, 1, 0);
}

/// Whether an estimate is at least one lane and within the limit.
pub open spec fn lanes_within(planned: PlanResult<Option<usize>>, limit: usize) -> bool {
    planned matches Ok(Some(threads)) ==> 1 <= threads <= limit
}

proof fn scaled_floor_from_fits(
    sequence_len: usize,
    primes: Seq<(usize, usize)>,
    doubling_base: usize,
    pressure_base: usize,
    max_batch_coalesced: usize,
    thread_limit: usize,
    operations: EstimateOperations,
    scale: int,
)
    requires
        thread_limit > 0,
    ensures
        scaled_floor_from(
            sequence_len,
            primes,
            doubling_base,
            pressure_base,
            max_batch_coalesced,
            thread_limit,
            operations,
            scale,
        ) matches Ok(Some((registers, pressure))) ==> {
            &&& 1 <= pressure <= thread_limit
            &&& 2 <= registers
            &&& direct_pressure(
                sequence_len,
                primes,
                registers,
                max_batch_coalesced,
                thread_limit,
                operations,
                (quotient(sequence_len, registers) * max_batch_coalesced) as usize,
            ) matches Ok(Some(total)) && total <= pressure
            &&& quotient(sequence_len, registers) * max_batch_coalesced <= usize::MAX
        },
    decreases sequence_len - scale,
{
    reveal(scale_attempt);
    if let Ok(Some((registers, pressure))) = scale_attempt(
        sequence_len,
        primes,
        doubling_base,
        scale as usize,
        max_batch_coalesced,
        thread_limit,
        operations,
    ) {
        if !scale_suffices(sequence_len, pressure_base, registers, pressure, thread_limit) && scale
            + 1 <= sequence_len {
            scaled_floor_from_fits(
                sequence_len,
                primes,
                doubling_base,
                pressure_base,
                max_batch_coalesced,
                thread_limit,
                operations,
                scale + 1,
            );
        }
    }
}

/// The register floor of direct primes is even, and the lanes at that floor keep to the
/// limit.
pub proof fn scaled_floor_fits(
    sequence_len: usize,
    primes: Seq<(usize, usize)>,
    doubling_base: usize,
    pressure_base: usize,
    max_batch_coalesced: usize,
    thread_limit: usize,
    operations: EstimateOperations,
)
    ensures
        scaled_floor(
            sequence_len,
            primes,
            doubling_base,
            pressure_base,
            max_batch_coalesced,
            thread_limit,
            operations,
        ) matches Ok(Some((registers, pressure))) ==> {
            &&& 1 <= pressure <= thread_limit
            &&& 2 <= registers
            &&& direct_pressure(
                sequence_len,
                primes,
                registers,
                max_batch_coalesced,
                thread_limit,
                operations,
                (quotient(sequence_len, registers) * max_batch_coalesced) as usize,
            ) matches Ok(Some(total)) && total <= pressure
            &&& quotient(sequence_len, registers) * max_batch_coalesced <= usize::MAX
            &&& max_batch_coalesced > 0
        },
{
    reveal(scaled_floor);
    if thread_limit > 0 {
        scaled_floor_from_fits(
            sequence_len,
            primes,
            doubling_base,
            pressure_base,
            max_batch_coalesced,
            thread_limit,
            operations,
            0,
        );
    }
}

/// Lanes per transform never exceed those of all transforms of a workgroup.
proof fn widest_prime_within_pressure(
    sequence_len: usize,
    primes: Seq<(usize, usize)>,
    registers: usize,
    max_batch_coalesced: usize,
    thread_limit: usize,
    narrow: usize,
    wide: usize,
    from: int,
)
    requires
        0 <= from,
        narrow <= wide,
        max_batch_coalesced > 0,
    ensures
        widest_prime_from(
            sequence_len,
            primes,
            registers,
            max_batch_coalesced,
            thread_limit,
            narrow,
            from,
        ) matches Ok(Some(widest)) ==> direct_pressure_from(
            sequence_len,
            primes,
            registers,
            max_batch_coalesced,
            thread_limit,
            axis0_operations(),
            wide,
            from,
        ) matches Ok(Some(pressure)) ==> widest <= pressure,
    decreases primes.len() - from,
{
    if from < primes.len() {
        if let Ok(Some(estimate)) = axis0_direct_lane_estimate(
            sequence_len,
            primes[from].0,
            registers,
            max_batch_coalesced,
            thread_limit,
        ) {
            let total = estimate * max_batch_coalesced;
            assert(estimate <= total) by (nonlinear_arith)
                requires
                    total == estimate * max_batch_coalesced,
                    max_batch_coalesced >= 1,
            ;
            if total <= usize::MAX {
                widest_prime_within_pressure(
                    sequence_len,
                    primes,
                    registers,
                    max_batch_coalesced,
                    thread_limit,
                    umax(narrow, estimate),
                    umax(wide, total as usize),
                    from + 1,
                );
            }
        }
    }
}

/// The lanes that direct primes take from their shared register floor fit the workgroup.
pub proof fn direct_floor_threads_fit(
    sequence_len: usize,
    primes: Seq<(usize, usize)>,
    base_min_registers: usize,
    max_batch_coalesced: usize,
    thread_limit: usize,
)
    ensures
        lanes_within(
            direct_floor_threads(
                sequence_len,
                primes,
                base_min_registers,
                max_batch_coalesced,
                thread_limit,
            ),
            thread_limit,
        ),
{
    reveal(direct_floor_threads);
    let base = umin(base_min_registers, 2);
    scaled_floor_fits(
        sequence_len,
        primes,
        base,
        base,
        max_batch_coalesced,
        thread_limit,
        axis0_operations(),
    );
    if let Ok(Some((registers, _))) = axis0_scaled_floor(
        sequence_len,
        primes,
        base,
        max_batch_coalesced,
        thread_limit,
    ) {
        let ordinary = quotient(sequence_len, registers);
        let all = ordinary * max_batch_coalesced;
        assert(ordinary <= all) by (nonlinear_arith)
            requires
                all == ordinary * max_batch_coalesced,
                max_batch_coalesced >= 1,
        ;
        widest_prime_within_pressure(
            sequence_len,
            primes,
            registers,
            max_batch_coalesced,
            thread_limit,
            ordinary,
            all as usize,
            0,
        );
    }
}

/// Every lane estimate of direct primes is at least one and fits the workgroup.
pub proof fn direct_estimates_fit(
    sequence_len: usize,
    primes: Seq<(usize, usize)>,
    prime_list: Seq<usize>,
    prime: usize,
    batch_count: usize,
    max_batch_coalesced: usize,
    device: DeviceProfile,
)
    ensures
        ({
            let limit = dimension_limit(device, device.max_workgroup_size[0]);
            &&& lanes_within(
                composite_direct_threads(sequence_len, prime, batch_count, device),
                limit,
            )
            &&& lanes_within(
                direct_threads_coalesced(
                    sequence_len,
                    primes,
                    batch_count,
                    max_batch_coalesced,
                    device,
                ),
                limit,
            )
            &&& lanes_within(
                direct_threads_for_primes(sequence_len, prime_list, batch_count, device),
                limit,
            )
            &&& lanes_within(
                double_double_direct_threads_coalesced(
                    sequence_len,
                    primes,
                    batch_count,
                    max_batch_coalesced,
                    device,
                ),
                limit,
            )
            &&& lanes_within(
                double_double_direct_threads_for_primes(
                    sequence_len,
                    prime_list,
                    batch_count,
                    device,
                ),
                limit,
            )
            &&& lanes_within(
                double_double_other_axis_direct_threads(sequence_len, primes, batch_count, device),
                dimension_limit(device, device.max_workgroup_size[1]),
            )
        }),
{
    let limit = dimension_limit(device, device.max_workgroup_size[0]);
    assert(lanes_within(composite_direct_threads(sequence_len, prime, batch_count, device), limit))
        by {
        reveal(composite_direct_threads);
        if let Ok((_, _, least)) = outer_state(
            sequence_len,
            quotient(sequence_len, prime),
            batch_count,
        ) {
            scaled_floor_fits(
                sequence_len,
                once(prime),
                least,
                least,
                1,
                limit,
                composite_operations(),
            );
        }
    }
    assert(lanes_within(
        direct_threads_coalesced(sequence_len, primes, batch_count, max_batch_coalesced, device),
        limit,
    )) by {
        reveal(direct_threads_coalesced);
        if let Ok(Some(product)) = prime_product(
            sequence_len,
            primes,
            usize::MAX,
            "composite direct-Rader prime-power product",
        ) {
            if let Ok((_, _, least)) = outer_state(
                sequence_len,
                quotient(sequence_len, product),
                batch_count,
            ) {
                direct_floor_threads_fit(sequence_len, primes, least, max_batch_coalesced, limit);
            }
        }
    }
    assert(lanes_within(
        direct_threads_for_primes(sequence_len, prime_list, batch_count, device),
        limit,
    )) by {
        reveal(direct_threads_for_primes);
        if let Ok(Some(product)) = prime_product(
            sequence_len,
            each_once(prime_list),
            limit,
            "composite direct-Rader prime product",
        ) {
            if let Ok((_, _, least)) = outer_state(
                sequence_len,
                quotient(sequence_len, product),
                batch_count,
            ) {
                scaled_floor_fits(
                    sequence_len,
                    each_once(prime_list),
                    least,
                    least,
                    1,
                    limit,
                    multi_operations(),
                );
            }
        }
    }
    assert(lanes_within(
        double_double_direct_threads_coalesced(
            sequence_len,
            primes,
            batch_count,
            max_batch_coalesced,
            device,
        ),
        limit,
    )) by {
        reveal(double_double_direct_threads_coalesced);
        if let Ok(Some(least)) = double_double_direct_base(
            sequence_len,
            primes,
            batch_count,
            limit,
            "double-double composite direct-Rader prime-power product",
            "double-double multiplicity-aware direct-Rader total elements",
        ) {
            direct_floor_threads_fit(sequence_len, primes, least, max_batch_coalesced, limit);
        }
    }
    assert(lanes_within(
        double_double_direct_threads_for_primes(sequence_len, prime_list, batch_count, device),
        limit,
    )) by {
        reveal(double_double_direct_threads_for_primes);
        if let Ok(Some(least)) = double_double_direct_base(
            sequence_len,
            each_once(prime_list),
            batch_count,
            limit,
            "double-double composite direct-Rader prime product",
            "double-double composite direct-Rader total element count",
        ) {
            scaled_floor_fits(
                sequence_len,
                each_once(prime_list),
                umin(least, 2),
                least,
                1,
                limit,
                double_double_operations(),
            );
        }
    }
    assert(lanes_within(
        double_double_other_axis_direct_threads(sequence_len, primes, batch_count, device),
        dimension_limit(device, device.max_workgroup_size[1]),
    )) by {
        reveal(double_double_other_axis_direct_threads);
        let lanes = half_up(primes[0].0);
        let smooth = quotient(sequence_len, primes[0].0);
        assert(smooth >= 1 && lanes >= 1 ==> smooth * lanes >= 1) by (nonlinear_arith);
    }
}

/// Whether the registers and lanes at this scale suffice.
pub open spec fn suffices_at(
    sequence_len: usize,
    primes: Seq<(usize, usize)>,
    doubling_base: usize,
    pressure_base: usize,
    max_batch_coalesced: usize,
    thread_limit: usize,
    operations: EstimateOperations,
    scale: int,
) -> bool {
    scale_attempt(
        sequence_len,
        primes,
        doubling_base,
        scale as usize,
        max_batch_coalesced,
        thread_limit,
        operations,
    ) matches Ok(Some((registers, pressure))) && scale_suffices(
        sequence_len,
        pressure_base,
        registers,
        pressure,
        thread_limit,
    )
}

proof fn first_sufficient_scale(
    sequence_len: usize,
    primes: Seq<(usize, usize)>,
    doubling_base: usize,
    pressure_base: usize,
    max_batch_coalesced: usize,
    thread_limit: usize,
    operations: EstimateOperations,
    from: int,
    registers: usize,
    lanes: usize,
) -> (scale: int)
    requires
        0 <= from,
        scaled_floor_from(
            sequence_len,
            primes,
            doubling_base,
            pressure_base,
            max_batch_coalesced,
            thread_limit,
            operations,
            from,
        ) == Ok::<Option<(usize, usize)>, VkFftError>(Some((registers, lanes))),
    ensures
        from <= scale,
        suffices_at(
            sequence_len,
            primes,
            doubling_base,
            pressure_base,
            max_batch_coalesced,
            thread_limit,
            operations,
            scale,
        ),
        scale_attempt(
            sequence_len,
            primes,
            doubling_base,
            scale as usize,
            max_batch_coalesced,
            thread_limit,
            operations,
        )->Ok_0->Some_0.0 == registers,
        forall|smaller: int|
            from <= smaller < scale ==> !#[trigger] suffices_at(
                sequence_len,
                primes,
                doubling_base,
                pressure_base,
                max_batch_coalesced,
                thread_limit,
                operations,
                smaller,
            ),
    decreases sequence_len - from,
{
    if suffices_at(
        sequence_len,
        primes,
        doubling_base,
        pressure_base,
        max_batch_coalesced,
        thread_limit,
        operations,
        from,
    ) {
        from
    } else {
        first_sufficient_scale(
            sequence_len,
            primes,
            doubling_base,
            pressure_base,
            max_batch_coalesced,
            thread_limit,
            operations,
            from + 1,
            registers,
            lanes,
        )
    }
}

/// The shared register floor of direct primes comes from the least scale that suffices.
pub proof fn scaled_floor_is_least(
    sequence_len: usize,
    primes: Seq<(usize, usize)>,
    doubling_base: usize,
    pressure_base: usize,
    max_batch_coalesced: usize,
    thread_limit: usize,
    operations: EstimateOperations,
    registers: usize,
    lanes: usize,
) -> (scale: int)
    requires
        scaled_floor(
            sequence_len,
            primes,
            doubling_base,
            pressure_base,
            max_batch_coalesced,
            thread_limit,
            operations,
        ) == Ok::<Option<(usize, usize)>, VkFftError>(Some((registers, lanes))),
    ensures
        scale >= 0,
        scale_attempt(
            sequence_len,
            primes,
            doubling_base,
            scale as usize,
            max_batch_coalesced,
            thread_limit,
            operations,
        )->Ok_0->Some_0.0 == registers,
        suffices_at(
            sequence_len,
            primes,
            doubling_base,
            pressure_base,
            max_batch_coalesced,
            thread_limit,
            operations,
            scale,
        ),
        forall|smaller: int|
            0 <= smaller < scale ==> !#[trigger] suffices_at(
                sequence_len,
                primes,
                doubling_base,
                pressure_base,
                max_batch_coalesced,
                thread_limit,
                operations,
                smaller,
            ),
{
    reveal(scaled_floor);
    first_sufficient_scale(
        sequence_len,
        primes,
        doubling_base,
        pressure_base,
        max_batch_coalesced,
        thread_limit,
        operations,
        0,
        registers,
        lanes,
    )
}

} // verus!
