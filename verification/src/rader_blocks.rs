//! Workgroup shapes of axes that hold Rader primes.

use vstd::prelude::*;

use crate::arith::{ceil_div, checked_mul, half_up, umax, umin};
use crate::axis_block::{
    align_group, aligned_group, automatic_x_group, block_swappable, block_transforms_on_x,
    choose_automatic_x_group, choose_user_x_group, contiguous_shape, estimate_batch, initial_group,
    limit_group, limited_group, ordinary_precision_of_bytes, power_of_two_above, precision_of_bytes,
    product_exceeds, product_within, quotient, should_swap_axes, shrink_for_vendor, strided_shape,
    swappable_block, swaps_axes, transforms_x_block, user_x_group, value_or, vendor_shrunk,
    StockhamAxisBlockSchedule, AIM_THREADS,
};
use crate::config::{
    upstream_effective_rader_tuning, upstream_effective_tuning, DeviceProfile, PlannerTuning,
    Precision,
};
use crate::direct_rader::{once, single_pair};
use crate::error::{PlanResult, VkFftError};
use crate::policy::{plan_gpu_scheduler_policy, scheduler_policy, GpuSchedulerPolicy};
use crate::rader_parents::{
    double_double_fft_threads_tuned, fft_parent, fft_threads,
    plan_gpu_axis0_multi_fft_rader_parent_schedule_with_max_batch_coalesced,
    plan_gpu_axis0_multi_fft_rader_threads_for_prime_multiplicities,
    plan_gpu_double_double_axis0_fft_rader_threads_for_prime_multiplicities_with_tuning, portable,
    portable_tuning, MultiFftRaderParentSchedule,
};
use crate::rader_registers::{RaderFftRegisterModel, RaderFftRegisterSchedule};
use crate::rader_tables::{outer_state, rader_outer_register_state};
use crate::stockham_blocks::requested_group;
use crate::uploads::{strided_capacity, DD_COMPLEX_BYTES};

verus! {

/// The workgroup of a strided Rader axis whose transforms take this many lanes.
#[verifier::opaque]
pub open spec fn other_axis_rader_block(
    sequence_len: usize,
    batch_count: usize,
    fastest_axis_len: usize,
    precision: Precision,
    complex_bytes: usize,
    threads_per_transform: usize,
    grouped_batch_override: Option<usize>,
    axis1_grouped_batch_override: Option<usize>,
    device: DeviceProfile,
) -> PlanResult<Option<StockhamAxisBlockSchedule>> {
    if sequence_len < 2
        || batch_count == 0
        || fastest_axis_len == 0
        || complex_bytes == 0
        || threads_per_transform == 0
        || threads_per_transform > device.max_threads_per_block
        || threads_per_transform > device.max_workgroup_size[1]
        || device.max_workgroup_size[0] == 0 {
        Ok(None)
    } else {
        match scheduler_policy(precision, device) {
            Err(error) => Err(error),
            Ok(policy) => {
                let shared = device.shared_memory_bytes / complex_bytes;
                let strided = strided_capacity(
                    device.shared_memory_bytes,
                    complex_bytes,
                    policy.coalesced_memory_bytes,
                    shared,
                );
                if shared == 0 || strided == 0 {
                    Ok(None)
                } else {
                    let coalesced = umax(policy.coalesced_memory_bytes / complex_bytes, 1);
                    match initial_group(
                        strided,
                        sequence_len,
                        coalesced,
                        "higher-axis Rader initial grouped batch",
                    ) {
                        Err(error) => Err(error),
                        Ok(initial) => if grouped_batch_override.is_some() {
                            let narrowed = if product_exceeds(
                                initial,
                                threads_per_transform,
                                device.max_threads_per_block,
                            ) {
                                coalesced
                            } else {
                                initial
                            };
                            match user_x_group(
                                umin(fastest_axis_len, narrowed),
                                value_or(axis1_grouped_batch_override, 0),
                                value_or(grouped_batch_override, 0),
                                threads_per_transform,
                                batch_count,
                                true,
                                device,
                            ) {
                                None => Ok(None),
                                Some(requested) => Ok(
                                    transforms_x_block(
                                        requested,
                                        threads_per_transform,
                                        batch_count,
                                        device,
                                    ),
                                ),
                            }
                        } else {
                            let aligned = aligned_group(
                                initial,
                                coalesced,
                                sequence_len,
                                strided,
                                shared,
                                umax(policy.subgroup_width, 1),
                            );
                            let narrowed = if product_exceeds(
                                aligned,
                                threads_per_transform,
                                device.max_threads_per_block,
                            ) {
                                coalesced
                            } else {
                                aligned
                            };
                            let grouped = automatic_x_group(
                                narrowed,
                                fastest_axis_len,
                                threads_per_transform,
                                coalesced,
                                batch_count,
                                device,
                            );
                            Ok(
                                transforms_x_block(
                                    grouped,
                                    threads_per_transform,
                                    batch_count,
                                    device,
                                ),
                            )
                        },
                    }
                }
            },
        }
    }
}

pub fn plan_gpu_other_axis_rader_block_from_threads_for_precision(
    sequence_len: usize,
    batch_count: usize,
    fastest_axis_len: usize,
    precision: Precision,
    complex_bytes: usize,
    threads_per_transform: usize,
    grouped_batch_override: Option<usize>,
    axis1_grouped_batch_override: Option<usize>,
    device: DeviceProfile,
) -> (planned: PlanResult<Option<StockhamAxisBlockSchedule>>)
    ensures
        planned == other_axis_rader_block(
            sequence_len,
            batch_count,
            fastest_axis_len,
            precision,
            complex_bytes,
            threads_per_transform,
            grouped_batch_override,
            axis1_grouped_batch_override,
            device,
        ),
        strided_shape(planned, batch_count, device),
{
    reveal(other_axis_rader_block);
    if sequence_len < 2
        || batch_count == 0
        || fastest_axis_len == 0
        || complex_bytes == 0
        || threads_per_transform == 0
        || threads_per_transform > device.max_threads_per_block
        || threads_per_transform > device.max_workgroup_size[1]
        || device.max_workgroup_size[0] == 0 {
        return Ok(None);
    }
    let policy: GpuSchedulerPolicy = plan_gpu_scheduler_policy(precision, device)?;
    let shared: usize = device.shared_memory_bytes / complex_bytes;
    let strided: usize = strided_capacity(
        device.shared_memory_bytes,
        complex_bytes,
        policy.coalesced_memory_bytes,
        shared,
    );
    if shared == 0 || strided == 0 {
        return Ok(None);
    }
    let coalesced: usize = umax(policy.coalesced_memory_bytes / complex_bytes, 1);
    let initial: usize = initial_group(
        strided,
        sequence_len,
        coalesced,
        "higher-axis Rader initial grouped batch",
    )?;
    if grouped_batch_override.is_some() {
        let narrowed: usize = if product_exceeds(
            initial,
            threads_per_transform,
            device.max_threads_per_block,
        ) {
            coalesced
        } else {
            initial
        };
        let requested: usize = match choose_user_x_group(
            umin(fastest_axis_len, narrowed),
            value_or(axis1_grouped_batch_override, 0),
            value_or(grouped_batch_override, 0),
            threads_per_transform,
            batch_count,
            true,
            device,
        ) {
            Some(value) => value,
            None => {
                return Ok(None);
            },
        };
        return Ok(block_transforms_on_x(requested, threads_per_transform, batch_count, device));
    }
    let aligned: usize = align_group(
        initial,
        coalesced,
        sequence_len,
        strided,
        shared,
        umax(policy.subgroup_width, 1),
    );
    let narrowed: usize = if product_exceeds(
        aligned,
        threads_per_transform,
        device.max_threads_per_block,
    ) {
        coalesced
    } else {
        aligned
    };
    let grouped: usize = choose_automatic_x_group(
        narrowed,
        fastest_axis_len,
        threads_per_transform,
        coalesced,
        batch_count,
        device,
    );
    Ok(block_transforms_on_x(grouped, threads_per_transform, batch_count, device))
}

/// The same, the precision given by its footprint.
pub open spec fn other_axis_rader_block_of_bytes(
    sequence_len: usize,
    batch_count: usize,
    fastest_axis_len: usize,
    complex_bytes: usize,
    threads_per_transform: usize,
    grouped_batch_override: Option<usize>,
    axis1_grouped_batch_override: Option<usize>,
    device: DeviceProfile,
) -> PlanResult<Option<StockhamAxisBlockSchedule>> {
    match precision_of_bytes(complex_bytes) {
        None => Ok(None),
        Some(precision) => other_axis_rader_block(
            sequence_len,
            batch_count,
            fastest_axis_len,
            precision,
            complex_bytes,
            threads_per_transform,
            grouped_batch_override,
            axis1_grouped_batch_override,
            device,
        ),
    }
}

pub fn plan_gpu_other_axis_rader_block_from_threads(
    sequence_len: usize,
    batch_count: usize,
    fastest_axis_len: usize,
    complex_bytes: usize,
    threads_per_transform: usize,
    grouped_batch_override: Option<usize>,
    axis1_grouped_batch_override: Option<usize>,
    device: DeviceProfile,
) -> (planned: PlanResult<Option<StockhamAxisBlockSchedule>>)
    ensures
        planned == other_axis_rader_block_of_bytes(
            sequence_len,
            batch_count,
            fastest_axis_len,
            complex_bytes,
            threads_per_transform,
            grouped_batch_override,
            axis1_grouped_batch_override,
            device,
        ),
        strided_shape(planned, batch_count, device),
{
    let precision: Precision = match precision_of_bytes(complex_bytes) {
        Some(value) => value,
        None => {
            return Ok(None);
        },
    };
    plan_gpu_other_axis_rader_block_from_threads_for_precision(
        sequence_len,
        batch_count,
        fastest_axis_len,
        precision,
        complex_bytes,
        threads_per_transform,
        grouped_batch_override,
        axis1_grouped_batch_override,
        device,
    )
}

/// The workgroup of an elementwise pass along a higher axis: at most the aimed lanes per
/// transform.
pub open spec fn elementwise_wrapper_block(
    element_len: usize,
    batch_count: usize,
    fastest_axis_len: usize,
    complex_bytes: usize,
    grouped_batch_override: Option<usize>,
    axis1_grouped_batch_override: Option<usize>,
    device: DeviceProfile,
) -> PlanResult<Option<StockhamAxisBlockSchedule>> {
    if element_len == 0 || batch_count == 0 || fastest_axis_len == 0 {
        Ok(None)
    } else {
        let threads = umin(
            umin(umin(element_len, AIM_THREADS), device.max_workgroup_size[1]),
            device.max_threads_per_block,
        );
        if threads == 0 {
            Ok(None)
        } else {
            other_axis_rader_block_of_bytes(
                element_len,
                batch_count,
                fastest_axis_len,
                complex_bytes,
                threads,
                grouped_batch_override,
                axis1_grouped_batch_override,
                device,
            )
        }
    }
}

pub fn plan_gpu_other_axis_elementwise_wrapper_block(
    element_len: usize,
    batch_count: usize,
    fastest_axis_len: usize,
    complex_bytes: usize,
    grouped_batch_override: Option<usize>,
    axis1_grouped_batch_override: Option<usize>,
    device: DeviceProfile,
) -> (planned: PlanResult<Option<StockhamAxisBlockSchedule>>)
    ensures
        planned == elementwise_wrapper_block(
            element_len,
            batch_count,
            fastest_axis_len,
            complex_bytes,
            grouped_batch_override,
            axis1_grouped_batch_override,
            device,
        ),
        strided_shape(planned, batch_count, device),
{
    if element_len == 0 || batch_count == 0 || fastest_axis_len == 0 {
        return Ok(None);
    }
    let threads: usize = umin(
        umin(umin(element_len, AIM_THREADS), device.max_workgroup_size[1]),
        device.max_threads_per_block,
    );
    if threads == 0 {
        return Ok(None);
    }
    plan_gpu_other_axis_rader_block_from_threads(
        element_len,
        batch_count,
        fastest_axis_len,
        complex_bytes,
        threads,
        grouped_batch_override,
        axis1_grouped_batch_override,
        device,
    )
}

/// The same for the passes around a Bluestein convolution.
pub open spec fn bluestein_wrapper_block(
    convolution_len: usize,
    batch_count: usize,
    fastest_axis_len: usize,
    complex_bytes: usize,
    grouped_batch_override: Option<usize>,
    axis1_grouped_batch_override: Option<usize>,
    device: DeviceProfile,
) -> PlanResult<Option<StockhamAxisBlockSchedule>> {
    elementwise_wrapper_block(
        convolution_len,
        batch_count,
        fastest_axis_len,
        complex_bytes,
        grouped_batch_override,
        axis1_grouped_batch_override,
        device,
    )
}

pub fn plan_gpu_other_axis_bluestein_wrapper_block(
    convolution_len: usize,
    batch_count: usize,
    fastest_axis_len: usize,
    complex_bytes: usize,
    grouped_batch_override: Option<usize>,
    axis1_grouped_batch_override: Option<usize>,
    device: DeviceProfile,
) -> (planned: PlanResult<Option<StockhamAxisBlockSchedule>>)
    ensures
        planned == bluestein_wrapper_block(
            convolution_len,
            batch_count,
            fastest_axis_len,
            complex_bytes,
            grouped_batch_override,
            axis1_grouped_batch_override,
            device,
        ),
        strided_shape(planned, batch_count, device),
{
    plan_gpu_other_axis_elementwise_wrapper_block(
        convolution_len,
        batch_count,
        fastest_axis_len,
        complex_bytes,
        grouped_batch_override,
        axis1_grouped_batch_override,
        device,
    )
}

/// The workgroup of a composite Rader transform along a higher axis.
pub open spec fn other_axis_composite_block(
    logical_len: usize,
    batch_count: usize,
    fastest_axis_len: usize,
    precision: Precision,
    complex_bytes: usize,
    threads_per_transform: usize,
    grouped_batch_override: Option<usize>,
    axis1_grouped_batch_override: Option<usize>,
    device: DeviceProfile,
) -> PlanResult<Option<StockhamAxisBlockSchedule>> {
    other_axis_rader_block(
        logical_len,
        batch_count,
        fastest_axis_len,
        precision,
        complex_bytes,
        threads_per_transform,
        grouped_batch_override,
        axis1_grouped_batch_override,
        device,
    )
}

pub fn plan_gpu_other_axis_composite_rader_batch_block_for_precision(
    logical_len: usize,
    batch_count: usize,
    fastest_axis_len: usize,
    precision: Precision,
    complex_bytes: usize,
    threads_per_transform: usize,
    grouped_batch_override: Option<usize>,
    axis1_grouped_batch_override: Option<usize>,
    device: DeviceProfile,
) -> (planned: PlanResult<Option<StockhamAxisBlockSchedule>>)
    ensures
        planned == other_axis_composite_block(
            logical_len,
            batch_count,
            fastest_axis_len,
            precision,
            complex_bytes,
            threads_per_transform,
            grouped_batch_override,
            axis1_grouped_batch_override,
            device,
        ),
        strided_shape(planned, batch_count, device),
{
    plan_gpu_other_axis_rader_block_from_threads_for_precision(
        logical_len,
        batch_count,
        fastest_axis_len,
        precision,
        complex_bytes,
        threads_per_transform,
        grouped_batch_override,
        axis1_grouped_batch_override,
        device,
    )
}

/// The same, the precision given by its footprint.
pub open spec fn other_axis_composite_block_of_bytes(
    logical_len: usize,
    batch_count: usize,
    fastest_axis_len: usize,
    complex_bytes: usize,
    threads_per_transform: usize,
    grouped_batch_override: Option<usize>,
    axis1_grouped_batch_override: Option<usize>,
    device: DeviceProfile,
) -> PlanResult<Option<StockhamAxisBlockSchedule>> {
    match precision_of_bytes(complex_bytes) {
        None => Ok(None),
        Some(precision) => other_axis_composite_block(
            logical_len,
            batch_count,
            fastest_axis_len,
            precision,
            complex_bytes,
            threads_per_transform,
            grouped_batch_override,
            axis1_grouped_batch_override,
            device,
        ),
    }
}

pub fn plan_gpu_other_axis_composite_rader_batch_block(
    logical_len: usize,
    batch_count: usize,
    fastest_axis_len: usize,
    complex_bytes: usize,
    threads_per_transform: usize,
    grouped_batch_override: Option<usize>,
    axis1_grouped_batch_override: Option<usize>,
    device: DeviceProfile,
) -> (planned: PlanResult<Option<StockhamAxisBlockSchedule>>)
    ensures
        planned == other_axis_composite_block_of_bytes(
            logical_len,
            batch_count,
            fastest_axis_len,
            complex_bytes,
            threads_per_transform,
            grouped_batch_override,
            axis1_grouped_batch_override,
            device,
        ),
        strided_shape(planned, batch_count, device),
{
    let precision: Precision = match precision_of_bytes(complex_bytes) {
        Some(value) => value,
        None => {
            return Ok(None);
        },
    };
    plan_gpu_other_axis_composite_rader_batch_block_for_precision(
        logical_len,
        batch_count,
        fastest_axis_len,
        precision,
        complex_bytes,
        threads_per_transform,
        grouped_batch_override,
        axis1_grouped_batch_override,
        device,
    )
}

/// Lanes of a prime that is the whole transform and convolved directly: those of its
/// registers rounded up to whole lane groups.
#[verifier::opaque]
pub open spec fn direct_prime_threads(
    prime: usize,
    min_registers_per_thread: usize,
    operation: &'static str,
) -> PlanResult<usize> {
    let lanes = half_up(prime);
    match ceil_div(prime, min_registers_per_thread) {
        Err(error) => Err(error),
        Ok(initial) => match ceil_div(umax(initial, 1), lanes) {
            Err(error) => Err(error),
            Ok(groups) => match checked_mul(groups, lanes, operation) {
                Err(error) => Err(error),
                Ok(aligned) => Ok(umax(aligned, lanes)),
            },
        },
    }
}

fn align_direct_prime_threads(
    prime: usize,
    min_registers_per_thread: usize,
    operation: &'static str,
) -> (planned: PlanResult<usize>)
    ensures
        planned == direct_prime_threads(prime, min_registers_per_thread, operation),
{
    reveal(direct_prime_threads);
    let lanes: usize = half_up(prime);
    let initial: usize = ceil_div(prime, min_registers_per_thread)?;
    let groups: usize = ceil_div(umax(initial, 1), lanes)?;
    let aligned: usize = checked_mul(groups, lanes, operation)?;
    Ok(umax(aligned, lanes))
}

/// The workgroup of a directly convolved prime along a higher axis.
#[verifier::opaque]
pub open spec fn other_axis_direct_block(
    prime: usize,
    batch_count: usize,
    fastest_axis_len: usize,
    precision: Precision,
    complex_bytes: usize,
    grouped_batch_override: Option<usize>,
    axis1_grouped_batch_override: Option<usize>,
    device: DeviceProfile,
) -> PlanResult<Option<StockhamAxisBlockSchedule>> {
    if prime < 3 || batch_count == 0 {
        Ok(None)
    } else {
        match outer_state(prime, 1, batch_count) {
            Err(error) => Err(error),
            Ok((_outer, _most, least)) => if least == 0 {
                Ok(None)
            } else {
                match direct_prime_threads(
                    prime,
                    least,
                    "higher-axis direct Rader thread alignment",
                ) {
                    Err(error) => Err(error),
                    Ok(threads) => other_axis_rader_block(
                        prime,
                        batch_count,
                        fastest_axis_len,
                        precision,
                        complex_bytes,
                        threads,
                        grouped_batch_override,
                        axis1_grouped_batch_override,
                        device,
                    ),
                }
            },
        }
    }
}

pub fn plan_gpu_other_axis_direct_rader_batch_block_for_precision(
    prime: usize,
    batch_count: usize,
    fastest_axis_len: usize,
    precision: Precision,
    complex_bytes: usize,
    grouped_batch_override: Option<usize>,
    axis1_grouped_batch_override: Option<usize>,
    device: DeviceProfile,
) -> (planned: PlanResult<Option<StockhamAxisBlockSchedule>>)
    ensures
        planned == other_axis_direct_block(
            prime,
            batch_count,
            fastest_axis_len,
            precision,
            complex_bytes,
            grouped_batch_override,
            axis1_grouped_batch_override,
            device,
        ),
        strided_shape(planned, batch_count, device),
{
    reveal(other_axis_direct_block);
    if prime < 3 || batch_count == 0 {
        return Ok(None);
    }
    let (_outer, _most, least) = rader_outer_register_state(prime, 1, batch_count)?;
    if least == 0 {
        return Ok(None);
    }
    let threads: usize = align_direct_prime_threads(
        prime,
        least,
        "higher-axis direct Rader thread alignment",
    )?;
    plan_gpu_other_axis_rader_block_from_threads_for_precision(
        prime,
        batch_count,
        fastest_axis_len,
        precision,
        complex_bytes,
        threads,
        grouped_batch_override,
        axis1_grouped_batch_override,
        device,
    )
}

/// The same, the precision given by its footprint.
pub open spec fn other_axis_direct_block_of_bytes(
    prime: usize,
    batch_count: usize,
    fastest_axis_len: usize,
    complex_bytes: usize,
    grouped_batch_override: Option<usize>,
    axis1_grouped_batch_override: Option<usize>,
    device: DeviceProfile,
) -> PlanResult<Option<StockhamAxisBlockSchedule>> {
    match precision_of_bytes(complex_bytes) {
        None => Ok(None),
        Some(precision) => other_axis_direct_block(
            prime,
            batch_count,
            fastest_axis_len,
            precision,
            complex_bytes,
            grouped_batch_override,
            axis1_grouped_batch_override,
            device,
        ),
    }
}

pub fn plan_gpu_other_axis_direct_rader_batch_block(
    prime: usize,
    batch_count: usize,
    fastest_axis_len: usize,
    complex_bytes: usize,
    grouped_batch_override: Option<usize>,
    axis1_grouped_batch_override: Option<usize>,
    device: DeviceProfile,
) -> (planned: PlanResult<Option<StockhamAxisBlockSchedule>>)
    ensures
        planned == other_axis_direct_block_of_bytes(
            prime,
            batch_count,
            fastest_axis_len,
            complex_bytes,
            grouped_batch_override,
            axis1_grouped_batch_override,
            device,
        ),
        strided_shape(planned, batch_count, device),
{
    let precision: Precision = match precision_of_bytes(complex_bytes) {
        Some(value) => value,
        None => {
            return Ok(None);
        },
    };
    plan_gpu_other_axis_direct_rader_batch_block_for_precision(
        prime,
        batch_count,
        fastest_axis_len,
        precision,
        complex_bytes,
        grouped_batch_override,
        axis1_grouped_batch_override,
        device,
    )
}

/// Whether a register plan is of this prime alone, for this batch.
pub open spec fn plans_prime_alone(
    schedule: RaderFftRegisterModel,
    prime: usize,
    batch_count: usize,
) -> bool {
    &&& prime >= 3
    &&& schedule.prime == prime
    &&& schedule.outer_fft_len == prime
    &&& schedule.container_fft_num == 1
    &&& schedule.execution_container_fft_num == 1
    &&& schedule.internal_fft.rhs_transform_count == batch_count
    &&& schedule.internal_fft.register_boost == 1
}

fn is_plan_of_prime(
    schedule: &RaderFftRegisterSchedule,
    prime: usize,
    batch_count: usize,
) -> (alone: bool)
    ensures
        alone == plans_prime_alone(schedule@, prime, batch_count),
{
    prime >= 3 && schedule.prime == prime && schedule.outer_fft_len == prime
        && schedule.container_fft_num == 1 && schedule.execution_container_fft_num == 1
        && schedule.internal_fft.rhs_transform_count == batch_count
        && schedule.internal_fft.register_boost == 1
}

/// The workgroup of a prime convolved by transforms, along a higher axis.
#[verifier::opaque]
pub open spec fn other_axis_fft_block(
    prime: usize,
    batch_count: usize,
    fastest_axis_len: usize,
    schedule: RaderFftRegisterModel,
    precision: Precision,
    complex_bytes: usize,
    grouped_batch_override: Option<usize>,
    axis1_grouped_batch_override: Option<usize>,
    device: DeviceProfile,
) -> PlanResult<Option<StockhamAxisBlockSchedule>> {
    match schedule.checked() {
        Err(error) => Err(error),
        Ok(_checked) => if batch_count == 0 || !plans_prime_alone(schedule, prime, batch_count) {
            Ok(None)
        } else {
            match scheduler_policy(precision, device) {
                Err(error) => Err(error),
                Ok(policy) => {
                    let coalesced = umax(quotient(policy.coalesced_memory_bytes, complex_bytes), 1);
                    let primes = once(prime);
                    match fft_parent(
                        prime,
                        primes,
                        batch_count,
                        coalesced,
                        false,
                        portable(),
                        device,
                    ) {
                        Err(error) => Err(error),
                        Ok(None) => Ok(None),
                        Ok(Some(parent)) => other_axis_rader_block(
                            prime,
                            batch_count,
                            fastest_axis_len,
                            precision,
                            complex_bytes,
                            umax(parent.threads_per_transform, 1),
                            grouped_batch_override,
                            axis1_grouped_batch_override,
                            device,
                        ),
                    }
                },
            }
        },
    }
}

pub fn plan_gpu_other_axis_fft_rader_batch_block_for_precision(
    prime: usize,
    batch_count: usize,
    fastest_axis_len: usize,
    schedule: &RaderFftRegisterSchedule,
    precision: Precision,
    complex_bytes: usize,
    grouped_batch_override: Option<usize>,
    axis1_grouped_batch_override: Option<usize>,
    device: DeviceProfile,
) -> (planned: PlanResult<Option<StockhamAxisBlockSchedule>>)
    ensures
        planned == other_axis_fft_block(
            prime,
            batch_count,
            fastest_axis_len,
            schedule@,
            precision,
            complex_bytes,
            grouped_batch_override,
            axis1_grouped_batch_override,
            device,
        ),
        strided_shape(planned, batch_count, device),
{
    reveal(other_axis_fft_block);
    let _checked: () = schedule.validate()?;
    if batch_count == 0 || !is_plan_of_prime(schedule, prime, batch_count) {
        return Ok(None);
    }
    let policy: GpuSchedulerPolicy = plan_gpu_scheduler_policy(precision, device)?;
    let coalesced: usize = umax(quotient(policy.coalesced_memory_bytes, complex_bytes), 1);
    let primes: Vec<(usize, usize)> = single_pair(prime);
    let parent: MultiFftRaderParentSchedule =
        match plan_gpu_axis0_multi_fft_rader_parent_schedule_with_max_batch_coalesced(
        prime,
        primes.as_slice(),
        batch_count,
        coalesced,
        false,
        portable_tuning(),
        device,
    ) {
        Ok(Some(value)) => value,
        Ok(None) => {
            return Ok(None);
        },
        Err(error) => {
            return Err(error);
        },
    };
    plan_gpu_other_axis_rader_block_from_threads_for_precision(
        prime,
        batch_count,
        fastest_axis_len,
        precision,
        complex_bytes,
        umax(parent.threads_per_transform, 1),
        grouped_batch_override,
        axis1_grouped_batch_override,
        device,
    )
}

/// The same, the precision given by its footprint.
pub open spec fn other_axis_fft_block_of_bytes(
    prime: usize,
    batch_count: usize,
    fastest_axis_len: usize,
    schedule: RaderFftRegisterModel,
    complex_bytes: usize,
    grouped_batch_override: Option<usize>,
    axis1_grouped_batch_override: Option<usize>,
    device: DeviceProfile,
) -> PlanResult<Option<StockhamAxisBlockSchedule>> {
    match ordinary_precision_of_bytes(complex_bytes) {
        None => Ok(None),
        Some(precision) => other_axis_fft_block(
            prime,
            batch_count,
            fastest_axis_len,
            schedule,
            precision,
            complex_bytes,
            grouped_batch_override,
            axis1_grouped_batch_override,
            device,
        ),
    }
}

pub fn plan_gpu_other_axis_fft_rader_batch_block(
    prime: usize,
    batch_count: usize,
    fastest_axis_len: usize,
    schedule: &RaderFftRegisterSchedule,
    complex_bytes: usize,
    grouped_batch_override: Option<usize>,
    axis1_grouped_batch_override: Option<usize>,
    device: DeviceProfile,
) -> (planned: PlanResult<Option<StockhamAxisBlockSchedule>>)
    ensures
        planned == other_axis_fft_block_of_bytes(
            prime,
            batch_count,
            fastest_axis_len,
            schedule@,
            complex_bytes,
            grouped_batch_override,
            axis1_grouped_batch_override,
            device,
        ),
        strided_shape(planned, batch_count, device),
{
    let precision: Precision = match ordinary_precision_of_bytes(complex_bytes) {
        Some(value) => value,
        None => {
            return Ok(None);
        },
    };
    plan_gpu_other_axis_fft_rader_batch_block_for_precision(
        prime,
        batch_count,
        fastest_axis_len,
        schedule,
        precision,
        complex_bytes,
        grouped_batch_override,
        axis1_grouped_batch_override,
        device,
    )
}

fn limit_tuning(tuning: PlannerTuning, device: DeviceProfile) -> (limited: PlannerTuning)
    ensures
        limited == upstream_effective_tuning(tuning, device),
{
    upstream_effective_rader_tuning(tuning, device, Precision::DoubleDouble)
}

/// The workgroup of a double-double prime convolved by transforms, along a higher axis.
#[verifier::opaque]
pub open spec fn double_double_other_axis_fft_block(
    prime: usize,
    batch_count: usize,
    fastest_axis_len: usize,
    grouped_batch_override: Option<usize>,
    axis1_grouped_batch_override: Option<usize>,
    tuning: PlannerTuning,
    device: DeviceProfile,
) -> PlanResult<Option<StockhamAxisBlockSchedule>> {
    if prime < 3 || batch_count == 0 {
        Ok(None)
    } else {
        let primes = once(prime);
        match double_double_fft_threads_tuned(
            prime,
            primes,
            batch_count,
            upstream_effective_tuning(tuning, device),
            device,
        ) {
            Err(error) => Err(error),
            Ok(None) => Ok(None),
            Ok(Some(threads)) => other_axis_rader_block_of_bytes(
                prime,
                batch_count,
                fastest_axis_len,
                DD_COMPLEX_BYTES,
                threads,
                grouped_batch_override,
                axis1_grouped_batch_override,
                device,
            ),
        }
    }
}

pub fn plan_gpu_double_double_other_axis_fft_rader_batch_block_with_tuning(
    prime: usize,
    batch_count: usize,
    fastest_axis_len: usize,
    grouped_batch_override: Option<usize>,
    axis1_grouped_batch_override: Option<usize>,
    tuning: PlannerTuning,
    device: DeviceProfile,
) -> (planned: PlanResult<Option<StockhamAxisBlockSchedule>>)
    ensures
        planned == double_double_other_axis_fft_block(
            prime,
            batch_count,
            fastest_axis_len,
            grouped_batch_override,
            axis1_grouped_batch_override,
            tuning,
            device,
        ),
        strided_shape(planned, batch_count, device),
{
    reveal(double_double_other_axis_fft_block);
    if prime < 3 || batch_count == 0 {
        return Ok(None);
    }
    let primes: Vec<(usize, usize)> = single_pair(prime);
    let threads: usize =
        match plan_gpu_double_double_axis0_fft_rader_threads_for_prime_multiplicities_with_tuning(
        prime,
        primes.as_slice(),
        batch_count,
        limit_tuning(tuning, device),
        device,
    ) {
        Ok(Some(value)) => value,
        Ok(None) => {
            return Ok(None);
        },
        Err(error) => {
            return Err(error);
        },
    };
    plan_gpu_other_axis_rader_block_from_threads(
        prime,
        batch_count,
        fastest_axis_len,
        DD_COMPLEX_BYTES,
        threads,
        grouped_batch_override,
        axis1_grouped_batch_override,
        device,
    )
}

/// The same under the portable tuning.
pub open spec fn double_double_other_axis_fft_block_portable(
    prime: usize,
    batch_count: usize,
    fastest_axis_len: usize,
    grouped_batch_override: Option<usize>,
    axis1_grouped_batch_override: Option<usize>,
    device: DeviceProfile,
) -> PlanResult<Option<StockhamAxisBlockSchedule>> {
    double_double_other_axis_fft_block(
        prime,
        batch_count,
        fastest_axis_len,
        grouped_batch_override,
        axis1_grouped_batch_override,
        portable(),
        device,
    )
}

pub fn plan_gpu_double_double_other_axis_fft_rader_batch_block(
    prime: usize,
    batch_count: usize,
    fastest_axis_len: usize,
    grouped_batch_override: Option<usize>,
    axis1_grouped_batch_override: Option<usize>,
    device: DeviceProfile,
) -> (planned: PlanResult<Option<StockhamAxisBlockSchedule>>)
    ensures
        planned == double_double_other_axis_fft_block_portable(
            prime,
            batch_count,
            fastest_axis_len,
            grouped_batch_override,
            axis1_grouped_batch_override,
            device,
        ),
        strided_shape(planned, batch_count, device),
{
    plan_gpu_double_double_other_axis_fft_rader_batch_block_with_tuning(
        prime,
        batch_count,
        fastest_axis_len,
        grouped_batch_override,
        axis1_grouped_batch_override,
        portable_tuning(),
        device,
    )
}

/// The automatic group of a Rader prime that is the whole transform: narrow transforms
/// are grouped to the aimed lane count, to a power of two where the dimensions are
/// exchanged.
#[verifier::opaque]
pub open spec fn automatic_rader_group(
    prime: usize,
    batch_count: usize,
    threads: usize,
    warp: usize,
    coalesced: usize,
    shared_pow2: usize,
    perform_zero_padding: bool,
    device: DeviceProfile,
) -> usize {
    let estimated = if threads < AIM_THREADS { estimate_batch(threads, warp) } else { 1 };
    let bounded = umax(umin(estimated, batch_count), 1);
    let rounded = if swaps_axes(prime, threads, bounded, shared_pow2, perform_zero_padding, device) {
        umin(power_of_two_above(bounded), batch_count)
    } else {
        bounded
    };
    vendor_shrunk(rounded, threads, coalesced, device)
}

fn choose_automatic_rader_group(
    prime: usize,
    batch_count: usize,
    threads: usize,
    warp: usize,
    coalesced: usize,
    shared_pow2: usize,
    perform_zero_padding: bool,
    device: DeviceProfile,
) -> (planned: usize)
    ensures
        planned == automatic_rader_group(
            prime,
            batch_count,
            threads,
            warp,
            coalesced,
            shared_pow2,
            perform_zero_padding,
            device,
        ),
{
    reveal(automatic_rader_group);
    let estimated: usize = if threads < AIM_THREADS { estimate_batch(threads, warp) } else { 1 };
    let bounded: usize = umax(umin(estimated, batch_count), 1);
    let rounded: usize = if should_swap_axes(
        prime,
        threads,
        bounded,
        shared_pow2,
        perform_zero_padding,
        device,
    ) {
        umin(power_of_two_above(bounded), batch_count)
    } else {
        bounded
    };
    shrink_for_vendor(rounded, threads, coalesced, device)
}

/// The group a caller asked for: at most what shared memory holds, or a single transform
/// where that exceeds the lanes of a workgroup.
#[verifier::opaque]
pub open spec fn requested_direct_group(
    prime: usize,
    batch_count: usize,
    threads: usize,
    shared: usize,
    coalesced: usize,
    requested: usize,
    device: DeviceProfile,
) -> usize {
    let held = umax(quotient(shared, prime), coalesced);
    let kept = if product_within(threads, held, device.max_threads_per_block) { held } else { 1 };
    umax(umin(umin(kept, requested), batch_count), 1)
}

fn choose_requested_direct_group(
    prime: usize,
    batch_count: usize,
    threads: usize,
    shared: usize,
    coalesced: usize,
    requested: usize,
    device: DeviceProfile,
) -> (planned: usize)
    ensures
        planned == requested_direct_group(
            prime,
            batch_count,
            threads,
            shared,
            coalesced,
            requested,
            device,
        ),
{
    reveal(requested_direct_group);
    let held: usize = umax(quotient(shared, prime), coalesced);
    let kept: usize = if product_within(threads, held, device.max_threads_per_block) {
        held
    } else {
        1
    };
    umax(umin(umin(kept, requested), batch_count), 1)
}

/// The workgroup of a directly convolved prime along the fastest axis.
#[verifier::opaque]
pub open spec fn axis0_direct_block(
    prime: usize,
    batch_count: usize,
    complex_bytes: usize,
    perform_zero_padding: bool,
    grouped_batch_override: Option<usize>,
    device: DeviceProfile,
) -> PlanResult<Option<StockhamAxisBlockSchedule>> {
    if prime < 3
        || batch_count == 0
        || complex_bytes == 0
        || device.max_threads_per_block == 0
        || device.max_workgroup_size[0] == 0
        || device.max_workgroup_size[1] == 0 {
        Ok(None)
    } else {
        match precision_of_bytes(complex_bytes) {
            None => Ok(None),
            Some(precision) => match scheduler_policy(precision, device) {
                Err(error) => Err(error),
                Ok(policy) => match outer_state(prime, 1, batch_count) {
                    Err(error) => Err(error),
                    Ok((_outer, _most, least)) => if least == 0 {
                        Ok(None)
                    } else {
                        match direct_prime_threads(
                            prime,
                            least,
                            "direct Rader axis-block thread alignment",
                        ) {
                            Err(error) => Err(error),
                            Ok(threads) => if threads > device.max_threads_per_block
                                || threads > device.max_workgroup_size[0] {
                                Ok(None)
                            } else {
                                let shared = device.shared_memory_bytes / complex_bytes;
                                let shared_pow2 = device.shared_memory_pow2_bytes / complex_bytes;
                                if shared == 0 || shared_pow2 == 0 {
                                    Ok(None)
                                } else {
                                    let coalesced = umax(
                                        policy.coalesced_memory_bytes / complex_bytes,
                                        1,
                                    );
                                    let automatic = automatic_rader_group(
                                        prime,
                                        batch_count,
                                        threads,
                                        umax(policy.subgroup_width, 1),
                                        coalesced,
                                        shared_pow2,
                                        perform_zero_padding,
                                        device,
                                    );
                                    let requested = requested_direct_group(
                                        prime,
                                        batch_count,
                                        threads,
                                        shared,
                                        coalesced,
                                        value_or(grouped_batch_override, 0),
                                        device,
                                    );
                                    let wanted = if grouped_batch_override.is_some() {
                                        requested
                                    } else {
                                        automatic
                                    };
                                    let grouped = limited_group(
                                        wanted,
                                        threads,
                                        prime,
                                        shared,
                                        device,
                                    );
                                    let swapped = swaps_axes(
                                        prime,
                                        threads,
                                        grouped,
                                        shared,
                                        perform_zero_padding,
                                        device,
                                    );
                                    Ok(
                                        swappable_block(
                                            grouped,
                                            threads,
                                            swapped,
                                            batch_count,
                                            device,
                                        ),
                                    )
                                }
                            },
                        }
                    },
                },
            },
        }
    }
}

pub fn plan_gpu_axis0_direct_rader_batch_block(
    prime: usize,
    batch_count: usize,
    complex_bytes: usize,
    perform_zero_padding: bool,
    grouped_batch_override: Option<usize>,
    device: DeviceProfile,
) -> (planned: PlanResult<Option<StockhamAxisBlockSchedule>>)
    ensures
        planned == axis0_direct_block(
            prime,
            batch_count,
            complex_bytes,
            perform_zero_padding,
            grouped_batch_override,
            device,
        ),
        contiguous_shape(planned, batch_count, device, perform_zero_padding),
{
    reveal(axis0_direct_block);
    if prime < 3
        || batch_count == 0
        || complex_bytes == 0
        || device.max_threads_per_block == 0
        || device.max_workgroup_size[0] == 0
        || device.max_workgroup_size[1] == 0 {
        return Ok(None);
    }
    let precision: Precision = match precision_of_bytes(complex_bytes) {
        Some(value) => value,
        None => {
            return Ok(None);
        },
    };
    let policy: GpuSchedulerPolicy = plan_gpu_scheduler_policy(precision, device)?;
    let (_outer, _most, least) = rader_outer_register_state(prime, 1, batch_count)?;
    if least == 0 {
        return Ok(None);
    }
    let threads: usize = align_direct_prime_threads(
        prime,
        least,
        "direct Rader axis-block thread alignment",
    )?;
    if threads > device.max_threads_per_block || threads > device.max_workgroup_size[0] {
        return Ok(None);
    }
    let shared: usize = device.shared_memory_bytes / complex_bytes;
    let shared_pow2: usize = device.shared_memory_pow2_bytes / complex_bytes;
    if shared == 0 || shared_pow2 == 0 {
        return Ok(None);
    }
    let coalesced: usize = umax(policy.coalesced_memory_bytes / complex_bytes, 1);
    let automatic: usize = choose_automatic_rader_group(
        prime,
        batch_count,
        threads,
        umax(policy.subgroup_width, 1),
        coalesced,
        shared_pow2,
        perform_zero_padding,
        device,
    );
    let requested: usize = choose_requested_direct_group(
        prime,
        batch_count,
        threads,
        shared,
        coalesced,
        value_or(grouped_batch_override, 0),
        device,
    );
    let wanted: usize = if grouped_batch_override.is_some() { requested } else { automatic };
    let grouped: usize = limit_group(wanted, threads, prime, shared, device);
    let swapped: bool = should_swap_axes(
        prime,
        threads,
        grouped,
        shared,
        perform_zero_padding,
        device,
    );
    Ok(block_swappable(grouped, threads, swapped, batch_count, device))
}

/// The workgroup of a prime convolved by transforms, along the fastest axis. `None` where
/// it would say nothing beyond the plan of the convolution itself.
#[verifier::opaque]
pub open spec fn axis0_fft_block(
    prime: usize,
    batch_count: usize,
    schedule: RaderFftRegisterModel,
    precision: Precision,
    complex_bytes: usize,
    perform_zero_padding: bool,
    grouped_batch_override: Option<usize>,
    device: DeviceProfile,
) -> PlanResult<Option<StockhamAxisBlockSchedule>> {
    match schedule.checked() {
        Err(error) => Err(error),
        Ok(_checked) => if precision.compute_complex_bytes() != complex_bytes
            || !plans_prime_alone(schedule, prime, batch_count)
            || schedule.rader_transpose.is_some()
            || device.max_threads_per_block == 0
            || device.max_workgroup_size[0] == 0
            || device.max_workgroup_size[1] == 0 {
            Ok(None)
        } else {
            match scheduler_policy(precision, device) {
                Err(error) => Err(error),
                Ok(policy) => {
                    let primes = once(prime);
                    match fft_threads(prime, primes, batch_count, device) {
                        Err(error) => Err(error),
                        Ok(None) => Ok(None),
                        Ok(Some(parent_threads)) => {
                            let threads = umax(
                                umax(parent_threads, schedule.min_rader_fft_thread_num),
                                1,
                            );
                            if threads > device.max_threads_per_block
                                || threads > device.max_workgroup_size[0] {
                                Ok(None)
                            } else {
                                let coalesced = umax(
                                    policy.coalesced_memory_bytes / complex_bytes,
                                    1,
                                );
                                let shared = device.shared_memory_bytes / complex_bytes;
                                let shared_pow2 = device.shared_memory_pow2_bytes / complex_bytes;
                                if shared == 0 || shared_pow2 == 0 {
                                    Ok(None)
                                } else {
                                    let automatic = automatic_rader_group(
                                        prime,
                                        batch_count,
                                        threads,
                                        umax(policy.subgroup_width, 1),
                                        coalesced,
                                        shared_pow2,
                                        perform_zero_padding,
                                        device,
                                    );
                                    let wanted = if grouped_batch_override.is_some() {
                                        requested_group(
                                            prime,
                                            shared,
                                            coalesced,
                                            value_or(grouped_batch_override, 0),
                                            batch_count,
                                        )
                                    } else {
                                        automatic
                                    };
                                    let grouped = limited_group(
                                        wanted,
                                        threads,
                                        prime,
                                        shared,
                                        device,
                                    );
                                    if grouped <= 1
                                        && threads == schedule.execution_threads_per_workgroup {
                                        Ok(None)
                                    } else {
                                        let swapped = swaps_axes(
                                            prime,
                                            threads,
                                            grouped,
                                            shared,
                                            perform_zero_padding,
                                            device,
                                        );
                                        Ok(
                                            swappable_block(
                                                grouped,
                                                threads,
                                                swapped,
                                                batch_count,
                                                device,
                                            ),
                                        )
                                    }
                                }
                            }
                        },
                    }
                },
            }
        },
    }
}

pub fn plan_gpu_axis0_fft_rader_batch_block_with_grouped_batch_for_precision(
    prime: usize,
    batch_count: usize,
    schedule: &RaderFftRegisterSchedule,
    precision: Precision,
    complex_bytes: usize,
    perform_zero_padding: bool,
    grouped_batch_override: Option<usize>,
    device: DeviceProfile,
) -> (planned: PlanResult<Option<StockhamAxisBlockSchedule>>)
    ensures
        planned == axis0_fft_block(
            prime,
            batch_count,
            schedule@,
            precision,
            complex_bytes,
            perform_zero_padding,
            grouped_batch_override,
            device,
        ),
        contiguous_shape(planned, batch_count, device, perform_zero_padding),
{
    reveal(axis0_fft_block);
    let _checked: () = schedule.validate()?;
    if precision.compute_complex_bytes() != complex_bytes
        || !is_plan_of_prime(schedule, prime, batch_count)
        || schedule.rader_transpose.is_some()
        || device.max_threads_per_block == 0
        || device.max_workgroup_size[0] == 0
        || device.max_workgroup_size[1] == 0 {
        return Ok(None);
    }
    let policy: GpuSchedulerPolicy = plan_gpu_scheduler_policy(precision, device)?;
    let primes: Vec<(usize, usize)> = single_pair(prime);
    let parent_threads: usize =
        match plan_gpu_axis0_multi_fft_rader_threads_for_prime_multiplicities(
        prime,
        primes.as_slice(),
        batch_count,
        device,
    ) {
        Ok(Some(value)) => value,
        Ok(None) => {
            return Ok(None);
        },
        Err(error) => {
            return Err(error);
        },
    };
    let threads: usize = umax(umax(parent_threads, schedule.min_rader_fft_thread_num), 1);
    if threads > device.max_threads_per_block || threads > device.max_workgroup_size[0] {
        return Ok(None);
    }
    let coalesced: usize = umax(policy.coalesced_memory_bytes / complex_bytes, 1);
    let shared: usize = device.shared_memory_bytes / complex_bytes;
    let shared_pow2: usize = device.shared_memory_pow2_bytes / complex_bytes;
    if shared == 0 || shared_pow2 == 0 {
        return Ok(None);
    }
    let automatic: usize = choose_automatic_rader_group(
        prime,
        batch_count,
        threads,
        umax(policy.subgroup_width, 1),
        coalesced,
        shared_pow2,
        perform_zero_padding,
        device,
    );
    let wanted: usize = if grouped_batch_override.is_some() {
        requested_group(prime, shared, coalesced, value_or(grouped_batch_override, 0), batch_count)
    } else {
        automatic
    };
    let grouped: usize = limit_group(wanted, threads, prime, shared, device);
    if grouped <= 1 && threads == schedule.execution_threads_per_workgroup {
        return Ok(None);
    }
    let swapped: bool = should_swap_axes(
        prime,
        threads,
        grouped,
        shared,
        perform_zero_padding,
        device,
    );
    Ok(block_swappable(grouped, threads, swapped, batch_count, device))
}

/// The same, the precision given by its footprint.
pub open spec fn axis0_fft_block_of_bytes(
    prime: usize,
    batch_count: usize,
    schedule: RaderFftRegisterModel,
    complex_bytes: usize,
    perform_zero_padding: bool,
    grouped_batch_override: Option<usize>,
    device: DeviceProfile,
) -> PlanResult<Option<StockhamAxisBlockSchedule>> {
    match ordinary_precision_of_bytes(complex_bytes) {
        None => Ok(None),
        Some(precision) => axis0_fft_block(
            prime,
            batch_count,
            schedule,
            precision,
            complex_bytes,
            perform_zero_padding,
            grouped_batch_override,
            device,
        ),
    }
}

pub fn plan_gpu_axis0_fft_rader_batch_block_with_grouped_batch(
    prime: usize,
    batch_count: usize,
    schedule: &RaderFftRegisterSchedule,
    complex_bytes: usize,
    perform_zero_padding: bool,
    grouped_batch_override: Option<usize>,
    device: DeviceProfile,
) -> (planned: PlanResult<Option<StockhamAxisBlockSchedule>>)
    ensures
        planned == axis0_fft_block_of_bytes(
            prime,
            batch_count,
            schedule@,
            complex_bytes,
            perform_zero_padding,
            grouped_batch_override,
            device,
        ),
        contiguous_shape(planned, batch_count, device, perform_zero_padding),
{
    let precision: Precision = match ordinary_precision_of_bytes(complex_bytes) {
        Some(value) => value,
        None => {
            return Ok(None);
        },
    };
    plan_gpu_axis0_fft_rader_batch_block_with_grouped_batch_for_precision(
        prime,
        batch_count,
        schedule,
        precision,
        complex_bytes,
        perform_zero_padding,
        grouped_batch_override,
        device,
    )
}

/// The same with the automatic group.
pub open spec fn axis0_fft_block_automatic(
    prime: usize,
    batch_count: usize,
    schedule: RaderFftRegisterModel,
    complex_bytes: usize,
    perform_zero_padding: bool,
    device: DeviceProfile,
) -> PlanResult<Option<StockhamAxisBlockSchedule>> {
    axis0_fft_block_of_bytes(
        prime,
        batch_count,
        schedule,
        complex_bytes,
        perform_zero_padding,
        None,
        device,
    )
}

pub fn plan_gpu_axis0_fft_rader_batch_block(
    prime: usize,
    batch_count: usize,
    schedule: &RaderFftRegisterSchedule,
    complex_bytes: usize,
    perform_zero_padding: bool,
    device: DeviceProfile,
) -> (planned: PlanResult<Option<StockhamAxisBlockSchedule>>)
    ensures
        planned == axis0_fft_block_automatic(
            prime,
            batch_count,
            schedule@,
            complex_bytes,
            perform_zero_padding,
            device,
        ),
        contiguous_shape(planned, batch_count, device, perform_zero_padding),
{
    plan_gpu_axis0_fft_rader_batch_block_with_grouped_batch(
        prime,
        batch_count,
        schedule,
        complex_bytes,
        perform_zero_padding,
        None,
        device,
    )
}

/// The workgroup a caller asked for of a double-double prime convolved by transforms,
/// along the fastest axis. `None` unless it groups several transforms.
#[verifier::opaque]
pub open spec fn double_double_axis0_fft_user_block(
    prime: usize,
    batch_count: usize,
    grouped_batch_override: Option<usize>,
    perform_zero_padding: bool,
    tuning: PlannerTuning,
    device: DeviceProfile,
) -> PlanResult<Option<StockhamAxisBlockSchedule>> {
    let requested = value_or(grouped_batch_override, 0);
    if requested <= 1
        || prime < 3
        || batch_count == 0
        || device.max_threads_per_block == 0
        || device.max_workgroup_size[0] == 0
        || device.max_workgroup_size[1] == 0 {
        Ok(None)
    } else {
        match scheduler_policy(Precision::DoubleDouble, device) {
            Err(VkFftError::UnsupportedKernelPath(_)) => Ok(None),
            Err(error) => Err(error),
            Ok(policy) => {
                let primes = once(prime);
                match double_double_fft_threads_tuned(
                    prime,
                    primes,
                    batch_count,
                    upstream_effective_tuning(tuning, device),
                    device,
                ) {
                    Err(error) => Err(error),
                    Ok(None) => Ok(None),
                    Ok(Some(threads)) => {
                        let shared = device.shared_memory_bytes / DD_COMPLEX_BYTES;
                        if threads > device.max_threads_per_block || shared == 0 {
                            Ok(None)
                        } else {
                            let coalesced = umax(
                                policy.coalesced_memory_bytes / DD_COMPLEX_BYTES,
                                1,
                            );
                            let wanted = requested_group(
                                prime,
                                shared,
                                coalesced,
                                requested,
                                batch_count,
                            );
                            let grouped = limited_group(wanted, threads, prime, shared, device);
                            if grouped <= 1 {
                                Ok(None)
                            } else {
                                let swapped = swaps_axes(
                                    prime,
                                    threads,
                                    grouped,
                                    shared,
                                    perform_zero_padding,
                                    device,
                                );
                                Ok(swappable_block(grouped, threads, swapped, batch_count, device))
                            }
                        }
                    },
                }
            },
        }
    }
}

pub fn plan_gpu_double_double_axis0_fft_rader_user_grouped_batch_block_with_zero_padding_and_tuning(
    prime: usize,
    batch_count: usize,
    grouped_batch_override: Option<usize>,
    perform_zero_padding: bool,
    tuning: PlannerTuning,
    device: DeviceProfile,
) -> (planned: PlanResult<Option<StockhamAxisBlockSchedule>>)
    ensures
        planned == double_double_axis0_fft_user_block(
            prime,
            batch_count,
            grouped_batch_override,
            perform_zero_padding,
            tuning,
            device,
        ),
        contiguous_shape(planned, batch_count, device, perform_zero_padding),
{
    reveal(double_double_axis0_fft_user_block);
    let requested: usize = value_or(grouped_batch_override, 0);
    if requested <= 1
        || prime < 3
        || batch_count == 0
        || device.max_threads_per_block == 0
        || device.max_workgroup_size[0] == 0
        || device.max_workgroup_size[1] == 0 {
        return Ok(None);
    }
    let policy: GpuSchedulerPolicy = match plan_gpu_scheduler_policy(
        Precision::DoubleDouble,
        device,
    ) {
        Ok(value) => value,
        Err(VkFftError::UnsupportedKernelPath(_)) => {
            return Ok(None);
        },
        Err(error) => {
            return Err(error);
        },
    };
    let primes: Vec<(usize, usize)> = single_pair(prime);
    let threads: usize =
        match plan_gpu_double_double_axis0_fft_rader_threads_for_prime_multiplicities_with_tuning(
        prime,
        primes.as_slice(),
        batch_count,
        limit_tuning(tuning, device),
        device,
    ) {
        Ok(Some(value)) => value,
        Ok(None) => {
            return Ok(None);
        },
        Err(error) => {
            return Err(error);
        },
    };
    let shared: usize = device.shared_memory_bytes / DD_COMPLEX_BYTES;
    if threads > device.max_threads_per_block || shared == 0 {
        return Ok(None);
    }
    let coalesced: usize = umax(policy.coalesced_memory_bytes / DD_COMPLEX_BYTES, 1);
    let wanted: usize = requested_group(prime, shared, coalesced, requested, batch_count);
    let grouped: usize = limit_group(wanted, threads, prime, shared, device);
    if grouped <= 1 {
        return Ok(None);
    }
    let swapped: bool = should_swap_axes(
        prime,
        threads,
        grouped,
        shared,
        perform_zero_padding,
        device,
    );
    Ok(block_swappable(grouped, threads, swapped, batch_count, device))
}

/// The same under the portable tuning.
pub open spec fn double_double_axis0_fft_user_block_portable(
    prime: usize,
    batch_count: usize,
    grouped_batch_override: Option<usize>,
    perform_zero_padding: bool,
    device: DeviceProfile,
) -> PlanResult<Option<StockhamAxisBlockSchedule>> {
    double_double_axis0_fft_user_block(
        prime,
        batch_count,
        grouped_batch_override,
        perform_zero_padding,
        portable(),
        device,
    )
}

pub fn plan_gpu_double_double_axis0_fft_rader_user_grouped_batch_block_with_zero_padding(
    prime: usize,
    batch_count: usize,
    grouped_batch_override: Option<usize>,
    perform_zero_padding: bool,
    device: DeviceProfile,
) -> (planned: PlanResult<Option<StockhamAxisBlockSchedule>>)
    ensures
        planned == double_double_axis0_fft_user_block_portable(
            prime,
            batch_count,
            grouped_batch_override,
            perform_zero_padding,
            device,
        ),
        contiguous_shape(planned, batch_count, device, perform_zero_padding),
{
    plan_gpu_double_double_axis0_fft_rader_user_grouped_batch_block_with_zero_padding_and_tuning(
        prime,
        batch_count,
        grouped_batch_override,
        perform_zero_padding,
        portable_tuning(),
        device,
    )
}

/// The same without zero padding.
pub open spec fn double_double_axis0_fft_user_block_unpadded(
    prime: usize,
    batch_count: usize,
    grouped_batch_override: Option<usize>,
    device: DeviceProfile,
) -> PlanResult<Option<StockhamAxisBlockSchedule>> {
    double_double_axis0_fft_user_block_portable(
        prime,
        batch_count,
        grouped_batch_override,
        false,
        device,
    )
}

pub fn plan_gpu_double_double_axis0_fft_rader_user_grouped_batch_block(
    prime: usize,
    batch_count: usize,
    grouped_batch_override: Option<usize>,
    device: DeviceProfile,
) -> (planned: PlanResult<Option<StockhamAxisBlockSchedule>>)
    ensures
        planned == double_double_axis0_fft_user_block_unpadded(
            prime,
            batch_count,
            grouped_batch_override,
            device,
        ),
        contiguous_shape(planned, batch_count, device, false),
{
    plan_gpu_double_double_axis0_fft_rader_user_grouped_batch_block_with_zero_padding(
        prime,
        batch_count,
        grouped_batch_override,
        false,
        device,
    )
}

} // verus!
