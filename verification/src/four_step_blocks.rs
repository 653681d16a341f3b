//! Workgroup shapes of the uploads of a contiguous axis that one upload does not cover.

use vstd::prelude::*;

use crate::arith::{ceil_div, checked_mul, umax, umin};
use crate::axis_block::{
    adjust_four_step_group, aim_scaled_group, align_group, aligned_group, block_if_checked,
    block_swappable, block_transforms_on_x, estimate_batch, fit_group, four_step_group, group_fit,
    halve_to_fit, halved_group, initial_group, limit_group, limited_group, multiple_of,
    ordinary_precision_of_bytes, power_of_two_above, precision_of_bytes, product_exceeds,
    product_within, quotient, reduce_dimension, reduced_dimension, scale_to_aim, should_swap_axes,
    shrink_for_vendor, strided_shape, swappable_block, swaps_axes, transforms_x_block, axis_upload_shape,
    value_or, vendor_shrunk, StockhamAxisBlockSchedule, AIM_THREADS,
};
use crate::config::{DeviceProfile, Precision};
use crate::direct_rader::{
    axis0_direct_rader_threads_from_split_state, axis0_rader_threads_from_split_state,
    dimension_limit, direct_threads_from_split, threads_from_split, Axis0RaderSplitState,
    RaderSplitModel,
};
use crate::error::{PlanResult, VkFftError};
use crate::policy::{plan_gpu_scheduler_policy, scheduler_policy, GpuSchedulerPolicy};
use crate::splits::has_zero;
use crate::uploads::{strided_capacity, StockhamUploadModel, StockhamUploadSchedule};

verus! {

/// One upload of a contiguous axis: `transform_count` transforms, a whole number for each
/// of `outer_batch_count` batches, that start `stage_start_size` values apart.
#[derive(Debug, Clone, Copy, PartialEq, Eq, Structural)]
pub struct FourStepAxisBlockRequest {
    pub axis_upload_id: usize,
    pub stage_start_size: usize,
    pub transform_count: usize,
    pub outer_batch_count: usize,
    pub perform_zero_padding: bool,
    pub grouped_batch_override: Option<usize>,
}

/// What else bears on the shape of an upload.
#[derive(Debug, Clone, Copy, PartialEq, Eq, Structural)]
pub struct Axis0FourStepPhysicalContext {
    pub use_bluestein_fft: bool,
    pub direct_rader_prime: Option<usize>,
    pub precision: Option<Precision>,
}

/// The model of an optional split state.
pub open spec fn split_view(state: Option<&Axis0RaderSplitState>) -> Option<RaderSplitModel> {
    match state {
        Some(split) => Some(split@),
        None => None,
    }
}

/// The largest prime of a list from index `from` on, and `most`.
pub open spec fn largest_prime_from(
    primes: Seq<(usize, usize)>,
    most: Option<usize>,
    from: int,
) -> Option<usize>
    decreases primes.len() - from,
{
    if from >= primes.len() {
        most
    } else {
        largest_prime_from(
            primes,
            match most {
                Some(prime) => Some(umax(prime, primes[from].0)),
                None => Some(primes[from].0),
            },
            from + 1,
        )
    }
}

/// The largest direct prime of the split state, else the prime of the context.
pub open spec fn direct_prime_of(state: Option<RaderSplitModel>, prime: Option<usize>) -> Option<
    usize,
> {
    match state {
        None => prime,
        Some(split) => match largest_prime_from(split.direct_prime_multiplicities, None, 0) {
            Some(largest) => Some(largest),
            None => prime,
        },
    }
}

fn find_direct_prime(state: Option<&Axis0RaderSplitState>, prime: Option<usize>) -> (found: Option<
    usize,
>)
    ensures
        found == direct_prime_of(split_view(state), prime),
{
    match state {
        None => prime,
        Some(split) => {
            let mut most: Option<usize> = None;
            let mut index: usize = 0;
            while index < split.direct_prime_multiplicities.len()
                invariant
                    index <= split.direct_prime_multiplicities.len(),
                    largest_prime_from(
                        split.direct_prime_multiplicities@,
                        most,
                        index as int,
                    ) == largest_prime_from(split.direct_prime_multiplicities@, None, 0),
                decreases split.direct_prime_multiplicities.len() - index,
            {
                let candidate: usize = split.direct_prime_multiplicities[index].0;
                most = match most {
                    Some(largest) => Some(umax(largest, candidate)),
                    None => Some(candidate),
                };
                index = index + 1;
            }
            match most {
                Some(largest) => Some(largest),
                None => prime,
            }
        },
    }
}

/// Shared memory a direct prime keeps for its multipliers.
pub open spec fn direct_reserve(
    prime: Option<usize>,
    complex_bytes: usize,
    operation: &'static str,
) -> PlanResult<usize> {
    if prime.is_none() {
        Ok(0)
    } else {
        checked_mul(value_or(prime, 0).saturating_sub(1), complex_bytes, operation)
    }
}

fn find_direct_reserve(
    prime: Option<usize>,
    complex_bytes: usize,
    operation: &'static str,
) -> (planned: PlanResult<usize>)
    ensures
        planned == direct_reserve(prime, complex_bytes, operation),
{
    if prime.is_none() {
        return Ok(0);
    }
    checked_mul(value_or(prime, 0).saturating_sub(1), complex_bytes, operation)
}

/// Lanes of the direct primes of one transform, from its split state or given.
pub open spec fn direct_state_threads(
    fft_len: usize,
    state: Option<RaderSplitModel>,
    direct_rader_prime: Option<usize>,
    threads_per_transform: usize,
    max_batch_coalesced: usize,
    thread_limit: usize,
) -> PlanResult<Option<usize>> {
    if state.is_some() {
        state_direct_threads(fft_len, state, max_batch_coalesced, thread_limit)
    } else if direct_rader_prime.is_some() {
        Ok(Some(threads_per_transform))
    } else {
        Ok(None)
    }
}

fn find_direct_state_threads(
    fft_len: usize,
    state: Option<&Axis0RaderSplitState>,
    direct_rader_prime: Option<usize>,
    threads_per_transform: usize,
    max_batch_coalesced: usize,
    thread_limit: usize,
) -> (planned: PlanResult<Option<usize>>)
    ensures
        planned == direct_state_threads(
            fft_len,
            split_view(state),
            direct_rader_prime,
            threads_per_transform,
            max_batch_coalesced,
            thread_limit,
        ),
{
    if state.is_some() {
        return split_direct_threads(fft_len, state, max_batch_coalesced, thread_limit);
    }
    if direct_rader_prime.is_some() {
        return Ok(Some(threads_per_transform));
    }
    Ok(None)
}

/// Lanes of the direct primes of a split state; none without one.
pub open spec fn state_direct_threads(
    fft_len: usize,
    state: Option<RaderSplitModel>,
    max_batch_coalesced: usize,
    thread_limit: usize,
) -> PlanResult<Option<usize>> {
    match state {
        Some(split) => direct_threads_from_split(
            fft_len,
            split,
            max_batch_coalesced,
            thread_limit,
        ),
        None => Ok(None),
    }
}

fn split_direct_threads(
    fft_len: usize,
    state: Option<&Axis0RaderSplitState>,
    max_batch_coalesced: usize,
    thread_limit: usize,
) -> (threads: PlanResult<Option<usize>>)
    ensures
        threads == state_direct_threads(
            fft_len,
            split_view(state),
            max_batch_coalesced,
            thread_limit,
        ),
{
    match state {
        Some(split) => axis0_direct_rader_threads_from_split_state(
            fft_len,
            split,
            max_batch_coalesced,
            thread_limit,
        ),
        None => Ok(None),
    }
}

/// Lanes of one transform: those of its split state, or the given ones without one.
pub open spec fn state_threads(
    fft_len: usize,
    state: Option<RaderSplitModel>,
    threads_per_transform: usize,
    max_batch_coalesced: usize,
    thread_limit: usize,
) -> PlanResult<Option<usize>> {
    match state {
        Some(split) => threads_from_split(fft_len, split, max_batch_coalesced, thread_limit),
        None => Ok(Some(threads_per_transform)),
    }
}

fn find_state_threads(
    fft_len: usize,
    state: Option<&Axis0RaderSplitState>,
    threads_per_transform: usize,
    max_batch_coalesced: usize,
    thread_limit: usize,
) -> (threads: PlanResult<Option<usize>>)
    ensures
        threads == state_threads(
            fft_len,
            split_view(state),
            threads_per_transform,
            max_batch_coalesced,
            thread_limit,
        ),
{
    match state {
        Some(split) => axis0_rader_threads_from_split_state(
            fft_len,
            split,
            max_batch_coalesced,
            thread_limit,
        ),
        None => Ok(Some(threads_per_transform)),
    }
}

/// The group on X of a later upload before its lanes are fitted: scaled to the aimed lane
/// count, at most the distance of the transforms, and shrunk on NVIDIA devices.
#[verifier::opaque]
pub open spec fn later_upload_group(
    fft_len: usize,
    threads: usize,
    grouped: usize,
    coalesced: usize,
    stage_start_size: usize,
    shared: usize,
    operation: &'static str,
    device: DeviceProfile,
) -> PlanResult<usize> {
    match aim_scaled_group(grouped, threads, fft_len, shared, operation) {
        Err(error) => Err(error),
        Ok(scaled) => {
            let bounded = umax(umin(stage_start_size, scaled), 1);
            let shrunk = vendor_shrunk(bounded, threads, coalesced, device);
            Ok(umax(umin(shrunk, device.max_workgroup_size[0]), 1))
        },
    }
}

fn choose_later_upload_group(
    fft_len: usize,
    threads: usize,
    grouped: usize,
    coalesced: usize,
    stage_start_size: usize,
    shared: usize,
    operation: &'static str,
    device: DeviceProfile,
) -> (planned: PlanResult<usize>)
    ensures
        planned == later_upload_group(
            fft_len,
            threads,
            grouped,
            coalesced,
            stage_start_size,
            shared,
            operation,
            device,
        ),
{
    reveal(later_upload_group);
    let scaled: usize = scale_to_aim(grouped, threads, fft_len, shared, operation)?;
    let bounded: usize = umax(umin(stage_start_size, scaled), 1);
    let shrunk: usize = shrink_for_vendor(bounded, threads, coalesced, device);
    Ok(umax(umin(shrunk, device.max_workgroup_size[0]), 1))
}

/// Whether a request names an upload and a whole number of transforms per batch.
#[verifier::allow_in_spec]
pub fn request_consistent(upload_count: usize, request: FourStepAxisBlockRequest) -> bool
    returns
        (request.axis_upload_id < upload_count && request.stage_start_size != 0
            && request.transform_count != 0 && request.outer_batch_count != 0 && multiple_of(
            request.transform_count,
            request.outer_batch_count,
        )),
{
    request.axis_upload_id < upload_count && request.stage_start_size != 0
        && request.transform_count != 0 && request.outer_batch_count != 0 && multiple_of(
        request.transform_count,
        request.outer_batch_count,
    )
}

/// Whether the device has lanes in both local dimensions.
#[verifier::allow_in_spec]
pub fn device_has_lanes(device: DeviceProfile) -> bool
    returns
        (device.max_threads_per_block != 0 && device.max_workgroup_size[0] != 0
            && device.max_workgroup_size[1] != 0),
{
    device.max_threads_per_block != 0 && device.max_workgroup_size[0] != 0
        && device.max_workgroup_size[1] != 0
}

/// The workgroup of an upload with a requested group.
///
/// The first upload groups at most what was asked for. Later ones take the request as a
/// sign to skip wider transactions only.
#[verifier::opaque]
pub open spec fn grouped_upload_block(
    upload_count: usize,
    fft_len: usize,
    threads_per_transform: usize,
    request: FourStepAxisBlockRequest,
    precision: Precision,
    complex_bytes: usize,
    rader_state: Option<RaderSplitModel>,
    direct_rader_prime: Option<usize>,
    device: DeviceProfile,
) -> PlanResult<Option<StockhamAxisBlockSchedule>> {
    let requested = value_or(request.grouped_batch_override, 0);
    if precision.compute_complex_bytes() != complex_bytes
        || requested == 0
        || upload_count > 3
        || fft_len == 0
        || threads_per_transform == 0
        || !request_consistent(upload_count, request)
        || !device_has_lanes(device) {
        Ok(None)
    } else {
        match scheduler_policy(precision, device) {
            Err(error) => Err(error),
            Ok(policy) => match direct_reserve(
                direct_prime_of(rader_state, direct_rader_prime),
                complex_bytes,
                "user-grouped Four-step Direct-Rader shared-memory reserve",
            ) {
                Err(error) => Err(error),
                Ok(reserve) => if reserve >= device.shared_memory_bytes
                    || reserve >= device.shared_memory_pow2_bytes {
                    Ok(None)
                } else {
                    let allowed = (device.shared_memory_bytes - reserve) as usize;
                    if allowed < complex_bytes {
                        Ok(None)
                    } else {
                        let shared = quotient(allowed, complex_bytes);
                        let strided = strided_capacity(
                            allowed,
                            complex_bytes,
                            policy.coalesced_memory_bytes,
                            shared,
                        );
                        let coalesced = umax(
                            quotient(policy.coalesced_memory_bytes, complex_bytes),
                            1,
                        );
                        match initial_group(
                            strided,
                            fft_len,
                            coalesced,
                            "Four-step user grouped batch",
                        ) {
                            Err(error) => Err(error),
                            Ok(initial) => match direct_state_threads(
                                fft_len,
                                rader_state,
                                direct_rader_prime,
                                threads_per_transform,
                                coalesced,
                                device.max_threads_per_block,
                            ) {
                                Err(error) => Err(error),
                                Ok(direct_threads) => {
                                    let grouped = if direct_threads.is_some()
                                        && product_exceeds(
                                            initial,
                                            value_or(direct_threads, 0),
                                            device.max_threads_per_block,
                                        ) {
                                        coalesced
                                    } else {
                                        initial
                                    };
                                    if request.axis_upload_id == 0 {
                                        if threads_per_transform > dimension_limit(
                                            device,
                                            device.max_workgroup_size[0],
                                        ) {
                                            Ok(None)
                                        } else {
                                            let first = limited_group(
                                                umin(
                                                    umin(grouped, requested),
                                                    request.transform_count,
                                                ),
                                                threads_per_transform,
                                                fft_len,
                                                shared,
                                                device,
                                            );
                                            let swapped = swaps_axes(
                                                fft_len,
                                                threads_per_transform,
                                                first,
                                                shared,
                                                request.perform_zero_padding,
                                                device,
                                            );
                                            Ok(
                                                swappable_block(
                                                    first,
                                                    threads_per_transform,
                                                    swapped,
                                                    request.transform_count,
                                                    device,
                                                ),
                                            )
                                        }
                                    } else if threads_per_transform > device.max_workgroup_size[1] {
                                        Ok(None)
                                    } else {
                                        match later_upload_group(
                                            fft_len,
                                            threads_per_transform,
                                            grouped,
                                            coalesced,
                                            request.stage_start_size,
                                            shared,
                                            "user Four-step higher-upload grouped batch scale",
                                            device,
                                        ) {
                                            Err(error) => Err(error),
                                            Ok(wanted) => {
                                                let fitted = group_fit(
                                                    wanted,
                                                    threads_per_transform,
                                                    device.max_threads_per_block,
                                                );
                                                if fitted <= 1 {
                                                    Ok(None)
                                                } else {
                                                    Ok(
                                                        transforms_x_block(
                                                            fitted,
                                                            threads_per_transform,
                                                            request.transform_count,
                                                            device,
                                                        ),
                                                    )
                                                }
                                            },
                                        }
                                    }
                                },
                            },
                        }
                    }
                },
            },
        }
    }
}

pub fn plan_gpu_axis0_four_step_grouped_block_from_shape_impl(
    upload_count: usize,
    fft_len: usize,
    threads_per_transform: usize,
    request: FourStepAxisBlockRequest,
    precision: Precision,
    complex_bytes: usize,
    rader_state: Option<&Axis0RaderSplitState>,
    direct_rader_prime: Option<usize>,
    device: DeviceProfile,
) -> (planned: PlanResult<Option<StockhamAxisBlockSchedule>>)
    ensures
        planned == grouped_upload_block(
            upload_count,
            fft_len,
            threads_per_transform,
            request,
            precision,
            complex_bytes,
            split_view(rader_state),
            direct_rader_prime,
            device,
        ),
        axis_upload_shape(
            planned,
            request.axis_upload_id,
            request.transform_count,
            device,
            request.perform_zero_padding,
        ),
{
    reveal(grouped_upload_block);
    let requested: usize = value_or(request.grouped_batch_override, 0);
    if precision.compute_complex_bytes() != complex_bytes
        || requested == 0
        || upload_count > 3
        || fft_len == 0
        || threads_per_transform == 0
        || !request_consistent(upload_count, request)
        || !device_has_lanes(device) {
        return Ok(None);
    }
    let policy: GpuSchedulerPolicy = plan_gpu_scheduler_policy(precision, device)?;
    let reserve: usize = find_direct_reserve(
        find_direct_prime(rader_state, direct_rader_prime),
        complex_bytes,
        "user-grouped Four-step Direct-Rader shared-memory reserve",
    )?;
    if reserve >= device.shared_memory_bytes || reserve >= device.shared_memory_pow2_bytes {
        return Ok(None);
    }
    let allowed: usize = device.shared_memory_bytes - reserve;
    if allowed < complex_bytes {
        return Ok(None);
    }
    let shared: usize = quotient(allowed, complex_bytes);
    let strided: usize = strided_capacity(
        allowed,
        complex_bytes,
        policy.coalesced_memory_bytes,
        shared,
    );
    let coalesced: usize = umax(quotient(policy.coalesced_memory_bytes, complex_bytes), 1);
    let initial: usize = initial_group(
        strided,
        fft_len,
        coalesced,
        "Four-step user grouped batch",
    )?;
    let direct_threads: Option<usize> = find_direct_state_threads(
        fft_len,
        rader_state,
        direct_rader_prime,
        threads_per_transform,
        coalesced,
        device.max_threads_per_block,
    )?;
    let grouped: usize = if direct_threads.is_some()
        && product_exceeds(initial, value_or(direct_threads, 0), device.max_threads_per_block) {
        coalesced
    } else {
        initial
    };
    if request.axis_upload_id == 0 {
        if threads_per_transform > dimension_limit(device, device.max_workgroup_size[0]) {
            return Ok(None);
        }
        let first: usize = limit_group(
            umin(umin(grouped, requested), request.transform_count),
            threads_per_transform,
            fft_len,
            shared,
            device,
        );
        let swapped: bool = should_swap_axes(
            fft_len,
            threads_per_transform,
            first,
            shared,
            request.perform_zero_padding,
            device,
        );
        return Ok(
            block_swappable(first, threads_per_transform, swapped, request.transform_count, device),
        );
    }
    if threads_per_transform > device.max_workgroup_size[1] {
        return Ok(None);
    }
    let wanted: usize = choose_later_upload_group(
        fft_len,
        threads_per_transform,
        grouped,
        coalesced,
        request.stage_start_size,
        shared,
        "user Four-step higher-upload grouped batch scale",
        device,
    )?;
    let fitted: usize = fit_group(wanted, threads_per_transform, device.max_threads_per_block);
    if fitted <= 1 {
        return Ok(None);
    }
    Ok(block_transforms_on_x(fitted, threads_per_transform, request.transform_count, device))
}

/// The same without Rader primes.
pub open spec fn grouped_shape_block(
    upload_count: usize,
    fft_len: usize,
    threads_per_transform: usize,
    request: FourStepAxisBlockRequest,
    precision: Precision,
    complex_bytes: usize,
    device: DeviceProfile,
) -> PlanResult<Option<StockhamAxisBlockSchedule>> {
    grouped_upload_block(
        upload_count,
        fft_len,
        threads_per_transform,
        request,
        precision,
        complex_bytes,
        None,
        None,
        device,
    )
}

pub fn plan_gpu_axis0_four_step_grouped_block_from_shape_for_precision(
    upload_count: usize,
    fft_len: usize,
    threads_per_transform: usize,
    request: FourStepAxisBlockRequest,
    precision: Precision,
    complex_bytes: usize,
    device: DeviceProfile,
) -> (planned: PlanResult<Option<StockhamAxisBlockSchedule>>)
    ensures
        planned == grouped_shape_block(
            upload_count,
            fft_len,
            threads_per_transform,
            request,
            precision,
            complex_bytes,
            device,
        ),
        axis_upload_shape(
            planned,
            request.axis_upload_id,
            request.transform_count,
            device,
            request.perform_zero_padding,
        ),
{
    plan_gpu_axis0_four_step_grouped_block_from_shape_impl(
        upload_count,
        fft_len,
        threads_per_transform,
        request,
        precision,
        complex_bytes,
        None,
        None,
        device,
    )
}

/// The same without Rader primes, the precision given by its footprint.
pub open spec fn grouped_shape_block_of_bytes(
    upload_count: usize,
    fft_len: usize,
    threads_per_transform: usize,
    request: FourStepAxisBlockRequest,
    complex_bytes: usize,
    device: DeviceProfile,
) -> PlanResult<Option<StockhamAxisBlockSchedule>> {
    match ordinary_precision_of_bytes(complex_bytes) {
        None => Ok(None),
        Some(precision) => grouped_shape_block(
            upload_count,
            fft_len,
            threads_per_transform,
            request,
            precision,
            complex_bytes,
            device,
        ),
    }
}

pub fn plan_gpu_axis0_four_step_grouped_block_from_shape(
    upload_count: usize,
    fft_len: usize,
    threads_per_transform: usize,
    request: FourStepAxisBlockRequest,
    complex_bytes: usize,
    device: DeviceProfile,
) -> (planned: PlanResult<Option<StockhamAxisBlockSchedule>>)
    ensures
        planned == grouped_shape_block_of_bytes(
            upload_count,
            fft_len,
            threads_per_transform,
            request,
            complex_bytes,
            device,
        ),
        axis_upload_shape(
            planned,
            request.axis_upload_id,
            request.transform_count,
            device,
            request.perform_zero_padding,
        ),
{
    let precision: Precision = match ordinary_precision_of_bytes(complex_bytes) {
        Some(value) => value,
        None => {
            return Ok(None);
        },
    };
    plan_gpu_axis0_four_step_grouped_block_from_shape_for_precision(
        upload_count,
        fft_len,
        threads_per_transform,
        request,
        precision,
        complex_bytes,
        device,
    )
}

/// The same with one direct prime.
pub open spec fn grouped_direct_shape_block(
    upload_count: usize,
    fft_len: usize,
    threads_per_transform: usize,
    direct_rader_prime: usize,
    request: FourStepAxisBlockRequest,
    precision: Precision,
    complex_bytes: usize,
    device: DeviceProfile,
) -> PlanResult<Option<StockhamAxisBlockSchedule>> {
    if direct_rader_prime < 3 || !multiple_of(fft_len, direct_rader_prime) {
        Ok(None)
    } else {
        grouped_upload_block(
            upload_count,
            fft_len,
            threads_per_transform,
            request,
            precision,
            complex_bytes,
            None,
            Some(direct_rader_prime),
            device,
        )
    }
}

pub fn plan_gpu_axis0_direct_rader_four_step_grouped_block_from_shape_for_precision(
    upload_count: usize,
    fft_len: usize,
    threads_per_transform: usize,
    direct_rader_prime: usize,
    request: FourStepAxisBlockRequest,
    precision: Precision,
    complex_bytes: usize,
    device: DeviceProfile,
) -> (planned: PlanResult<Option<StockhamAxisBlockSchedule>>)
    ensures
        planned == grouped_direct_shape_block(
            upload_count,
            fft_len,
            threads_per_transform,
            direct_rader_prime,
            request,
            precision,
            complex_bytes,
            device,
        ),
        axis_upload_shape(
            planned,
            request.axis_upload_id,
            request.transform_count,
            device,
            request.perform_zero_padding,
        ),
{
    if direct_rader_prime < 3 || !multiple_of(fft_len, direct_rader_prime) {
        return Ok(None);
    }
    plan_gpu_axis0_four_step_grouped_block_from_shape_impl(
        upload_count,
        fft_len,
        threads_per_transform,
        request,
        precision,
        complex_bytes,
        None,
        Some(direct_rader_prime),
        device,
    )
}

/// The same with the Rader primes of a split state.
#[verifier::opaque]
pub open spec fn grouped_split_block(
    upload_count: usize,
    fft_len: usize,
    state: RaderSplitModel,
    request: FourStepAxisBlockRequest,
    precision: Precision,
    complex_bytes: usize,
    device: DeviceProfile,
) -> PlanResult<Option<StockhamAxisBlockSchedule>> {
    match scheduler_policy(precision, device) {
        Err(error) => Err(error),
        Ok(policy) => {
            let coalesced = umax(quotient(policy.coalesced_memory_bytes, complex_bytes), 1);
            match threads_from_split(
                fft_len,
                state,
                coalesced,
                dimension_limit(device, device.max_workgroup_size[0]),
            ) {
                Err(error) => Err(error),
                Ok(None) => Ok(None),
                Ok(Some(threads)) => grouped_upload_block(
                    upload_count,
                    fft_len,
                    threads,
                    request,
                    precision,
                    complex_bytes,
                    Some(state),
                    None,
                    device,
                ),
            }
        },
    }
}

pub fn plan_gpu_axis0_rader_four_step_grouped_block_from_split_state_for_precision(
    upload_count: usize,
    fft_len: usize,
    state: &Axis0RaderSplitState,
    request: FourStepAxisBlockRequest,
    precision: Precision,
    complex_bytes: usize,
    device: DeviceProfile,
) -> (planned: PlanResult<Option<StockhamAxisBlockSchedule>>)
    ensures
        planned == grouped_split_block(
            upload_count,
            fft_len,
            state@,
            request,
            precision,
            complex_bytes,
            device,
        ),
        axis_upload_shape(
            planned,
            request.axis_upload_id,
            request.transform_count,
            device,
            request.perform_zero_padding,
        ),
{
    reveal(grouped_split_block);
    let policy: GpuSchedulerPolicy = plan_gpu_scheduler_policy(precision, device)?;
    let coalesced: usize = umax(quotient(policy.coalesced_memory_bytes, complex_bytes), 1);
    let threads: usize = match axis0_rader_threads_from_split_state(
        fft_len,
        state,
        coalesced,
        dimension_limit(device, device.max_workgroup_size[0]),
    ) {
        Ok(Some(value)) => value,
        Ok(None) => {
            return Ok(None);
        },
        Err(error) => {
            return Err(error);
        },
    };
    plan_gpu_axis0_four_step_grouped_block_from_shape_impl(
        upload_count,
        fft_len,
        threads,
        request,
        precision,
        complex_bytes,
        Some(state),
        None,
        device,
    )
}

/// The precision of a context, or the plain one with the given footprint.
#[verifier::allow_in_spec]
pub fn context_precision(context: Axis0FourStepPhysicalContext, complex_bytes: usize) -> Option<
    Precision,
>
    returns
        (match context.precision {
            Some(precision) => if precision.compute_complex_bytes() == complex_bytes {
                Some(precision)
            } else {
                None
            },
            None => precision_of_bytes(complex_bytes),
        }),
{
    match context.precision {
        Some(precision) => if precision.compute_complex_bytes() == complex_bytes {
            Some(precision)
        } else {
            None
        },
        None => precision_of_bytes(complex_bytes),
    }
}

/// The workgroup of the first upload. A Bluestein upload groups narrow transforms to the
/// aimed lane count and never exchanges its dimensions.
#[verifier::opaque]
pub open spec fn first_upload_block(
    fft_len: usize,
    threads: usize,
    grouped: usize,
    coalesced: usize,
    warp: usize,
    shared: usize,
    shared_pow2: usize,
    bluestein: bool,
    groups_wide: bool,
    request: FourStepAxisBlockRequest,
    device: DeviceProfile,
) -> Option<StockhamAxisBlockSchedule> {
    if threads > dimension_limit(device, device.max_workgroup_size[0]) {
        None
    } else {
        let narrow = threads < AIM_THREADS && (threads < warp || groups_wide);
        let start = if !bluestein {
            grouped
        } else if narrow {
            estimate_batch(threads, warp)
        } else {
            1
        };
        let rounded = if !bluestein
            && swaps_axes(
                fft_len,
                threads,
                start,
                shared_pow2,
                request.perform_zero_padding,
                device,
            ) {
            power_of_two_above(start)
        } else {
            start
        };
        let bounded = umax(
            umin(rounded, quotient(request.transform_count, request.outer_batch_count)),
            1,
        );
        let shrunk = vendor_shrunk(bounded, threads, coalesced, device);
        let sized = umax(umin(shrunk, device.max_workgroup_size[1]), 1);
        let reduced = umax(reduced_dimension(sized, threads, device.max_threads_per_block), 1);
        let halved = halved_group(reduced, fft_len, shared);
        if !product_within(halved, fft_len, shared) {
            None
        } else {
            let swapped = !bluestein
                && swaps_axes(
                    fft_len,
                    threads,
                    halved,
                    shared,
                    request.perform_zero_padding,
                    device,
                );
            swappable_block(halved, threads, swapped, request.transform_count, device)
        }
    }
}

fn plan_first_upload_block(
    fft_len: usize,
    threads: usize,
    grouped: usize,
    coalesced: usize,
    warp: usize,
    shared: usize,
    shared_pow2: usize,
    bluestein: bool,
    groups_wide: bool,
    request: FourStepAxisBlockRequest,
    device: DeviceProfile,
) -> (planned: Option<StockhamAxisBlockSchedule>)
    ensures
        planned == first_upload_block(
            fft_len,
            threads,
            grouped,
            coalesced,
            warp,
            shared,
            shared_pow2,
            bluestein,
            groups_wide,
            request,
            device,
        ),
        planned matches Some(block) ==>
            block.dimensions_consistent(request.transform_count)
                && block.fits(device)
                && block.axis_swapped == block.transforms_on_x
                && (request.perform_zero_padding ==> !block.axis_swapped),
{
    reveal(first_upload_block);
    if threads > dimension_limit(device, device.max_workgroup_size[0]) {
        return None;
    }
    let narrow: bool = threads < AIM_THREADS && (threads < warp || groups_wide);
    let start: usize = if !bluestein {
        grouped
    } else if narrow {
        estimate_batch(threads, warp)
    } else {
        1
    };
    let rounded: usize = if !bluestein
        && should_swap_axes(
            fft_len,
            threads,
            start,
            shared_pow2,
            request.perform_zero_padding,
            device,
        ) {
        power_of_two_above(start)
    } else {
        start
    };
    let bounded: usize = umax(
        umin(rounded, quotient(request.transform_count, request.outer_batch_count)),
        1,
    );
    let shrunk: usize = shrink_for_vendor(bounded, threads, coalesced, device);
    let sized: usize = umax(umin(shrunk, device.max_workgroup_size[1]), 1);
    let reduced: usize = umax(reduce_dimension(sized, threads, device.max_threads_per_block), 1);
    let halved: usize = halve_to_fit(reduced, fft_len, shared);
    if !product_within(halved, fft_len, shared) {
        return None;
    }
    let swapped: bool = !bluestein
        && should_swap_axes(fft_len, threads, halved, shared, request.perform_zero_padding, device);
    block_swappable(halved, threads, swapped, request.transform_count, device)
}

/// The workgroup of a later upload.
#[verifier::opaque]
pub open spec fn later_upload_block(
    fft_len: usize,
    threads: usize,
    grouped: usize,
    coalesced: usize,
    shared: usize,
    operation: &'static str,
    request: FourStepAxisBlockRequest,
    device: DeviceProfile,
) -> PlanResult<Option<StockhamAxisBlockSchedule>> {
    if threads > device.max_workgroup_size[1] {
        Ok(None)
    } else {
        match later_upload_group(
            fft_len,
            threads,
            grouped,
            coalesced,
            request.stage_start_size,
            shared,
            operation,
            device,
        ) {
            Err(error) => Err(error),
            Ok(wanted) => {
                let reduced = umax(
                    reduced_dimension(wanted, threads, device.max_threads_per_block),
                    1,
                );
                Ok(transforms_x_block(reduced, threads, request.transform_count, device))
            },
        }
    }
}

fn plan_later_upload_block(
    fft_len: usize,
    threads: usize,
    grouped: usize,
    coalesced: usize,
    shared: usize,
    operation: &'static str,
    request: FourStepAxisBlockRequest,
    device: DeviceProfile,
) -> (planned: PlanResult<Option<StockhamAxisBlockSchedule>>)
    ensures
        planned == later_upload_block(
            fft_len,
            threads,
            grouped,
            coalesced,
            shared,
            operation,
            request,
            device,
        ),
        strided_shape(planned, request.transform_count, device),
{
    reveal(later_upload_block);
    if threads > device.max_workgroup_size[1] {
        return Ok(None);
    }
    let wanted: usize = choose_later_upload_group(
        fft_len,
        threads,
        grouped,
        coalesced,
        request.stage_start_size,
        shared,
        operation,
        device,
    )?;
    let reduced: usize = umax(reduce_dimension(wanted, threads, device.max_threads_per_block), 1);
    Ok(block_transforms_on_x(reduced, threads, request.transform_count, device))
}

/// A shape that says something: one transform alone does not, unless `alone` holds.
#[verifier::allow_in_spec]
pub fn telling_block(block: Option<StockhamAxisBlockSchedule>, alone: bool) -> Option<
    StockhamAxisBlockSchedule,
>
    returns
        (match block {
            Some(shape) => if !alone && shape.grouped_batch <= 1 {
                None
            } else {
                Some(shape)
            },
            None => None,
        }),
{
    match block {
        Some(shape) => if !alone && shape.grouped_batch <= 1 {
            None
        } else {
            Some(shape)
        },
        None => None,
    }
}

/// The group a Bluestein convolution starts its first upload from, else that of a strided
/// upload.
#[verifier::allow_in_spec]
pub fn shape_initial_group(
    bluestein_first: bool,
    strided: usize,
    shared: usize,
    fft_len: usize,
    coalesced: usize,
) -> PlanResult<usize>
    returns
        (if bluestein_first {
            Ok(umax(quotient(shared, fft_len), coalesced))
        } else {
            initial_group(strided, fft_len, coalesced, "Four-step shape initial grouped batch")
        }),
{
    if bluestein_first {
        return Ok(umax(quotient(shared, fft_len), coalesced));
    }
    initial_group(strided, fft_len, coalesced, "Four-step shape initial grouped batch")
}

/// Whether a split state holds direct primes.
pub open spec fn holds_direct(state: Option<RaderSplitModel>) -> bool {
    match state {
        Some(split) => split.direct_prime_multiplicities.len() != 0,
        None => false,
    }
}

fn state_holds_direct(state: Option<&Axis0RaderSplitState>) -> (holds: bool)
    ensures
        holds == holds_direct(split_view(state)),
{
    match state {
        Some(split) => split.direct_prime_multiplicities.len() != 0,
        None => false,
    }
}

/// Values that shared memory and one transaction hold, and the subgroup of a device.
#[derive(Debug, Clone, Copy, PartialEq, Eq, Structural)]
pub struct UploadCapacities {
    pub shared: usize,
    pub shared_pow2: usize,
    pub strided: usize,
    pub warp: usize,
    pub width: usize,
}

/// The capacities left beside the multipliers of a direct prime.
#[verifier::opaque]
pub open spec fn upload_capacities(
    direct_prime: Option<usize>,
    precision: Precision,
    complex_bytes: usize,
    device: DeviceProfile,
) -> PlanResult<Option<UploadCapacities>> {
    match scheduler_policy(precision, device) {
        Err(error) => Err(error),
        Ok(policy) => match direct_reserve(
            direct_prime,
            complex_bytes,
            "Four-step Rader direct shared-memory reserve",
        ) {
            Err(error) => Err(error),
            Ok(reserve) => if reserve > device.shared_memory_bytes
                || reserve > device.shared_memory_pow2_bytes {
                Ok(None)
            } else {
                let allowed = (device.shared_memory_bytes - reserve) as usize;
                let allowed_pow2 = (device.shared_memory_pow2_bytes - reserve) as usize;
                if allowed < complex_bytes || allowed_pow2 < complex_bytes {
                    Ok(None)
                } else {
                    let shared = quotient(allowed, complex_bytes);
                    let shared_pow2 = quotient(allowed_pow2, complex_bytes);
                    let strided = strided_capacity(
                        allowed,
                        complex_bytes,
                        policy.coalesced_memory_bytes,
                        shared,
                    );
                    let warp = umax(policy.subgroup_width, 1);
                    let width = umax(quotient(policy.coalesced_memory_bytes, complex_bytes), 1);
                    Ok(Some(UploadCapacities { shared, shared_pow2, strided, warp, width }))
                }
            },
        },
    }
}

fn find_upload_capacities(
    direct_prime: Option<usize>,
    precision: Precision,
    complex_bytes: usize,
    device: DeviceProfile,
) -> (planned: PlanResult<Option<UploadCapacities>>)
    ensures
        planned == upload_capacities(direct_prime, precision, complex_bytes, device),
{
    reveal(upload_capacities);
    let policy: GpuSchedulerPolicy = plan_gpu_scheduler_policy(precision, device)?;
    let reserve: usize = find_direct_reserve(
        direct_prime,
        complex_bytes,
        "Four-step Rader direct shared-memory reserve",
    )?;
    if reserve > device.shared_memory_bytes || reserve > device.shared_memory_pow2_bytes {
        return Ok(None);
    }
    let allowed: usize = device.shared_memory_bytes - reserve;
    let allowed_pow2: usize = device.shared_memory_pow2_bytes - reserve;
    if allowed < complex_bytes || allowed_pow2 < complex_bytes {
        return Ok(None);
    }
    let shared: usize = quotient(allowed, complex_bytes);
    let shared_pow2: usize = quotient(allowed_pow2, complex_bytes);
    let strided: usize = strided_capacity(
        allowed,
        complex_bytes,
        policy.coalesced_memory_bytes,
        shared,
    );
    let warp: usize = umax(policy.subgroup_width, 1);
    let width: usize = umax(quotient(policy.coalesced_memory_bytes, complex_bytes), 1);
    Ok(Some(UploadCapacities { shared, shared_pow2, strided, warp, width }))
}

/// Group and coalesced width of an upload with the automatic group.
#[verifier::opaque]
pub open spec fn default_upload_group(
    upload_count: usize,
    axis_upload_id: usize,
    fft_len: usize,
    complex_bytes: usize,
    bluestein: bool,
    capacities: UploadCapacities,
    device: DeviceProfile,
) -> PlanResult<(usize, usize)> {
    match shape_initial_group(
        bluestein && axis_upload_id == 0,
        capacities.strided,
        capacities.shared,
        fft_len,
        capacities.width,
    ) {
        Err(error) => Err(error),
        Ok(initial) => match four_step_group(
            upload_count,
            axis_upload_id,
            fft_len,
            capacities.shared,
            complex_bytes,
            initial,
            capacities.width,
            device,
        ) {
            Err(error) => Err(error),
            Ok((adjusted, coalesced)) => Ok(
                (
                    aligned_group(
                        adjusted,
                        coalesced,
                        fft_len,
                        capacities.strided,
                        capacities.shared,
                        capacities.warp,
                    ),
                    coalesced,
                ),
            ),
        },
    }
}

fn choose_default_upload_group(
    upload_count: usize,
    axis_upload_id: usize,
    fft_len: usize,
    complex_bytes: usize,
    bluestein: bool,
    capacities: UploadCapacities,
    device: DeviceProfile,
) -> (planned: PlanResult<(usize, usize)>)
    ensures
        planned == default_upload_group(
            upload_count,
            axis_upload_id,
            fft_len,
            complex_bytes,
            bluestein,
            capacities,
            device,
        ),
{
    reveal(default_upload_group);
    let initial: usize = shape_initial_group(
        bluestein && axis_upload_id == 0,
        capacities.strided,
        capacities.shared,
        fft_len,
        capacities.width,
    )?;
    let (adjusted, coalesced) = adjust_four_step_group(
        upload_count,
        axis_upload_id,
        fft_len,
        capacities.shared,
        complex_bytes,
        initial,
        capacities.width,
        device,
    )?;
    Ok(
        (
            align_group(
                adjusted,
                coalesced,
                fft_len,
                capacities.strided,
                capacities.shared,
                capacities.warp,
            ),
            coalesced,
        ),
    )
}

/// The workgroup of an upload whose transforms take this many lanes, with the automatic
/// group.
#[verifier::opaque]
pub open spec fn default_upload_block(
    upload_count: usize,
    fft_len: usize,
    threads_per_transform: usize,
    request: FourStepAxisBlockRequest,
    complex_bytes: usize,
    device: DeviceProfile,
    rader_state: Option<RaderSplitModel>,
    physical_context: Axis0FourStepPhysicalContext,
) -> PlanResult<Option<StockhamAxisBlockSchedule>> {
    if !(upload_count == 2 || upload_count == 3)
        || fft_len == 0
        || threads_per_transform == 0
        || !request_consistent(upload_count, request)
        || request.grouped_batch_override.is_some()
        || !device_has_lanes(device) {
        Ok(None)
    } else {
        match context_precision(physical_context, complex_bytes) {
            None => Ok(None),
            Some(precision) => if threads_per_transform > device.max_threads_per_block {
                Ok(None)
            } else {
                match upload_capacities(
                    direct_prime_of(rader_state, physical_context.direct_rader_prime),
                    precision,
                    complex_bytes,
                    device,
                ) {
                    Err(error) => Err(error),
                    Ok(None) => Ok(None),
                    Ok(Some(capacities)) => match default_upload_group(
                        upload_count,
                        request.axis_upload_id,
                        fft_len,
                        complex_bytes,
                        physical_context.use_bluestein_fft,
                        capacities,
                        device,
                    ) {
                        Err(error) => Err(error),
                        Ok((aligned, coalesced)) => {
                            let limit = dimension_limit(device, device.max_workgroup_size[0]);
                            match state_threads(
                                fft_len,
                                rader_state,
                                threads_per_transform,
                                coalesced,
                                limit,
                            ) {
                                Err(error) => Err(error),
                                Ok(None) => Ok(None),
                                Ok(Some(threads)) => if threads == 0 || threads > limit {
                                    Ok(None)
                                } else {
                                    let direct = holds_direct(rader_state)
                                        || physical_context.direct_rader_prime.is_some();
                                    let grouped = if direct
                                        && product_exceeds(
                                            threads,
                                            aligned,
                                            device.max_threads_per_block,
                                        ) {
                                        umax(coalesced, 1)
                                    } else {
                                        aligned
                                    };
                                    if request.axis_upload_id == 0 {
                                        let first = first_upload_block(
                                            fft_len,
                                            threads,
                                            grouped,
                                            coalesced,
                                            capacities.warp,
                                            capacities.shared,
                                            capacities.shared_pow2,
                                            physical_context.use_bluestein_fft,
                                            rader_state.is_some(),
                                            request,
                                            device,
                                        );
                                        Ok(telling_block(first, rader_state.is_some()))
                                    } else {
                                        match later_upload_block(
                                            fft_len,
                                            threads,
                                            grouped,
                                            coalesced,
                                            capacities.shared,
                                            "Four-step shape higher-upload grouped batch scale",
                                            request,
                                            device,
                                        ) {
                                            Err(error) => Err(error),
                                            Ok(later) => Ok(
                                                telling_block(later, rader_state.is_some()),
                                            ),
                                        }
                                    }
                                },
                            }
                        },
                    },
                }
            },
        }
    }
}

pub fn plan_gpu_axis0_four_step_default_block_from_shape_impl(
    upload_count: usize,
    fft_len: usize,
    threads_per_transform: usize,
    request: FourStepAxisBlockRequest,
    complex_bytes: usize,
    device: DeviceProfile,
    rader_state: Option<&Axis0RaderSplitState>,
    physical_context: Axis0FourStepPhysicalContext,
) -> (planned: PlanResult<Option<StockhamAxisBlockSchedule>>)
    ensures
        planned == default_upload_block(
            upload_count,
            fft_len,
            threads_per_transform,
            request,
            complex_bytes,
            device,
            split_view(rader_state),
            physical_context,
        ),
        axis_upload_shape(
            planned,
            request.axis_upload_id,
            request.transform_count,
            device,
            request.perform_zero_padding,
        ),
{
    reveal(default_upload_block);
    if !(upload_count == 2 || upload_count == 3)
        || fft_len == 0
        || threads_per_transform == 0
        || !request_consistent(upload_count, request)
        || request.grouped_batch_override.is_some()
        || !device_has_lanes(device) {
        return Ok(None);
    }
    let precision: Precision = match context_precision(physical_context, complex_bytes) {
        Some(value) => value,
        None => {
            return Ok(None);
        },
    };
    if threads_per_transform > device.max_threads_per_block {
        return Ok(None);
    }
    let capacities: UploadCapacities = match find_upload_capacities(
        find_direct_prime(rader_state, physical_context.direct_rader_prime),
        precision,
        complex_bytes,
        device,
    ) {
        Ok(Some(value)) => value,
        Ok(None) => {
            return Ok(None);
        },
        Err(error) => {
            return Err(error);
        },
    };
    let (aligned, coalesced) = choose_default_upload_group(
        upload_count,
        request.axis_upload_id,
        fft_len,
        complex_bytes,
        physical_context.use_bluestein_fft,
        capacities,
        device,
    )?;
    let limit: usize = dimension_limit(device, device.max_workgroup_size[0]);
    let threads: usize = match find_state_threads(
        fft_len,
        rader_state,
        threads_per_transform,
        coalesced,
        limit,
    ) {
        Ok(Some(value)) => value,
        Ok(None) => {
            return Ok(None);
        },
        Err(error) => {
            return Err(error);
        },
    };
    if threads == 0 || threads > limit {
        return Ok(None);
    }
    let direct: bool = state_holds_direct(rader_state)
        || physical_context.direct_rader_prime.is_some();
    let grouped: usize = if direct
        && product_exceeds(threads, aligned, device.max_threads_per_block) {
        umax(coalesced, 1)
    } else {
        aligned
    };
    if request.axis_upload_id == 0 {
        let first: Option<StockhamAxisBlockSchedule> = plan_first_upload_block(
            fft_len,
            threads,
            grouped,
            coalesced,
            capacities.warp,
            capacities.shared,
            capacities.shared_pow2,
            physical_context.use_bluestein_fft,
            rader_state.is_some(),
            request,
            device,
        );
        return Ok(telling_block(first, rader_state.is_some()));
    }
    let later: Option<StockhamAxisBlockSchedule> = plan_later_upload_block(
        fft_len,
        threads,
        grouped,
        coalesced,
        capacities.shared,
        "Four-step shape higher-upload grouped batch scale",
        request,
        device,
    )?;
    Ok(telling_block(later, rader_state.is_some()))
}

/// A context that says nothing but the precision.
#[verifier::allow_in_spec]
pub fn plain_physical_context(
    precision: Option<Precision>,
) -> Axis0FourStepPhysicalContext
    returns
        (
            Axis0FourStepPhysicalContext {
                use_bluestein_fft: false,
                direct_rader_prime: None,
                precision,
            }
        ),
{
    Axis0FourStepPhysicalContext { use_bluestein_fft: false, direct_rader_prime: None, precision }
}

/// The context of a Bluestein convolution.
#[verifier::allow_in_spec]
pub fn bluestein_physical_context(
) -> Axis0FourStepPhysicalContext
    returns
        (
            Axis0FourStepPhysicalContext {
                use_bluestein_fft: true,
                direct_rader_prime: None,
                precision: None,
            }
        ),
{
    Axis0FourStepPhysicalContext {
        use_bluestein_fft: true,
        direct_rader_prime: None,
        precision: None,
    }
}

/// The same without Rader primes, the precision given by its footprint.
pub open spec fn default_shape_block_of_bytes(
    upload_count: usize,
    fft_len: usize,
    threads_per_transform: usize,
    request: FourStepAxisBlockRequest,
    complex_bytes: usize,
    device: DeviceProfile,
) -> PlanResult<Option<StockhamAxisBlockSchedule>> {
    default_upload_block(
        upload_count,
        fft_len,
        threads_per_transform,
        request,
        complex_bytes,
        device,
        None,
        plain_physical_context(None),
    )
}

pub fn plan_gpu_axis0_four_step_default_block_from_shape(
    upload_count: usize,
    fft_len: usize,
    threads_per_transform: usize,
    request: FourStepAxisBlockRequest,
    complex_bytes: usize,
    device: DeviceProfile,
) -> (planned: PlanResult<Option<StockhamAxisBlockSchedule>>)
    ensures
        planned == default_shape_block_of_bytes(
            upload_count,
            fft_len,
            threads_per_transform,
            request,
            complex_bytes,
            device,
        ),
        axis_upload_shape(
            planned,
            request.axis_upload_id,
            request.transform_count,
            device,
            request.perform_zero_padding,
        ),
{
    plan_gpu_axis0_four_step_default_block_from_shape_impl(
        upload_count,
        fft_len,
        threads_per_transform,
        request,
        complex_bytes,
        device,
        None,
        plain_physical_context(None),
    )
}

/// The same without Rader primes.
pub open spec fn default_shape_block(
    upload_count: usize,
    fft_len: usize,
    threads_per_transform: usize,
    request: FourStepAxisBlockRequest,
    precision: Precision,
    complex_bytes: usize,
    device: DeviceProfile,
) -> PlanResult<Option<StockhamAxisBlockSchedule>> {
    if precision.compute_complex_bytes() != complex_bytes {
        Ok(None)
    } else {
        default_upload_block(
            upload_count,
            fft_len,
            threads_per_transform,
            request,
            complex_bytes,
            device,
            None,
            plain_physical_context(Some(precision)),
        )
    }
}

pub fn plan_gpu_axis0_four_step_default_block_from_shape_for_precision(
    upload_count: usize,
    fft_len: usize,
    threads_per_transform: usize,
    request: FourStepAxisBlockRequest,
    precision: Precision,
    complex_bytes: usize,
    device: DeviceProfile,
) -> (planned: PlanResult<Option<StockhamAxisBlockSchedule>>)
    ensures
        planned == default_shape_block(
            upload_count,
            fft_len,
            threads_per_transform,
            request,
            precision,
            complex_bytes,
            device,
        ),
        axis_upload_shape(
            planned,
            request.axis_upload_id,
            request.transform_count,
            device,
            request.perform_zero_padding,
        ),
{
    if precision.compute_complex_bytes() != complex_bytes {
        return Ok(None);
    }
    plan_gpu_axis0_four_step_default_block_from_shape_impl(
        upload_count,
        fft_len,
        threads_per_transform,
        request,
        complex_bytes,
        device,
        None,
        plain_physical_context(Some(precision)),
    )
}

/// The same with one direct prime.
pub open spec fn default_direct_shape_block(
    upload_count: usize,
    fft_len: usize,
    threads_per_transform: usize,
    direct_rader_prime: usize,
    request: FourStepAxisBlockRequest,
    precision: Precision,
    complex_bytes: usize,
    device: DeviceProfile,
) -> PlanResult<Option<StockhamAxisBlockSchedule>> {
    if direct_rader_prime < 3
        || !multiple_of(fft_len, direct_rader_prime)
        || precision.compute_complex_bytes() != complex_bytes {
        Ok(None)
    } else {
        default_upload_block(
            upload_count,
            fft_len,
            threads_per_transform,
            request,
            complex_bytes,
            device,
            None,
            (
                Axis0FourStepPhysicalContext {
                    use_bluestein_fft: false,
                    direct_rader_prime: Some(direct_rader_prime),
                    precision: Some(precision),
                }
            ),
        )
    }
}

pub fn plan_gpu_axis0_direct_rader_four_step_default_block_from_shape_for_precision(
    upload_count: usize,
    fft_len: usize,
    threads_per_transform: usize,
    direct_rader_prime: usize,
    request: FourStepAxisBlockRequest,
    precision: Precision,
    complex_bytes: usize,
    device: DeviceProfile,
) -> (planned: PlanResult<Option<StockhamAxisBlockSchedule>>)
    ensures
        planned == default_direct_shape_block(
            upload_count,
            fft_len,
            threads_per_transform,
            direct_rader_prime,
            request,
            precision,
            complex_bytes,
            device,
        ),
        axis_upload_shape(
            planned,
            request.axis_upload_id,
            request.transform_count,
            device,
            request.perform_zero_padding,
        ),
{
    if direct_rader_prime < 3
        || !multiple_of(fft_len, direct_rader_prime)
        || precision.compute_complex_bytes() != complex_bytes {
        return Ok(None);
    }
    plan_gpu_axis0_four_step_default_block_from_shape_impl(
        upload_count,
        fft_len,
        threads_per_transform,
        request,
        complex_bytes,
        device,
        None,
        (
            Axis0FourStepPhysicalContext {
                use_bluestein_fft: false,
                direct_rader_prime: Some(direct_rader_prime),
                precision: Some(precision),
            }
        ),
    )
}

/// The same with the Rader primes of a split state.
pub open spec fn default_split_block(
    upload_count: usize,
    fft_len: usize,
    state: RaderSplitModel,
    request: FourStepAxisBlockRequest,
    complex_bytes: usize,
    device: DeviceProfile,
) -> PlanResult<Option<StockhamAxisBlockSchedule>> {
    default_upload_block(
        upload_count,
        fft_len,
        state.base_axis_threads,
        request,
        complex_bytes,
        device,
        Some(state),
        plain_physical_context(None),
    )
}

pub fn plan_gpu_axis0_rader_four_step_default_block_from_split_state(
    upload_count: usize,
    fft_len: usize,
    state: &Axis0RaderSplitState,
    request: FourStepAxisBlockRequest,
    complex_bytes: usize,
    device: DeviceProfile,
) -> (planned: PlanResult<Option<StockhamAxisBlockSchedule>>)
    ensures
        planned == default_split_block(
            upload_count,
            fft_len,
            state@,
            request,
            complex_bytes,
            device,
        ),
        axis_upload_shape(
            planned,
            request.axis_upload_id,
            request.transform_count,
            device,
            request.perform_zero_padding,
        ),
{
    plan_gpu_axis0_four_step_default_block_from_shape_impl(
        upload_count,
        fft_len,
        state.base_axis_threads,
        request,
        complex_bytes,
        device,
        Some(state),
        plain_physical_context(None),
    )
}

/// The same for a Bluestein convolution without Rader primes.
pub open spec fn bluestein_shape_block(
    upload_count: usize,
    fft_len: usize,
    threads_per_transform: usize,
    request: FourStepAxisBlockRequest,
    complex_bytes: usize,
    device: DeviceProfile,
) -> PlanResult<Option<StockhamAxisBlockSchedule>> {
    default_upload_block(
        upload_count,
        fft_len,
        threads_per_transform,
        request,
        complex_bytes,
        device,
        None,
        bluestein_physical_context(),
    )
}

pub fn plan_gpu_axis0_bluestein_four_step_default_block_from_shape(
    upload_count: usize,
    fft_len: usize,
    threads_per_transform: usize,
    request: FourStepAxisBlockRequest,
    complex_bytes: usize,
    device: DeviceProfile,
) -> (planned: PlanResult<Option<StockhamAxisBlockSchedule>>)
    ensures
        planned == bluestein_shape_block(
            upload_count,
            fft_len,
            threads_per_transform,
            request,
            complex_bytes,
            device,
        ),
        axis_upload_shape(
            planned,
            request.axis_upload_id,
            request.transform_count,
            device,
            request.perform_zero_padding,
        ),
{
    plan_gpu_axis0_four_step_default_block_from_shape_impl(
        upload_count,
        fft_len,
        threads_per_transform,
        request,
        complex_bytes,
        device,
        None,
        bluestein_physical_context(),
    )
}

/// The same for a Bluestein convolution with the Rader primes of a split state.
pub open spec fn bluestein_split_block(
    upload_count: usize,
    fft_len: usize,
    state: RaderSplitModel,
    request: FourStepAxisBlockRequest,
    complex_bytes: usize,
    device: DeviceProfile,
) -> PlanResult<Option<StockhamAxisBlockSchedule>> {
    default_upload_block(
        upload_count,
        fft_len,
        state.base_axis_threads,
        request,
        complex_bytes,
        device,
        Some(state),
        bluestein_physical_context(),
    )
}

pub fn plan_gpu_axis0_bluestein_rader_four_step_default_block_from_split_state(
    upload_count: usize,
    fft_len: usize,
    state: &Axis0RaderSplitState,
    request: FourStepAxisBlockRequest,
    complex_bytes: usize,
    device: DeviceProfile,
) -> (planned: PlanResult<Option<StockhamAxisBlockSchedule>>)
    ensures
        planned == bluestein_split_block(
            upload_count,
            fft_len,
            state@,
            request,
            complex_bytes,
            device,
        ),
        axis_upload_shape(
            planned,
            request.axis_upload_id,
            request.transform_count,
            device,
            request.perform_zero_padding,
        ),
{
    plan_gpu_axis0_four_step_default_block_from_shape_impl(
        upload_count,
        fft_len,
        state.base_axis_threads,
        request,
        complex_bytes,
        device,
        Some(state),
        bluestein_physical_context(),
    )
}

/// The workgroup of one upload of a contiguous Stockham axis.
#[verifier::opaque]
pub open spec fn axis0_four_step_block(
    upload: StockhamUploadModel,
    request: FourStepAxisBlockRequest,
    precision: Precision,
    complex_bytes: usize,
    device: DeviceProfile,
) -> PlanResult<Option<StockhamAxisBlockSchedule>> {
    if precision.compute_complex_bytes() != complex_bytes {
        Ok(None)
    } else {
        match upload.checked() {
            Err(error) => Err(error),
            Ok(_checked) => if !(upload.upload_count == 2 || upload.upload_count == 3)
                || upload.register_boost != 1
                || !request_consistent(upload.upload_count, request)
                || !device_has_lanes(device) {
                Ok(None)
            } else {
                match scheduler_policy(precision, device) {
                    Err(error) => Err(error),
                    Ok(policy) => {
                        let fft_len = upload.axis_split[request.axis_upload_id as int];
                        if upload.radix_schedules[request.axis_upload_id as int].fft_len != fft_len
                            || upload.radix_schedules[request.axis_upload_id as int].rhs_transform_count
                                != request.transform_count {
                            Ok(None)
                        } else {
                            match ceil_div(
                                fft_len,
                                upload.radix_schedules[request.axis_upload_id as int].min_registers_per_thread,
                            ) {
                                Err(error) => Err(error),
                                Ok(lanes) => {
                                    let threads = umax(lanes, 1);
                                    if threads > device.max_threads_per_block
                                        || device.shared_memory_bytes < complex_bytes
                                        || device.shared_memory_pow2_bytes < complex_bytes {
                                        Ok(None)
                                    } else {
                                        let shared = device.shared_memory_bytes / complex_bytes;
                                        let shared_pow2 = device.shared_memory_pow2_bytes
                                            / complex_bytes;
                                        let strided = strided_capacity(
                                            device.shared_memory_bytes,
                                            complex_bytes,
                                            policy.coalesced_memory_bytes,
                                            shared,
                                        );
                                        let warp = umax(policy.subgroup_width, 1);
                                        let width = umax(
                                            policy.coalesced_memory_bytes / complex_bytes,
                                            1,
                                        );
                                        match initial_group(
                                            strided,
                                            fft_len,
                                            width,
                                            "Four-step initial grouped batch",
                                        ) {
                                            Err(error) => Err(error),
                                            Ok(
                                                initial,
                                            ) => if request.grouped_batch_override.is_some() {
                                                grouped_shape_block(
                                                    upload.upload_count,
                                                    fft_len,
                                                    threads,
                                                    request,
                                                    precision,
                                                    complex_bytes,
                                                    device,
                                                )
                                            } else {
                                                match four_step_group(
                                                    upload.upload_count,
                                                    request.axis_upload_id,
                                                    fft_len,
                                                    shared,
                                                    complex_bytes,
                                                    initial,
                                                    width,
                                                    device,
                                                ) {
                                                    Err(error) => Err(error),
                                                    Ok((adjusted, coalesced)) => {
                                                        let grouped = aligned_group(
                                                            adjusted,
                                                            coalesced,
                                                            fft_len,
                                                            strided,
                                                            shared,
                                                            warp,
                                                        );
                                                        if request.axis_upload_id == 0 {
                                                            Ok(
                                                                first_upload_block(
                                                                    fft_len,
                                                                    threads,
                                                                    grouped,
                                                                    coalesced,
                                                                    warp,
                                                                    shared,
                                                                    shared_pow2,
                                                                    false,
                                                                    false,
                                                                    request,
                                                                    device,
                                                                ),
                                                            )
                                                        } else {
                                                            later_upload_block(
                                                                fft_len,
                                                                threads,
                                                                grouped,
                                                                coalesced,
                                                                shared,
                                                                "Four-step higher-upload grouped batch scale",
                                                                request,
                                                                device,
                                                            )
                                                        }
                                                    },
                                                }
                                            },
                                        }
                                    }
                                },
                            }
                        }
                    },
                }
            },
        }
    }
}

pub fn plan_gpu_axis0_four_step_upload_block_with_grouped_batch_for_precision(
    upload: &StockhamUploadSchedule,
    request: FourStepAxisBlockRequest,
    precision: Precision,
    complex_bytes: usize,
    device: DeviceProfile,
) -> (planned: PlanResult<Option<StockhamAxisBlockSchedule>>)
    ensures
        planned == axis0_four_step_block(upload@, request, precision, complex_bytes, device),
        axis_upload_shape(
            planned,
            request.axis_upload_id,
            request.transform_count,
            device,
            request.perform_zero_padding,
        ),
{
    reveal(axis0_four_step_block);
    if precision.compute_complex_bytes() != complex_bytes {
        return Ok(None);
    }
    let _checked: () = upload.validate()?;
    if !(upload.upload_count == 2 || upload.upload_count == 3)
        || upload.register_boost != 1
        || !request_consistent(upload.upload_count, request)
        || !device_has_lanes(device) {
        return Ok(None);
    }
    let policy: GpuSchedulerPolicy = plan_gpu_scheduler_policy(precision, device)?;
    let fft_len: usize = upload.axis_split[request.axis_upload_id];
    if upload.radix_schedules[request.axis_upload_id].fft_len != fft_len
        || upload.radix_schedules[request.axis_upload_id].rhs_transform_count
            != request.transform_count {
        return Ok(None);
    }
    let lanes: usize = ceil_div(
        fft_len,
        upload.radix_schedules[request.axis_upload_id].min_registers_per_thread,
    )?;
    let threads: usize = umax(lanes, 1);
    if threads > device.max_threads_per_block
        || device.shared_memory_bytes < complex_bytes
        || device.shared_memory_pow2_bytes < complex_bytes {
        return Ok(None);
    }
    let shared: usize = device.shared_memory_bytes / complex_bytes;
    let shared_pow2: usize = device.shared_memory_pow2_bytes / complex_bytes;
    let strided: usize = strided_capacity(
        device.shared_memory_bytes,
        complex_bytes,
        policy.coalesced_memory_bytes,
        shared,
    );
    let warp: usize = umax(policy.subgroup_width, 1);
    let width: usize = umax(policy.coalesced_memory_bytes / complex_bytes, 1);
    let initial: usize = initial_group(strided, fft_len, width, "Four-step initial grouped batch")?;
    if request.grouped_batch_override.is_some() {
        return plan_gpu_axis0_four_step_grouped_block_from_shape_for_precision(
            upload.upload_count,
            fft_len,
            threads,
            request,
            precision,
            complex_bytes,
            device,
        );
    }
    let (adjusted, coalesced) = adjust_four_step_group(
        upload.upload_count,
        request.axis_upload_id,
        fft_len,
        shared,
        complex_bytes,
        initial,
        width,
        device,
    )?;
    let grouped: usize = align_group(adjusted, coalesced, fft_len, strided, shared, warp);
    if request.axis_upload_id == 0 {
        return Ok(
            plan_first_upload_block(
                fft_len,
                threads,
                grouped,
                coalesced,
                warp,
                shared,
                shared_pow2,
                false,
                false,
                request,
                device,
            ),
        );
    }
    plan_later_upload_block(
        fft_len,
        threads,
        grouped,
        coalesced,
        shared,
        "Four-step higher-upload grouped batch scale",
        request,
        device,
    )
}

/// The same, the precision given by its footprint.
pub open spec fn axis0_four_step_block_of_bytes(
    upload: StockhamUploadModel,
    request: FourStepAxisBlockRequest,
    complex_bytes: usize,
    device: DeviceProfile,
) -> PlanResult<Option<StockhamAxisBlockSchedule>> {
    match ordinary_precision_of_bytes(complex_bytes) {
        None => Ok(None),
        Some(precision) => axis0_four_step_block(upload, request, precision, complex_bytes, device),
    }
}

pub fn plan_gpu_axis0_four_step_upload_block_with_grouped_batch(
    upload: &StockhamUploadSchedule,
    request: FourStepAxisBlockRequest,
    complex_bytes: usize,
    device: DeviceProfile,
) -> (planned: PlanResult<Option<StockhamAxisBlockSchedule>>)
    ensures
        planned == axis0_four_step_block_of_bytes(upload@, request, complex_bytes, device),
        axis_upload_shape(
            planned,
            request.axis_upload_id,
            request.transform_count,
            device,
            request.perform_zero_padding,
        ),
{
    let precision: Precision = match ordinary_precision_of_bytes(complex_bytes) {
        Some(value) => value,
        None => {
            return Ok(None);
        },
    };
    plan_gpu_axis0_four_step_upload_block_with_grouped_batch_for_precision(
        upload,
        request,
        precision,
        complex_bytes,
        device,
    )
}

/// The same without zero padding and with the automatic group.
pub open spec fn axis0_four_step_block_automatic(
    upload: StockhamUploadModel,
    axis_upload_id: usize,
    stage_start_size: usize,
    transform_count: usize,
    outer_batch_count: usize,
    complex_bytes: usize,
    device: DeviceProfile,
) -> PlanResult<Option<StockhamAxisBlockSchedule>> {
    axis0_four_step_block_of_bytes(
        upload,
        (
            FourStepAxisBlockRequest {
                axis_upload_id,
                stage_start_size,
                transform_count,
                outer_batch_count,
                perform_zero_padding: false,
                grouped_batch_override: None,
            }
        ),
        complex_bytes,
        device,
    )
}

pub fn plan_gpu_axis0_four_step_upload_block(
    upload: &StockhamUploadSchedule,
    axis_upload_id: usize,
    stage_start_size: usize,
    transform_count: usize,
    outer_batch_count: usize,
    complex_bytes: usize,
    device: DeviceProfile,
) -> (planned: PlanResult<Option<StockhamAxisBlockSchedule>>)
    ensures
        planned == axis0_four_step_block_automatic(
            upload@,
            axis_upload_id,
            stage_start_size,
            transform_count,
            outer_batch_count,
            complex_bytes,
            device,
        ),
        axis_upload_shape(planned, axis_upload_id, transform_count, device, false),
{
    plan_gpu_axis0_four_step_upload_block_with_grouped_batch(
        upload,
        (
            FourStepAxisBlockRequest {
                axis_upload_id,
                stage_start_size,
                transform_count,
                outer_batch_count,
                perform_zero_padding: false,
                grouped_batch_override: None,
            }
        ),
        complex_bytes,
        device,
    )
}

/// The name of the scaling step shows in errors only.
proof fn later_group_whatever_the_name(
    fft_len: usize,
    threads: usize,
    grouped: usize,
    coalesced: usize,
    shared: usize,
    one: &'static str,
    other: &'static str,
    request: FourStepAxisBlockRequest,
    device: DeviceProfile,
)
    requires
        later_upload_block(
            fft_len,
            threads,
            grouped,
            coalesced,
            shared,
            one,
            request,
            device,
        ) is Ok,
    ensures
        later_upload_block(fft_len, threads, grouped, coalesced, shared, one, request, device)
            == later_upload_block(
            fft_len,
            threads,
            grouped,
            coalesced,
            shared,
            other,
            request,
            device,
        ),
{
    reveal(later_upload_block);
    reveal(later_upload_group);
    reveal(aim_scaled_group);
}

/// The splitter that knows a shape only agrees with the one that reads an upload schedule,
/// on every upload with the automatic group that takes more than one transform and whose
/// lanes fit the first local dimension.
pub proof fn shape_block_agrees_with_upload_block(
    upload: StockhamUploadModel,
    request: FourStepAxisBlockRequest,
    precision: Precision,
    complex_bytes: usize,
    device: DeviceProfile,
    block: StockhamAxisBlockSchedule,
)
    requires
        request.grouped_batch_override is None,
        axis0_four_step_block(upload, request, precision, complex_bytes, device) == Ok::<
            Option<StockhamAxisBlockSchedule>,
            VkFftError,
        >(Some(block)),
        block.grouped_batch > 1,
        block.threads_per_transform <= device.max_workgroup_size[0],
    ensures
        default_shape_block(
            upload.upload_count,
            upload.axis_split[request.axis_upload_id as int],
            block.threads_per_transform,
            request,
            precision,
            complex_bytes,
            device,
        ) == Ok::<Option<StockhamAxisBlockSchedule>, VkFftError>(Some(block)),
{
    reveal(axis0_four_step_block);
    reveal(default_upload_block);
    reveal(upload_capacities);
    reveal(default_upload_group);
    let fft_len = upload.axis_split[request.axis_upload_id as int];
    let lanes = ceil_div(
        fft_len,
        upload.radix_schedules[request.axis_upload_id as int].min_registers_per_thread,
    )->Ok_0;
    let threads = umax(lanes, 1);
    assert(block.threads_per_transform == threads) by {
        reveal(first_upload_block);
        reveal(later_upload_block);
        reveal(swappable_block);
        reveal(transforms_x_block);
        reveal(block_if_checked);
    }
    assert(fft_len != 0) by {
        assert(!has_zero(upload.axis_split));
    }
    let policy = scheduler_policy(precision, device)->Ok_0;
    let shared = device.shared_memory_bytes / complex_bytes;
    let strided = strided_capacity(
        device.shared_memory_bytes,
        complex_bytes,
        policy.coalesced_memory_bytes,
        shared,
    );
    let warp = umax(policy.subgroup_width, 1);
    let width = umax(policy.coalesced_memory_bytes / complex_bytes, 1);
    let capacities = UploadCapacities {
        shared,
        shared_pow2: device.shared_memory_pow2_bytes / complex_bytes,
        strided,
        warp,
        width,
    };
    assert(upload_capacities(None, precision, complex_bytes, device) == Ok::<
        Option<UploadCapacities>,
        VkFftError,
    >(Some(capacities)));
    let initial = initial_group(strided, fft_len, width, "Four-step initial grouped batch")->Ok_0;
    let (adjusted, coalesced) = four_step_group(
        upload.upload_count,
        request.axis_upload_id,
        fft_len,
        shared,
        complex_bytes,
        initial,
        width,
        device,
    )->Ok_0;
    let grouped = aligned_group(adjusted, coalesced, fft_len, strided, shared, warp);
    assert(default_upload_group(
        upload.upload_count,
        request.axis_upload_id,
        fft_len,
        complex_bytes,
        false,
        capacities,
        device,
    ) == Ok::<(usize, usize), VkFftError>((grouped, coalesced)));
    if request.axis_upload_id != 0 {
        later_group_whatever_the_name(
            fft_len,
            threads,
            grouped,
            coalesced,
            shared,
            "Four-step higher-upload grouped batch scale",
            "Four-step shape higher-upload grouped batch scale",
            request,
            device,
        );
    }
}

} // verus!
