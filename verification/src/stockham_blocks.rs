//! Workgroup shapes of Stockham uploads.

use vstd::prelude::*;

use crate::arith::{ceil_div, checked_mul, umax, umin};
use crate::axis_block::{
    adjust_four_step_group, align_group, aligned_group, automatic_x_group, block_swappable,
    block_transforms_on_x, choose_automatic_x_group, choose_user_x_group, contiguous_shape,
    estimate_batch, fit_group, four_step_group, group_fit, initial_group, limit_group,
    limited_group, ordinary_precision_of_bytes, power_of_two_above, product_exceeds, quotient,
    should_swap_axes, shrink_for_vendor, strided_shape, swappable_block, swaps_axes,
    transforms_x_block, user_x_group, value_or, vendor_shrunk, StockhamAxisBlockSchedule,
    AIM_THREADS,
};
use crate::config::{Backend, DeviceProfile, GpuVendor, Precision};
use crate::error::{PlanResult, VkFftError};
use crate::policy::{plan_gpu_scheduler_policy, scheduler_policy, GpuSchedulerPolicy};
use crate::quad::{
    plan_gpu_double_double_quad_registers, quad_schedule, DoubleDoubleQuadRegisterSchedule,
};
use crate::upload_count::StockhamUploadAxisContext;
use crate::uploads::{
    double_double_uploads, plain_context,
    plan_gpu_double_double_stockham_uploads_for_batches_with_axis_context, strided_capacity,
    DoubleDoubleStockhamUploadSchedule, DoubleDoubleUploadModel, StockhamUploadModel,
    StockhamUploadSchedule, DD_COMPLEX_BYTES,
};

verus! {

/// Shared memory a double-double Stockham kernel may use. NVIDIA's OpenCL compiler keeps
/// one complex value for itself.
#[verifier::allow_in_spec]
pub fn double_double_stockham_usable_shared_memory_bytes(
    device: DeviceProfile,
) -> usize
    returns
        (if device.backend == Backend::OpenCl && device.vendor == GpuVendor::Nvidia {
            device.shared_memory_bytes.saturating_sub(DD_COMPLEX_BYTES)
        } else {
            device.shared_memory_bytes
        }),
{
    if device.backend == Backend::OpenCl && device.vendor == GpuVendor::Nvidia {
        return device.shared_memory_bytes.saturating_sub(DD_COMPLEX_BYTES);
    }
    device.shared_memory_bytes
}

/// Which local dimension holds the lanes of a one-transform workgroup.
#[derive(Debug, Clone, Copy, PartialEq, Eq, Structural)]
pub enum LaneAxis {
    X,
    Y,
}

/// Lanes one workgroup may have along its lane dimension.
#[verifier::allow_in_spec]
pub fn lane_limit(
    lanes: LaneAxis,
    device: DeviceProfile,
) -> usize
    returns
        (
            umin(
                device.max_threads_per_block,
                if lanes == LaneAxis::X {
                    device.max_workgroup_size[0]
                } else {
                    device.max_workgroup_size[1]
                },
            )
        ),
{
    umin(
        device.max_threads_per_block,
        if lanes == LaneAxis::X {
            device.max_workgroup_size[0]
        } else {
            device.max_workgroup_size[1]
        },
    )
}

/// Lanes of one transform once its registers are scaled so that the lanes fit the limit.
pub open spec fn scaled_lanes(
    len: usize,
    min_registers: usize,
    limit: usize,
    denominator_operation: &'static str,
    scaling_operation: &'static str,
) -> PlanResult<usize> {
    match checked_mul(min_registers, limit, denominator_operation) {
        Err(error) => Err(error),
        Ok(denominator) => match ceil_div(len, denominator) {
            Err(error) => Err(error),
            Ok(needed) => match checked_mul(min_registers, umax(needed, 1), scaling_operation) {
                Err(error) => Err(error),
                Ok(scaled) => match ceil_div(len, scaled) {
                    Err(error) => Err(error),
                    Ok(lanes) => Ok(umax(lanes, 1)),
                },
            },
        },
    }
}

fn scale_lanes(
    len: usize,
    min_registers: usize,
    limit: usize,
    denominator_operation: &'static str,
    scaling_operation: &'static str,
) -> (planned: PlanResult<usize>)
    ensures
        planned == scaled_lanes(
            len,
            min_registers,
            limit,
            denominator_operation,
            scaling_operation,
        ),
{
    let denominator: usize = checked_mul(min_registers, limit, denominator_operation)?;
    let needed: usize = ceil_div(len, denominator)?;
    let scaled: usize = checked_mul(min_registers, umax(needed, 1), scaling_operation)?;
    let lanes: usize = ceil_div(len, scaled)?;
    Ok(umax(lanes, 1))
}

/// The workgroup of a double-double axis that one upload covers: one transform, its
/// lanes on the given dimension. Nothing where more uploads are needed or a limit is
/// passed.
#[verifier::opaque]
pub open spec fn one_transform_block(
    sequence_len: usize,
    batch_count: usize,
    lanes: LaneAxis,
    denominator_operation: &'static str,
    scaling_operation: &'static str,
    device: DeviceProfile,
    axis_context: StockhamUploadAxisContext,
) -> PlanResult<Option<StockhamAxisBlockSchedule>> {
    if sequence_len < 2
        || batch_count == 0
        || device.max_threads_per_block == 0
        || device.max_workgroup_size[0] == 0
        || (lanes == LaneAxis::Y && device.max_workgroup_size[1] == 0) {
        Ok(None)
    } else {
        match double_double_uploads(sequence_len, batch_count, device, axis_context) {
            Err(VkFftError::UnsupportedKernelPath(_)) => Ok(None),
            Err(VkFftError::ResourceLimitExceeded { .. }) => Ok(None),
            Err(error) => Err(error),
            Ok(upload) => if upload.upload_count != 1 {
                Ok(None)
            } else {
                match quad_schedule(sequence_len, batch_count) {
                    Err(VkFftError::UnsupportedKernelPath(_)) => Ok(None),
                    Err(error) => Err(error),
                    Ok(quad) => {
                        let limit = lane_limit(lanes, device);
                        if limit == 0 || quad.min_registers_per_thread == 0 {
                            Ok(None)
                        } else {
                            match scaled_lanes(
                                sequence_len,
                                quad.min_registers_per_thread,
                                limit,
                                denominator_operation,
                                scaling_operation,
                            ) {
                                Err(error) => Err(error),
                                Ok(threads) => {
                                    let shared = double_double_stockham_usable_shared_memory_bytes(
                                        device,
                                    ) / DD_COMPLEX_BYTES;
                                    if threads > limit || sequence_len > shared {
                                        Ok(None)
                                    } else if lanes == LaneAxis::X {
                                        Ok(swappable_block(1, threads, false, batch_count, device))
                                    } else {
                                        Ok(transforms_x_block(1, threads, batch_count, device))
                                    }
                                },
                            }
                        }
                    },
                }
            },
        }
    }
}

fn plan_one_transform_block(
    sequence_len: usize,
    batch_count: usize,
    lanes: LaneAxis,
    denominator_operation: &'static str,
    scaling_operation: &'static str,
    device: DeviceProfile,
    axis_context: StockhamUploadAxisContext,
) -> (planned: PlanResult<Option<StockhamAxisBlockSchedule>>)
    ensures
        planned == one_transform_block(
            sequence_len,
            batch_count,
            lanes,
            denominator_operation,
            scaling_operation,
            device,
            axis_context,
        ),
        lanes == LaneAxis::X ==> contiguous_shape(planned, batch_count, device, true),
        lanes == LaneAxis::Y ==> strided_shape(planned, batch_count, device),
{
    reveal(one_transform_block);
    if sequence_len < 2
        || batch_count == 0
        || device.max_threads_per_block == 0
        || device.max_workgroup_size[0] == 0
        || (lanes == LaneAxis::Y && device.max_workgroup_size[1] == 0) {
        return Ok(None);
    }
    let upload: DoubleDoubleStockhamUploadSchedule =
        match plan_gpu_double_double_stockham_uploads_for_batches_with_axis_context(
        sequence_len,
        batch_count,
        device,
        axis_context,
    ) {
        Ok(value) => value,
        Err(VkFftError::UnsupportedKernelPath(_)) => {
            return Ok(None);
        },
        Err(VkFftError::ResourceLimitExceeded { .. }) => {
            return Ok(None);
        },
        Err(error) => {
            return Err(error);
        },
    };
    if upload.upload_count != 1 {
        return Ok(None);
    }
    let quad: DoubleDoubleQuadRegisterSchedule = match plan_gpu_double_double_quad_registers(
        sequence_len,
        batch_count,
    ) {
        Ok(value) => value,
        Err(VkFftError::UnsupportedKernelPath(_)) => {
            return Ok(None);
        },
        Err(error) => {
            return Err(error);
        },
    };
    let limit: usize = lane_limit(lanes, device);
    if limit == 0 || quad.min_registers_per_thread == 0 {
        return Ok(None);
    }
    let threads: usize = scale_lanes(
        sequence_len,
        quad.min_registers_per_thread,
        limit,
        denominator_operation,
        scaling_operation,
    )?;
    let shared: usize = double_double_stockham_usable_shared_memory_bytes(
        device,
    ) / DD_COMPLEX_BYTES;
    if threads > limit || sequence_len > shared {
        return Ok(None);
    }
    if lanes == LaneAxis::X {
        return Ok(block_swappable(1, threads, false, batch_count, device));
    }
    Ok(block_transforms_on_x(1, threads, batch_count, device))
}

/// The workgroup of a contiguous double-double axis.
pub open spec fn double_double_axis0_block(
    sequence_len: usize,
    batch_count: usize,
    device: DeviceProfile,
    axis_context: StockhamUploadAxisContext,
) -> PlanResult<Option<StockhamAxisBlockSchedule>> {
    one_transform_block(
        sequence_len,
        batch_count,
        LaneAxis::X,
        "double-double Stockham global register scaling denominator",
        "double-double Stockham global minimum-register scaling",
        device,
        axis_context,
    )
}

fn plan_gpu_double_double_axis0_stockham_block_with_axis_context(
    sequence_len: usize,
    batch_count: usize,
    device: DeviceProfile,
    axis_context: StockhamUploadAxisContext,
) -> (planned: PlanResult<Option<StockhamAxisBlockSchedule>>)
    ensures
        planned == double_double_axis0_block(sequence_len, batch_count, device, axis_context),
        contiguous_shape(planned, batch_count, device, false),
{
    plan_one_transform_block(
        sequence_len,
        batch_count,
        LaneAxis::X,
        "double-double Stockham global register scaling denominator",
        "double-double Stockham global minimum-register scaling",
        device,
        axis_context,
    )
}

pub fn plan_gpu_double_double_axis0_stockham_block(
    sequence_len: usize,
    batch_count: usize,
    device: DeviceProfile,
) -> (planned: PlanResult<Option<StockhamAxisBlockSchedule>>)
    ensures
        planned == double_double_axis0_block(sequence_len, batch_count, device, plain_context()),
        contiguous_shape(planned, batch_count, device, false),
{
    plan_gpu_double_double_axis0_stockham_block_with_axis_context(
        sequence_len,
        batch_count,
        device,
        plain_context(),
    )
}

/// The same for the inner transform of a Bluestein convolution.
pub fn plan_gpu_double_double_axis0_bluestein_stockham_block(
    sequence_len: usize,
    batch_count: usize,
    device: DeviceProfile,
) -> (planned: PlanResult<Option<StockhamAxisBlockSchedule>>)
    ensures
        planned == double_double_axis0_block(
            sequence_len,
            batch_count,
            device,
            StockhamUploadAxisContext { use_bluestein_fft: true, ..plain_context() },
        ),
        contiguous_shape(planned, batch_count, device, false),
{
    plan_gpu_double_double_axis0_stockham_block_with_axis_context(
        sequence_len,
        batch_count,
        device,
        StockhamUploadAxisContext { use_bluestein_fft: true, ..plain_context() },
    )
}

/// The workgroup of a strided double-double axis.
pub open spec fn double_double_other_axis_block(
    sequence_len: usize,
    batch_count: usize,
    device: DeviceProfile,
    axis_context: StockhamUploadAxisContext,
) -> PlanResult<Option<StockhamAxisBlockSchedule>> {
    one_transform_block(
        sequence_len,
        batch_count,
        LaneAxis::Y,
        "double-double higher-axis Stockham global register scaling denominator",
        "double-double higher-axis Stockham global minimum-register scaling",
        device,
        axis_context,
    )
}

fn plan_gpu_double_double_other_axis_stockham_block_with_axis_context(
    sequence_len: usize,
    batch_count: usize,
    device: DeviceProfile,
    axis_context: StockhamUploadAxisContext,
) -> (planned: PlanResult<Option<StockhamAxisBlockSchedule>>)
    ensures
        planned == double_double_other_axis_block(sequence_len, batch_count, device, axis_context),
        strided_shape(planned, batch_count, device),
{
    plan_one_transform_block(
        sequence_len,
        batch_count,
        LaneAxis::Y,
        "double-double higher-axis Stockham global register scaling denominator",
        "double-double higher-axis Stockham global minimum-register scaling",
        device,
        axis_context,
    )
}

/// The context of a strided axis that may halve its transaction width.
#[verifier::allow_in_spec]
pub fn strided_context(
    use_bluestein_fft: bool,
) -> StockhamUploadAxisContext
    returns
        (
            StockhamUploadAxisContext {
                strided_axis: true,
                bandwidth_boost: 1,
                use_bluestein_fft,
                perform_convolution: false,
            }
        ),
{
    StockhamUploadAxisContext {
        strided_axis: true,
        bandwidth_boost: 1,
        use_bluestein_fft,
        perform_convolution: false,
    }
}

pub fn plan_gpu_double_double_other_axis_stockham_block(
    sequence_len: usize,
    batch_count: usize,
    device: DeviceProfile,
) -> (planned: PlanResult<Option<StockhamAxisBlockSchedule>>)
    ensures
        planned == double_double_other_axis_block(
            sequence_len,
            batch_count,
            device,
            strided_context(false),
        ),
        strided_shape(planned, batch_count, device),
{
    plan_gpu_double_double_other_axis_stockham_block_with_axis_context(
        sequence_len,
        batch_count,
        device,
        strided_context(false),
    )
}

/// The same for the inner transform of a Bluestein convolution.
pub fn plan_gpu_double_double_other_axis_bluestein_stockham_block(
    sequence_len: usize,
    batch_count: usize,
    device: DeviceProfile,
) -> (planned: PlanResult<Option<StockhamAxisBlockSchedule>>)
    ensures
        planned == double_double_other_axis_block(
            sequence_len,
            batch_count,
            device,
            strided_context(true),
        ),
        strided_shape(planned, batch_count, device),
{
    plan_gpu_double_double_other_axis_stockham_block_with_axis_context(
        sequence_len,
        batch_count,
        device,
        strided_context(true),
    )
}

/// The group on Y that a caller's request caps: what shared memory holds, at least the
/// coalesced width, at most the request and the batch.
#[verifier::allow_in_spec]
pub fn requested_group(
    len: usize,
    shared: usize,
    coalesced: usize,
    requested: usize,
    batch_count: usize,
) -> usize
    returns
        umax(umin(umin(umax(quotient(shared, len), coalesced), requested), batch_count), 1),
{
    umax(umin(umin(umax(quotient(shared, len), coalesced), requested), batch_count), 1)
}

/// The workgroup of a contiguous double-double axis with a requested group.
#[verifier::opaque]
pub open spec fn double_double_axis0_user_block(
    sequence_len: usize,
    batch_count: usize,
    grouped_batch_override: Option<usize>,
    perform_zero_padding: bool,
    device: DeviceProfile,
) -> PlanResult<Option<StockhamAxisBlockSchedule>> {
    match grouped_batch_override {
        None => Ok(None),
        Some(requested) => if requested <= 1
            || sequence_len < 2
            || batch_count == 0
            || device.max_threads_per_block == 0
            || device.max_workgroup_size[0] == 0
            || device.max_workgroup_size[1] == 0 {
            Ok(None)
        } else {
            match scheduler_policy(Precision::DoubleDouble, device) {
                Err(VkFftError::UnsupportedKernelPath(_)) => Ok(None),
                Err(error) => Err(error),
                Ok(policy) => match quad_schedule(sequence_len, batch_count) {
                    Err(VkFftError::UnsupportedKernelPath(_)) => Ok(None),
                    Err(error) => Err(error),
                    Ok(quad) => match ceil_div(sequence_len, quad.min_registers_per_thread) {
                        Err(error) => Err(error),
                        Ok(lanes) => {
                            let threads = umax(lanes, 1);
                            let shared = double_double_stockham_usable_shared_memory_bytes(
                                device,
                            ) / DD_COMPLEX_BYTES;
                            if threads > device.max_threads_per_block
                                || shared == 0
                                || sequence_len > shared {
                                Ok(None)
                            } else {
                                let coalesced = umax(
                                    policy.coalesced_memory_bytes / DD_COMPLEX_BYTES,
                                    1,
                                );
                                let wanted = requested_group(
                                    sequence_len,
                                    shared,
                                    coalesced,
                                    requested,
                                    batch_count,
                                );
                                let grouped = limited_group(
                                    wanted,
                                    threads,
                                    sequence_len,
                                    shared,
                                    device,
                                );
                                let swapped = swaps_axes(
                                    sequence_len,
                                    threads,
                                    grouped,
                                    shared,
                                    perform_zero_padding,
                                    device,
                                );
                                Ok(swappable_block(grouped, threads, swapped, batch_count, device))
                            }
                        },
                    },
                },
            }
        },
    }
}

pub fn plan_gpu_double_double_axis0_user_grouped_stockham_block_with_zero_padding(
    sequence_len: usize,
    batch_count: usize,
    grouped_batch_override: Option<usize>,
    perform_zero_padding: bool,
    device: DeviceProfile,
) -> (planned: PlanResult<Option<StockhamAxisBlockSchedule>>)
    ensures
        planned == double_double_axis0_user_block(
            sequence_len,
            batch_count,
            grouped_batch_override,
            perform_zero_padding,
            device,
        ),
        contiguous_shape(planned, batch_count, device, perform_zero_padding),
{
    reveal(double_double_axis0_user_block);
    let requested: usize = match grouped_batch_override {
        Some(value) => value,
        None => {
            return Ok(None);
        },
    };
    if requested <= 1
        || sequence_len < 2
        || batch_count == 0
        || device.max_threads_per_block == 0
        || device.max_workgroup_size[0] == 0
        || device.max_workgroup_size[1] == 0 {
        return Ok(None);
    }
    let policy: GpuSchedulerPolicy = match plan_gpu_scheduler_policy(
        Precision::DoubleDouble,
        device,
    ) {
        Ok(value) => value,
        Err(VkFftError::UnsupportedKernelPath(_)) => {
            return Ok(None);
        },
        Err(error) => {
            return Err(error);
        },
    };
    let quad: DoubleDoubleQuadRegisterSchedule = match plan_gpu_double_double_quad_registers(
        sequence_len,
        batch_count,
    ) {
        Ok(value) => value,
        Err(VkFftError::UnsupportedKernelPath(_)) => {
            return Ok(None);
        },
        Err(error) => {
            return Err(error);
        },
    };
    let lanes: usize = ceil_div(sequence_len, quad.min_registers_per_thread)?;
    let threads: usize = umax(lanes, 1);
    let shared: usize = double_double_stockham_usable_shared_memory_bytes(
        device,
    ) / DD_COMPLEX_BYTES;
    if threads > device.max_threads_per_block || shared == 0 || sequence_len > shared {
        return Ok(None);
    }
    let coalesced: usize = umax(policy.coalesced_memory_bytes / DD_COMPLEX_BYTES, 1);
    let wanted: usize = requested_group(sequence_len, shared, coalesced, requested, batch_count);
    let grouped: usize = limit_group(wanted, threads, sequence_len, shared, device);
    let swapped: bool = should_swap_axes(
        sequence_len,
        threads,
        grouped,
        shared,
        perform_zero_padding,
        device,
    );
    Ok(block_swappable(grouped, threads, swapped, batch_count, device))
}

pub fn plan_gpu_double_double_axis0_user_grouped_stockham_block(
    sequence_len: usize,
    batch_count: usize,
    grouped_batch_override: Option<usize>,
    device: DeviceProfile,
) -> (planned: PlanResult<Option<StockhamAxisBlockSchedule>>)
    ensures
        planned == double_double_axis0_user_block(
            sequence_len,
            batch_count,
            grouped_batch_override,
            false,
            device,
        ),
        contiguous_shape(planned, batch_count, device, false),
{
    plan_gpu_double_double_axis0_user_grouped_stockham_block_with_zero_padding(
        sequence_len,
        batch_count,
        grouped_batch_override,
        false,
        device,
    )
}

/// The workgroup of a strided double-double axis, grouped on request or automatically.
#[verifier::opaque]
pub open spec fn double_double_other_axis_user_block(
    sequence_len: usize,
    batch_count: usize,
    fastest_axis_len: usize,
    grouped_batch_override: Option<usize>,
    axis1_grouped_batch_override: Option<usize>,
    device: DeviceProfile,
) -> PlanResult<Option<StockhamAxisBlockSchedule>> {
    if grouped_batch_override == Some(0usize)
        || sequence_len < 2
        || batch_count == 0
        || fastest_axis_len == 0
        || device.max_threads_per_block == 0
        || device.max_workgroup_size[0] == 0
        || device.max_workgroup_size[1] == 0 {
        Ok(None)
    } else {
        match scheduler_policy(Precision::DoubleDouble, device) {
            Err(VkFftError::UnsupportedKernelPath(_)) => Ok(None),
            Err(error) => Err(error),
            Ok(policy) => match quad_schedule(sequence_len, batch_count) {
                Err(VkFftError::UnsupportedKernelPath(_)) => Ok(None),
                Err(error) => Err(error),
                Ok(quad) => match ceil_div(sequence_len, quad.min_registers_per_thread) {
                    Err(error) => Err(error),
                    Ok(lanes) => {
                        let threads = umax(lanes, 1);
                        if threads > device.max_threads_per_block
                            || threads > device.max_workgroup_size[1] {
                            Ok(None)
                        } else {
                            let shared_bytes = double_double_stockham_usable_shared_memory_bytes(
                                device,
                            );
                            let shared = shared_bytes / DD_COMPLEX_BYTES;
                            let strided = strided_capacity(
                                shared_bytes,
                                DD_COMPLEX_BYTES,
                                policy.coalesced_memory_bytes,
                                shared,
                            );
                            if shared == 0 || strided == 0 {
                                Ok(None)
                            } else {
                                let coalesced = umax(
                                    policy.coalesced_memory_bytes / DD_COMPLEX_BYTES,
                                    1,
                                );
                                match initial_group(
                                    strided,
                                    sequence_len,
                                    coalesced,
                                    "double-double higher-axis initial grouped batch",
                                ) {
                                    Err(error) => Err(error),
                                    Ok(initial) => if grouped_batch_override.is_some() {
                                        match user_x_group(
                                            umin(fastest_axis_len, initial),
                                            value_or(axis1_grouped_batch_override, 0),
                                            value_or(grouped_batch_override, 0),
                                            threads,
                                            batch_count,
                                            false,
                                            device,
                                        ) {
                                            None => Ok(None),
                                            Some(grouped) => Ok(
                                                transforms_x_block(
                                                    grouped,
                                                    threads,
                                                    batch_count,
                                                    device,
                                                ),
                                            ),
                                        }
                                    } else {
                                        let aligned = aligned_group(
                                            initial,
                                            coalesced,
                                            sequence_len,
                                            strided,
                                            shared,
                                            umax(policy.subgroup_width, 1),
                                        );
                                        let grouped = automatic_x_group(
                                            aligned,
                                            fastest_axis_len,
                                            threads,
                                            coalesced,
                                            batch_count,
                                            device,
                                        );
                                        Ok(
                                            transforms_x_block(
                                                grouped,
                                                threads,
                                                batch_count,
                                                device,
                                            ),
                                        )
                                    },
                                }
                            }
                        }
                    },
                },
            },
        }
    }
}

pub fn plan_gpu_double_double_other_axis_user_grouped_stockham_block(
    sequence_len: usize,
    batch_count: usize,
    fastest_axis_len: usize,
    grouped_batch_override: Option<usize>,
    axis1_grouped_batch_override: Option<usize>,
    device: DeviceProfile,
) -> (planned: PlanResult<Option<StockhamAxisBlockSchedule>>)
    ensures
        planned == double_double_other_axis_user_block(
            sequence_len,
            batch_count,
            fastest_axis_len,
            grouped_batch_override,
            axis1_grouped_batch_override,
            device,
        ),
        strided_shape(planned, batch_count, device),
{
    reveal(double_double_other_axis_user_block);
    if grouped_batch_override == Some(0usize)
        || sequence_len < 2
        || batch_count == 0
        || fastest_axis_len == 0
        || device.max_threads_per_block == 0
        || device.max_workgroup_size[0] == 0
        || device.max_workgroup_size[1] == 0 {
        return Ok(None);
    }
    let policy: GpuSchedulerPolicy = match plan_gpu_scheduler_policy(
        Precision::DoubleDouble,
        device,
    ) {
        Ok(value) => value,
        Err(VkFftError::UnsupportedKernelPath(_)) => {
            return Ok(None);
        },
        Err(error) => {
            return Err(error);
        },
    };
    let quad: DoubleDoubleQuadRegisterSchedule = match plan_gpu_double_double_quad_registers(
        sequence_len,
        batch_count,
    ) {
        Ok(value) => value,
        Err(VkFftError::UnsupportedKernelPath(_)) => {
            return Ok(None);
        },
        Err(error) => {
            return Err(error);
        },
    };
    let lanes: usize = ceil_div(sequence_len, quad.min_registers_per_thread)?;
    let threads: usize = umax(lanes, 1);
    if threads > device.max_threads_per_block || threads > device.max_workgroup_size[1] {
        return Ok(None);
    }
    let shared_bytes: usize = double_double_stockham_usable_shared_memory_bytes(device);
    let shared: usize = shared_bytes / DD_COMPLEX_BYTES;
    let strided: usize = strided_capacity(
        shared_bytes,
        DD_COMPLEX_BYTES,
        policy.coalesced_memory_bytes,
        shared,
    );
    if shared == 0 || strided == 0 {
        return Ok(None);
    }
    let coalesced: usize = umax(policy.coalesced_memory_bytes / DD_COMPLEX_BYTES, 1);
    let initial: usize = initial_group(
        strided,
        sequence_len,
        coalesced,
        "double-double higher-axis initial grouped batch",
    )?;
    if grouped_batch_override.is_some() {
        let grouped: usize = match choose_user_x_group(
            umin(fastest_axis_len, initial),
            value_or(axis1_grouped_batch_override, 0),
            value_or(grouped_batch_override, 0),
            threads,
            batch_count,
            false,
            device,
        ) {
            Some(value) => value,
            None => {
                return Ok(None);
            },
        };
        return Ok(block_transforms_on_x(grouped, threads, batch_count, device));
    }
    let aligned: usize = align_group(
        initial,
        coalesced,
        sequence_len,
        strided,
        shared,
        umax(policy.subgroup_width, 1),
    );
    let grouped: usize = choose_automatic_x_group(
        aligned,
        fastest_axis_len,
        threads,
        coalesced,
        batch_count,
        device,
    );
    Ok(block_transforms_on_x(grouped, threads, batch_count, device))
}

/// The workgroup of a contiguous axis that one unboosted upload covers.
#[verifier::opaque]
pub open spec fn axis0_single_block(
    upload: StockhamUploadModel,
    complex_bytes: usize,
    perform_zero_padding: bool,
    grouped_batch_override: Option<usize>,
    device: DeviceProfile,
) -> PlanResult<Option<StockhamAxisBlockSchedule>> {
    match upload.checked() {
        Err(error) => Err(error),
        Ok(_checked) => if upload.upload_count != 1
            || upload.register_boost != 1
            || complex_bytes == 0
            || device.max_threads_per_block == 0
            || device.max_workgroup_size[0] == 0
            || device.max_workgroup_size[1] == 0 {
            Ok(None)
        } else {
            match ceil_div(
                upload.sequence_len,
                upload.radix_schedules[0].min_registers_per_thread,
            ) {
                Err(error) => Err(error),
                Ok(lanes) => {
                    let threads = umax(lanes, 1);
                    if threads > device.max_workgroup_size[0]
                        || threads > device.max_threads_per_block {
                        Ok(None)
                    } else {
                        match ordinary_precision_of_bytes(complex_bytes) {
                            None => Ok(None),
                            Some(precision) => match scheduler_policy(precision, device) {
                                Err(error) => Err(error),
                                Ok(policy) => {
                                    let warp = umax(policy.subgroup_width, 1);
                                    let coalesced = umax(
                                        policy.coalesced_memory_bytes / complex_bytes,
                                        1,
                                    );
                                    let shared = device.shared_memory_bytes / complex_bytes;
                                    let shared_pow2 = device.shared_memory_pow2_bytes
                                        / complex_bytes;
                                    if shared == 0 || shared_pow2 == 0 {
                                        Ok(None)
                                    } else {
                                        let automatic = automatic_single_group_spec(
                                            upload.sequence_len,
                                            upload.batch_count,
                                            threads,
                                            warp,
                                            coalesced,
                                            shared_pow2,
                                            perform_zero_padding,
                                            device,
                                        );
                                        let wanted = if grouped_batch_override.is_some() {
                                            requested_group(
                                                upload.sequence_len,
                                                shared,
                                                coalesced,
                                                value_or(grouped_batch_override, 0),
                                                upload.batch_count,
                                            )
                                        } else {
                                            automatic
                                        };
                                        let grouped = limited_group(
                                            wanted,
                                            threads,
                                            upload.sequence_len,
                                            shared,
                                            device,
                                        );
                                        let swapped = swaps_axes(
                                            upload.sequence_len,
                                            threads,
                                            grouped,
                                            shared,
                                            perform_zero_padding,
                                            device,
                                        );
                                        Ok(
                                            swappable_block(
                                                grouped,
                                                threads,
                                                swapped,
                                                upload.batch_count,
                                                device,
                                            ),
                                        )
                                    }
                                },
                            },
                        }
                    }
                },
            }
        },
    }
}

pub fn plan_gpu_axis0_single_upload_block_with_grouped_batch(
    upload: &StockhamUploadSchedule,
    complex_bytes: usize,
    perform_zero_padding: bool,
    grouped_batch_override: Option<usize>,
    device: DeviceProfile,
) -> (planned: PlanResult<Option<StockhamAxisBlockSchedule>>)
    ensures
        planned == axis0_single_block(
            upload@,
            complex_bytes,
            perform_zero_padding,
            grouped_batch_override,
            device,
        ),
        contiguous_shape(planned, upload.batch_count, device, perform_zero_padding),
{
    reveal(axis0_single_block);
    let _checked: () = upload.validate()?;
    if upload.upload_count != 1
        || upload.register_boost != 1
        || complex_bytes == 0
        || device.max_threads_per_block == 0
        || device.max_workgroup_size[0] == 0
        || device.max_workgroup_size[1] == 0 {
        return Ok(None);
    }
    let lanes: usize = ceil_div(
        upload.sequence_len,
        upload.radix_schedules[0].min_registers_per_thread,
    )?;
    let threads: usize = umax(lanes, 1);
    if threads > device.max_workgroup_size[0] || threads > device.max_threads_per_block {
        return Ok(None);
    }
    let precision: Precision = match ordinary_precision_of_bytes(complex_bytes) {
        Some(value) => value,
        None => {
            return Ok(None);
        },
    };
    let policy: GpuSchedulerPolicy = plan_gpu_scheduler_policy(precision, device)?;
    let warp: usize = umax(policy.subgroup_width, 1);
    let coalesced: usize = umax(policy.coalesced_memory_bytes / complex_bytes, 1);
    let shared: usize = device.shared_memory_bytes / complex_bytes;
    let shared_pow2: usize = device.shared_memory_pow2_bytes / complex_bytes;
    if shared == 0 || shared_pow2 == 0 {
        return Ok(None);
    }
    let automatic: usize = automatic_single_group(
        upload.sequence_len,
        upload.batch_count,
        threads,
        warp,
        coalesced,
        shared_pow2,
        perform_zero_padding,
        device,
    );
    let wanted: usize = if grouped_batch_override.is_some() {
        requested_group(
            upload.sequence_len,
            shared,
            coalesced,
            value_or(grouped_batch_override, 0),
            upload.batch_count,
        )
    } else {
        automatic
    };
    let grouped: usize = limit_group(wanted, threads, upload.sequence_len, shared, device);
    let swapped: bool = should_swap_axes(
        upload.sequence_len,
        threads,
        grouped,
        shared,
        perform_zero_padding,
        device,
    );
    Ok(block_swappable(grouped, threads, swapped, upload.batch_count, device))
}

/// The automatic group of a one-upload axis: narrow transforms are grouped to the aimed
/// lane count, to a power of two where the dimensions are exchanged.
pub open spec fn automatic_single_group_spec(
    len: usize,
    batch_count: usize,
    threads: usize,
    warp: usize,
    coalesced: usize,
    shared_pow2: usize,
    perform_zero_padding: bool,
    device: DeviceProfile,
) -> usize {
    let estimated = if threads < AIM_THREADS && threads < warp {
        estimate_batch(threads, warp)
    } else {
        1
    };
    let bounded = umax(umin(estimated, batch_count), 1);
    let rounded = if swaps_axes(len, threads, bounded, shared_pow2, perform_zero_padding, device) {
        power_of_two_above(bounded)
    } else {
        bounded
    };
    vendor_shrunk(rounded, threads, coalesced, device)
}

fn automatic_single_group(
    len: usize,
    batch_count: usize,
    threads: usize,
    warp: usize,
    coalesced: usize,
    shared_pow2: usize,
    perform_zero_padding: bool,
    device: DeviceProfile,
) -> (planned: usize)
    ensures
        planned == automatic_single_group_spec(
            len,
            batch_count,
            threads,
            warp,
            coalesced,
            shared_pow2,
            perform_zero_padding,
            device,
        ),
{
    let estimated: usize = if threads < AIM_THREADS && threads < warp {
        estimate_batch(threads, warp)
    } else {
        1
    };
    let bounded: usize = umax(umin(estimated, batch_count), 1);
    let rounded: usize = if should_swap_axes(
        len,
        threads,
        bounded,
        shared_pow2,
        perform_zero_padding,
        device,
    ) {
        power_of_two_above(bounded)
    } else {
        bounded
    };
    shrink_for_vendor(rounded, threads, coalesced, device)
}

pub fn plan_gpu_axis0_single_upload_block_with_zero_padding(
    upload: &StockhamUploadSchedule,
    complex_bytes: usize,
    perform_zero_padding: bool,
    device: DeviceProfile,
) -> (planned: PlanResult<Option<StockhamAxisBlockSchedule>>)
    ensures
        planned == axis0_single_block(upload@, complex_bytes, perform_zero_padding, None, device),
        contiguous_shape(planned, upload.batch_count, device, perform_zero_padding),
{
    plan_gpu_axis0_single_upload_block_with_grouped_batch(
        upload,
        complex_bytes,
        perform_zero_padding,
        None,
        device,
    )
}

pub fn plan_gpu_axis0_single_upload_block(
    upload: &StockhamUploadSchedule,
    complex_bytes: usize,
    device: DeviceProfile,
) -> (planned: PlanResult<Option<StockhamAxisBlockSchedule>>)
    ensures
        planned == axis0_single_block(upload@, complex_bytes, false, None, device),
        contiguous_shape(planned, upload.batch_count, device, false),
{
    plan_gpu_axis0_single_upload_block_with_zero_padding(upload, complex_bytes, false, device)
}

/// The workgroup of a strided axis that one upload covers.
#[verifier::opaque]
pub open spec fn other_axis_single_block(
    upload: StockhamUploadModel,
    fastest_axis_len: usize,
    precision: Precision,
    complex_bytes: usize,
    grouped_batch_override: Option<usize>,
    axis1_grouped_batch_override: Option<usize>,
    device: DeviceProfile,
) -> PlanResult<Option<StockhamAxisBlockSchedule>> {
    match upload.checked() {
        Err(error) => Err(error),
        Ok(_checked) => if precision.compute_complex_bytes() != complex_bytes
            || upload.upload_count != 1
            || fastest_axis_len == 0
            || device.max_threads_per_block == 0
            || device.max_workgroup_size[0] == 0
            || device.max_workgroup_size[1] == 0 {
            Ok(None)
        } else if grouped_batch_override.is_some() && upload.register_boost != 1 {
            Ok(None)
        } else {
            match scheduler_policy(precision, device) {
                Err(error) => Err(error),
                Ok(policy) => if upload.radix_schedules[0].fft_len != upload.sequence_len
                    || upload.radix_schedules[0].rhs_transform_count != upload.batch_count {
                    Ok(None)
                } else {
                    match ceil_div(
                        upload.sequence_len,
                        upload.radix_schedules[0].min_registers_per_thread,
                    ) {
                        Err(error) => Err(error),
                        Ok(lanes) => {
                            let threads = umax(quotient(lanes, upload.register_boost), 1);
                            if threads > device.max_threads_per_block
                                || threads > device.max_workgroup_size[1] {
                                Ok(None)
                            } else {
                                let shared = device.shared_memory_bytes / complex_bytes;
                                let strided = strided_capacity(
                                    device.shared_memory_bytes,
                                    complex_bytes,
                                    policy.coalesced_memory_bytes,
                                    shared,
                                );
                                if shared == 0 || strided == 0 {
                                    Ok(None)
                                } else {
                                    let coalesced = umax(
                                        policy.coalesced_memory_bytes / complex_bytes,
                                        1,
                                    );
                                    match initial_group(
                                        strided,
                                        upload.sequence_len,
                                        coalesced,
                                        "higher-axis initial grouped batch",
                                    ) {
                                        Err(error) => Err(error),
                                        Ok(initial) => if grouped_batch_override.is_some() {
                                            if grouped_batch_override == Some(0usize) {
                                                Ok(None)
                                            } else {
                                                match user_x_group(
                                                    umin(fastest_axis_len, initial),
                                                    value_or(axis1_grouped_batch_override, 0),
                                                    value_or(grouped_batch_override, 0),
                                                    threads,
                                                    upload.batch_count,
                                                    false,
                                                    device,
                                                ) {
                                                    None => Ok(None),
                                                    Some(grouped) => Ok(
                                                        transforms_x_block(
                                                            grouped,
                                                            threads,
                                                            upload.batch_count,
                                                            device,
                                                        ),
                                                    ),
                                                }
                                            }
                                        } else {
                                            let aligned = aligned_group(
                                                initial,
                                                coalesced,
                                                upload.sequence_len,
                                                strided,
                                                shared,
                                                umax(policy.subgroup_width, 1),
                                            );
                                            let bounded = umin(
                                                umin(aligned, fastest_axis_len),
                                                upload.batch_count,
                                            );
                                            let shrunk = vendor_shrunk(
                                                bounded,
                                                threads,
                                                coalesced,
                                                device,
                                            );
                                            let clamped = umax(
                                                umin(shrunk, device.max_workgroup_size[0]),
                                                1,
                                            );
                                            let grouped = group_fit(
                                                clamped,
                                                threads,
                                                device.max_threads_per_block,
                                            );
                                            Ok(
                                                transforms_x_block(
                                                    grouped,
                                                    threads,
                                                    upload.batch_count,
                                                    device,
                                                ),
                                            )
                                        },
                                    }
                                }
                            }
                        },
                    }
                },
            }
        },
    }
}

pub fn plan_gpu_other_axis_single_upload_block_with_grouped_batch_for_precision(
    upload: &StockhamUploadSchedule,
    fastest_axis_len: usize,
    precision: Precision,
    complex_bytes: usize,
    grouped_batch_override: Option<usize>,
    axis1_grouped_batch_override: Option<usize>,
    device: DeviceProfile,
) -> (planned: PlanResult<Option<StockhamAxisBlockSchedule>>)
    ensures
        planned == other_axis_single_block(
            upload@,
            fastest_axis_len,
            precision,
            complex_bytes,
            grouped_batch_override,
            axis1_grouped_batch_override,
            device,
        ),
        strided_shape(planned, upload.batch_count, device),
{
    reveal(other_axis_single_block);
    let _checked: () = upload.validate()?;
    if precision.compute_complex_bytes() != complex_bytes
        || upload.upload_count != 1
        || fastest_axis_len == 0
        || device.max_threads_per_block == 0
        || device.max_workgroup_size[0] == 0
        || device.max_workgroup_size[1] == 0 {
        return Ok(None);
    }
    if grouped_batch_override.is_some() && upload.register_boost != 1 {
        return Ok(None);
    }
    let policy: GpuSchedulerPolicy = plan_gpu_scheduler_policy(precision, device)?;
    if upload.radix_schedules[0].fft_len != upload.sequence_len
        || upload.radix_schedules[0].rhs_transform_count != upload.batch_count {
        return Ok(None);
    }
    let lanes: usize = ceil_div(
        upload.sequence_len,
        upload.radix_schedules[0].min_registers_per_thread,
    )?;
    let threads: usize = umax(quotient(lanes, upload.register_boost), 1);
    if threads > device.max_threads_per_block || threads > device.max_workgroup_size[1] {
        return Ok(None);
    }
    let shared: usize = device.shared_memory_bytes / complex_bytes;
    let strided: usize = strided_capacity(
        device.shared_memory_bytes,
        complex_bytes,
        policy.coalesced_memory_bytes,
        shared,
    );
    if shared == 0 || strided == 0 {
        return Ok(None);
    }
    let coalesced: usize = umax(policy.coalesced_memory_bytes / complex_bytes, 1);
    let initial: usize = initial_group(
        strided,
        upload.sequence_len,
        coalesced,
        "higher-axis initial grouped batch",
    )?;
    if grouped_batch_override.is_some() {
        if grouped_batch_override == Some(0usize) {
            return Ok(None);
        }
        let grouped: usize = match choose_user_x_group(
            umin(fastest_axis_len, initial),
            value_or(axis1_grouped_batch_override, 0),
            value_or(grouped_batch_override, 0),
            threads,
            upload.batch_count,
            false,
            device,
        ) {
            Some(value) => value,
            None => {
                return Ok(None);
            },
        };
        return Ok(block_transforms_on_x(grouped, threads, upload.batch_count, device));
    }
    let aligned: usize = align_group(
        initial,
        coalesced,
        upload.sequence_len,
        strided,
        shared,
        umax(policy.subgroup_width, 1),
    );
    let bounded: usize = umin(umin(aligned, fastest_axis_len), upload.batch_count);
    let shrunk: usize = shrink_for_vendor(bounded, threads, coalesced, device);
    let clamped: usize = umax(umin(shrunk, device.max_workgroup_size[0]), 1);
    let grouped: usize = fit_group(clamped, threads, device.max_threads_per_block);
    Ok(block_transforms_on_x(grouped, threads, upload.batch_count, device))
}

/// The same, the precision given by its footprint.
pub open spec fn other_axis_single_block_of_bytes(
    upload: StockhamUploadModel,
    fastest_axis_len: usize,
    complex_bytes: usize,
    grouped_batch_override: Option<usize>,
    axis1_grouped_batch_override: Option<usize>,
    device: DeviceProfile,
) -> PlanResult<Option<StockhamAxisBlockSchedule>> {
    match ordinary_precision_of_bytes(complex_bytes) {
        None => Ok(None),
        Some(precision) => other_axis_single_block(
            upload,
            fastest_axis_len,
            precision,
            complex_bytes,
            grouped_batch_override,
            axis1_grouped_batch_override,
            device,
        ),
    }
}

pub fn plan_gpu_other_axis_single_upload_block_with_grouped_batch(
    upload: &StockhamUploadSchedule,
    fastest_axis_len: usize,
    complex_bytes: usize,
    grouped_batch_override: Option<usize>,
    axis1_grouped_batch_override: Option<usize>,
    device: DeviceProfile,
) -> (planned: PlanResult<Option<StockhamAxisBlockSchedule>>)
    ensures
        planned == other_axis_single_block_of_bytes(
            upload@,
            fastest_axis_len,
            complex_bytes,
            grouped_batch_override,
            axis1_grouped_batch_override,
            device,
        ),
        strided_shape(planned, upload.batch_count, device),
{
    let precision: Precision = match ordinary_precision_of_bytes(complex_bytes) {
        Some(value) => value,
        None => {
            return Ok(None);
        },
    };
    plan_gpu_other_axis_single_upload_block_with_grouped_batch_for_precision(
        upload,
        fastest_axis_len,
        precision,
        complex_bytes,
        grouped_batch_override,
        axis1_grouped_batch_override,
        device,
    )
}

pub fn plan_gpu_other_axis_single_upload_block(
    upload: &StockhamUploadSchedule,
    fastest_axis_len: usize,
    complex_bytes: usize,
    device: DeviceProfile,
) -> (planned: PlanResult<Option<StockhamAxisBlockSchedule>>)
    ensures
        planned == other_axis_single_block_of_bytes(
            upload@,
            fastest_axis_len,
            complex_bytes,
            None,
            None,
            device,
        ),
        strided_shape(planned, upload.batch_count, device),
{
    plan_gpu_other_axis_single_upload_block_with_grouped_batch(
        upload,
        fastest_axis_len,
        complex_bytes,
        None,
        None,
        device,
    )
}

/// What a Rader stage leaves of a strided upload's resources.
#[derive(Debug, Clone, Copy, PartialEq, Eq, Structural)]
pub struct OtherAxisFourStepPhysicalContext {
    pub has_direct_rader: bool,
    pub available_shared_memory_bytes: usize,
}

/// One upload of several on a strided axis.
#[derive(Debug, Clone, Copy, PartialEq, Eq, Structural)]
pub struct OtherAxisUpload {
    pub upload_count: usize,
    pub axis_upload_id: usize,
    pub fft_len: usize,
    pub transform_count: usize,
    pub fastest_axis_len: usize,
    pub threads: usize,
}

/// The workgroup of one upload of a strided axis, from its capacities.
pub open spec fn other_axis_upload_block(
    upload: OtherAxisUpload,
    complex_bytes: usize,
    shared: usize,
    strided: usize,
    policy: GpuSchedulerPolicy,
    has_direct_rader: bool,
    operation: &'static str,
    grouped_batch_override: Option<usize>,
    axis1_grouped_batch_override: Option<usize>,
    device: DeviceProfile,
) -> PlanResult<Option<StockhamAxisBlockSchedule>> {
    let coalesced = umax(quotient(policy.coalesced_memory_bytes, complex_bytes), 1);
    match initial_group(strided, upload.fft_len, coalesced, operation) {
        Err(error) => Err(error),
        Ok(initial) => if grouped_batch_override.is_some() {
            if grouped_batch_override == Some(0usize) {
                Ok(None)
            } else {
                let pressed = if has_direct_rader
                    && product_exceeds(upload.threads, initial, device.max_threads_per_block) {
                    coalesced
                } else {
                    initial
                };
                match user_x_group(
                    umin(upload.fastest_axis_len, pressed),
                    value_or(axis1_grouped_batch_override, 0),
                    value_or(grouped_batch_override, 0),
                    upload.threads,
                    upload.transform_count,
                    true,
                    device,
                ) {
                    None => Ok(None),
                    Some(grouped) => Ok(
                        transforms_x_block(grouped, upload.threads, upload.transform_count, device),
                    ),
                }
            }
        } else {
            match four_step_group(
                upload.upload_count,
                upload.axis_upload_id,
                upload.fft_len,
                shared,
                complex_bytes,
                initial,
                coalesced,
                device,
            ) {
                Err(error) => Err(error),
                Ok((adjusted, width)) => {
                    let aligned = aligned_group(
                        adjusted,
                        width,
                        upload.fft_len,
                        strided,
                        shared,
                        umax(policy.subgroup_width, 1),
                    );
                    let pressed = if has_direct_rader
                        && product_exceeds(upload.threads, aligned, device.max_threads_per_block) {
                        umax(width, 1)
                    } else {
                        aligned
                    };
                    let grouped = automatic_x_group(
                        pressed,
                        upload.fastest_axis_len,
                        upload.threads,
                        width,
                        upload.transform_count,
                        device,
                    );
                    Ok(transforms_x_block(grouped, upload.threads, upload.transform_count, device))
                },
            }
        },
    }
}

fn plan_other_axis_upload_block(
    upload: OtherAxisUpload,
    complex_bytes: usize,
    shared: usize,
    strided: usize,
    policy: GpuSchedulerPolicy,
    has_direct_rader: bool,
    operation: &'static str,
    grouped_batch_override: Option<usize>,
    axis1_grouped_batch_override: Option<usize>,
    device: DeviceProfile,
) -> (planned: PlanResult<Option<StockhamAxisBlockSchedule>>)
    ensures
        planned == other_axis_upload_block(
            upload,
            complex_bytes,
            shared,
            strided,
            policy,
            has_direct_rader,
            operation,
            grouped_batch_override,
            axis1_grouped_batch_override,
            device,
        ),
        strided_shape(planned, upload.transform_count, device),
{
    let coalesced: usize = umax(quotient(policy.coalesced_memory_bytes, complex_bytes), 1);
    let initial: usize = initial_group(strided, upload.fft_len, coalesced, operation)?;
    if grouped_batch_override.is_some() {
        if grouped_batch_override == Some(0usize) {
            return Ok(None);
        }
        let pressed: usize = if has_direct_rader
            && product_exceeds(upload.threads, initial, device.max_threads_per_block) {
            coalesced
        } else {
            initial
        };
        let grouped: usize = match choose_user_x_group(
            umin(upload.fastest_axis_len, pressed),
            value_or(axis1_grouped_batch_override, 0),
            value_or(grouped_batch_override, 0),
            upload.threads,
            upload.transform_count,
            true,
            device,
        ) {
            Some(value) => value,
            None => {
                return Ok(None);
            },
        };
        return Ok(block_transforms_on_x(grouped, upload.threads, upload.transform_count, device));
    }
    let (adjusted, width) = adjust_four_step_group(
        upload.upload_count,
        upload.axis_upload_id,
        upload.fft_len,
        shared,
        complex_bytes,
        initial,
        coalesced,
        device,
    )?;
    let aligned: usize = align_group(
        adjusted,
        width,
        upload.fft_len,
        strided,
        shared,
        umax(policy.subgroup_width, 1),
    );
    let pressed: usize = if has_direct_rader
        && product_exceeds(upload.threads, aligned, device.max_threads_per_block) {
        umax(width, 1)
    } else {
        aligned
    };
    let grouped: usize = choose_automatic_x_group(
        pressed,
        upload.fastest_axis_len,
        upload.threads,
        width,
        upload.transform_count,
        device,
    );
    Ok(block_transforms_on_x(grouped, upload.threads, upload.transform_count, device))
}

/// The workgroup of one upload of a strided axis whose lane count is known.
#[verifier::opaque]
pub open spec fn other_axis_four_step_shape_block(
    upload_count: usize,
    axis_upload_id: usize,
    fft_len: usize,
    transform_count: usize,
    fastest_axis_len: usize,
    threads_per_transform: usize,
    precision: Precision,
    complex_bytes: usize,
    grouped_batch_override: Option<usize>,
    axis1_grouped_batch_override: Option<usize>,
    physical: OtherAxisFourStepPhysicalContext,
    device: DeviceProfile,
) -> PlanResult<Option<StockhamAxisBlockSchedule>> {
    if !(upload_count == 2 || upload_count == 3)
        || axis_upload_id >= upload_count
        || fft_len == 0
        || transform_count == 0
        || fastest_axis_len == 0
        || threads_per_transform == 0
        || complex_bytes == 0
        || physical.available_shared_memory_bytes == 0
        || device.max_threads_per_block == 0
        || device.max_workgroup_size[0] == 0
        || device.max_workgroup_size[1] == 0
        || threads_per_transform > device.max_threads_per_block
        || threads_per_transform > device.max_workgroup_size[1] {
        Ok(None)
    } else {
        match scheduler_policy(precision, device) {
            Err(error) => Err(error),
            Ok(policy) => {
                let shared = physical.available_shared_memory_bytes / complex_bytes;
                let strided = strided_capacity(
                    physical.available_shared_memory_bytes,
                    complex_bytes,
                    policy.coalesced_memory_bytes,
                    shared,
                );
                if shared == 0 || strided == 0 {
                    Ok(None)
                } else {
                    let upload = OtherAxisUpload {
                        upload_count,
                        axis_upload_id,
                        fft_len,
                        transform_count,
                        fastest_axis_len,
                        threads: threads_per_transform,
                    };
                    other_axis_upload_block(
                        upload,
                        complex_bytes,
                        shared,
                        strided,
                        policy,
                        physical.has_direct_rader,
                        "higher-axis Four-step initial grouped batch",
                        grouped_batch_override,
                        axis1_grouped_batch_override,
                        device,
                    )
                }
            },
        }
    }
}

pub fn plan_gpu_other_axis_four_step_block_from_shape_for_precision(
    upload_count: usize,
    axis_upload_id: usize,
    fft_len: usize,
    transform_count: usize,
    fastest_axis_len: usize,
    threads_per_transform: usize,
    precision: Precision,
    complex_bytes: usize,
    grouped_batch_override: Option<usize>,
    axis1_grouped_batch_override: Option<usize>,
    physical: OtherAxisFourStepPhysicalContext,
    device: DeviceProfile,
) -> (planned: PlanResult<Option<StockhamAxisBlockSchedule>>)
    ensures
        planned == other_axis_four_step_shape_block(
            upload_count,
            axis_upload_id,
            fft_len,
            transform_count,
            fastest_axis_len,
            threads_per_transform,
            precision,
            complex_bytes,
            grouped_batch_override,
            axis1_grouped_batch_override,
            physical,
            device,
        ),
        strided_shape(planned, transform_count, device),
{
    reveal(other_axis_four_step_shape_block);
    if !(upload_count == 2 || upload_count == 3)
        || axis_upload_id >= upload_count
        || fft_len == 0
        || transform_count == 0
        || fastest_axis_len == 0
        || threads_per_transform == 0
        || complex_bytes == 0
        || physical.available_shared_memory_bytes == 0
        || device.max_threads_per_block == 0
        || device.max_workgroup_size[0] == 0
        || device.max_workgroup_size[1] == 0
        || threads_per_transform > device.max_threads_per_block
        || threads_per_transform > device.max_workgroup_size[1] {
        return Ok(None);
    }
    let policy: GpuSchedulerPolicy = plan_gpu_scheduler_policy(precision, device)?;
    let shared: usize = physical.available_shared_memory_bytes / complex_bytes;
    let strided: usize = strided_capacity(
        physical.available_shared_memory_bytes,
        complex_bytes,
        policy.coalesced_memory_bytes,
        shared,
    );
    if shared == 0 || strided == 0 {
        return Ok(None);
    }
    let upload: OtherAxisUpload = OtherAxisUpload {
        upload_count,
        axis_upload_id,
        fft_len,
        transform_count,
        fastest_axis_len,
        threads: threads_per_transform,
    };
    plan_other_axis_upload_block(
        upload,
        complex_bytes,
        shared,
        strided,
        policy,
        physical.has_direct_rader,
        "higher-axis Four-step initial grouped batch",
        grouped_batch_override,
        axis1_grouped_batch_override,
        device,
    )
}

/// The workgroup of one upload of a strided axis.
#[verifier::opaque]
pub open spec fn other_axis_four_step_block(
    upload: StockhamUploadModel,
    axis_upload_id: usize,
    transform_count: usize,
    fastest_axis_len: usize,
    precision: Precision,
    complex_bytes: usize,
    grouped_batch_override: Option<usize>,
    axis1_grouped_batch_override: Option<usize>,
    device: DeviceProfile,
) -> PlanResult<Option<StockhamAxisBlockSchedule>> {
    match upload.checked() {
        Err(error) => Err(error),
        Ok(_checked) => if !(upload.upload_count == 2 || upload.upload_count == 3)
            || upload.register_boost != 1
            || axis_upload_id >= upload.upload_count
            || transform_count == 0
            || fastest_axis_len == 0
            || complex_bytes == 0
            || device.max_threads_per_block == 0
            || device.max_workgroup_size[0] == 0
            || device.max_workgroup_size[1] == 0 {
            Ok(None)
        } else {
            let fft_len = upload.axis_split[axis_upload_id as int];
            if upload.radix_schedules[axis_upload_id as int].fft_len != fft_len
                || upload.radix_schedules[axis_upload_id as int].rhs_transform_count
                    != transform_count {
                Ok(None)
            } else {
                match ceil_div(
                    fft_len,
                    upload.radix_schedules[axis_upload_id as int].min_registers_per_thread,
                ) {
                    Err(error) => Err(error),
                    Ok(lanes) => {
                        let physical = OtherAxisFourStepPhysicalContext {
                            has_direct_rader: false,
                            available_shared_memory_bytes: device.shared_memory_bytes,
                        };
                        other_axis_four_step_shape_block(
                            upload.upload_count,
                            axis_upload_id,
                            fft_len,
                            transform_count,
                            fastest_axis_len,
                            umax(lanes, 1),
                            precision,
                            complex_bytes,
                            grouped_batch_override,
                            axis1_grouped_batch_override,
                            physical,
                            device,
                        )
                    },
                }
            }
        },
    }
}

pub fn plan_gpu_other_axis_four_step_upload_block_with_grouped_batch_for_precision(
    upload: &StockhamUploadSchedule,
    axis_upload_id: usize,
    transform_count: usize,
    fastest_axis_len: usize,
    precision: Precision,
    complex_bytes: usize,
    grouped_batch_override: Option<usize>,
    axis1_grouped_batch_override: Option<usize>,
    device: DeviceProfile,
) -> (planned: PlanResult<Option<StockhamAxisBlockSchedule>>)
    ensures
        planned == other_axis_four_step_block(
            upload@,
            axis_upload_id,
            transform_count,
            fastest_axis_len,
            precision,
            complex_bytes,
            grouped_batch_override,
            axis1_grouped_batch_override,
            device,
        ),
        strided_shape(planned, transform_count, device),
{
    reveal(other_axis_four_step_block);
    let _checked: () = upload.validate()?;
    if !(upload.upload_count == 2 || upload.upload_count == 3)
        || upload.register_boost != 1
        || axis_upload_id >= upload.upload_count
        || transform_count == 0
        || fastest_axis_len == 0
        || complex_bytes == 0
        || device.max_threads_per_block == 0
        || device.max_workgroup_size[0] == 0
        || device.max_workgroup_size[1] == 0 {
        return Ok(None);
    }
    let fft_len: usize = upload.axis_split[axis_upload_id];
    if upload.radix_schedules[axis_upload_id].fft_len != fft_len
        || upload.radix_schedules[axis_upload_id].rhs_transform_count != transform_count {
        return Ok(None);
    }
    let lanes: usize = ceil_div(
        fft_len,
        upload.radix_schedules[axis_upload_id].min_registers_per_thread,
    )?;
    let physical: OtherAxisFourStepPhysicalContext = OtherAxisFourStepPhysicalContext {
        has_direct_rader: false,
        available_shared_memory_bytes: device.shared_memory_bytes,
    };
    plan_gpu_other_axis_four_step_block_from_shape_for_precision(
        upload.upload_count,
        axis_upload_id,
        fft_len,
        transform_count,
        fastest_axis_len,
        umax(lanes, 1),
        precision,
        complex_bytes,
        grouped_batch_override,
        axis1_grouped_batch_override,
        physical,
        device,
    )
}

/// The same, the precision given by its footprint.
pub open spec fn other_axis_four_step_block_of_bytes(
    upload: StockhamUploadModel,
    axis_upload_id: usize,
    transform_count: usize,
    fastest_axis_len: usize,
    complex_bytes: usize,
    grouped_batch_override: Option<usize>,
    axis1_grouped_batch_override: Option<usize>,
    device: DeviceProfile,
) -> PlanResult<Option<StockhamAxisBlockSchedule>> {
    match ordinary_precision_of_bytes(complex_bytes) {
        None => Ok(None),
        Some(precision) => other_axis_four_step_block(
            upload,
            axis_upload_id,
            transform_count,
            fastest_axis_len,
            precision,
            complex_bytes,
            grouped_batch_override,
            axis1_grouped_batch_override,
            device,
        ),
    }
}

pub fn plan_gpu_other_axis_four_step_upload_block_with_grouped_batch(
    upload: &StockhamUploadSchedule,
    axis_upload_id: usize,
    transform_count: usize,
    fastest_axis_len: usize,
    complex_bytes: usize,
    grouped_batch_override: Option<usize>,
    axis1_grouped_batch_override: Option<usize>,
    device: DeviceProfile,
) -> (planned: PlanResult<Option<StockhamAxisBlockSchedule>>)
    ensures
        planned == other_axis_four_step_block_of_bytes(
            upload@,
            axis_upload_id,
            transform_count,
            fastest_axis_len,
            complex_bytes,
            grouped_batch_override,
            axis1_grouped_batch_override,
            device,
        ),
        strided_shape(planned, transform_count, device),
{
    let precision: Precision = match ordinary_precision_of_bytes(complex_bytes) {
        Some(value) => value,
        None => {
            return Ok(None);
        },
    };
    plan_gpu_other_axis_four_step_upload_block_with_grouped_batch_for_precision(
        upload,
        axis_upload_id,
        transform_count,
        fastest_axis_len,
        precision,
        complex_bytes,
        grouped_batch_override,
        axis1_grouped_batch_override,
        device,
    )
}

pub fn plan_gpu_other_axis_four_step_upload_block(
    upload: &StockhamUploadSchedule,
    axis_upload_id: usize,
    transform_count: usize,
    fastest_axis_len: usize,
    complex_bytes: usize,
    device: DeviceProfile,
) -> (planned: PlanResult<Option<StockhamAxisBlockSchedule>>)
    ensures
        planned == other_axis_four_step_block_of_bytes(
            upload@,
            axis_upload_id,
            transform_count,
            fastest_axis_len,
            complex_bytes,
            None,
            None,
            device,
        ),
        strided_shape(planned, transform_count, device),
{
    plan_gpu_other_axis_four_step_upload_block_with_grouped_batch(
        upload,
        axis_upload_id,
        transform_count,
        fastest_axis_len,
        complex_bytes,
        None,
        None,
        device,
    )
}

/// The workgroup of one upload of a strided double-double axis.
#[verifier::opaque]
pub open spec fn double_double_other_axis_four_step_block(
    upload: DoubleDoubleUploadModel,
    axis_upload_id: usize,
    transform_count: usize,
    fastest_axis_len: usize,
    grouped_batch_override: Option<usize>,
    axis1_grouped_batch_override: Option<usize>,
    device: DeviceProfile,
) -> PlanResult<Option<StockhamAxisBlockSchedule>> {
    match upload.checked() {
        Err(error) => Err(error),
        Ok(_checked) => if !(upload.upload_count == 2 || upload.upload_count == 3)
            || axis_upload_id >= upload.upload_count
            || transform_count == 0
            || fastest_axis_len == 0
            || device.max_threads_per_block == 0
            || device.max_workgroup_size[0] == 0
            || device.max_workgroup_size[1] == 0 {
            Ok(None)
        } else {
            match scheduler_policy(Precision::DoubleDouble, device) {
                Err(error) => Err(error),
                Ok(policy) => {
                    let fft_len = upload.axis_split[axis_upload_id as int];
                    if upload.quad_schedules[axis_upload_id as int].fft_len != fft_len
                        || upload.quad_schedules[axis_upload_id as int].rhs_transform_count
                            != transform_count {
                        Ok(None)
                    } else {
                        match ceil_div(
                            fft_len,
                            upload.quad_schedules[axis_upload_id as int].min_registers_per_thread,
                        ) {
                            Err(error) => Err(error),
                            Ok(lanes) => {
                                let threads = umax(lanes, 1);
                                if threads > device.max_threads_per_block
                                    || threads > device.max_workgroup_size[1] {
                                    Ok(None)
                                } else {
                                    let shared_bytes =
                                        double_double_stockham_usable_shared_memory_bytes(
                                        device,
                                    );
                                    let shared = shared_bytes / DD_COMPLEX_BYTES;
                                    let strided = strided_capacity(
                                        shared_bytes,
                                        DD_COMPLEX_BYTES,
                                        policy.coalesced_memory_bytes,
                                        shared,
                                    );
                                    if shared == 0 || strided == 0 {
                                        Ok(None)
                                    } else {
                                        let part = OtherAxisUpload {
                                            upload_count: upload.upload_count,
                                            axis_upload_id,
                                            fft_len,
                                            transform_count,
                                            fastest_axis_len,
                                            threads,
                                        };
                                        other_axis_upload_block(
                                            part,
                                            DD_COMPLEX_BYTES,
                                            shared,
                                            strided,
                                            policy,
                                            false,
                                            "double-double higher-axis Four-step initial grouped batch",
                                            grouped_batch_override,
                                            axis1_grouped_batch_override,
                                            device,
                                        )
                                    }
                                }
                            },
                        }
                    }
                },
            }
        },
    }
}

pub fn plan_gpu_double_double_other_axis_four_step_upload_block(
    upload: &DoubleDoubleStockhamUploadSchedule,
    axis_upload_id: usize,
    transform_count: usize,
    fastest_axis_len: usize,
    grouped_batch_override: Option<usize>,
    axis1_grouped_batch_override: Option<usize>,
    device: DeviceProfile,
) -> (planned: PlanResult<Option<StockhamAxisBlockSchedule>>)
    ensures
        planned == double_double_other_axis_four_step_block(
            upload@,
            axis_upload_id,
            transform_count,
            fastest_axis_len,
            grouped_batch_override,
            axis1_grouped_batch_override,
            device,
        ),
        strided_shape(planned, transform_count, device),
{
    reveal(double_double_other_axis_four_step_block);
    let _checked: () = upload.validate()?;
    if !(upload.upload_count == 2 || upload.upload_count == 3)
        || axis_upload_id >= upload.upload_count
        || transform_count == 0
        || fastest_axis_len == 0
        || device.max_threads_per_block == 0
        || device.max_workgroup_size[0] == 0
        || device.max_workgroup_size[1] == 0 {
        return Ok(None);
    }
    let policy: GpuSchedulerPolicy = plan_gpu_scheduler_policy(Precision::DoubleDouble, device)?;
    let fft_len: usize = upload.axis_split[axis_upload_id];
    if upload.quad_schedules[axis_upload_id].fft_len != fft_len
        || upload.quad_schedules[axis_upload_id].rhs_transform_count != transform_count {
        return Ok(None);
    }
    let lanes: usize = ceil_div(
        fft_len,
        upload.quad_schedules[axis_upload_id].min_registers_per_thread,
    )?;
    let threads: usize = umax(lanes, 1);
    if threads > device.max_threads_per_block || threads > device.max_workgroup_size[1] {
        return Ok(None);
    }
    let shared_bytes: usize = double_double_stockham_usable_shared_memory_bytes(device);
    let shared: usize = shared_bytes / DD_COMPLEX_BYTES;
    let strided: usize = strided_capacity(
        shared_bytes,
        DD_COMPLEX_BYTES,
        policy.coalesced_memory_bytes,
        shared,
    );
    if shared == 0 || strided == 0 {
        return Ok(None);
    }
    let part: OtherAxisUpload = OtherAxisUpload {
        upload_count: upload.upload_count,
        axis_upload_id,
        fft_len,
        transform_count,
        fastest_axis_len,
        threads,
    };
    plan_other_axis_upload_block(
        part,
        DD_COMPLEX_BYTES,
        shared,
        strided,
        policy,
        false,
        "double-double higher-axis Four-step initial grouped batch",
        grouped_batch_override,
        axis1_grouped_batch_override,
        device,
    )
}

} // verus!
