//! What every workgroup shape keeps: its lanes cover the transform and no fewer would, and
//! its grouped transforms fit shared memory.

use vstd::prelude::*;

use crate::arith::{ceil_div, ceil_div_is_least_cover, umax, umin};
use crate::axis_block::{
    aim_shrunk, aligned_group, automatic_x_group, block_if_checked, clamped_x_group,
    fitting_quotient, four_step_group, group_fit, halved_group, halved_to_fit, initial_group,
    limited_group, ordinary_precision_of_bytes, quotient, swappable_block, swaps_axes,
    transforms_x_block, user_x_group, vendor_shrunk,
};
use crate::config::{DeviceProfile, Precision};

use crate::group_laws::{
    aligned_groups_are_whole_widths, estimates_fill_the_aim, lanes_cover_tightly,
    limited_groups_keep_to_the_device, product_grows, shrinking_stops_at_the_aim,
};
use crate::policy::{scheduler_policy, GpuSchedulerPolicy};
use crate::pressure_laws::whole_quotient;
use crate::quad::quad_schedule;
use crate::stockham_blocks::{
    axis0_single_block, double_double_axis0_user_block, double_double_other_axis_four_step_block,
    double_double_other_axis_user_block, double_double_stockham_usable_shared_memory_bytes,
    lane_limit, one_transform_block, other_axis_four_step_block, other_axis_four_step_shape_block,
    other_axis_single_block, other_axis_upload_block, requested_group, LaneAxis,
    OtherAxisFourStepPhysicalContext, OtherAxisUpload,
};
use crate::upload_count::StockhamUploadAxisContext;
use crate::uploads::{strided_capacity, DoubleDoubleUploadModel, StockhamUploadModel};

verus! {

/// Whether `threads` lanes of `registers` values hold a transform, and one lane less does
/// not.
pub open spec fn lanes_cover(threads: int, registers: int, len: int) -> bool {
    (threads - 1) * registers < len <= threads * registers
}

/// Whether the transforms of a workgroup fit in `bytes` of shared memory. One transform
/// alone is not asked to.
pub open spec fn group_fits_memory(
    grouped: usize,
    len: usize,
    complex_bytes: usize,
    bytes: usize,
) -> bool {
    grouped > 1 ==> (grouped * len) * complex_bytes <= bytes
}

/// Whole values that fit, fit in bytes.
pub(crate) proof fn values_fit_bytes(values: int, bytes: int, complex_bytes: int)
    requires
        complex_bytes > 0,
        bytes >= 0,
    ensures
        values <= bytes / complex_bytes <==> values * complex_bytes <= bytes,
{
    whole_quotient(bytes, complex_bytes);
    if values <= bytes / complex_bytes {
        product_grows(values, bytes / complex_bytes, complex_bytes);
    } else {
        product_grows(bytes / complex_bytes + 1, values, complex_bytes);
    }
}

pub(crate) proof fn halving_ends_fitting(grouped: int, len: int, capacity: int)
    requires
        grouped >= 1,
        len >= 0,
    ensures
        1 <= halved_to_fit(grouped, len, capacity) <= grouped,
        halved_to_fit(grouped, len, capacity) > 1 && halved_to_fit(grouped, len, capacity) * len
            <= usize::MAX ==> halved_to_fit(grouped, len, capacity) * len <= capacity,
    decreases grouped,
{
    if grouped > 1 && capacity < grouped * len <= usize::MAX {
        halving_ends_fitting(grouped / 2, len, capacity);
    }
}

/// A limited group whose size can be computed fits its capacity.
pub(crate) proof fn limited_group_fits(
    grouped: usize,
    threads: usize,
    len: usize,
    capacity: usize,
    device: DeviceProfile,
)
    requires
        threads >= 1,
    ensures
        ({
            let limited = limited_group(grouped, threads, len, capacity, device);
            &&& limited >= 1
            &&& limited <= umax(grouped, 1)
            &&& limited > 1 && limited * len <= usize::MAX ==> limited * len <= capacity
        }),
{
    reveal(limited_group);
    reveal(halved_group);
    let within_size = umax(umin(grouped, device.max_workgroup_size[1]), 1);
    let most = quotient(device.max_threads_per_block, threads);
    let exceeds = device.max_threads_per_block < within_size * threads <= usize::MAX;
    let within_threads = if exceeds {
        umax(most, 1)
    } else {
        within_size
    };
    whole_quotient(device.max_threads_per_block as int, threads as int);
    if exceeds && most >= within_size {
        product_grows(within_size as int, most as int, threads as int);
    }
    halving_ends_fitting(within_threads as int, len as int, capacity as int);
}

/// Every shape that one upload of a contiguous axis gets: its lanes cover the transform
/// tightly, its grouped transforms fit shared memory, and its dimensions are exchanged
/// exactly where that avoids bank conflicts and leaves room. No request is exceeded, and one
/// is only cut where a whole step more would pass a limit. A transform that fills the aimed
/// lanes or a subgroup stays alone.
pub proof fn contiguous_shapes_keep_to_memory(
    upload: StockhamUploadModel,
    complex_bytes: usize,
    perform_zero_padding: bool,
    grouped_batch_override: Option<usize>,
    device: DeviceProfile,
)
    ensures
        axis0_single_block(
            upload,
            complex_bytes,
            perform_zero_padding,
            grouped_batch_override,
            device,
        ) matches Ok(Some(block)) ==> {
            let len = upload.sequence_len;
            let registers = upload.radix_schedules[0].min_registers_per_thread;
            let threads = block.threads_per_transform;
            let grouped = block.grouped_batch;
            &&& lanes_cover(threads as int, registers as int, len as int)
            &&& group_fits_memory(grouped, len, complex_bytes, device.shared_memory_bytes)
            &&& block.axis_swapped <==> {
                &&& !perform_zero_padding
                &&& len % 2 == 0 || 4 * threads + 4 <= device.shared_banks
                &&& grouped > 1
                &&& (grouped * len + 1) * complex_bytes <= device.shared_memory_bytes
            }
            &&& block.transforms_on_x == block.axis_swapped
            &&& grouped_batch_override is None && (threads >= 128 || threads >= scheduler_policy(
                Precision::F32,
                device,
            )->Ok_0.subgroup_width) ==> grouped == 1
            &&& grouped_batch_override matches Some(requested) ==> {
                &&& grouped <= umax(requested, 1)
                &&& grouped < requested && grouped < upload.batch_count && grouped
                    < device.max_workgroup_size[1] ==> {
                    ||| (grouped + 1) * threads > device.max_threads_per_block
                    ||| ((2 * grouped + 1) * len) * complex_bytes > device.shared_memory_bytes
                }
            }
        },
{
    reveal(axis0_single_block);
    let planned = axis0_single_block(
        upload,
        complex_bytes,
        perform_zero_padding,
        grouped_batch_override,
        device,
    );
    if planned is Ok && planned->Ok_0 is Some {
        let block = planned->Ok_0->Some_0;
        reveal(swappable_block);
        reveal(block_if_checked);
        let len = upload.sequence_len;
        let registers = upload.radix_schedules[0].min_registers_per_thread;
        let threads = block.threads_per_transform;
        let grouped = block.grouped_batch;
        let shared = (device.shared_memory_bytes / complex_bytes) as usize;
        lanes_cover_tightly(len, registers);
        ceil_div_is_least_cover(len, registers);
        product_grows(grouped as int, upload.batch_count as int, len as int);
        assert(len * upload.batch_count == upload.batch_count * len) by (nonlinear_arith);
        let policy = scheduler_policy(
            ordinary_precision_of_bytes(complex_bytes)->Some_0,
            device,
        )->Ok_0;
        let coalesced = umax((policy.coalesced_memory_bytes / complex_bytes) as usize, 1);
        let automatic = crate::stockham_blocks::automatic_single_group_spec(
            len,
            upload.batch_count,
            threads,
            umax(policy.subgroup_width, 1),
            coalesced,
            (device.shared_memory_pow2_bytes / complex_bytes) as usize,
            perform_zero_padding,
            device,
        );
        let wanted = if grouped_batch_override.is_some() {
            requested_group(
                len,
                shared,
                coalesced,
                grouped_batch_override->Some_0,
                upload.batch_count,
            )
        } else {
            automatic
        };
        assert(grouped == limited_group(wanted, threads, len, shared, device));
        limited_group_fits(wanted, threads, len, shared, device);
        values_fit_bytes(
            grouped * len,
            device.shared_memory_bytes as int,
            complex_bytes as int,
        );
        values_fit_bytes(
            grouped * len + 1,
            device.shared_memory_bytes as int,
            complex_bytes as int,
        );
        reveal(swaps_axes);
        if grouped_batch_override is None && (threads >= 128 || threads >= policy.subgroup_width) {
            alone_stays_alone(
                len,
                upload.batch_count,
                threads,
                umax(policy.subgroup_width, 1),
                coalesced,
                (device.shared_memory_pow2_bytes / complex_bytes) as usize,
                perform_zero_padding,
                device,
            );
        }
        if grouped_batch_override is Some {
            let requested = grouped_batch_override->Some_0;
            let limit = umax(umin(wanted, device.max_workgroup_size[1]), 1);
            product_grows(limit as int, upload.batch_count as int, len as int);
            product_grows(threads as int, len as int, limit as int);
            limited_groups_keep_to_the_device(wanted, threads, len, shared, device);
            whole_quotient(shared as int, len as int);
            values_fit_bytes(
                (2 * grouped + 1) * len,
                device.shared_memory_bytes as int,
                complex_bytes as int,
            );
            if grouped == wanted && wanted < requested && wanted < upload.batch_count {
                product_grows(shared as int / len as int + 1, grouped + 1, len as int);
                product_grows(grouped + 1, 2 * grouped + 1, len as int);
            }
        }
    }
}

proof fn alone_stays_alone(
    len: usize,
    batch_count: usize,
    threads: usize,
    warp: usize,
    coalesced: usize,
    shared_pow2: usize,
    perform_zero_padding: bool,
    device: DeviceProfile,
)
    requires
        threads >= 128 || threads >= warp,
    ensures
        crate::stockham_blocks::automatic_single_group_spec(
            len,
            batch_count,
            threads,
            warp,
            coalesced,
            shared_pow2,
            perform_zero_padding,
            device,
        ) <= 1,
{
    reveal(swaps_axes);
    reveal(vendor_shrunk);
    shrinking_lowers(1, threads as int, coalesced as int);
}

proof fn shrinking_lowers(grouped: int, threads: int, floor: int)
    requires
        grouped >= 0,
        floor >= 0,
    ensures
        0 <= aim_shrunk(grouped, threads, floor) <= grouped,
    decreases grouped,
{
    if 2 * crate::axis_block::AIM_THREADS <= grouped * threads <= usize::MAX && grouped > floor
        && grouped > 0 {
        shrinking_lowers(
            if grouped / 2 >= floor {
                grouped / 2
            } else {
                floor
            },
            threads,
            floor,
        );
    }
}


pub(crate) proof fn first_fit_is_no_wider(dimension: int, other: int, limit: int, divisor: int)
    requires
        divisor >= 1,
        dimension >= 0,
    ensures
        fitting_quotient(dimension, other, limit, divisor) matches Some(found) ==> 0 < found
            <= dimension,
    decreases dimension - divisor + 1,
{
    if divisor <= dimension {
        vstd::arithmetic::div_mod::lemma_div_is_ordered_by_denominator(dimension, 1, divisor);
        first_fit_is_no_wider(dimension, other, limit, divisor + 1);
    }
}

/// Cutting a group on X never widens it.
pub(crate) proof fn fitted_group_is_no_wider(grouped: usize, threads: usize, limit: usize)
    ensures
        group_fit(grouped, threads, limit) <= grouped,
{
    reveal(group_fit);
    first_fit_is_no_wider(grouped as int, threads as int, limit as int, 1);
}

/// Shrinking to the aimed workgroup never widens a group.
pub(crate) proof fn shrunk_group_is_no_wider(
    grouped: usize,
    threads: usize,
    floor: usize,
    device: DeviceProfile,
)
    ensures
        vendor_shrunk(grouped, threads, floor, device) <= grouped,
{
    reveal(vendor_shrunk);
    shrinking_lowers(grouped as int, threads as int, floor as int);
}

/// An automatic group on X is no wider than the group it starts from.
pub(crate) proof fn automatic_group_is_no_wider(
    grouped: usize,
    fastest_axis_len: usize,
    threads: usize,
    coalesced: usize,
    batch_count: usize,
    device: DeviceProfile,
)
    ensures
        automatic_x_group(grouped, fastest_axis_len, threads, coalesced, batch_count, device)
            <= umax(umin(fastest_axis_len, grouped), 1),
{
    reveal(automatic_x_group);
    let bounded = umax(umin(fastest_axis_len, grouped), 1);
    shrunk_group_is_no_wider(bounded, threads, coalesced, device);
    let shrunk = vendor_shrunk(bounded, threads, coalesced, device);
    fitted_group_is_no_wider(
        clamped_x_group(shrunk, batch_count, device),
        threads,
        device.max_threads_per_block,
    );
}

/// A strided capacity is counted in whole transactions: that many transforms of one value
/// each, one coalesced width side by side, fit the bytes.
pub(crate) proof fn strided_widths_fit(
    bytes: usize,
    complex_bytes: usize,
    coalesced_bytes: usize,
)
    requires
        complex_bytes >= 1,
    ensures
        ({
            let shared = (bytes / complex_bytes) as usize;
            let strided = strided_capacity(bytes, complex_bytes, coalesced_bytes, shared);
            let coalesced = umax((coalesced_bytes / complex_bytes) as usize, 1);
            (strided * coalesced) * complex_bytes <= bytes
        }),
{
    let shared = (bytes / complex_bytes) as usize;
    let strided = strided_capacity(bytes, complex_bytes, coalesced_bytes, shared);
    let coalesced = umax((coalesced_bytes / complex_bytes) as usize, 1);
    whole_quotient(bytes as int, complex_bytes as int);
    whole_quotient(coalesced_bytes as int, complex_bytes as int);
    if coalesced_bytes > complex_bytes {
        whole_quotient(bytes as int, coalesced_bytes as int);
        vstd::arithmetic::div_mod::lemma_div_non_zero(
            coalesced_bytes as int,
            complex_bytes as int,
        );
        product_grows(coalesced * complex_bytes, coalesced_bytes as int, strided as int);
        assert((strided * coalesced) * complex_bytes == strided * (coalesced * complex_bytes))
            by (nonlinear_arith);
        assert(strided * coalesced_bytes == coalesced_bytes * strided) by (nonlinear_arith);
    } else {
        if coalesced_bytes / complex_bytes >= 2 {
            product_grows(2, coalesced_bytes as int / complex_bytes as int, complex_bytes as int);
        }
        assert(strided * 1 == strided) by (nonlinear_arith);
    }
}

/// An aligned group fits the bytes where the group it starts from and one coalesced width
/// do, or where the transform is longer than one strided upload.
pub(crate) proof fn aligned_group_fits(
    grouped: usize,
    coalesced: usize,
    len: usize,
    strided: usize,
    bytes: usize,
    complex_bytes: usize,
    warp: usize,
)
    requires
        coalesced >= 1,
        4 * coalesced <= usize::MAX,
        len >= 1,
        warp >= 1,
        complex_bytes >= 1,
        len <= strided ==> (umax(grouped, coalesced) * len) * complex_bytes <= bytes,
    ensures
        ({
            let shared = (bytes / complex_bytes) as usize;
            let aligned = aligned_group(grouped, coalesced, len, strided, shared, warp);
            &&& aligned >= 1
            &&& group_fits_memory(aligned, len, complex_bytes, bytes)
        }),
{
    let shared = (bytes / complex_bytes) as usize;
    let aligned = aligned_group(grouped, coalesced, len, strided, shared, warp);
    aligned_groups_are_whole_widths(grouped, coalesced, len, strided, shared, warp);
    values_fit_bytes(aligned * len, bytes as int, complex_bytes as int);
    if len <= strided {
        product_grows(aligned as int, umax(grouped, coalesced) as int, len as int);
        product_grows(
            aligned * len,
            umax(grouped, coalesced) * len,
            complex_bytes as int,
        );
    }
}

/// The group a strided axis starts from fits the bytes.
pub(crate) proof fn initial_group_fits(
    bytes: usize,
    complex_bytes: usize,
    coalesced_bytes: usize,
    len: usize,
    operation: &'static str,
)
    requires
        complex_bytes >= 1,
        len >= 1,
    ensures
        ({
            let shared = (bytes / complex_bytes) as usize;
            let strided = strided_capacity(bytes, complex_bytes, coalesced_bytes, shared);
            let coalesced = umax((coalesced_bytes / complex_bytes) as usize, 1);
            initial_group(strided, len, coalesced, operation) matches Ok(initial) ==> initial
                >= coalesced && (len <= strided ==> (initial * len) * complex_bytes <= bytes)
        }),
{
    let shared = (bytes / complex_bytes) as usize;
    let strided = strided_capacity(bytes, complex_bytes, coalesced_bytes, shared);
    let coalesced = umax((coalesced_bytes / complex_bytes) as usize, 1);
    strided_widths_fit(bytes, complex_bytes, coalesced_bytes);
    whole_quotient(strided as int, len as int);
    let count = strided as int / len as int;
    if count > 1 {
        product_grows(1, count, coalesced as int);
    }
    if len <= strided {
        vstd::arithmetic::div_mod::lemma_div_non_zero(strided as int, len as int);
        assert((count * coalesced) * len == (count * len) * coalesced) by (nonlinear_arith);
        product_grows(count * len, strided as int, coalesced as int);
        product_grows((count * coalesced) * len, strided * coalesced, complex_bytes as int);
        assert(count == 1 ==> count * coalesced == coalesced) by (nonlinear_arith);
    }
}


/// Transactions are at most 128 bytes wide.
pub proof fn transactions_are_narrow(precision: Precision, device: DeviceProfile)
    ensures
        scheduler_policy(precision, device) matches Ok(policy) ==> {
            &&& 32 <= policy.coalesced_memory_bytes <= 128
            &&& policy.subgroup_width >= 1
        },
{
}

/// Whether `threads` lanes, each with `boost` times its registers, hold a transform: no
/// lane more than needed, and less than one boosted lane too few.
pub open spec fn boosted_lanes_cover(threads: int, boost: int, registers: int, len: int) -> bool {
    &&& threads >= 1
    &&& threads > 1 ==> (threads * boost - 1) * registers < len
    &&& len <= ((threads + 1) * boost - 1) * registers
}

proof fn boosted_lanes(len: usize, registers: usize, boost: usize)
    requires
        ceil_div(len, registers) is Ok,
        len >= 1,
        boost >= 1,
    ensures
        boosted_lanes_cover(
            umax(quotient(ceil_div(len, registers)->Ok_0, boost), 1) as int,
            boost as int,
            registers as int,
            len as int,
        ),
{
    lanes_cover_tightly(len, registers);
    let lanes = ceil_div(len, registers)->Ok_0;
    let threads = umax(quotient(lanes, boost), 1);
    whole_quotient(lanes as int, boost as int);
    product_grows(lanes as int / boost as int, threads as int, boost as int);
    assert((threads + 1) * boost == threads * boost + boost) by (nonlinear_arith);
    assert((lanes as int / boost as int + 1) * boost == (lanes as int / boost as int) * boost
        + boost) by (nonlinear_arith);
    product_grows(lanes as int, (threads + 1) * boost - 1, registers as int);
    if threads > 1 {
        product_grows(threads * boost - 1, lanes - 1, registers as int);
    }
}

/// A requested group on X that keeps to every limit is taken as it is.
pub(crate) proof fn fitting_request_is_taken(
    automatic: usize,
    requested: usize,
    threads: usize,
    batch_count: usize,
    reclamp: bool,
    device: DeviceProfile,
)
    requires
        1 <= requested <= batch_count,
        requested <= device.max_workgroup_size[0],
        requested * threads <= device.max_threads_per_block,
    ensures
        user_x_group(automatic, 0, requested, threads, batch_count, reclamp, device) == Some(
            requested,
        ),
{
    reveal(user_x_group);
}

/// Every shape that one upload of a strided axis gets: its lanes cover the transform, its
/// automatic group fits shared memory and the fastest axis, and a requested group within
/// the limits is taken as it is.
pub proof fn strided_shapes_keep_to_memory(
    upload: StockhamUploadModel,
    fastest_axis_len: usize,
    precision: Precision,
    complex_bytes: usize,
    grouped_batch_override: Option<usize>,
    axis1_grouped_batch_override: Option<usize>,
    device: DeviceProfile,
)
    ensures
        other_axis_single_block(
            upload,
            fastest_axis_len,
            precision,
            complex_bytes,
            grouped_batch_override,
            axis1_grouped_batch_override,
            device,
        ) matches Ok(Some(block)) ==> {
            let len = upload.sequence_len;
            let threads = block.threads_per_transform;
            let grouped = block.grouped_batch;
            &&& boosted_lanes_cover(
                threads as int,
                upload.register_boost as int,
                upload.radix_schedules[0].min_registers_per_thread as int,
                len as int,
            )
            &&& grouped_batch_override is None ==> {
                &&& group_fits_memory(grouped, len, complex_bytes, device.shared_memory_bytes)
                &&& grouped <= fastest_axis_len
            }
            &&& grouped_batch_override matches Some(requested) ==> {
                axis1_grouped_batch_override is None && 1 <= requested <= upload.batch_count
                    && requested <= device.max_workgroup_size[0] && requested * threads
                    <= device.max_threads_per_block ==> grouped == requested
            }
        },
{
    reveal(other_axis_single_block);
    let planned = other_axis_single_block(
        upload,
        fastest_axis_len,
        precision,
        complex_bytes,
        grouped_batch_override,
        axis1_grouped_batch_override,
        device,
    );
    if planned is Ok && planned->Ok_0 is Some {
        let block = planned->Ok_0->Some_0;
        reveal(transforms_x_block);
        reveal(block_if_checked);
        let len = upload.sequence_len;
        let registers = upload.radix_schedules[0].min_registers_per_thread;
        let threads = block.threads_per_transform;
        let grouped = block.grouped_batch;
        let bytes = device.shared_memory_bytes;
        let shared = (bytes / complex_bytes) as usize;
        boosted_lanes(len, registers, upload.register_boost);
        transactions_are_narrow(precision, device);
        let policy = scheduler_policy(precision, device)->Ok_0;
        let coalesced = umax((policy.coalesced_memory_bytes / complex_bytes) as usize, 1);
        let strided = strided_capacity(
            bytes,
            complex_bytes,
            policy.coalesced_memory_bytes,
            shared,
        );
        let initial = initial_group(
            strided,
            len,
            coalesced,
            "higher-axis initial grouped batch",
        )->Ok_0;
        if grouped_batch_override is None {
            vstd::arithmetic::div_mod::lemma_div_is_ordered_by_denominator(
                policy.coalesced_memory_bytes as int,
                1,
                complex_bytes as int,
            );
            initial_group_fits(
                bytes,
                complex_bytes,
                policy.coalesced_memory_bytes,
                len,
                "higher-axis initial grouped batch",
            );
            let warp = umax(policy.subgroup_width, 1);
            aligned_group_fits(initial, coalesced, len, strided, bytes, complex_bytes, warp);
            let aligned = aligned_group(initial, coalesced, len, strided, shared, warp);
            let bounded = umin(umin(aligned, fastest_axis_len), upload.batch_count);
            shrunk_group_is_no_wider(bounded, threads, coalesced, device);
            let shrunk = vendor_shrunk(bounded, threads, coalesced, device);
            let clamped = umax(umin(shrunk, device.max_workgroup_size[0]), 1);
            fitted_group_is_no_wider(clamped, threads, device.max_threads_per_block);
            product_grows(grouped as int, aligned as int, len as int);
            product_grows(grouped * len, aligned * len, complex_bytes as int);
        } else {
            let requested = grouped_batch_override->Some_0;
            if axis1_grouped_batch_override is None && 1 <= requested <= upload.batch_count
                && requested <= device.max_workgroup_size[0] && requested * threads
                <= device.max_threads_per_block {
                fitting_request_is_taken(
                    umin(fastest_axis_len, initial),
                    requested,
                    threads,
                    upload.batch_count,
                    false,
                    device,
                );
            }
        }
    }
}


/// Every double-double shape of one transform: it is alone, its transform fits the usable
/// shared memory, and its lanes cover it once the registers are scaled by the least factor
/// that brings the lanes within their limit.
pub proof fn lone_double_double_shapes_cover(
    sequence_len: usize,
    batch_count: usize,
    lanes: LaneAxis,
    denominator_operation: &'static str,
    scaling_operation: &'static str,
    device: DeviceProfile,
    axis_context: StockhamUploadAxisContext,
)
    ensures
        one_transform_block(
            sequence_len,
            batch_count,
            lanes,
            denominator_operation,
            scaling_operation,
            device,
            axis_context,
        ) matches Ok(Some(block)) ==> {
            let limit = lane_limit(lanes, device);
            let registers = quad_schedule(sequence_len, batch_count)->Ok_0.min_registers_per_thread;
            &&& block.grouped_batch == 1
            &&& sequence_len * 32 <= double_double_stockham_usable_shared_memory_bytes(device)
            &&& block.threads_per_transform <= limit
            &&& block.transforms_on_x == (lanes == LaneAxis::Y)
            &&& exists|scale: int| #[trigger]
                lanes_cover(
                    block.threads_per_transform as int,
                    registers * scale,
                    sequence_len as int,
                ) && lanes_cover(scale, registers * limit, sequence_len as int)
        },
{
    reveal(one_transform_block);
    let planned = one_transform_block(
        sequence_len,
        batch_count,
        lanes,
        denominator_operation,
        scaling_operation,
        device,
        axis_context,
    );
    if planned is Ok && planned->Ok_0 is Some {
        let block = planned->Ok_0->Some_0;
        reveal(transforms_x_block);
        reveal(swappable_block);
        reveal(block_if_checked);
        let limit = lane_limit(lanes, device);
        let registers = quad_schedule(sequence_len, batch_count)->Ok_0.min_registers_per_thread;
        let denominator = (registers * limit) as usize;
        lanes_cover_tightly(sequence_len, denominator);
        let scale = ceil_div(sequence_len, denominator)->Ok_0;
        lanes_cover_tightly(sequence_len, (registers * scale) as usize);
        values_fit_bytes(
            sequence_len as int,
            double_double_stockham_usable_shared_memory_bytes(device) as int,
            32,
        );
        assert(lanes_cover(scale as int, registers * limit, sequence_len as int));
        assert(lanes_cover(
            block.threads_per_transform as int,
            registers * (scale as int),
            sequence_len as int,
        ));
    }
}

/// Every double-double shape of a contiguous axis with a requested group: its lanes cover
/// the transform tightly, its transforms fit the usable shared memory, and its dimensions
/// are exchanged exactly where that avoids bank conflicts and leaves room.
pub proof fn contiguous_double_double_shapes_keep_to_memory(
    sequence_len: usize,
    batch_count: usize,
    grouped_batch_override: Option<usize>,
    perform_zero_padding: bool,
    device: DeviceProfile,
)
    ensures
        double_double_axis0_user_block(
            sequence_len,
            batch_count,
            grouped_batch_override,
            perform_zero_padding,
            device,
        ) matches Ok(Some(block)) ==> {
            let bytes = double_double_stockham_usable_shared_memory_bytes(device);
            let registers = quad_schedule(sequence_len, batch_count)->Ok_0.min_registers_per_thread;
            let threads = block.threads_per_transform;
            let grouped = block.grouped_batch;
            &&& lanes_cover(threads as int, registers as int, sequence_len as int)
            &&& (grouped * sequence_len) * 32 <= bytes
            &&& block.axis_swapped <==> {
                &&& !perform_zero_padding
                &&& sequence_len % 2 == 0 || 4 * threads + 4 <= device.shared_banks
                &&& grouped > 1
                &&& (grouped * sequence_len + 1) * 32 <= bytes
            }
            &&& block.transforms_on_x == block.axis_swapped
            &&& grouped_batch_override matches Some(requested) && 1 < requested && {
                &&& grouped <= requested
                &&& grouped < requested && grouped < batch_count && grouped
                    < device.max_workgroup_size[1] ==> {
                    ||| (grouped + 1) * threads > device.max_threads_per_block
                    ||| ((2 * grouped + 1) * sequence_len) * 32 > bytes
                }
            }
        },
{
    reveal(double_double_axis0_user_block);
    let planned = double_double_axis0_user_block(
        sequence_len,
        batch_count,
        grouped_batch_override,
        perform_zero_padding,
        device,
    );
    if planned is Ok && planned->Ok_0 is Some {
        let block = planned->Ok_0->Some_0;
        reveal(swappable_block);
        reveal(block_if_checked);
        let bytes = double_double_stockham_usable_shared_memory_bytes(device);
        let registers = quad_schedule(sequence_len, batch_count)->Ok_0.min_registers_per_thread;
        let threads = block.threads_per_transform;
        let grouped = block.grouped_batch;
        let requested = grouped_batch_override->Some_0;
        let shared = (bytes / 32) as usize;
        lanes_cover_tightly(sequence_len, registers);
        ceil_div_is_least_cover(sequence_len, registers);
        transactions_are_narrow(Precision::DoubleDouble, device);
        let policy = scheduler_policy(Precision::DoubleDouble, device)->Ok_0;
        let coalesced = umax((policy.coalesced_memory_bytes / 32) as usize, 1);
        let wanted = requested_group(sequence_len, shared, coalesced, requested, batch_count);
        assert(grouped == limited_group(wanted, threads, sequence_len, shared, device));
        whole_quotient(shared as int, sequence_len as int);
        let limit = umax(umin(wanted, device.max_workgroup_size[1]), 1);
        let most = shared as int / sequence_len as int;
        if limit <= most {
            product_grows(limit as int, most, sequence_len as int);
        } else {
            product_grows(limit as int, 4, sequence_len as int);
        }
        product_grows(threads as int, sequence_len as int, limit as int);
        limited_groups_keep_to_the_device(wanted, threads, sequence_len, shared, device);
        values_fit_bytes(grouped * sequence_len, bytes as int, 32);
        values_fit_bytes(grouped * sequence_len + 1, bytes as int, 32);
        values_fit_bytes((2 * grouped + 1) * sequence_len, bytes as int, 32);
        assert(1 * sequence_len == sequence_len) by (nonlinear_arith);
        reveal(swaps_axes);
        if grouped == wanted && wanted < requested && wanted < batch_count {
            product_grows(most + 1, grouped + 1, sequence_len as int);
            product_grows(grouped + 1, 2 * grouped + 1, sequence_len as int);
        }
    }
}

/// Every double-double shape of a strided axis: its lanes cover the transform tightly, its
/// automatic group fits the usable shared memory and the fastest axis, and a requested group
/// within the limits is taken as it is.
pub proof fn strided_double_double_shapes_keep_to_memory(
    sequence_len: usize,
    batch_count: usize,
    fastest_axis_len: usize,
    grouped_batch_override: Option<usize>,
    axis1_grouped_batch_override: Option<usize>,
    device: DeviceProfile,
)
    ensures
        double_double_other_axis_user_block(
            sequence_len,
            batch_count,
            fastest_axis_len,
            grouped_batch_override,
            axis1_grouped_batch_override,
            device,
        ) matches Ok(Some(block)) ==> {
            let bytes = double_double_stockham_usable_shared_memory_bytes(device);
            let registers = quad_schedule(sequence_len, batch_count)->Ok_0.min_registers_per_thread;
            let threads = block.threads_per_transform;
            let grouped = block.grouped_batch;
            &&& lanes_cover(threads as int, registers as int, sequence_len as int)
            &&& grouped_batch_override is None ==> group_fits_memory(
                grouped,
                sequence_len,
                32,
                bytes,
            )
            &&& grouped_batch_override is None ==> grouped <= fastest_axis_len
            &&& grouped_batch_override matches Some(requested) ==> {
                axis1_grouped_batch_override is None && 1 <= requested <= batch_count && requested
                    <= device.max_workgroup_size[0] && requested * threads
                    <= device.max_threads_per_block ==> grouped == requested
            }
        },
{
    reveal(double_double_other_axis_user_block);
    let planned = double_double_other_axis_user_block(
        sequence_len,
        batch_count,
        fastest_axis_len,
        grouped_batch_override,
        axis1_grouped_batch_override,
        device,
    );
    if planned is Ok && planned->Ok_0 is Some {
        let block = planned->Ok_0->Some_0;
        reveal(transforms_x_block);
        reveal(block_if_checked);
        let bytes = double_double_stockham_usable_shared_memory_bytes(device);
        let registers = quad_schedule(sequence_len, batch_count)->Ok_0.min_registers_per_thread;
        let threads = block.threads_per_transform;
        let grouped = block.grouped_batch;
        let shared = (bytes / 32) as usize;
        lanes_cover_tightly(sequence_len, registers);
        transactions_are_narrow(Precision::DoubleDouble, device);
        let policy = scheduler_policy(Precision::DoubleDouble, device)->Ok_0;
        let coalesced = umax((policy.coalesced_memory_bytes / 32) as usize, 1);
        let strided = strided_capacity(bytes, 32, policy.coalesced_memory_bytes, shared);
        let operation = "double-double higher-axis initial grouped batch";
        let initial = initial_group(strided, sequence_len, coalesced, operation)->Ok_0;
        if grouped_batch_override is None {
            initial_group_fits(
                bytes,
                32,
                policy.coalesced_memory_bytes,
                sequence_len,
                operation,
            );
            let warp = umax(policy.subgroup_width, 1);
            aligned_group_fits(initial, coalesced, sequence_len, strided, bytes, 32, warp);
            let aligned = aligned_group(initial, coalesced, sequence_len, strided, shared, warp);
            automatic_group_is_no_wider(
                aligned,
                fastest_axis_len,
                threads,
                coalesced,
                batch_count,
                device,
            );
            product_grows(grouped as int, aligned as int, sequence_len as int);
            product_grows(grouped * sequence_len, aligned * sequence_len, 32);
        } else {
            let requested = grouped_batch_override->Some_0;
            if axis1_grouped_batch_override is None && 1 <= requested <= batch_count && requested
                <= device.max_workgroup_size[0] && requested * threads
                <= device.max_threads_per_block {
                fitting_request_is_taken(
                    umin(fastest_axis_len, initial),
                    requested,
                    threads,
                    batch_count,
                    false,
                    device,
                );
            }
        }
    }
}


/// Widening or halving the group of one upload of several keeps it within shared memory.
pub(crate) proof fn adjusted_group_fits(
    upload_count: usize,
    axis_upload_id: usize,
    len: usize,
    bytes: usize,
    complex_bytes: usize,
    coalesced_bytes: usize,
    grouped: usize,
    device: DeviceProfile,
)
    requires
        complex_bytes >= 1,
        len >= 1,
        coalesced_bytes <= 128,
        ({
            let shared = (bytes / complex_bytes) as usize;
            let strided = strided_capacity(bytes, complex_bytes, coalesced_bytes, shared);
            let coalesced = umax((coalesced_bytes / complex_bytes) as usize, 1);
            &&& grouped >= coalesced
            &&& len <= strided ==> (grouped * len) * complex_bytes <= bytes
        }),
    ensures
        ({
            let shared = (bytes / complex_bytes) as usize;
            let strided = strided_capacity(bytes, complex_bytes, coalesced_bytes, shared);
            let coalesced = umax((coalesced_bytes / complex_bytes) as usize, 1);
            four_step_group(
                upload_count,
                axis_upload_id,
                len,
                shared,
                complex_bytes,
                grouped,
                coalesced,
                device,
            ) matches Ok((adjusted, width)) ==> {
                &&& 1 <= width <= 128
                &&& len <= strided ==> (umax(adjusted, width) * len) * complex_bytes <= bytes
            }
        }),
{
    reveal(four_step_group);
    let shared = (bytes / complex_bytes) as usize;
    let coalesced = umax((coalesced_bytes / complex_bytes) as usize, 1);
    vstd::arithmetic::div_mod::lemma_div_is_ordered_by_denominator(
        coalesced_bytes as int,
        1,
        complex_bytes as int,
    );
    vstd::arithmetic::div_mod::lemma_div_is_ordered_by_denominator(64, 1, complex_bytes as int);
    vstd::arithmetic::div_mod::lemma_div_is_ordered_by_denominator(128, 1, complex_bytes as int);
    let narrow = quotient(64, complex_bytes);
    let wide = quotient(128, complex_bytes);
    assert(len * narrow == narrow * len && len * wide == wide * len) by (nonlinear_arith);
    values_fit_bytes(narrow * len, bytes as int, complex_bytes as int);
    values_fit_bytes(wide * len, bytes as int, complex_bytes as int);
    if ceil_div(grouped, 2) is Ok {
        let most = umax(ceil_div(grouped, 2)->Ok_0, coalesced);
        product_grows(most as int, grouped as int, len as int);
        product_grows(most * len, grouped * len, complex_bytes as int);
    }
}

/// The automatic group of one upload of a strided axis without a direct Rader stage fits
/// shared memory and the fastest axis.
proof fn strided_upload_fits(
    upload: OtherAxisUpload,
    complex_bytes: usize,
    bytes: usize,
    policy: GpuSchedulerPolicy,
    operation: &'static str,
    axis1_grouped_batch_override: Option<usize>,
    device: DeviceProfile,
)
    requires
        complex_bytes >= 1,
        upload.fft_len >= 1,
        policy.coalesced_memory_bytes <= 128,
    ensures
        ({
            let shared = (bytes / complex_bytes) as usize;
            let strided = strided_capacity(
                bytes,
                complex_bytes,
                policy.coalesced_memory_bytes,
                shared,
            );
            other_axis_upload_block(
                upload,
                complex_bytes,
                shared,
                strided,
                policy,
                false,
                operation,
                None,
                axis1_grouped_batch_override,
                device,
            ) matches Ok(Some(block)) ==> {
                &&& group_fits_memory(block.grouped_batch, upload.fft_len, complex_bytes, bytes)
                &&& block.grouped_batch <= umax(upload.fastest_axis_len, 1)
            }
        }),
{
    let shared = (bytes / complex_bytes) as usize;
    let strided = strided_capacity(bytes, complex_bytes, policy.coalesced_memory_bytes, shared);
    let coalesced = umax(quotient(policy.coalesced_memory_bytes, complex_bytes), 1);
    initial_group_fits(
        bytes,
        complex_bytes,
        policy.coalesced_memory_bytes,
        upload.fft_len,
        operation,
    );
    if initial_group(strided, upload.fft_len, coalesced, operation) is Ok {
        let initial = initial_group(strided, upload.fft_len, coalesced, operation)->Ok_0;
        adjusted_group_fits(
            upload.upload_count,
            upload.axis_upload_id,
            upload.fft_len,
            bytes,
            complex_bytes,
            policy.coalesced_memory_bytes,
            initial,
            device,
        );
        let planned = four_step_group(
            upload.upload_count,
            upload.axis_upload_id,
            upload.fft_len,
            shared,
            complex_bytes,
            initial,
            coalesced,
            device,
        );
        if planned is Ok {
            let (adjusted, width) = planned->Ok_0;
            let warp = umax(policy.subgroup_width, 1);
            aligned_group_fits(
                adjusted,
                width,
                upload.fft_len,
                strided,
                bytes,
                complex_bytes,
                warp,
            );
            let aligned = aligned_group(adjusted, width, upload.fft_len, strided, shared, warp);
            automatic_group_is_no_wider(
                aligned,
                upload.fastest_axis_len,
                upload.threads,
                width,
                upload.transform_count,
                device,
            );
            let grouped = automatic_x_group(
                aligned,
                upload.fastest_axis_len,
                upload.threads,
                width,
                upload.transform_count,
                device,
            );
            product_grows(grouped as int, aligned as int, upload.fft_len as int);
            product_grows(
                grouped * upload.fft_len,
                aligned * upload.fft_len,
                complex_bytes as int,
            );
            reveal(transforms_x_block);
            reveal(block_if_checked);
        }
    }
}

/// A shape of one upload of a strided axis has the lanes it was asked for, and a requested
/// group within the limits is taken as it is.
proof fn strided_upload_takes_its_lanes(
    upload: OtherAxisUpload,
    complex_bytes: usize,
    shared: usize,
    strided: usize,
    policy: GpuSchedulerPolicy,
    has_direct_rader: bool,
    operation: &'static str,
    grouped_batch_override: Option<usize>,
    axis1_grouped_batch_override: Option<usize>,
    device: DeviceProfile,
)
    ensures
        other_axis_upload_block(
            upload,
            complex_bytes,
            shared,
            strided,
            policy,
            has_direct_rader,
            operation,
            grouped_batch_override,
            axis1_grouped_batch_override,
            device,
        ) matches Ok(Some(block)) ==> {
            &&& block.threads_per_transform == upload.threads
            &&& grouped_batch_override matches Some(requested) ==> {
                axis1_grouped_batch_override is None && 1 <= requested <= upload.transform_count
                    && requested <= device.max_workgroup_size[0] && requested * upload.threads
                    <= device.max_threads_per_block ==> block.grouped_batch == requested
            }
        },
{
    reveal(transforms_x_block);
    reveal(block_if_checked);
    if grouped_batch_override is Some {
        let requested = grouped_batch_override->Some_0;
        if axis1_grouped_batch_override is None && 1 <= requested <= upload.transform_count
            && requested <= device.max_workgroup_size[0] && requested * upload.threads
            <= device.max_threads_per_block {
            let coalesced = umax(quotient(policy.coalesced_memory_bytes, complex_bytes), 1);
            let initial = initial_group(strided, upload.fft_len, coalesced, operation)->Ok_0;
            fitting_request_is_taken(
                umin(upload.fastest_axis_len, initial),
                requested,
                upload.threads,
                upload.transform_count,
                true,
                device,
            );
            fitting_request_is_taken(
                umin(upload.fastest_axis_len, coalesced),
                requested,
                upload.threads,
                upload.transform_count,
                true,
                device,
            );
        }
    }
}

/// Every shape of one upload of a strided axis: its lanes are those asked for, its automatic
/// group fits what shared memory is left unless a direct Rader stage presses it, and a
/// requested group within the limits is taken as it is.
pub proof fn strided_upload_shapes_keep_to_memory(
    upload_count: usize,
    axis_upload_id: usize,
    fft_len: usize,
    transform_count: usize,
    fastest_axis_len: usize,
    threads_per_transform: usize,
    precision: Precision,
    complex_bytes: usize,
    grouped_batch_override: Option<usize>,
    axis1_grouped_batch_override: Option<usize>,
    physical: OtherAxisFourStepPhysicalContext,
    device: DeviceProfile,
)
    ensures
        other_axis_four_step_shape_block(
            upload_count,
            axis_upload_id,
            fft_len,
            transform_count,
            fastest_axis_len,
            threads_per_transform,
            precision,
            complex_bytes,
            grouped_batch_override,
            axis1_grouped_batch_override,
            physical,
            device,
        ) matches Ok(Some(block)) ==> {
            &&& block.threads_per_transform == threads_per_transform
            &&& grouped_batch_override is None ==> block.grouped_batch <= fastest_axis_len
                || physical.has_direct_rader
            &&& grouped_batch_override is None && !physical.has_direct_rader ==> group_fits_memory(
                block.grouped_batch,
                fft_len,
                complex_bytes,
                physical.available_shared_memory_bytes,
            )
            &&& grouped_batch_override matches Some(requested) ==> {
                axis1_grouped_batch_override is None && 1 <= requested <= transform_count
                    && requested <= device.max_workgroup_size[0] && requested
                    * threads_per_transform <= device.max_threads_per_block
                    ==> block.grouped_batch == requested
            }
        },
{
    reveal(other_axis_four_step_shape_block);
    let operation = "higher-axis Four-step initial grouped batch";
    let upload = OtherAxisUpload {
        upload_count,
        axis_upload_id,
        fft_len,
        transform_count,
        fastest_axis_len,
        threads: threads_per_transform,
    };
    transactions_are_narrow(precision, device);
    if scheduler_policy(precision, device) is Ok && complex_bytes != 0 && fft_len != 0 {
        let policy = scheduler_policy(precision, device)->Ok_0;
        let bytes = physical.available_shared_memory_bytes;
        let shared = (bytes / complex_bytes) as usize;
        let strided = strided_capacity(
            bytes,
            complex_bytes,
            policy.coalesced_memory_bytes,
            shared,
        );
        strided_upload_takes_its_lanes(
            upload,
            complex_bytes,
            shared,
            strided,
            policy,
            physical.has_direct_rader,
            operation,
            grouped_batch_override,
            axis1_grouped_batch_override,
            device,
        );
        strided_upload_fits(
            upload,
            complex_bytes,
            bytes,
            policy,
            operation,
            axis1_grouped_batch_override,
            device,
        );
    }
}

/// The same of one upload of a planned schedule, whose lanes cover its factor tightly.
pub proof fn strided_factor_shapes_keep_to_memory(
    upload: StockhamUploadModel,
    axis_upload_id: usize,
    transform_count: usize,
    fastest_axis_len: usize,
    precision: Precision,
    complex_bytes: usize,
    grouped_batch_override: Option<usize>,
    axis1_grouped_batch_override: Option<usize>,
    device: DeviceProfile,
)
    ensures
        other_axis_four_step_block(
            upload,
            axis_upload_id,
            transform_count,
            fastest_axis_len,
            precision,
            complex_bytes,
            grouped_batch_override,
            axis1_grouped_batch_override,
            device,
        ) matches Ok(Some(block)) ==> {
            let len = upload.axis_split[axis_upload_id as int];
            let part = upload.radix_schedules[axis_upload_id as int];
            &&& lanes_cover(
                block.threads_per_transform as int,
                part.min_registers_per_thread as int,
                len as int,
            )
            &&& grouped_batch_override is None ==> group_fits_memory(
                block.grouped_batch,
                len,
                complex_bytes,
                device.shared_memory_bytes,
            )
            &&& grouped_batch_override matches Some(requested) ==> {
                axis1_grouped_batch_override is None && 1 <= requested <= transform_count
                    && requested <= device.max_workgroup_size[0] && requested
                    * block.threads_per_transform <= device.max_threads_per_block
                    ==> block.grouped_batch == requested
            }
        },
{
    reveal(other_axis_four_step_block);
    let planned = other_axis_four_step_block(
        upload,
        axis_upload_id,
        transform_count,
        fastest_axis_len,
        precision,
        complex_bytes,
        grouped_batch_override,
        axis1_grouped_batch_override,
        device,
    );
    if planned is Ok && planned->Ok_0 is Some {
        let len = upload.axis_split[axis_upload_id as int];
        let part = upload.radix_schedules[axis_upload_id as int];
        let lanes = ceil_div(len, part.min_registers_per_thread)->Ok_0;
        let physical = OtherAxisFourStepPhysicalContext {
            has_direct_rader: false,
            available_shared_memory_bytes: device.shared_memory_bytes,
        };
        strided_upload_shapes_keep_to_memory(
            upload.upload_count,
            axis_upload_id,
            len,
            transform_count,
            fastest_axis_len,
            umax(lanes, 1),
            precision,
            complex_bytes,
            grouped_batch_override,
            axis1_grouped_batch_override,
            physical,
            device,
        );
        reveal(other_axis_four_step_shape_block);
        lanes_cover_tightly(len, part.min_registers_per_thread);
    }
}

/// The same of one upload of a planned double-double schedule, whose values are pairs.
pub proof fn strided_double_double_factor_shapes_keep_to_memory(
    upload: DoubleDoubleUploadModel,
    axis_upload_id: usize,
    transform_count: usize,
    fastest_axis_len: usize,
    grouped_batch_override: Option<usize>,
    axis1_grouped_batch_override: Option<usize>,
    device: DeviceProfile,
)
    ensures
        double_double_other_axis_four_step_block(
            upload,
            axis_upload_id,
            transform_count,
            fastest_axis_len,
            grouped_batch_override,
            axis1_grouped_batch_override,
            device,
        ) matches Ok(Some(block)) ==> {
            let len = upload.axis_split[axis_upload_id as int];
            let part = upload.quad_schedules[axis_upload_id as int];
            &&& len > 0 ==> lanes_cover(
                block.threads_per_transform as int,
                part.min_registers_per_thread as int,
                len as int,
            )
            &&& len > 0 && grouped_batch_override is None ==> group_fits_memory(
                block.grouped_batch,
                len,
                32,
                double_double_stockham_usable_shared_memory_bytes(device),
            )
            &&& grouped_batch_override matches Some(requested) ==> {
                axis1_grouped_batch_override is None && 1 <= requested <= transform_count
                    && requested <= device.max_workgroup_size[0] && requested
                    * block.threads_per_transform <= device.max_threads_per_block
                    ==> block.grouped_batch == requested
            }
        },
{
    reveal(double_double_other_axis_four_step_block);
    let planned = double_double_other_axis_four_step_block(
        upload,
        axis_upload_id,
        transform_count,
        fastest_axis_len,
        grouped_batch_override,
        axis1_grouped_batch_override,
        device,
    );
    if planned is Ok && planned->Ok_0 is Some {
        let len = upload.axis_split[axis_upload_id as int];
        let part = upload.quad_schedules[axis_upload_id as int];
        let operation = "double-double higher-axis Four-step initial grouped batch";
        let policy = scheduler_policy(Precision::DoubleDouble, device)->Ok_0;
        transactions_are_narrow(Precision::DoubleDouble, device);
        let bytes = double_double_stockham_usable_shared_memory_bytes(device);
        let shared = (bytes / 32) as usize;
        let strided = strided_capacity(bytes, 32, policy.coalesced_memory_bytes, shared);
        let lanes = ceil_div(len, part.min_registers_per_thread)->Ok_0;
        let taken = OtherAxisUpload {
            upload_count: upload.upload_count,
            axis_upload_id,
            fft_len: len,
            transform_count,
            fastest_axis_len,
            threads: umax(lanes, 1),
        };
        strided_upload_takes_its_lanes(
            taken,
            32,
            shared,
            strided,
            policy,
            false,
            operation,
            grouped_batch_override,
            axis1_grouped_batch_override,
            device,
        );
        if len > 0 {
            lanes_cover_tightly(len, part.min_registers_per_thread);
            strided_upload_fits(
                taken,
                32,
                bytes,
                policy,
                operation,
                axis1_grouped_batch_override,
                device,
            );
        }
    }
}


/// What an automatic group of a contiguous axis is at least: narrow transforms are grouped to
/// 128 lanes, unless the batch or the second dimension ends, one transform more would pass
/// the lanes, or one halving less would pass the memory.
pub proof fn narrow_contiguous_transforms_are_grouped(
    upload: StockhamUploadModel,
    complex_bytes: usize,
    perform_zero_padding: bool,
    device: DeviceProfile,
)
    requires
        128 * upload.sequence_len <= usize::MAX,
    ensures
        axis0_single_block(upload, complex_bytes, perform_zero_padding, None, device) matches Ok(
            Some(block),
        ) ==> {
            let len = upload.sequence_len;
            let threads = block.threads_per_transform;
            let grouped = block.grouped_batch;
            let warp = scheduler_policy(Precision::F32, device)->Ok_0.subgroup_width;
            threads < warp && (grouped + 1) * threads <= 128 && grouped < upload.batch_count
                && grouped < device.max_workgroup_size[1] ==> {
                ||| (grouped + 1) * threads > device.max_threads_per_block
                ||| ((2 * grouped + 1) * len) * complex_bytes > device.shared_memory_bytes
            }
        },
{
    reveal(axis0_single_block);
    let planned = axis0_single_block(upload, complex_bytes, perform_zero_padding, None, device);
    if planned is Ok && planned->Ok_0 is Some {
        let block = planned->Ok_0->Some_0;
        reveal(swappable_block);
        reveal(block_if_checked);
        let len = upload.sequence_len;
        let registers = upload.radix_schedules[0].min_registers_per_thread;
        let threads = block.threads_per_transform;
        let grouped = block.grouped_batch;
        let shared = (device.shared_memory_bytes / complex_bytes) as usize;
        lanes_cover_tightly(len, registers);
        ceil_div_is_least_cover(len, registers);
        let policy = scheduler_policy(
            ordinary_precision_of_bytes(complex_bytes)->Some_0,
            device,
        )->Ok_0;
        let warp = umax(policy.subgroup_width, 1);
        let coalesced = umax((policy.coalesced_memory_bytes / complex_bytes) as usize, 1);
        let shared_pow2 = (device.shared_memory_pow2_bytes / complex_bytes) as usize;
        let wanted = crate::stockham_blocks::automatic_single_group_spec(
            len,
            upload.batch_count,
            threads,
            warp,
            coalesced,
            shared_pow2,
            perform_zero_padding,
            device,
        );
        if threads < warp && (grouped + 1) * threads <= 128 && grouped < upload.batch_count
            && grouped < device.max_workgroup_size[1] {
            assert(threads < 128) by {
                product_grows(1, grouped + 1, threads as int);
                assert(1 * threads == threads) by (nonlinear_arith);
                if threads == 128 {
                    product_grows(2, grouped + 1, threads as int);
                }
            }
            estimates_fill_the_aim(threads, warp);
            let estimated = crate::axis_block::estimate_batch(threads, warp);
            if estimated < grouped + 1 {
                product_grows(estimated + 1, grouped + 1, threads as int);
            }
            let bounded = umax(umin(estimated, upload.batch_count), 1);
            automatic_group_is_no_narrower(
                len,
                upload.batch_count,
                threads,
                warp,
                coalesced,
                shared_pow2,
                perform_zero_padding,
                device,
                bounded,
            );
            let limit = umax(umin(wanted, device.max_workgroup_size[1]), 1);
            product_grows(limit as int, 128, len as int);
            product_grows(threads as int, len as int, limit as int);
            limited_groups_keep_to_the_device(wanted, threads, len, shared, device);
            values_fit_bytes(
                (2 * grouped + 1) * len,
                device.shared_memory_bytes as int,
                complex_bytes as int,
            );
        }
    }
}

proof fn automatic_group_is_no_narrower(
    len: usize,
    batch_count: usize,
    threads: usize,
    warp: usize,
    coalesced: usize,
    shared_pow2: usize,
    perform_zero_padding: bool,
    device: DeviceProfile,
    bounded: usize,
)
    requires
        1 <= threads < 128,
        threads < warp,
        bounded == umax(umin(crate::axis_block::estimate_batch(threads, warp), batch_count), 1),
    ensures
        bounded <= crate::stockham_blocks::automatic_single_group_spec(
            len,
            batch_count,
            threads,
            warp,
            coalesced,
            shared_pow2,
            perform_zero_padding,
            device,
        ) <= 128,
{
    estimates_fill_the_aim(threads, warp);
    let estimated = crate::axis_block::estimate_batch(threads, warp);
    product_grows(bounded as int, estimated as int, threads as int);
    product_grows(1, threads as int, estimated as int);
    assert(estimated <= 128);
    let power = crate::arith::pow2_at_least(bounded as int);
    crate::arith::pow2_at_least_is_least(bounded as int);
    assert(crate::arith::is_pow2(128)) by {
        reveal_with_fuel(crate::arith::is_pow2, 9);
    }
    assert(power <= 128);
    let rounded = if swaps_axes(len, threads, bounded, shared_pow2, perform_zero_padding, device) {
        crate::axis_block::power_of_two_above(bounded)
    } else {
        bounded
    };
    assert(bounded <= rounded <= 128);
    assert(rounded * threads < 256) by {
        if bounded > 1 {
            assert(rounded < 2 * bounded);
            product_grows(rounded + 1, 2 * bounded, threads as int);
            assert((2 * bounded) * threads == 2 * (bounded * threads)) by (nonlinear_arith);
            assert((rounded + 1) * threads == rounded * threads + threads) by (nonlinear_arith);
        } else {
            assert(rounded == 1);
            assert(rounded * threads == threads) by (nonlinear_arith)
                requires
                    rounded == 1,
            ;
        }
    }
    shrinking_stops_at_the_aim(rounded, threads, coalesced, device);
}

/// What an automatic group of a strided axis is at least: where a strided upload holds the
/// transform and the lanes hold as many transforms as there are side by side, a coalesced
/// width or a subgroup of them, unless the fastest axis, the batch or the first dimension
/// ends before.
pub proof fn strided_transforms_fill_a_transaction(
    upload: StockhamUploadModel,
    fastest_axis_len: usize,
    precision: Precision,
    complex_bytes: usize,
    device: DeviceProfile,
)
    ensures
        other_axis_single_block(
            upload,
            fastest_axis_len,
            precision,
            complex_bytes,
            None,
            None,
            device,
        ) matches Ok(Some(block)) ==> {
            let policy = scheduler_policy(precision, device)->Ok_0;
            let coalesced = umax((policy.coalesced_memory_bytes / complex_bytes) as usize, 1);
            let side = umin(fastest_axis_len, upload.batch_count);
            upload.sequence_len * umax(policy.coalesced_memory_bytes, complex_bytes)
                <= device.shared_memory_bytes && side * block.threads_per_transform
                <= device.max_threads_per_block ==> {
                ||| block.grouped_batch >= coalesced
                ||| block.grouped_batch >= policy.subgroup_width
                ||| block.grouped_batch >= side
                ||| block.grouped_batch >= device.max_workgroup_size[0]
            }
        },
{
    reveal(other_axis_single_block);
    let planned = other_axis_single_block(
        upload,
        fastest_axis_len,
        precision,
        complex_bytes,
        None,
        None,
        device,
    );
    if planned is Ok && planned->Ok_0 is Some {
        let block = planned->Ok_0->Some_0;
        reveal(transforms_x_block);
        reveal(block_if_checked);
        let len = upload.sequence_len;
        let threads = block.threads_per_transform;
        let bytes = device.shared_memory_bytes;
        let shared = (bytes / complex_bytes) as usize;
        transactions_are_narrow(precision, device);
        let policy = scheduler_policy(precision, device)->Ok_0;
        let warp = umax(policy.subgroup_width, 1);
        let coalesced = umax((policy.coalesced_memory_bytes / complex_bytes) as usize, 1);
        let transaction = umax(policy.coalesced_memory_bytes, complex_bytes);
        let side = umin(fastest_axis_len, upload.batch_count);
        let strided = strided_capacity(
            bytes,
            complex_bytes,
            policy.coalesced_memory_bytes,
            shared,
        );
        if len * transaction <= bytes && side * threads <= device.max_threads_per_block {
            values_fit_bytes(len as int, bytes as int, transaction as int);
            vstd::arithmetic::div_mod::lemma_div_is_ordered_by_denominator(
                policy.coalesced_memory_bytes as int,
                1,
                complex_bytes as int,
            );
            let initial = initial_group(
                strided,
                len,
                coalesced,
                "higher-axis initial grouped batch",
            )->Ok_0;
            aligned_groups_are_whole_widths(initial, coalesced, len, strided, shared, warp);
            let aligned = aligned_group(initial, coalesced, len, strided, shared, warp);
            let bounded = umin(umin(aligned, fastest_axis_len), upload.batch_count);
            product_grows(bounded as int, side as int, threads as int);
            shrinking_stops_at_the_aim(bounded, threads, coalesced, device);
            let shrunk = vendor_shrunk(bounded, threads, coalesced, device);
            let clamped = umax(umin(shrunk, device.max_workgroup_size[0]), 1);
            product_grows(clamped as int, umax(side, 1) as int, threads as int);
            reveal(group_fit);
        }
    }
}

} // verus!
