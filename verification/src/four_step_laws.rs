//! What the shapes of a contiguous axis over several uploads keep: their lanes cover the
//! factor, and their transforms fit shared memory beside the tables of direct primes.

use vstd::prelude::*;

use crate::arith::{ceil_div, umax, umin};
use crate::axis_block::{
    aim_scaled_group, aligned_group, block_if_checked, four_step_group, halved_group, initial_group,
    quotient, reduced_dimension, swappable_block, swaps_axes, transforms_x_block, vendor_shrunk,
};
use crate::config::{DeviceProfile, Precision};
use crate::direct_rader::RaderSplitModel;
use crate::four_step_blocks::{
    axis0_four_step_block, context_precision, default_upload_block, default_upload_group,
    direct_prime_of, direct_reserve, first_upload_block, grouped_upload_block, holds_direct,
    largest_prime_from, later_upload_block, later_upload_group, state_threads, upload_capacities,
    Axis0FourStepPhysicalContext, FourStepAxisBlockRequest,
};
use crate::group_laws::{lanes_cover_tightly, product_grows};
use crate::memory_laws::{
    adjusted_group_fits, aligned_group_fits, first_fit_is_no_wider, fitted_group_is_no_wider,
    group_fits_memory, halving_ends_fitting, initial_group_fits, lanes_cover, limited_group_fits,
    shrunk_group_is_no_wider, transactions_are_narrow, values_fit_bytes,
};
use crate::policy::scheduler_policy;
use crate::pressure_laws::whole_quotient;
use crate::uploads::{strided_capacity, StockhamUploadModel};

verus! {

proof fn reduced_dimension_is_no_wider(dimension: usize, other: usize, limit: usize)
    ensures
        reduced_dimension(dimension, other, limit) <= umax(dimension, 1),
{
    reveal(reduced_dimension);
    first_fit_is_no_wider(dimension as int, other as int, limit as int, 1);
}

/// A shape of the first upload: the lanes asked for, transforms that fit the capacity and one
/// batch, and dimensions exchanged exactly where that avoids bank conflicts and leaves room.
/// A Bluestein upload never exchanges them.
proof fn first_upload_fits(
    fft_len: usize,
    threads: usize,
    grouped: usize,
    coalesced: usize,
    warp: usize,
    shared: usize,
    shared_pow2: usize,
    bluestein: bool,
    groups_wide: bool,
    request: FourStepAxisBlockRequest,
    device: DeviceProfile,
)
    requires
        request.outer_batch_count > 0,
    ensures
        first_upload_block(
            fft_len,
            threads,
            grouped,
            coalesced,
            warp,
            shared,
            shared_pow2,
            bluestein,
            groups_wide,
            request,
            device,
        ) matches Some(block) ==> {
            &&& block.threads_per_transform == threads
            &&& block.grouped_batch >= 1
            &&& block.grouped_batch * fft_len <= shared
            &&& block.grouped_batch > 1 ==> block.grouped_batch * request.outer_batch_count
                <= request.transform_count
            &&& block.axis_swapped <==> {
                &&& !bluestein
                &&& !request.perform_zero_padding
                &&& fft_len % 2 == 0 || 4 * threads + 4 <= device.shared_banks
                &&& block.grouped_batch > 1
                &&& block.grouped_batch * fft_len < shared
            }
            &&& block.transforms_on_x == block.axis_swapped
        },
{
    reveal(first_upload_block);
    reveal(swappable_block);
    reveal(block_if_checked);
    let planned = first_upload_block(
        fft_len,
        threads,
        grouped,
        coalesced,
        warp,
        shared,
        shared_pow2,
        bluestein,
        groups_wide,
        request,
        device,
    );
    if planned is Some {
        let block = planned->Some_0;
        let narrow = threads < crate::axis_block::AIM_THREADS && (threads < warp || groups_wide);
        let start = if !bluestein {
            grouped
        } else if narrow {
            crate::axis_block::estimate_batch(threads, warp)
        } else {
            1
        };
        let rounded = if !bluestein && swaps_axes(
            fft_len,
            threads,
            start,
            shared_pow2,
            request.perform_zero_padding,
            device,
        ) {
            crate::axis_block::power_of_two_above(start)
        } else {
            start
        };
        let per_batch = quotient(request.transform_count, request.outer_batch_count);
        let bounded = umax(umin(rounded, per_batch), 1);
        shrunk_group_is_no_wider(bounded, threads, coalesced, device);
        let shrunk = vendor_shrunk(bounded, threads, coalesced, device);
        let sized = umax(umin(shrunk, device.max_workgroup_size[1]), 1);
        reduced_dimension_is_no_wider(sized, threads, device.max_threads_per_block);
        let reduced = umax(reduced_dimension(sized, threads, device.max_threads_per_block), 1);
        assert(block.grouped_batch == halved_group(reduced, fft_len, shared));
        reveal(halved_group);
        halving_ends_fitting(reduced as int, fft_len as int, shared as int);
        whole_quotient(request.transform_count as int, request.outer_batch_count as int);
        if block.grouped_batch > 1 {
            product_grows(
                block.grouped_batch as int,
                per_batch as int,
                request.outer_batch_count as int,
            );
        }
        reveal(swaps_axes);
    }
}

/// The group of a later upload fits the capacity where the group it starts from does, and
/// keeps to the distance of the transforms.
proof fn later_group_fits(
    fft_len: usize,
    threads: usize,
    grouped: usize,
    coalesced: usize,
    stage_start_size: usize,
    shared: usize,
    operation: &'static str,
    device: DeviceProfile,
)
    ensures
        later_upload_group(
            fft_len,
            threads,
            grouped,
            coalesced,
            stage_start_size,
            shared,
            operation,
            device,
        ) matches Ok(wanted) ==> {
            &&& 1 <= wanted <= umax(stage_start_size, 1)
            &&& grouped * fft_len <= shared && wanted > 1 ==> wanted * fft_len <= shared
            &&& grouped <= 1 && wanted > 1 ==> wanted * fft_len <= shared
        },
{
    reveal(later_upload_group);
    reveal(aim_scaled_group);
    let planned = later_upload_group(
        fft_len,
        threads,
        grouped,
        coalesced,
        stage_start_size,
        shared,
        operation,
        device,
    );
    if planned is Ok {
        let wanted = planned->Ok_0;
        let scaled = aim_scaled_group(grouped, threads, fft_len, shared, operation)->Ok_0;
        let bounded = umax(umin(stage_start_size, scaled), 1);
        shrunk_group_is_no_wider(bounded, threads, coalesced, device);
        if wanted > 1 {
            product_grows(wanted as int, scaled as int, fft_len as int);
            let scale = quotient(
                quotient(crate::axis_block::AIM_THREADS, threads),
                umax(grouped, 1),
            );
            assert((fft_len * grouped) * scale == (grouped * scale) * fft_len)
                by (nonlinear_arith);
        }
    }
}

proof fn later_upload_fits(
    fft_len: usize,
    threads: usize,
    grouped: usize,
    coalesced: usize,
    shared: usize,
    operation: &'static str,
    request: FourStepAxisBlockRequest,
    device: DeviceProfile,
)
    ensures
        later_upload_block(
            fft_len,
            threads,
            grouped,
            coalesced,
            shared,
            operation,
            request,
            device,
        ) matches Ok(Some(block)) ==> {
            &&& block.threads_per_transform == threads
            &&& block.transforms_on_x
            &&& 1 <= block.grouped_batch <= umax(request.stage_start_size, 1)
            &&& (grouped * fft_len <= shared || grouped <= 1) && block.grouped_batch > 1
                ==> block.grouped_batch * fft_len <= shared
        },
{
    reveal(later_upload_block);
    reveal(transforms_x_block);
    reveal(block_if_checked);
    later_group_fits(
        fft_len,
        threads,
        grouped,
        coalesced,
        request.stage_start_size,
        shared,
        operation,
        device,
    );
    let planned = later_upload_group(
        fft_len,
        threads,
        grouped,
        coalesced,
        request.stage_start_size,
        shared,
        operation,
        device,
    );
    if planned is Ok {
        let wanted = planned->Ok_0;
        reduced_dimension_is_no_wider(wanted, threads, device.max_threads_per_block);
        let reduced = umax(reduced_dimension(wanted, threads, device.max_threads_per_block), 1);
        product_grows(reduced as int, wanted as int, fft_len as int);
    }
}

/// Every automatic shape of one upload of a contiguous axis: its lanes cover the factor
/// tightly. The transforms of the first upload fit shared memory and one batch; those of a
/// later one fit shared memory and the distance of the transforms.
pub proof fn contiguous_factor_shapes_keep_to_memory(
    upload: StockhamUploadModel,
    request: FourStepAxisBlockRequest,
    precision: Precision,
    complex_bytes: usize,
    device: DeviceProfile,
)
    requires
        request.grouped_batch_override is None,
    ensures
        axis0_four_step_block(upload, request, precision, complex_bytes, device) matches Ok(
            Some(block),
        ) ==> {
            let len = upload.axis_split[request.axis_upload_id as int];
            let part = upload.radix_schedules[request.axis_upload_id as int];
            let grouped = block.grouped_batch;
            &&& lanes_cover(
                block.threads_per_transform as int,
                part.min_registers_per_thread as int,
                len as int,
            )
            &&& group_fits_memory(grouped, len, complex_bytes, device.shared_memory_bytes)
            &&& request.axis_upload_id == 0 ==> {
                &&& (grouped * len) * complex_bytes <= device.shared_memory_bytes
                &&& grouped > 1 ==> grouped * request.outer_batch_count <= request.transform_count
                &&& block.axis_swapped <==> {
                    &&& !request.perform_zero_padding
                    &&& len % 2 == 0 || 4 * block.threads_per_transform + 4 <= device.shared_banks
                    &&& grouped > 1
                    &&& (grouped * len + 1) * complex_bytes <= device.shared_memory_bytes
                }
            }
            &&& request.axis_upload_id > 0 ==> block.transforms_on_x && grouped
                <= request.stage_start_size
        },
{
    reveal(axis0_four_step_block);
    let planned = axis0_four_step_block(upload, request, precision, complex_bytes, device);
    if planned is Ok && planned->Ok_0 is Some {
        let block = planned->Ok_0->Some_0;
        let grouped = block.grouped_batch;
        let len = upload.axis_split[request.axis_upload_id as int];
        let part = upload.radix_schedules[request.axis_upload_id as int];
        crate::split_laws::checked_uploads_carry_their_registers(upload);
        assert(len > 0) by {
            crate::split_laws::checked_uploads_cover_the_axis(upload);
        }
        let bytes = device.shared_memory_bytes;
        let shared = (bytes / complex_bytes) as usize;
        let shared_pow2 = (device.shared_memory_pow2_bytes / complex_bytes) as usize;
        lanes_cover_tightly(len, part.min_registers_per_thread);
        let threads = umax(ceil_div(len, part.min_registers_per_thread)->Ok_0, 1);
        transactions_are_narrow(precision, device);
        let policy = scheduler_policy(precision, device)->Ok_0;
        let width = umax((policy.coalesced_memory_bytes / complex_bytes) as usize, 1);
        let warp = umax(policy.subgroup_width, 1);
        let strided = strided_capacity(
            bytes,
            complex_bytes,
            policy.coalesced_memory_bytes,
            shared,
        );
        let operation = "Four-step initial grouped batch";
        let initial = initial_group(strided, len, width, operation)->Ok_0;
        initial_group_fits(
            bytes,
            complex_bytes,
            policy.coalesced_memory_bytes,
            len,
            operation,
        );
        adjusted_group_fits(
            upload.upload_count,
            request.axis_upload_id,
            len,
            bytes,
            complex_bytes,
            policy.coalesced_memory_bytes,
            initial,
            device,
        );
        let (adjusted, coalesced) = four_step_group(
            upload.upload_count,
            request.axis_upload_id,
            len,
            shared,
            complex_bytes,
            initial,
            width,
            device,
        )->Ok_0;
        aligned_group_fits(adjusted, coalesced, len, strided, bytes, complex_bytes, warp);
        let aligned = aligned_group(adjusted, coalesced, len, strided, shared, warp);
        values_fit_bytes(aligned * len, bytes as int, complex_bytes as int);
        values_fit_bytes(grouped * len, bytes as int, complex_bytes as int);
        values_fit_bytes(grouped * len + 1, bytes as int, complex_bytes as int);
        if request.axis_upload_id == 0 {
            first_upload_fits(
                len,
                threads,
                aligned,
                coalesced,
                warp,
                shared,
                shared_pow2,
                false,
                false,
                request,
                device,
            );
        } else {
            later_upload_fits(
                len,
                threads,
                aligned,
                coalesced,
                shared,
                "Four-step higher-upload grouped batch scale",
                request,
                device,
            );
        }
    }
}


/// Bytes that the table of a direct prime takes: one value for each of its powers.
pub open spec fn prime_table_bytes(prime: usize, complex_bytes: usize) -> int {
    (prime - 1) * complex_bytes
}

/// Whether `bytes` are left beside the table of every direct prime of an upload, listed or
/// given.
pub open spec fn leaves_direct_tables(
    bytes: int,
    state: Option<RaderSplitModel>,
    prime: Option<usize>,
    complex_bytes: usize,
    device: DeviceProfile,
) -> bool {
    &&& bytes <= device.shared_memory_bytes
    &&& state matches Some(split) ==> forall|i: int|
        0 <= i < split.direct_prime_multiplicities.len() ==> bytes + prime_table_bytes(
            (#[trigger] split.direct_prime_multiplicities[i]).0,
            complex_bytes,
        ) <= device.shared_memory_bytes
    &&& prime is Some && !holds_direct(state) ==> bytes + prime_table_bytes(
        prime->Some_0,
        complex_bytes,
    ) <= device.shared_memory_bytes
}

proof fn largest_covers_the_list(
    primes: Seq<(usize, usize)>,
    most: Option<usize>,
    from: int,
)
    requires
        0 <= from <= primes.len(),
    ensures
        most is Some || from < primes.len() <==> largest_prime_from(primes, most, from) is Some,
        largest_prime_from(primes, most, from) matches Some(largest) ==> {
            &&& most matches Some(prime) ==> prime <= largest
            &&& forall|i: int| from <= i < primes.len() ==> (#[trigger] primes[i]).0 <= largest
        },
    decreases primes.len() - from,
{
    if from < primes.len() {
        let next = match most {
            Some(prime) => Some(umax(prime, primes[from].0)),
            None => Some(primes[from].0),
        };
        largest_covers_the_list(primes, next, from + 1);
    }
}

/// What is allowed beside the largest table leaves every table.
proof fn allowed_leaves_tables(
    values: int,
    allowed: usize,
    state: Option<RaderSplitModel>,
    prime: Option<usize>,
    complex_bytes: usize,
    operation: &'static str,
    device: DeviceProfile,
)
    requires
        complex_bytes >= 1,
        values * complex_bytes <= allowed,
        direct_reserve(direct_prime_of(state, prime), complex_bytes, operation) matches Ok(
            reserve,
        ) && allowed + reserve == device.shared_memory_bytes,
    ensures
        leaves_direct_tables(values * complex_bytes, state, prime, complex_bytes, device),
{
    let reserve = direct_reserve(
        direct_prime_of(state, prime),
        complex_bytes,
        operation,
    )->Ok_0;
    if state is Some {
        let primes = state->Some_0.direct_prime_multiplicities;
        largest_covers_the_list(primes, None, 0);
        assert forall|i: int| 0 <= i < primes.len() implies prime_table_bytes(
            (#[trigger] primes[i]).0,
            complex_bytes,
        ) <= reserve by {
            let largest = largest_prime_from(primes, None, 0)->Some_0;
            product_grows(primes[i].0 - 1, largest.saturating_sub(1) as int, complex_bytes as int);
        }
    }
    if prime is Some && !holds_direct(state) {
        if state is Some {
            largest_covers_the_list(state->Some_0.direct_prime_multiplicities, None, 0);
        }
        product_grows(
            prime->Some_0 - 1,
            prime->Some_0.saturating_sub(1) as int,
            complex_bytes as int,
        );
    }
}

/// Every requested shape of one upload of a contiguous axis: the lanes asked for, no more
/// transforms in the first upload than requested, which fit shared memory beside the tables
/// of the direct primes. A later upload groups several transforms, within their distance.
pub proof fn requested_factor_shapes_leave_direct_tables(
    upload_count: usize,
    fft_len: usize,
    threads_per_transform: usize,
    request: FourStepAxisBlockRequest,
    precision: Precision,
    complex_bytes: usize,
    rader_state: Option<RaderSplitModel>,
    direct_rader_prime: Option<usize>,
    device: DeviceProfile,
)
    ensures
        grouped_upload_block(
            upload_count,
            fft_len,
            threads_per_transform,
            request,
            precision,
            complex_bytes,
            rader_state,
            direct_rader_prime,
            device,
        ) matches Ok(Some(block)) ==> {
            let grouped = block.grouped_batch;
            &&& block.threads_per_transform == threads_per_transform
            &&& request.grouped_batch_override is Some
            &&& request.axis_upload_id == 0 ==> {
                &&& grouped <= request.grouped_batch_override->Some_0
                &&& block.axis_swapped ==> !request.perform_zero_padding && grouped > 1
                &&& grouped > 1 && grouped * fft_len <= usize::MAX ==> leaves_direct_tables(
                    (grouped * fft_len) * complex_bytes,
                    rader_state,
                    direct_rader_prime,
                    complex_bytes,
                    device,
                )
            }
            &&& request.axis_upload_id > 0 ==> {
                &&& block.transforms_on_x
                &&& 1 < grouped <= request.stage_start_size
            }
        },
{
    reveal(grouped_upload_block);
    reveal(swappable_block);
    reveal(transforms_x_block);
    reveal(block_if_checked);
    let planned = grouped_upload_block(
        upload_count,
        fft_len,
        threads_per_transform,
        request,
        precision,
        complex_bytes,
        rader_state,
        direct_rader_prime,
        device,
    );
    if planned is Ok && planned->Ok_0 is Some {
        let block = planned->Ok_0->Some_0;
        let grouped = block.grouped_batch;
        let operation = "user-grouped Four-step Direct-Rader shared-memory reserve";
        let reserve = direct_reserve(
            direct_prime_of(rader_state, direct_rader_prime),
            complex_bytes,
            operation,
        )->Ok_0;
        let allowed = (device.shared_memory_bytes - reserve) as usize;
        let shared = quotient(allowed, complex_bytes);
        let policy = scheduler_policy(precision, device)->Ok_0;
        let coalesced = umax(quotient(policy.coalesced_memory_bytes, complex_bytes), 1);
        let strided = strided_capacity(
            allowed,
            complex_bytes,
            policy.coalesced_memory_bytes,
            shared,
        );
        let initial = initial_group(
            strided,
            fft_len,
            coalesced,
            "Four-step user grouped batch",
        )->Ok_0;
        let direct = crate::four_step_blocks::direct_state_threads(
            fft_len,
            rader_state,
            direct_rader_prime,
            threads_per_transform,
            coalesced,
            device.max_threads_per_block,
        )->Ok_0;
        let start = if direct.is_some() && crate::axis_block::product_exceeds(
            initial,
            crate::axis_block::value_or(direct, 0),
            device.max_threads_per_block,
        ) {
            coalesced
        } else {
            initial
        };
        if request.axis_upload_id == 0 {
            let wanted = umin(
                umin(start, request.grouped_batch_override->Some_0),
                request.transform_count,
            );
            reveal(swaps_axes);
            limited_group_fits(wanted, threads_per_transform, fft_len, shared, device);
            values_fit_bytes(grouped * fft_len, allowed as int, complex_bytes as int);
            if grouped > 1 && grouped * fft_len <= usize::MAX {
                allowed_leaves_tables(
                    grouped * fft_len,
                    allowed,
                    rader_state,
                    direct_rader_prime,
                    complex_bytes,
                    operation,
                    device,
                );
            }
        } else {
            later_group_fits(
                fft_len,
                threads_per_transform,
                start,
                coalesced,
                request.stage_start_size,
                shared,
                "user Four-step higher-upload grouped batch scale",
                device,
            );
            let wanted = later_upload_group(
                fft_len,
                threads_per_transform,
                start,
                coalesced,
                request.stage_start_size,
                shared,
                "user Four-step higher-upload grouped batch scale",
                device,
            )->Ok_0;
            fitted_group_is_no_wider(
                wanted,
                threads_per_transform,
                device.max_threads_per_block,
            );
        }
    }
}

/// Every automatic shape of one upload of a contiguous axis, Rader primes in it or not. The
/// transforms of the first upload fit shared memory beside the tables of the direct primes,
/// and one batch; it never exchanges the dimensions of a Bluestein upload. A later upload
/// keeps to the distance of the transforms, and without direct primes to shared memory. A
/// shape of one transform alone is given only to an axis with Rader primes.
pub proof fn automatic_factor_shapes_leave_direct_tables(
    upload_count: usize,
    fft_len: usize,
    threads_per_transform: usize,
    request: FourStepAxisBlockRequest,
    complex_bytes: usize,
    device: DeviceProfile,
    rader_state: Option<RaderSplitModel>,
    physical_context: Axis0FourStepPhysicalContext,
)
    ensures
        default_upload_block(
            upload_count,
            fft_len,
            threads_per_transform,
            request,
            complex_bytes,
            device,
            rader_state,
            physical_context,
        ) matches Ok(Some(block)) ==> {
            let grouped = block.grouped_batch;
            let prime = physical_context.direct_rader_prime;
            &&& request.grouped_batch_override is None
            &&& rader_state is None ==> block.threads_per_transform == threads_per_transform
            &&& grouped > 1 || rader_state is Some
            &&& request.axis_upload_id == 0 ==> {
                &&& leaves_direct_tables(
                    (grouped * fft_len) * complex_bytes,
                    rader_state,
                    prime,
                    complex_bytes,
                    device,
                )
                &&& grouped > 1 ==> grouped * request.outer_batch_count <= request.transform_count
                &&& block.axis_swapped ==> !physical_context.use_bluestein_fft
                    && !request.perform_zero_padding && grouped > 1
            }
            &&& request.axis_upload_id > 0 ==> {
                &&& block.transforms_on_x
                &&& grouped <= request.stage_start_size
                &&& !holds_direct(rader_state) && prime is None ==> group_fits_memory(
                    grouped,
                    fft_len,
                    complex_bytes,
                    device.shared_memory_bytes,
                )
            }
        },
{
    reveal(default_upload_block);
    reveal(upload_capacities);
    reveal(default_upload_group);
    let planned = default_upload_block(
        upload_count,
        fft_len,
        threads_per_transform,
        request,
        complex_bytes,
        device,
        rader_state,
        physical_context,
    );
    if planned is Ok && planned->Ok_0 is Some {
        let block = planned->Ok_0->Some_0;
        let grouped = block.grouped_batch;
        let prime = physical_context.direct_rader_prime;
        let precision = context_precision(physical_context, complex_bytes)->Some_0;
        let bluestein = physical_context.use_bluestein_fft;
        let operation = "Four-step Rader direct shared-memory reserve";
        let reserve = direct_reserve(
            direct_prime_of(rader_state, prime),
            complex_bytes,
            operation,
        )->Ok_0;
        let allowed = (device.shared_memory_bytes - reserve) as usize;
        let capacities = upload_capacities(
            direct_prime_of(rader_state, prime),
            precision,
            complex_bytes,
            device,
        )->Ok_0->Some_0;
        let (aligned, coalesced) = default_upload_group(
            upload_count,
            request.axis_upload_id,
            fft_len,
            complex_bytes,
            bluestein,
            capacities,
            device,
        )->Ok_0;
        let limit = crate::direct_rader::dimension_limit(device, device.max_workgroup_size[0]);
        let threads = state_threads(
            fft_len,
            rader_state,
            threads_per_transform,
            coalesced,
            limit,
        )->Ok_0->Some_0;
        let direct = holds_direct(rader_state) || prime.is_some();
        let start = if direct && crate::axis_block::product_exceeds(
            threads,
            aligned,
            device.max_threads_per_block,
        ) {
            umax(coalesced, 1)
        } else {
            aligned
        };
        values_fit_bytes(grouped * fft_len, allowed as int, complex_bytes as int);
        if request.axis_upload_id == 0 {
            first_upload_fits(
                fft_len,
                threads,
                start,
                coalesced,
                capacities.warp,
                capacities.shared,
                capacities.shared_pow2,
                bluestein,
                rader_state.is_some(),
                request,
                device,
            );
            allowed_leaves_tables(
                grouped * fft_len,
                allowed,
                rader_state,
                prime,
                complex_bytes,
                operation,
                device,
            );
        } else {
            later_upload_fits(
                fft_len,
                threads,
                start,
                coalesced,
                capacities.shared,
                "Four-step shape higher-upload grouped batch scale",
                request,
                device,
            );
            if !direct {
                if rader_state is Some {
                    largest_covers_the_list(
                        rader_state->Some_0.direct_prime_multiplicities,
                        None,
                        0,
                    );
                }
                assert(reserve == 0);
                transactions_are_narrow(precision, device);
                let policy = scheduler_policy(precision, device)->Ok_0;
                let shape = "Four-step shape initial grouped batch";
                initial_group_fits(
                    allowed,
                    complex_bytes,
                    policy.coalesced_memory_bytes,
                    fft_len,
                    shape,
                );
                let initial = initial_group(
                    capacities.strided,
                    fft_len,
                    capacities.width,
                    shape,
                )->Ok_0;
                adjusted_group_fits(
                    upload_count,
                    request.axis_upload_id,
                    fft_len,
                    allowed,
                    complex_bytes,
                    policy.coalesced_memory_bytes,
                    initial,
                    device,
                );
                let (adjusted, width) = four_step_group(
                    upload_count,
                    request.axis_upload_id,
                    fft_len,
                    capacities.shared,
                    complex_bytes,
                    initial,
                    capacities.width,
                    device,
                )->Ok_0;
                aligned_group_fits(
                    adjusted,
                    width,
                    fft_len,
                    capacities.strided,
                    allowed,
                    complex_bytes,
                    capacities.warp,
                );
                values_fit_bytes(aligned * fft_len, allowed as int, complex_bytes as int);
            }
        }
    }
}

} // verus!
