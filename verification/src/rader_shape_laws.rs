//! What every workgroup shape of a Rader axis keeps: its lanes come in whole groups that
//! cover the prime, and its grouped transforms fit shared memory.

use vstd::prelude::*;

use crate::arith::{ceil_div, umax, umin};
use crate::axis_block::{
    aligned_group, block_if_checked, initial_group, limited_group, precision_of_bytes,
    swappable_block, swaps_axes, transforms_x_block, StockhamAxisBlockSchedule,
};
use crate::config::{DeviceProfile, PlannerTuning, Precision};
use crate::group_laws::{lanes_cover_tightly, product_grows};
use crate::memory_laws::{
    aligned_group_fits, automatic_group_is_no_wider, fitting_request_is_taken, group_fits_memory,
    initial_group_fits, limited_group_fits, transactions_are_narrow, values_fit_bytes,
};
use crate::policy::scheduler_policy;
use crate::rader_blocks::{
    automatic_rader_group, axis0_direct_block, axis0_fft_block, direct_prime_threads,
    double_double_axis0_fft_user_block, elementwise_wrapper_block, other_axis_direct_block,
    other_axis_rader_block, requested_direct_group,
};
use crate::rader_registers::RaderFftRegisterModel;
use crate::stockham_blocks::requested_group;
use crate::uploads::strided_capacity;

verus! {

/// Whether the lanes of a directly convolved prime are whole groups of half the prime,
/// rounded up, that cover it with `registers` values each, and one group less does not.
pub open spec fn direct_lanes_cover(threads: int, registers: int, prime: int) -> bool {
    let group = (prime + 1) / 2;
    &&& threads >= group
    &&& threads % group == 0
    &&& threads * registers >= prime
    &&& threads > group ==> (threads - group) * registers < prime
}

proof fn direct_threads_cover(prime: usize, registers: usize, operation: &'static str)
    requires
        prime >= 3,
        registers >= 1,
    ensures
        direct_prime_threads(prime, registers, operation) matches Ok(threads)
            ==> direct_lanes_cover(threads as int, registers as int, prime as int),
{
    reveal(direct_prime_threads);
    if direct_prime_threads(prime, registers, operation) is Ok {
        let threads = direct_prime_threads(prime, registers, operation)->Ok_0;
        let group = ((prime + 1) / 2) as usize;
        lanes_cover_tightly(prime, registers);
        let initial = ceil_div(prime, registers)->Ok_0;
        lanes_cover_tightly(initial, group);
        let groups = ceil_div(initial, group)->Ok_0;
        product_grows(1, groups as int, group as int);
        assert(threads == groups * group);
        vstd::arithmetic::div_mod::lemma_mod_multiples_basic(groups as int, group as int);
        product_grows(initial as int, threads as int, registers as int);
        assert((groups - 1) * group == threads - group) by (nonlinear_arith)
            requires
                threads == groups * group,
        ;
        product_grows(threads - group, initial - 1, registers as int);
    }
}

/// What a shape whose group was limited keeps: its transforms fit, and its dimensions are
/// exchanged exactly where that avoids bank conflicts and leaves room.
pub open spec fn contiguous_group_fits(
    block: StockhamAxisBlockSchedule,
    len: usize,
    complex_bytes: usize,
    bytes: usize,
    perform_zero_padding: bool,
    device: DeviceProfile,
) -> bool {
    let threads = block.threads_per_transform;
    let grouped = block.grouped_batch;
    &&& grouped * len <= usize::MAX ==> group_fits_memory(grouped, len, complex_bytes, bytes)
    &&& block.axis_swapped <==> {
        &&& !perform_zero_padding
        &&& len % 2 == 0 || 4 * threads + 4 <= device.shared_banks
        &&& grouped > 1
        &&& (grouped * len + 1) * complex_bytes <= bytes
    }
    &&& block.transforms_on_x == block.axis_swapped
}

proof fn limited_shape_fits(
    wanted: usize,
    threads: usize,
    len: usize,
    complex_bytes: usize,
    perform_zero_padding: bool,
    batch_count: usize,
    device: DeviceProfile,
)
    requires
        complex_bytes >= 1,
        threads >= 1,
    ensures
        ({
            let bytes = device.shared_memory_bytes;
            let shared = (bytes / complex_bytes) as usize;
            let grouped = limited_group(wanted, threads, len, shared, device);
            let swapped = swaps_axes(
                len,
                threads,
                grouped,
                shared,
                perform_zero_padding,
                device,
            );
            swappable_block(grouped, threads, swapped, batch_count, device) matches Some(block)
                ==> {
                &&& block.threads_per_transform == threads
                &&& block.grouped_batch == grouped
                &&& 1 <= grouped <= umax(wanted, 1)
                &&& contiguous_group_fits(
                    block,
                    len,
                    complex_bytes,
                    bytes,
                    perform_zero_padding,
                    device,
                )
            }
        }),
{
    let bytes = device.shared_memory_bytes;
    let shared = (bytes / complex_bytes) as usize;
    let grouped = limited_group(wanted, threads, len, shared, device);
    reveal(swappable_block);
    reveal(block_if_checked);
    reveal(swaps_axes);
    limited_group_fits(wanted, threads, len, shared, device);
    values_fit_bytes(grouped * len, bytes as int, complex_bytes as int);
    values_fit_bytes(grouped * len + 1, bytes as int, complex_bytes as int);
}

/// Every shape of a directly convolved prime on the fastest axis: whole groups of lanes that
/// cover the prime, transforms that fit shared memory, and no more of them than requested.
pub proof fn contiguous_direct_shapes_keep_to_memory(
    prime: usize,
    batch_count: usize,
    complex_bytes: usize,
    perform_zero_padding: bool,
    grouped_batch_override: Option<usize>,
    device: DeviceProfile,
)
    ensures
        axis0_direct_block(
            prime,
            batch_count,
            complex_bytes,
            perform_zero_padding,
            grouped_batch_override,
            device,
        ) matches Ok(Some(block)) ==> {
            let least = crate::rader_tables::outer_state(prime, 1, batch_count)->Ok_0.2;
            &&& direct_lanes_cover(
                block.threads_per_transform as int,
                least as int,
                prime as int,
            )
            &&& contiguous_group_fits(
                block,
                prime,
                complex_bytes,
                device.shared_memory_bytes,
                perform_zero_padding,
                device,
            )
            &&& grouped_batch_override matches Some(requested) ==> block.grouped_batch <= umax(
                requested,
                1,
            )
            // Where what memory holds would pass the lanes, a request is left at one.
            &&& grouped_batch_override is Some && block.threads_per_transform * ((
            device.shared_memory_bytes as int / complex_bytes as int) / prime as int)
                > device.max_threads_per_block ==> block.grouped_batch == 1
            &&& grouped_batch_override is None && block.threads_per_transform >= 128
                ==> block.grouped_batch == 1
        },
{
    reveal(axis0_direct_block);
    let planned = axis0_direct_block(
        prime,
        batch_count,
        complex_bytes,
        perform_zero_padding,
        grouped_batch_override,
        device,
    );
    if planned is Ok && planned->Ok_0 is Some {
        let least = crate::rader_tables::outer_state(prime, 1, batch_count)->Ok_0.2;
        let operation = "direct Rader axis-block thread alignment";
        direct_threads_cover(prime, least, operation);
        let threads = direct_prime_threads(prime, least, operation)->Ok_0;
        let policy = scheduler_policy(precision_of_bytes(complex_bytes)->Some_0, device)->Ok_0;
        let coalesced = umax((policy.coalesced_memory_bytes / complex_bytes) as usize, 1);
        let shared = (device.shared_memory_bytes / complex_bytes) as usize;
        let shared_pow2 = (device.shared_memory_pow2_bytes / complex_bytes) as usize;
        let warp = umax(policy.subgroup_width, 1);
        let wanted = if grouped_batch_override is Some {
            requested_direct_group(
                prime,
                batch_count,
                threads,
                shared,
                coalesced,
                grouped_batch_override->Some_0,
                device,
            )
        } else {
            automatic_rader_group(
                prime,
                batch_count,
                threads,
                warp,
                coalesced,
                shared_pow2,
                perform_zero_padding,
                device,
            )
        };
        limited_shape_fits(
            wanted,
            threads,
            prime,
            complex_bytes,
            perform_zero_padding,
            batch_count,
            device,
        );
        reveal(requested_direct_group);
        if grouped_batch_override is Some {
            let held = umax(crate::axis_block::quotient(shared, prime), coalesced);
            product_grows(shared as int / prime as int, held as int, threads as int);
        }
        if grouped_batch_override is None && threads >= 128 {
            wide_prime_stays_alone(
                prime,
                batch_count,
                threads,
                warp,
                coalesced,
                shared_pow2,
                perform_zero_padding,
                device,
            );
        }
    }
}

proof fn wide_prime_stays_alone(
    prime: usize,
    batch_count: usize,
    threads: usize,
    warp: usize,
    coalesced: usize,
    shared_pow2: usize,
    perform_zero_padding: bool,
    device: DeviceProfile,
)
    requires
        threads >= 128,
    ensures
        automatic_rader_group(
            prime,
            batch_count,
            threads,
            warp,
            coalesced,
            shared_pow2,
            perform_zero_padding,
            device,
        ) <= 1,
{
    reveal(automatic_rader_group);
    reveal(swaps_axes);
    crate::memory_laws::shrunk_group_is_no_wider(1, threads, coalesced, device);
}


/// Every shape of a prime convolved by transforms on the fastest axis: the lanes its
/// convolution and its parent need, transforms that fit shared memory, and no more of them
/// than requested.
pub proof fn contiguous_fft_shapes_keep_to_memory(
    prime: usize,
    batch_count: usize,
    schedule: RaderFftRegisterModel,
    precision: Precision,
    complex_bytes: usize,
    perform_zero_padding: bool,
    grouped_batch_override: Option<usize>,
    device: DeviceProfile,
)
    ensures
        axis0_fft_block(
            prime,
            batch_count,
            schedule,
            precision,
            complex_bytes,
            perform_zero_padding,
            grouped_batch_override,
            device,
        ) matches Ok(Some(block)) ==> {
            &&& schedule.prime == prime
            &&& schedule.internal_fft.rhs_transform_count == batch_count
            &&& schedule.rader_transpose is None
            &&& block.threads_per_transform >= schedule.min_rader_fft_thread_num
            &&& block.grouped_batch > 1 || block.threads_per_transform
                != schedule.execution_threads_per_workgroup
            &&& contiguous_group_fits(
                block,
                prime,
                complex_bytes,
                device.shared_memory_bytes,
                perform_zero_padding,
                device,
            )
            &&& grouped_batch_override matches Some(requested) ==> block.grouped_batch <= umax(
                requested,
                1,
            )
            &&& grouped_batch_override is None && block.threads_per_transform >= 128
                ==> block.grouped_batch == 1
        },
{
    reveal(axis0_fft_block);
    let planned = axis0_fft_block(
        prime,
        batch_count,
        schedule,
        precision,
        complex_bytes,
        perform_zero_padding,
        grouped_batch_override,
        device,
    );
    if planned is Ok && planned->Ok_0 is Some {
        let parent = crate::rader_parents::fft_threads(
            prime,
            crate::direct_rader::once(prime),
            batch_count,
            device,
        )->Ok_0->Some_0;
        let threads = umax(umax(parent, schedule.min_rader_fft_thread_num), 1);
        let policy = scheduler_policy(precision, device)->Ok_0;
        let coalesced = umax((policy.coalesced_memory_bytes / complex_bytes) as usize, 1);
        let shared = (device.shared_memory_bytes / complex_bytes) as usize;
        let shared_pow2 = (device.shared_memory_pow2_bytes / complex_bytes) as usize;
        let warp = umax(policy.subgroup_width, 1);
        let wanted = if grouped_batch_override is Some {
            requested_group(
                prime,
                shared,
                coalesced,
                grouped_batch_override->Some_0,
                batch_count,
            )
        } else {
            automatic_rader_group(
                prime,
                batch_count,
                threads,
                warp,
                coalesced,
                shared_pow2,
                perform_zero_padding,
                device,
            )
        };
        limited_shape_fits(
            wanted,
            threads,
            prime,
            complex_bytes,
            perform_zero_padding,
            batch_count,
            device,
        );
        if grouped_batch_override is None && threads >= 128 {
            wide_prime_stays_alone(
                prime,
                batch_count,
                threads,
                warp,
                coalesced,
                shared_pow2,
                perform_zero_padding,
                device,
            );
        }
    }
}

/// Every requested shape of a double-double prime on the fastest axis groups several
/// transforms, no more than requested, which fit shared memory.
pub proof fn contiguous_double_double_fft_shapes_keep_to_memory(
    prime: usize,
    batch_count: usize,
    grouped_batch_override: Option<usize>,
    perform_zero_padding: bool,
    tuning: PlannerTuning,
    device: DeviceProfile,
)
    ensures
        double_double_axis0_fft_user_block(
            prime,
            batch_count,
            grouped_batch_override,
            perform_zero_padding,
            tuning,
            device,
        ) matches Ok(Some(block)) ==> {
            &&& contiguous_group_fits(
                block,
                prime,
                32,
                device.shared_memory_bytes,
                perform_zero_padding,
                device,
            )
            &&& grouped_batch_override is Some
            &&& 1 < block.grouped_batch <= grouped_batch_override->Some_0
        },
{
    reveal(double_double_axis0_fft_user_block);
    let planned = double_double_axis0_fft_user_block(
        prime,
        batch_count,
        grouped_batch_override,
        perform_zero_padding,
        tuning,
        device,
    );
    if planned is Ok && planned->Ok_0 is Some {
        let block = planned->Ok_0->Some_0;
        assert(block.threads_per_transform != 0) by {
            reveal(swappable_block);
            reveal(block_if_checked);
        }
        let threads = crate::rader_parents::double_double_fft_threads_tuned(
            prime,
            crate::direct_rader::once(prime),
            batch_count,
            crate::config::upstream_effective_tuning(tuning, device),
            device,
        )->Ok_0->Some_0;
        assert(block.threads_per_transform == threads) by {
            reveal(swappable_block);
            reveal(block_if_checked);
        }
        let policy = scheduler_policy(Precision::DoubleDouble, device)->Ok_0;
        let coalesced = umax((policy.coalesced_memory_bytes / 32) as usize, 1);
        let shared = (device.shared_memory_bytes / 32) as usize;
        let wanted = requested_group(
            prime,
            shared,
            coalesced,
            grouped_batch_override->Some_0,
            batch_count,
        );
        limited_shape_fits(
            wanted,
            threads,
            prime,
            32,
            perform_zero_padding,
            batch_count,
            device,
        );
    }
}

/// Every shape of a strided Rader axis: the lanes asked for, and where a strided upload holds
/// the transform an automatic group that fits shared memory. The group keeps to the fastest
/// axis, and a requested one within the limits is taken as it is.
pub proof fn strided_rader_shapes_keep_to_memory(
    sequence_len: usize,
    batch_count: usize,
    fastest_axis_len: usize,
    precision: Precision,
    complex_bytes: usize,
    threads_per_transform: usize,
    grouped_batch_override: Option<usize>,
    axis1_grouped_batch_override: Option<usize>,
    device: DeviceProfile,
)
    ensures
        other_axis_rader_block(
            sequence_len,
            batch_count,
            fastest_axis_len,
            precision,
            complex_bytes,
            threads_per_transform,
            grouped_batch_override,
            axis1_grouped_batch_override,
            device,
        ) matches Ok(Some(block)) ==> {
            let policy = scheduler_policy(precision, device)->Ok_0;
            &&& block.threads_per_transform == threads_per_transform
            &&& grouped_batch_override is None ==> block.grouped_batch <= fastest_axis_len
            &&& grouped_batch_override is None && sequence_len * umax(
                policy.coalesced_memory_bytes,
                complex_bytes,
            ) <= device.shared_memory_bytes ==> group_fits_memory(
                block.grouped_batch,
                sequence_len,
                complex_bytes,
                device.shared_memory_bytes,
            )
            &&& grouped_batch_override matches Some(requested) ==> {
                axis1_grouped_batch_override is None && 1 <= requested <= batch_count && requested
                    <= device.max_workgroup_size[0] && requested * threads_per_transform
                    <= device.max_threads_per_block ==> block.grouped_batch == requested
            }
        },
{
    reveal(other_axis_rader_block);
    let planned = other_axis_rader_block(
        sequence_len,
        batch_count,
        fastest_axis_len,
        precision,
        complex_bytes,
        threads_per_transform,
        grouped_batch_override,
        axis1_grouped_batch_override,
        device,
    );
    if planned is Ok && planned->Ok_0 is Some {
        let block = planned->Ok_0->Some_0;
        reveal(transforms_x_block);
        reveal(block_if_checked);
        transactions_are_narrow(precision, device);
        let policy = scheduler_policy(precision, device)->Ok_0;
        let bytes = device.shared_memory_bytes;
        let shared = (bytes / complex_bytes) as usize;
        let coalesced = umax((policy.coalesced_memory_bytes / complex_bytes) as usize, 1);
        let strided = strided_capacity(
            bytes,
            complex_bytes,
            policy.coalesced_memory_bytes,
            shared,
        );
        let operation = "higher-axis Rader initial grouped batch";
        let initial = initial_group(strided, sequence_len, coalesced, operation)->Ok_0;
        if grouped_batch_override is None {
            let transaction = umax(policy.coalesced_memory_bytes, complex_bytes);
            vstd::arithmetic::div_mod::lemma_div_is_ordered_by_denominator(
                policy.coalesced_memory_bytes as int,
                1,
                complex_bytes as int,
            );
            initial_group_fits(
                bytes,
                complex_bytes,
                policy.coalesced_memory_bytes,
                sequence_len,
                operation,
            );
            let warp = umax(policy.subgroup_width, 1);
            aligned_group_fits(
                initial,
                coalesced,
                sequence_len,
                strided,
                bytes,
                complex_bytes,
                warp,
            );
            let aligned = aligned_group(
                initial,
                coalesced,
                sequence_len,
                strided,
                shared,
                warp,
            );
            let narrowed = if crate::axis_block::product_exceeds(
                aligned,
                threads_per_transform,
                device.max_threads_per_block,
            ) {
                coalesced
            } else {
                aligned
            };
            automatic_group_is_no_wider(
                narrowed,
                fastest_axis_len,
                threads_per_transform,
                coalesced,
                batch_count,
                device,
            );
            let grouped = block.grouped_batch;
            if sequence_len * transaction <= bytes {
                values_fit_bytes(sequence_len as int, bytes as int, transaction as int);
                assert(sequence_len <= strided);
                product_grows(coalesced as int, initial as int, sequence_len as int);
                product_grows(
                    coalesced * sequence_len,
                    initial * sequence_len,
                    complex_bytes as int,
                );
            }
            product_grows(grouped as int, narrowed as int, sequence_len as int);
            product_grows(
                grouped * sequence_len,
                narrowed * sequence_len,
                complex_bytes as int,
            );
        } else {
            let requested = grouped_batch_override->Some_0;
            if axis1_grouped_batch_override is None && 1 <= requested <= batch_count && requested
                <= device.max_workgroup_size[0] && requested * threads_per_transform
                <= device.max_threads_per_block {
                fitting_request_is_taken(
                    umin(fastest_axis_len, initial),
                    requested,
                    threads_per_transform,
                    batch_count,
                    true,
                    device,
                );
                fitting_request_is_taken(
                    umin(fastest_axis_len, coalesced),
                    requested,
                    threads_per_transform,
                    batch_count,
                    true,
                    device,
                );
            }
        }
    }
}

/// Every shape of a directly convolved prime on a strided axis has whole groups of lanes
/// that cover the prime.
pub proof fn strided_direct_shapes_cover(
    prime: usize,
    batch_count: usize,
    fastest_axis_len: usize,
    precision: Precision,
    complex_bytes: usize,
    grouped_batch_override: Option<usize>,
    axis1_grouped_batch_override: Option<usize>,
    device: DeviceProfile,
)
    ensures
        other_axis_direct_block(
            prime,
            batch_count,
            fastest_axis_len,
            precision,
            complex_bytes,
            grouped_batch_override,
            axis1_grouped_batch_override,
            device,
        ) matches Ok(Some(block)) ==> direct_lanes_cover(
            block.threads_per_transform as int,
            crate::rader_tables::outer_state(prime, 1, batch_count)->Ok_0.2 as int,
            prime as int,
        ),
{
    reveal(other_axis_direct_block);
    let planned = other_axis_direct_block(
        prime,
        batch_count,
        fastest_axis_len,
        precision,
        complex_bytes,
        grouped_batch_override,
        axis1_grouped_batch_override,
        device,
    );
    if planned is Ok && planned->Ok_0 is Some {
        let least = crate::rader_tables::outer_state(prime, 1, batch_count)->Ok_0.2;
        let operation = "higher-axis direct Rader thread alignment";
        direct_threads_cover(prime, least, operation);
        strided_rader_shapes_keep_to_memory(
            prime,
            batch_count,
            fastest_axis_len,
            precision,
            complex_bytes,
            direct_prime_threads(prime, least, operation)->Ok_0,
            grouped_batch_override,
            axis1_grouped_batch_override,
            device,
        );
    }
}

/// An elementwise pass gives every transform a lane per element, up to the aimed 128 and the
/// device's limits.
pub proof fn elementwise_shapes_take_a_lane_per_element(
    element_len: usize,
    batch_count: usize,
    fastest_axis_len: usize,
    complex_bytes: usize,
    grouped_batch_override: Option<usize>,
    axis1_grouped_batch_override: Option<usize>,
    device: DeviceProfile,
)
    ensures
        elementwise_wrapper_block(
            element_len,
            batch_count,
            fastest_axis_len,
            complex_bytes,
            grouped_batch_override,
            axis1_grouped_batch_override,
            device,
        ) matches Ok(Some(block)) ==> {
            let threads = block.threads_per_transform;
            &&& 1 <= threads <= 128
            &&& threads <= element_len
            &&& threads < element_len && threads < 128 ==> threads
                == device.max_workgroup_size[1] || threads == device.max_threads_per_block
        },
{
    let threads = umin(
        umin(umin(element_len, 128), device.max_workgroup_size[1]),
        device.max_threads_per_block,
    );
    if precision_of_bytes(complex_bytes) is Some {
        strided_rader_shapes_keep_to_memory(
            element_len,
            batch_count,
            fastest_axis_len,
            precision_of_bytes(complex_bytes)->Some_0,
            complex_bytes,
            threads,
            grouped_batch_override,
            axis1_grouped_batch_override,
            device,
        );
    }
}

} // verus!
