//! What grouping keeps: no group passes a limit that it is cut to, and none is cut further
//! than the limit asks.

use vstd::prelude::*;

use crate::arith::{ceil_div, ceil_div_is_least_cover, umax, umin};
use crate::axis_block::{
    aim_scaled_group, aim_shrunk, aligned_group, clamped_x_group, estimate_batch, fitting_quotient,
    four_step_group, group_fit, halved_group, halved_to_fit, initial_group, limited_group,
    product_exceeds, quotient, reduced_dimension, round_down, user_x_group, vendor_shrunk,
    AIM_THREADS,
};
use crate::config::{DeviceProfile, GpuVendor};
use crate::pressure_laws::whole_quotient;

verus! {

/// More lanes or transforms need no less memory.
pub(crate) proof fn product_grows(small: int, large: int, unit: int)
    requires
        small <= large,
        unit >= 0,
    ensures
        small * unit <= large * unit,
        unit * small <= unit * large,
{
    assert(small * unit <= large * unit && unit * small <= unit * large) by (nonlinear_arith)
        requires
            small <= large,
            unit >= 0,
    ;
}

proof fn halving_steps(grouped: int, len: int, capacity: int)
    requires
        grouped >= 1,
        len >= 0,
        grouped * len <= usize::MAX,
    ensures
        1 <= halved_to_fit(grouped, len, capacity) <= grouped,
        halved_to_fit(grouped, len, capacity) > 1 ==> halved_to_fit(grouped, len, capacity) * len
            <= capacity,
        halved_to_fit(grouped, len, capacity) < grouped ==> (2 * halved_to_fit(
            grouped,
            len,
            capacity,
        ) + 1) * len > capacity,
    decreases grouped,
{
    if grouped > 1 && grouped * len > capacity {
        let half = grouped / 2;
        product_grows(half, grouped, len);
        halving_steps(half, len, capacity);
        if halved_to_fit(half, len, capacity) == half {
            product_grows(grouped, 2 * half + 1, len);
        }
    }
}

/// A halved group fits the capacity, or is one transform. It is halved no further than
/// needed: one halving less would not fit.
pub proof fn halving_stops_at_the_first_fit(grouped: usize, len: usize, capacity: usize)
    requires
        grouped >= 1,
        grouped * len <= usize::MAX,
    ensures
        1 <= halved_group(grouped, len, capacity) <= grouped,
        halved_group(grouped, len, capacity) > 1 ==> halved_group(grouped, len, capacity) * len
            <= capacity,
        halved_group(grouped, len, capacity) < grouped ==> (2 * halved_group(
            grouped,
            len,
            capacity,
        ) + 1) * len > capacity,
{
    reveal(halved_group);
    halving_steps(grouped as int, len as int, capacity as int);
}

/// A group on Y keeps to the second local dimension, to the lanes and to shared memory,
/// unless it is one transform. It is as large as asked for unless the dimension stops it,
/// one transform more would pass the lanes, or one halving less would pass the memory.
pub proof fn limited_groups_keep_to_the_device(
    grouped: usize,
    threads: usize,
    len: usize,
    capacity: usize,
    device: DeviceProfile,
)
    requires
        threads >= 1,
        umax(umin(grouped, device.max_workgroup_size[1]), 1) * threads <= usize::MAX,
        umax(umin(grouped, device.max_workgroup_size[1]), 1) * len <= usize::MAX,
    ensures
        ({
            let limited = limited_group(grouped, threads, len, capacity, device);
            &&& limited >= 1
            &&& limited > 1 ==> {
                &&& limited <= grouped
                &&& limited <= device.max_workgroup_size[1]
                &&& limited * threads <= device.max_threads_per_block
                &&& limited * len <= capacity
            }
            &&& limited < grouped && limited < device.max_workgroup_size[1] ==> {
                ||| (limited + 1) * threads > device.max_threads_per_block
                ||| (2 * limited + 1) * len > capacity
            }
        }),
{
    reveal(limited_group);
    let within_size = umax(umin(grouped, device.max_workgroup_size[1]), 1);
    let most = quotient(device.max_threads_per_block, threads);
    let within_threads = if product_exceeds(within_size, threads, device.max_threads_per_block) {
        umax(most, 1)
    } else {
        within_size
    };
    whole_quotient(device.max_threads_per_block as int, threads as int);
    if product_exceeds(within_size, threads, device.max_threads_per_block) {
        if most >= within_size {
            product_grows(within_size as int, most as int, threads as int);
        }
        assert(within_threads <= within_size);
        if most == 0 {
            assert(1 * threads == threads) by (nonlinear_arith);
            product_grows(1, 2, threads as int);
        }
    }
    product_grows(within_threads as int, within_size as int, len as int);
    halving_stops_at_the_first_fit(within_threads, len, capacity);
    let limited = halved_group(within_threads, len, capacity);
    product_grows(limited as int, within_threads as int, threads as int);
}

proof fn shrinking_steps(grouped: int, threads: int, floor: int)
    requires
        grouped >= 0,
        threads >= 0,
        floor >= 0,
        grouped * threads <= usize::MAX,
    ensures
        aim_shrunk(grouped, threads, floor) <= grouped,
        aim_shrunk(grouped, threads, floor) >= floor || aim_shrunk(grouped, threads, floor)
            == grouped,
        aim_shrunk(grouped, threads, floor) > floor ==> aim_shrunk(grouped, threads, floor)
            * threads < 2 * AIM_THREADS,
        floor < aim_shrunk(grouped, threads, floor) < grouped ==> (2 * aim_shrunk(
            grouped,
            threads,
            floor,
        ) + 1) * threads >= 2 * AIM_THREADS,
        aim_shrunk(grouped, threads, floor) < grouped ==> grouped * threads >= 2 * AIM_THREADS,
    decreases grouped,
{
    if 2 * AIM_THREADS <= grouped * threads && grouped > floor && grouped > 0 {
        let half = if grouped / 2 >= floor {
            grouped / 2
        } else {
            floor
        };
        product_grows(half, grouped, threads);
        shrinking_steps(half, threads, floor);
        if aim_shrunk(half, threads, floor) == half && half > floor {
            product_grows(grouped, 2 * half + 1, threads);
        }
    }
}

/// Only NVIDIA devices shrink a group, and only one that fills two aimed workgroups. The
/// result fills less than two, or is the floor; where it stays above the floor, one halving
/// less would fill two.
pub proof fn shrinking_stops_at_the_aim(
    grouped: usize,
    threads: usize,
    floor: usize,
    device: DeviceProfile,
)
    requires
        grouped * threads <= usize::MAX,
    ensures
        ({
            let shrunk = vendor_shrunk(grouped, threads, floor, device);
            &&& device.vendor != GpuVendor::Nvidia ==> shrunk == grouped
            &&& grouped * threads < 256 ==> shrunk == grouped
            &&& shrunk <= grouped
            &&& shrunk < floor ==> shrunk == grouped
            &&& device.vendor == GpuVendor::Nvidia && shrunk > floor ==> shrunk * threads < 256
            &&& floor < shrunk < grouped ==> (2 * shrunk + 1) * threads >= 256
        }),
{
    reveal(vendor_shrunk);
    shrinking_steps(grouped as int, threads as int, floor as int);
}

proof fn first_fit_is_widest(dimension: int, other: int, limit: int, divisor: int)
    requires
        1 <= divisor <= dimension <= usize::MAX,
        1 <= other <= limit,
        limit <= usize::MAX,
    ensures
        fitting_quotient(dimension, other, limit, divisor) matches Some(found) && {
            &&& 1 <= found <= dimension
            &&& found * other <= limit
            &&& forall|d: int|
                d >= divisor && #[trigger] (dimension / d) * other <= limit ==> dimension / d
                    <= found
        },
    decreases dimension - divisor,
{
    let here = dimension / divisor;
    vstd::arithmetic::div_mod::lemma_div_is_ordered_by_denominator(dimension, 1, divisor);
    vstd::arithmetic::div_mod::lemma_div_non_zero(dimension, divisor);
    assert forall|d: int| d >= divisor implies #[trigger] (dimension / d) <= here by {
        vstd::arithmetic::div_mod::lemma_div_is_ordered_by_denominator(dimension, divisor, d);
    }
    if here * other <= limit {
        assert(here * other == other * here) by (nonlinear_arith);
    } else {
        assert(here * other == other * here) by (nonlinear_arith);
        if divisor == dimension {
            vstd::arithmetic::div_mod::lemma_div_by_self(dimension);
            assert(1 * other == other) by (nonlinear_arith);
            assert(false);
        }
        first_fit_is_widest(dimension, other, limit, divisor + 1);
        let found = fitting_quotient(dimension, other, limit, divisor + 1)->Some_0;
        assert forall|d: int|
            d >= divisor && #[trigger] (dimension / d) * other <= limit implies dimension / d
            <= found by {
            assert(d != divisor);
        }
    }
}

/// A group whose lanes pass the limit becomes the largest whole quotient of itself whose
/// lanes fit. A group whose lanes fit stays.
pub proof fn fitted_groups_are_the_widest_quotient(grouped: usize, threads: usize, limit: usize)
    requires
        grouped >= 1,
        1 <= threads <= limit,
        grouped * threads <= usize::MAX,
    ensures
        ({
            let fitted = group_fit(grouped, threads, limit);
            &&& 1 <= fitted <= grouped
            &&& fitted * threads <= limit
            &&& grouped * threads <= limit ==> fitted == grouped
            &&& forall|d: int|
                d >= 1 && #[trigger] (grouped as int / d) * threads <= limit ==> grouped as int
                    / d <= fitted
        }),
{
    reveal(group_fit);
    first_fit_is_widest(grouped as int, threads as int, limit as int, 1);
    assert forall|d: int| d >= 1 implies #[trigger] (grouped as int / d) <= grouped by {
        vstd::arithmetic::div_mod::lemma_div_is_ordered_by_denominator(grouped as int, 1, d);
    }
}

/// The same of a dimension that is cut beside another one.
pub proof fn reduced_dimensions_are_the_widest_quotient(
    dimension: usize,
    other: usize,
    limit: usize,
)
    requires
        dimension >= 1,
        1 <= other <= limit,
        limit < usize::MAX,
    ensures
        ({
            let reduced = reduced_dimension(dimension, other, limit);
            &&& 1 <= reduced <= dimension
            &&& reduced * other <= limit
            &&& dimension * other <= limit ==> reduced == dimension
            &&& forall|d: int|
                d >= 1 && #[trigger] (dimension as int / d) * other <= limit ==> dimension as int
                    / d <= reduced
        }),
{
    reveal(reduced_dimension);
    first_fit_is_widest(dimension as int, other as int, limit as int, 1);
    assert forall|d: int| d >= 1 implies #[trigger] (dimension as int / d) <= dimension by {
        vstd::arithmetic::div_mod::lemma_div_is_ordered_by_denominator(dimension as int, 1, d);
    }
}

/// Rounding down keeps a multiple of the unit, loses less than one unit and never grows.
pub(crate) proof fn rounding_loses_less_than_a_unit(value: usize, unit: usize)
    requires
        unit >= 1,
    ensures
        round_down(value, unit) <= value < round_down(value, unit) + unit,
        round_down(value, unit) % unit == 0,
        value >= unit ==> round_down(value, unit) >= unit,
        round_down(value, unit) as int == (value as int / unit as int) * unit,
{
    whole_quotient(value as int, unit as int);
    let q = value as int / unit as int;
    assert((q + 1) * unit == q * unit + unit) by (nonlinear_arith);
    vstd::arithmetic::div_mod::lemma_mod_multiples_basic(q, unit as int);
    if value >= unit {
        vstd::arithmetic::div_mod::lemma_div_non_zero(value as int, unit as int);
        product_grows(1, q, unit as int);
    }
}

/// An aligned group holds at least one transform and no more than were asked for or one
/// coalesced width, whichever is more. A transform longer than a strided upload groups no
/// more than shared memory holds. A group of more than four coalesced widths is a multiple
/// of them, one of more than two is a multiple of two.
pub proof fn aligned_groups_are_whole_widths(
    grouped: usize,
    coalesced: usize,
    len: usize,
    strided: usize,
    shared: usize,
    warp: usize,
)
    requires
        coalesced >= 1,
        4 * coalesced <= usize::MAX,
        len >= 1,
        warp >= 1,
    ensures
        ({
            let aligned = aligned_group(grouped, coalesced, len, strided, shared, warp);
            &&& aligned >= 1
            &&& len <= strided ==> umin(coalesced, warp) <= aligned <= umax(grouped, coalesced)
            &&& len > strided && aligned > 1 ==> aligned * len <= shared
            &&& aligned > 4 * coalesced ==> aligned % ((4 * coalesced) as usize) == 0
            &&& 2 * coalesced < aligned <= 4 * coalesced ==> aligned % ((2 * coalesced) as usize)
                == 0
        }),
{
    reveal(aligned_group);
    let whole = round_down(umax(grouped, coalesced), coalesced);
    rounding_loses_less_than_a_unit(umax(grouped, coalesced), coalesced);
    let held = if len > strided {
        umax(quotient(shared, len), 1)
    } else {
        whole
    };
    let by_warp = if held > warp {
        round_down(held, warp)
    } else {
        held
    };
    rounding_loses_less_than_a_unit(held, warp);
    let two = (2 * coalesced) as usize;
    let by_two = if by_warp > two {
        round_down(by_warp, two)
    } else {
        by_warp
    };
    rounding_loses_less_than_a_unit(by_warp, two);
    let four = (4 * coalesced) as usize;
    rounding_loses_less_than_a_unit(by_two, four);
    whole_quotient(shared as int, len as int);
    let aligned = aligned_group(grouped, coalesced, len, strided, shared, warp);
    if len > strided && aligned > 1 {
        product_grows(aligned as int, shared as int / len as int, len as int);
    }
    if two < aligned < four {
        assert(aligned == by_two);
    }
    if aligned == four {
        assert(four as int % two as int == 0) by (nonlinear_arith)
            requires
                four == 2 * two,
                two >= 1,
        ;
    }
}

/// Lanes that are rounded up cover the transform, and no fewer do.
pub(crate) proof fn lanes_cover_tightly(len: usize, registers: usize)
    requires
        ceil_div(len, registers) is Ok,
        len >= 1,
    ensures
        umax(ceil_div(len, registers)->Ok_0, 1) == ceil_div(len, registers)->Ok_0,
        (ceil_div(len, registers)->Ok_0 - 1) * registers < len <= ceil_div(len, registers)->Ok_0
            * registers,
{
    ceil_div_is_least_cover(len, registers);
    let lanes = ceil_div(len, registers)->Ok_0;
    if (lanes - 1) * registers >= len {
        assert(lanes - 1 >= lanes);
    }
}

/// The transforms that bring a workgroup to 128 lanes: the most that do not pass it, one at
/// least. Lanes that fill one subgroup and less than half of the next count as a subgroup.
pub proof fn estimates_fill_the_aim(threads: usize, warp: usize)
    requires
        threads >= 1,
        warp >= 1,
    ensures
        ({
            let lanes = if warp <= threads && 2 * threads < 3 * warp {
                warp
            } else {
                threads
            };
            let estimate = estimate_batch(threads, warp);
            &&& estimate >= 1
            &&& estimate > 1 ==> estimate * lanes <= 128
            &&& (estimate + 1) * lanes > 128
        }),
{
    whole_quotient(128, warp as int);
    whole_quotient(128, threads as int);
    if 128int / warp as int == 0 {
        product_grows(1, 2, warp as int);
    }
    if 128int / threads as int == 0 {
        product_grows(1, 2, threads as int);
    }
}

/// A group is scaled up only to whole multiples that keep within 128 lanes and shared memory,
/// and never down.
pub proof fn scaled_groups_keep_to_the_aim(
    grouped: usize,
    threads: usize,
    len: usize,
    shared: usize,
    operation: &'static str,
)
    requires
        grouped >= 1,
        threads >= 1,
    ensures
        aim_scaled_group(grouped, threads, len, shared, operation) matches Ok(scaled) ==> {
            &&& scaled >= grouped
            &&& scaled as int % grouped as int == 0
            &&& scaled > grouped ==> scaled * threads <= 128 && scaled * len <= shared
            // Where twice the group keeps within the lanes, only memory keeps it from growing.
            &&& (2 * grouped) * threads <= 128 && scaled == grouped ==> exists|scale: int|
                #![trigger grouped * scale]
                scale >= 2 && (grouped * scale) * threads <= 128 && (grouped * scale) * len
                    > shared
        },
{
    reveal(aim_scaled_group);
    let most = quotient(128, threads);
    let scale = quotient(most, grouped);
    whole_quotient(128, threads as int);
    whole_quotient(most as int, grouped as int);
    vstd::arithmetic::div_mod::lemma_mod_self_0(grouped as int);
    vstd::arithmetic::div_mod::lemma_mod_multiples_basic(scale as int, grouped as int);
    assert(grouped * scale == scale * grouped) by (nonlinear_arith);
    assert((len * grouped) * scale == (grouped * scale) * len) by (nonlinear_arith);
    if scale > 1 {
        product_grows(1, scale as int, grouped as int);
        product_grows(2, scale as int, grouped as int);
        product_grows(grouped * scale, most as int, threads as int);
        assert((grouped * scale) * threads <= 128);
        if len * grouped > usize::MAX {
            product_grows(1, scale as int, len * grouped);
        }
    } else if (2 * grouped) * threads <= 128 {
        if 2 * grouped > most {
            product_grows(most + 1, 2 * grouped, threads as int);
        }
        product_grows(scale + 1, 2, grouped as int);
    }
}

/// The group a strided axis starts from: one coalesced width for every whole transform that a
/// strided upload holds, and one at least.
pub proof fn initial_groups_hold_whole_widths(
    strided: usize,
    len: usize,
    coalesced: usize,
    operation: &'static str,
)
    requires
        len >= 1,
    ensures
        initial_group(strided, len, coalesced, operation) matches Ok(initial) ==> {
            let count = strided as int / len as int;
            &&& count * len <= strided < (count + 1) * len
            &&& initial == coalesced * (if count >= 1 {
                count
            } else {
                1
            })
        },
{
    whole_quotient(strided as int, len as int);
    let count = quotient(strided, len);
    assert(count * coalesced == coalesced * count) by (nonlinear_arith);
    assert(coalesced * 1 == coalesced) by (nonlinear_arith);
}

/// A requested group on X: taken where its lanes fit, held to the batch and the first extent;
/// else replaced by the most transforms whose lanes fit beside as many as were asked for. It
/// takes effect only where the automatic group is larger than the given bound.
pub proof fn requested_groups_keep_to_the_lanes(
    automatic: usize,
    gate: usize,
    requested: usize,
    threads: usize,
    batch_count: usize,
    device: DeviceProfile,
)
    requires
        1 <= batch_count,
        1 <= device.max_workgroup_size[0],
    ensures
        user_x_group(automatic, gate, requested, threads, batch_count, false, device) matches Some(
            group,
        ) ==> {
            let wanted = if automatic > gate || (gate == 0 && automatic == 0) {
                requested
            } else {
                umax(automatic, 1)
            };
            let held = clamped_x_group(wanted, batch_count, device);
            &&& 1 <= held <= batch_count
            &&& held <= device.max_workgroup_size[0]
            &&& held <= umax(wanted, 1)
            &&& held * threads <= device.max_threads_per_block ==> group == held
            &&& device.max_threads_per_block < held * threads <= usize::MAX ==> {
                &&& group >= 1
                &&& group * held <= device.max_threads_per_block
                &&& (group + 1) * held > device.max_threads_per_block
            }
        },
{
    reveal(user_x_group);
    let wanted = if umax(automatic, 1) > gate {
        requested
    } else {
        umax(automatic, 1)
    };
    let held = clamped_x_group(wanted, batch_count, device);
    whole_quotient(device.max_threads_per_block as int, held as int);
}

/// How transactions widen on NVIDIA devices: every one of three uploads, and of two the later
/// one or a short first one, takes 128 bytes where the transforms fit shared memory at that
/// width, else 64 bytes where they fit at that. Elsewhere the width stays; the first of
/// several uploads whose transforms fit halves its group.
pub proof fn transactions_widen_where_they_fit(
    upload_count: usize,
    axis_upload_id: usize,
    len: usize,
    shared: usize,
    complex_bytes: usize,
    grouped: usize,
    coalesced: usize,
    device: DeviceProfile,
)
    requires
        1 <= complex_bytes <= 64,
        grouped < usize::MAX,
    ensures
        four_step_group(
            upload_count,
            axis_upload_id,
            len,
            shared,
            complex_bytes,
            grouped,
            coalesced,
            device,
        ) matches Ok((group, width)) && {
            let wide = 128int / complex_bytes as int;
            let narrow = 64int / complex_bytes as int;
            let widens = upload_count == 3 || (upload_count == 2 && (axis_upload_id > 0 || len
                <= 512));
            &&& device.vendor == GpuVendor::Nvidia && widens ==> {
                if len * wide <= shared {
                    group == wide && width == wide
                } else if len * narrow <= shared {
                    group == narrow && width == narrow
                } else {
                    group == grouped && width == coalesced
                }
            }
            &&& device.vendor == GpuVendor::Nvidia && !widens ==> group == grouped && width
                == coalesced
            &&& device.vendor != GpuVendor::Nvidia ==> {
                let halves = axis_upload_id == 0 && (upload_count == 2 && len * coalesced <= shared
                    || upload_count == 3 && (len + 1) * (2 * complex_bytes) <= shared);
                &&& width == coalesced
                &&& halves ==> 2 * group >= grouped && 2 * group <= grouped + 1
                &&& !halves ==> group == grouped
            }
        },
{
    reveal(four_step_group);
    vstd::arithmetic::div_mod::lemma_div_non_zero(128, complex_bytes as int);
    vstd::arithmetic::div_mod::lemma_div_non_zero(64, complex_bytes as int);
    let unit = 2 * complex_bytes;
    whole_quotient(shared as int, unit);
    let most = shared as int / unit;
    if len < most {
        product_grows(len + 1, most, unit);
    } else {
        product_grows(most + 1, len + 1, unit);
    }
}

} // verus!
