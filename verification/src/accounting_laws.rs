//! How planned uploads account for memory: their capacities are what the bytes hold, one
//! upload only where it holds the whole axis, three from the policy's threshold on.

use vstd::arithmetic::power::pow;
use vstd::prelude::*;

use crate::arith::{
    ceil_div, ceil_div_is_least_cover, exponent_covering_is_least, exponent_covering_spec,
    is_power_of_two, umax,
};
use crate::config::{DeviceProfile, Precision};
use crate::error::VkFftError;
use crate::group_laws::product_grows;
use crate::policy::{policy_bounds, scheduler_policy};
use crate::pressure_laws::whole_quotient;
use crate::split_laws::{sqrt_split_is_exact, unit_stride_split_is_exact};
use crate::upload_count::{
    bandwidth_uploads, boosted_capacity, count_uploads, divisible_boost, divisible_boost_at_least,
    effective_bandwidth_boost, four_step_uploads, initial_uploads, reduced_capacity, reduced_count,
    settled_uploads, shape_from_settled, shrinks, strided_bluestein_uploads, unboosted_capacity,
    upload_shape, uploads_with_first, StockhamUploadAxisContext, UploadLabels, UploadLimits,
};
use crate::upload_laws::unadmitted_boost_is_dropped;
use crate::uploads::{
    double_double_limits, double_double_uploads, ordinary_limits, power_of_two_uploads,
    smooth_uploads, strided_capacity, StockhamUploadModel,
};

verus! {

/// Whether `capacity` values of `unit` bytes are the most that `bytes` hold.
pub open spec fn most_that_fit(capacity: usize, unit: usize, bytes: usize) -> bool {
    capacity * unit <= bytes < (capacity + 1) * unit
}

proof fn reduced_groups_hold(len: usize, limits: UploadLimits, boost: usize)
    requires
        limits.complex_bytes >= 1,
        boost >= 1,
        limits.shared == limits.shared_bytes / limits.complex_bytes,
    ensures
        reduced_capacity(limits, boost) <= limits.shared,
{
    let narrowed = limits.coalesced_bytes / boost;
    if narrowed > limits.complex_bytes {
        vstd::arithmetic::div_mod::lemma_div_is_ordered_by_denominator(
            limits.shared_bytes as int,
            limits.complex_bytes as int,
            narrowed as int,
        );
    }
}

/// One upload holds the whole axis, once its registers are boosted. From the policy's
/// threshold on an axis takes three uploads.
pub proof fn one_upload_holds_the_axis(
    len: usize,
    limits: UploadLimits,
    context: StockhamUploadAxisContext,
    labels: UploadLabels,
)
    requires
        len >= 1,
        limits.complex_bytes >= 1,
        limits.shared == limits.shared_bytes / limits.complex_bytes,
        1 <= limits.strided <= limits.shared,
    ensures
        upload_shape(len, limits, context, labels) matches Ok(shape) ==> {
            &&& shape.upload_count <= 3
            &&& shape.upload_count == 1 ==> len <= limits.shared * shape.register_boost
            &&& len >= limits.swap_to_three && limits.swap_to_three >= 65_536
                ==> shape.upload_count == 3
            &&& len >= limits.swap_to_two ==> shape.upload_count >= 2
        },
{
    let initial = initial_uploads(len, limits, context, labels);
    if initial is Ok {
        let count = initial->Ok_0.1;
        let held = unboosted_capacity(count, limits, context, labels);
        if held is Ok && ceil_div(len, held->Ok_0) is Ok {
            let capacity = held->Ok_0;
            let required = ceil_div(len, capacity)->Ok_0;
            ceil_div_is_least_cover(len, capacity);
            divisible_boost_at_least(
                len,
                required as int,
                limits.boost_limit as int,
                labels.boost_square,
            );
            let settled = settled_uploads(len, required, count, limits, labels);
            if settled is Ok {
                let (boost, uploads) = settled->Ok_0;
                let shape = shape_from_settled(len, boost, uploads, limits, context, labels);
                if shape is Ok && shape->Ok_0.upload_count == 1 {
                    one_probed_upload(len, boost, uploads, limits, context, labels);
                    if uploads == 1 {
                        initial_count_is_positive(len, limits, context, labels);
                        assert(count == 1);
                        vstd::arithmetic::power::lemma_pow0(limits.strided as int);
                        vstd::arithmetic::power::lemma_pow1(limits.strided as int);
                        assert(1 * limits.shared == limits.shared) by (nonlinear_arith);
                        assert(capacity <= limits.shared);
                        product_grows(capacity as int, limits.shared as int, required as int);
                        product_grows(required as int, boost as int, limits.shared as int);
                        assert(required * capacity == capacity * required) by (nonlinear_arith);
                        assert(required * limits.shared == limits.shared * required)
                            by (nonlinear_arith);
                    }
                }
            }
        }
    }
}

proof fn later_uploads_cover(remaining: usize, later: usize, uploads: int)
    requires
        remaining >= 1,
        uploads >= 1,
        uploads + remaining <= usize::MAX + 1,
    ensures
        count_uploads(remaining, later, uploads) matches Ok(count) ==> {
            &&& uploads <= count < uploads + remaining
            &&& pow(later as int, (count - uploads) as nat) >= remaining
            &&& count > uploads ==> pow(later as int, (count - uploads - 1) as nat) < remaining
        },
    decreases remaining,
{
    vstd::arithmetic::power::lemma_pow0(later as int);
    if remaining > 1 && later > 1 && ceil_div(remaining, later) is Ok {
        let next = ceil_div(remaining, later)->Ok_0;
        shrinks(remaining, later);
        ceil_div_is_least_cover(remaining, later);
        later_uploads_cover(next, later, uploads + 1);
        if count_uploads(remaining, later, uploads) is Ok {
            let count = count_uploads(remaining, later, uploads)->Ok_0;
            let steps = (count - uploads - 1) as nat;
            let reach = pow(later as int, steps);
            vstd::arithmetic::power::lemma_pow_adds(later as int, 1, steps);
            vstd::arithmetic::power::lemma_pow1(later as int);
            product_grows(next as int, reach, later as int);
            assert(later * reach == reach * later) by (nonlinear_arith);
            if steps > 0 {
                let short = pow(later as int, (steps - 1) as nat);
                vstd::arithmetic::power::lemma_pow_adds(later as int, 1, (steps - 1) as nat);
                assert(later * short == short * later) by (nonlinear_arith);
                if short * later >= remaining {
                    assert(short >= next);
                }
            }
        }
    }
}

/// The uploads of an axis whose first one has a capacity of its own: together they hold the
/// axis, and one less does not.
pub proof fn uploads_with_first_are_least(len: usize, first: usize, later: usize)
    requires
        len >= 1,
    ensures
        uploads_with_first(len, first, later) matches Ok(count) ==> {
            &&& count >= 1
            &&& first * pow(later as int, (count - 1) as nat) >= len
            &&& count > 1 ==> first * pow(later as int, (count - 2) as nat) < len
        },
{
    if first != 0 && later != 0 && ceil_div(len, first) is Ok {
        let remaining = ceil_div(len, first)->Ok_0;
        ceil_div_is_least_cover(len, first);
        later_uploads_cover(remaining, later, 1);
        if count_uploads(remaining, later, 1) is Ok {
            let count = count_uploads(remaining, later, 1)->Ok_0;
            let reach = pow(later as int, (count - 1) as nat);
            product_grows(remaining as int, reach, first as int);
            assert(first * reach == reach * first) by (nonlinear_arith);
            if count > 1 {
                let short = pow(later as int, (count - 2) as nat);
                assert(first * short == short * first) by (nonlinear_arith);
                if short * first >= len {
                    assert(short >= remaining);
                }
            }
        }
    }
}

/// The first count of a strided Bluestein axis: one where the axis is shorter than two
/// capacities, else one more than the least count whose capacities hold the whole ratio.
pub proof fn bluestein_counts_cover_the_ratio(len: usize, capacity: usize)
    ensures
        strided_bluestein_uploads(len, capacity) is Err ==> capacity < 2 || len >= 2 * capacity,
        strided_bluestein_uploads(len, capacity) matches Ok(count) ==> {
            &&& capacity >= 1
            &&& count == 1 <==> len < 2 * capacity
            &&& count > 1 ==> {
                let ratio = len as int / capacity as int;
                &&& pow(capacity as int, (count - 1) as nat) >= ratio
                &&& count > 2 ==> pow(capacity as int, (count - 2) as nat) < ratio
            }
        },
{
    if capacity >= 1 {
        whole_quotient(len as int, capacity as int);
        let ratio = len as int / capacity as int;
        if ratio > 1 {
            product_grows(2, ratio, capacity as int);
            if capacity >= 2 && exponent_covering_spec(ratio as usize, capacity) is Ok {
                exponent_covering_is_least(ratio as usize, capacity);
            }
        } else {
            product_grows(ratio + 1, 2, capacity as int);
        }
    }
}

/// A boost that a length admits is the least one from where it is asked for whose square
/// divides the length.
pub proof fn divisible_boost_is_least(
    len: usize,
    candidate: int,
    limit: int,
    operation: &'static str,
)
    requires
        candidate > 0,
    ensures
        divisible_boost(len, candidate, limit, operation) matches Ok(found) ==> {
            forall|boost: int| #![trigger boost * boost]
                candidate <= boost <= limit && len as int % (boost * boost) == 0 ==> (found is Some
                    && found->Some_0 <= boost)
        },
    decreases limit - candidate + 1,
{
    if candidate <= limit {
        assert(candidate <= candidate * candidate) by (nonlinear_arith)
            requires
                candidate > 0,
        ;
        divisible_boost_is_least(len, candidate + 1, limit, operation);
    }
}

proof fn initial_count_is_positive(
    len: usize,
    limits: UploadLimits,
    context: StockhamUploadAxisContext,
    labels: UploadLabels,
)
    requires
        len >= 1,
    ensures
        initial_uploads(len, limits, context, labels) matches Ok((boost, count)) ==> count >= 1,
{
    if four_step_uploads(len, limits, context, labels) is Ok {
        let boost = crate::arith::square_divisor_boost(
            len,
            limits.four_step_boost_limit as int,
        ) as usize;
        let non_strided = boosted_capacity(
            limits.shared,
            boost,
            limits.perform_convolution,
            labels.four_step_non_strided,
        )->Ok_0;
        let strided = boosted_capacity(
            limits.strided,
            boost,
            limits.perform_convolution,
            labels.four_step_strided,
        )->Ok_0;
        uploads_with_first_are_least(len, non_strided, strided);
        if strided >= 2 && exponent_covering_spec(len, strided) is Ok {
            exponent_covering_is_least(len, strided);
        }
    }
    let initial = initial_uploads(len, limits, context, labels);
    if initial is Ok {
        bluestein_counts_cover_the_ratio(
            len,
            (limits.strided * initial->Ok_0.0) as usize,
        );
    }
}

proof fn reduced_count_grows(remaining: usize, capacity: usize, count: int, steps: int)
    requires
        count >= 1,
        steps >= 0,
        count + steps <= 6,
    ensures
        reduced_count(remaining, capacity, count, steps) matches Ok(found) ==> found >= count && (
        steps > 0 ==> found > count),
    decreases steps,
{
    if steps > 0 && ceil_div(remaining, capacity) is Ok {
        reduced_count_grows(
            ceil_div(remaining, capacity)->Ok_0,
            capacity,
            count + 1,
            steps - 1,
        );
    }
}

/// A probe that ends at one upload found its narrow transactions to hold the axis, or found
/// one upload already.
proof fn one_probed_upload(
    len: usize,
    boost: usize,
    uploads: usize,
    limits: UploadLimits,
    context: StockhamUploadAxisContext,
    labels: UploadLabels,
)
    requires
        len >= 1,
        boost >= 1,
        limits.complex_bytes >= 1,
        limits.shared == limits.shared_bytes / limits.complex_bytes,
        shape_from_settled(len, boost, uploads, limits, context, labels) matches Ok(shape)
            && shape.upload_count == 1,
    ensures
        uploads == 1 || len <= limits.shared * boost,
{
    let max_strided = (limits.strided * boost) as usize;
    let max_non_strided = (limits.shared * boost) as usize;
    let narrow = crate::upload_count::effective_bandwidth_boost(context);
    if narrow != 0 {
        let reduced = reduced_capacity(limits, narrow);
        reduced_groups_hold(len, limits, narrow);
        if reduced != 0 && ceil_div(len, reduced) is Ok {
            ceil_div_is_least_cover(len, reduced);
            product_grows(1, boost as int, limits.shared as int);
            let first = if !limits.reorder_four_step || context.use_bluestein_fft {
                max_non_strided
            } else {
                reduced
            };
            if ceil_div(len, first) is Ok {
                reduced_count_grows(ceil_div(len, first)->Ok_0, max_strided, 1, 5);
            }
        }
    }
}


/// Every planned schedule of an ordinary axis names the bytes its device has for the length,
/// and the most values they hold: whole ones, and whole transactions of them. One upload is
/// planned only where shared memory holds the axis, three from the policy's threshold on.
pub proof fn uploads_account_for_memory(
    sequence_len: usize,
    batch_count: usize,
    precision: Precision,
    device: DeviceProfile,
    context: StockhamUploadAxisContext,
)
    ensures
        smooth_uploads(sequence_len, batch_count, precision, device, context) matches Ok(upload)
            ==> {
            let policy = scheduler_policy(precision, device)->Ok_0;
            let bytes = precision.compute_complex_bytes();
            &&& upload.sequence_len == sequence_len
            &&& upload.batch_count == batch_count
            &&& upload.used_shared_memory_bytes == if is_power_of_two(sequence_len) {
                device.shared_memory_pow2_bytes
            } else {
                device.shared_memory_bytes
            }
            &&& most_that_fit(
                upload.max_sequence_len_shared,
                bytes,
                upload.used_shared_memory_bytes,
            )
            &&& most_that_fit(
                upload.max_sequence_len_strided,
                umax(policy.coalesced_memory_bytes, bytes),
                upload.used_shared_memory_bytes,
            )
            &&& 1 <= upload.upload_count <= 3
            &&& upload.upload_count == 1 ==> sequence_len <= upload.max_sequence_len_shared
                * upload.register_boost
            &&& sequence_len >= policy.swap_to_three_stage_four_step ==> upload.upload_count == 3
        },
{
    reveal(smooth_uploads);
    reveal(power_of_two_uploads);
    policy_bounds(precision, device);
    if smooth_uploads(sequence_len, batch_count, precision, device, context) is Ok {
        let policy = scheduler_policy(precision, device)->Ok_0;
        let power = is_power_of_two(sequence_len);
        let bytes = precision.compute_complex_bytes();
        let shared_bytes = if power {
            device.shared_memory_pow2_bytes
        } else {
            device.shared_memory_bytes
        };
        let shared = (shared_bytes / bytes) as usize;
        let strided = strided_capacity(
            shared_bytes,
            bytes,
            policy.coalesced_memory_bytes,
            shared,
        );
        whole_quotient(shared_bytes as int, bytes as int);
        whole_quotient(shared_bytes as int, umax(policy.coalesced_memory_bytes, bytes) as int);
        vstd::arithmetic::div_mod::lemma_div_is_ordered_by_denominator(
            shared_bytes as int,
            bytes as int,
            umax(policy.coalesced_memory_bytes, bytes) as int,
        );
        let keep = if power {
            true
        } else {
            policy.register_boost_non_power_of_two && !context.perform_convolution
        };
        let limits = ordinary_limits(shared_bytes, bytes, shared, strided, keep, policy, context);
        let labels = if power {
            crate::uploads::power_of_two_labels()
        } else {
            crate::uploads::smooth_labels()
        };
        one_upload_holds_the_axis(sequence_len, limits, context, labels);
    }
}

/// The same of a double-double axis, whose values take 32 bytes.
pub proof fn double_double_uploads_account_for_memory(
    sequence_len: usize,
    batch_count: usize,
    device: DeviceProfile,
    context: StockhamUploadAxisContext,
)
    ensures
        double_double_uploads(sequence_len, batch_count, device, context) matches Ok(upload)
            ==> {
            let policy = scheduler_policy(Precision::DoubleDouble, device)->Ok_0;
            &&& upload.sequence_len == sequence_len
            &&& upload.batch_count == batch_count
            &&& upload.used_shared_memory_bytes == if is_power_of_two(sequence_len) {
                device.shared_memory_pow2_bytes
            } else {
                device.shared_memory_bytes
            }
            &&& most_that_fit(
                upload.max_sequence_len_shared,
                32,
                upload.used_shared_memory_bytes,
            )
            &&& most_that_fit(
                upload.max_sequence_len_strided,
                umax(policy.coalesced_memory_bytes, 32),
                upload.used_shared_memory_bytes,
            )
            &&& 1 <= upload.upload_count <= 3
            &&& upload.upload_count == 1 ==> sequence_len <= upload.max_sequence_len_shared
                * upload.register_boost
            &&& sequence_len >= policy.swap_to_three_stage_four_step ==> upload.upload_count == 3
        },
{
    reveal(double_double_uploads);
    policy_bounds(Precision::DoubleDouble, device);
    if double_double_uploads(sequence_len, batch_count, device, context) is Ok {
        let policy = scheduler_policy(Precision::DoubleDouble, device)->Ok_0;
        let power = is_power_of_two(sequence_len);
        let shared_bytes = if power {
            device.shared_memory_pow2_bytes
        } else {
            device.shared_memory_bytes
        };
        let shared = (shared_bytes / 32) as usize;
        let strided = strided_capacity(shared_bytes, 32, policy.coalesced_memory_bytes, shared);
        whole_quotient(shared_bytes as int, 32);
        whole_quotient(shared_bytes as int, umax(policy.coalesced_memory_bytes, 32) as int);
        vstd::arithmetic::div_mod::lemma_div_is_ordered_by_denominator(
            shared_bytes as int,
            32,
            umax(policy.coalesced_memory_bytes, 32) as int,
        );
        let keep = power || policy.register_boost_non_power_of_two;
        let limits = double_double_limits(shared_bytes, shared, strided, keep, policy, context);
        one_upload_holds_the_axis(
            sequence_len,
            limits,
            context,
            crate::uploads::double_double_labels(),
        );
    }
}


/// Where the first upload of a contiguous axis reads with unit stride, as that of a Bluestein
/// transform or a convolution does, its factor keeps to shared memory and the others keep to
/// strided memory, and no register is boosted.
pub proof fn unit_stride_factors_fit(
    sequence_len: usize,
    batch_count: usize,
    precision: Precision,
    device: DeviceProfile,
    context: StockhamUploadAxisContext,
    upload: StockhamUploadModel,
)
    requires
        smooth_uploads(sequence_len, batch_count, precision, device, context) == Ok::<
            StockhamUploadModel,
            VkFftError,
        >(upload),
        !is_power_of_two(sequence_len),
        !context.strided_axis,
        context.use_bluestein_fft || context.perform_convolution,
        upload.upload_count > 1,
    ensures
        upload.register_boost == 1,
        upload.axis_split.len() == upload.upload_count,
        upload.axis_split[0] <= upload.max_sequence_len_shared,
        forall|i: int|
            1 <= i < upload.axis_split.len() ==> #[trigger] upload.axis_split[i]
                <= upload.max_sequence_len_strided,
{
    reveal(smooth_uploads);
    policy_bounds(precision, device);
    let policy = scheduler_policy(precision, device)->Ok_0;
    let bytes = precision.compute_complex_bytes();
    let shared_bytes = device.shared_memory_bytes;
    let shared = (shared_bytes / bytes) as usize;
    let strided = strided_capacity(shared_bytes, bytes, policy.coalesced_memory_bytes, shared);
    let limits = ordinary_limits(shared_bytes, bytes, shared, strided, false, policy, context);
    let labels = crate::uploads::smooth_labels();
    unadmitted_boost_is_dropped(sequence_len, limits, context, labels);
    let shape = upload_shape(sequence_len, limits, context, labels)->Ok_0;
    assert(strided * 1 == strided) by (nonlinear_arith);
    sqrt_split_is_exact(sequence_len, shape.max_strided, shared);
    unit_stride_split_is_exact(sequence_len, shared, shape.max_strided);
}


/// Uploads counted at reduced bandwidth: the later ones together hold what remains, unless
/// the count ends at its limit, and one less would not.
proof fn reduced_counts_are_least(remaining: usize, capacity: usize, count: int, steps: int)
    requires
        remaining >= 1,
        count >= 1,
        steps >= 1,
        count + steps <= 6,
    ensures
        reduced_count(remaining, capacity, count, steps) matches Ok(found) ==> {
            let later = found - count;
            &&& 1 <= later <= steps
            &&& later < steps ==> pow(capacity as int, later as nat) >= remaining
            &&& later > 1 ==> pow(capacity as int, (later - 1) as nat) < remaining
        },
    decreases steps,
{
    vstd::arithmetic::power::lemma_pow1(capacity as int);
    if ceil_div(remaining, capacity) is Ok {
        let next = ceil_div(remaining, capacity)->Ok_0;
        ceil_div_is_least_cover(remaining, capacity);
        assert(1 * capacity == capacity) by (nonlinear_arith);
        if next != 1 {
            if steps > 1 {
                reduced_counts_are_least(next, capacity, count + 1, steps - 1);
                let rest = reduced_count(next, capacity, count + 1, steps - 1);
                if rest is Ok {
                    let later = rest->Ok_0 - count;
                    vstd::arithmetic::power::lemma_pow_adds(
                        capacity as int,
                        1,
                        (later - 1) as nat,
                    );
                    let reach = pow(capacity as int, (later - 1) as nat);
                    assert(capacity * reach == reach * capacity) by (nonlinear_arith);
                    if reach >= next {
                        product_grows(next as int, reach, capacity as int);
                    }
                    if later > 2 {
                        vstd::arithmetic::power::lemma_pow_adds(
                            capacity as int,
                            1,
                            (later - 2) as nat,
                        );
                        let short = pow(capacity as int, (later - 2) as nat);
                        assert(capacity * short == short * capacity) by (nonlinear_arith);
                        if short * capacity >= remaining {
                            assert(short >= next);
                        }
                    }
                }
            } else {
                assert(reduced_count(next, capacity, count + 1, 0) == Ok::<usize, VkFftError>(
                    (count + 1) as usize,
                ));
            }
        }
    }
}

/// Where narrower transactions are taken, the capacity given is the most that shared memory
/// holds in them, and one upload is counted exactly where it holds the axis. Several are
/// counted only where it does not, and no more than hold what the first leaves.
pub proof fn narrow_transactions_hold_the_axis(
    len: usize,
    count: usize,
    max_non_strided: usize,
    max_strided: usize,
    limits: UploadLimits,
    context: StockhamUploadAxisContext,
)
    requires
        len >= 1,
        limits.complex_bytes >= 1,
        limits.shared == limits.shared_bytes / limits.complex_bytes,
    ensures
        bandwidth_uploads(len, count, max_non_strided, max_strided, limits, context) matches Ok(
            (probed, half_bandwidth),
        ) ==> {
            let boost = effective_bandwidth_boost(context);
            let first = if !limits.reorder_four_step || context.use_bluestein_fft {
                max_non_strided
            } else {
                half_bandwidth
            };
            &&& probed < count ==> {
                &&& boost >= 1
                &&& most_that_fit(
                    half_bandwidth,
                    umax((limits.coalesced_bytes / boost) as usize, limits.complex_bytes),
                    limits.shared_bytes,
                )
                &&& probed == 1 <==> len <= half_bandwidth
                &&& probed > 2 ==> first * pow(max_strided as int, (probed - 2) as nat) < len
            }
            &&& probed >= count ==> probed == count && half_bandwidth == max_strided
        },
{
    let boost = effective_bandwidth_boost(context);
    if boost != 0 {
        let reduced = reduced_capacity(limits, boost);
        let narrowed = limits.coalesced_bytes / boost;
        whole_quotient(
            limits.shared_bytes as int,
            umax(narrowed as usize, limits.complex_bytes) as int,
        );
        if reduced != 0 && ceil_div(len, reduced) is Ok {
            ceil_div_is_least_cover(len, reduced);
            assert(1 * reduced == reduced) by (nonlinear_arith);
            let first = if !limits.reorder_four_step || context.use_bluestein_fft {
                max_non_strided
            } else {
                reduced
            };
            if ceil_div(len, first) is Ok {
                let remaining = ceil_div(len, first)->Ok_0;
                ceil_div_is_least_cover(len, first);
                reduced_counts_are_least(remaining, max_strided, 1, 5);
                let found = reduced_count(remaining, max_strided, 1, 5);
                if found is Ok && found->Ok_0 > 2 {
                    let short = pow(max_strided as int, (found->Ok_0 - 2) as nat);
                    assert(first * short == short * first) by (nonlinear_arith);
                    if short * first >= len {
                        assert(short >= remaining);
                    }
                }
            }
        }
    }
}

} // verus!
