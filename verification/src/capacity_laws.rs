//! When the factors of an axis that takes several uploads keep to the strided capacity of
//! shared memory.

use vstd::prelude::*;

use crate::arith::{is_pow2, pow8_at_most, umax};
use crate::config::{DeviceProfile, GpuVendor, Precision};
use crate::error::VkFftError;
use crate::policy::{policy_bounds, scheduler_policy};
use crate::split_laws::{
    cuberoot_split_is_exact, power_two_upload_split_is_exact, product_of_two,
    reordering_keeps_the_limit, sqrt_split_is_exact,
};
use crate::splits::{
    balanced_pair, first_doubling, pow2_sqrt, pow2_sqrt_bounds, pow8_at_most_bounds,
    power_of_two_three_split, power_two_upload_split, three_upload_rest, three_upload_strided_first,
    two_upload_first,
};
use crate::upload_count::{
    effective_bandwidth_boost, upload_shape, StockhamUploadAxisContext, UploadLabels, UploadLimits,
    UploadShape,
};
use crate::upload_laws::unadmitted_boost_is_dropped;
use crate::uploads::{
    double_double_axis_split, double_double_labels, double_double_limits, double_double_uploads,
    factors_within, ordinary_limits, power_of_two_axis_split, power_of_two_labels,
    power_of_two_uploads, reordered_split, searched_axis_split, smooth_labels, smooth_uploads,
    strided_capacity, DD_COMPLEX_BYTES, DoubleDoubleUploadModel, StockhamUploadModel,
};

verus! {

/// Whether every upload of several is strided and none narrows its transactions: a plain
/// transform on a contiguous axis, or on a strided one that gives up no bandwidth.
pub open spec fn all_uploads_strided(context: StockhamUploadAxisContext) -> bool {
    effective_bandwidth_boost(context) == 0 && !context.use_bluestein_fft
}

/// Without narrower transactions there is one strided capacity, scaled by the boost.
proof fn capacities_agree(
    len: usize,
    limits: UploadLimits,
    context: StockhamUploadAxisContext,
    labels: UploadLabels,
)
    requires
        all_uploads_strided(context),
    ensures
        upload_shape(len, limits, context, labels) matches Ok(shape) ==> shape.half_bandwidth
            == shape.max_strided && shape.max_strided == limits.strided * shape.register_boost,
{
}

proof fn searched_factors_fit(
    len: usize,
    limits: UploadLimits,
    shape: UploadShape,
    missing: &'static str,
)
    requires
        shape.half_bandwidth == shape.max_strided,
        shape.upload_count > 1,
    ensures
        searched_axis_split(len, limits, shape, false, missing) matches Ok(split)
            ==> factors_within(split, 0, shape.max_strided),
{
    sqrt_split_is_exact(len, shape.max_strided, shape.max_strided);
    cuberoot_split_is_exact(
        len,
        shape.max_strided,
        shape.max_strided,
        false,
        "GPU smooth scheduler could not find a three-upload divisor split",
    );
}

/// How a smooth axis came by its factors.
proof fn smooth_origin(
    sequence_len: usize,
    batch_count: usize,
    precision: Precision,
    device: DeviceProfile,
    context: StockhamUploadAxisContext,
    upload: StockhamUploadModel,
) -> (origin: (UploadLimits, UploadShape, Seq<usize>, bool))
    requires
        smooth_uploads(sequence_len, batch_count, precision, device, context) == Ok::<
            StockhamUploadModel,
            VkFftError,
        >(upload),
        !is_pow2(sequence_len as int),
        all_uploads_strided(context),
        context.strided_axis || !context.perform_convolution,
    ensures
        ({
            let (limits, shape, found, reorder) = origin;
            &&& upload_shape(sequence_len, limits, context, smooth_labels()) == Ok::<
                UploadShape,
                VkFftError,
            >(shape)
            &&& searched_axis_split(
                sequence_len,
                limits,
                shape,
                false,
                "GPU smooth scheduler could not find a two-upload divisor split",
            ) == Ok::<Seq<usize>, VkFftError>(found)
            &&& upload.axis_split == reordered_split(found, reorder)
            &&& upload.upload_count == shape.upload_count
            &&& upload.register_boost == shape.register_boost
            &&& upload.max_sequence_len_strided == limits.strided
            &&& !limits.keep_boost
            &&& sequence_len >= 1
        }),
{
    reveal(smooth_uploads);
    policy_bounds(precision, device);
    let policy = scheduler_policy(precision, device)->Ok_0;
    let complex_bytes = precision.compute_complex_bytes();
    let shared_bytes = device.shared_memory_bytes;
    let shared = shared_bytes / complex_bytes;
    let strided = strided_capacity(
        shared_bytes,
        complex_bytes,
        policy.coalesced_memory_bytes,
        shared,
    );
    let limits = ordinary_limits(
        shared_bytes,
        complex_bytes,
        shared,
        strided,
        policy.register_boost_non_power_of_two && !context.perform_convolution,
        policy,
        context,
    );
    let shape = upload_shape(sequence_len, limits, context, smooth_labels())->Ok_0;
    let found = searched_axis_split(
        sequence_len,
        limits,
        shape,
        false,
        "GPU smooth scheduler could not find a two-upload divisor split",
    )->Ok_0;
    (limits, shape, found, limits.reorder_four_step)
}

/// Where every upload is strided, every factor of a smooth length that is no power of two
/// keeps to the strided capacity of shared memory, and no register is boosted.
pub proof fn smooth_factors_fit_strided_memory(
    sequence_len: usize,
    batch_count: usize,
    precision: Precision,
    device: DeviceProfile,
    context: StockhamUploadAxisContext,
    upload: StockhamUploadModel,
)
    requires
        smooth_uploads(sequence_len, batch_count, precision, device, context) == Ok::<
            StockhamUploadModel,
            VkFftError,
        >(upload),
        !is_pow2(sequence_len as int),
        all_uploads_strided(context),
        context.strided_axis || !context.perform_convolution,
        upload.upload_count > 1,
    ensures
        upload.register_boost == 1,
        factors_within(upload.axis_split, 0, upload.max_sequence_len_strided),
{
    let (limits, shape, found, reorder) = smooth_origin(
        sequence_len,
        batch_count,
        precision,
        device,
        context,
        upload,
    );
    capacities_agree(sequence_len, limits, context, smooth_labels());
    unadmitted_boost_is_dropped(sequence_len, limits, context, smooth_labels());
    searched_factors_fit(
        sequence_len,
        limits,
        shape,
        "GPU smooth scheduler could not find a two-upload divisor split",
    );
    reordering_keeps_the_limit(found, reorder, shape.max_strided);
}

/// Whether the divisor search of NVIDIA devices splits this power of two; it keeps to the
/// limits it is given.
pub open spec fn searches_divisors(len: usize, device: DeviceProfile) -> bool {
    device.vendor == GpuVendor::Nvidia && len > 262_144
}

proof fn quotient_within(len: int, divisor: int, limit: int)
    requires
        0 <= len <= limit * divisor,
        divisor > 0,
    ensures
        len / divisor <= limit,
{
    assert(len / divisor <= limit) by (nonlinear_arith)
        requires
            0 <= len <= limit * divisor,
            divisor > 0,
    ;
}

proof fn within_quotient(len: int, divisor: int, limit: int)
    requires
        len / divisor <= limit,
        len % divisor == 0,
        divisor > 0,
    ensures
        len <= limit * divisor,
{
    vstd::arithmetic::div_mod::lemma_fundamental_div_mod(len, divisor);
    let q = len / divisor;
    assert(divisor * q <= limit * divisor) by (nonlinear_arith)
        requires
            q <= limit,
            divisor > 0,
    ;
}

/// A balanced pair holds a factor of 64 or more, and nothing above what went into it else.
proof fn balanced_pair_bounds(first: usize, second: usize)
    ensures
        balanced_pair(first, second).0 >= 64,
        balanced_pair(first, second).0 <= 64 || balanced_pair(first, second).0 <= first
            || balanced_pair(first, second).0 <= second,
        balanced_pair(first, second).1 <= balanced_pair(first, second).0,
{
    if second < 64 {
        let divisor = umax(second, 1) as int;
        assert(1 <= 64int / divisor) by (nonlinear_arith)
            requires
                1 <= divisor <= 63,
        ;
        let scale = 64int / divisor;
        assert(0 <= first as int / scale <= first) by (nonlinear_arith)
            requires
                scale >= 1,
                first >= 0,
        ;
    }
}

/// Over two uploads, the factors of a power of two keep to the capacity exactly where it is
/// at least 64, the smallest second factor, and two uploads of it hold the axis. The
/// divisor search always keeps to it.
pub proof fn two_factors_fit(
    len: usize,
    shared: usize,
    capacity: usize,
    register_boost: usize,
    device: DeviceProfile,
)
    requires
        is_pow2(len as int),
    ensures
        power_two_upload_split(
            len,
            shared,
            capacity,
            capacity,
            register_boost,
            false,
            device,
        ) matches Ok(split) ==> (factors_within(split, 0, capacity) <==> searches_divisors(
            len,
            device,
        ) || (capacity >= 64 && len <= capacity * capacity)),
{
    sqrt_split_is_exact(len, capacity, capacity);
    if !searches_divisors(len, device) {
        if let Ok(first) = two_upload_first(
            len,
            shared,
            capacity,
            capacity,
            register_boost,
            false,
        ) {
            if first != 0 && len % first == 0 {
                let second = len / first;
                let (a, b) = balanced_pair(first, second);
                let split = seq![a, b];
                balanced_pair_bounds(first, second);
                assert(split[0] == a && split[1] == b);
                pow8_at_most_bounds(capacity as int);
                assert(first <= capacity);
                if capacity >= 64 {
                    if len <= capacity * capacity {
                        if len / capacity >= capacity {
                            quotient_within(len as int, capacity as int, capacity as int);
                        }
                        assert(second <= capacity);
                        assert(factors_within(split, 0, capacity));
                    } else if factors_within(split, 0, capacity) {
                        assert(capacity * capacity >= 64) by (nonlinear_arith)
                            requires
                                capacity >= 64,
                        ;
                        power_two_upload_split_is_exact(
                            len,
                            shared,
                            capacity,
                            capacity,
                            register_boost,
                            false,
                            device,
                        );
                        product_of_two(a, b);
                        assert(a * b <= capacity * capacity) by (nonlinear_arith)
                            requires
                                0 <= a <= capacity,
                                0 <= b <= capacity,
                        ;
                    }
                }
            }
        }
    }
}

proof fn found_doubling_suffices(len: int, candidate: int, limit: int, cap: int)
    ensures
        first_doubling(len, candidate, limit, cap) matches Some(found) ==> len / found <= limit
            && 0 < found <= cap,
    decreases
            if candidate > cap {
                0
            } else {
                cap - candidate + 1
            },
{
    if 0 < candidate <= cap && len / candidate > limit {
        found_doubling_suffices(len, 2 * candidate, limit, cap);
    }
}

/// Over three uploads they do exactly where the first factor does, three uploads of the
/// capacity hold the axis, and the capacity is at least 64 or what the first factor leaves
/// needs no second factor of 64.
pub proof fn three_factors_fit(
    len: usize,
    shared_bytes: usize,
    shared: usize,
    capacity: usize,
    register_boost: usize,
    device: DeviceProfile,
)
    ensures
        power_of_two_three_split(
            len,
            shared_bytes,
            shared,
            capacity,
            capacity,
            register_boost,
            false,
            device,
        ) matches Ok(split) ==> (factors_within(split, 0, capacity) <==> searches_divisors(
            len,
            device,
        ) || (split[0] <= capacity && len <= capacity * capacity * capacity && (capacity >= 64
            || (len as int / split[0] as int) < pow8_at_most(capacity as int)))),
{
    cuberoot_split_is_exact(
        len,
        capacity,
        capacity,
        true,
        "GPU scheduler could not find a three-upload power-of-two divisor split",
    );
    if !searches_divisors(len, device) && shared_bytes >= 128 && capacity > 0 {
        if let Ok(first) = three_upload_strided_first(len, shared_bytes, capacity, capacity) {
            if first != 0 && len % first == 0 {
                let rest = len / first;
                let (second, third) = three_upload_rest(rest, capacity);
                let split = seq![first, second, third];
                assert(split[0] == first && split[1] == second && split[2] == third);
                if first * second * third == len && second != 0 && third != 0 {
                    three_rest_fits(len, shared_bytes, capacity, first);
                    if factors_within(split, 0, capacity) {
                        assert(first <= capacity && second <= capacity && third <= capacity);
                        assert(first * second <= capacity * capacity) by (nonlinear_arith)
                            requires
                                0 <= first <= capacity,
                                0 <= second <= capacity,
                        ;
                        let pair = first * second;
                        let square = capacity * capacity;
                        assert(pair * third <= square * capacity) by (nonlinear_arith)
                            requires
                                0 <= pair <= square,
                                0 <= third <= capacity,
                        ;
                    }
                }
            }
        }
    }
}

proof fn three_rest_fits(len: usize, shared_bytes: usize, capacity: usize, first: usize)
    requires
        three_upload_strided_first(len, shared_bytes, capacity, capacity) == Ok::<
            usize,
            VkFftError,
        >(first),
        first > 0,
        len % first == 0,
        capacity > 0,
        shared_bytes >= 128,
    ensures
        ({
            let rest = len / first;
            let (second, third) = three_upload_rest(rest, capacity);
            let small = (rest as int) < pow8_at_most(capacity as int);
            &&& !small && capacity < 64 ==> second > capacity
            &&& len <= capacity * capacity * capacity && (small || capacity >= 64) ==> second
                <= capacity && third <= capacity
        }),
{
    let rest = len / first;
    let pow8 = pow8_at_most(capacity as int);
    pow8_at_most_bounds(capacity as int);
    pow8_at_most_bounds(shared_bytes as int / 128);
    if rest < pow8 {
        let root = pow2_sqrt(rest as int);
        pow2_sqrt_bounds(rest as int);
        assert(0 <= rest as int / root <= rest) by (nonlinear_arith)
            requires
                root >= 1,
                rest >= 0,
        ;
    } else {
        balanced_pair_bounds(pow8 as usize, (rest as int / pow8) as usize);
        balanced_pair_bounds(capacity, rest / capacity);
        if len <= capacity * capacity * capacity && rest as int / pow8 > capacity {
            let wide = shared_bytes / 128;
            found_doubling_suffices(
                len as int,
                wide as int,
                capacity * capacity,
                umax(capacity, wide) as int,
            );
            quotient_within(len as int, capacity as int, capacity * capacity);
            if rest <= pow8 * capacity {
                assert(capacity * pow8 == pow8 * capacity) by (nonlinear_arith);
                quotient_within(rest as int, pow8, capacity as int);
            }
            assert(rest <= capacity * capacity);
            quotient_within(rest as int, capacity as int, capacity as int);
        }
    }
}

/// Whether the factors of a power of two, over two uploads or three, keep to a capacity.
pub open spec fn power_factors_fit(
    len: usize,
    split: Seq<usize>,
    capacity: int,
    device: DeviceProfile,
) -> bool {
    ||| searches_divisors(len, device)
    ||| split.len() == 2 && capacity >= 64 && len <= capacity * capacity
    ||| {
        &&& split.len() == 3
        &&& split[0] <= capacity
        &&& len <= capacity * capacity * capacity
        &&& capacity >= 64 || (len as int / split[0] as int) < pow8_at_most(capacity)
    }
}

proof fn power_axis_factors_fit(
    len: usize,
    limits: UploadLimits,
    shape: UploadShape,
    device: DeviceProfile,
)
    requires
        is_pow2(len as int),
        shape.half_bandwidth == shape.max_strided,
        shape.upload_count > 1,
    ensures
        power_of_two_axis_split(len, limits, shape, false, device) matches Ok(split) ==> (
        factors_within(split, 0, shape.max_strided) <==> power_factors_fit(
            len,
            split,
            shape.max_strided as int,
            device,
        )),
{
    if shape.upload_count == 2 {
        two_factors_fit(len, limits.shared, shape.max_strided, shape.register_boost, device);
    } else {
        cuberoot_split_is_exact(
            len,
            shape.max_strided,
            shape.max_strided,
            true,
            "GPU scheduler could not find a three-upload power-of-two divisor split",
        );
        three_factors_fit(
            len,
            limits.shared_bytes,
            limits.shared,
            shape.max_strided,
            shape.register_boost,
            device,
        );
    }
}

/// Where every upload is strided, the factors of a power of two keep to the strided
/// capacity, scaled by the register boost, exactly where [`power_factors_fit`] says.
pub proof fn power_of_two_factors_fit_strided_memory(
    sequence_len: usize,
    batch_count: usize,
    precision: Precision,
    device: DeviceProfile,
    context: StockhamUploadAxisContext,
    upload: StockhamUploadModel,
)
    requires
        power_of_two_uploads(sequence_len, batch_count, precision, device, context) == Ok::<
            StockhamUploadModel,
            VkFftError,
        >(upload),
        all_uploads_strided(context),
        context.strided_axis || !context.perform_convolution,
        upload.upload_count > 1,
    ensures
        ({
            let capacity = upload.max_sequence_len_strided * upload.register_boost;
            &&& capacity <= usize::MAX
            &&& factors_within(upload.axis_split, 0, capacity as usize) <==> power_factors_fit(
                sequence_len,
                upload.axis_split,
                capacity,
                device,
            )
        }),
{
    reveal(power_of_two_uploads);
    policy_bounds(precision, device);
    let policy = scheduler_policy(precision, device)->Ok_0;
    let complex_bytes = precision.compute_complex_bytes();
    let shared_bytes = device.shared_memory_pow2_bytes;
    let shared = shared_bytes / complex_bytes;
    let strided = strided_capacity(
        shared_bytes,
        complex_bytes,
        policy.coalesced_memory_bytes,
        shared,
    );
    let limits = ordinary_limits(
        shared_bytes,
        complex_bytes,
        shared,
        strided,
        true,
        policy,
        context,
    );
    let shape = upload_shape(sequence_len, limits, context, power_of_two_labels())->Ok_0;
    capacities_agree(sequence_len, limits, context, power_of_two_labels());
    power_axis_factors_fit(sequence_len, limits, shape, device);
}

/// Where every upload is strided, the factors of a double-double axis keep to the strided
/// capacity, scaled by the register boost. Of a power of two over two uploads they do
/// exactly where [`power_factors_fit`] says.
pub proof fn double_double_factors_fit_strided_memory(
    sequence_len: usize,
    batch_count: usize,
    device: DeviceProfile,
    context: StockhamUploadAxisContext,
    upload: DoubleDoubleUploadModel,
)
    requires
        double_double_uploads(sequence_len, batch_count, device, context) == Ok::<
            DoubleDoubleUploadModel,
            VkFftError,
        >(upload),
        all_uploads_strided(context),
        upload.upload_count > 1,
    ensures
        ({
            let capacity = upload.max_sequence_len_strided * upload.register_boost;
            &&& capacity <= usize::MAX
            &&& !is_pow2(sequence_len as int) ==> upload.register_boost == 1
            &&& factors_within(upload.axis_split, 0, capacity as usize) <==> (!is_pow2(
                sequence_len as int,
            ) || upload.upload_count == 3 || power_factors_fit(
                sequence_len,
                upload.axis_split,
                capacity,
                device,
            ))
        }),
{
    reveal(double_double_uploads);
    policy_bounds(Precision::DoubleDouble, device);
    let policy = scheduler_policy(Precision::DoubleDouble, device)->Ok_0;
    let power = is_pow2(sequence_len as int);
    let shared_bytes = if power {
        device.shared_memory_pow2_bytes
    } else {
        device.shared_memory_bytes
    };
    let shared = shared_bytes / DD_COMPLEX_BYTES;
    let strided = strided_capacity(
        shared_bytes,
        DD_COMPLEX_BYTES,
        policy.coalesced_memory_bytes,
        shared,
    );
    let limits = double_double_limits(shared_bytes, shared, strided, power, policy, context);
    let shape = upload_shape(sequence_len, limits, context, double_double_labels())->Ok_0;
    let found = double_double_axis_split(sequence_len, limits, shape, false, device)->Ok_0;
    capacities_agree(sequence_len, limits, context, double_double_labels());
    if power {
        power_axis_factors_fit(sequence_len, limits, shape, device);
        cuberoot_split_is_exact(
            sequence_len,
            shape.max_strided,
            shape.max_strided,
            true,
            "GPU scheduler could not find a three-upload power-of-two divisor split",
        );
    } else {
        unadmitted_boost_is_dropped(sequence_len, limits, context, double_double_labels());
        searched_factors_fit(
            sequence_len,
            limits,
            shape,
            "double-double Stockham scheduler could not find a two-upload divisor split",
        );
        reordering_keeps_the_limit(found, true, shape.max_strided);
    }
}

} // verus!
