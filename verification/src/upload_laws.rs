//! When one upload is enough: an axis that shared memory holds is planned without fail and
//! without a split.

use vstd::prelude::*;

use crate::arith::{
    ceil_div, ceil_div_is_least_cover, checked_mul, is_pow2, square_divisor_boost,
    square_divisor_boost_is_greatest, umax,
};
use crate::config::{coalesced_bytes_for, DeviceProfile, Precision};
use crate::error::VkFftError;
use crate::policy::{default_four_step_swap, has_specialized_policy, scheduler_policy};
use crate::radix_laws::every_power_of_two_has_a_schedule;
use crate::registers::{power_of_two_schedule, small_mixed_schedule, RadixRegisterModel};
use crate::splits::{first_multiple, has_zero, prefer_multiple, split_product};
use crate::upload_count::{
    bandwidth_uploads, divisible_boost, divisible_boost_at_least, initial_uploads, settled_uploads,
    unboosted_capacity, upload_shape, StockhamUploadAxisContext, UploadLabels, UploadLimits,
    UploadShape,
};
use crate::uploads::{
    all_radix_parts, ordinary_limits, power_of_two_labels, power_of_two_uploads, radix_part,
    radix_parts, radix_parts_checked, reordered_split, smooth_labels, smooth_uploads,
    strided_capacity, whole_split, StockhamUploadModel,
};

verus! {

proof fn one_group(len: usize, capacity: usize)
    requires
        1 <= len <= capacity,
        2 * capacity <= usize::MAX,
    ensures
        ceil_div(len, capacity) == Ok::<usize, VkFftError>(1),
{
    ceil_div_is_least_cover(len, capacity);
    assert(1 * capacity >= len);
}

/// An axis that shared memory holds, short of the policy's thresholds, takes one upload and
/// no register boost.
pub proof fn short_axes_take_one_upload(
    len: usize,
    limits: UploadLimits,
    context: StockhamUploadAxisContext,
    labels: UploadLabels,
)
    requires
        1 <= len <= limits.shared,
        limits.strided <= limits.shared,
        1 <= limits.boost_limit <= 4,
        8 * limits.shared <= usize::MAX,
        !context.strided_axis,
        len < limits.swap_to_two,
        len < limits.swap_to_three,
    ensures
        upload_shape(len, limits, context, labels) == Ok::<UploadShape, VkFftError>(
            UploadShape {
                register_boost: 1,
                upload_count: 1,
                max_strided: limits.strided,
                half_bandwidth: limits.strided,
            },
        ),
{
    let boost = square_divisor_boost(len, limits.boost_limit as int) as usize;
    square_divisor_boost_is_greatest(len, limits.boost_limit as int);
    assert(limits.shared <= limits.shared * boost <= 4 * limits.shared) by (nonlinear_arith)
        requires
            1 <= boost <= 4,
    ;
    assert(0 <= limits.strided * boost <= 4 * limits.shared) by (nonlinear_arith)
        requires
            1 <= boost <= 4,
            limits.strided <= limits.shared,
    ;
    let capacity = if limits.perform_convolution {
        limits.shared
    } else {
        (limits.shared * boost) as usize
    };
    one_group(len, capacity);
    assert(initial_uploads(len, limits, context, labels) == Ok::<(usize, usize), VkFftError>(
        (boost, 1),
    ));
    vstd::arithmetic::power::lemma_pow0(limits.strided as int);
    assert(unboosted_capacity(1, limits, context, labels) == Ok::<usize, VkFftError>(
        limits.shared,
    ));
    one_group(len, limits.shared);
    assert(divisible_boost(len, 1, limits.boost_limit as int, labels.boost_square) == Ok::<
        Option<usize>,
        VkFftError,
    >(Some(1))) by {
        assert(1int * 1int == 1);
        assert(len as int % 1 == 0);
    }
    assert(settled_uploads(len, 1, 1, limits, labels) == Ok::<(usize, usize), VkFftError>((1, 1)));
    assert(checked_mul(limits.strided, 1, labels.final_strided) == Ok::<usize, VkFftError>(
        limits.strided,
    ));
    assert(checked_mul(limits.shared, 1, labels.final_non_strided) == Ok::<usize, VkFftError>(
        limits.shared,
    ));
    assert(bandwidth_uploads(len, 1, limits.shared, limits.strided, limits, context) == Ok::<
        (usize, usize),
        VkFftError,
    >((1, limits.strided)));
}

/// Registers are boosted only where the policy admits it: a Bluestein or convolution kernel,
/// whose limit is 1, and an axis whose boost is not kept run unboosted.
pub proof fn unadmitted_boost_is_dropped(
    len: usize,
    limits: UploadLimits,
    context: StockhamUploadAxisContext,
    labels: UploadLabels,
)
    requires
        len >= 1,
        limits.boost_limit <= 1 || !limits.keep_boost,
    ensures
        upload_shape(len, limits, context, labels) matches Ok(shape) ==> shape.register_boost == 1,
{
    if let Ok((_, count)) = initial_uploads(len, limits, context, labels) {
        if let Ok(capacity) = unboosted_capacity(count, limits, context, labels) {
            if let Ok(required) = ceil_div(len, capacity) {
                ceil_div_is_least_cover(len, capacity);
                divisible_boost_at_least(
                    len,
                    required as int,
                    limits.boost_limit as int,
                    labels.boost_square,
                );
            }
        }
    }
}

/// A boost that is kept lies within the policy's limit, and its square divides the axis.
pub proof fn kept_boost_divides_the_axis(
    len: usize,
    limits: UploadLimits,
    context: StockhamUploadAxisContext,
    labels: UploadLabels,
)
    requires
        len >= 1,
    ensures
        upload_shape(len, limits, context, labels) matches Ok(shape) ==> {
            ||| shape.register_boost == 1
            ||| {
                &&& 1 < shape.register_boost <= limits.boost_limit
                &&& len as int % (shape.register_boost * shape.register_boost) == 0
            }
        },
{
    if let Ok((_, count)) = initial_uploads(len, limits, context, labels) {
        if let Ok(capacity) = unboosted_capacity(count, limits, context, labels) {
            if let Ok(required) = ceil_div(len, capacity) {
                ceil_div_is_least_cover(len, capacity);
                divisible_boost_at_least(
                    len,
                    required as int,
                    limits.boost_limit as int,
                    labels.boost_square,
                );
            }
        }
    }
}

/// Narrower transactions are taken only where they save an upload.
pub proof fn narrow_transactions_save_uploads(
    len: usize,
    count: usize,
    max_non_strided: usize,
    max_strided: usize,
    limits: UploadLimits,
    context: StockhamUploadAxisContext,
)
    ensures
        bandwidth_uploads(len, count, max_non_strided, max_strided, limits, context) matches Ok(
            (probed, half_bandwidth),
        ) ==> probed < count || (probed == count && half_bandwidth == max_strided),
{
}

proof fn whole_axis_checks(upload: StockhamUploadModel, part: RadixRegisterModel)
    requires
        upload.sequence_len != 0,
        upload.batch_count != 0,
        upload.used_shared_memory_bytes != 0,
        upload.max_sequence_len_shared != 0,
        upload.max_sequence_len_strided != 0,
        upload.register_boost == 1,
        upload.upload_count == 1,
        upload.axis_split == whole_split(upload.sequence_len),
        upload.radix_schedules == seq![part],
        upload.sequence_len * upload.batch_count <= usize::MAX,
        part.checked() is Ok,
        part.fft_len == upload.sequence_len,
        part.register_boost == 1,
        part.rhs_transform_count == upload.batch_count,
    ensures
        upload.checked() is Ok,
{
    let len = upload.sequence_len;
    let total = (upload.sequence_len * upload.batch_count) as usize;
    assert(split_product(upload.axis_split, 0, 1, "Stockham upload axis split product") == Ok::<
        usize,
        VkFftError,
    >(len)) by {
        assert(upload.axis_split[0] == len);
        reveal_with_fuel(split_product, 2);
    }
    assert(!has_zero(upload.axis_split));
    whole_batch(len, upload.batch_count);
    assert(radix_parts_checked(upload.axis_split, upload.radix_schedules, 1, total, 0) is Ok) by {
        reveal_with_fuel(radix_parts_checked, 2);
        assert(upload.radix_schedules[0] == part);
    }
}

proof fn whole_batch(len: usize, batch_count: usize)
    requires
        len > 0,
        len * batch_count <= usize::MAX,
    ensures
        ((len * batch_count) as usize) / len == batch_count,
{
    assert((len * batch_count) / len as int == batch_count) by (nonlinear_arith)
        requires
            len > 0,
    ;
}

proof fn one_part(len: usize, total: usize, part: RadixRegisterModel)
    requires
        radix_part(len, total, 1) == Ok::<RadixRegisterModel, VkFftError>(part),
    ensures
        all_radix_parts(whole_split(len), total, 1) == Ok::<Seq<RadixRegisterModel>, VkFftError>(
            seq![part],
        ),
{
    let split = whole_split(len);
    assert(split.len() == 1 && split[0] == len);
    assert(Seq::<RadixRegisterModel>::empty().push(part) =~= seq![part]);
    reveal_with_fuel(radix_parts, 2);
}

proof fn single_factor_keeps_its_order(len: usize, reorder: bool)
    ensures
        reordered_split(whole_split(len), reorder) == whole_split(len),
{
    let split = whole_split(len);
    assert(split.len() == 1 && split[0] == len);
    reveal_with_fuel(first_multiple, 2);
    assert(prefer_multiple(split, 2) == split);
    assert(prefer_multiple(split, 4) == split);
    assert(prefer_multiple(split, 8) == split);
}

/// What an axis must keep to for one upload of shared memory to hold it.
pub open spec fn fits_one_upload(
    len: usize,
    batch_count: usize,
    shared_bytes: usize,
    precision: Precision,
    device: DeviceProfile,
    context: StockhamUploadAxisContext,
) -> bool {
    &&& has_specialized_policy(device)
    &&& !precision.is_double_double()
    &&& !context.strided_axis
    &&& 1 <= len <= shared_bytes / precision.compute_complex_bytes()
    &&& batch_count > 0
    &&& shared_bytes >= coalesced_bytes_for(device, precision)
    &&& shared_bytes <= usize::MAX / 8
    &&& len < default_four_step_swap(precision, device)
    &&& len * batch_count <= usize::MAX
}

proof fn strided_part_fits(
    len: usize,
    batch_count: usize,
    shared_bytes: usize,
    precision: Precision,
    device: DeviceProfile,
    context: StockhamUploadAxisContext,
    keep_boost: bool,
    labels: UploadLabels,
)
    requires
        fits_one_upload(len, batch_count, shared_bytes, precision, device, context),
    ensures
        ({
            let policy = scheduler_policy(precision, device)->Ok_0;
            let bytes = precision.compute_complex_bytes();
            let shared = shared_bytes / bytes;
            let strided = strided_capacity(
                shared_bytes,
                bytes,
                policy.coalesced_memory_bytes,
                shared,
            );
            let limits = ordinary_limits(
                shared_bytes,
                bytes,
                shared,
                strided,
                keep_boost,
                policy,
                context,
            );
            &&& scheduler_policy(precision, device) is Ok
            &&& shared_bytes >= bytes
            &&& strided >= 1
            &&& upload_shape(len, limits, context, labels) == Ok::<UploadShape, VkFftError>(
                UploadShape {
                    register_boost: 1,
                    upload_count: 1,
                    max_strided: strided,
                    half_bandwidth: strided,
                },
            )
        }),
{
    let policy = scheduler_policy(precision, device)->Ok_0;
    let bytes = precision.compute_complex_bytes();
    let coalesced = policy.coalesced_memory_bytes;
    let shared = shared_bytes / bytes;
    let strided = strided_capacity(shared_bytes, bytes, coalesced, shared);
    let (b, c, s) = (bytes as int, coalesced as int, shared_bytes as int);
    assert(s / b <= s && (s / b >= 1 ==> s >= b)) by (nonlinear_arith)
        requires
            b >= 1,
            s >= 0,
    ;
    if coalesced > bytes {
        assert(1 <= s / c <= s / b) by (nonlinear_arith)
            requires
                c > b >= 1,
                s >= c,
        ;
    }
    let limits = ordinary_limits(
        shared_bytes,
        bytes,
        shared,
        strided,
        keep_boost,
        policy,
        context,
    );
    short_axes_take_one_upload(len, limits, context, labels);
}

/// A power of two that shared memory holds is always planned, as a single upload of the
/// whole axis.
pub proof fn short_power_of_two_is_one_upload(
    len: usize,
    batch_count: usize,
    precision: Precision,
    device: DeviceProfile,
    context: StockhamUploadAxisContext,
)
    requires
        is_pow2(len as int),
        fits_one_upload(
            len,
            batch_count,
            device.shared_memory_pow2_bytes,
            precision,
            device,
            context,
        ),
    ensures
        power_of_two_uploads(len, batch_count, precision, device, context) matches Ok(upload) && {
            &&& upload.upload_count == 1
            &&& upload.axis_split == seq![len]
            &&& upload.register_boost == 1
        },
{
    let shared_bytes = device.shared_memory_pow2_bytes;
    strided_part_fits(
        len,
        batch_count,
        shared_bytes,
        precision,
        device,
        context,
        true,
        power_of_two_labels(),
    );
    let total = (len * batch_count) as usize;
    whole_batch(len, batch_count);
    let columns = umax(batch_count / 64, 1);
    assert(columns * len <= len * batch_count) by (nonlinear_arith)
        requires
            columns <= batch_count,
    ;
    assert(is_pow2(1));
    every_power_of_two_has_a_schedule(len, batch_count, 1);
    let part = power_of_two_schedule(len, batch_count, 1)->Ok_0;
    assert(part.checked() is Ok && part.fft_len == len && part.register_boost == 1
        && part.rhs_transform_count == batch_count);
    one_part(len, total, part);
    let policy = scheduler_policy(precision, device)->Ok_0;
    let bytes = precision.compute_complex_bytes();
    let shared = shared_bytes / bytes;
    let strided = strided_capacity(shared_bytes, bytes, policy.coalesced_memory_bytes, shared);
    let upload = StockhamUploadModel {
        sequence_len: len,
        batch_count,
        used_shared_memory_bytes: shared_bytes,
        max_sequence_len_shared: shared,
        max_sequence_len_strided: strided,
        register_boost: 1,
        upload_count: 1,
        axis_split: whole_split(len),
        radix_schedules: seq![part],
    };
    whole_axis_checks(upload, part);
    assert(power_of_two_uploads(len, batch_count, precision, device, context) == Ok::<
        StockhamUploadModel,
        VkFftError,
    >(upload)) by {
        reveal(power_of_two_uploads);
    }
    assert(whole_split(len) =~= seq![len]);
}

/// Any other length with a register schedule that shared memory holds is always planned, as
/// a single upload of the whole axis.
pub proof fn short_smooth_length_is_one_upload(
    len: usize,
    batch_count: usize,
    precision: Precision,
    device: DeviceProfile,
    context: StockhamUploadAxisContext,
)
    requires
        !is_pow2(len as int),
        small_mixed_schedule(len, batch_count) is Ok,
        fits_one_upload(len, batch_count, device.shared_memory_bytes, precision, device, context),
    ensures
        smooth_uploads(len, batch_count, precision, device, context) matches Ok(upload) && {
            &&& upload.upload_count == 1
            &&& upload.axis_split == seq![len]
            &&& upload.register_boost == 1
        },
{
    let shared_bytes = device.shared_memory_bytes;
    let policy = scheduler_policy(precision, device)->Ok_0;
    let keep_boost = policy.register_boost_non_power_of_two && !context.perform_convolution;
    strided_part_fits(
        len,
        batch_count,
        shared_bytes,
        precision,
        device,
        context,
        keep_boost,
        smooth_labels(),
    );
    let total = (len * batch_count) as usize;
    whole_batch(len, batch_count);
    let part = small_mixed_schedule(len, batch_count)->Ok_0;
    assert(part.checked() is Ok && part.fft_len == len && part.register_boost == 1
        && part.rhs_transform_count == batch_count);
    one_part(len, total, part);
    let bytes = precision.compute_complex_bytes();
    let shared = shared_bytes / bytes;
    let strided = strided_capacity(shared_bytes, bytes, policy.coalesced_memory_bytes, shared);
    let upload = StockhamUploadModel {
        sequence_len: len,
        batch_count,
        used_shared_memory_bytes: shared_bytes,
        max_sequence_len_shared: shared,
        max_sequence_len_strided: strided,
        register_boost: 1,
        upload_count: 1,
        axis_split: whole_split(len),
        radix_schedules: seq![part],
    };
    whole_axis_checks(upload, part);
    single_factor_keeps_its_order(len, true);
    assert(len >= 3) by {
        reveal_with_fuel(is_pow2, 3);
    }
    assert(smooth_uploads(len, batch_count, precision, device, context) == Ok::<
        StockhamUploadModel,
        VkFftError,
    >(upload)) by {
        reveal(smooth_uploads);
    }
    assert(whole_split(len) =~= seq![len]);
}

} // verus!
