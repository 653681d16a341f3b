//! The factors of every upload split multiply to the length of the axis and keep to the
//! limits of the search that found them.

use vstd::prelude::*;

use crate::arith::{ceil_sqrt_spec, checked_mul, cuberoot_up, is_pow2, pow2_at_most, umin};
use crate::config::{DeviceProfile, GpuVendor, Precision};
use crate::error::VkFftError;
use crate::rader_uploads::{
    force_two_upload, rader_axis_split, rader_uploads, RaderUploadModel, RaderUploadReason,
};
use crate::registers::RadixRegisterModel;
use crate::splits::{
    balanced_pair, cuberoot_split, divisor_below, divisor_below_is_greatest, first_multiple,
    four_step_order, has_zero, power_divisor_below, power_of_two_three_split, power_sqrt_split,
    power_two_upload_split, prefer_multiple, split_product, sqrt_split, three_split_below,
    two_upload_first, unit_stride_split, unit_stride_split_below,
};
use crate::upload_count::{effective_bandwidth_boost, StockhamUploadAxisContext};
use crate::uploads::{
    double_double_uploads, factors_within, power_of_two_uploads, radix_parts_checked,
    reordered_split, smooth_uploads, DoubleDoubleUploadModel, StockhamUploadModel,
};

verus! {

/// The product of a split.
pub open spec fn product_of(split: Seq<usize>) -> int
    decreases split.len(),
{
    if split.len() == 0 {
        1
    } else {
        product_of(split.drop_last()) * split.last()
    }
}

/// Two factors multiply to their product.
pub(crate) proof fn product_of_two(a: usize, b: usize)
    ensures
        product_of(seq![a, b]) == a * b,
{
    assert(seq![a, b].drop_last() =~= seq![a]);
    assert(seq![a].drop_last() =~= Seq::<usize>::empty());
    assert(product_of(seq![a]) == a) by {
        assert(product_of(Seq::<usize>::empty()) == 1);
    }
}

proof fn product_of_three(a: usize, b: usize, c: usize)
    ensures
        product_of(seq![a, b, c]) == a * b * c,
{
    assert(seq![a, b, c].drop_last() =~= seq![a, b]);
    product_of_two(a, b);
}

proof fn product_up_to(
    split: Seq<usize>,
    from: int,
    product: usize,
    operation: &'static str,
    total: usize,
)
    requires
        0 <= from <= split.len(),
        product == product_of(split.take(from)),
        split_product(split, from, product, operation) == Ok::<usize, VkFftError>(total),
    ensures
        product_of(split) == total,
    decreases split.len() - from,
{
    if from >= split.len() {
        assert(split.take(from) =~= split);
    } else {
        let next = (product * split[from]) as usize;
        assert(split.take(from + 1).drop_last() =~= split.take(from));
        assert(split.take(from + 1).last() == split[from]);
        product_up_to(split, from + 1, next, operation, total);
    }
}

/// A split whose product is computed without overflow has that product.
pub proof fn computed_product_is_exact(split: Seq<usize>, operation: &'static str, total: usize)
    requires
        split_product(split, 0, 1, operation) == Ok::<usize, VkFftError>(total),
    ensures
        product_of(split) == total,
{
    assert(split.take(0) =~= Seq::<usize>::empty());
    product_up_to(split, 0, 1, operation, total);
}

proof fn exact_division(len: int, divisor: int)
    requires
        divisor > 0,
        len >= 0,
        len % divisor == 0,
    ensures
        (len / divisor) * divisor == len,
        0 <= len / divisor <= len,
{
    vstd::arithmetic::div_mod::lemma_fundamental_div_mod(len, divisor);
    assert((len / divisor) * divisor == len) by (nonlinear_arith)
        requires
            len == divisor * (len / divisor) + len % divisor,
            len % divisor == 0,
    ;
    vstd::arithmetic::div_mod::lemma_div_pos_is_pos(len, divisor);
    vstd::arithmetic::div_mod::lemma_div_is_ordered_by_denominator(len, 1, divisor);
}

proof fn power_divisor_divides(
    len: int,
    candidate: int,
    divisor_limit: int,
    quotient_limit: int,
)
    ensures
        power_divisor_below(len, candidate, divisor_limit, quotient_limit) matches Some(found) ==> {
            &&& 0 < found <= candidate
            &&& found <= divisor_limit
            &&& len % found == 0
            &&& len / found <= quotient_limit
        },
    decreases candidate,
{
    if candidate > 0 {
        power_divisor_divides(len, candidate / 2, divisor_limit, quotient_limit);
    }
}

/// Two factors found around the square root multiply to the length and keep to both limits;
/// nothing is found only where no divisor up to the root does.
pub proof fn sqrt_split_is_exact(len: usize, divisor_limit: usize, quotient_limit: usize)
    ensures
        sqrt_split(len, divisor_limit, quotient_limit) matches Ok(Some((quotient, divisor))) ==> {
            &&& quotient * divisor == len
            &&& 1 <= divisor <= divisor_limit
            &&& quotient <= quotient_limit
        },
        power_sqrt_split(len, divisor_limit, quotient_limit) matches Ok(
            Some((quotient, divisor)),
        ) ==> {
            &&& quotient * divisor == len
            &&& 1 <= divisor <= divisor_limit
            &&& quotient <= quotient_limit
        },
        sqrt_split(len, divisor_limit, quotient_limit) matches Ok(None) ==> forall|other: int|
            0 < other <= ceil_sqrt_spec(len)->Ok_0 && other <= divisor_limit && #[trigger] (
            len as int % other) == 0 ==> len as int / other > quotient_limit,
{
    if let Ok(root) = ceil_sqrt_spec(len) {
        divisor_below_is_greatest(
            len as int,
            root as int,
            divisor_limit as int,
            quotient_limit as int,
        );
        if let Some(divisor) = divisor_below(
            len as int,
            root as int,
            divisor_limit as int,
            quotient_limit as int,
        ) {
            exact_division(len as int, divisor);
        }
        let start = pow2_at_most(root as int);
        power_divisor_divides(len as int, start, divisor_limit as int, quotient_limit as int);
        if let Some(divisor) = power_divisor_below(
            len as int,
            start,
            divisor_limit as int,
            quotient_limit as int,
        ) {
            exact_division(len as int, divisor);
        }
    }
}

proof fn three_split_below_is_exact(
    len: usize,
    outer: int,
    max_strided: usize,
    quotient_limit: usize,
    powers: bool,
)
    ensures
        three_split_below(len, outer, max_strided, quotient_limit, powers) matches Ok(
            Some(split),
        ) ==> {
            &&& split.len() == 3
            &&& product_of(split) == len
            &&& split[0] <= quotient_limit
            &&& split[1] <= max_strided
            &&& split[2] <= max_strided
        },
    decreases outer,
{
    if outer > 0 {
        let next = if powers {
            outer / 2
        } else {
            outer - 1
        };
        three_split_below_is_exact(len, next, max_strided, quotient_limit, powers);
        if outer <= max_strided && len as int % outer == 0 {
            exact_division(len as int, outer);
            let rest = (len as int / outer) as usize;
            sqrt_split_is_exact(rest, max_strided, quotient_limit);
            let inner = if powers {
                power_sqrt_split(rest, max_strided, quotient_limit)
            } else {
                sqrt_split(rest, max_strided, quotient_limit)
            };
            if let Ok(Some((quotient, middle))) = inner {
                product_of_three(quotient, outer as usize, middle);
                assert(quotient * outer * middle == rest * outer) by (nonlinear_arith)
                    requires
                        quotient * middle == rest,
                ;
            }
        }
    }
}

/// Three factors found around the cube root multiply to the length and keep to the limits.
pub proof fn cuberoot_split_is_exact(
    len: usize,
    max_strided: usize,
    quotient_limit: usize,
    powers: bool,
    missing: &'static str,
)
    ensures
        cuberoot_split(len, max_strided, quotient_limit, powers, missing) matches Ok(split) ==> {
            &&& split.len() == 3
            &&& product_of(split) == len
            &&& split[0] <= quotient_limit
            &&& split[1] <= max_strided
            &&& split[2] <= max_strided
        },
{
    let start = if powers {
        pow2_at_most(cuberoot_up(len as int))
    } else {
        cuberoot_up(len as int)
    };
    three_split_below_is_exact(len, start, max_strided, quotient_limit, powers);
}

proof fn unit_stride_split_below_is_exact(len: usize, first: int, max_strided: usize)
    requires
        first <= usize::MAX,
    ensures
        unit_stride_split_below(len, first, max_strided) matches Ok(Some(split)) ==> {
            &&& split.len() == 3
            &&& product_of(split) == len
            &&& split[0] <= first
            &&& split[1] <= max_strided
            &&& split[2] <= max_strided
        },
    decreases first,
{
    if first > 0 {
        unit_stride_split_below_is_exact(len, first - 1, max_strided);
        if len as int % first == 0 {
            exact_division(len as int, first);
            let rest = (len as int / first) as usize;
            sqrt_split_is_exact(rest, max_strided, max_strided);
            if let Ok(Some((quotient, second))) = sqrt_split(rest, max_strided, max_strided) {
                product_of_three(first as usize, second, quotient);
                assert(first * second * quotient == rest * first) by (nonlinear_arith)
                    requires
                        quotient * second == rest,
                ;
            }
        }
    }
}

/// Three factors of which the first reads with unit stride multiply to the length and keep
/// to the limits.
pub proof fn unit_stride_split_is_exact(len: usize, first_limit: usize, max_strided: usize)
    ensures
        unit_stride_split(len, first_limit, max_strided) matches Ok(split) ==> {
            &&& split.len() == 3
            &&& product_of(split) == len
            &&& split[0] <= first_limit
            &&& split[1] <= max_strided
            &&& split[2] <= max_strided
        },
{
    unit_stride_split_below_is_exact(len, umin(first_limit, len) as int, max_strided);
}

/// Both factors of a power of two are powers of two.
pub proof fn pow2_factors(a: int, b: int)
    requires
        a > 0,
        b > 0,
        is_pow2(a * b),
    ensures
        is_pow2(a),
        is_pow2(b),
    decreases a + b,
{
    let product = a * b;
    if product == 1 {
        assert(a == 1 && b == 1) by (nonlinear_arith)
            requires
                a > 0,
                b > 0,
                a * b == 1,
        ;
    } else if a % 2 == 0 {
        let half = a / 2;
        assert(half * b == product / 2) by (nonlinear_arith)
            requires
                a == 2 * half,
                product == a * b,
        ;
        pow2_factors(half, b);
    } else {
        assert(b % 2 == 0) by {
            if b % 2 == 1 {
                let (x, y) = (a / 2, b / 2);
                assert(product == 2 * (2 * (x * y) + x + y) + 1) by (nonlinear_arith)
                    requires
                        product == a * b,
                        a == 2 * x + 1,
                        b == 2 * y + 1,
                ;
            }
        }
        let half = b / 2;
        assert(a * half == product / 2) by (nonlinear_arith)
            requires
                b == 2 * half,
                product == a * b,
        ;
        pow2_factors(a, half);
    }
}

/// A power of two divides every power of two that is not smaller.
pub proof fn smaller_pow2_divides(small: int, large: int)
    requires
        is_pow2(small),
        is_pow2(large),
        small <= large,
    ensures
        large % small == 0,
    decreases small,
{
    if small > 1 {
        let (s, l) = (small / 2, large / 2);
        smaller_pow2_divides(s, l);
        exact_division(l, s);
        assert(large == small * (l / s)) by (nonlinear_arith)
            requires
                small == 2 * s,
                large == 2 * l,
                (l / s) * s == l,
        ;
        vstd::arithmetic::div_mod::lemma_mod_multiples_basic(l / s, small);
        assert((l / s) * small == small * (l / s)) by (nonlinear_arith);
    }
}

proof fn balanced_pair_keeps_the_product(first: usize, second: usize, len: usize)
    requires
        first > 0,
        second > 0,
        first * second == len,
        is_pow2(len as int),
        len >= 64,
    ensures
        balanced_pair(first, second).0 * balanced_pair(first, second).1 == len,
{
    let (f, s) = (first as int, second as int);
    if second < 64 {
        pow2_factors(f, s);
        assert(is_pow2(64)) by {
            reveal_with_fuel(is_pow2, 7);
        }
        smaller_pow2_divides(s, 64);
        exact_division(64, s);
        let scale = 64int / s;
        assert(is_pow2(scale)) by {
            assert(scale > 0) by (nonlinear_arith)
                requires
                    scale * s == 64,
                    s > 0,
            ;
            pow2_factors(scale, s);
        }
        assert(scale <= f) by (nonlinear_arith)
            requires
                scale * s == 64,
                f * s >= 64,
                s > 0,
        ;
        smaller_pow2_divides(scale, f);
        exact_division(f, scale);
        let kept = f / scale;
        assert(kept * 64 == f * s) by (nonlinear_arith)
            requires
                kept * scale == f,
                scale * s == 64,
        ;
        assert((first / (64usize / second)) as int == kept);
    }
    let (a, b) = balanced_pair(first, second);
    assert(a * b == b * a) by (nonlinear_arith);
}

/// Two factors of a power of two from 64 on multiply to it.
pub proof fn power_two_upload_split_is_exact(
    len: usize,
    shared: usize,
    strided: usize,
    half_bandwidth: usize,
    register_boost: usize,
    unit_stride: bool,
    device: DeviceProfile,
)
    requires
        is_pow2(len as int),
        len >= 64,
    ensures
        power_two_upload_split(
            len,
            shared,
            strided,
            half_bandwidth,
            register_boost,
            unit_stride,
            device,
        ) matches Ok(split) ==> split.len() == 2 && product_of(split) == len,
{
    let limit = if unit_stride {
        shared
    } else {
        half_bandwidth
    };
    sqrt_split_is_exact(len, strided, limit);
    if device.vendor == GpuVendor::Nvidia && len > 262_144 {
        if let Ok(Some((quotient, divisor))) = sqrt_split(len, strided, limit) {
            product_of_two(quotient, divisor);
        }
    } else {
        if let Ok(first) = two_upload_first(
            len,
            shared,
            strided,
            half_bandwidth,
            register_boost,
            unit_stride,
        ) {
            if first != 0 && len % first == 0 {
                let second = len / first;
                exact_division(len as int, first as int);
                assert(first * second == len) by (nonlinear_arith)
                    requires
                        second * first == len,
                ;
                assert(second > 0) by (nonlinear_arith)
                    requires
                        first * second >= 64,
                        second >= 0,
                ;
                balanced_pair_keeps_the_product(first, second, len);
                let (a, b) = balanced_pair(first, second);
                product_of_two(a, b);
            }
        }
    }
}

/// Three factors of a power of two multiply to it.
pub proof fn power_of_two_three_split_is_exact(
    len: usize,
    shared_bytes: usize,
    shared: usize,
    strided: usize,
    half_bandwidth: usize,
    register_boost: usize,
    unit_stride: bool,
    device: DeviceProfile,
)
    ensures
        power_of_two_three_split(
            len,
            shared_bytes,
            shared,
            strided,
            half_bandwidth,
            register_boost,
            unit_stride,
            device,
        ) matches Ok(split) ==> split.len() == 3 && product_of(split) == len,
{
    unit_stride_split_is_exact(len, shared, strided);
    cuberoot_split_is_exact(
        len,
        strided,
        half_bandwidth,
        true,
        "GPU scheduler could not find a three-upload power-of-two divisor split",
    );
    if !(device.vendor == GpuVendor::Nvidia && len > 262_144) {
        if let Ok(split) = power_of_two_three_split(
            len,
            shared_bytes,
            shared,
            strided,
            half_bandwidth,
            register_boost,
            unit_stride,
            device,
        ) {
            product_of_three(split[0], split[1], split[2]);
            assert(split =~= seq![split[0], split[1], split[2]]);
        }
    }
}

proof fn product_with_zero(split: Seq<usize>, index: int)
    requires
        0 <= index < split.len(),
        split[index] == 0,
    ensures
        product_of(split) == 0,
    decreases split.len(),
{
    if index < split.len() - 1 {
        product_with_zero(split.drop_last(), index);
    }
    let (front, last) = (product_of(split.drop_last()), split.last() as int);
    assert(front * last == 0) by (nonlinear_arith)
        requires
            front == 0 || last == 0,
    ;
}

proof fn product_after_update(split: Seq<usize>, index: int, value: usize)
    requires
        0 <= index < split.len(),
    ensures
        product_of(split.update(index, value)) * split[index] == product_of(split) * value,
    decreases split.len(),
{
    let updated = split.update(index, value);
    let (front, last) = (product_of(split.drop_last()), split.last() as int);
    if index == split.len() - 1 {
        assert(updated.drop_last() =~= split.drop_last());
        assert((front * value) * last == (front * last) * value) by (nonlinear_arith);
    } else {
        assert(updated.drop_last() =~= split.drop_last().update(index, value));
        product_after_update(split.drop_last(), index, value);
        let other = product_of(split.drop_last().update(index, value));
        let old_value = split[index] as int;
        assert((other * last) * old_value == (front * last) * value) by (nonlinear_arith)
            requires
                other * old_value == front * value,
        ;
    }
}

proof fn first_multiple_is_one(split: Seq<usize>, divisor: int, from: int)
    requires
        0 <= from,
    ensures
        first_multiple(split, divisor, from) matches Some(index) ==> {
            &&& from <= index < split.len()
            &&& split[index] as int % divisor == 0
        },
    decreases split.len() - from,
{
    if from < split.len() {
        first_multiple_is_one(split, divisor, from + 1);
    }
}

proof fn preferring_keeps_the_product(split: Seq<usize>, divisor: int)
    ensures
        prefer_multiple(split, divisor).len() == split.len(),
        product_of(prefer_multiple(split, divisor)) == product_of(split),
{
    first_multiple_is_one(split, divisor, 0);
    if !(split.len() == 0 || split[0] as int % divisor == 0) {
        if let Some(index) = first_multiple(split, divisor, 0) {
            let (a, b) = (split[0], split[index]);
            let once = split.update(0, b);
            let twice = once.update(index, a);
            product_after_update(split, 0, b);
            product_after_update(once, index, a);
            if b == 0 {
                product_with_zero(split, index);
                product_with_zero(twice, 0);
            } else {
                let (p, q, r) = (product_of(split), product_of(once), product_of(twice));
                assert(r == p) by (nonlinear_arith)
                    requires
                        q * a == p * b,
                        r * b == q * a,
                        b > 0,
                ;
            }
        }
    }
}

/// Moving a preferred factor to the front keeps the number of factors and their product.
pub proof fn four_step_order_keeps_the_product(split: Seq<usize>)
    ensures
        four_step_order(split).len() == split.len(),
        product_of(four_step_order(split)) == product_of(split),
{
    preferring_keeps_the_product(split, 2);
    preferring_keeps_the_product(prefer_multiple(split, 2), 4);
    preferring_keeps_the_product(prefer_multiple(prefer_multiple(split, 2), 4), 8);
}

/// A checked upload schedule has one positive factor per upload, and they multiply to the
/// length of the axis.
pub proof fn checked_uploads_cover_the_axis(upload: StockhamUploadModel)
    requires
        upload.checked() is Ok,
    ensures
        upload.axis_split.len() == upload.upload_count,
        product_of(upload.axis_split) == upload.sequence_len,
        !has_zero(upload.axis_split),
{
    computed_product_is_exact(
        upload.axis_split,
        "Stockham upload axis split product",
        upload.sequence_len,
    );
}

/// The same for double-double schedules.
pub proof fn checked_double_double_uploads_cover_the_axis(upload: DoubleDoubleUploadModel)
    requires
        upload.checked() is Ok,
    ensures
        upload.axis_split.len() == upload.upload_count,
        product_of(upload.axis_split) == upload.sequence_len,
{
    computed_product_is_exact(
        upload.axis_split,
        "double-double Stockham upload axis split product",
        upload.sequence_len,
    );
}

proof fn power_of_two_uploads_pass(
    sequence_len: usize,
    batch_count: usize,
    precision: Precision,
    device: DeviceProfile,
    context: StockhamUploadAxisContext,
    upload: StockhamUploadModel,
)
    requires
        power_of_two_uploads(sequence_len, batch_count, precision, device, context) == Ok::<
            StockhamUploadModel,
            VkFftError,
        >(upload),
    ensures
        upload.checked() is Ok,
        upload.sequence_len == sequence_len,
        upload.batch_count == batch_count,
        upload.upload_count <= 3,
{
    reveal(power_of_two_uploads);
}

proof fn smooth_uploads_pass(
    sequence_len: usize,
    batch_count: usize,
    precision: Precision,
    device: DeviceProfile,
    context: StockhamUploadAxisContext,
    upload: StockhamUploadModel,
)
    requires
        smooth_uploads(sequence_len, batch_count, precision, device, context) == Ok::<
            StockhamUploadModel,
            VkFftError,
        >(upload),
        !is_pow2(sequence_len as int),
    ensures
        upload.checked() is Ok,
        upload.sequence_len == sequence_len,
        upload.batch_count == batch_count,
        upload.upload_count <= 3,
{
    reveal(smooth_uploads);
}

/// Every upload schedule that is planned in ordinary precision passes its own check, is for
/// the axis that was asked for, and has one to three uploads that multiply to its length.
pub proof fn planned_uploads_check(
    sequence_len: usize,
    batch_count: usize,
    precision: Precision,
    device: DeviceProfile,
    context: StockhamUploadAxisContext,
    upload: StockhamUploadModel,
)
    requires
        smooth_uploads(sequence_len, batch_count, precision, device, context) == Ok::<
            StockhamUploadModel,
            VkFftError,
        >(upload) || power_of_two_uploads(sequence_len, batch_count, precision, device, context)
            == Ok::<StockhamUploadModel, VkFftError>(upload),
    ensures
        upload.checked() is Ok,
        upload.sequence_len == sequence_len,
        upload.batch_count == batch_count,
        1 <= upload.upload_count <= 3,
        product_of(upload.axis_split) == sequence_len,
{
    if power_of_two_uploads(sequence_len, batch_count, precision, device, context) == Ok::<
        StockhamUploadModel,
        VkFftError,
    >(upload) {
        power_of_two_uploads_pass(sequence_len, batch_count, precision, device, context, upload);
    } else {
        assert(!is_pow2(sequence_len as int)) by {
            reveal(smooth_uploads);
        }
        smooth_uploads_pass(sequence_len, batch_count, precision, device, context, upload);
    }
    checked_uploads_cover_the_axis(upload);
}

/// The same in double-double precision.
pub proof fn planned_double_double_uploads_check(
    sequence_len: usize,
    batch_count: usize,
    device: DeviceProfile,
    context: StockhamUploadAxisContext,
    upload: DoubleDoubleUploadModel,
)
    requires
        double_double_uploads(sequence_len, batch_count, device, context) == Ok::<
            DoubleDoubleUploadModel,
            VkFftError,
        >(upload),
    ensures
        upload.checked() is Ok,
        upload.sequence_len == sequence_len,
        upload.batch_count == batch_count,
        1 <= upload.upload_count <= 3,
        product_of(upload.axis_split) == sequence_len,
{
    reveal(double_double_uploads);
    checked_double_double_uploads_cover_the_axis(upload);
}

/// Every upload schedule of a Rader axis passes its own check and has two or three uploads
/// that multiply to its length. It is forced only where a prime asks for it.
pub proof fn planned_rader_uploads_check(
    sequence_len: usize,
    fft_primes: Seq<usize>,
    direct_primes: Seq<usize>,
    precision: Precision,
    device: DeviceProfile,
    context: StockhamUploadAxisContext,
    upload: RaderUploadModel,
)
    requires
        rader_uploads(sequence_len, fft_primes, direct_primes, precision, device, context) == Ok::<
            Option<RaderUploadModel>,
            VkFftError,
        >(Some(upload)),
    ensures
        upload.checked() is Ok,
        upload.sequence_len == sequence_len,
        upload.upload_count == 2 || upload.upload_count == 3,
        upload.axis_split.len() == upload.upload_count,
        product_of(upload.axis_split) == sequence_len,
        upload.reason == RaderUploadReason::ForcedRaderPressure ==> force_two_upload(
            sequence_len,
            fft_primes,
            device,
        ) == Ok::<bool, VkFftError>(true),
{
    reveal(rader_uploads);
    computed_product_is_exact(
        upload.axis_split,
        "Rader upload axis split product",
        upload.sequence_len,
    );
}

proof fn preferring_keeps_the_limit(split: Seq<usize>, divisor: int, limit: usize)
    requires
        factors_within(split, 0, limit),
    ensures
        factors_within(prefer_multiple(split, divisor), 0, limit),
{
    first_multiple_is_one(split, divisor, 0);
}

/// Four-step order keeps every factor within its limit.
pub proof fn reordering_keeps_the_limit(split: Seq<usize>, reorder: bool, limit: usize)
    requires
        factors_within(split, 0, limit),
    ensures
        factors_within(reordered_split(split, reorder), 0, limit),
{
    preferring_keeps_the_limit(split, 2, limit);
    preferring_keeps_the_limit(prefer_multiple(split, 2), 4, limit);
    preferring_keeps_the_limit(prefer_multiple(prefer_multiple(split, 2), 4), 8, limit);
}

/// Where no bandwidth is given up, every factor of a Rader axis keeps to the strided
/// capacity of shared memory.
pub proof fn rader_factors_fit_strided_memory(
    sequence_len: usize,
    fft_primes: Seq<usize>,
    direct_primes: Seq<usize>,
    precision: Precision,
    device: DeviceProfile,
    context: StockhamUploadAxisContext,
    upload: RaderUploadModel,
)
    requires
        rader_uploads(sequence_len, fft_primes, direct_primes, precision, device, context) == Ok::<
            Option<RaderUploadModel>,
            VkFftError,
        >(Some(upload)),
        effective_bandwidth_boost(context) == 0,
    ensures
        factors_within(upload.axis_split, 0, upload.max_sequence_len_strided),
{
    let strided = upload.max_sequence_len_strided;
    let found = choose|found: Seq<usize>, wanted: usize, reorder: bool| #![trigger
        rader_axis_split(sequence_len, wanted, strided, strided),
        reordered_split(found, reorder)] {
        &&& rader_axis_split(sequence_len, wanted, strided, strided) == Ok::<
            Option<Seq<usize>>,
            VkFftError,
        >(Some(found))
        &&& upload.axis_split == reordered_split(found, reorder)
    };
    assert(rader_axis_split(sequence_len, found.1, strided, strided) == Ok::<
        Option<Seq<usize>>,
        VkFftError,
    >(Some(found.0)) && upload.axis_split == reordered_split(found.0, found.2)) by {
        reveal(rader_uploads);
    }
    let split = found.0;
    sqrt_split_is_exact(sequence_len, strided, strided);
    cuberoot_split_is_exact(
        sequence_len,
        strided,
        strided,
        false,
        "GPU smooth scheduler could not find a three-upload divisor split",
    );
    assert(factors_within(split, 0, strided));
    reordering_keeps_the_limit(split, found.2, strided);
}

proof fn checked_parts_match(
    split: Seq<usize>,
    schedules: Seq<RadixRegisterModel>,
    register_boost: usize,
    total: usize,
    from: int,
)
    requires
        0 <= from,
        radix_parts_checked(split, schedules, register_boost, total, from) is Ok,
    ensures
        forall|i: int|
            from <= i < split.len() ==> {
                &&& (#[trigger] schedules[i]).checked() is Ok
                &&& schedules[i].fft_len == split[i]
                &&& schedules[i].register_boost == register_boost
                &&& schedules[i].rhs_transform_count == total / split[i]
            },
    decreases split.len() - from,
{
    if from < split.len() {
        checked_parts_match(split, schedules, register_boost, total, from + 1);
    }
}

/// Every upload of a checked schedule carries the checked registers of its own factor, over
/// all transforms that the other factors and the batch make of it.
pub proof fn checked_uploads_carry_their_registers(upload: StockhamUploadModel)
    requires
        upload.checked() is Ok,
    ensures
        upload.radix_schedules.len() == upload.upload_count,
        forall|i: int|
            0 <= i < upload.upload_count ==> {
                let part = #[trigger] upload.radix_schedules[i];
                &&& part.checked() is Ok
                &&& part.fft_len == upload.axis_split[i]
                &&& part.register_boost == upload.register_boost
                &&& part.rhs_transform_count == (upload.sequence_len * upload.batch_count)
                    / upload.axis_split[i] as int
            },
{
    let total = checked_mul(
        upload.sequence_len,
        upload.batch_count,
        "Stockham upload total element count",
    )->Ok_0;
    checked_parts_match(
        upload.axis_split,
        upload.radix_schedules,
        upload.register_boost,
        total,
        0,
    );
    assert(total as int == upload.sequence_len * upload.batch_count);
}

} // verus!
