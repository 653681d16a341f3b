//! How many uploads an axis takes, and at which register boost.

use vstd::prelude::*;

use crate::arith::{
    ceil_div, checked_mul, checked_pow, checked_pow_spec, exponent_covering, exponent_covering_spec,
    largest_square_divisor_boost, square_divisor_boost,
};
use crate::error::{PlanResult, VkFftError};

verus! {

/// How the axis is laid out in memory and what else its kernels do.
#[derive(Debug, Clone, Copy, PartialEq, Eq, Structural)]
pub struct StockhamUploadAxisContext {
    pub strided_axis: bool,
    pub bandwidth_boost: usize,
    pub use_bluestein_fft: bool,
    pub perform_convolution: bool,
}

impl StockhamUploadAxisContext {
    /// A contiguous axis of a plain transform.
    pub open spec fn plain() -> StockhamUploadAxisContext {
        StockhamUploadAxisContext {
            strided_axis: false,
            bandwidth_boost: 0,
            use_bluestein_fft: false,
            perform_convolution: false,
        }
    }
}

impl Default for StockhamUploadAxisContext {
    fn default() -> (context: Self)
        ensures
            context == StockhamUploadAxisContext::plain(),
    {
        StockhamUploadAxisContext {
            strided_axis: false,
            bandwidth_boost: 0,
            use_bluestein_fft: false,
            perform_convolution: false,
        }
    }
}

/// What the overflow errors of one scheduling family are called.
#[derive(Debug, Clone, Copy, PartialEq, Eq)]
pub struct UploadLabels {
    pub initial_non_strided: &'static str,
    pub initial_strided: &'static str,
    pub four_step_non_strided: &'static str,
    pub four_step_strided: &'static str,
    pub bluestein_strided: &'static str,
    pub unit_denominator: &'static str,
    pub strided_denominator: &'static str,
    pub boost_square: &'static str,
    pub upload_count: &'static str,
    pub final_strided: &'static str,
    pub final_non_strided: &'static str,
    pub too_many: &'static str,
}

/// Capacities and policy numbers that decide the upload count. `shared` and `strided`
/// count the values one upload holds when it reads with unit stride and with a stride.
#[derive(Debug, Clone, Copy, PartialEq, Eq)]
pub struct UploadLimits {
    pub shared_bytes: usize,
    pub complex_bytes: usize,
    pub coalesced_bytes: usize,
    pub shared: usize,
    pub strided: usize,
    pub boost_limit: usize,
    pub four_step_boost_limit: usize,
    pub keep_boost: bool,
    pub reorder_four_step: bool,
    pub perform_convolution: bool,
    pub swap_to_two: usize,
    pub swap_to_three: usize,
}

/// The outcome: the register boost, the upload count, and what one strided upload holds
/// at full and at reduced bandwidth.
#[derive(Debug, Clone, Copy, PartialEq, Eq, Structural)]
pub struct UploadShape {
    pub register_boost: usize,
    pub upload_count: usize,
    pub max_strided: usize,
    pub half_bandwidth: usize,
}

/// A capacity scaled by the register boost; convolutions leave it unscaled.
#[verifier::allow_in_spec]
pub fn boosted_capacity(
    capacity: usize,
    boost: usize,
    perform_convolution: bool,
    operation: &'static str,
) -> PlanResult<usize>
    returns
        (if perform_convolution {
            Ok(capacity)
        } else {
            checked_mul(capacity, boost, operation)
        }),
{
    if perform_convolution {
        Ok(capacity)
    } else {
        checked_mul(capacity, boost, operation)
    }
}

/// Uploads counted from `uploads` on while more than one group remains. A later capacity
/// of one never shrinks the remainder, and the count overflows.
pub open spec fn count_uploads(remaining: usize, later: usize, uploads: int) -> PlanResult<usize>
    decreases remaining,
{
    if remaining <= 1 {
        Ok(uploads as usize)
    } else if later <= 1 {
        Err(
            VkFftError::ArithmeticOverflow {
                operation: "Stockham upload count with first-axis capacity",
            },
        )
    } else {
        match ceil_div(remaining, later) {
            Err(error) => Err(error),
            Ok(next) => {
                proof {
                    shrinks(remaining, later);
                }
                count_uploads(next, later, uploads + 1)
            },
        }
    }
}

/// Rounding a quotient up still shrinks what is left.
pub proof fn shrinks(remaining: usize, later: usize)
    requires
        remaining > 1,
        later > 1,
        ceil_div(remaining, later) is Ok,
    ensures
        ceil_div(remaining, later)->Ok_0 < remaining,
{
    let s = remaining + later - 1;
    let q = s / (later as int);
    assert(q < remaining) by (nonlinear_arith)
        requires
            q == s / (later as int),
            s == remaining + later - 1,
            later > 1,
            remaining > 1,
    ;
}

/// Uploads where the first one has a capacity of its own.
pub open spec fn uploads_with_first(
    len: usize,
    first_capacity: usize,
    later_capacity: usize,
) -> PlanResult<usize> {
    if first_capacity == 0 || later_capacity == 0 {
        Err(VkFftError::InvalidKernelIr("Stockham upload capacities must be non-zero"))
    } else {
        match ceil_div(len, first_capacity) {
            Err(error) => Err(error),
            Ok(remaining) => count_uploads(remaining, later_capacity, 1),
        }
    }
}

pub fn upload_count_with_first_capacity(
    len: usize,
    first_capacity: usize,
    later_capacity: usize,
) -> (count: PlanResult<usize>)
    ensures
        count == uploads_with_first(len, first_capacity, later_capacity),
{
    if first_capacity == 0 || later_capacity == 0 {
        return Err(VkFftError::InvalidKernelIr("Stockham upload capacities must be non-zero"));
    }
    let start: usize = ceil_div(len, first_capacity)?;
    let mut remaining: usize = start;
    let mut uploads: usize = 1;
    while remaining > 1
        invariant
            first_capacity != 0,
            later_capacity != 0,
            ceil_div(len, first_capacity) == Ok::<usize, VkFftError>(start),
            1 <= uploads,
            uploads + remaining <= start + 1,
            count_uploads(remaining, later_capacity, uploads as int) == count_uploads(
                start,
                later_capacity,
                1,
            ),
        decreases remaining,
    {
        if later_capacity <= 1 {
            return Err(
                VkFftError::ArithmeticOverflow {
                    operation: "Stockham upload count with first-axis capacity",
                },
            );
        }
        match ceil_div(remaining, later_capacity) {
            Err(error) => {
                return Err(error);
            },
            Ok(next) => {
                proof {
                    shrinks(remaining, later_capacity);
                }
                remaining = next;
            },
        }
        uploads = uploads + 1;
    }
    Ok(uploads)
}

/// Uploads of a strided Bluestein convolution before its boost is settled.
pub open spec fn strided_bluestein_uploads(len: usize, max_strided: usize) -> PlanResult<usize> {
    if max_strided == 0 {
        Err(VkFftError::InvalidKernelIr("strided Bluestein upload capacity must be non-zero"))
    } else if len / max_strided <= 1 {
        Ok(1)
    } else {
        match exponent_covering_spec(len / max_strided, max_strided) {
            Err(error) => Err(error),
            Ok(later) => if later == usize::MAX {
                Err(
                    VkFftError::ArithmeticOverflow { operation: "strided Bluestein upload count" },
                )
            } else {
                Ok((later + 1) as usize)
            },
        }
    }
}

pub fn upstream_strided_bluestein_initial_upload_count(len: usize, max_strided: usize) -> (count:
    PlanResult<usize>)
    ensures
        count == strided_bluestein_uploads(len, max_strided),
{
    if max_strided == 0 {
        return Err(
            VkFftError::InvalidKernelIr("strided Bluestein upload capacity must be non-zero"),
        );
    }
    let ratio: usize = len / max_strided;
    if ratio <= 1 {
        return Ok(1);
    }
    let later: usize = exponent_covering(ratio, max_strided)?;
    if later == usize::MAX {
        return Err(VkFftError::ArithmeticOverflow { operation: "strided Bluestein upload count" });
    }
    Ok(later + 1)
}

/// The register boost and upload count that capacity alone asks for.
pub open spec fn initial_uploads(
    len: usize,
    limits: UploadLimits,
    context: StockhamUploadAxisContext,
    labels: UploadLabels,
) -> PlanResult<(usize, usize)> {
    let boost = square_divisor_boost(len, limits.boost_limit as int) as usize;
    match boosted_capacity(
        limits.shared,
        boost,
        limits.perform_convolution,
        labels.initial_non_strided,
    ) {
        Err(error) => Err(error),
        Ok(non_strided) => match boosted_capacity(
            limits.strided,
            boost,
            limits.perform_convolution,
            labels.initial_strided,
        ) {
            Err(error) => Err(error),
            Ok(strided) => match ceil_div(
                len,
                if context.strided_axis {
                    strided
                } else {
                    non_strided
                },
            ) {
                Err(error) => Err(error),
                Ok(groups) => match (if groups > 1 {
                    four_step_uploads(len, limits, context, labels)
                } else {
                    Ok((boost, 1))
                }) {
                    Err(error) => Err(error),
                    Ok((settled, count)) => if context.strided_axis
                        && context.use_bluestein_fft {
                        match checked_mul(limits.strided, settled, labels.bluestein_strided) {
                            Err(error) => Err(error),
                            Ok(capacity) => match strided_bluestein_uploads(len, capacity) {
                                Err(error) => Err(error),
                                Ok(count) => Ok((settled, count)),
                            },
                        }
                    } else {
                        Ok((settled, count))
                    },
                },
            },
        },
    }
}

/// The boost and count once one upload is not enough.
pub open spec fn four_step_uploads(
    len: usize,
    limits: UploadLimits,
    context: StockhamUploadAxisContext,
    labels: UploadLabels,
) -> PlanResult<(usize, usize)> {
    let boost = square_divisor_boost(len, limits.four_step_boost_limit as int) as usize;
    match boosted_capacity(
        limits.shared,
        boost,
        limits.perform_convolution,
        labels.four_step_non_strided,
    ) {
        Err(error) => Err(error),
        Ok(non_strided) => match boosted_capacity(
            limits.strided,
            boost,
            limits.perform_convolution,
            labels.four_step_strided,
        ) {
            Err(error) => Err(error),
            Ok(strided) => match (if unit_stride_first(limits, context) {
                uploads_with_first(len, non_strided, strided)
            } else {
                exponent_covering_spec(len, strided)
            }) {
                Err(error) => Err(error),
                Ok(count) => Ok((boost, count)),
            },
        },
    }
}

/// Whether the first upload of several reads with unit stride.
#[verifier::allow_in_spec]
pub fn unit_stride_first(limits: UploadLimits, context: StockhamUploadAxisContext) -> bool
    returns
        !context.strided_axis && (!limits.reorder_four_step || context.use_bluestein_fft),
{
    !context.strided_axis && (!limits.reorder_four_step || context.use_bluestein_fft)
}

fn select_four_step_uploads(
    len: usize,
    limits: UploadLimits,
    context: StockhamUploadAxisContext,
    labels: UploadLabels,
) -> (selected: PlanResult<(usize, usize)>)
    ensures
        selected == four_step_uploads(len, limits, context, labels),
{
    let boost: usize = largest_square_divisor_boost(len, limits.four_step_boost_limit);
    let non_strided: usize = boosted_capacity(
        limits.shared,
        boost,
        limits.perform_convolution,
        labels.four_step_non_strided,
    )?;
    let strided: usize = boosted_capacity(
        limits.strided,
        boost,
        limits.perform_convolution,
        labels.four_step_strided,
    )?;
    let count: usize = if unit_stride_first(limits, context) {
        upload_count_with_first_capacity(len, non_strided, strided)?
    } else {
        exponent_covering(len, strided)?
    };
    Ok((boost, count))
}

fn select_initial_uploads(
    len: usize,
    limits: UploadLimits,
    context: StockhamUploadAxisContext,
    labels: UploadLabels,
) -> (selected: PlanResult<(usize, usize)>)
    ensures
        selected == initial_uploads(len, limits, context, labels),
{
    let boost: usize = largest_square_divisor_boost(len, limits.boost_limit);
    let non_strided: usize = boosted_capacity(
        limits.shared,
        boost,
        limits.perform_convolution,
        labels.initial_non_strided,
    )?;
    let strided: usize = boosted_capacity(
        limits.strided,
        boost,
        limits.perform_convolution,
        labels.initial_strided,
    )?;
    let groups: usize = ceil_div(
        len,
        if context.strided_axis {
            strided
        } else {
            non_strided
        },
    )?;
    let (settled, count) = if groups > 1 {
        select_four_step_uploads(len, limits, context, labels)?
    } else {
        (boost, 1)
    };
    if context.strided_axis && context.use_bluestein_fft {
        let capacity: usize = checked_mul(limits.strided, settled, labels.bluestein_strided)?;
        let count: usize = upstream_strided_bluestein_initial_upload_count(len, capacity)?;
        return Ok((settled, count));
    }
    Ok((settled, count))
}

/// What `count` uploads hold without any register boost.
pub open spec fn unboosted_capacity(
    count: usize,
    limits: UploadLimits,
    context: StockhamUploadAxisContext,
    labels: UploadLabels,
) -> PlanResult<usize> {
    if !context.strided_axis && (context.use_bluestein_fft || !limits.reorder_four_step || count
        == 1) {
        match checked_pow_spec(
            limits.strided,
            if count == 0 {
                0
            } else {
                (count - 1) as usize
            },
            labels.unit_denominator,
        ) {
            Err(error) => Err(error),
            Ok(later) => checked_mul(later, limits.shared, labels.unit_denominator),
        }
    } else {
        checked_pow_spec(limits.strided, count, labels.strided_denominator)
    }
}

fn measure_unboosted_capacity(
    count: usize,
    limits: UploadLimits,
    context: StockhamUploadAxisContext,
    labels: UploadLabels,
) -> (capacity: PlanResult<usize>)
    ensures
        capacity == unboosted_capacity(count, limits, context, labels),
{
    if !context.strided_axis && (context.use_bluestein_fft || !limits.reorder_four_step || count
        == 1) {
        let later: usize = checked_pow(
            limits.strided,
            count.saturating_sub(1),
            labels.unit_denominator,
        )?;
        checked_mul(later, limits.shared, labels.unit_denominator)
    } else {
        checked_pow(limits.strided, count, labels.strided_denominator)
    }
}

/// The least boost from `candidate` up to `limit` whose square divides the length.
pub open spec fn divisible_boost(
    len: usize,
    candidate: int,
    limit: int,
    operation: &'static str,
) -> PlanResult<Option<usize>>
    decreases limit - candidate + 1,
{
    if candidate > limit {
        Ok(None)
    } else if candidate * candidate > usize::MAX {
        Err(VkFftError::ArithmeticOverflow { operation })
    } else if len as int % (candidate * candidate) == 0 {
        Ok(Some(candidate as usize))
    } else {
        divisible_boost(len, candidate + 1, limit, operation)
    }
}

fn find_divisible_boost(len: usize, required: usize, limit: usize, operation: &'static str) -> (
    found: PlanResult<Option<usize>>)
    requires
        required > 0,
    ensures
        found == divisible_boost(len, required as int, limit as int, operation),
{
    let mut candidate: usize = required;
    while candidate <= limit
        invariant
            candidate > 0,
            divisible_boost(len, candidate as int, limit as int, operation) == divisible_boost(
                len,
                required as int,
                limit as int,
                operation,
            ),
        decreases limit - candidate + 1,
    {
        let square: usize = checked_mul(candidate, candidate, operation)?;
        assert(square > 0) by (nonlinear_arith)
            requires
                square == candidate * candidate,
                candidate > 0,
        ;
        if len % square == 0 {
            return Ok(Some(candidate));
        }
        if candidate == limit {
            assert(divisible_boost(len, candidate + 1, limit as int, operation) == Ok::<
                Option<usize>,
                VkFftError,
            >(None));
            return Ok(None);
        }
        candidate = candidate + 1;
    }
    Ok(None)
}

/// Boost and count once the boost has to divide the length: a boost that the length or
/// the policy does not admit is dropped for one more upload.
pub open spec fn settled_uploads(
    len: usize,
    required: usize,
    count: usize,
    limits: UploadLimits,
    labels: UploadLabels,
) -> PlanResult<(usize, usize)> {
    match divisible_boost(len, required as int, limits.boost_limit as int, labels.boost_square) {
        Err(error) => Err(error),
        Ok(selected) => {
            let boost = match selected {
                Some(found) => found,
                None => required,
            };
            if (selected is None || !limits.keep_boost) && boost > 1 {
                if count == usize::MAX {
                    Err(VkFftError::ArithmeticOverflow { operation: labels.upload_count })
                } else {
                    Ok((1, (count + 1) as usize))
                }
            } else {
                Ok((boost, count))
            }
        },
    }
}

fn settle_uploads(
    len: usize,
    required: usize,
    count: usize,
    limits: UploadLimits,
    labels: UploadLabels,
) -> (settled: PlanResult<(usize, usize)>)
    requires
        required > 0,
    ensures
        settled == settled_uploads(len, required, count, limits, labels),
{
    let selected: Option<usize> = find_divisible_boost(
        len,
        required,
        limits.boost_limit,
        labels.boost_square,
    )?;
    let boost: usize = match selected {
        Some(found) => found,
        None => required,
    };
    if (selected.is_none() || !limits.keep_boost) && boost > 1 {
        if count == usize::MAX {
            return Err(VkFftError::ArithmeticOverflow { operation: labels.upload_count });
        }
        return Ok((1, count + 1));
    }
    Ok((boost, count))
}

/// The factor by which a strided axis may narrow its transactions; 0 for none.
#[verifier::allow_in_spec]
pub fn effective_bandwidth_boost(context: StockhamUploadAxisContext) -> usize
    returns
        (if !context.strided_axis {
            0usize
        } else if context.bandwidth_boost > 0 {
            context.bandwidth_boost
        } else if context.use_bluestein_fft {
            1
        } else {
            0
        }),
{
    if !context.strided_axis {
        0
    } else if context.bandwidth_boost > 0 {
        context.bandwidth_boost
    } else if context.use_bluestein_fft {
        1
    } else {
        0
    }
}

/// Uploads at reduced bandwidth, counted for at most `steps` later uploads.
pub open spec fn reduced_count(
    remaining: usize,
    capacity: usize,
    count: int,
    steps: int,
) -> PlanResult<usize>
    decreases steps,
{
    if steps <= 0 {
        Ok(count as usize)
    } else {
        match ceil_div(remaining, capacity) {
            Err(error) => Err(error),
            Ok(next) => if next == 1 {
                Ok((count + 1) as usize)
            } else {
                reduced_count(next, capacity, count + 1, steps - 1)
            },
        }
    }
}

/// What one strided upload holds at reduced bandwidth.
pub open spec fn reduced_capacity(limits: UploadLimits, boost: usize) -> usize {
    if limits.coalesced_bytes / boost > limits.complex_bytes {
        limits.shared_bytes / (limits.coalesced_bytes / boost)
    } else {
        limits.shared
    }
}

/// Upload count and reduced-bandwidth capacity: narrower transactions are used only
/// where they save an upload.
pub open spec fn bandwidth_uploads(
    len: usize,
    count: usize,
    max_non_strided: usize,
    max_strided: usize,
    limits: UploadLimits,
    context: StockhamUploadAxisContext,
) -> PlanResult<(usize, usize)> {
    let boost = effective_bandwidth_boost(context);
    let reduced = reduced_capacity(limits, boost);
    if boost == 0 || reduced == 0 {
        Ok((count, max_strided))
    } else {
        match ceil_div(len, reduced) {
            Err(error) => Err(error),
            Ok(groups) => match (if groups > 1 {
                match ceil_div(
                    len,
                    if !limits.reorder_four_step || context.use_bluestein_fft {
                        max_non_strided
                    } else {
                        reduced
                    },
                ) {
                    Err(error) => Err(error),
                    Ok(remaining) => reduced_count(remaining, max_strided, 1, 5),
                }
            } else {
                Ok(1)
            }) {
                Err(error) => Err(error),
                Ok(candidate) => if candidate < count {
                    Ok((candidate, reduced))
                } else {
                    Ok((count, max_strided))
                },
            },
        }
    }
}

fn count_reduced(remaining: usize, capacity: usize) -> (count: PlanResult<usize>)
    ensures
        count == reduced_count(remaining, capacity, 1, 5),
{
    let mut rest: usize = remaining;
    let mut count: usize = 1;
    let mut steps: usize = 5;
    while steps > 0
        invariant
            count + steps == 6,
            reduced_count(rest, capacity, count as int, steps as int) == reduced_count(
                remaining,
                capacity,
                1,
                5,
            ),
        decreases steps,
    {
        rest = ceil_div(rest, capacity)?;
        count = count + 1;
        if rest == 1 {
            return Ok(count);
        }
        steps = steps - 1;
    }
    Ok(count)
}

pub fn apply_strided_bandwidth_boost(
    len: usize,
    count: usize,
    max_non_strided: usize,
    max_strided: usize,
    limits: UploadLimits,
    context: StockhamUploadAxisContext,
) -> (uploads: PlanResult<(usize, usize)>)
    ensures
        uploads == bandwidth_uploads(len, count, max_non_strided, max_strided, limits, context),
{
    let boost: usize = effective_bandwidth_boost(context);
    if boost == 0 {
        return Ok((count, max_strided));
    }
    let narrowed: usize = limits.coalesced_bytes / boost;
    let reduced: usize = if narrowed > limits.complex_bytes {
        limits.shared_bytes / narrowed
    } else {
        limits.shared
    };
    if reduced == 0 {
        return Ok((count, max_strided));
    }
    let groups: usize = ceil_div(len, reduced)?;
    let candidate: usize = if groups > 1 {
        let first: usize = if !limits.reorder_four_step || context.use_bluestein_fft {
            max_non_strided
        } else {
            reduced
        };
        let remaining: usize = ceil_div(len, first)?;
        count_reduced(remaining, max_strided)?
    } else {
        1
    };
    if candidate < count {
        Ok((candidate, reduced))
    } else {
        Ok((count, max_strided))
    }
}

/// The upload count after the policy's length thresholds.
#[verifier::allow_in_spec]
pub fn swapped_count(len: usize, count: usize, limits: UploadLimits) -> usize
    returns
        (if len >= limits.swap_to_three && limits.swap_to_three >= 65_536 {
            3usize
        } else if len >= limits.swap_to_two && count < 3 {
            2
        } else {
            count
        }),
{
    if len >= limits.swap_to_three && limits.swap_to_three >= 65_536 {
        3
    } else if len >= limits.swap_to_two && count < 3 {
        2
    } else {
        count
    }
}

/// The shape of an axis once its boost and count before the bandwidth probe are known.
pub open spec fn shape_from_settled(
    len: usize,
    boost: usize,
    count: usize,
    limits: UploadLimits,
    context: StockhamUploadAxisContext,
    labels: UploadLabels,
) -> PlanResult<UploadShape> {
    match checked_mul(limits.strided, boost, labels.final_strided) {
        Err(error) => Err(error),
        Ok(max_strided) => match checked_mul(limits.shared, boost, labels.final_non_strided) {
            Err(error) => Err(error),
            Ok(max_non_strided) => match bandwidth_uploads(
                len,
                count,
                max_non_strided,
                max_strided,
                limits,
                context,
            ) {
                Err(error) => Err(error),
                Ok((probed, half_bandwidth)) => {
                    let upload_count = swapped_count(len, probed, limits);
                    if upload_count > 3 {
                        Err(VkFftError::UnsupportedKernelPath(labels.too_many))
                    } else {
                        Ok(
                            UploadShape {
                                register_boost: boost,
                                upload_count,
                                max_strided,
                                half_bandwidth,
                            },
                        )
                    }
                },
            },
        },
    }
}

/// How an axis is uploaded.
pub open spec fn upload_shape(
    len: usize,
    limits: UploadLimits,
    context: StockhamUploadAxisContext,
    labels: UploadLabels,
) -> PlanResult<UploadShape> {
    match initial_uploads(len, limits, context, labels) {
        Err(error) => Err(error),
        Ok((_, count)) => match unboosted_capacity(count, limits, context, labels) {
            Err(error) => Err(error),
            Ok(capacity) => match ceil_div(len, capacity) {
                Err(error) => Err(error),
                Ok(required) => match settled_uploads(len, required, count, limits, labels) {
                    Err(error) => Err(error),
                    Ok((boost, settled)) => shape_from_settled(
                        len,
                        boost,
                        settled,
                        limits,
                        context,
                        labels,
                    ),
                },
            },
        },
    }
}

pub fn plan_upload_shape(
    len: usize,
    limits: UploadLimits,
    context: StockhamUploadAxisContext,
    labels: UploadLabels,
) -> (shape: PlanResult<UploadShape>)
    requires
        len > 0,
    ensures
        shape == upload_shape(len, limits, context, labels),
        shape matches Ok(found) ==> found.register_boost > 0 && found.upload_count <= 3,
{
    let (_, count) = select_initial_uploads(len, limits, context, labels)?;
    let capacity: usize = measure_unboosted_capacity(count, limits, context, labels)?;
    let required: usize = ceil_div(len, capacity)?;
    proof {
        crate::arith::ceil_div_is_least_cover(len, capacity);
    }
    let (boost, settled) = settle_uploads(len, required, count, limits, labels)?;
    proof {
        divisible_boost_at_least(
            len,
            required as int,
            limits.boost_limit as int,
            labels.boost_square,
        );
    }
    let max_strided: usize = checked_mul(limits.strided, boost, labels.final_strided)?;
    let max_non_strided: usize = checked_mul(limits.shared, boost, labels.final_non_strided)?;
    let (probed, half_bandwidth) = apply_strided_bandwidth_boost(
        len,
        settled,
        max_non_strided,
        max_strided,
        limits,
        context,
    )?;
    let upload_count: usize = swapped_count(len, probed, limits);
    if upload_count > 3 {
        return Err(VkFftError::UnsupportedKernelPath(labels.too_many));
    }
    Ok(UploadShape { register_boost: boost, upload_count, max_strided, half_bandwidth })
}

/// A boost that was found lies between the required one and the limit, and its square
/// divides the length.
pub proof fn divisible_boost_at_least(
    len: usize,
    candidate: int,
    limit: int,
    operation: &'static str,
)
    requires
        candidate > 0,
    ensures
        divisible_boost(len, candidate, limit, operation) matches Ok(Some(found)) ==> {
            &&& candidate <= found <= limit
            &&& len as int % (found * found) == 0
        },
    decreases limit - candidate + 1,
{
    if candidate <= limit {
        assert(candidate <= candidate * candidate) by (nonlinear_arith)
            requires
                candidate > 0,
        ;
        divisible_boost_at_least(len, candidate + 1, limit, operation);
    }
}

} // verus!
