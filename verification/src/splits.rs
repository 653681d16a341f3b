//! Splitting one axis over two or three uploads.

use vstd::prelude::*;

use crate::arith::{
    ceil_cuberoot, ceil_sqrt, ceil_sqrt_spec, checked_mul, cuberoot_up,
    highest_power_of_two_at_most, pow2_at_most, power_of_eight_floor, power_of_eight_floor_spec,
    umax, umin,
};
use crate::config::{DeviceProfile, GpuVendor};
use crate::error::{PlanResult, VkFftError};
use crate::registers::viewed;

verus! {

/// The greatest divisor of `len` from `candidate` down that keeps to its limit and leaves
/// a quotient within the other limit.
pub open spec fn divisor_below(
    len: int,
    candidate: int,
    divisor_limit: int,
    quotient_limit: int,
) -> Option<int>
    decreases candidate,
{
    if candidate <= 0 {
        None
    } else if candidate <= divisor_limit && len % candidate == 0 && len / candidate
        <= quotient_limit {
        Some(candidate)
    } else {
        divisor_below(len, candidate - 1, divisor_limit, quotient_limit)
    }
}

/// Like [`divisor_below`], with the candidate halved from one try to the next.
pub open spec fn power_divisor_below(
    len: int,
    candidate: int,
    divisor_limit: int,
    quotient_limit: int,
) -> Option<int>
    decreases candidate,
{
    if candidate <= 0 {
        None
    } else if candidate <= divisor_limit && len % candidate == 0 && len / candidate
        <= quotient_limit {
        Some(candidate)
    } else {
        power_divisor_below(len, candidate / 2, divisor_limit, quotient_limit)
    }
}

/// A found divisor divides, keeps to both limits, and no greater candidate does.
pub proof fn divisor_below_is_greatest(
    len: int,
    candidate: int,
    divisor_limit: int,
    quotient_limit: int,
)
    ensures
        divisor_below(len, candidate, divisor_limit, quotient_limit) matches Some(found) ==> {
            &&& 0 < found <= candidate
            &&& found <= divisor_limit
            &&& len % found == 0
            &&& len / found <= quotient_limit
        },
        forall|other: int|
            0 < other <= candidate && other <= divisor_limit && #[trigger] (len % other) == 0 && len
                / other <= quotient_limit ==> {
                &&& divisor_below(len, candidate, divisor_limit, quotient_limit) is Some
                &&& divisor_below(len, candidate, divisor_limit, quotient_limit)->Some_0 >= other
            },
    decreases candidate,
{
    if candidate > 0 {
        divisor_below_is_greatest(len, candidate - 1, divisor_limit, quotient_limit);
    }
}

/// `len` as quotient and divisor, the divisor searched down from the square root.
pub open spec fn sqrt_split(
    len: usize,
    divisor_limit: usize,
    quotient_limit: usize,
) -> PlanResult<Option<(usize, usize)>> {
    match ceil_sqrt_spec(len) {
        Err(error) => Err(error),
        Ok(root) => match divisor_below(
            len as int,
            root as int,
            divisor_limit as int,
            quotient_limit as int,
        ) {
            None => Ok(None),
            Some(divisor) => Ok(Some(((len as int / divisor) as usize, divisor as usize))),
        },
    }
}

pub fn generic_sqrt_divisor_split_with_limits(
    len: usize,
    divisor_limit: usize,
    quotient_limit: usize,
) -> (split: PlanResult<Option<(usize, usize)>>)
    ensures
        split == sqrt_split(len, divisor_limit, quotient_limit),
{
    let root: usize = ceil_sqrt(len)?;
    let mut candidate: usize = root;
    while candidate > 0
        invariant
            ceil_sqrt_spec(len) == Ok::<usize, VkFftError>(root),
            divisor_below(
                len as int,
                candidate as int,
                divisor_limit as int,
                quotient_limit as int,
            ) == divisor_below(
                len as int,
                root as int,
                divisor_limit as int,
                quotient_limit as int,
            ),
        decreases candidate,
    {
        if candidate <= divisor_limit && len % candidate == 0 && len / candidate
            <= quotient_limit {
            return Ok(Some((len / candidate, candidate)));
        }
        candidate = candidate - 1;
    }
    Ok(None)
}

/// Like [`sqrt_split`], trying powers of two only.
pub open spec fn power_sqrt_split(
    len: usize,
    divisor_limit: usize,
    quotient_limit: usize,
) -> PlanResult<Option<(usize, usize)>> {
    match ceil_sqrt_spec(len) {
        Err(error) => Err(error),
        Ok(root) => match power_divisor_below(
            len as int,
            pow2_at_most(root as int),
            divisor_limit as int,
            quotient_limit as int,
        ) {
            None => Ok(None),
            Some(divisor) => Ok(Some(((len as int / divisor) as usize, divisor as usize))),
        },
    }
}

fn power_of_two_sqrt_split(len: usize, divisor_limit: usize, quotient_limit: usize) -> (split:
    PlanResult<Option<(usize, usize)>>)
    ensures
        split == power_sqrt_split(len, divisor_limit, quotient_limit),
{
    let root: usize = ceil_sqrt(len)?;
    let start: usize = highest_power_of_two_at_most(root);
    let mut candidate: usize = start;
    while candidate > 0
        invariant
            ceil_sqrt_spec(len) == Ok::<usize, VkFftError>(root),
            start == pow2_at_most(root as int),
            power_divisor_below(
                len as int,
                candidate as int,
                divisor_limit as int,
                quotient_limit as int,
            ) == power_divisor_below(
                len as int,
                start as int,
                divisor_limit as int,
                quotient_limit as int,
            ),
        decreases candidate,
    {
        if candidate <= divisor_limit && len % candidate == 0 && len / candidate
            <= quotient_limit {
            return Ok(Some((len / candidate, candidate)));
        }
        candidate = candidate / 2;
    }
    Ok(None)
}

/// Three factors of `len`: the second one searched from `outer` down, the rest split
/// around its square root. `powers` restricts both searches to powers of two.
pub open spec fn three_split_below(
    len: usize,
    outer: int,
    max_strided: usize,
    quotient_limit: usize,
    powers: bool,
) -> PlanResult<Option<Seq<usize>>>
    decreases outer,
{
    let next = if powers {
        outer / 2
    } else {
        outer - 1
    };
    if outer <= 0 {
        Ok(None)
    } else if outer <= max_strided && len as int % outer == 0 {
        let rest = (len as int / outer) as usize;
        let inner = if powers {
            power_sqrt_split(rest, max_strided, quotient_limit)
        } else {
            sqrt_split(rest, max_strided, quotient_limit)
        };
        match inner {
            Err(error) => Err(error),
            Ok(Some((quotient, middle))) => Ok(Some(seq![quotient, outer as usize, middle])),
            Ok(None) => three_split_below(len, next, max_strided, quotient_limit, powers),
        }
    } else {
        three_split_below(len, next, max_strided, quotient_limit, powers)
    }
}

/// Three factors around the cube root.
pub open spec fn cuberoot_split(
    len: usize,
    max_strided: usize,
    quotient_limit: usize,
    powers: bool,
    missing: &'static str,
) -> PlanResult<Seq<usize>> {
    let start = if powers {
        pow2_at_most(cuberoot_up(len as int))
    } else {
        cuberoot_up(len as int)
    };
    match three_split_below(len, start, max_strided, quotient_limit, powers) {
        Err(error) => Err(error),
        Ok(Some(split)) => Ok(split),
        Ok(None) => Err(VkFftError::UnsupportedKernelPath(missing)),
    }
}

fn cuberoot_search(
    len: usize,
    max_strided: usize,
    quotient_limit: usize,
    powers: bool,
    missing: &'static str,
) -> (split: PlanResult<Vec<usize>>)
    ensures
        viewed(split) == cuberoot_split(len, max_strided, quotient_limit, powers, missing),
{
    let root: usize = ceil_cuberoot(len)?;
    let start: usize = if powers {
        highest_power_of_two_at_most(root)
    } else {
        root
    };
    let mut outer: usize = start;
    while outer > 0
        invariant
            root == cuberoot_up(len as int),
            start == (if powers {
                pow2_at_most(root as int)
            } else {
                root as int
            }),
            three_split_below(len, outer as int, max_strided, quotient_limit, powers)
                == three_split_below(len, start as int, max_strided, quotient_limit, powers),
        decreases outer,
    {
        if outer <= max_strided && len % outer == 0 {
            let rest: usize = len / outer;
            let inner: Option<(usize, usize)> = if powers {
                power_of_two_sqrt_split(rest, max_strided, quotient_limit)?
            } else {
                generic_sqrt_divisor_split_with_limits(rest, max_strided, quotient_limit)?
            };
            if let Some((quotient, middle)) = inner {
                let split: Vec<usize> = vec![quotient, outer, middle];
                assert(split@ =~= seq![quotient, outer, middle]);
                return Ok(split);
            }
        }
        outer = if powers {
            outer / 2
        } else {
            outer - 1
        };
    }
    Err(VkFftError::UnsupportedKernelPath(missing))
}

pub open spec fn power_three_upload_split(
    len: usize,
    max_strided: usize,
    quotient_limit: usize,
) -> PlanResult<Seq<usize>> {
    cuberoot_split(
        len,
        max_strided,
        quotient_limit,
        true,
        "GPU scheduler could not find a three-upload power-of-two divisor split",
    )
}

pub fn generic_power_of_two_three_upload_split(
    len: usize,
    max_strided: usize,
    quotient_limit: usize,
) -> (split: PlanResult<Vec<usize>>)
    ensures
        viewed(split) == power_three_upload_split(len, max_strided, quotient_limit),
{
    cuberoot_search(
        len,
        max_strided,
        quotient_limit,
        true,
        "GPU scheduler could not find a three-upload power-of-two divisor split",
    )
}

pub open spec fn divisor_three_upload_split(
    len: usize,
    max_strided: usize,
    quotient_limit: usize,
) -> PlanResult<Seq<usize>> {
    cuberoot_split(
        len,
        max_strided,
        quotient_limit,
        false,
        "GPU smooth scheduler could not find a three-upload divisor split",
    )
}

pub fn generic_three_upload_divisor_split_with_limits(
    len: usize,
    max_strided: usize,
    quotient_limit: usize,
) -> (split: PlanResult<Vec<usize>>)
    ensures
        viewed(split) == divisor_three_upload_split(len, max_strided, quotient_limit),
{
    cuberoot_search(
        len,
        max_strided,
        quotient_limit,
        false,
        "GPU smooth scheduler could not find a three-upload divisor split",
    )
}

/// Three factors of `len` whose first is the greatest possible from `first` down.
pub open spec fn unit_stride_split_below(
    len: usize,
    first: int,
    max_strided: usize,
) -> PlanResult<Option<Seq<usize>>>
    decreases first,
{
    if first <= 0 {
        Ok(None)
    } else if len as int % first == 0 {
        match sqrt_split((len as int / first) as usize, max_strided, max_strided) {
            Err(error) => Err(error),
            Ok(Some((quotient, second))) => Ok(Some(seq![first as usize, second, quotient])),
            Ok(None) => unit_stride_split_below(len, first - 1, max_strided),
        }
    } else {
        unit_stride_split_below(len, first - 1, max_strided)
    }
}

/// Three factors, the first as large as its limit allows.
pub open spec fn unit_stride_split(
    len: usize,
    first_limit: usize,
    max_strided: usize,
) -> PlanResult<Seq<usize>> {
    if first_limit == 0 || max_strided == 0 {
        Err(
            VkFftError::UnsupportedKernelPath(
                "unit-stride three-upload search requires non-zero capacities",
            ),
        )
    } else {
        match unit_stride_split_below(len, umin(first_limit, len) as int, max_strided) {
            Err(error) => Err(error),
            Ok(Some(split)) => Ok(split),
            Ok(None) => Err(
                VkFftError::UnsupportedKernelPath(
                    "GPU scheduler could not find a unit-stride three-upload divisor split",
                ),
            ),
        }
    }
}

pub fn generic_three_upload_unit_stride_split(
    len: usize,
    first_limit: usize,
    max_strided: usize,
) -> (split: PlanResult<Vec<usize>>)
    ensures
        viewed(split) == unit_stride_split(len, first_limit, max_strided),
{
    if first_limit == 0 || max_strided == 0 {
        return Err(
            VkFftError::UnsupportedKernelPath(
                "unit-stride three-upload search requires non-zero capacities",
            ),
        );
    }
    let start: usize = umin(first_limit, len);
    let mut first: usize = start;
    while first > 0
        invariant
            start == umin(first_limit, len),
            first_limit != 0,
            max_strided != 0,
            unit_stride_split_below(len, first as int, max_strided) == unit_stride_split_below(
                len,
                start as int,
                max_strided,
            ),
        decreases first,
    {
        if len % first == 0 {
            let inner: Option<(usize, usize)> = generic_sqrt_divisor_split_with_limits(
                len / first,
                max_strided,
                max_strided,
            )?;
            if let Some((quotient, second)) = inner {
                let split: Vec<usize> = vec![first, second, quotient];
                assert(split@ =~= seq![first, second, quotient]);
                return Ok(split);
            }
        }
        first = first - 1;
    }
    Err(
        VkFftError::UnsupportedKernelPath(
            "GPU scheduler could not find a unit-stride three-upload divisor split",
        ),
    )
}

/// The first of `candidate`, twice it, four times it and so on up to `cap` that leaves a
/// quotient of `len` within the limit.
pub open spec fn first_doubling(len: int, candidate: int, limit: int, cap: int) -> Option<int>
    decreases
            if candidate > cap {
                0
            } else {
                cap - candidate + 1
            },
{
    if candidate <= 0 || candidate > cap {
        None
    } else if len / candidate <= limit {
        Some(candidate)
    } else {
        first_doubling(len, 2 * candidate, limit, cap)
    }
}

fn find_first_doubling(len: usize, start: usize, limit: usize, cap: usize) -> (found: Option<usize>)
    requires
        start > 0,
    ensures
        match found {
            None => first_doubling(len as int, start as int, limit as int, cap as int) is None,
            Some(value) => first_doubling(len as int, start as int, limit as int, cap as int)
                == Some(value as int),
        },
        found matches Some(value) ==> value > 0,
{
    let mut candidate: usize = start;
    while candidate <= cap
        invariant
            candidate > 0,
            first_doubling(len as int, candidate as int, limit as int, cap as int)
                == first_doubling(len as int, start as int, limit as int, cap as int),
        decreases cap - candidate,
    {
        if len / candidate <= limit {
            return Some(candidate);
        }
        if candidate > cap / 2 {
            assert(first_doubling(len as int, 2 * candidate, limit as int, cap as int) is None);
            return None;
        }
        candidate = candidate * 2;
    }
    None
}

/// Shared memory scaled up by register boost: doubled from `start` only as far as the
/// quotient limit asks for where `search` holds, else boosted in full.
pub open spec fn boosted_first(
    len: usize,
    start: int,
    limit: int,
    boosted: usize,
    search: bool,
) -> usize {
    if search {
        match first_doubling(len as int, start, limit, boosted as int) {
            Some(found) => found as usize,
            None => boosted,
        }
    } else {
        boosted
    }
}

/// Whether neither shared memory nor its power of eight leaves a quotient of `len` within
/// the limit, so that register boost decides the first upload.
pub open spec fn boost_decides(len: usize, shared: usize, limit: int) -> bool {
    &&& shared > 0
    &&& len as int / crate::arith::pow8_at_most(shared as int) > limit
    &&& len / shared > limit
}

/// Which factor the first of two uploads of a power of two takes.
pub open spec fn two_upload_first(
    len: usize,
    shared: usize,
    strided: usize,
    half_bandwidth: usize,
    register_boost: usize,
    unit_stride: bool,
) -> PlanResult<usize> {
    if unit_stride {
        match power_of_eight_floor_spec(shared) {
            Err(error) => Err(error),
            Ok(pow8) => if len / pow8 <= strided {
                Ok(pow8)
            } else if len / shared <= strided {
                Ok(shared)
            } else {
                match checked_mul(
                    shared,
                    register_boost,
                    "power-of-two unit-stride two-upload boosted shared capacity",
                ) {
                    Err(error) => Err(error),
                    Ok(boosted) => Ok(
                        boosted_first(
                            len,
                            2 * shared,
                            strided as int,
                            boosted,
                            len / boosted < half_bandwidth,
                        ),
                    ),
                }
            },
        }
    } else {
        match power_of_eight_floor_spec(strided) {
            Err(error) => Err(error),
            Ok(pow8) => if len / umin(pow8, 512) <= strided {
                Ok(umin(pow8, 512))
            } else if len / strided < half_bandwidth {
                Ok(strided)
            } else {
                Ok(half_bandwidth)
            },
        }
    }
}

/// A power of eight at most a value lies between 1 and the value.
pub(crate) proof fn pow8_at_most_bounds(value: int)
    requires
        value >= 1,
    ensures
        1 <= crate::arith::pow8_at_most(value) <= value,
    decreases value,
{
    if value >= 8 {
        pow8_at_most_bounds(value / 8);
    }
}

fn select_two_upload_first(
    len: usize,
    shared: usize,
    strided: usize,
    half_bandwidth: usize,
    register_boost: usize,
    unit_stride: bool,
) -> (first: PlanResult<usize>)
    requires
        unit_stride && boost_decides(len, shared, strided as int) ==> register_boost > 0,
    ensures
        first == two_upload_first(
            len,
            shared,
            strided,
            half_bandwidth,
            register_boost,
            unit_stride,
        ),
{
    if unit_stride {
        let pow8: usize = power_of_eight_floor(shared)?;
        proof {
            pow8_at_most_bounds(shared as int);
        }
        if len / pow8 <= strided {
            return Ok(pow8);
        }
        if len / shared <= strided {
            return Ok(shared);
        }
        let boosted: usize = checked_mul(
            shared,
            register_boost,
            "power-of-two unit-stride two-upload boosted shared capacity",
        )?;
        assert(boosted > 0) by (nonlinear_arith)
            requires
                boosted == shared * register_boost,
                shared > 0,
                register_boost > 0,
        ;
        if len / boosted < half_bandwidth {
            if shared > usize::MAX / 2 {
                assert(register_boost == 1) by (nonlinear_arith)
                    requires
                        shared * register_boost <= usize::MAX,
                        shared > usize::MAX / 2,
                        register_boost > 0,
                ;
                assert(boosted == shared) by (nonlinear_arith)
                    requires
                        boosted == shared * register_boost,
                        register_boost == 1,
                ;
                return Ok(boosted);
            }
            return match find_first_doubling(len, 2 * shared, strided, boosted) {
                Some(found) => Ok(found),
                None => Ok(boosted),
            };
        }
        return Ok(boosted);
    }
    let pow8: usize = power_of_eight_floor(strided)?;
    proof {
        pow8_at_most_bounds(strided as int);
    }
    if len / umin(pow8, 512) <= strided {
        Ok(umin(pow8, 512))
    } else if len / strided < half_bandwidth {
        Ok(strided)
    } else {
        Ok(half_bandwidth)
    }
}

/// Two factors, the smaller one raised to 64 at the other's cost, the larger one first.
pub open spec fn balanced_pair(first: usize, second: usize) -> (usize, usize) {
    let (a, b) = if second < 64 {
        (first / (64usize / umax(second, 1)), 64usize)
    } else {
        (first, second)
    };
    if b > a {
        (b, a)
    } else {
        (a, b)
    }
}

fn balance_pair(first: usize, second: usize) -> (pair: (usize, usize))
    ensures
        pair == balanced_pair(first, second),
{
    let mut a: usize = first;
    let mut b: usize = second;
    if b < 64 {
        let scale: usize = 64 / umax(b, 1);
        assert(scale >= 1) by {
            let divisor = umax(b, 1) as int;
            assert(64int / divisor >= 1) by (nonlinear_arith)
                requires
                    1 <= divisor <= 63,
            ;
        }
        a = a / scale;
        b = 64;
    }
    if b > a {
        (b, a)
    } else {
        (a, b)
    }
}

/// The two uploads of a power of two. NVIDIA devices search divisors above `2^18`.
pub open spec fn power_two_upload_split(
    len: usize,
    shared: usize,
    strided: usize,
    half_bandwidth: usize,
    register_boost: usize,
    unit_stride: bool,
    device: DeviceProfile,
) -> PlanResult<Seq<usize>> {
    if device.vendor == GpuVendor::Nvidia && len > 262_144 {
        match sqrt_split(
            len,
            strided,
            if unit_stride {
                shared
            } else {
                half_bandwidth
            },
        ) {
            Err(error) => Err(error),
            Ok(Some((quotient, divisor))) => Ok(seq![quotient, divisor]),
            Ok(None) => Err(
                VkFftError::UnsupportedKernelPath(
                    "GPU scheduler could not find a two-upload power-of-two split",
                ),
            ),
        }
    } else {
        match two_upload_first(len, shared, strided, half_bandwidth, register_boost, unit_stride) {
            Err(error) => Err(error),
            Ok(first) => if first == 0 || len % first != 0 {
                Err(
                    VkFftError::UnsupportedKernelPath(
                        "power-of-two two-upload split is incompatible with the selected capacity",
                    ),
                )
            } else {
                Ok(
                    seq![
                        balanced_pair(first, len / first).0,
                        balanced_pair(first, len / first).1,
                    ],
                )
            },
        }
    }
}

pub fn power_of_two_two_upload_split(
    len: usize,
    shared: usize,
    strided: usize,
    half_bandwidth: usize,
    register_boost: usize,
    unit_stride: bool,
    device: DeviceProfile,
) -> (split: PlanResult<Vec<usize>>)
    requires
        unit_stride && !(device.vendor == GpuVendor::Nvidia && len > 262_144)
            && boost_decides(len, shared, strided as int) ==> register_boost > 0,
    ensures
        viewed(split) == power_two_upload_split(
            len,
            shared,
            strided,
            half_bandwidth,
            register_boost,
            unit_stride,
            device,
        ),
{
    if device.vendor == GpuVendor::Nvidia && len > 262_144 {
        let limit: usize = if unit_stride {
            shared
        } else {
            half_bandwidth
        };
        return match generic_sqrt_divisor_split_with_limits(len, strided, limit)? {
            Some((quotient, divisor)) => {
                let split: Vec<usize> = vec![quotient, divisor];
                assert(split@ =~= seq![quotient, divisor]);
                Ok(split)
            },
            None => Err(
                VkFftError::UnsupportedKernelPath(
                    "GPU scheduler could not find a two-upload power-of-two split",
                ),
            ),
        };
    }
    let first: usize = select_two_upload_first(
        len,
        shared,
        strided,
        half_bandwidth,
        register_boost,
        unit_stride,
    )?;
    if first == 0 || len % first != 0 {
        return Err(
            VkFftError::UnsupportedKernelPath(
                "power-of-two two-upload split is incompatible with the selected capacity",
            ),
        );
    }
    let (larger, smaller) = balance_pair(first, len / first);
    let split: Vec<usize> = vec![larger, smaller];
    assert(split@ =~= seq![larger, smaller]);
    Ok(split)
}

/// The greatest power of two whose square is at most `value`; 1 at least.
pub open spec fn pow2_sqrt(value: int) -> int
    decreases value,
{
    if value < 4 {
        1
    } else {
        2 * pow2_sqrt(value / 4)
    }
}

/// That power of two is at least 1, and at most the value.
pub(crate) proof fn pow2_sqrt_bounds(value: int)
    ensures
        pow2_sqrt(value) >= 1,
        value >= 1 ==> pow2_sqrt(value) <= value,
    decreases value,
{
    if value >= 4 {
        pow2_sqrt_bounds(value / 4);
    }
}

fn power_of_two_sqrt(value: usize) -> (root: usize)
    ensures
        root == pow2_sqrt(value as int),
        root >= 1,
{
    let mut root: usize = 1;
    let mut rest: usize = value;
    while rest >= 4
        invariant
            root >= 1,
            root * rest <= value || root == 1,
            rest <= value,
            root * pow2_sqrt(rest as int) == pow2_sqrt(value as int),
        decreases rest,
    {
        let next: usize = rest / 4;
        assert(root * 2 * next <= value && root * 2 <= value) by (nonlinear_arith)
            requires
                root * rest <= value || (root == 1 && rest <= value),
                next == rest / 4,
                rest >= 4,
                root >= 1,
        ;
        assert(root * (2 * pow2_sqrt(next as int)) == (root * 2) * pow2_sqrt(next as int))
            by (nonlinear_arith);
        root = root * 2;
        rest = next;
    }
    root
}

/// Which factor the first of three uploads of a power of two takes where it reads with
/// unit stride.
pub open spec fn three_upload_unit_first(
    len: usize,
    shared: usize,
    strided: usize,
    register_boost: usize,
) -> PlanResult<usize> {
    let pow8 = crate::arith::pow8_at_most(shared as int) as usize;
    match checked_mul(
        strided,
        strided,
        "power-of-two unit-stride three-upload square capacity",
    ) {
        Err(error) => Err(error),
        Ok(square) => if len / pow8 <= square {
            Ok(pow8)
        } else if len / shared <= square {
            Ok(shared)
        } else {
            match checked_mul(
                shared,
                register_boost,
                "power-of-two unit-stride three-upload boosted shared capacity",
            ) {
                Err(error) => Err(error),
                Ok(boosted) => Ok(
                    boosted_first(
                        len,
                        shared as int,
                        square as int,
                        boosted,
                        len / boosted <= square,
                    ),
                ),
            }
        },
    }
}

fn select_three_upload_unit_first(
    len: usize,
    shared: usize,
    strided: usize,
    register_boost: usize,
) -> (first: PlanResult<usize>)
    requires
        shared > 0,
        boost_decides(len, shared, strided * strided) ==> register_boost > 0,
    ensures
        first == three_upload_unit_first(len, shared, strided, register_boost),
{
    proof {
        pow8_at_most_bounds(shared as int);
    }
    let pow8: usize = power_of_eight_floor(shared)?;
    let square: usize = checked_mul(
        strided,
        strided,
        "power-of-two unit-stride three-upload square capacity",
    )?;
    if len / pow8 <= square {
        return Ok(pow8);
    }
    if len / shared <= square {
        return Ok(shared);
    }
    let boosted: usize = checked_mul(
        shared,
        register_boost,
        "power-of-two unit-stride three-upload boosted shared capacity",
    )?;
    assert(boosted > 0) by (nonlinear_arith)
        requires
            boosted == shared * register_boost,
            shared > 0,
            register_boost > 0,
    ;
    if len / boosted <= square {
        return match find_first_doubling(len, shared, square, boosted) {
            Some(found) => Ok(found),
            None => Ok(boosted),
        };
    }
    Ok(boosted)
}

/// Which factor the first of three uploads of a power of two takes where every upload is
/// strided. A stage whose transactions span 128 bytes is preferred.
pub open spec fn three_upload_strided_first(
    len: usize,
    shared_bytes: usize,
    strided: usize,
    half_bandwidth: usize,
) -> PlanResult<usize> {
    let pow8 = crate::arith::pow8_at_most(strided as int) as usize;
    let wide = shared_bytes / 128;
    let wide8 = crate::arith::pow8_at_most(wide as int) as usize;
    match checked_mul(pow8, strided, "power-of-two three-upload remaining capacity") {
        Err(error) => Err(error),
        Ok(capacity) => if len / wide8 <= capacity {
            Ok(wide8)
        } else if 2 * wide8 <= wide && len as int / (2 * wide8) <= capacity {
            Ok((2 * wide8) as usize)
        } else if 4 * wide8 <= wide && len as int / (4 * wide8) <= capacity {
            Ok((4 * wide8) as usize)
        } else {
            match checked_mul(
                strided,
                strided,
                "power-of-two three-upload square strided capacity",
            ) {
                Err(error) => Err(error),
                Ok(square) => if len / strided <= square {
                    match first_doubling(
                        len as int,
                        wide as int,
                        square as int,
                        umax(strided, wide) as int,
                    ) {
                        Some(found) => Ok(found as usize),
                        None => Ok(strided),
                    }
                } else {
                    Ok(half_bandwidth)
                },
            }
        },
    }
}

fn select_three_upload_strided_first(
    len: usize,
    shared_bytes: usize,
    strided: usize,
    half_bandwidth: usize,
) -> (first: PlanResult<usize>)
    requires
        shared_bytes >= 128,
        strided > 0,
    ensures
        first == three_upload_strided_first(len, shared_bytes, strided, half_bandwidth),
{
    proof {
        pow8_at_most_bounds(strided as int);
        pow8_at_most_bounds(shared_bytes as int / 128);
    }
    let pow8: usize = power_of_eight_floor(strided)?;
    let wide: usize = shared_bytes / 128;
    let wide8: usize = power_of_eight_floor(wide)?;
    let capacity: usize = checked_mul(
        pow8,
        strided,
        "power-of-two three-upload remaining capacity",
    )?;
    if len / wide8 <= capacity {
        return Ok(wide8);
    }
    if wide8 <= wide / 2 && len / (2 * wide8) <= capacity {
        return Ok(2 * wide8);
    }
    if wide8 <= wide / 4 && len / (4 * wide8) <= capacity {
        return Ok(4 * wide8);
    }
    let square: usize = checked_mul(
        strided,
        strided,
        "power-of-two three-upload square strided capacity",
    )?;
    if len / strided <= square {
        match find_first_doubling(len, wide, square, umax(strided, wide)) {
            Some(found) => Ok(found),
            None => Ok(strided),
        }
    } else {
        Ok(half_bandwidth)
    }
}

/// The second and third factor, given what the first leaves of a power of two.
pub open spec fn three_upload_rest(rest: usize, strided: usize) -> (usize, usize) {
    let pow8 = crate::arith::pow8_at_most(strided as int) as usize;
    if rest < pow8 {
        let second = pow2_sqrt(rest as int) as usize;
        let third = rest / second;
        if third > second {
            (third, second)
        } else {
            (second, third)
        }
    } else if rest / pow8 <= strided {
        balanced_pair(pow8, rest / pow8)
    } else {
        balanced_pair(strided, rest / strided)
    }
}

fn split_three_upload_rest(rest: usize, strided: usize) -> (pair: (usize, usize))
    requires
        strided > 0,
    ensures
        pair == three_upload_rest(rest, strided),
{
    proof {
        pow8_at_most_bounds(strided as int);
    }
    let pow8: usize = match power_of_eight_floor(strided) {
        Ok(power) => power,
        Err(_) => 1,
    };
    if rest < pow8 {
        let second: usize = power_of_two_sqrt(rest);
        let third: usize = rest / second;
        if third > second {
            (third, second)
        } else {
            (second, third)
        }
    } else if rest / pow8 <= strided {
        balance_pair(pow8, rest / pow8)
    } else {
        balance_pair(strided, rest / strided)
    }
}

/// The three uploads of a power of two. NVIDIA devices search divisors above `2^18`.
pub open spec fn power_of_two_three_split(
    len: usize,
    shared_bytes: usize,
    shared: usize,
    strided: usize,
    half_bandwidth: usize,
    register_boost: usize,
    unit_stride: bool,
    device: DeviceProfile,
) -> PlanResult<Seq<usize>> {
    if device.vendor == GpuVendor::Nvidia && len > 262_144 {
        if unit_stride {
            unit_stride_split(len, shared, strided)
        } else {
            power_three_upload_split(len, strided, half_bandwidth)
        }
    } else if shared_bytes < 128 || shared == 0 || strided == 0 {
        Err(
            VkFftError::UnsupportedKernelPath(
                "power-of-two three-upload split requires executable shared-memory capacities",
            ),
        )
    } else {
        match (if unit_stride {
            three_upload_unit_first(len, shared, strided, register_boost)
        } else {
            three_upload_strided_first(len, shared_bytes, strided, half_bandwidth)
        }) {
            Err(error) => Err(error),
            Ok(first) => if first == 0 || len % first != 0 {
                Err(
                    VkFftError::UnsupportedKernelPath(
                        "power-of-two three-upload first split is incompatible with the sequence",
                    ),
                )
            } else {
                let (second, third) = three_upload_rest(len / first, strided);
                if second == 0 || third == 0 || first * second * third != len {
                    Err(
                        VkFftError::UnsupportedKernelPath(
                            "power-of-two three-upload split does not cover the sequence",
                        ),
                    )
                } else {
                    Ok(seq![first, second, third])
                }
            },
        }
    }
}

/// Whether three factors multiply to `len`.
fn three_factors_cover(first: usize, second: usize, third: usize, len: usize) -> (covers: bool)
    requires
        first > 0,
        second > 0,
        third > 0,
    ensures
        covers == (first * second * third == len),
{
    match first.checked_mul(second) {
        None => {
            assert(first * second * third > usize::MAX) by (nonlinear_arith)
                requires
                    first * second > usize::MAX,
                    third >= 1,
            ;
            false
        },
        Some(pair) => match pair.checked_mul(third) {
            None => false,
            Some(product) => product == len,
        },
    }
}

pub fn power_of_two_three_upload_split(
    len: usize,
    shared_bytes: usize,
    shared: usize,
    strided: usize,
    half_bandwidth: usize,
    register_boost: usize,
    unit_stride: bool,
    device: DeviceProfile,
) -> (split: PlanResult<Vec<usize>>)
    requires
        unit_stride && !(device.vendor == GpuVendor::Nvidia && len > 262_144) && shared_bytes >= 128
            && strided > 0 && boost_decides(len, shared, strided * strided) ==> register_boost > 0,
    ensures
        viewed(split) == power_of_two_three_split(
            len,
            shared_bytes,
            shared,
            strided,
            half_bandwidth,
            register_boost,
            unit_stride,
            device,
        ),
{
    if device.vendor == GpuVendor::Nvidia && len > 262_144 {
        return if unit_stride {
            generic_three_upload_unit_stride_split(len, shared, strided)
        } else {
            generic_power_of_two_three_upload_split(len, strided, half_bandwidth)
        };
    }
    if shared_bytes < 128 || shared == 0 || strided == 0 {
        return Err(
            VkFftError::UnsupportedKernelPath(
                "power-of-two three-upload split requires executable shared-memory capacities",
            ),
        );
    }
    let first: usize = if unit_stride {
        select_three_upload_unit_first(len, shared, strided, register_boost)?
    } else {
        select_three_upload_strided_first(len, shared_bytes, strided, half_bandwidth)?
    };
    if first == 0 || len % first != 0 {
        return Err(
            VkFftError::UnsupportedKernelPath(
                "power-of-two three-upload first split is incompatible with the sequence",
            ),
        );
    }
    let (second, third) = split_three_upload_rest(len / first, strided);
    if second == 0 || third == 0 || !three_factors_cover(first, second, third, len) {
        return Err(
            VkFftError::UnsupportedKernelPath(
                "power-of-two three-upload split does not cover the sequence",
            ),
        );
    }
    let split: Vec<usize> = vec![first, second, third];
    assert(split@ =~= seq![first, second, third]);
    Ok(split)
}

/// The first factor from index `from` on that `divisor` divides.
pub open spec fn first_multiple(split: Seq<usize>, divisor: int, from: int) -> Option<int>
    decreases split.len() - from,
{
    if from >= split.len() {
        None
    } else if split[from] as int % divisor == 0 {
        Some(from)
    } else {
        first_multiple(split, divisor, from + 1)
    }
}

/// The split with a multiple of `divisor` exchanged to the front where the front is none.
pub open spec fn prefer_multiple(split: Seq<usize>, divisor: int) -> Seq<usize> {
    if split.len() == 0 || split[0] as int % divisor == 0 {
        split
    } else {
        match first_multiple(split, divisor, 0) {
            None => split,
            Some(index) => split.update(0, split[index]).update(index, split[0]),
        }
    }
}

/// The split after multiples of 2, then 4, then 8 were preferred at the front.
pub open spec fn four_step_order(split: Seq<usize>) -> Seq<usize> {
    prefer_multiple(prefer_multiple(prefer_multiple(split, 2), 4), 8)
}

fn move_multiple_first(split: &mut Vec<usize>, divisor: usize)
    requires
        divisor > 0,
    ensures
        final(split)@ == prefer_multiple(old(split)@, divisor as int),
{
    if split.len() == 0 || split[0] % divisor == 0 {
        return ;
    }
    let mut index: usize = 0;
    while index < split.len()
        invariant
            index <= split.len(),
            split@ == old(split)@,
            divisor > 0,
            split@.len() > 0,
            split@[0] as int % divisor as int != 0,
            first_multiple(split@, divisor as int, index as int) == first_multiple(
                split@,
                divisor as int,
                0,
            ),
        decreases split.len() - index,
    {
        if split[index] % divisor == 0 {
            let front: usize = split[0];
            let found: usize = split[index];
            split.set(0, found);
            split.set(index, front);
            return ;
        }
        index = index + 1;
    }
}

pub fn prefer_four_step_first_factor(split: &mut Vec<usize>)
    ensures
        final(split)@ == four_step_order(old(split)@),
{
    move_multiple_first(split, 2);
    move_multiple_first(split, 4);
    move_multiple_first(split, 8);
}

/// Product of a split, where it fits.
pub open spec fn split_product(
    split: Seq<usize>,
    from: int,
    product: usize,
    operation: &'static str,
) -> PlanResult<usize>
    decreases split.len() - from,
{
    if from >= split.len() {
        Ok(product)
    } else {
        match checked_mul(product, split[from], operation) {
            Err(error) => Err(error),
            Ok(next) => split_product(split, from + 1, next, operation),
        }
    }
}

pub fn multiply_split(split: &Vec<usize>, operation: &'static str) -> (product: PlanResult<usize>)
    ensures
        product == split_product(split@, 0, 1, operation),
{
    let mut product: usize = 1;
    let mut index: usize = 0;
    while index < split.len()
        invariant
            index <= split.len(),
            split_product(split@, index as int, product, operation) == split_product(
                split@,
                0,
                1,
                operation,
            ),
        decreases split.len() - index,
    {
        product = checked_mul(product, split[index], operation)?;
        index = index + 1;
    }
    Ok(product)
}

/// Whether some factor of a split is 0.
pub open spec fn has_zero(split: Seq<usize>) -> bool {
    split.contains(0)
}

pub fn contains_zero(split: &Vec<usize>) -> (found: bool)
    ensures
        found == has_zero(split@),
{
    let mut index: usize = 0;
    while index < split.len()
        invariant
            index <= split.len(),
            forall|i: int| 0 <= i < index ==> split@[i] != 0,
        decreases split.len() - index,
    {
        if split[index] == 0 {
            assert(split@[index as int] == 0);
            return true;
        }
        index = index + 1;
    }
    false
}

} // verus!
