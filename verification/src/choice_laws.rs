//! Which split of an axis is chosen: the divisors nearest the root that keep to the limits,
//! larger factors first, and a factor that a power of two divides at the front.

use vstd::prelude::*;

use crate::arith::{
    ceil_sqrt_spec, cuberoot_up, is_pow2, pow2_at_most, pow2_at_most_is_greatest, pow2_step,
    pow8_at_most, umax, umin,
};
use crate::config::{DeviceProfile, GpuVendor};
use crate::split_laws::{cuberoot_split_is_exact, unit_stride_split_is_exact};
use crate::splits::{
    balanced_pair, cuberoot_split, divisor_below, divisor_below_is_greatest, first_doubling,
    first_multiple, four_step_order, pow2_sqrt, pow8_at_most_bounds, power_divisor_below,
    power_of_two_three_split, power_sqrt_split, power_two_upload_split, prefer_multiple, sqrt_split,
    three_split_below, three_upload_rest, three_upload_strided_first, three_upload_unit_first,
    two_upload_first, unit_stride_split, unit_stride_split_below,
};

verus! {

/// Whether a divisor of a length keeps to its limit and leaves a quotient within the other.
pub open spec fn divisor_fits(
    len: usize,
    divisor: int,
    limit: usize,
    quotient_limit: usize,
) -> bool {
    &&& 0 < divisor <= limit
    &&& len as int % divisor == 0
    &&& len as int / divisor <= quotient_limit
}

/// The divisor of a two-upload split is the greatest up to the square root that fits, and
/// none is found exactly where none fits.
pub proof fn sqrt_splits_take_the_greatest_divisor(
    len: usize,
    divisor_limit: usize,
    quotient_limit: usize,
)
    ensures
        sqrt_split(len, divisor_limit, quotient_limit) matches Ok(found) ==> {
            let root = ceil_sqrt_spec(len)->Ok_0;
            &&& found matches Some((quotient, divisor)) ==> {
                &&& divisor_fits(len, divisor as int, divisor_limit, quotient_limit)
                &&& divisor <= root
                &&& quotient == len as int / divisor as int
            }
            &&& forall|other: int|
                other <= root && #[trigger] divisor_fits(
                    len,
                    other,
                    divisor_limit,
                    quotient_limit,
                ) ==> found is Some && other <= found->Some_0.1
        },
{
    if ceil_sqrt_spec(len) is Ok {
        let root = ceil_sqrt_spec(len)->Ok_0;
        divisor_below_is_greatest(
            len as int,
            root as int,
            divisor_limit as int,
            quotient_limit as int,
        );
        let found = divisor_below(
            len as int,
            root as int,
            divisor_limit as int,
            quotient_limit as int,
        );
        if found is Some {
            vstd::arithmetic::div_mod::lemma_div_is_ordered_by_denominator(
                len as int,
                1,
                found->Some_0,
            );
        }
        assert forall|other: int|
            other <= root && #[trigger] divisor_fits(
                len,
                other,
                divisor_limit,
                quotient_limit,
            ) implies found is Some && other <= found->Some_0 by {
            assert(len as int % other == 0);
        }
    }
}

proof fn halving_tries_every_power(
    len: usize,
    candidate: int,
    divisor_limit: usize,
    quotient_limit: usize,
    other: int,
)
    requires
        is_pow2(candidate) || candidate == 0,
        is_pow2(other),
        other <= candidate,
        divisor_fits(len, other, divisor_limit, quotient_limit),
    ensures
        power_divisor_below(
            len as int,
            candidate,
            divisor_limit as int,
            quotient_limit as int,
        ) is Some,
        power_divisor_below(
            len as int,
            candidate,
            divisor_limit as int,
            quotient_limit as int,
        )->Some_0 >= other,
    decreases candidate,
{
    if candidate > other {
        pow2_step(other, candidate);
        halving_tries_every_power(len, candidate / 2, divisor_limit, quotient_limit, other);
    }
}

/// A two-upload split over powers of two takes the greatest one up to the square root that
/// fits.
pub proof fn power_splits_take_the_greatest_power(
    len: usize,
    divisor_limit: usize,
    quotient_limit: usize,
    other: int,
)
    requires
        is_pow2(other),
        divisor_fits(len, other, divisor_limit, quotient_limit),
    ensures
        power_sqrt_split(len, divisor_limit, quotient_limit) matches Ok(found) ==> (other
            <= ceil_sqrt_spec(len)->Ok_0 ==> found is Some && other <= found->Some_0.1),
{
    if ceil_sqrt_spec(len) is Ok && other <= ceil_sqrt_spec(len)->Ok_0 {
        let root = ceil_sqrt_spec(len)->Ok_0;
        pow2_at_most_is_greatest(root as int);
        let start = pow2_at_most(root as int);
        if other > start {
            pow2_step(start, other);
        }
        halving_tries_every_power(len, start, divisor_limit, quotient_limit, other);
        power_divisor_is_no_greater(
            len as int,
            start,
            divisor_limit as int,
            quotient_limit as int,
        );
    }
}

proof fn power_divisor_is_no_greater(len: int, candidate: int, limit: int, quotient_limit: int)
    ensures
        power_divisor_below(len, candidate, limit, quotient_limit) matches Some(found) ==> found
            <= candidate,
    decreases candidate,
{
    if candidate > 0 {
        power_divisor_is_no_greater(len, candidate / 2, limit, quotient_limit);
    }
}

proof fn three_splits_take_the_greatest_outer(
    len: usize,
    outer: int,
    max_strided: usize,
    quotient_limit: usize,
)
    requires
        outer <= usize::MAX,
    ensures
        three_split_below(len, outer, max_strided, quotient_limit, false) matches Ok(Some(split))
            ==> {
            &&& split.len() == 3
            &&& 0 < split[1] <= outer
            &&& split[1] <= max_strided
            &&& len as int % split[1] as int == 0
            &&& sqrt_split(
                (len as int / split[1] as int) as usize,
                max_strided,
                quotient_limit,
            ) == Ok::<Option<(usize, usize)>, crate::error::VkFftError>(Some((split[0], split[2])))
            &&& forall|other: int|
                split[1] < other <= outer && other <= max_strided && #[trigger] (len as int % other)
                    == 0 ==> sqrt_split(
                    (len as int / other) as usize,
                    max_strided,
                    quotient_limit,
                ) matches Ok(None)
        },
        three_split_below(len, outer, max_strided, quotient_limit, false) matches Ok(None)
            ==> forall|other: int|
            0 < other <= outer && other <= max_strided && #[trigger] (len as int % other) == 0
                ==> sqrt_split(
                (len as int / other) as usize,
                max_strided,
                quotient_limit,
            ) matches Ok(None),
    decreases outer,
{
    if outer > 0 {
        three_splits_take_the_greatest_outer(len, outer - 1, max_strided, quotient_limit);
    }
}

/// The three uploads of an axis: the second factor is the greatest divisor up to the cube
/// root that leaves something to split, and the others split that around its square root.
/// Nothing is found only where no such divisor exists.
pub proof fn cuberoot_splits_take_the_greatest_divisor(
    len: usize,
    max_strided: usize,
    quotient_limit: usize,
    missing: &'static str,
)
    requires
        cuberoot_up(len as int) <= usize::MAX,
    ensures
        cuberoot_split(len, max_strided, quotient_limit, false, missing) matches Ok(split) ==> {
            &&& split.len() == 3
            &&& 0 < split[1] <= cuberoot_up(len as int)
            &&& split[1] <= max_strided
            &&& len as int % split[1] as int == 0
            &&& sqrt_split(
                (len as int / split[1] as int) as usize,
                max_strided,
                quotient_limit,
            ) == Ok::<Option<(usize, usize)>, crate::error::VkFftError>(Some((split[0], split[2])))
            &&& forall|other: int|
                split[1] < other <= cuberoot_up(len as int) && other <= max_strided && #[trigger] (
                len as int % other) == 0 ==> sqrt_split(
                    (len as int / other) as usize,
                    max_strided,
                    quotient_limit,
                ) matches Ok(None)
        },
{
    three_splits_take_the_greatest_outer(
        len,
        cuberoot_up(len as int),
        max_strided,
        quotient_limit,
    );
}

proof fn unit_splits_take_the_greatest_first(len: usize, first: int, max_strided: usize)
    requires
        first <= usize::MAX,
    ensures
        unit_stride_split_below(len, first, max_strided) matches Ok(Some(split)) ==> {
            &&& split.len() == 3
            &&& 0 < split[0] <= first
            &&& len as int % split[0] as int == 0
            &&& sqrt_split(
                (len as int / split[0] as int) as usize,
                max_strided,
                max_strided,
            ) == Ok::<Option<(usize, usize)>, crate::error::VkFftError>(Some((split[2], split[1])))
            &&& forall|other: int|
                split[0] < other <= first && #[trigger] (len as int % other) == 0 ==> sqrt_split(
                    (len as int / other) as usize,
                    max_strided,
                    max_strided,
                ) matches Ok(None)
        },
    decreases first,
{
    if first > 0 {
        unit_splits_take_the_greatest_first(len, first - 1, max_strided);
    }
}

/// The three uploads of an axis whose first reads with unit stride: its factor is the
/// greatest divisor within its limit that leaves something to split, and the others split
/// that around its square root.
pub proof fn unit_stride_splits_take_the_greatest_divisor(
    len: usize,
    first_limit: usize,
    max_strided: usize,
)
    ensures
        unit_stride_split(len, first_limit, max_strided) matches Ok(split) ==> {
            &&& split.len() == 3
            &&& 0 < split[0] <= first_limit
            &&& len as int % split[0] as int == 0
            &&& sqrt_split(
                (len as int / split[0] as int) as usize,
                max_strided,
                max_strided,
            ) == Ok::<Option<(usize, usize)>, crate::error::VkFftError>(Some((split[2], split[1])))
            &&& forall|other: int|
                split[0] < other <= first_limit && other <= len && #[trigger] (len as int % other)
                    == 0 ==> sqrt_split(
                    (len as int / other) as usize,
                    max_strided,
                    max_strided,
                ) matches Ok(None)
        },
{
    unit_splits_take_the_greatest_first(len, umin(first_limit, len) as int, max_strided);
}

/// The power of two near a square root is one whose square is within the value while that of
/// twice it is not.
pub proof fn pow2_sqrt_is_bracketed(value: int)
    requires
        value >= 1,
    ensures
        is_pow2(pow2_sqrt(value)),
        pow2_sqrt(value) * pow2_sqrt(value) <= value,
        value < (2 * pow2_sqrt(value)) * (2 * pow2_sqrt(value)),
    decreases value,
{
    reveal_with_fuel(is_pow2, 2);
    if value >= 4 {
        let quarter = value / 4;
        let root = pow2_sqrt(quarter);
        pow2_sqrt_is_bracketed(quarter);
        assert((2 * root) * (2 * root) == 4 * (root * root)) by (nonlinear_arith);
        assert((2 * (2 * root)) * (2 * (2 * root)) == 4 * ((2 * root) * (2 * root)))
            by (nonlinear_arith);
    } else {
        let root = pow2_sqrt(value);
        assert((2 * root) * (2 * root) == 4 && root * root == 1) by (nonlinear_arith)
            requires
                root == 1,
        ;
    }
}

/// A doubling found is the first of the candidate's doublings that leaves a quotient within
/// the limit.
pub proof fn doubling_is_the_first(len: int, candidate: int, limit: int, cap: int)
    requires
        candidate > 0,
        len >= 0,
    ensures
        first_doubling(len, candidate, limit, cap) matches Some(found) ==> {
            &&& candidate <= found <= cap
            &&& len / found <= limit
            &&& found > candidate ==> found % 2 == 0 && len / (found / 2) > limit
        },
        first_doubling(len, candidate, limit, cap) is None && candidate <= cap ==> len / candidate
            > limit,
    decreases
            if candidate > cap {
                0
            } else {
                cap - candidate + 1
            },
{
    if candidate <= cap && len / candidate > limit {
        doubling_is_the_first(len, 2 * candidate, limit, cap);
    }
}

/// Two factors of a power of two from 64 on: the larger comes first, and it is 64 at least.
/// The smaller one is 64 at least too, unless the larger one had to give way to 64.
pub proof fn balanced_pairs_put_the_larger_first(first: usize, second: usize)
    ensures
        ({
            let (larger, smaller) = balanced_pair(first, second);
            &&& larger >= smaller
            &&& larger >= 64
            &&& second >= 64 ==> (larger == first && smaller == second) || (larger == second
                && smaller == first)
            &&& second < 64 ==> larger == 64 || smaller == 64
        }),
{
}

/// The two uploads of a power of two put the larger factor first, except that NVIDIA devices
/// search divisors of long axes, the smaller one up to the square root.
pub proof fn power_pairs_put_the_larger_first(
    len: usize,
    shared: usize,
    strided: usize,
    half_bandwidth: usize,
    register_boost: usize,
    unit_stride: bool,
    device: DeviceProfile,
)
    ensures
        power_two_upload_split(
            len,
            shared,
            strided,
            half_bandwidth,
            register_boost,
            unit_stride,
            device,
        ) matches Ok(split) ==> {
            &&& split.len() == 2
            &&& device.vendor != GpuVendor::Nvidia || len <= 262_144 ==> split[0] >= split[1]
                && split[0] >= 64
            &&& device.vendor == GpuVendor::Nvidia && len > 262_144 ==> {
                &&& split[1] <= strided
                &&& split[0] <= if unit_stride {
                    shared
                } else {
                    half_bandwidth
                }
                &&& split[1] <= ceil_sqrt_spec(len)->Ok_0
            }
        },
{
    sqrt_splits_take_the_greatest_divisor(
        len,
        strided,
        if unit_stride {
            shared
        } else {
            half_bandwidth
        },
    );
}

/// Whether some factor of a split is a multiple of a divisor.
pub open spec fn has_multiple(split: Seq<usize>, divisor: int) -> bool {
    exists|i: int| 0 <= i < split.len() && #[trigger] split[i] as int % divisor == 0
}

proof fn first_multiple_is_found(split: Seq<usize>, divisor: int, from: int)
    requires
        0 <= from,
    ensures
        match first_multiple(split, divisor, from) {
            Some(index) => from <= index < split.len() && split[index] as int % divisor == 0,
            None => forall|i: int|
                from <= i < split.len() ==> #[trigger] split[i] as int % divisor != 0,
        },
    decreases split.len() - from,
{
    if from < split.len() {
        first_multiple_is_found(split, divisor, from + 1);
    }
}

proof fn preferring_moves_one_forward(split: Seq<usize>, divisor: int)
    ensures
        ({
            let moved = prefer_multiple(split, divisor);
            &&& moved.len() == split.len()
            &&& moved.to_multiset() == split.to_multiset()
            &&& has_multiple(split, divisor) ==> moved[0] as int % divisor == 0
            &&& !has_multiple(split, divisor) ==> moved == split
        }),
{
    first_multiple_is_found(split, divisor, 0);
    let moved = prefer_multiple(split, divisor);
    if split.len() > 0 && split[0] as int % divisor != 0 && first_multiple(
        split,
        divisor,
        0,
    ) is Some {
        let index = first_multiple(split, divisor, 0)->Some_0;
        let front = split.update(0, split[index]);
        vstd::seq_lib::to_multiset_update(split, 0, split[index]);
        vstd::seq_lib::to_multiset_update(front, index, split[0]);
        split.to_multiset_ensures();
        assert(split.to_multiset().count(split[0]) > 0);
        assert(moved.to_multiset() =~= split.to_multiset());
    }
}

proof fn same_factors_same_multiples(a: Seq<usize>, b: Seq<usize>, divisor: int)
    requires
        a.to_multiset() == b.to_multiset(),
    ensures
        has_multiple(a, divisor) == has_multiple(b, divisor),
{
    a.to_multiset_ensures();
    b.to_multiset_ensures();
    if has_multiple(a, divisor) {
        let i = choose|i: int| 0 <= i < a.len() && #[trigger] a[i] as int % divisor == 0;
        assert(a.contains(a[i]));
        assert(a.to_multiset().count(a[i]) > 0);
        assert(b.to_multiset().count(a[i]) > 0);
        assert(b.contains(a[i]));
        let j = choose|j: int| 0 <= j < b.len() && b[j] == a[i];
        assert(b[j] as int % divisor == 0);
    }
    if has_multiple(b, divisor) {
        let i = choose|i: int| 0 <= i < b.len() && #[trigger] b[i] as int % divisor == 0;
        assert(b.contains(b[i]));
        assert(b.to_multiset().count(b[i]) > 0);
        assert(a.to_multiset().count(b[i]) > 0);
        assert(a.contains(b[i]));
        let j = choose|j: int| 0 <= j < a.len() && a[j] == b[i];
        assert(a[j] as int % divisor == 0);
    }
}

/// The order of a split keeps its factors. A multiple of 8 comes first where there is one,
/// else a multiple of 4, else a multiple of 2.
pub proof fn ordered_splits_lead_with_a_power_of_two(split: Seq<usize>)
    ensures
        ({
            let ordered = four_step_order(split);
            &&& ordered.len() == split.len()
            &&& ordered.to_multiset() == split.to_multiset()
            &&& has_multiple(split, 8) ==> ordered[0] % 8 == 0
            &&& !has_multiple(split, 8) && has_multiple(split, 4) ==> ordered[0] % 4 == 0
            &&& !has_multiple(split, 4) && has_multiple(split, 2) ==> ordered[0] % 2 == 0
            &&& !has_multiple(split, 2) ==> ordered == split
        }),
{
    let first = prefer_multiple(split, 2);
    let second = prefer_multiple(first, 4);
    preferring_moves_one_forward(split, 2);
    preferring_moves_one_forward(first, 4);
    preferring_moves_one_forward(second, 8);
    same_factors_same_multiples(split, first, 4);
    same_factors_same_multiples(split, second, 8);
    if has_multiple(split, 8) {
        let i = choose|i: int| 0 <= i < split.len() && #[trigger] split[i] as int % 8 == 0;
        assert(split[i] as int % 4 == 0);
    }
    if has_multiple(split, 4) {
        let i = choose|i: int| 0 <= i < split.len() && #[trigger] split[i] as int % 4 == 0;
        assert(split[i] as int % 2 == 0);
    }
}


/// The first factor of two uploads that reads with unit stride. The greatest power of eight
/// within shared memory is taken where it leaves a second factor within strided memory, else
/// all of shared memory where that does. Else registers are boosted: by the first doubling
/// that does where the full boost leaves less than one upload at half bandwidth, else in full.
pub proof fn unit_first_factors_leave_a_strided_rest(
    len: usize,
    shared: usize,
    strided: usize,
    half_bandwidth: usize,
    register_boost: usize,
)
    requires
        shared >= 1,
        register_boost >= 1,
    ensures
        two_upload_first(len, shared, strided, half_bandwidth, register_boost, true) matches Ok(
            first,
        ) ==> {
            let eight = pow8_at_most(shared as int);
            &&& first >= 1
            &&& len as int / eight <= strided ==> first == eight
            &&& len as int / eight > strided && len as int / shared as int <= strided ==> first
                == shared
            &&& len as int / shared as int <= strided ==> first <= shared && len as int
                / first as int <= strided
            &&& len as int / eight > strided && len as int / shared as int > strided ==> {
                let boosted = shared * register_boost;
                ||| first == boosted
                ||| {
                    &&& 2 * shared <= first <= boosted
                    &&& len as int / first as int <= strided
                    &&& len as int / boosted < half_bandwidth
                    &&& first > 2 * shared ==> len as int / (first as int / 2) > strided
                }
            }
        },
{
    pow8_at_most_bounds(shared as int);
    let boosted = shared * register_boost;
    assert(boosted >= 1) by (nonlinear_arith)
        requires
            boosted == shared * register_boost,
            shared >= 1,
            register_boost >= 1,
    ;
    doubling_is_the_first(len as int, 2 * shared, strided as int, boosted);
}

/// The first factor of two strided uploads: the greatest power of eight within strided
/// memory, 512 at most, where it leaves a second factor within it; else all of strided
/// memory where that leaves less than one upload at half bandwidth, else that capacity.
pub proof fn strided_first_factors_leave_a_strided_rest(
    len: usize,
    shared: usize,
    strided: usize,
    half_bandwidth: usize,
    register_boost: usize,
)
    requires
        strided >= 1,
    ensures
        two_upload_first(len, shared, strided, half_bandwidth, register_boost, false) matches Ok(
            first,
        ) ==> {
            let eight = pow8_at_most(strided as int);
            let start = if eight < 512 {
                eight
            } else {
                512
            };
            &&& len as int / start <= strided ==> first == start && len as int / first as int
                <= strided
            &&& len as int / start > strided && (len as int / strided as int)
                < half_bandwidth ==> first == strided
            &&& len as int / start > strided && len as int / strided as int
                >= half_bandwidth ==> first == half_bandwidth
        },
{
    pow8_at_most_bounds(strided as int);
}

/// The first of three uploads that reads with unit stride, chosen likewise: it leaves no more
/// than two strided uploads hold where shared memory allows it.
pub proof fn unit_first_factors_leave_two_strided_uploads(
    len: usize,
    shared: usize,
    strided: usize,
    register_boost: usize,
)
    requires
        shared >= 1,
        register_boost >= 1,
    ensures
        three_upload_unit_first(len, shared, strided, register_boost) matches Ok(first) ==> {
            let eight = pow8_at_most(shared as int);
            let square = strided * strided;
            &&& first >= 1
            &&& len as int / eight <= square ==> first == eight
            &&& len as int / eight > square && len as int / shared as int <= square ==> first
                == shared
            &&& len as int / shared as int <= square ==> first <= shared && len as int
                / first as int <= square
            &&& len as int / (shared * register_boost) <= square ==> len as int / first as int
                <= square && first <= shared * register_boost
        },
{
    pow8_at_most_bounds(shared as int);
    let boosted = shared * register_boost;
    let square = strided * strided;
    assert(boosted >= shared) by (nonlinear_arith)
        requires
            boosted == shared * register_boost,
            shared >= 1,
            register_boost >= 1,
    ;
    doubling_is_the_first(len as int, shared as int, square, boosted);
}

/// The first of three strided uploads: a power of eight of what 128-byte transactions hold,
/// or two or four of it, where that leaves what the others hold; else the first doubling of
/// what such transactions hold that does.
pub proof fn strided_first_factors_leave_two_strided_uploads(
    len: usize,
    shared_bytes: usize,
    strided: usize,
    half_bandwidth: usize,
)
    requires
        shared_bytes >= 128,
        strided >= 1,
    ensures
        three_upload_strided_first(len, shared_bytes, strided, half_bandwidth) matches Ok(first)
            ==> {
            let wide = shared_bytes as int / 128;
            let eight = pow8_at_most(wide);
            let capacity = pow8_at_most(strided as int) * strided;
            &&& len as int / eight <= capacity ==> first == eight
            &&& len as int / eight > capacity && 2 * eight <= wide && len as int / (2 * eight)
                <= capacity ==> first == 2 * eight
            &&& len as int / eight > capacity && !(2 * eight <= wide && len as int / (2 * eight)
                <= capacity) && 4 * eight <= wide && len as int / (4 * eight) <= capacity
                ==> first == 4 * eight
            &&& first == half_bandwidth || first == strided || (first >= 1 && (len as int
                / first as int <= capacity || len as int / first as int <= strided * strided))
        },
{
    pow8_at_most_bounds(strided as int);
    let wide = shared_bytes as int / 128;
    pow8_at_most_bounds(wide);
    let square = strided * strided;
    doubling_is_the_first(
        len as int,
        wide,
        square,
        umax(strided, wide as usize) as int,
    );
}

/// The other two of three uploads put the larger factor first. What is less than a power of
/// eight of strided memory is split around its square root by powers of two.
pub proof fn three_upload_rests_put_the_larger_first(rest: usize, strided: usize)
    requires
        rest >= 1,
        strided >= 1,
    ensures
        ({
            let (second, third) = three_upload_rest(rest, strided);
            let eight = pow8_at_most(strided as int);
            &&& second >= third
            &&& rest < eight ==> {
                let root = pow2_sqrt(rest as int);
                &&& second == root || third == root
                &&& root * root <= rest
                &&& rest < (2 * root) * (2 * root)
            }
        }),
{
    pow8_at_most_bounds(strided as int);
    pow2_sqrt_is_bracketed(rest as int);
    crate::splits::pow2_sqrt_bounds(rest as int);
}


/// The three uploads of a power of two put the larger of the later factors first, except that
/// NVIDIA devices search divisors of axes beyond `2^18`, every factor within its memory.
pub proof fn power_triples_follow_the_vendor(
    len: usize,
    shared_bytes: usize,
    shared: usize,
    strided: usize,
    half_bandwidth: usize,
    register_boost: usize,
    unit_stride: bool,
    device: DeviceProfile,
)
    ensures
        power_of_two_three_split(
            len,
            shared_bytes,
            shared,
            strided,
            half_bandwidth,
            register_boost,
            unit_stride,
            device,
        ) matches Ok(split) ==> {
            &&& split.len() == 3
            &&& device.vendor != GpuVendor::Nvidia || len <= 262_144 ==> split[1] >= split[2]
                && split[0] * split[1] * split[2] == len && shared_bytes >= 128
            &&& device.vendor == GpuVendor::Nvidia && len > 262_144 ==> {
                &&& split[0] <= if unit_stride {
                    shared
                } else {
                    half_bandwidth
                }
                &&& split[1] <= strided && split[2] <= strided
            }
        },
{
    unit_stride_split_is_exact(len, shared, strided);
    cuberoot_split_is_exact(
        len,
        strided,
        half_bandwidth,
        true,
        "GPU scheduler could not find a three-upload power-of-two divisor split",
    );
    let planned = power_of_two_three_split(
        len,
        shared_bytes,
        shared,
        strided,
        half_bandwidth,
        register_boost,
        unit_stride,
        device,
    );
    if planned is Ok && (device.vendor != GpuVendor::Nvidia || len <= 262_144) {
        let first = planned->Ok_0[0];
        let rest = (len / first) as usize;
        if rest >= 1 {
            three_upload_rests_put_the_larger_first(rest, strided);
        } else {
            pow8_at_most_bounds(strided as int);
        }
    }
}

} // verus!
