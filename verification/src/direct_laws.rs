//! How the lanes of direct primes are counted: the rounds that a prime's containers take,
//! the lanes of the widest prime, and whole lane groups of each.

use vstd::prelude::*;

use crate::arith::{ceil_div, half_up, umax, umin};
use crate::axis_block::quotient;
use crate::config::DeviceProfile;
use crate::direct_rader::{
    axis0_direct_lane_estimate, axis0_operations, axis0_scaled_floor, dimension_limit,
    direct_floor_threads, direct_lane_estimate, direct_pressure_from, direct_threads_from_split,
    double_double_direct_base, double_double_direct_split, double_double_other_axis_direct_threads,
    kept_active_containers, rounded_direct_from, scale_attempt, scale_suffices, scaled_floor,
    scaled_floor_fits, scaled_floor_from, threads_from_split, widest_prime_from, EstimateOperations,
    RaderSplitModel,
};
use crate::group_laws::{lanes_cover_tightly, product_grows};
use crate::memory_laws::lanes_cover;

verus! {

/// Lanes that convolve one container of a direct prime: half the prime, rounded up.
pub open spec fn lane_group(prime: usize) -> int {
    (prime + 1) / 2
}

/// How a lane estimate counts: `rounds` are the fewest that give every value a register,
/// `needed` the fewest containers per lane group that these rounds ask for, and `active` one
/// less of them only where the last round would be at most half full and the wider workgroup
/// still fits. The estimate is the fewest whole lane groups that take all containers at
/// `active` each.
pub open spec fn estimate_counts(
    sequence_len: usize,
    prime: usize,
    registers: usize,
    max_batch_coalesced: usize,
    thread_limit: usize,
    estimate: usize,
    rounds: int,
    needed: int,
    active: int,
    wider: int,
) -> bool {
    let group = lane_group(prime);
    let containers = sequence_len as int / prime as int;
    let groups = estimate as int / group;
    &&& estimate == groups * group
    &&& lanes_cover(rounds, registers * group, sequence_len as int)
    &&& lanes_cover(needed, rounds, containers)
    &&& lanes_cover(groups, active, containers)
    &&& needed > 1 ==> lanes_cover(wider, needed - 1, containers)
    &&& active == if needed > 1 && 2 * (needed * rounds - containers) >= rounds && (wider * group)
        * max_batch_coalesced <= thread_limit {
        needed - 1
    } else {
        needed
    }
}

/// Every lane estimate of a direct prime is counted as [`estimate_counts`] says, and comes
/// only of a prime that divides the length and whose lanes fit the workgroup.
pub proof fn estimates_count_rounds(
    sequence_len: usize,
    prime: usize,
    registers: usize,
    max_batch_coalesced: usize,
    thread_limit: usize,
    operations: EstimateOperations,
)
    requires
        sequence_len >= 1,
    ensures
        direct_lane_estimate(
            sequence_len,
            prime,
            registers,
            max_batch_coalesced,
            thread_limit,
            operations,
        ) matches Ok(Some(estimate)) ==> {
            &&& prime >= 3
            &&& sequence_len % prime == 0
            &&& lane_group(prime) * max_batch_coalesced <= thread_limit
            &&& exists|rounds: int, needed: int, active: int, wider: int| #[trigger]
                estimate_counts(
                    sequence_len,
                    prime,
                    registers,
                    max_batch_coalesced,
                    thread_limit,
                    estimate,
                    rounds,
                    needed,
                    active,
                    wider,
                )
        },
{
    reveal(direct_lane_estimate);
    let planned = direct_lane_estimate(
        sequence_len,
        prime,
        registers,
        max_batch_coalesced,
        thread_limit,
        operations,
    );
    if planned is Ok && planned->Ok_0 is Some {
        let estimate = planned->Ok_0->Some_0;
        let group = half_up(prime);
        let containers = quotient(sequence_len, prime);
        assert(containers >= 1) by {
            vstd::arithmetic::div_mod::lemma_fundamental_div_mod(
                sequence_len as int,
                prime as int,
            );
            if containers == 0 {
                assert(prime * 0 == 0) by (nonlinear_arith);
            }
        }
        let denominator = (registers * group) as usize;
        lanes_cover_tightly(sequence_len, denominator);
        let rounds = ceil_div(sequence_len, denominator)->Ok_0;
        lanes_cover_tightly(containers, rounds);
        let needed = ceil_div(containers, rounds)->Ok_0;
        let active = kept_active_containers(
            needed,
            rounds,
            containers,
            group,
            max_batch_coalesced,
            thread_limit,
            operations,
        )->Ok_0;
        lanes_cover_tightly(containers, active);
        let groups = ceil_div(containers, active)->Ok_0;
        let wider = if needed > 1 {
            ceil_div(containers, (needed - 1) as usize)->Ok_0
        } else {
            0
        };
        if needed > 1 {
            lanes_cover_tightly(containers, (needed - 1) as usize);
        }
        vstd::arithmetic::div_mod::lemma_div_multiples_vanish(groups as int, group as int);
        assert(group * groups == groups * group) by (nonlinear_arith);
        assert(estimate_counts(
            sequence_len,
            prime,
            registers,
            max_batch_coalesced,
            thread_limit,
            estimate,
            rounds as int,
            needed as int,
            active as int,
            wider as int,
        ));
    }
}

/// The pressure of several direct primes is the most of the lanes that are there anyway and
/// those of each prime, over all transforms of a workgroup.
pub proof fn pressure_is_the_most(
    sequence_len: usize,
    primes: Seq<(usize, usize)>,
    registers: usize,
    max_batch_coalesced: usize,
    thread_limit: usize,
    operations: EstimateOperations,
    ordinary: usize,
    from: int,
)
    requires
        0 <= from <= primes.len(),
    ensures
        direct_pressure_from(
            sequence_len,
            primes,
            registers,
            max_batch_coalesced,
            thread_limit,
            operations,
            ordinary,
            from,
        ) matches Ok(Some(pressure)) ==> {
            &&& ordinary <= pressure
            &&& forall|i: int|
                from <= i < primes.len() ==> {
                    let planned = direct_lane_estimate(
                        sequence_len,
                        (#[trigger] primes[i]).0,
                        registers,
                        max_batch_coalesced,
                        thread_limit,
                        operations,
                    );
                    &&& primes[i].1 > 0
                    &&& planned is Ok && planned->Ok_0 is Some
                    &&& planned->Ok_0->Some_0 * max_batch_coalesced <= pressure
                }
            &&& pressure == ordinary || exists|i: int|
                from <= i < primes.len() && direct_lane_estimate(
                    sequence_len,
                    (#[trigger] primes[i]).0,
                    registers,
                    max_batch_coalesced,
                    thread_limit,
                    operations,
                )->Ok_0->Some_0 * max_batch_coalesced == pressure
        },
    decreases primes.len() - from,
{
    if from < primes.len() {
        let planned = direct_lane_estimate(
            sequence_len,
            primes[from].0,
            registers,
            max_batch_coalesced,
            thread_limit,
            operations,
        );
        if primes[from].1 != 0 && planned is Ok && planned->Ok_0 is Some {
            let total = planned->Ok_0->Some_0 * max_batch_coalesced;
            if total <= usize::MAX {
                pressure_is_the_most(
                    sequence_len,
                    primes,
                    registers,
                    max_batch_coalesced,
                    thread_limit,
                    operations,
                    umax(ordinary, total as usize),
                    from + 1,
                );
                let rest = direct_pressure_from(
                    sequence_len,
                    primes,
                    registers,
                    max_batch_coalesced,
                    thread_limit,
                    operations,
                    umax(ordinary, total as usize),
                    from + 1,
                );
                if rest is Ok && rest->Ok_0 is Some && rest->Ok_0->Some_0 == total {
                    assert(direct_lane_estimate(
                        sequence_len,
                        primes[from].0,
                        registers,
                        max_batch_coalesced,
                        thread_limit,
                        operations,
                    )->Ok_0->Some_0 * max_batch_coalesced == total);
                }
            }
        }
    }
}

/// The lanes of one transform over several direct primes are the most of the lanes that are
/// there anyway and those of each prime.
pub proof fn widest_prime_is_the_most(
    sequence_len: usize,
    primes: Seq<(usize, usize)>,
    registers: usize,
    max_batch_coalesced: usize,
    thread_limit: usize,
    ordinary: usize,
    from: int,
)
    requires
        0 <= from <= primes.len(),
    ensures
        widest_prime_from(
            sequence_len,
            primes,
            registers,
            max_batch_coalesced,
            thread_limit,
            ordinary,
            from,
        ) matches Ok(Some(widest)) ==> {
            &&& ordinary <= widest
            &&& forall|i: int|
                from <= i < primes.len() ==> {
                    let planned = axis0_direct_lane_estimate(
                        sequence_len,
                        (#[trigger] primes[i]).0,
                        registers,
                        max_batch_coalesced,
                        thread_limit,
                    );
                    &&& planned is Ok && planned->Ok_0 is Some
                    &&& planned->Ok_0->Some_0 <= widest
                }
            &&& widest == ordinary || exists|i: int|
                from <= i < primes.len() && axis0_direct_lane_estimate(
                    sequence_len,
                    (#[trigger] primes[i]).0,
                    registers,
                    max_batch_coalesced,
                    thread_limit,
                )->Ok_0->Some_0 == widest
        },
    decreases primes.len() - from,
{
    if from < primes.len() {
        let planned = axis0_direct_lane_estimate(
            sequence_len,
            primes[from].0,
            registers,
            max_batch_coalesced,
            thread_limit,
        );
        if planned is Ok && planned->Ok_0 is Some {
            let estimate = planned->Ok_0->Some_0;
            widest_prime_is_the_most(
                sequence_len,
                primes,
                registers,
                max_batch_coalesced,
                thread_limit,
                umax(ordinary, estimate),
                from + 1,
            );
            let rest = widest_prime_from(
                sequence_len,
                primes,
                registers,
                max_batch_coalesced,
                thread_limit,
                umax(ordinary, estimate),
                from + 1,
            );
            if rest is Ok && rest->Ok_0 is Some && rest->Ok_0->Some_0 == estimate {
                assert(axis0_direct_lane_estimate(
                    sequence_len,
                    primes[from].0,
                    registers,
                    max_batch_coalesced,
                    thread_limit,
                )->Ok_0->Some_0 == estimate);
            }
        }
    }
}

/// The lanes of a split transform hold, for each direct prime, its estimate and the fewest
/// whole lane groups that take the ordinary lanes; and they are the most of these.
pub proof fn split_lanes_are_whole_groups(
    sequence_len: usize,
    primes: Seq<(usize, usize)>,
    base_axis_threads: usize,
    registers: usize,
    max_batch_coalesced: usize,
    thread_limit: usize,
    operation: &'static str,
    most: usize,
    from: int,
)
    requires
        0 <= from <= primes.len(),
        base_axis_threads >= 1,
    ensures
        rounded_direct_from(
            sequence_len,
            primes,
            base_axis_threads,
            registers,
            max_batch_coalesced,
            thread_limit,
            operation,
            most,
            from,
        ) matches Ok(Some(lanes)) ==> {
            &&& most <= lanes
            &&& forall|i: int|
                from <= i < primes.len() ==> {
                    let planned = axis0_direct_lane_estimate(
                        sequence_len,
                        (#[trigger] primes[i]).0,
                        registers,
                        max_batch_coalesced,
                        thread_limit,
                    );
                    &&& planned is Ok && planned->Ok_0 is Some
                    &&& planned->Ok_0->Some_0 <= lanes
                    &&& exists|groups: int| #[trigger]
                        lanes_cover(groups, lane_group(primes[i].0), base_axis_threads as int)
                            && groups * lane_group(primes[i].0) <= lanes
                }
            &&& lanes == most || exists|i: int, groups: int|
                from <= i < primes.len() && #[trigger] lanes_cover(
                    groups,
                    lane_group(primes[i].0),
                    base_axis_threads as int,
                ) && (lanes == groups * lane_group(primes[i].0) || lanes
                    == axis0_direct_lane_estimate(
                    sequence_len,
                    primes[i].0,
                    registers,
                    max_batch_coalesced,
                    thread_limit,
                )->Ok_0->Some_0)
        },
    decreases primes.len() - from,
{
    if from < primes.len() {
        let planned = axis0_direct_lane_estimate(
            sequence_len,
            primes[from].0,
            registers,
            max_batch_coalesced,
            thread_limit,
        );
        let group = half_up(primes[from].0);
        if primes[from].1 != 0 && planned is Ok && planned->Ok_0 is Some && ceil_div(
            base_axis_threads,
            group,
        ) is Ok {
            let estimate = planned->Ok_0->Some_0;
            let groups = ceil_div(base_axis_threads, group)->Ok_0;
            lanes_cover_tightly(base_axis_threads, group);
            if groups * group <= usize::MAX {
                let rounded = (groups * group) as usize;
                split_lanes_are_whole_groups(
                    sequence_len,
                    primes,
                    base_axis_threads,
                    registers,
                    max_batch_coalesced,
                    thread_limit,
                    operation,
                    umax(umax(most, estimate), rounded),
                    from + 1,
                );
                assert(lanes_cover(
                    groups as int,
                    lane_group(primes[from].0),
                    base_axis_threads as int,
                ));
            }
        }
    }
}

/// The lanes of a split transform fit the workgroup. They are at least those of its
/// convolutions by transforms and those of its direct primes, unless the workgroup ends
/// there.
pub proof fn split_lanes_hold_every_prime(
    sequence_len: usize,
    state: RaderSplitModel,
    max_batch_coalesced: usize,
    thread_limit: usize,
)
    ensures
        threads_from_split(sequence_len, state, max_batch_coalesced, thread_limit) matches Ok(
            Some(threads),
        ) ==> {
            let direct = direct_threads_from_split(
                sequence_len,
                state,
                max_batch_coalesced,
                thread_limit,
            );
            &&& 1 <= threads <= thread_limit
            &&& threads >= state.min_rader_fft_thread_num || threads == thread_limit
            &&& direct is Ok
            &&& direct->Ok_0 is Some ==> direct->Ok_0->Some_0 <= threads
            &&& threads > 1 ==> threads == thread_limit || threads
                == state.min_rader_fft_thread_num || (direct->Ok_0 is Some
                && direct->Ok_0->Some_0 == threads)
            &&& direct->Ok_0 is Some ==> state.direct_prime_multiplicities.len() > 0
        },
{
    reveal(threads_from_split);
    reveal(direct_threads_from_split);
}


/// The lanes of a register floor are the pressure at its count, and one at least.
proof fn floor_lanes_are_the_pressure(
    sequence_len: usize,
    primes: Seq<(usize, usize)>,
    doubling_base: usize,
    pressure_base: usize,
    max_batch_coalesced: usize,
    thread_limit: usize,
    operations: EstimateOperations,
    scale: int,
)
    ensures
        scaled_floor_from(
            sequence_len,
            primes,
            doubling_base,
            pressure_base,
            max_batch_coalesced,
            thread_limit,
            operations,
            scale,
        ) matches Ok(Some((registers, lanes))) ==> {
            let pressure = direct_pressure_from(
                sequence_len,
                primes,
                registers,
                max_batch_coalesced,
                thread_limit,
                operations,
                (quotient(sequence_len, registers) * max_batch_coalesced) as usize,
                0,
            );
            &&& pressure is Ok && pressure->Ok_0 is Some
            &&& lanes == umax(pressure->Ok_0->Some_0, 1)
            &&& scale_suffices(
                sequence_len,
                pressure_base,
                registers,
                pressure->Ok_0->Some_0,
                thread_limit,
            )
            &&& registers % 2 == 0
        },
    decreases sequence_len - scale,
{
    reveal(scale_attempt);
    if scale < sequence_len {
        floor_lanes_are_the_pressure(
            sequence_len,
            primes,
            doubling_base,
            pressure_base,
            max_batch_coalesced,
            thread_limit,
            operations,
            scale + 1,
        );
    }
}

/// The register floor that direct primes share: an even count, with lanes that fit the
/// workgroup and hold all transforms of it at that count and every prime's estimate, and no
/// more. More than four registers are taken wherever more than 256 lanes are called for.
pub proof fn shared_floors_hold_every_prime(
    sequence_len: usize,
    primes: Seq<(usize, usize)>,
    doubling_base: usize,
    pressure_base: usize,
    max_batch_coalesced: usize,
    thread_limit: usize,
    operations: EstimateOperations,
)
    ensures
        scaled_floor(
            sequence_len,
            primes,
            doubling_base,
            pressure_base,
            max_batch_coalesced,
            thread_limit,
            operations,
        ) matches Ok(Some((registers, lanes))) ==> {
            &&& registers >= 2 && registers % 2 == 0
            &&& 1 <= lanes <= thread_limit
            &&& (sequence_len as int / registers as int) * max_batch_coalesced <= lanes
            &&& forall|i: int|
                0 <= i < primes.len() ==> {
                    let planned = direct_lane_estimate(
                        sequence_len,
                        (#[trigger] primes[i]).0,
                        registers,
                        max_batch_coalesced,
                        thread_limit,
                        operations,
                    );
                    &&& primes[i].1 > 0
                    &&& planned is Ok && planned->Ok_0 is Some
                    &&& planned->Ok_0->Some_0 * max_batch_coalesced <= lanes
                }
            &&& lanes > 256 || (pressure_base > 0 && sequence_len as int / pressure_base as int
                > 256) ==> registers > 4
            &&& lanes == 1 || lanes == (sequence_len as int / registers as int)
                * max_batch_coalesced || exists|i: int|
                0 <= i < primes.len() && direct_lane_estimate(
                    sequence_len,
                    (#[trigger] primes[i]).0,
                    registers,
                    max_batch_coalesced,
                    thread_limit,
                    operations,
                )->Ok_0->Some_0 * max_batch_coalesced == lanes
        },
{
    let planned = scaled_floor(
        sequence_len,
        primes,
        doubling_base,
        pressure_base,
        max_batch_coalesced,
        thread_limit,
        operations,
    );
    if planned is Ok && planned->Ok_0 is Some {
        let (registers, lanes) = planned->Ok_0->Some_0;
        scaled_floor_fits(
            sequence_len,
            primes,
            doubling_base,
            pressure_base,
            max_batch_coalesced,
            thread_limit,
            operations,
        );
        floor_lanes_are_the_pressure(
            sequence_len,
            primes,
            doubling_base,
            pressure_base,
            max_batch_coalesced,
            thread_limit,
            operations,
            0,
        );
        let ordinary = (quotient(sequence_len, registers) * max_batch_coalesced) as usize;
        pressure_is_the_most(
            sequence_len,
            primes,
            registers,
            max_batch_coalesced,
            thread_limit,
            operations,
            ordinary,
            0,
        );
        reveal(scaled_floor);
    }
}

/// The lanes of a double-double transform along a higher axis: it holds one direct prime
/// once, and has a lane group for every transform of its smooth factor, within the limits.
/// Nothing else is in the way of such lanes.
pub proof fn higher_axis_direct_lanes_are_one_group_each(
    sequence_len: usize,
    primes: Seq<(usize, usize)>,
    batch_count: usize,
    device: DeviceProfile,
)
    ensures
        double_double_other_axis_direct_threads(
            sequence_len,
            primes,
            batch_count,
            device,
        ) matches Ok(planned) ==> {
            let prime = primes[0].0;
            let fits = primes.len() == 1 && primes[0].1 == 1 && prime >= 3 && batch_count >= 1
                && sequence_len >= 2 * prime && sequence_len % prime == 0 && (sequence_len as int
                / prime as int) * lane_group(prime) <= device.max_threads_per_block && (
            sequence_len as int / prime as int) * lane_group(prime)
                <= device.max_workgroup_size[1];
            &&& planned is Some <==> fits
            &&& planned matches Some(threads) ==> threads * prime == sequence_len * lane_group(
                prime,
            )
        },
{
    reveal(double_double_other_axis_direct_threads);
    if primes.len() == 1 {
        let prime = primes[0].0;
        if prime >= 3 {
            let smooth = sequence_len as int / prime as int;
            vstd::arithmetic::div_mod::lemma_fundamental_div_mod(
                sequence_len as int,
                prime as int,
            );
            let group = lane_group(prime);
            if smooth >= 2 {
                product_grows(2, smooth, prime as int);
            } else {
                product_grows(smooth, 1, prime as int);
            }
            assert(smooth >= 1 ==> smooth * group >= 1) by (nonlinear_arith)
                requires
                    group >= 1,
            ;
            if sequence_len % prime == 0 {
                assert((smooth * group) * prime == sequence_len * group) by (nonlinear_arith)
                    requires
                        sequence_len == prime * smooth,
                ;
            }
        }
    }
}

/// The split of a double-double transform whose primes are all direct: its lanes are the
/// fewest that give every value one of the shared register count, no convolution by
/// transforms asks for any, and it carries the primes as they were listed.
pub proof fn direct_splits_cover_the_transform(
    sequence_len: usize,
    primes: Seq<(usize, usize)>,
    batch_count: usize,
    max_batch_coalesced: usize,
    device: DeviceProfile,
)
    ensures
        double_double_direct_split(
            sequence_len,
            primes,
            batch_count,
            max_batch_coalesced,
            device,
        ) matches Ok(Some(state)) ==> {
            &&& lanes_cover(
                state.base_axis_threads as int,
                state.rader_min_registers as int,
                sequence_len as int,
            )
            &&& state.rader_min_registers >= 2 && state.rader_min_registers % 2 == 0
            &&& state.min_rader_fft_thread_num == 0
            &&& state.direct_prime_multiplicities == primes
        },
{
    reveal(double_double_direct_split);
    let planned = double_double_direct_split(
        sequence_len,
        primes,
        batch_count,
        max_batch_coalesced,
        device,
    );
    if planned is Ok && planned->Ok_0 is Some {
        let state = planned->Ok_0->Some_0;
        let limit = dimension_limit(device, device.max_workgroup_size[0]);
        let least = double_double_direct_base(
            sequence_len,
            primes,
            batch_count,
            limit,
            "double-double direct-Rader split-state prime-power product",
            "double-double direct-Rader split-state total elements",
        )->Ok_0->Some_0;
        let base = umin(least, 2);
        shared_floors_hold_every_prime(
            sequence_len,
            primes,
            base,
            base,
            max_batch_coalesced,
            limit,
            axis0_operations(),
        );
        lanes_cover_tightly(sequence_len, state.rader_min_registers);
    }
}


/// Whether lanes hold a transform at a register count, rounded down, and the estimate of
/// every direct prime at it.
pub open spec fn holds_every_prime(
    sequence_len: usize,
    primes: Seq<(usize, usize)>,
    registers: usize,
    max_batch_coalesced: usize,
    thread_limit: usize,
    threads: usize,
) -> bool {
    &&& registers >= 2 && registers % 2 == 0
    &&& sequence_len as int / registers as int <= threads
    &&& forall|i: int|
        0 <= i < primes.len() ==> {
            let planned = axis0_direct_lane_estimate(
                sequence_len,
                (#[trigger] primes[i]).0,
                registers,
                max_batch_coalesced,
                thread_limit,
            );
            &&& planned is Ok && planned->Ok_0 is Some
            &&& planned->Ok_0->Some_0 <= threads
        }
}

/// The lanes that direct primes take from their shared register floor hold the transform and
/// every prime at that count.
pub proof fn floor_threads_hold_every_prime(
    sequence_len: usize,
    primes: Seq<(usize, usize)>,
    base_min_registers: usize,
    max_batch_coalesced: usize,
    thread_limit: usize,
)
    ensures
        direct_floor_threads(
            sequence_len,
            primes,
            base_min_registers,
            max_batch_coalesced,
            thread_limit,
        ) matches Ok(Some(threads)) ==> threads >= 1 && exists|registers: usize| #[trigger]
            holds_every_prime(
                sequence_len,
                primes,
                registers,
                max_batch_coalesced,
                thread_limit,
                threads,
            ),
{
    reveal(direct_floor_threads);
    let planned = direct_floor_threads(
        sequence_len,
        primes,
        base_min_registers,
        max_batch_coalesced,
        thread_limit,
    );
    if planned is Ok && planned->Ok_0 is Some {
        let threads = planned->Ok_0->Some_0;
        let base = umin(base_min_registers, 2);
        let (registers, lanes) = axis0_scaled_floor(
            sequence_len,
            primes,
            base,
            max_batch_coalesced,
            thread_limit,
        )->Ok_0->Some_0;
        shared_floors_hold_every_prime(
            sequence_len,
            primes,
            base,
            base,
            max_batch_coalesced,
            thread_limit,
            axis0_operations(),
        );
        widest_prime_is_the_most(
            sequence_len,
            primes,
            registers,
            max_batch_coalesced,
            thread_limit,
            quotient(sequence_len, registers),
            0,
        );
        assert(holds_every_prime(
            sequence_len,
            primes,
            registers,
            max_batch_coalesced,
            thread_limit,
            threads,
        ));
    }
}

} // verus!
