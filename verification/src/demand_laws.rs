//! What a transform with Rader primes asks for: one container per prime, registers and lanes
//! for every stage at any depth, and lanes that give every value a register.

use vstd::prelude::*;

use crate::arith::{ceil_div, umax, umin};
use crate::axis_block::quotient;
use crate::config::{DeviceProfile, PlannerTuning};
use crate::direct_laws::{lane_group, split_lanes_are_whole_groups};
use crate::direct_rader::{axis0_direct_lane_estimate, dimension_limit, prime_power};
use crate::group_laws::{lanes_cover_tightly, product_grows};
use crate::memory_laws::lanes_cover;
use crate::rader_containers::{built_container, MultiFftRaderContainerKind, RaderContainerModel};
use crate::rader_parents::{
    fft_parent_of_family, fft_prime_admissible, mixed_family, mixed_split, mixed_threads_in_pass,
    prime_containers, prime_containers_from, ParentFamily,
};
use crate::rader_tables::optimized_radices;
use crate::rader_tree::{container_pressure, containers_pressure_from, stage_pressure};
use crate::registers::VKFFT_RADIX_TABLE_LEN;
use crate::scaling_laws::stage_pressure_spans_the_stages;

verus! {

/// Whether a container convolves a prime of a transform by transforms: as many at once as
/// the transform holds of the prime.
pub open spec fn container_of_prime(
    container: RaderContainerModel,
    sequence_len: usize,
    prime: usize,
) -> bool {
    &&& container.kind == MultiFftRaderContainerKind::Fft
    &&& container.prime == prime
    &&& container.container_fft_num * prime == sequence_len
    &&& prime >= 3
}

proof fn containers_follow_the_primes(
    sequence_len: usize,
    direct: Seq<(usize, usize)>,
    primes: Seq<(usize, usize)>,
    operation: &'static str,
    tuning: PlannerTuning,
    found: Seq<RaderContainerModel>,
    product: usize,
    from: nat,
)
    requires
        from <= primes.len(),
        found.len() == from,
    ensures
        prime_containers_from(
            sequence_len,
            direct,
            primes,
            operation,
            tuning,
            found,
            product,
            from,
        ) matches Ok(Some((list, total))) ==> {
            &&& list.len() == primes.len()
            &&& forall|i: int| 0 <= i < from ==> list[i] == #[trigger] found[i]
            &&& forall|i: int|
                from <= i < primes.len() ==> container_of_prime(
                    #[trigger] list[i],
                    sequence_len,
                    primes[i].0,
                ) && primes[i].1 > 0
            &&& forall|i: int, j: int|
                from <= i < primes.len() && 0 <= j < i ==> (#[trigger] primes[i]).0 != (
                #[trigger] primes[j]).0
            &&& forall|i: int, j: int|
                from <= i < primes.len() && 0 <= j < direct.len() ==> (#[trigger] primes[i]).0 != (
                #[trigger] direct[j]).0
        },
    decreases primes.len() - from,
{
    if from < primes.len() && fft_prime_admissible(sequence_len, direct, primes, from as int) {
        let (prime, multiplicity) = primes[from as int];
        let power = prime_power(prime, multiplicity, operation);
        let built = built_container(prime, quotient(sequence_len, prime), tuning);
        if power is Ok
            && product * power->Ok_0 <= usize::MAX
            && built is Ok
            && built->Ok_0 is Some {
            let container = built->Ok_0->Some_0;
            let next = found.push(container);
            containers_follow_the_primes(
                sequence_len,
                direct,
                primes,
                operation,
                tuning,
                next,
                (product * power->Ok_0) as usize,
                from + 1,
            );
            vstd::arithmetic::div_mod::lemma_fundamental_div_mod(
                sequence_len as int,
                prime as int,
            );
            let count = quotient(sequence_len, prime);
            assert(prime * count == count * prime) by (nonlinear_arith);
            let all = prime_containers_from(
                sequence_len,
                direct,
                primes,
                operation,
                tuning,
                found,
                product,
                from,
            );
            if all is Ok && all->Ok_0 is Some {
                let list = all->Ok_0->Some_0.0;
                assert(list[from as int] == next[from as int]);
                assert forall|i: int| 0 <= i < from implies list[i] == #[trigger] found[i] by {
                    assert(next[i] == found[i]);
                }
            }
        }
    }
}

/// Every prime that is convolved by transforms has one container, in the order of the list,
/// which convolves as many at once as the transform holds. No prime is listed twice or
/// convolved directly too.
pub proof fn every_prime_has_one_container(
    sequence_len: usize,
    direct: Seq<(usize, usize)>,
    primes: Seq<(usize, usize)>,
    operation: &'static str,
    tuning: PlannerTuning,
    direct_product: usize,
)
    ensures
        prime_containers(
            sequence_len,
            direct,
            primes,
            operation,
            tuning,
            direct_product,
        ) matches Ok(Some((list, total))) ==> {
            &&& list.len() == primes.len()
            &&& forall|i: int|
                0 <= i < primes.len() ==> container_of_prime(
                    #[trigger] list[i],
                    sequence_len,
                    primes[i].0,
                ) && primes[i].1 > 0
            &&& forall|i: int, j: int|
                0 <= j < i < primes.len() ==> (#[trigger] primes[i]).0 != (#[trigger] primes[j]).0
            &&& forall|i: int, j: int|
                0 <= i < primes.len() && 0 <= j < direct.len() ==> (#[trigger] primes[i]).0 != (
                #[trigger] direct[j]).0
        },
{
    containers_follow_the_primes(
        sequence_len,
        direct,
        primes,
        operation,
        tuning,
        Seq::empty(),
        direct_product,
        0,
    );
}

/// Whether a register count and a lane count serve every stage of a container: no used stage
/// has fewer registers, and all its convolutions have lanes at once.
pub open spec fn serves_stages(
    container: RaderContainerModel,
    least: usize,
    threads: usize,
) -> bool {
    let (registers, multipliers, _, _) = optimized_radices(
        container.registers_per_thread_per_radix,
        container.stage_radix_multipliers,
    );
    container.kind != MultiFftRaderContainerKind::Direct ==> forall|r: int|
        2 <= r < VKFFT_RADIX_TABLE_LEN && multipliers[r] != 0 && #[trigger] registers[r] != 0 ==> {
            &&& least <= registers[r]
            &&& exists|lanes: int| #[trigger]
                lanes_cover(lanes, registers[r] as int, container.prime - 1)
                    && container.container_fft_num * lanes <= threads
        }
}

/// The same of every container inside it, at any depth.
pub open spec fn serves_container(
    container: RaderContainerModel,
    least: usize,
    threads: usize,
) -> bool
    decreases container,
{
    &&& serves_stages(container, least, threads)
    &&& container.kind != MultiFftRaderContainerKind::Direct ==> forall|i: int|
        0 <= i < container.subcontainers.len() ==> serves_container(
            #[trigger] container.subcontainers[i],
            least,
            threads,
        )
}

/// Fewer registers and more lanes serve what the others do.
proof fn serving_goes_on(
    container: RaderContainerModel,
    least: usize,
    threads: usize,
    fewer: usize,
    more: usize,
)
    requires
        serves_container(container, least, threads),
        fewer <= least,
        threads <= more,
    ensures
        serves_container(container, fewer, more),
    decreases container,
{
    assert(serves_stages(container, fewer, more));
    if container.kind != MultiFftRaderContainerKind::Direct {
        assert forall|i: int| 0 <= i < container.subcontainers.len() implies serves_container(
            #[trigger] container.subcontainers[i],
            fewer,
            more,
        ) by {
            serving_goes_on(container.subcontainers[i], least, threads, fewer, more);
        }
    }
}

/// Whether every container of a list and of those inside it convolves an odd prime.
pub open spec fn odd_primes_only(container: RaderContainerModel) -> bool
    decreases container,
{
    &&& container.prime >= 3
    &&& forall|i: int|
        0 <= i < container.subcontainers.len() ==> odd_primes_only(
            #[trigger] container.subcontainers[i],
        )
}

/// The demand of a container serves all its stages and those of the containers inside it, at
/// any depth, and nothing that was asked for before is given up.
pub proof fn pressure_serves_every_stage(
    container: RaderContainerModel,
    least: usize,
    threads: usize,
)
    requires
        odd_primes_only(container),
    ensures
        container_pressure(container, least, threads) matches Ok((smallest, most)) ==> {
            &&& smallest <= least && most >= threads
            &&& serves_container(container, smallest, most)
        },
    decreases container, 0int,
{
    if container.kind != MultiFftRaderContainerKind::Direct {
        let (registers, multipliers, _, _) = optimized_radices(
            container.registers_per_thread_per_radix,
            container.stage_radix_multipliers,
        );
        let stages = stage_pressure(
            registers,
            multipliers,
            container.container_fft_num,
            container.prime.saturating_sub(1),
            false,
            least,
            threads,
            VKFFT_RADIX_TABLE_LEN - 1,
        );
        stage_pressure_spans_the_stages(
            registers,
            multipliers,
            container.container_fft_num,
            container.prime.saturating_sub(1),
            false,
            least,
            threads,
            VKFFT_RADIX_TABLE_LEN - 1,
        );
        if stages is Ok {
            let (_, smallest, most) = stages->Ok_0;
            list_pressure_serves_every_stage(container.subcontainers, smallest, most, 0);
            if container_pressure(container, least, threads) is Ok {
                let (found, total) = container_pressure(container, least, threads)->Ok_0;
                assert(serves_stages(container, smallest, most));
                assert(serves_stages(container, found, total));
            }
        }
    }
}

/// The same of a list of containers.
pub proof fn list_pressure_serves_every_stage(
    containers: Seq<RaderContainerModel>,
    least: usize,
    threads: usize,
    from: nat,
)
    requires
        forall|i: int|
            0 <= i < containers.len() ==> odd_primes_only(#[trigger] containers[i]),
    ensures
        containers_pressure_from(containers, least, threads, from) matches Ok((smallest, most))
            ==> {
            &&& smallest <= least && most >= threads
            &&& forall|i: int|
                from <= i < containers.len() ==> serves_container(
                    #[trigger] containers[i],
                    smallest,
                    most,
                )
        },
    decreases containers, containers.len() - from,
{
    if from < containers.len() {
        let here = container_pressure(containers[from as int], least, threads);
        pressure_serves_every_stage(containers[from as int], least, threads);
        if here is Ok {
            let (smallest, most) = here->Ok_0;
            list_pressure_serves_every_stage(containers, smallest, most, from + 1);
            let all = containers_pressure_from(containers, least, threads, from);
            if all is Ok {
                serving_goes_on(
                    containers[from as int],
                    smallest,
                    most,
                    all->Ok_0.0,
                    all->Ok_0.1,
                );
            }
        }
    }
}


/// The lanes of a transform whose primes are all convolved by transforms are those that its
/// convolutions need, or the fewest that give every value a register.
pub proof fn fft_parents_take_no_lane_too_many(
    sequence_len: usize,
    primes: Seq<(usize, usize)>,
    batch_count: usize,
    max_batch_coalesced: usize,
    shrink_first_upload_coalescing: bool,
    tuning: PlannerTuning,
    device: DeviceProfile,
    family: ParentFamily,
)
    ensures
        fft_parent_of_family(
            sequence_len,
            primes,
            batch_count,
            max_batch_coalesced,
            shrink_first_upload_coalescing,
            tuning,
            device,
            family,
        ) matches Ok(Some(schedule)) ==> {
            let threads = schedule.threads_per_transform;
            &&& threads == schedule.min_rader_fft_thread_num || lanes_cover(
                threads as int,
                schedule.final_min_registers as int,
                sequence_len as int,
            )
            &&& threads * schedule.final_min_registers >= sequence_len
            &&& schedule.final_min_registers >= 1
            &&& schedule.global_scale_registers_num >= 1
        },
{
    reveal(fft_parent_of_family);
    let planned = fft_parent_of_family(
        sequence_len,
        primes,
        batch_count,
        max_batch_coalesced,
        shrink_first_upload_coalescing,
        tuning,
        device,
        family,
    );
    if planned is Ok && planned->Ok_0 is Some {
        let schedule = planned->Ok_0->Some_0;
        lanes_cover_tightly(sequence_len, schedule.final_min_registers);
        let ordinary = ceil_div(sequence_len, schedule.final_min_registers)->Ok_0;
        product_grows(
            ordinary as int,
            schedule.threads_per_transform as int,
            schedule.final_min_registers as int,
        );
        reveal(crate::rader_parents::settled_tree);
        reveal(crate::rader_tree::scaled_tree);
    }
}

/// The split of a transform with primes of both kinds: its own lanes are the fewest that give
/// every value one of a register count no larger than that of the direct primes, and it
/// carries the direct primes as they were listed.
pub proof fn mixed_splits_cover_the_transform(
    sequence_len: usize,
    direct: Seq<(usize, usize)>,
    primes: Seq<(usize, usize)>,
    batch_count: usize,
    max_batch_coalesced: usize,
    shrink_first_upload_coalescing: bool,
    tuning: PlannerTuning,
    device: DeviceProfile,
    family: ParentFamily,
)
    ensures
        mixed_split(
            sequence_len,
            direct,
            primes,
            batch_count,
            max_batch_coalesced,
            shrink_first_upload_coalescing,
            tuning,
            device,
            family,
        ) matches Ok(Some(state)) ==> {
            &&& state.direct_prime_multiplicities == direct
            &&& state.rader_min_registers >= 2
            &&& exists|least: int| #[trigger]
                lanes_cover(state.base_axis_threads as int, least, sequence_len as int) && 1
                    <= least <= state.rader_min_registers
        },
{
    reveal(mixed_split);
    let planned = mixed_split(
        sequence_len,
        direct,
        primes,
        batch_count,
        max_batch_coalesced,
        shrink_first_upload_coalescing,
        tuning,
        device,
        family,
    );
    if planned is Ok && planned->Ok_0 is Some {
        let state = planned->Ok_0->Some_0;
        let limit = dimension_limit(device, device.max_workgroup_size[0]);
        let (tree, multipliers, smooth) = crate::rader_parents::parent_tree(
            sequence_len,
            direct,
            primes,
            batch_count,
            limit,
            tuning,
            family,
        )->Ok_0->Some_0;
        let base = umin(tree.least, 2);
        crate::direct_rader::scaled_floor_fits(
            sequence_len,
            direct,
            base,
            base,
            max_batch_coalesced,
            limit,
            crate::direct_rader::axis0_operations(),
        );
        let (registers, direct_threads) = crate::direct_rader::axis0_scaled_floor(
            sequence_len,
            direct,
            base,
            max_batch_coalesced,
            limit,
        )->Ok_0->Some_0;
        let harmonised = crate::rader_tree::harmonised_tree(tree, registers)->Ok_0->Some_0;
        let settled = crate::rader_parents::settled_tree(
            sequence_len,
            max_batch_coalesced,
            shrink_first_upload_coalescing,
            limit,
            direct_threads,
            family.elements,
            harmonised,
        )->Ok_0.0;
        let (least, _) = crate::rader_parents::parent_demand(
            settled,
            multipliers,
            smooth,
            registers,
            family.stage,
        )->Ok_0;
        lanes_cover_tightly(sequence_len, least);
        demand_is_no_larger(settled, multipliers, smooth, registers, family.stage);
        assert(lanes_cover(state.base_axis_threads as int, least as int, sequence_len as int));
    }
}

proof fn demand_is_no_larger(
    tree: crate::rader_tree::RaderTreeModel,
    multipliers: Seq<usize>,
    smooth_outer_factor: usize,
    least: usize,
    stage: &'static str,
)
    ensures
        crate::rader_parents::parent_demand(
            tree,
            multipliers,
            smooth_outer_factor,
            least,
            stage,
        ) matches Ok((found, threads)) ==> found <= least,
{
    reveal(crate::rader_parents::parent_demand);
    reveal(crate::rader_tree::outer_floor);
    let (registers, stages, _, _) = optimized_radices(tree.outer, multipliers);
    crate::scaling_laws::outer_floor_is_the_least(registers, stages, least, stage, 2);
    let floor = crate::rader_tree::outer_floor(
        tree.outer,
        multipliers,
        smooth_outer_factor,
        least,
        stage,
    );
    if floor is Ok {
        pressure_only_lowers(tree.containers, floor->Ok_0, 0, 0);
    }
}

proof fn stage_pressure_only_lowers(
    registers: Seq<usize>,
    multipliers: Seq<usize>,
    container_fft_num: usize,
    convolution_len: usize,
    seen: bool,
    least: usize,
    threads: usize,
    radix: int,
)
    ensures
        stage_pressure(
            registers,
            multipliers,
            container_fft_num,
            convolution_len,
            seen,
            least,
            threads,
            radix,
        ) matches Ok((found, smallest, most)) ==> smallest <= least && most >= threads,
    decreases radix,
{
    if radix >= 2 {
        if multipliers[radix] == 0 || registers[radix] == 0 {
            stage_pressure_only_lowers(
                registers,
                multipliers,
                container_fft_num,
                convolution_len,
                seen,
                least,
                threads,
                radix - 1,
            );
        } else if ceil_div(convolution_len, registers[radix]) is Ok {
            let lanes = ceil_div(convolution_len, registers[radix])->Ok_0;
            if container_fft_num * lanes <= usize::MAX {
                stage_pressure_only_lowers(
                    registers,
                    multipliers,
                    container_fft_num,
                    convolution_len,
                    true,
                    umin(least, registers[radix]),
                    umax(threads, (container_fft_num * lanes) as usize),
                    radix - 1,
                );
            }
        }
    }
}

proof fn container_pressure_only_lowers(
    container: RaderContainerModel,
    least: usize,
    threads: usize,
)
    ensures
        container_pressure(container, least, threads) matches Ok((smallest, most)) ==> smallest
            <= least && most >= threads,
    decreases container, 0int,
{
    if container.kind != MultiFftRaderContainerKind::Direct {
        let (registers, multipliers, _, _) = optimized_radices(
            container.registers_per_thread_per_radix,
            container.stage_radix_multipliers,
        );
        let len = container.prime.saturating_sub(1);
        stage_pressure_only_lowers(
            registers,
            multipliers,
            container.container_fft_num,
            len,
            false,
            least,
            threads,
            VKFFT_RADIX_TABLE_LEN - 1,
        );
        let stages = stage_pressure(
            registers,
            multipliers,
            container.container_fft_num,
            len,
            false,
            least,
            threads,
            VKFFT_RADIX_TABLE_LEN - 1,
        );
        if stages is Ok {
            pressure_only_lowers(container.subcontainers, stages->Ok_0.1, stages->Ok_0.2, 0);
        }
    }
}

proof fn pressure_only_lowers(
    containers: Seq<RaderContainerModel>,
    least: usize,
    threads: usize,
    from: nat,
)
    ensures
        containers_pressure_from(containers, least, threads, from) matches Ok((smallest, most))
            ==> smallest <= least && most >= threads,
    decreases containers, containers.len() - from,
{
    if from < containers.len() {
        container_pressure_only_lowers(containers[from as int], least, threads);
        let here = container_pressure(containers[from as int], least, threads);
        if here is Ok {
            pressure_only_lowers(containers, here->Ok_0.0, here->Ok_0.1, from + 1);
        }
    }
}

/// The lanes of a transform with primes of both kinds hold, unless the workgroup ends there,
/// the lanes of its convolutions, the estimate of every direct prime, and the fewest whole
/// lane groups of each that take its own lanes.
pub proof fn mixed_lanes_hold_every_prime(
    sequence_len: usize,
    direct: Seq<(usize, usize)>,
    primes: Seq<(usize, usize)>,
    batch_count: usize,
    max_batch_coalesced: usize,
    shrink_first_upload_coalescing: bool,
    tuning: PlannerTuning,
    device: DeviceProfile,
)
    ensures
        mixed_threads_in_pass(
            sequence_len,
            direct,
            primes,
            batch_count,
            max_batch_coalesced,
            shrink_first_upload_coalescing,
            tuning,
            device,
        ) matches Ok(Some(threads)) ==> {
            let state = mixed_split(
                sequence_len,
                direct,
                primes,
                batch_count,
                max_batch_coalesced,
                shrink_first_upload_coalescing,
                tuning,
                device,
                mixed_family(),
            )->Ok_0->Some_0;
            let limit = dimension_limit(device, device.max_workgroup_size[0]);
            &&& threads <= limit
            &&& threads == limit || threads >= state.min_rader_fft_thread_num
            &&& threads == limit || forall|i: int|
                0 <= i < direct.len() ==> {
                    let planned = axis0_direct_lane_estimate(
                        sequence_len,
                        (#[trigger] direct[i]).0,
                        state.rader_min_registers,
                        max_batch_coalesced,
                        limit,
                    );
                    &&& planned is Ok && planned->Ok_0 is Some
                    &&& planned->Ok_0->Some_0 <= threads
                    &&& exists|groups: int| #[trigger]
                        lanes_cover(
                            groups,
                            lane_group(direct[i].0),
                            state.base_axis_threads as int,
                        ) && groups * lane_group(direct[i].0) <= threads
                }
        },
{
    reveal(mixed_threads_in_pass);
    let planned = mixed_threads_in_pass(
        sequence_len,
        direct,
        primes,
        batch_count,
        max_batch_coalesced,
        shrink_first_upload_coalescing,
        tuning,
        device,
    );
    if planned is Ok && planned->Ok_0 is Some {
        let split = mixed_split(
            sequence_len,
            direct,
            primes,
            batch_count,
            max_batch_coalesced,
            shrink_first_upload_coalescing,
            tuning,
            device,
            mixed_family(),
        );
        let state = split->Ok_0->Some_0;
        let limit = dimension_limit(device, device.max_workgroup_size[0]);
        crate::rader_parents::mixed_estimates_fit(
            sequence_len,
            direct,
            primes,
            batch_count,
            max_batch_coalesced,
            shrink_first_upload_coalescing,
            tuning,
            device,
        );
        mixed_splits_cover_the_transform(
            sequence_len,
            direct,
            primes,
            batch_count,
            max_batch_coalesced,
            shrink_first_upload_coalescing,
            tuning,
            device,
            mixed_family(),
        );
        assert(sequence_len >= 2) by {
            reveal(mixed_split);
        }
        assert(state.base_axis_threads >= 1) by {
            let least = choose|least: int| #[trigger]
                lanes_cover(state.base_axis_threads as int, least, sequence_len as int) && 1
                    <= least <= state.rader_min_registers;
            if state.base_axis_threads == 0 {
                assert(0 * least == 0) by (nonlinear_arith);
            }
        }
        split_lanes_are_whole_groups(
            sequence_len,
            direct,
            state.base_axis_threads,
            state.rader_min_registers,
            max_batch_coalesced,
            limit,
            "mixed multi-Rader AxisBlockSplitter direct rounding",
            0,
            0,
        );
    }
}

} // verus!
