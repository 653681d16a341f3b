//! What the lane estimates of both precisions share: they differ only in the register table
//! of the smooth factor, so they agree where no smooth factor is left.

use vstd::arithmetic::power::pow;
use vstd::prelude::*;

use crate::arith::{ceil_div, ceil_div_is_least_cover, checked_mul, half_up, umax};
use crate::axis_block::quotient;
use crate::config::{DeviceProfile, PlannerTuning};
use crate::direct_rader::{
    axis0_direct_lane_estimate, axis0_operations, axis0_scaled_floor, dimension_limit,
    direct_pressure_from, direct_prime_admissible, direct_threads_from_split, prime_power,
    prime_product, prime_product_counts_every_occurrence, prime_product_from, rounded_direct_from,
    scaled_floor_fits, threads_from_split,
};
use crate::error::{PlanResult, VkFftError};
use crate::factors::factor_product;
use crate::rader_containers::{built_container, RaderContainerModel};
use crate::rader_parents::{
    double_double_fft_family, double_double_fft_threads_in_pass, double_double_mixed_family,
    double_double_mixed_threads, double_double_mixed_threads_in_pass,
    double_double_mixed_threads_tuned, empty_primes, fft_family, fft_parent_of_family,
    fft_prime_admissible, fft_threads_in_pass, mixed_family, mixed_split, mixed_threads,
    mixed_threads_in_pass, mixed_threads_tuned, parent_demand, parent_tree, portable,
    prime_containers_from, settled_tree, ParentFamily,
};
use crate::rader_tables::{outer_power_state, outer_state};
use crate::rader_tree::{outer_floor, RaderTreeModel};

verus! {

/// Two results are the same value, or both are errors.
pub open spec fn same_outcome<T>(a: PlanResult<T>, b: PlanResult<T>) -> bool {
    match (a, b) {
        (Ok(x), Ok(y)) => x == y,
        (Err(_), Err(_)) => true,
        _ => false,
    }
}

/// Whether the prime powers of both lists leave no smooth factor of the transform.
pub open spec fn primes_cover(
    sequence_len: usize,
    direct: Seq<(usize, usize)>,
    primes: Seq<(usize, usize)>,
) -> bool {
    sequence_len == factor_product(direct, direct.len() as int) * factor_product(
        primes,
        primes.len() as int,
    )
}

proof fn products_agree(
    sequence_len: usize,
    primes: Seq<(usize, usize)>,
    lane_limit: usize,
    a: &'static str,
    b: &'static str,
    product: usize,
    from: int,
)
    ensures
        same_outcome(
            prime_product_from(sequence_len, primes, lane_limit, a, product, from),
            prime_product_from(sequence_len, primes, lane_limit, b, product, from),
        ),
    decreases primes.len() - from,
{
    if from < primes.len() && direct_prime_admissible(sequence_len, primes, from, lane_limit) {
        if let Ok(power) = prime_power(primes[from].0, primes[from].1, a) {
            if let Ok(next) = checked_mul(product, power, a) {
                products_agree(sequence_len, primes, lane_limit, a, b, next, from + 1);
            }
        }
    }
}

proof fn containers_agree(
    sequence_len: usize,
    direct: Seq<(usize, usize)>,
    primes: Seq<(usize, usize)>,
    a: &'static str,
    b: &'static str,
    tuning: PlannerTuning,
    found: Seq<RaderContainerModel>,
    product: usize,
    from: nat,
)
    ensures
        same_outcome(
            prime_containers_from(sequence_len, direct, primes, a, tuning, found, product, from),
            prime_containers_from(sequence_len, direct, primes, b, tuning, found, product, from),
        ),
    decreases primes.len() - from,
{
    if from < primes.len() && fft_prime_admissible(sequence_len, direct, primes, from as int) {
        let (prime, multiplicity) = primes[from as int];
        if let Ok(power) = prime_power(prime, multiplicity, a) {
            if let Ok(next) = checked_mul(product, power, a) {
                if let Ok(Some(container)) = built_container(
                    prime,
                    quotient(sequence_len, prime),
                    tuning,
                ) {
                    containers_agree(
                        sequence_len,
                        direct,
                        primes,
                        a,
                        b,
                        tuning,
                        found.push(container),
                        next,
                        from + 1,
                    );
                }
            }
        }
    }
}

proof fn containers_count_every_occurrence(
    sequence_len: usize,
    direct: Seq<(usize, usize)>,
    primes: Seq<(usize, usize)>,
    operation: &'static str,
    tuning: PlannerTuning,
    found: Seq<RaderContainerModel>,
    start: int,
    product: usize,
    from: nat,
)
    requires
        from <= primes.len(),
        product == start * factor_product(primes, from as int),
    ensures
        prime_containers_from(
            sequence_len,
            direct,
            primes,
            operation,
            tuning,
            found,
            product,
            from,
        ) matches Ok(Some((_, total))) ==> total == start * factor_product(
            primes,
            primes.len() as int,
        ),
    decreases primes.len() - from,
{
    if from < primes.len() && fft_prime_admissible(sequence_len, direct, primes, from as int) {
        let (prime, multiplicity) = primes[from as int];
        if let Ok(power) = prime_power(prime, multiplicity, operation) {
            vstd::arithmetic::power::lemma_pow_positive(prime as int, multiplicity as nat);
            if let Ok(next) = checked_mul(product, power, operation) {
                let before = factor_product(primes, from as int);
                let raised = pow(prime as int, multiplicity as nat);
                assert(start * before * raised == start * (before * raised)) by (nonlinear_arith);
                if let Ok(Some(container)) = built_container(
                    prime,
                    quotient(sequence_len, prime),
                    tuning,
                ) {
                    containers_count_every_occurrence(
                        sequence_len,
                        direct,
                        primes,
                        operation,
                        tuning,
                        found.push(container),
                        start,
                        next,
                        from + 1,
                    );
                }
            }
        }
    }
}

proof fn trees_agree(
    sequence_len: usize,
    direct: Seq<(usize, usize)>,
    primes: Seq<(usize, usize)>,
    batch_count: usize,
    limit: usize,
    tuning: PlannerTuning,
    a: ParentFamily,
    b: ParentFamily,
)
    requires
        sequence_len > 0,
        primes_cover(sequence_len, direct, primes),
    ensures
        same_outcome(
            parent_tree(sequence_len, direct, primes, batch_count, limit, tuning, a),
            parent_tree(sequence_len, direct, primes, batch_count, limit, tuning, b),
        ),
        parent_tree(sequence_len, direct, primes, batch_count, limit, tuning, a) matches Ok(
            Some((_, _, smooth)),
        ) ==> smooth == 1,
{
    reveal(parent_tree);
    reveal(outer_state);
    reveal(outer_power_state);
    products_agree(sequence_len, direct, limit, a.direct_product, b.direct_product, 1, 0);
    prime_product_counts_every_occurrence(sequence_len, direct, limit, a.direct_product);
    if let Ok(Some(start)) = prime_product(sequence_len, direct, limit, a.direct_product) {
        containers_agree(
            sequence_len,
            direct,
            primes,
            a.fft_product,
            b.fft_product,
            tuning,
            Seq::empty(),
            start,
            0,
        );
        containers_count_every_occurrence(
            sequence_len,
            direct,
            primes,
            a.fft_product,
            tuning,
            Seq::empty(),
            start as int,
            start,
            0,
        );
        assert(quotient(sequence_len, sequence_len) == 1) by {
            assert(sequence_len as int / sequence_len as int == 1) by (nonlinear_arith)
                requires
                    sequence_len > 0,
            ;
        }
    }
}

proof fn settling_agrees(
    sequence_len: usize,
    max_batch_coalesced: usize,
    shrink_first_upload_coalescing: bool,
    limit: usize,
    direct_threads: usize,
    a: &'static str,
    b: &'static str,
    tree: RaderTreeModel,
)
    ensures
        same_outcome(
            settled_tree(
                sequence_len,
                max_batch_coalesced,
                shrink_first_upload_coalescing,
                limit,
                direct_threads,
                a,
                tree,
            ),
            settled_tree(
                sequence_len,
                max_batch_coalesced,
                shrink_first_upload_coalescing,
                limit,
                direct_threads,
                b,
                tree,
            ),
        ),
{
    reveal(settled_tree);
}

proof fn splits_agree(
    sequence_len: usize,
    direct: Seq<(usize, usize)>,
    primes: Seq<(usize, usize)>,
    batch_count: usize,
    max_batch_coalesced: usize,
    shrink_first_upload_coalescing: bool,
    tuning: PlannerTuning,
    device: DeviceProfile,
    a: ParentFamily,
    b: ParentFamily,
)
    requires
        primes_cover(sequence_len, direct, primes),
    ensures
        same_outcome(
            mixed_split(
                sequence_len,
                direct,
                primes,
                batch_count,
                max_batch_coalesced,
                shrink_first_upload_coalescing,
                tuning,
                device,
                a,
            ),
            mixed_split(
                sequence_len,
                direct,
                primes,
                batch_count,
                max_batch_coalesced,
                shrink_first_upload_coalescing,
                tuning,
                device,
                b,
            ),
        ),
{
    reveal(mixed_split);
    reveal(parent_demand);
    reveal(outer_floor);
    if sequence_len > 0 {
        let limit = dimension_limit(device, device.max_workgroup_size[0]);
        trees_agree(sequence_len, direct, primes, batch_count, limit, tuning, a, b);
        assert forall|direct_threads: usize, tree: RaderTreeModel| same_outcome(
            #[trigger] settled_tree(
                sequence_len,
                max_batch_coalesced,
                shrink_first_upload_coalescing,
                limit,
                direct_threads,
                a.elements,
                tree,
            ),
            settled_tree(
                sequence_len,
                max_batch_coalesced,
                shrink_first_upload_coalescing,
                limit,
                direct_threads,
                b.elements,
                tree,
            ),
        ) by {
            settling_agrees(
                sequence_len,
                max_batch_coalesced,
                shrink_first_upload_coalescing,
                limit,
                direct_threads,
                a.elements,
                b.elements,
                tree,
            );
        }
    }
}

/// Where every direct prime has an estimate, rounding to lane groups finds one too, and
/// what it names on overflow does not matter.
proof fn rounding_agrees(
    sequence_len: usize,
    direct: Seq<(usize, usize)>,
    base_axis_threads: usize,
    registers: usize,
    max_batch_coalesced: usize,
    limit: usize,
    a: &'static str,
    b: &'static str,
    most: usize,
    pressure: usize,
    from: int,
)
    requires
        direct_pressure_from(
            sequence_len,
            direct,
            registers,
            max_batch_coalesced,
            limit,
            axis0_operations(),
            pressure,
            from,
        ) matches Ok(Some(_)),
    ensures
        same_outcome(
            rounded_direct_from(
                sequence_len,
                direct,
                base_axis_threads,
                registers,
                max_batch_coalesced,
                limit,
                a,
                most,
                from,
            ),
            rounded_direct_from(
                sequence_len,
                direct,
                base_axis_threads,
                registers,
                max_batch_coalesced,
                limit,
                b,
                most,
                from,
            ),
        ),
        rounded_direct_from(
            sequence_len,
            direct,
            base_axis_threads,
            registers,
            max_batch_coalesced,
            limit,
            a,
            most,
            from,
        ) != Ok::<Option<usize>, VkFftError>(None),
    decreases direct.len() - from,
{
    if from < direct.len() {
        if let Ok(Some(estimate)) = axis0_direct_lane_estimate(
            sequence_len,
            direct[from].0,
            registers,
            max_batch_coalesced,
            limit,
        ) {
            let lanes = half_up(direct[from].0);
            if let Ok(total) = checked_mul(
                estimate,
                max_batch_coalesced,
                axis0_operations().local,
            ) {
                if let Ok(groups) = ceil_div(base_axis_threads, lanes) {
                    if let Ok(rounded) = checked_mul(groups, lanes, a) {
                        rounding_agrees(
                            sequence_len,
                            direct,
                            base_axis_threads,
                            registers,
                            max_batch_coalesced,
                            limit,
                            a,
                            b,
                            umax(umax(most, estimate), rounded),
                            umax(pressure, total),
                            from + 1,
                        );
                    }
                }
            }
        }
    }
}

proof fn quotients_are_positive(sequence_len: usize)
    requires
        sequence_len > 0,
    ensures
        forall|least: usize| #[trigger]
            ceil_div(sequence_len, least) matches Ok(threads) ==> threads > 0,
{
    assert forall|least: usize| #[trigger]
        ceil_div(sequence_len, least) matches Ok(threads) ==> threads > 0 by {
        if ceil_div(sequence_len, least) is Ok {
            ceil_div_is_least_cover(sequence_len, least);
        }
    }
}

/// A split state of primes of both kinds keeps the direct primes, and each has an estimate
/// at its register floor.
proof fn split_has_estimates(
    sequence_len: usize,
    direct: Seq<(usize, usize)>,
    primes: Seq<(usize, usize)>,
    batch_count: usize,
    max_batch_coalesced: usize,
    shrink_first_upload_coalescing: bool,
    tuning: PlannerTuning,
    device: DeviceProfile,
    family: ParentFamily,
)
    ensures
        mixed_split(
            sequence_len,
            direct,
            primes,
            batch_count,
            max_batch_coalesced,
            shrink_first_upload_coalescing,
            tuning,
            device,
            family,
        ) matches Ok(Some(state)) ==> {
            let limit = dimension_limit(device, device.max_workgroup_size[0]);
            &&& state.direct_prime_multiplicities == direct
            &&& direct.len() > 0
            &&& sequence_len > 0
            &&& state.base_axis_threads > 0
            &&& state.rader_min_registers > 0
            &&& max_batch_coalesced > 0
            &&& limit > 0
            &&& direct_pressure_from(
                sequence_len,
                direct,
                state.rader_min_registers,
                max_batch_coalesced,
                limit,
                axis0_operations(),
                (quotient(sequence_len, state.rader_min_registers) * max_batch_coalesced) as usize,
                0,
            ) matches Ok(Some(_))
        },
{
    reveal(mixed_split);
    let limit = dimension_limit(device, device.max_workgroup_size[0]);
    assert forall|base: usize|
        #![trigger axis0_scaled_floor(sequence_len, direct, base, max_batch_coalesced, limit)]
        axis0_scaled_floor(sequence_len, direct, base, max_batch_coalesced, limit) matches Ok(
            Some((registers, pressure)),
        ) ==> {
            &&& 1 <= pressure <= limit
            &&& 2 <= registers
            &&& max_batch_coalesced > 0
            &&& direct_pressure_from(
                sequence_len,
                direct,
                registers,
                max_batch_coalesced,
                limit,
                axis0_operations(),
                (quotient(sequence_len, registers) * max_batch_coalesced) as usize,
                0,
            ) matches Ok(Some(_))
        } by {
        scaled_floor_fits(
            sequence_len,
            direct,
            base,
            base,
            max_batch_coalesced,
            limit,
            axis0_operations(),
        );
    }
    if sequence_len > 0 {
        quotients_are_positive(sequence_len);
    }
}

/// Without a smooth factor, a transform with primes of both kinds takes as many lanes in
/// double-double precision as in any other, or is refused in both.
pub proof fn precisions_share_mixed_lanes(
    sequence_len: usize,
    direct: Seq<(usize, usize)>,
    primes: Seq<(usize, usize)>,
    batch_count: usize,
    max_batch_coalesced: usize,
    shrink_first_upload_coalescing: bool,
    tuning: PlannerTuning,
    device: DeviceProfile,
)
    requires
        primes_cover(sequence_len, direct, primes),
    ensures
        same_outcome(
            mixed_threads_in_pass(
                sequence_len,
                direct,
                primes,
                batch_count,
                max_batch_coalesced,
                shrink_first_upload_coalescing,
                tuning,
                device,
            ),
            double_double_mixed_threads_in_pass(
                sequence_len,
                direct,
                primes,
                batch_count,
                max_batch_coalesced,
                shrink_first_upload_coalescing,
                tuning,
                device,
            ),
        ),
        same_outcome(
            mixed_threads_tuned(sequence_len, direct, primes, batch_count, tuning, device),
            double_double_mixed_threads_tuned(
                sequence_len,
                direct,
                primes,
                batch_count,
                tuning,
                device,
            ),
        ),
        same_outcome(
            mixed_threads(sequence_len, direct, primes, batch_count, device),
            double_double_mixed_threads(sequence_len, direct, primes, batch_count, device),
        ),
{
    mixed_lanes_agree(
        sequence_len,
        direct,
        primes,
        batch_count,
        max_batch_coalesced,
        shrink_first_upload_coalescing,
        tuning,
        device,
    );
    mixed_lanes_agree(sequence_len, direct, primes, batch_count, 1, false, tuning, device);
    mixed_lanes_agree(sequence_len, direct, primes, batch_count, 1, false, portable(), device);
}

proof fn mixed_lanes_agree(
    sequence_len: usize,
    direct: Seq<(usize, usize)>,
    primes: Seq<(usize, usize)>,
    batch_count: usize,
    max_batch_coalesced: usize,
    shrink_first_upload_coalescing: bool,
    tuning: PlannerTuning,
    device: DeviceProfile,
)
    requires
        primes_cover(sequence_len, direct, primes),
    ensures
        same_outcome(
            mixed_threads_in_pass(
                sequence_len,
                direct,
                primes,
                batch_count,
                max_batch_coalesced,
                shrink_first_upload_coalescing,
                tuning,
                device,
            ),
            double_double_mixed_threads_in_pass(
                sequence_len,
                direct,
                primes,
                batch_count,
                max_batch_coalesced,
                shrink_first_upload_coalescing,
                tuning,
                device,
            ),
        ),
{
    reveal(mixed_threads_in_pass);
    reveal(double_double_mixed_threads_in_pass);
    reveal(threads_from_split);
    reveal(direct_threads_from_split);
    splits_agree(
        sequence_len,
        direct,
        primes,
        batch_count,
        max_batch_coalesced,
        shrink_first_upload_coalescing,
        tuning,
        device,
        mixed_family(),
        double_double_mixed_family(),
    );
    split_has_estimates(
        sequence_len,
        direct,
        primes,
        batch_count,
        max_batch_coalesced,
        shrink_first_upload_coalescing,
        tuning,
        device,
        mixed_family(),
    );
    if let Ok(Some(state)) = mixed_split(
        sequence_len,
        direct,
        primes,
        batch_count,
        max_batch_coalesced,
        shrink_first_upload_coalescing,
        tuning,
        device,
        mixed_family(),
    ) {
        rounding_agrees(
            sequence_len,
            direct,
            state.base_axis_threads,
            state.rader_min_registers,
            max_batch_coalesced,
            dimension_limit(device, device.max_workgroup_size[0]),
            "mixed multi-Rader AxisBlockSplitter direct rounding",
            "axis0 Rader split-state Direct rounding",
            0,
            (quotient(sequence_len, state.rader_min_registers) * max_batch_coalesced) as usize,
            0,
        );
    }
}

/// Without a smooth factor, a transform whose primes are all convolved by transforms takes
/// as many lanes in double-double precision as in any other, or is refused in both.
pub proof fn precisions_share_fft_lanes(
    sequence_len: usize,
    primes: Seq<(usize, usize)>,
    batch_count: usize,
    max_batch_coalesced: usize,
    shrink_first_upload_coalescing: bool,
    tuning: PlannerTuning,
    device: DeviceProfile,
)
    requires
        primes_cover(sequence_len, Seq::empty(), primes),
    ensures
        same_outcome(
            fft_threads_in_pass(
                sequence_len,
                primes,
                batch_count,
                max_batch_coalesced,
                shrink_first_upload_coalescing,
                tuning,
                device,
            ),
            double_double_fft_threads_in_pass(
                sequence_len,
                primes,
                batch_count,
                max_batch_coalesced,
                shrink_first_upload_coalescing,
                tuning,
                device,
            ),
        ),
{
    reveal(fft_parent_of_family);
    reveal(parent_demand);
    reveal(outer_floor);
    let a = fft_family();
    let b = double_double_fft_family();
    if sequence_len > 0 {
        let limit = dimension_limit(device, device.max_workgroup_size[0]);
        assert(empty_primes() =~= Seq::<(usize, usize)>::empty());
        trees_agree(sequence_len, empty_primes(), primes, batch_count, limit, tuning, a, b);
        if let Ok(Some((tree, _, _))) = parent_tree(
            sequence_len,
            empty_primes(),
            primes,
            batch_count,
            limit,
            tuning,
            a,
        ) {
            settling_agrees(
                sequence_len,
                max_batch_coalesced,
                shrink_first_upload_coalescing,
                limit,
                0,
                a.elements,
                b.elements,
                tree,
            );
        }
        quotients_are_positive(sequence_len);
    }
}

} // verus!
