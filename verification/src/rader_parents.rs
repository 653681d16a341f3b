//! Lane estimates of transforms that hold Rader primes convolved by transforms, alone or
//! together with directly convolved ones.

use vstd::prelude::*;

use crate::arith::{ceil_div, ceil_div_is_least_cover, checked_mul, umax, umin};
use crate::axis_block::{multiple_of, quotient};
use crate::config::{DeviceProfile, PlannerTuning};
use crate::direct_rader::{
    axis0_rader_threads_from_split_state, axis0_scaled_floor, copy_pairs, dimension_limit,
    direct_request_empty, lanes_within, lists_prime, lists_prime_before, multiply_primes, once,
    plan_quad_outer_state, prime_power, prime_product, quad_outer_state, raise_prime,
    round_direct_threads, rounded_direct, same_pairs,
    scale_axis0_direct_rader_type1_register_floor_with_max_batch_coalesced, single_pair,
    threads_from_split, Axis0RaderSplitState, RaderSplitModel,
};
use crate::error::{PlanResult, VkFftError};
use crate::rader_containers::{
    build_multi_fft_rader_container_state_with_tuning, built_container, containers_view,
    MultiFftRaderContainerRegisterState, RaderContainerModel,
};
use crate::rader_tables::{outer_state, rader_outer_register_state};
use crate::rader_tree::{
    collect_containers_pressure, containers_pressure, find_outer_floor, harmonise_tree,
    harmonised_tree, optimize_smooth_fft_rader_containers_once, optimized_tree, outer_floor,
    outer_multipliers, scale_axis0_rader_register_tables_with_max_batch_coalesced, scaled_tree,
    smooth_outer_primitive_multipliers, RaderRegisterTree, RaderTreeModel,
};
use crate::registers::{viewed, viewed_option, RadixTable};

verus! {

/// Which table the smooth factor takes, and what is named where an operation fails.
#[derive(Debug, Clone, Copy)]
pub struct ParentFamily {
    pub double_double: bool,
    pub direct_product: &'static str,
    pub fft_product: &'static str,
    pub total: &'static str,
    pub elements: &'static str,
    pub stage: &'static str,
}

/// Transforms whose primes are all convolved by transforms.
#[verifier::allow_in_spec]
pub fn fft_family(
) -> ParentFamily
    returns
        (
            ParentFamily {
                double_double: false,
                direct_product: "multi FFT-Rader prime-power product",
                fft_product: "multi FFT-Rader prime-power product",
                total: "pure FFT-Rader coalesced element pressure",
                elements: "pure FFT-Rader coalesced element pressure",
                stage: "Rader smooth outer stage has no register allocation",
            }
        ),
{
    ParentFamily {
        double_double: false,
        direct_product: "multi FFT-Rader prime-power product",
        fft_product: "multi FFT-Rader prime-power product",
        total: "pure FFT-Rader coalesced element pressure",
        elements: "pure FFT-Rader coalesced element pressure",
        stage: "Rader smooth outer stage has no register allocation",
    }
}

/// Transforms with primes of both kinds.
#[verifier::allow_in_spec]
pub fn mixed_family(
) -> ParentFamily
    returns
        (
            ParentFamily {
                double_double: false,
                direct_product: "mixed multi-Rader direct prime-power product",
                fft_product: "mixed multi-Rader FFT prime-power product",
                total: "mixed multi-Rader coalesced element pressure",
                elements: "mixed multi-Rader coalesced element pressure",
                stage: "mixed multi-Rader outer stage has no register allocation",
            }
        ),
{
    ParentFamily {
        double_double: false,
        direct_product: "mixed multi-Rader direct prime-power product",
        fft_product: "mixed multi-Rader FFT prime-power product",
        total: "mixed multi-Rader coalesced element pressure",
        elements: "mixed multi-Rader coalesced element pressure",
        stage: "mixed multi-Rader outer stage has no register allocation",
    }
}

/// Double-double transforms whose primes are all convolved by transforms.
#[verifier::allow_in_spec]
pub fn double_double_fft_family(
) -> ParentFamily
    returns
        (
            ParentFamily {
                double_double: true,
                direct_product: "double-double FFT-Rader prime-power product",
                fft_product: "double-double FFT-Rader prime-power product",
                total: "double-double FFT-Rader total element count",
                elements: "double-double FFT-Rader coalesced element pressure",
                stage: "double-double FFT-Rader outer stage has no register allocation",
            }
        ),
{
    ParentFamily {
        double_double: true,
        direct_product: "double-double FFT-Rader prime-power product",
        fft_product: "double-double FFT-Rader prime-power product",
        total: "double-double FFT-Rader total element count",
        elements: "double-double FFT-Rader coalesced element pressure",
        stage: "double-double FFT-Rader outer stage has no register allocation",
    }
}

/// Double-double transforms with primes of both kinds.
#[verifier::allow_in_spec]
pub fn double_double_mixed_family(
) -> ParentFamily
    returns
        (
            ParentFamily {
                double_double: true,
                direct_product: "double-double mixed multi-Rader direct prime-power product",
                fft_product: "double-double mixed multi-Rader FFT prime-power product",
                total: "double-double mixed multi-Rader total element count",
                elements: "double-double mixed multi-Rader coalesced element pressure",
                stage: "double-double mixed multi-Rader outer stage has no register allocation",
            }
        ),
{
    ParentFamily {
        double_double: true,
        direct_product: "double-double mixed multi-Rader direct prime-power product",
        fft_product: "double-double mixed multi-Rader FFT prime-power product",
        total: "double-double mixed multi-Rader total element count",
        elements: "double-double mixed multi-Rader coalesced element pressure",
        stage: "double-double mixed multi-Rader outer stage has no register allocation",
    }
}

/// A list of Rader containers.
pub struct RaderContainerList {
    pub containers: Vec<MultiFftRaderContainerRegisterState>,
}

impl View for RaderContainerList {
    type V = Seq<RaderContainerModel>;

    open spec fn view(&self) -> Seq<RaderContainerModel> {
        containers_view(self.containers@)
    }
}

/// Whether a prime convolved by transforms may stand at its place: it is odd, divides the
/// transform, occurs, is not convolved directly, and has not been listed before.
pub open spec fn fft_prime_admissible(
    sequence_len: usize,
    direct: Seq<(usize, usize)>,
    primes: Seq<(usize, usize)>,
    index: int,
) -> bool {
    &&& primes[index].0 >= 3
    &&& primes[index].1 != 0
    &&& multiple_of(sequence_len, primes[index].0)
    &&& !lists_prime(direct, primes[index].0, direct.len() as int)
    &&& !lists_prime(primes, primes[index].0, index)
}

/// The containers of the primes from index `from` on behind those already found, and
/// `product` times their powers; `None` where a prime may not stand at its place or
/// cannot be convolved.
pub open spec fn prime_containers_from(
    sequence_len: usize,
    direct: Seq<(usize, usize)>,
    primes: Seq<(usize, usize)>,
    operation: &'static str,
    tuning: PlannerTuning,
    found: Seq<RaderContainerModel>,
    product: usize,
    from: nat,
) -> PlanResult<Option<(Seq<RaderContainerModel>, usize)>>
    decreases primes.len() - from,
{
    if from >= primes.len() {
        Ok(Some((found, product)))
    } else if !fft_prime_admissible(sequence_len, direct, primes, from as int) {
        Ok(None)
    } else {
        let (prime, multiplicity) = primes[from as int];
        match prime_power(prime, multiplicity, operation) {
            Err(error) => Err(error),
            Ok(power) => match checked_mul(product, power, operation) {
                Err(error) => Err(error),
                Ok(next) => match built_container(prime, quotient(sequence_len, prime), tuning) {
                    Err(error) => Err(error),
                    Ok(None) => Ok(None),
                    Ok(Some(container)) => prime_containers_from(
                        sequence_len,
                        direct,
                        primes,
                        operation,
                        tuning,
                        found.push(container),
                        next,
                        from + 1,
                    ),
                },
            },
        }
    }
}

/// The same for all primes, over the product of the directly convolved ones.
pub open spec fn prime_containers(
    sequence_len: usize,
    direct: Seq<(usize, usize)>,
    primes: Seq<(usize, usize)>,
    operation: &'static str,
    tuning: PlannerTuning,
    direct_product: usize,
) -> PlanResult<Option<(Seq<RaderContainerModel>, usize)>> {
    prime_containers_from(
        sequence_len,
        direct,
        primes,
        operation,
        tuning,
        Seq::empty(),
        direct_product,
        0,
    )
}

fn build_prime_containers(
    sequence_len: usize,
    direct: &[(usize, usize)],
    primes: &[(usize, usize)],
    operation: &'static str,
    tuning: PlannerTuning,
    direct_product: usize,
) -> (planned: PlanResult<Option<(RaderContainerList, usize)>>)
    ensures
        viewed_option(planned) == prime_containers(
            sequence_len,
            direct@,
            primes@,
            operation,
            tuning,
            direct_product,
        ),
{
    let mut containers: Vec<MultiFftRaderContainerRegisterState> = Vec::new();
    let mut product: usize = direct_product;
    let mut index: usize = 0;
    assert(containers_view(containers@) =~= Seq::empty());
    while index < primes.len()
        invariant
            index <= primes.len(),
            prime_containers_from(
                sequence_len,
                direct@,
                primes@,
                operation,
                tuning,
                containers_view(containers@),
                product,
                index as nat,
            ) == prime_containers(
                sequence_len,
                direct@,
                primes@,
                operation,
                tuning,
                direct_product,
            ),
        decreases primes.len() - index,
    {
        let (prime, multiplicity) = primes[index];
        if prime < 3 || multiplicity == 0 || !multiple_of(sequence_len, prime)
            || lists_prime_before(direct, prime, direct.len()) || lists_prime_before(
            primes,
            prime,
            index,
        ) {
            return Ok(None);
        }
        let power: usize = raise_prime(prime, multiplicity, operation)?;
        product = checked_mul(product, power, operation)?;
        let container: MultiFftRaderContainerRegisterState =
            match build_multi_fft_rader_container_state_with_tuning(
            prime,
            quotient(sequence_len, prime),
            tuning,
        )? {
            Some(container) => container,
            None => {
                return Ok(None);
            },
        };
        assert(containers_view(containers@.push(container)) =~= containers_view(containers@).push(
            container@,
        ));
        containers.push(container);
        index = index + 1;
    }
    Ok(Some((RaderContainerList { containers }, product)))
}

/// An outer table with its containers.
pub open spec fn joined_tree(
    outer: Seq<usize>,
    most: usize,
    least: usize,
    containers: Seq<RaderContainerModel>,
) -> RaderTreeModel {
    RaderTreeModel { outer, most, least, containers }
}

fn join_tree(outer: RadixTable, most: usize, least: usize, list: RaderContainerList) -> (tree:
    RaderRegisterTree)
    ensures
        tree@ == joined_tree(outer@, most, least, list@),
{
    RaderRegisterTree { outer, most, least, containers: list.containers }
}

/// The register table of the smooth factor in either precision.
pub open spec fn parent_outer_state(
    sequence_len: usize,
    smooth_outer_factor: usize,
    batch_count: usize,
    family: ParentFamily,
) -> PlanResult<(Seq<usize>, usize, usize)> {
    if family.double_double {
        quad_outer_state(sequence_len, smooth_outer_factor, batch_count, family.total)
    } else {
        outer_state(sequence_len, smooth_outer_factor, batch_count)
    }
}

fn plan_parent_outer_state(
    sequence_len: usize,
    smooth_outer_factor: usize,
    batch_count: usize,
    family: ParentFamily,
) -> (planned: PlanResult<(RadixTable, usize, usize)>)
    ensures
        viewed(planned) == parent_outer_state(
            sequence_len,
            smooth_outer_factor,
            batch_count,
            family,
        ),
{
    if family.double_double {
        return plan_quad_outer_state(sequence_len, smooth_outer_factor, batch_count, family.total);
    }
    rader_outer_register_state(sequence_len, smooth_outer_factor, batch_count)
}

/// The optimized tree of a transform, the primitive stages of its smooth factor, and that
/// factor.
#[verifier::opaque]
pub open spec fn parent_tree(
    sequence_len: usize,
    direct_prime_multiplicities: Seq<(usize, usize)>,
    fft_prime_multiplicities: Seq<(usize, usize)>,
    batch_count: usize,
    physical_thread_limit: usize,
    tuning: PlannerTuning,
    family: ParentFamily,
) -> PlanResult<Option<(RaderTreeModel, Seq<usize>, usize)>> {
    match prime_product(
        sequence_len,
        direct_prime_multiplicities,
        physical_thread_limit,
        family.direct_product,
    ) {
        Err(error) => Err(error),
        Ok(None) => Ok(None),
        Ok(Some(direct_product)) => match prime_containers(
            sequence_len,
            direct_prime_multiplicities,
            fft_prime_multiplicities,
            family.fft_product,
            tuning,
            direct_product,
        ) {
            Err(error) => Err(error),
            Ok(None) => Ok(None),
            Ok(Some((list, product))) => if !multiple_of(sequence_len, product) {
                Ok(None)
            } else {
                let smooth_outer_factor = quotient(sequence_len, product);
                match parent_outer_state(sequence_len, smooth_outer_factor, batch_count, family) {
                    Err(VkFftError::UnsupportedKernelPath(_)) => Ok(None),
                    Err(error) => Err(error),
                    Ok((outer, most, least)) => match outer_multipliers(smooth_outer_factor) {
                        Err(VkFftError::UnsupportedKernelPath(_)) => Ok(None),
                        Err(error) => Err(error),
                        Ok(multipliers) => match optimized_tree(
                            sequence_len,
                            joined_tree(outer, most, least, list),
                        ) {
                            Err(error) => Err(error),
                            Ok(tree) => Ok(Some((tree, multipliers, smooth_outer_factor))),
                        },
                    },
                }
            },
        },
    }
}

fn plan_parent_tree(
    sequence_len: usize,
    direct_prime_multiplicities: &[(usize, usize)],
    fft_prime_multiplicities: &[(usize, usize)],
    batch_count: usize,
    physical_thread_limit: usize,
    tuning: PlannerTuning,
    family: ParentFamily,
) -> (planned: PlanResult<Option<(RaderRegisterTree, RadixTable, usize)>>)
    ensures
        viewed_option(planned) == parent_tree(
            sequence_len,
            direct_prime_multiplicities@,
            fft_prime_multiplicities@,
            batch_count,
            physical_thread_limit,
            tuning,
            family,
        ),
{
    reveal(parent_tree);
    let direct_product: usize = match multiply_primes(
        sequence_len,
        direct_prime_multiplicities,
        physical_thread_limit,
        family.direct_product,
    ) {
        Ok(Some(value)) => value,
        Ok(None) => {
            return Ok(None);
        },
        Err(error) => {
            return Err(error);
        },
    };
    let (list, product) = match build_prime_containers(
        sequence_len,
        direct_prime_multiplicities,
        fft_prime_multiplicities,
        family.fft_product,
        tuning,
        direct_product,
    ) {
        Ok(Some(value)) => value,
        Ok(None) => {
            return Ok(None);
        },
        Err(error) => {
            return Err(error);
        },
    };
    if !multiple_of(sequence_len, product) {
        return Ok(None);
    }
    let smooth_outer_factor: usize = quotient(sequence_len, product);
    let (outer, most, least) = match plan_parent_outer_state(
        sequence_len,
        smooth_outer_factor,
        batch_count,
        family,
    ) {
        Ok(value) => value,
        Err(VkFftError::UnsupportedKernelPath(_)) => {
            return Ok(None);
        },
        Err(error) => {
            return Err(error);
        },
    };
    let multipliers: RadixTable = match smooth_outer_primitive_multipliers(smooth_outer_factor) {
        Ok(value) => value,
        Err(VkFftError::UnsupportedKernelPath(_)) => {
            return Ok(None);
        },
        Err(error) => {
            return Err(error);
        },
    };
    let tree: RaderRegisterTree = optimize_smooth_fft_rader_containers_once(
        sequence_len,
        join_tree(outer, most, least, list),
    )?;
    Ok(Some((tree, multipliers, smooth_outer_factor)))
}

/// The tree scaled where its lanes or those of the direct primes exceed the workgroup,
/// then optimized a second time; and the scale.
#[verifier::opaque]
pub open spec fn settled_tree(
    sequence_len: usize,
    max_batch_coalesced: usize,
    shrink_first_upload_coalescing: bool,
    physical_thread_limit: usize,
    direct_threads: usize,
    elements_operation: &'static str,
    tree: RaderTreeModel,
) -> PlanResult<(RaderTreeModel, usize)> {
    match checked_mul(sequence_len, max_batch_coalesced, elements_operation) {
        Err(error) => Err(error),
        Ok(elements) => match ceil_div(elements, tree.least) {
            Err(error) => Err(error),
            Ok(threads) => if threads <= physical_thread_limit
                && direct_threads <= physical_thread_limit {
                match optimized_tree(sequence_len, tree) {
                    Err(error) => Err(error),
                    Ok(kept) => Ok((kept, 1)),
                }
            } else {
                match scaled_tree(
                    sequence_len,
                    max_batch_coalesced,
                    shrink_first_upload_coalescing,
                    physical_thread_limit,
                    tree,
                ) {
                    Err(error) => Err(error),
                    Ok((scaled, scale)) => match optimized_tree(sequence_len, scaled) {
                        Err(error) => Err(error),
                        Ok(settled) => Ok((settled, scale)),
                    },
                }
            },
        },
    }
}

fn settle_tree(
    sequence_len: usize,
    max_batch_coalesced: usize,
    shrink_first_upload_coalescing: bool,
    physical_thread_limit: usize,
    direct_threads: usize,
    elements_operation: &'static str,
    tree: RaderRegisterTree,
) -> (planned: PlanResult<(RaderRegisterTree, usize)>)
    ensures
        viewed(planned) == settled_tree(
            sequence_len,
            max_batch_coalesced,
            shrink_first_upload_coalescing,
            physical_thread_limit,
            direct_threads,
            elements_operation,
            tree@,
        ),
{
    reveal(settled_tree);
    let elements: usize = checked_mul(sequence_len, max_batch_coalesced, elements_operation)?;
    let threads: usize = ceil_div(elements, tree.least)?;
    if threads <= physical_thread_limit && direct_threads <= physical_thread_limit {
        let kept: RaderRegisterTree = optimize_smooth_fft_rader_containers_once(
            sequence_len,
            tree,
        )?;
        return Ok((kept, 1));
    }
    let (scaled, scale) = scale_axis0_rader_register_tables_with_max_batch_coalesced(
        sequence_len,
        max_batch_coalesced,
        shrink_first_upload_coalescing,
        physical_thread_limit,
        tree,
    )?;
    let settled: RaderRegisterTree = optimize_smooth_fft_rader_containers_once(
        sequence_len,
        scaled,
    )?;
    Ok((settled, scale))
}

/// The smallest register count, at most `least`, and the most lanes of a settled tree.
#[verifier::opaque]
pub open spec fn parent_demand(
    tree: RaderTreeModel,
    multipliers: Seq<usize>,
    smooth_outer_factor: usize,
    least: usize,
    stage: &'static str,
) -> PlanResult<(usize, usize)> {
    match outer_floor(tree.outer, multipliers, smooth_outer_factor, least, stage) {
        Err(error) => Err(error),
        Ok(floor) => containers_pressure(tree.containers, floor, 0),
    }
}

fn find_parent_demand(
    tree: RaderRegisterTree,
    multipliers: RadixTable,
    smooth_outer_factor: usize,
    least: usize,
    stage: &'static str,
) -> (planned: PlanResult<(usize, usize)>)
    ensures
        planned == parent_demand(tree@, multipliers@, smooth_outer_factor, least, stage),
{
    reveal(parent_demand);
    let floor: usize = find_outer_floor(
        tree.outer,
        multipliers,
        smooth_outer_factor,
        least,
        stage,
    )?;
    collect_containers_pressure(&tree.containers, floor, 0)
}

/// Register floor and lanes of a transform whose primes are all convolved by transforms.
#[derive(Debug, Clone, Copy, PartialEq, Eq, Structural)]
pub struct MultiFftRaderParentSchedule {
    pub global_scale_registers_num: usize,
    pub final_min_registers: usize,
    pub min_rader_fft_thread_num: usize,
    pub threads_per_transform: usize,
}

/// The schedule of a transform whose primes are all convolved by transforms, in either
/// precision; `None` where its lanes exceed the workgroup.
#[verifier::opaque]
pub open spec fn fft_parent_of_family(
    sequence_len: usize,
    fft_prime_multiplicities: Seq<(usize, usize)>,
    batch_count: usize,
    max_batch_coalesced: usize,
    shrink_first_upload_coalescing: bool,
    tuning: PlannerTuning,
    device: DeviceProfile,
    family: ParentFamily,
) -> PlanResult<Option<MultiFftRaderParentSchedule>> {
    if fft_prime_multiplicities.len() == 0
        || direct_request_empty(
            sequence_len,
            batch_count,
            max_batch_coalesced,
            device,
            device.max_workgroup_size[0 as int],
        ) {
        Ok(None)
    } else {
        let limit = dimension_limit(device, device.max_workgroup_size[0 as int]);
        let no_direct = empty_primes();
        match parent_tree(
            sequence_len,
            no_direct,
            fft_prime_multiplicities,
            batch_count,
            limit,
            tuning,
            family,
        ) {
            Err(error) => Err(error),
            Ok(None) => Ok(None),
            Ok(Some((tree, multipliers, smooth_outer_factor))) => match settled_tree(
                sequence_len,
                max_batch_coalesced,
                shrink_first_upload_coalescing,
                limit,
                0,
                family.elements,
                tree,
            ) {
                Err(error) => Err(error),
                Ok((settled, scale)) => match parent_demand(
                    settled,
                    multipliers,
                    smooth_outer_factor,
                    usize::MAX,
                    family.stage,
                ) {
                    Err(error) => Err(error),
                    Ok((least, fft_threads)) => if least == usize::MAX || least == 0 {
                        Ok(None)
                    } else {
                        match ceil_div(sequence_len, least) {
                            Err(error) => Err(error),
                            Ok(ordinary_threads) => {
                                let threads = umax(ordinary_threads, fft_threads);
                                if threads > limit {
                                    Ok(None)
                                } else {
                                    Ok(
                                        Some(
                                            MultiFftRaderParentSchedule {
                                                global_scale_registers_num: scale,
                                                final_min_registers: least,
                                                min_rader_fft_thread_num: fft_threads,
                                                threads_per_transform: threads,
                                            },
                                        ),
                                    )
                                }
                            },
                        }
                    },
                },
            },
        }
    }
}

fn plan_fft_parent(
    sequence_len: usize,
    fft_prime_multiplicities: &[(usize, usize)],
    batch_count: usize,
    max_batch_coalesced: usize,
    shrink_first_upload_coalescing: bool,
    tuning: PlannerTuning,
    device: DeviceProfile,
    family: ParentFamily,
) -> (planned: PlanResult<Option<MultiFftRaderParentSchedule>>)
    ensures
        planned == fft_parent_of_family(
            sequence_len,
            fft_prime_multiplicities@,
            batch_count,
            max_batch_coalesced,
            shrink_first_upload_coalescing,
            tuning,
            device,
            family,
        ),
{
    reveal(fft_parent_of_family);
    if fft_prime_multiplicities.len() == 0
        || direct_request_empty(
            sequence_len,
            batch_count,
            max_batch_coalesced,
            device,
            device.max_workgroup_size[0],
        ) {
        return Ok(None);
    }
    let limit: usize = dimension_limit(device, device.max_workgroup_size[0]);
    let no_direct: Vec<(usize, usize)> = no_primes();
    let (tree, multipliers, smooth_outer_factor) = match plan_parent_tree(
        sequence_len,
        no_direct.as_slice(),
        fft_prime_multiplicities,
        batch_count,
        limit,
        tuning,
        family,
    ) {
        Ok(Some(value)) => value,
        Ok(None) => {
            return Ok(None);
        },
        Err(error) => {
            return Err(error);
        },
    };
    let (settled, scale) = settle_tree(
        sequence_len,
        max_batch_coalesced,
        shrink_first_upload_coalescing,
        limit,
        0,
        family.elements,
        tree,
    )?;
    let (least, fft_threads) = find_parent_demand(
        settled,
        multipliers,
        smooth_outer_factor,
        usize::MAX,
        family.stage,
    )?;
    if least == usize::MAX || least == 0 {
        return Ok(None);
    }
    let ordinary_threads: usize = ceil_div(sequence_len, least)?;
    let threads: usize = umax(ordinary_threads, fft_threads);
    if threads > limit {
        return Ok(None);
    }
    Ok(
        Some(
            MultiFftRaderParentSchedule {
                global_scale_registers_num: scale,
                final_min_registers: least,
                min_rader_fft_thread_num: fft_threads,
                threads_per_transform: threads,
            },
        ),
    )
}

/// No primes at all.
pub open spec fn empty_primes() -> Seq<(usize, usize)> {
    Seq::empty()
}

fn no_primes() -> (primes: Vec<(usize, usize)>)
    ensures
        primes@ == empty_primes(),
{
    Vec::new()
}

/// The schedule in ordinary precision, several transforms sharing a workgroup.
pub open spec fn fft_parent(
    sequence_len: usize,
    fft_prime_multiplicities: Seq<(usize, usize)>,
    batch_count: usize,
    max_batch_coalesced: usize,
    shrink_first_upload_coalescing: bool,
    tuning: PlannerTuning,
    device: DeviceProfile,
) -> PlanResult<Option<MultiFftRaderParentSchedule>> {
    fft_parent_of_family(
        sequence_len,
        fft_prime_multiplicities,
        batch_count,
        max_batch_coalesced,
        shrink_first_upload_coalescing,
        tuning,
        device,
        fft_family(),
    )
}

pub fn plan_gpu_axis0_multi_fft_rader_parent_schedule_with_max_batch_coalesced(
    sequence_len: usize,
    fft_prime_multiplicities: &[(usize, usize)],
    batch_count: usize,
    max_batch_coalesced: usize,
    shrink_first_upload_coalescing: bool,
    tuning: PlannerTuning,
    device: DeviceProfile,
) -> (planned: PlanResult<Option<MultiFftRaderParentSchedule>>)
    ensures
        planned == fft_parent(
            sequence_len,
            fft_prime_multiplicities@,
            batch_count,
            max_batch_coalesced,
            shrink_first_upload_coalescing,
            tuning,
            device,
        ),
{
    plan_fft_parent(
        sequence_len,
        fft_prime_multiplicities,
        batch_count,
        max_batch_coalesced,
        shrink_first_upload_coalescing,
        tuning,
        device,
        fft_family(),
    )
}

/// The schedule for one transform per workgroup.
pub open spec fn fft_parent_tuned(
    sequence_len: usize,
    fft_prime_multiplicities: Seq<(usize, usize)>,
    batch_count: usize,
    tuning: PlannerTuning,
    device: DeviceProfile,
) -> PlanResult<Option<MultiFftRaderParentSchedule>> {
    fft_parent(sequence_len, fft_prime_multiplicities, batch_count, 1, false, tuning, device)
}

pub fn plan_gpu_axis0_multi_fft_rader_parent_schedule_with_tuning(
    sequence_len: usize,
    fft_prime_multiplicities: &[(usize, usize)],
    batch_count: usize,
    tuning: PlannerTuning,
    device: DeviceProfile,
) -> (planned: PlanResult<Option<MultiFftRaderParentSchedule>>)
    ensures
        planned == fft_parent_tuned(
            sequence_len,
            fft_prime_multiplicities@,
            batch_count,
            tuning,
            device,
        ),
{
    plan_gpu_axis0_multi_fft_rader_parent_schedule_with_max_batch_coalesced(
        sequence_len,
        fft_prime_multiplicities,
        batch_count,
        1,
        false,
        tuning,
        device,
    )
}

/// The portable tuning.
pub open spec fn portable() -> PlannerTuning {
    PlannerTuning::portable_ranges()
}

pub fn portable_tuning() -> (tuning: PlannerTuning)
    ensures
        tuning == portable(),
{
    PlannerTuning::portable()
}

/// The schedule under the portable tuning.
pub open spec fn fft_parent_portable(
    sequence_len: usize,
    fft_prime_multiplicities: Seq<(usize, usize)>,
    batch_count: usize,
    device: DeviceProfile,
) -> PlanResult<Option<MultiFftRaderParentSchedule>> {
    fft_parent_tuned(sequence_len, fft_prime_multiplicities, batch_count, portable(), device)
}

pub fn plan_gpu_axis0_multi_fft_rader_parent_schedule(
    sequence_len: usize,
    fft_prime_multiplicities: &[(usize, usize)],
    batch_count: usize,
    device: DeviceProfile,
) -> (planned: PlanResult<Option<MultiFftRaderParentSchedule>>)
    ensures
        planned == fft_parent_portable(
            sequence_len,
            fft_prime_multiplicities@,
            batch_count,
            device,
        ),
{
    plan_gpu_axis0_multi_fft_rader_parent_schedule_with_tuning(
        sequence_len,
        fft_prime_multiplicities,
        batch_count,
        portable_tuning(),
        device,
    )
}

/// Lanes of one transform whose primes are all convolved by transforms.
pub open spec fn fft_threads_in_pass(
    sequence_len: usize,
    fft_prime_multiplicities: Seq<(usize, usize)>,
    batch_count: usize,
    max_batch_coalesced: usize,
    shrink_first_upload_coalescing: bool,
    tuning: PlannerTuning,
    device: DeviceProfile,
) -> PlanResult<Option<usize>> {
    match fft_parent(
        sequence_len,
        fft_prime_multiplicities,
        batch_count,
        max_batch_coalesced,
        shrink_first_upload_coalescing,
        tuning,
        device,
    ) {
        Err(error) => Err(error),
        Ok(None) => Ok(None),
        Ok(Some(schedule)) => Ok(Some(schedule.threads_per_transform)),
    }
}

pub fn plan_gpu_axis0_multi_fft_rader_threads_with_pass_context_and_tuning(
    sequence_len: usize,
    fft_prime_multiplicities: &[(usize, usize)],
    batch_count: usize,
    max_batch_coalesced: usize,
    shrink_first_upload_coalescing: bool,
    tuning: PlannerTuning,
    device: DeviceProfile,
) -> (planned: PlanResult<Option<usize>>)
    ensures
        planned == fft_threads_in_pass(
            sequence_len,
            fft_prime_multiplicities@,
            batch_count,
            max_batch_coalesced,
            shrink_first_upload_coalescing,
            tuning,
            device,
        ),
{
    let schedule: MultiFftRaderParentSchedule =
        match plan_gpu_axis0_multi_fft_rader_parent_schedule_with_max_batch_coalesced(
        sequence_len,
        fft_prime_multiplicities,
        batch_count,
        max_batch_coalesced,
        shrink_first_upload_coalescing,
        tuning,
        device,
    ) {
        Ok(Some(value)) => value,
        Ok(None) => {
            return Ok(None);
        },
        Err(error) => {
            return Err(error);
        },
    };
    Ok(Some(schedule.threads_per_transform))
}

/// The same for one transform per workgroup.
pub open spec fn fft_threads_tuned(
    sequence_len: usize,
    fft_prime_multiplicities: Seq<(usize, usize)>,
    batch_count: usize,
    tuning: PlannerTuning,
    device: DeviceProfile,
) -> PlanResult<Option<usize>> {
    fft_threads_in_pass(
        sequence_len,
        fft_prime_multiplicities,
        batch_count,
        1,
        false,
        tuning,
        device,
    )
}

pub fn plan_gpu_axis0_multi_fft_rader_threads_for_prime_multiplicities_with_tuning(
    sequence_len: usize,
    fft_prime_multiplicities: &[(usize, usize)],
    batch_count: usize,
    tuning: PlannerTuning,
    device: DeviceProfile,
) -> (planned: PlanResult<Option<usize>>)
    ensures
        planned == fft_threads_tuned(
            sequence_len,
            fft_prime_multiplicities@,
            batch_count,
            tuning,
            device,
        ),
{
    plan_gpu_axis0_multi_fft_rader_threads_with_pass_context_and_tuning(
        sequence_len,
        fft_prime_multiplicities,
        batch_count,
        1,
        false,
        tuning,
        device,
    )
}

/// The same for one transform per workgroup, under the portable tuning.
pub open spec fn fft_threads(
    sequence_len: usize,
    fft_prime_multiplicities: Seq<(usize, usize)>,
    batch_count: usize,
    device: DeviceProfile,
) -> PlanResult<Option<usize>> {
    fft_threads_tuned(sequence_len, fft_prime_multiplicities, batch_count, portable(), device)
}

pub fn plan_gpu_axis0_multi_fft_rader_threads_for_prime_multiplicities(
    sequence_len: usize,
    fft_prime_multiplicities: &[(usize, usize)],
    batch_count: usize,
    device: DeviceProfile,
) -> (planned: PlanResult<Option<usize>>)
    ensures
        planned == fft_threads(sequence_len, fft_prime_multiplicities@, batch_count, device),
{
    plan_gpu_axis0_multi_fft_rader_threads_for_prime_multiplicities_with_tuning(
        sequence_len,
        fft_prime_multiplicities,
        batch_count,
        portable_tuning(),
        device,
    )
}

/// The same under the portable tuning, several transforms sharing a workgroup.
pub open spec fn fft_threads_coalesced(
    sequence_len: usize,
    fft_prime_multiplicities: Seq<(usize, usize)>,
    batch_count: usize,
    max_batch_coalesced: usize,
    device: DeviceProfile,
) -> PlanResult<Option<usize>> {
    fft_threads_in_pass(
        sequence_len,
        fft_prime_multiplicities,
        batch_count,
        max_batch_coalesced,
        false,
        portable(),
        device,
    )
}

pub fn plan_gpu_axis0_multi_fft_rader_threads_for_prime_multiplicities_with_max_batch_coalesced(
    sequence_len: usize,
    fft_prime_multiplicities: &[(usize, usize)],
    batch_count: usize,
    max_batch_coalesced: usize,
    device: DeviceProfile,
) -> (planned: PlanResult<Option<usize>>)
    ensures
        planned == fft_threads_coalesced(
            sequence_len,
            fft_prime_multiplicities@,
            batch_count,
            max_batch_coalesced,
            device,
        ),
{
    plan_gpu_axis0_multi_fft_rader_threads_with_pass_context_and_tuning(
        sequence_len,
        fft_prime_multiplicities,
        batch_count,
        max_batch_coalesced,
        false,
        portable_tuning(),
        device,
    )
}

/// The same under the portable tuning, in one upload of a forced split.
pub open spec fn fft_threads_of_upload(
    sequence_len: usize,
    fft_prime_multiplicities: Seq<(usize, usize)>,
    batch_count: usize,
    max_batch_coalesced: usize,
    axis_upload_id: usize,
    device: DeviceProfile,
) -> PlanResult<Option<usize>> {
    fft_threads_in_pass(
        sequence_len,
        fft_prime_multiplicities,
        batch_count,
        max_batch_coalesced,
        axis_upload_id == 0,
        portable(),
        device,
    )
}

pub fn plan_gpu_axis0_multi_fft_rader_threads_for_forced_upload(
    sequence_len: usize,
    fft_prime_multiplicities: &[(usize, usize)],
    batch_count: usize,
    max_batch_coalesced: usize,
    axis_upload_id: usize,
    device: DeviceProfile,
) -> (planned: PlanResult<Option<usize>>)
    ensures
        planned == fft_threads_of_upload(
            sequence_len,
            fft_prime_multiplicities@,
            batch_count,
            max_batch_coalesced,
            axis_upload_id,
            device,
        ),
{
    plan_gpu_axis0_multi_fft_rader_threads_with_pass_context_and_tuning(
        sequence_len,
        fft_prime_multiplicities,
        batch_count,
        max_batch_coalesced,
        axis_upload_id == 0,
        portable_tuning(),
        device,
    )
}

/// The split state of a transform with primes of both kinds, in either precision.
///
/// The first optimization knows the primes convolved by transforms only. The registers of
/// the direct primes are then scaled, all tables are levelled to them, and the tree is
/// settled.
#[verifier::opaque]
pub open spec fn mixed_split(
    sequence_len: usize,
    direct_prime_multiplicities: Seq<(usize, usize)>,
    fft_prime_multiplicities: Seq<(usize, usize)>,
    batch_count: usize,
    max_batch_coalesced: usize,
    shrink_first_upload_coalescing: bool,
    tuning: PlannerTuning,
    device: DeviceProfile,
    family: ParentFamily,
) -> PlanResult<Option<RaderSplitModel>> {
    if direct_prime_multiplicities.len() == 0
        || fft_prime_multiplicities.len() == 0
        || direct_request_empty(
            sequence_len,
            batch_count,
            max_batch_coalesced,
            device,
            device.max_workgroup_size[0 as int],
        ) {
        Ok(None)
    } else {
        let limit = dimension_limit(device, device.max_workgroup_size[0 as int]);
        match parent_tree(
            sequence_len,
            direct_prime_multiplicities,
            fft_prime_multiplicities,
            batch_count,
            limit,
            tuning,
            family,
        ) {
            Err(error) => Err(error),
            Ok(None) => Ok(None),
            Ok(Some((tree, multipliers, smooth_outer_factor))) => match axis0_scaled_floor(
                sequence_len,
                direct_prime_multiplicities,
                umin(tree.least, 2),
                max_batch_coalesced,
                limit,
            ) {
                Err(error) => Err(error),
                Ok(None) => Ok(None),
                Ok(Some((rader_min_registers, direct_threads))) => match harmonised_tree(
                    tree,
                    rader_min_registers,
                ) {
                    Err(error) => Err(error),
                    Ok(None) => Ok(None),
                    Ok(Some(harmonised)) => match settled_tree(
                        sequence_len,
                        max_batch_coalesced,
                        shrink_first_upload_coalescing,
                        limit,
                        direct_threads,
                        family.elements,
                        harmonised,
                    ) {
                        Err(error) => Err(error),
                        Ok((settled, _scale)) => match parent_demand(
                            settled,
                            multipliers,
                            smooth_outer_factor,
                            rader_min_registers,
                            family.stage,
                        ) {
                            Err(error) => Err(error),
                            Ok((least, min_rader_fft_thread_num)) => match ceil_div(
                                sequence_len,
                                least,
                            ) {
                                Err(error) => Err(error),
                                Ok(base_axis_threads) => Ok(
                                    Some(
                                        RaderSplitModel {
                                            base_axis_threads,
                                            rader_min_registers,
                                            min_rader_fft_thread_num,
                                            direct_prime_multiplicities: same_pairs(
                                                direct_prime_multiplicities,
                                            ),
                                        },
                                    ),
                                ),
                            },
                        },
                    },
                },
            },
        }
    }
}

fn plan_mixed_split(
    sequence_len: usize,
    direct_prime_multiplicities: &[(usize, usize)],
    fft_prime_multiplicities: &[(usize, usize)],
    batch_count: usize,
    max_batch_coalesced: usize,
    shrink_first_upload_coalescing: bool,
    tuning: PlannerTuning,
    device: DeviceProfile,
    family: ParentFamily,
) -> (planned: PlanResult<Option<Axis0RaderSplitState>>)
    ensures
        viewed_option(planned) == mixed_split(
            sequence_len,
            direct_prime_multiplicities@,
            fft_prime_multiplicities@,
            batch_count,
            max_batch_coalesced,
            shrink_first_upload_coalescing,
            tuning,
            device,
            family,
        ),
{
    reveal(mixed_split);
    if direct_prime_multiplicities.len() == 0
        || fft_prime_multiplicities.len() == 0
        || direct_request_empty(
            sequence_len,
            batch_count,
            max_batch_coalesced,
            device,
            device.max_workgroup_size[0],
        ) {
        return Ok(None);
    }
    let limit: usize = dimension_limit(device, device.max_workgroup_size[0]);
    let (tree, multipliers, smooth_outer_factor) = match plan_parent_tree(
        sequence_len,
        direct_prime_multiplicities,
        fft_prime_multiplicities,
        batch_count,
        limit,
        tuning,
        family,
    ) {
        Ok(Some(value)) => value,
        Ok(None) => {
            return Ok(None);
        },
        Err(error) => {
            return Err(error);
        },
    };
    let (
        rader_min_registers,
        direct_threads,
    ) = match scale_axis0_direct_rader_type1_register_floor_with_max_batch_coalesced(
        sequence_len,
        direct_prime_multiplicities,
        umin(tree.least, 2),
        max_batch_coalesced,
        limit,
    ) {
        Ok(Some(value)) => value,
        Ok(None) => {
            return Ok(None);
        },
        Err(error) => {
            return Err(error);
        },
    };
    let harmonised: RaderRegisterTree = match harmonise_tree(tree, rader_min_registers) {
        Ok(Some(value)) => value,
        Ok(None) => {
            return Ok(None);
        },
        Err(error) => {
            return Err(error);
        },
    };
    let (settled, _scale) = settle_tree(
        sequence_len,
        max_batch_coalesced,
        shrink_first_upload_coalescing,
        limit,
        direct_threads,
        family.elements,
        harmonised,
    )?;
    let (least, min_rader_fft_thread_num) = find_parent_demand(
        settled,
        multipliers,
        smooth_outer_factor,
        rader_min_registers,
        family.stage,
    )?;
    let base_axis_threads: usize = ceil_div(sequence_len, least)?;
    Ok(
        Some(
            Axis0RaderSplitState {
                base_axis_threads,
                rader_min_registers,
                min_rader_fft_thread_num,
                direct_prime_multiplicities: copy_pairs(direct_prime_multiplicities),
            },
        ),
    )
}

/// Lanes of one transform with primes of both kinds: its own lanes rounded up to whole
/// lane groups of the direct primes, or those of the convolutions, within the workgroup.
#[verifier::opaque]
pub open spec fn mixed_threads_in_pass(
    sequence_len: usize,
    direct_prime_multiplicities: Seq<(usize, usize)>,
    fft_prime_multiplicities: Seq<(usize, usize)>,
    batch_count: usize,
    max_batch_coalesced: usize,
    shrink_first_upload_coalescing: bool,
    tuning: PlannerTuning,
    device: DeviceProfile,
) -> PlanResult<Option<usize>> {
    match mixed_split(
        sequence_len,
        direct_prime_multiplicities,
        fft_prime_multiplicities,
        batch_count,
        max_batch_coalesced,
        shrink_first_upload_coalescing,
        tuning,
        device,
        mixed_family(),
    ) {
        Err(error) => Err(error),
        Ok(None) => Ok(None),
        Ok(Some(state)) => {
            let limit = dimension_limit(device, device.max_workgroup_size[0 as int]);
            match rounded_direct(
                sequence_len,
                direct_prime_multiplicities,
                state.base_axis_threads,
                state.rader_min_registers,
                max_batch_coalesced,
                limit,
                "mixed multi-Rader AxisBlockSplitter direct rounding",
            ) {
                Err(error) => Err(error),
                Ok(None) => Ok(None),
                Ok(Some(threads)) => Ok(
                    Some(umax(umin(umax(threads, state.min_rader_fft_thread_num), limit), 1)),
                ),
            }
        },
    }
}

pub fn plan_gpu_axis0_mixed_direct_multi_fft_rader_threads_with_pass_context(
    sequence_len: usize,
    direct_prime_multiplicities: &[(usize, usize)],
    fft_prime_multiplicities: &[(usize, usize)],
    batch_count: usize,
    max_batch_coalesced: usize,
    shrink_first_upload_coalescing: bool,
    tuning: PlannerTuning,
    device: DeviceProfile,
) -> (planned: PlanResult<Option<usize>>)
    ensures
        planned == mixed_threads_in_pass(
            sequence_len,
            direct_prime_multiplicities@,
            fft_prime_multiplicities@,
            batch_count,
            max_batch_coalesced,
            shrink_first_upload_coalescing,
            tuning,
            device,
        ),
{
    reveal(mixed_threads_in_pass);
    let state: Axis0RaderSplitState = match plan_mixed_split(
        sequence_len,
        direct_prime_multiplicities,
        fft_prime_multiplicities,
        batch_count,
        max_batch_coalesced,
        shrink_first_upload_coalescing,
        tuning,
        device,
        mixed_family(),
    ) {
        Ok(Some(value)) => value,
        Ok(None) => {
            return Ok(None);
        },
        Err(error) => {
            return Err(error);
        },
    };
    let limit: usize = dimension_limit(device, device.max_workgroup_size[0]);
    let threads: usize = match round_direct_threads(
        sequence_len,
        direct_prime_multiplicities,
        state.base_axis_threads,
        state.rader_min_registers,
        max_batch_coalesced,
        limit,
        "mixed multi-Rader AxisBlockSplitter direct rounding",
    ) {
        Ok(Some(value)) => value,
        Ok(None) => {
            return Ok(None);
        },
        Err(error) => {
            return Err(error);
        },
    };
    Ok(Some(umax(umin(umax(threads, state.min_rader_fft_thread_num), limit), 1)))
}

/// The same for one transform per workgroup.
pub open spec fn mixed_threads_tuned(
    sequence_len: usize,
    direct_prime_multiplicities: Seq<(usize, usize)>,
    fft_prime_multiplicities: Seq<(usize, usize)>,
    batch_count: usize,
    tuning: PlannerTuning,
    device: DeviceProfile,
) -> PlanResult<Option<usize>> {
    mixed_threads_in_pass(
        sequence_len,
        direct_prime_multiplicities,
        fft_prime_multiplicities,
        batch_count,
        1,
        false,
        tuning,
        device,
    )
}

pub fn plan_gpu_axis0_mixed_direct_multi_fft_rader_threads_with_tuning(
    sequence_len: usize,
    direct_prime_multiplicities: &[(usize, usize)],
    fft_prime_multiplicities: &[(usize, usize)],
    batch_count: usize,
    tuning: PlannerTuning,
    device: DeviceProfile,
) -> (planned: PlanResult<Option<usize>>)
    ensures
        planned == mixed_threads_tuned(
            sequence_len,
            direct_prime_multiplicities@,
            fft_prime_multiplicities@,
            batch_count,
            tuning,
            device,
        ),
{
    plan_gpu_axis0_mixed_direct_multi_fft_rader_threads_with_pass_context(
        sequence_len,
        direct_prime_multiplicities,
        fft_prime_multiplicities,
        batch_count,
        1,
        false,
        tuning,
        device,
    )
}

/// The same for one transform per workgroup, under the portable tuning.
pub open spec fn mixed_threads(
    sequence_len: usize,
    direct_prime_multiplicities: Seq<(usize, usize)>,
    fft_prime_multiplicities: Seq<(usize, usize)>,
    batch_count: usize,
    device: DeviceProfile,
) -> PlanResult<Option<usize>> {
    mixed_threads_tuned(
        sequence_len,
        direct_prime_multiplicities,
        fft_prime_multiplicities,
        batch_count,
        portable(),
        device,
    )
}

pub fn plan_gpu_axis0_mixed_direct_multi_fft_rader_threads(
    sequence_len: usize,
    direct_prime_multiplicities: &[(usize, usize)],
    fft_prime_multiplicities: &[(usize, usize)],
    batch_count: usize,
    device: DeviceProfile,
) -> (planned: PlanResult<Option<usize>>)
    ensures
        planned == mixed_threads(
            sequence_len,
            direct_prime_multiplicities@,
            fft_prime_multiplicities@,
            batch_count,
            device,
        ),
{
    plan_gpu_axis0_mixed_direct_multi_fft_rader_threads_with_tuning(
        sequence_len,
        direct_prime_multiplicities,
        fft_prime_multiplicities,
        batch_count,
        portable_tuning(),
        device,
    )
}

/// The same under the portable tuning, several transforms sharing a workgroup.
pub open spec fn mixed_threads_coalesced(
    sequence_len: usize,
    direct_prime_multiplicities: Seq<(usize, usize)>,
    fft_prime_multiplicities: Seq<(usize, usize)>,
    batch_count: usize,
    max_batch_coalesced: usize,
    device: DeviceProfile,
) -> PlanResult<Option<usize>> {
    mixed_threads_in_pass(
        sequence_len,
        direct_prime_multiplicities,
        fft_prime_multiplicities,
        batch_count,
        max_batch_coalesced,
        false,
        portable(),
        device,
    )
}

pub fn plan_gpu_axis0_mixed_direct_multi_fft_rader_threads_with_max_batch_coalesced(
    sequence_len: usize,
    direct_prime_multiplicities: &[(usize, usize)],
    fft_prime_multiplicities: &[(usize, usize)],
    batch_count: usize,
    max_batch_coalesced: usize,
    device: DeviceProfile,
) -> (planned: PlanResult<Option<usize>>)
    ensures
        planned == mixed_threads_coalesced(
            sequence_len,
            direct_prime_multiplicities@,
            fft_prime_multiplicities@,
            batch_count,
            max_batch_coalesced,
            device,
        ),
{
    plan_gpu_axis0_mixed_direct_multi_fft_rader_threads_with_pass_context(
        sequence_len,
        direct_prime_multiplicities,
        fft_prime_multiplicities,
        batch_count,
        max_batch_coalesced,
        false,
        portable_tuning(),
        device,
    )
}

/// The same where a single prime is convolved by transforms.
pub open spec fn mixed_single_fft_threads(
    sequence_len: usize,
    direct_prime_multiplicities: Seq<(usize, usize)>,
    fft_prime: usize,
    batch_count: usize,
    device: DeviceProfile,
) -> PlanResult<Option<usize>> {
    let primes = once(fft_prime);
    mixed_threads(sequence_len, direct_prime_multiplicities, primes, batch_count, device)
}

pub fn plan_gpu_axis0_mixed_direct_fft_rader_threads(
    sequence_len: usize,
    direct_prime_multiplicities: &[(usize, usize)],
    fft_prime: usize,
    batch_count: usize,
    device: DeviceProfile,
) -> (planned: PlanResult<Option<usize>>)
    ensures
        planned == mixed_single_fft_threads(
            sequence_len,
            direct_prime_multiplicities@,
            fft_prime,
            batch_count,
            device,
        ),
{
    let primes: Vec<(usize, usize)> = single_pair(fft_prime);
    plan_gpu_axis0_mixed_direct_multi_fft_rader_threads(
        sequence_len,
        direct_prime_multiplicities,
        primes.as_slice(),
        batch_count,
        device,
    )
}

/// The split state of a double-double transform with primes of both kinds.
pub open spec fn double_double_mixed_split(
    sequence_len: usize,
    direct_prime_multiplicities: Seq<(usize, usize)>,
    fft_prime_multiplicities: Seq<(usize, usize)>,
    batch_count: usize,
    max_batch_coalesced: usize,
    shrink_first_upload_coalescing: bool,
    tuning: PlannerTuning,
    device: DeviceProfile,
) -> PlanResult<Option<RaderSplitModel>> {
    mixed_split(
        sequence_len,
        direct_prime_multiplicities,
        fft_prime_multiplicities,
        batch_count,
        max_batch_coalesced,
        shrink_first_upload_coalescing,
        tuning,
        device,
        double_double_mixed_family(),
    )
}

pub fn plan_gpu_double_double_axis0_mixed_direct_multi_fft_rader_split_state_with_pass_context(
    sequence_len: usize,
    direct_prime_multiplicities: &[(usize, usize)],
    fft_prime_multiplicities: &[(usize, usize)],
    batch_count: usize,
    max_batch_coalesced: usize,
    shrink_first_upload_coalescing: bool,
    tuning: PlannerTuning,
    device: DeviceProfile,
) -> (planned: PlanResult<Option<Axis0RaderSplitState>>)
    ensures
        viewed_option(planned) == double_double_mixed_split(
            sequence_len,
            direct_prime_multiplicities@,
            fft_prime_multiplicities@,
            batch_count,
            max_batch_coalesced,
            shrink_first_upload_coalescing,
            tuning,
            device,
        ),
{
    plan_mixed_split(
        sequence_len,
        direct_prime_multiplicities,
        fft_prime_multiplicities,
        batch_count,
        max_batch_coalesced,
        shrink_first_upload_coalescing,
        tuning,
        device,
        double_double_mixed_family(),
    )
}

/// The split state in one upload of a forced split.
pub open spec fn double_double_mixed_split_of_upload(
    sequence_len: usize,
    direct_prime_multiplicities: Seq<(usize, usize)>,
    fft_prime_multiplicities: Seq<(usize, usize)>,
    batch_count: usize,
    max_batch_coalesced: usize,
    axis_upload_id: usize,
    tuning: PlannerTuning,
    device: DeviceProfile,
) -> PlanResult<Option<RaderSplitModel>> {
    double_double_mixed_split(
        sequence_len,
        direct_prime_multiplicities,
        fft_prime_multiplicities,
        batch_count,
        max_batch_coalesced,
        axis_upload_id == 0,
        tuning,
        device,
    )
}

pub fn plan_gpu_double_double_axis0_mixed_direct_multi_fft_rader_split_state_for_forced_upload_with_tuning(
    sequence_len: usize,
    direct_prime_multiplicities: &[(usize, usize)],
    fft_prime_multiplicities: &[(usize, usize)],
    batch_count: usize,
    max_batch_coalesced: usize,
    axis_upload_id: usize,
    tuning: PlannerTuning,
    device: DeviceProfile,
) -> (planned: PlanResult<Option<Axis0RaderSplitState>>)
    ensures
        viewed_option(planned) == double_double_mixed_split_of_upload(
            sequence_len,
            direct_prime_multiplicities@,
            fft_prime_multiplicities@,
            batch_count,
            max_batch_coalesced,
            axis_upload_id,
            tuning,
            device,
        ),
{
    plan_gpu_double_double_axis0_mixed_direct_multi_fft_rader_split_state_with_pass_context(
        sequence_len,
        direct_prime_multiplicities,
        fft_prime_multiplicities,
        batch_count,
        max_batch_coalesced,
        axis_upload_id == 0,
        tuning,
        device,
    )
}

/// Lanes of one double-double transform with primes of both kinds.
#[verifier::opaque]
pub open spec fn double_double_mixed_threads_in_pass(
    sequence_len: usize,
    direct_prime_multiplicities: Seq<(usize, usize)>,
    fft_prime_multiplicities: Seq<(usize, usize)>,
    batch_count: usize,
    max_batch_coalesced: usize,
    shrink_first_upload_coalescing: bool,
    tuning: PlannerTuning,
    device: DeviceProfile,
) -> PlanResult<Option<usize>> {
    match double_double_mixed_split(
        sequence_len,
        direct_prime_multiplicities,
        fft_prime_multiplicities,
        batch_count,
        max_batch_coalesced,
        shrink_first_upload_coalescing,
        tuning,
        device,
    ) {
        Err(error) => Err(error),
        Ok(None) => Ok(None),
        Ok(Some(state)) => threads_from_split(
            sequence_len,
            state,
            max_batch_coalesced,
            dimension_limit(device, device.max_workgroup_size[0 as int]),
        ),
    }
}

pub fn plan_gpu_double_double_axis0_mixed_direct_multi_fft_rader_threads_with_pass_context(
    sequence_len: usize,
    direct_prime_multiplicities: &[(usize, usize)],
    fft_prime_multiplicities: &[(usize, usize)],
    batch_count: usize,
    max_batch_coalesced: usize,
    shrink_first_upload_coalescing: bool,
    tuning: PlannerTuning,
    device: DeviceProfile,
) -> (planned: PlanResult<Option<usize>>)
    ensures
        planned == double_double_mixed_threads_in_pass(
            sequence_len,
            direct_prime_multiplicities@,
            fft_prime_multiplicities@,
            batch_count,
            max_batch_coalesced,
            shrink_first_upload_coalescing,
            tuning,
            device,
        ),
{
    reveal(double_double_mixed_threads_in_pass);
    let state: Axis0RaderSplitState =
        match plan_gpu_double_double_axis0_mixed_direct_multi_fft_rader_split_state_with_pass_context(
        sequence_len,
        direct_prime_multiplicities,
        fft_prime_multiplicities,
        batch_count,
        max_batch_coalesced,
        shrink_first_upload_coalescing,
        tuning,
        device,
    ) {
        Ok(Some(value)) => value,
        Ok(None) => {
            return Ok(None);
        },
        Err(error) => {
            return Err(error);
        },
    };
    axis0_rader_threads_from_split_state(
        sequence_len,
        &state,
        max_batch_coalesced,
        dimension_limit(device, device.max_workgroup_size[0]),
    )
}

/// The same for one transform per workgroup.
pub open spec fn double_double_mixed_threads_tuned(
    sequence_len: usize,
    direct_prime_multiplicities: Seq<(usize, usize)>,
    fft_prime_multiplicities: Seq<(usize, usize)>,
    batch_count: usize,
    tuning: PlannerTuning,
    device: DeviceProfile,
) -> PlanResult<Option<usize>> {
    double_double_mixed_threads_in_pass(
        sequence_len,
        direct_prime_multiplicities,
        fft_prime_multiplicities,
        batch_count,
        1,
        false,
        tuning,
        device,
    )
}

pub fn plan_gpu_double_double_axis0_mixed_direct_multi_fft_rader_threads_with_tuning(
    sequence_len: usize,
    direct_prime_multiplicities: &[(usize, usize)],
    fft_prime_multiplicities: &[(usize, usize)],
    batch_count: usize,
    tuning: PlannerTuning,
    device: DeviceProfile,
) -> (planned: PlanResult<Option<usize>>)
    ensures
        planned == double_double_mixed_threads_tuned(
            sequence_len,
            direct_prime_multiplicities@,
            fft_prime_multiplicities@,
            batch_count,
            tuning,
            device,
        ),
{
    plan_gpu_double_double_axis0_mixed_direct_multi_fft_rader_threads_with_pass_context(
        sequence_len,
        direct_prime_multiplicities,
        fft_prime_multiplicities,
        batch_count,
        1,
        false,
        tuning,
        device,
    )
}

/// The same for one transform per workgroup, under the portable tuning.
pub open spec fn double_double_mixed_threads(
    sequence_len: usize,
    direct_prime_multiplicities: Seq<(usize, usize)>,
    fft_prime_multiplicities: Seq<(usize, usize)>,
    batch_count: usize,
    device: DeviceProfile,
) -> PlanResult<Option<usize>> {
    double_double_mixed_threads_tuned(
        sequence_len,
        direct_prime_multiplicities,
        fft_prime_multiplicities,
        batch_count,
        portable(),
        device,
    )
}

pub fn plan_gpu_double_double_axis0_mixed_direct_multi_fft_rader_threads(
    sequence_len: usize,
    direct_prime_multiplicities: &[(usize, usize)],
    fft_prime_multiplicities: &[(usize, usize)],
    batch_count: usize,
    device: DeviceProfile,
) -> (planned: PlanResult<Option<usize>>)
    ensures
        planned == double_double_mixed_threads(
            sequence_len,
            direct_prime_multiplicities@,
            fft_prime_multiplicities@,
            batch_count,
            device,
        ),
{
    plan_gpu_double_double_axis0_mixed_direct_multi_fft_rader_threads_with_tuning(
        sequence_len,
        direct_prime_multiplicities,
        fft_prime_multiplicities,
        batch_count,
        portable_tuning(),
        device,
    )
}

/// The same in one upload of a forced split.
pub open spec fn double_double_mixed_threads_of_upload(
    sequence_len: usize,
    direct_prime_multiplicities: Seq<(usize, usize)>,
    fft_prime_multiplicities: Seq<(usize, usize)>,
    batch_count: usize,
    max_batch_coalesced: usize,
    axis_upload_id: usize,
    tuning: PlannerTuning,
    device: DeviceProfile,
) -> PlanResult<Option<usize>> {
    double_double_mixed_threads_in_pass(
        sequence_len,
        direct_prime_multiplicities,
        fft_prime_multiplicities,
        batch_count,
        max_batch_coalesced,
        axis_upload_id == 0,
        tuning,
        device,
    )
}

pub fn plan_gpu_double_double_axis0_mixed_direct_multi_fft_rader_threads_for_forced_upload_with_tuning(
    sequence_len: usize,
    direct_prime_multiplicities: &[(usize, usize)],
    fft_prime_multiplicities: &[(usize, usize)],
    batch_count: usize,
    max_batch_coalesced: usize,
    axis_upload_id: usize,
    tuning: PlannerTuning,
    device: DeviceProfile,
) -> (planned: PlanResult<Option<usize>>)
    ensures
        planned == double_double_mixed_threads_of_upload(
            sequence_len,
            direct_prime_multiplicities@,
            fft_prime_multiplicities@,
            batch_count,
            max_batch_coalesced,
            axis_upload_id,
            tuning,
            device,
        ),
{
    plan_gpu_double_double_axis0_mixed_direct_multi_fft_rader_threads_with_pass_context(
        sequence_len,
        direct_prime_multiplicities,
        fft_prime_multiplicities,
        batch_count,
        max_batch_coalesced,
        axis_upload_id == 0,
        tuning,
        device,
    )
}

/// The same where a single prime is convolved by transforms.
pub open spec fn double_double_mixed_single_fft_threads(
    sequence_len: usize,
    direct_prime_multiplicities: Seq<(usize, usize)>,
    fft_prime: usize,
    batch_count: usize,
    device: DeviceProfile,
) -> PlanResult<Option<usize>> {
    let primes = once(fft_prime);
    double_double_mixed_threads(
        sequence_len,
        direct_prime_multiplicities,
        primes,
        batch_count,
        device,
    )
}

pub fn plan_gpu_double_double_axis0_mixed_direct_fft_rader_threads(
    sequence_len: usize,
    direct_prime_multiplicities: &[(usize, usize)],
    fft_prime: usize,
    batch_count: usize,
    device: DeviceProfile,
) -> (planned: PlanResult<Option<usize>>)
    ensures
        planned == double_double_mixed_single_fft_threads(
            sequence_len,
            direct_prime_multiplicities@,
            fft_prime,
            batch_count,
            device,
        ),
{
    let primes: Vec<(usize, usize)> = single_pair(fft_prime);
    plan_gpu_double_double_axis0_mixed_direct_multi_fft_rader_threads(
        sequence_len,
        direct_prime_multiplicities,
        primes.as_slice(),
        batch_count,
        device,
    )
}

/// Lanes of one double-double transform whose primes are all convolved by transforms.
pub open spec fn double_double_fft_threads_in_pass(
    sequence_len: usize,
    fft_prime_multiplicities: Seq<(usize, usize)>,
    batch_count: usize,
    max_batch_coalesced: usize,
    shrink_first_upload_coalescing: bool,
    tuning: PlannerTuning,
    device: DeviceProfile,
) -> PlanResult<Option<usize>> {
    match fft_parent_of_family(
        sequence_len,
        fft_prime_multiplicities,
        batch_count,
        max_batch_coalesced,
        shrink_first_upload_coalescing,
        tuning,
        device,
        double_double_fft_family(),
    ) {
        Err(error) => Err(error),
        Ok(None) => Ok(None),
        Ok(Some(schedule)) => Ok(Some(umax(schedule.threads_per_transform, 1))),
    }
}

pub fn plan_gpu_double_double_axis0_fft_rader_threads_for_prime_multiplicities_with_pass_context(
    sequence_len: usize,
    fft_prime_multiplicities: &[(usize, usize)],
    batch_count: usize,
    max_batch_coalesced: usize,
    shrink_first_upload_coalescing: bool,
    tuning: PlannerTuning,
    device: DeviceProfile,
) -> (planned: PlanResult<Option<usize>>)
    ensures
        planned == double_double_fft_threads_in_pass(
            sequence_len,
            fft_prime_multiplicities@,
            batch_count,
            max_batch_coalesced,
            shrink_first_upload_coalescing,
            tuning,
            device,
        ),
{
    let schedule: MultiFftRaderParentSchedule = match plan_fft_parent(
        sequence_len,
        fft_prime_multiplicities,
        batch_count,
        max_batch_coalesced,
        shrink_first_upload_coalescing,
        tuning,
        device,
        double_double_fft_family(),
    ) {
        Ok(Some(value)) => value,
        Ok(None) => {
            return Ok(None);
        },
        Err(error) => {
            return Err(error);
        },
    };
    Ok(Some(umax(schedule.threads_per_transform, 1)))
}

/// The same for one transform per workgroup.
pub open spec fn double_double_fft_threads_tuned(
    sequence_len: usize,
    fft_prime_multiplicities: Seq<(usize, usize)>,
    batch_count: usize,
    tuning: PlannerTuning,
    device: DeviceProfile,
) -> PlanResult<Option<usize>> {
    double_double_fft_threads_in_pass(
        sequence_len,
        fft_prime_multiplicities,
        batch_count,
        1,
        false,
        tuning,
        device,
    )
}

pub fn plan_gpu_double_double_axis0_fft_rader_threads_for_prime_multiplicities_with_tuning(
    sequence_len: usize,
    fft_prime_multiplicities: &[(usize, usize)],
    batch_count: usize,
    tuning: PlannerTuning,
    device: DeviceProfile,
) -> (planned: PlanResult<Option<usize>>)
    ensures
        planned == double_double_fft_threads_tuned(
            sequence_len,
            fft_prime_multiplicities@,
            batch_count,
            tuning,
            device,
        ),
{
    plan_gpu_double_double_axis0_fft_rader_threads_for_prime_multiplicities_with_pass_context(
        sequence_len,
        fft_prime_multiplicities,
        batch_count,
        1,
        false,
        tuning,
        device,
    )
}

/// The same for one transform per workgroup, under the portable tuning.
pub open spec fn double_double_fft_threads(
    sequence_len: usize,
    fft_prime_multiplicities: Seq<(usize, usize)>,
    batch_count: usize,
    device: DeviceProfile,
) -> PlanResult<Option<usize>> {
    double_double_fft_threads_tuned(
        sequence_len,
        fft_prime_multiplicities,
        batch_count,
        portable(),
        device,
    )
}

pub fn plan_gpu_double_double_axis0_fft_rader_threads_for_prime_multiplicities(
    sequence_len: usize,
    fft_prime_multiplicities: &[(usize, usize)],
    batch_count: usize,
    device: DeviceProfile,
) -> (planned: PlanResult<Option<usize>>)
    ensures
        planned == double_double_fft_threads(
            sequence_len,
            fft_prime_multiplicities@,
            batch_count,
            device,
        ),
{
    plan_gpu_double_double_axis0_fft_rader_threads_for_prime_multiplicities_with_tuning(
        sequence_len,
        fft_prime_multiplicities,
        batch_count,
        portable_tuning(),
        device,
    )
}

/// The same in one upload of a forced split.
pub open spec fn double_double_fft_threads_of_upload(
    sequence_len: usize,
    fft_prime_multiplicities: Seq<(usize, usize)>,
    batch_count: usize,
    max_batch_coalesced: usize,
    axis_upload_id: usize,
    tuning: PlannerTuning,
    device: DeviceProfile,
) -> PlanResult<Option<usize>> {
    double_double_fft_threads_in_pass(
        sequence_len,
        fft_prime_multiplicities,
        batch_count,
        max_batch_coalesced,
        axis_upload_id == 0,
        tuning,
        device,
    )
}

pub fn plan_gpu_double_double_axis0_fft_rader_threads_for_forced_upload_with_tuning(
    sequence_len: usize,
    fft_prime_multiplicities: &[(usize, usize)],
    batch_count: usize,
    max_batch_coalesced: usize,
    axis_upload_id: usize,
    tuning: PlannerTuning,
    device: DeviceProfile,
) -> (planned: PlanResult<Option<usize>>)
    ensures
        planned == double_double_fft_threads_of_upload(
            sequence_len,
            fft_prime_multiplicities@,
            batch_count,
            max_batch_coalesced,
            axis_upload_id,
            tuning,
            device,
        ),
{
    plan_gpu_double_double_axis0_fft_rader_threads_for_prime_multiplicities_with_pass_context(
        sequence_len,
        fft_prime_multiplicities,
        batch_count,
        max_batch_coalesced,
        axis_upload_id == 0,
        tuning,
        device,
    )
}

/// A schedule of a transform whose primes are all convolved by transforms takes at least one
/// lane, fits the workgroup, gives every value of the transform a register, and has the
/// lanes that its convolutions need.
pub proof fn fft_parents_fit(
    sequence_len: usize,
    primes: Seq<(usize, usize)>,
    batch_count: usize,
    max_batch_coalesced: usize,
    shrink_first_upload_coalescing: bool,
    tuning: PlannerTuning,
    device: DeviceProfile,
    family: ParentFamily,
)
    ensures
        fft_parent_of_family(
            sequence_len,
            primes,
            batch_count,
            max_batch_coalesced,
            shrink_first_upload_coalescing,
            tuning,
            device,
            family,
        ) matches Ok(Some(schedule)) ==> {
            &&& 1 <= schedule.threads_per_transform <= dimension_limit(
                device,
                device.max_workgroup_size[0],
            )
            &&& schedule.threads_per_transform * schedule.final_min_registers >= sequence_len
            &&& schedule.threads_per_transform >= schedule.min_rader_fft_thread_num
        },
{
    reveal(fft_parent_of_family);
    if let Ok(Some(schedule)) = fft_parent_of_family(
        sequence_len,
        primes,
        batch_count,
        max_batch_coalesced,
        shrink_first_upload_coalescing,
        tuning,
        device,
        family,
    ) {
        let least = schedule.final_min_registers;
        ceil_div_is_least_cover(sequence_len, least);
        let ordinary = ceil_div(sequence_len, least)->Ok_0;
        assert(schedule.threads_per_transform >= ordinary);
        assert(schedule.threads_per_transform * least >= ordinary * least) by (nonlinear_arith)
            requires
                schedule.threads_per_transform >= ordinary,
        ;
    }
}

/// Every lane estimate of a transform with primes of both kinds is at least one and fits
/// the workgroup.
pub proof fn mixed_estimates_fit(
    sequence_len: usize,
    direct: Seq<(usize, usize)>,
    primes: Seq<(usize, usize)>,
    batch_count: usize,
    max_batch_coalesced: usize,
    shrink_first_upload_coalescing: bool,
    tuning: PlannerTuning,
    device: DeviceProfile,
)
    ensures
        lanes_within(
            mixed_threads_in_pass(
                sequence_len,
                direct,
                primes,
                batch_count,
                max_batch_coalesced,
                shrink_first_upload_coalescing,
                tuning,
                device,
            ),
            dimension_limit(device, device.max_workgroup_size[0]),
        ),
        lanes_within(
            double_double_mixed_threads_in_pass(
                sequence_len,
                direct,
                primes,
                batch_count,
                max_batch_coalesced,
                shrink_first_upload_coalescing,
                tuning,
                device,
            ),
            dimension_limit(device, device.max_workgroup_size[0]),
        ),
{
    reveal(mixed_threads_in_pass);
    reveal(double_double_mixed_threads_in_pass);
    reveal(mixed_split);
    reveal(threads_from_split);
}

} // verus!
