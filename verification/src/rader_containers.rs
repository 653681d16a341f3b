//! Rader containers of a transform, each of which may hold containers of its own.
//!
//! A prime `p` is convolved over `p - 1` points. Where that length has prime factors too
//! large for the radix table, they are Rader primes in turn.

use vstd::prelude::*;

use crate::arith::{checked_mul, umin};
use crate::axis_block::quotient;
use crate::config::PlannerTuning;
use crate::error::{PlanResult, VkFftError};
use crate::factors::{distinct_factors, distinct_factors_are_bounded, distinct_prime_factors};
use crate::rader_tables::{
    build_zero_table, peeled_from, peeled_multipliers, rader_small_radix_multipliers_with_residual,
};
use crate::registers::{viewed_option, zero_table, RadixTable, VKFFT_RADIX_TABLE_LEN};
use crate::shared_search::{rader_optimize_shared_register_table, shared_register_table};

verus! {

/// How a Rader prime is convolved: by transforms of length `p - 1`, or directly.
#[derive(Debug, Clone, Copy, PartialEq, Eq, Structural)]
pub enum MultiFftRaderContainerKind {
    Fft,
    Direct,
}

/// Register state of one Rader prime and of the primes its convolution needs.
#[derive(Debug)]
pub struct MultiFftRaderContainerRegisterState {
    pub kind: MultiFftRaderContainerKind,
    pub prime: usize,
    pub container_fft_num: usize,
    pub registers_per_thread_per_radix: RadixTable,
    pub registers_per_thread: usize,
    pub min_registers_per_thread: usize,
    pub stage_radix_multipliers: RadixTable,
    pub subcontainers: Vec<MultiFftRaderContainerRegisterState>,
}

/// Mathematical content of a [`MultiFftRaderContainerRegisterState`].
#[verifier::ext_equal]
pub struct RaderContainerModel {
    pub kind: MultiFftRaderContainerKind,
    pub prime: usize,
    pub container_fft_num: usize,
    pub registers_per_thread_per_radix: Seq<usize>,
    pub registers_per_thread: usize,
    pub min_registers_per_thread: usize,
    pub stage_radix_multipliers: Seq<usize>,
    pub subcontainers: Seq<RaderContainerModel>,
}

/// The model of one container.
pub open spec fn container_view(
    container: MultiFftRaderContainerRegisterState,
) -> RaderContainerModel
    decreases container,
{
    RaderContainerModel {
        kind: container.kind,
        prime: container.prime,
        container_fft_num: container.container_fft_num,
        registers_per_thread_per_radix: container.registers_per_thread_per_radix@,
        registers_per_thread: container.registers_per_thread,
        min_registers_per_thread: container.min_registers_per_thread,
        stage_radix_multipliers: container.stage_radix_multipliers@,
        subcontainers: containers_view(container.subcontainers@),
    }
}

/// The models of a list of containers.
pub open spec fn containers_view(containers: Seq<MultiFftRaderContainerRegisterState>) -> Seq<
    RaderContainerModel,
>
    decreases containers,
{
    Seq::new(
        containers.len(),
        |i: int|
            if 0 <= i < containers.len() {
                container_view(containers[i])
            } else {
                arbitrary()
            },
    )
}

impl View for MultiFftRaderContainerRegisterState {
    type V = RaderContainerModel;

    open spec fn view(&self) -> RaderContainerModel {
        container_view(*self)
    }
}

/// What planning a list of containers gives, over their models.
pub open spec fn viewed_containers(
    planned: PlanResult<Option<Vec<MultiFftRaderContainerRegisterState>>>,
) -> PlanResult<Option<Seq<RaderContainerModel>>> {
    match planned {
        Ok(Some(containers)) => Ok(Some(containers_view(containers@))),
        Ok(None) => Ok(None),
        Err(error) => Err(error),
    }
}

/// Whether every factor lies below the bound.
pub open spec fn factors_below(factors: Seq<(usize, usize)>, bound: usize) -> bool {
    forall|i: int| 0 <= i < factors.len() ==> (#[trigger] factors[i]).0 < bound
}

/// How a prime is convolved under this tuning.
///
/// A prime in the FFT range whose `p - 1` only has small factors goes there. Else the
/// direct range decides, and the FFT range again where nesting is allowed.
pub open spec fn container_kind(prime: usize, tuning: PlannerTuning) -> Option<
    MultiFftRaderContainerKind,
> {
    let fft_eligible = tuning.min_rader_fft_prime <= prime < tuning.max_rader_fft_prime;
    if prime < 3 {
        None
    } else if fft_eligible && factors_below(
        distinct_factors((prime - 1) as usize),
        tuning.min_rader_direct_prime,
    ) {
        Some(MultiFftRaderContainerKind::Fft)
    } else if tuning.min_rader_direct_prime <= prime < tuning.max_rader_direct_prime {
        Some(MultiFftRaderContainerKind::Direct)
    } else if tuning.allow_recursive_fft_rader && fft_eligible {
        Some(MultiFftRaderContainerKind::Fft)
    } else {
        None
    }
}

fn all_factors_below(factors: &Vec<(usize, usize)>, bound: usize) -> (below: bool)
    ensures
        below == factors_below(factors@, bound),
{
    let mut index: usize = 0;
    while index < factors.len()
        invariant
            index <= factors.len(),
            forall|i: int| 0 <= i < index ==> (#[trigger] factors@[i]).0 < bound,
        decreases factors.len() - index,
    {
        if factors[index].0 >= bound {
            assert(factors@[index as int].0 >= bound);
            return false;
        }
        index = index + 1;
    }
    true
}

pub fn nested_rader_container_kind(prime: usize, tuning: PlannerTuning) -> (kind: Option<
    MultiFftRaderContainerKind,
>)
    ensures
        kind == container_kind(prime, tuning),
{
    if prime < 3 {
        return None;
    }
    let fft_eligible: bool = prime >= tuning.min_rader_fft_prime && prime
        < tuning.max_rader_fft_prime;
    if fft_eligible {
        let factors: Vec<(usize, usize)> = distinct_prime_factors(prime - 1);
        if all_factors_below(&factors, tuning.min_rader_direct_prime) {
            return Some(MultiFftRaderContainerKind::Fft);
        }
    }
    if prime >= tuning.min_rader_direct_prime && prime < tuning.max_rader_direct_prime {
        return Some(MultiFftRaderContainerKind::Direct);
    }
    if tuning.allow_recursive_fft_rader && fft_eligible {
        return Some(MultiFftRaderContainerKind::Fft);
    }
    None
}

/// A directly convolved prime takes two registers and has no stages.
pub open spec fn direct_container(prime: usize, container_fft_num: usize) -> RaderContainerModel {
    RaderContainerModel {
        kind: MultiFftRaderContainerKind::Direct,
        prime,
        container_fft_num,
        registers_per_thread_per_radix: zero_table(),
        registers_per_thread: 2,
        min_registers_per_thread: 2,
        stage_radix_multipliers: zero_table(),
        subcontainers: Seq::empty(),
    }
}

fn make_direct_container(prime: usize, container_fft_num: usize) -> (container:
    MultiFftRaderContainerRegisterState)
    ensures
        container@ == direct_container(prime, container_fft_num),
{
    let container = MultiFftRaderContainerRegisterState {
        kind: MultiFftRaderContainerKind::Direct,
        prime,
        container_fft_num,
        registers_per_thread_per_radix: build_zero_table(),
        registers_per_thread: 2,
        min_registers_per_thread: 2,
        stage_radix_multipliers: build_zero_table(),
        subcontainers: Vec::new(),
    };
    proof {
        reveal_with_fuel(container_view, 2);
        assert(containers_view(container.subcontainers@) =~= Seq::empty());
    }
    container
}

pub proof fn peeled_rest_is_bounded(rest: int, multipliers: Seq<usize>, radix: int, end: int)
    requires
        1 <= rest <= usize::MAX,
        radix >= 2,
    ensures
        1 <= peeled_from(rest, multipliers, radix, end).1 <= rest,
    decreases end - radix,
{
    if radix < end {
        crate::arith::stripped_times_power(rest, radix);
        peeled_rest_is_bounded(
            crate::arith::stripped(rest, radix),
            multipliers.update(radix, crate::arith::multiplicity(rest, radix) as usize),
            radix + 1,
            end,
        );
    }
}

/// The container of a prime that is convolved by transforms, with all containers inside.
pub open spec fn built_container(
    prime: usize,
    container_fft_num: usize,
    tuning: PlannerTuning,
) -> PlanResult<Option<RaderContainerModel>>
    decreases prime, 0int, 0int,
{
    if prime < 3 || container_fft_num == 0 {
        Ok(None)
    } else {
        proof {
            peeled_rest_is_bounded(
                prime - 1,
                zero_table(),
                2,
                umin(tuning.min_rader_direct_prime, VKFFT_RADIX_TABLE_LEN) as int,
            );
        }
        match peeled_multipliers((prime - 1) as usize, tuning.min_rader_direct_prime) {
            Err(error) => Err(error),
            Ok((stage_radix_multipliers, residual)) => match shared_register_table(
                (prime - 1) as usize,
            ) {
                Err(error) => Err(error),
                Ok((table, most, least)) => match nested_containers(
                    residual,
                    container_fft_num,
                    tuning,
                ) {
                    Err(error) => Err(error),
                    Ok(None) => Ok(None),
                    Ok(Some(subcontainers)) => Ok(
                        Some(
                            RaderContainerModel {
                                kind: MultiFftRaderContainerKind::Fft,
                                prime,
                                container_fft_num,
                                registers_per_thread_per_radix: table,
                                registers_per_thread: most,
                                min_registers_per_thread: least,
                                stage_radix_multipliers,
                                subcontainers,
                            },
                        ),
                    ),
                },
            },
        }
    }
}

/// The containers for what small radices leave of a convolution length; `None` where a
/// prime factor of it cannot be convolved.
///
/// Primes convolved by transforms come first, directly convolved ones follow.
pub open spec fn nested_containers(
    residual: usize,
    fft_radix_part: usize,
    tuning: PlannerTuning,
) -> PlanResult<Option<Seq<RaderContainerModel>>>
    decreases residual, 2int, 0int,
{
    if residual == 1 {
        Ok(Some(Seq::empty()))
    } else if fft_radix_part == 0 || !all_classified(distinct_factors(residual), tuning) {
        Ok(None)
    } else {
        match nested_pass(
            residual,
            fft_radix_part,
            tuning,
            MultiFftRaderContainerKind::Fft,
            Seq::empty(),
            0,
        ) {
            Err(error) => Err(error),
            Ok(None) => Ok(None),
            Ok(Some(found)) => nested_pass(
                residual,
                fft_radix_part,
                tuning,
                MultiFftRaderContainerKind::Direct,
                found,
                0,
            ),
        }
    }
}

/// Whether every prime can be convolved.
pub open spec fn all_classified(factors: Seq<(usize, usize)>, tuning: PlannerTuning) -> bool {
    forall|i: int|
        0 <= i < factors.len() ==> container_kind((#[trigger] factors[i]).0, tuning) is Some
}

/// The containers of one kind from factor index `from` on, behind those already found.
pub open spec fn nested_pass(
    residual: usize,
    fft_radix_part: usize,
    tuning: PlannerTuning,
    kind: MultiFftRaderContainerKind,
    found: Seq<RaderContainerModel>,
    from: nat,
) -> PlanResult<Option<Seq<RaderContainerModel>>>
    decreases residual, 1int, distinct_factors(residual).len() - from,
{
    let factors = distinct_factors(residual);
    if from >= factors.len() {
        Ok(Some(found))
    } else {
        proof {
            if residual > 0 {
                distinct_factors_are_bounded(residual);
                assert(factors[from as int].0 <= residual);
            }
        }
        let prime = factors[from as int].0;
        if container_kind(prime, tuning) != Some(kind) {
            nested_pass(residual, fft_radix_part, tuning, kind, found, from + 1)
        } else {
            match checked_mul(
                fft_radix_part,
                quotient(residual, prime),
                "nested Rader container count",
            ) {
                Err(error) => Err(error),
                Ok(count) => match kind {
                    MultiFftRaderContainerKind::Direct => nested_pass(
                        residual,
                        fft_radix_part,
                        tuning,
                        kind,
                        found.push(direct_container(prime, count)),
                        from + 1,
                    ),
                    MultiFftRaderContainerKind::Fft => match built_container(
                        prime,
                        count,
                        tuning,
                    ) {
                        Err(error) => Err(error),
                        Ok(None) => Ok(None),
                        Ok(Some(container)) => nested_pass(
                            residual,
                            fft_radix_part,
                            tuning,
                            kind,
                            found.push(container),
                            from + 1,
                        ),
                    },
                },
            }
        }
    }
}

fn classifies_all(factors: &Vec<(usize, usize)>, tuning: PlannerTuning) -> (all: bool)
    ensures
        all == all_classified(factors@, tuning),
{
    let mut index: usize = 0;
    while index < factors.len()
        invariant
            index <= factors.len(),
            forall|i: int|
                0 <= i < index ==> container_kind((#[trigger] factors@[i]).0, tuning) is Some,
        decreases factors.len() - index,
    {
        if nested_rader_container_kind(factors[index].0, tuning).is_none() {
            assert(container_kind(factors@[index as int].0, tuning) is None);
            return false;
        }
        index = index + 1;
    }
    true
}

proof fn view_of_pushed(
    containers: Seq<MultiFftRaderContainerRegisterState>,
    container: MultiFftRaderContainerRegisterState,
)
    ensures
        containers_view(containers.push(container)) == containers_view(containers).push(
            container@,
        ),
{
    assert(containers_view(containers.push(container)) =~= containers_view(containers).push(
        container@,
    ));
}

fn nest_containers_of_kind(
    residual: usize,
    fft_radix_part: usize,
    tuning: PlannerTuning,
    kind: MultiFftRaderContainerKind,
    factors: &Vec<(usize, usize)>,
    found: Vec<MultiFftRaderContainerRegisterState>,
) -> (planned: PlanResult<Option<Vec<MultiFftRaderContainerRegisterState>>>)
    requires
        factors@ == distinct_factors(residual),
    ensures
        viewed_containers(planned) == nested_pass(
            residual,
            fft_radix_part,
            tuning,
            kind,
            containers_view(found@),
            0,
        ),
    decreases residual, 1int, 0int,
{
    let ghost start = containers_view(found@);
    let mut containers: Vec<MultiFftRaderContainerRegisterState> = found;
    let mut index: usize = 0;
    while index < factors.len()
        invariant
            index <= factors.len(),
            factors@ == distinct_factors(residual),
            nested_pass(
                residual,
                fft_radix_part,
                tuning,
                kind,
                containers_view(containers@),
                index as nat,
            ) == nested_pass(residual, fft_radix_part, tuning, kind, start, 0),
            start == containers_view(found@),
        decreases factors.len() - index,
    {
        proof {
            assert(residual > 0) by {
                assert(distinct_factors(0) =~= Seq::empty());
            }
            distinct_factors_are_bounded(residual);
        }
        let prime: usize = factors[index].0;
        assert(factors@[index as int].0 <= residual);
        let wanted: bool = match nested_rader_container_kind(prime, tuning) {
            Some(found_kind) => found_kind == kind,
            None => false,
        };
        if wanted {
            let count: usize = checked_mul(
                fft_radix_part,
                quotient(residual, prime),
                "nested Rader container count",
            )?;
            let container: MultiFftRaderContainerRegisterState = match kind {
                MultiFftRaderContainerKind::Direct => make_direct_container(prime, count),
                MultiFftRaderContainerKind::Fft => {
                    match build_multi_fft_rader_container_state_with_tuning(
                        prime,
                        count,
                        tuning,
                    )? {
                        Some(container) => container,
                        None => {
                            return Ok(None);
                        },
                    }
                },
            };
            proof {
                view_of_pushed(containers@, container);
            }
            containers.push(container);
        }
        index = index + 1;
    }
    Ok(Some(containers))
}

/// The containers for what small radices leave of a convolution length.
pub fn build_nested_fft_rader_subcontainers(
    residual: usize,
    fft_radix_part: usize,
    tuning: PlannerTuning,
) -> (planned: PlanResult<Option<Vec<MultiFftRaderContainerRegisterState>>>)
    ensures
        viewed_containers(planned) == nested_containers(residual, fft_radix_part, tuning),
    decreases residual, 2int, 0int,
{
    let none: Vec<MultiFftRaderContainerRegisterState> = Vec::new();
    assert(containers_view(none@) =~= Seq::empty());
    if residual == 1 {
        return Ok(Some(none));
    }
    if fft_radix_part == 0 {
        return Ok(None);
    }
    let factors: Vec<(usize, usize)> = distinct_prime_factors(residual);
    if !classifies_all(&factors, tuning) {
        return Ok(None);
    }
    let by_transforms: Vec<MultiFftRaderContainerRegisterState> = match nest_containers_of_kind(
        residual,
        fft_radix_part,
        tuning,
        MultiFftRaderContainerKind::Fft,
        &factors,
        none,
    )? {
        Some(found) => found,
        None => {
            return Ok(None);
        },
    };
    nest_containers_of_kind(
        residual,
        fft_radix_part,
        tuning,
        MultiFftRaderContainerKind::Direct,
        &factors,
        by_transforms,
    )
}

/// The container of a prime that is convolved by transforms, with all containers inside.
pub fn build_multi_fft_rader_container_state_with_tuning(
    prime: usize,
    container_fft_num: usize,
    tuning: PlannerTuning,
) -> (planned: PlanResult<Option<MultiFftRaderContainerRegisterState>>)
    ensures
        viewed_option(planned) == built_container(prime, container_fft_num, tuning),
    decreases prime, 0int, 0int,
{
    if prime < 3 || container_fft_num == 0 {
        return Ok(None);
    }
    let (stage_radix_multipliers, residual) = rader_small_radix_multipliers_with_residual(
        prime - 1,
        tuning.min_rader_direct_prime,
    )?;
    let (table, most, least) = rader_optimize_shared_register_table(prime - 1)?;
    let subcontainers: Vec<MultiFftRaderContainerRegisterState> =
        match build_nested_fft_rader_subcontainers(residual, container_fft_num, tuning)? {
        Some(containers) => containers,
        None => {
            return Ok(None);
        },
    };
    let container = MultiFftRaderContainerRegisterState {
        kind: MultiFftRaderContainerKind::Fft,
        prime,
        container_fft_num,
        registers_per_thread_per_radix: table,
        registers_per_thread: most,
        min_registers_per_thread: least,
        stage_radix_multipliers,
        subcontainers,
    };
    Ok(Some(container))
}

/// The same under the portable tuning.
pub fn build_multi_fft_rader_container_state(prime: usize, container_fft_num: usize) -> (planned:
    PlanResult<Option<MultiFftRaderContainerRegisterState>>)
    ensures
        viewed_option(planned) == built_container(
            prime,
            container_fft_num,
            PlannerTuning::portable_ranges(),
        ),
{
    build_multi_fft_rader_container_state_with_tuning(
        prime,
        container_fft_num,
        PlannerTuning::portable(),
    )
}

/// The primes of a list of containers.
pub open spec fn container_primes(containers: Seq<RaderContainerModel>) -> Seq<usize> {
    Seq::new(containers.len(), |i: int| containers[i].prime)
}

/// The prime factors from index `from` on that are convolved this way, in order.
pub open spec fn primes_of_kind(
    factors: Seq<(usize, usize)>,
    tuning: PlannerTuning,
    kind: MultiFftRaderContainerKind,
    from: nat,
) -> Seq<usize>
    decreases factors.len() - from,
{
    if from >= factors.len() {
        Seq::empty()
    } else if container_kind(factors[from as int].0, tuning) == Some(kind) {
        seq![factors[from as int].0] + primes_of_kind(factors, tuning, kind, from + 1)
    } else {
        primes_of_kind(factors, tuning, kind, from + 1)
    }
}

proof fn nested_pass_lists_the_primes(
    residual: usize,
    fft_radix_part: usize,
    tuning: PlannerTuning,
    kind: MultiFftRaderContainerKind,
    found: Seq<RaderContainerModel>,
    from: nat,
    containers: Seq<RaderContainerModel>,
)
    requires
        nested_pass(residual, fft_radix_part, tuning, kind, found, from) == Ok::<
            Option<Seq<RaderContainerModel>>,
            VkFftError,
        >(Some(containers)),
    ensures
        found.len() <= containers.len(),
        containers.take(found.len() as int) == found,
        container_primes(containers) == container_primes(found) + primes_of_kind(
            distinct_factors(residual),
            tuning,
            kind,
            from,
        ),
        forall|i: int|
            found.len() <= i < containers.len() ==> {
                &&& (#[trigger] containers[i]).kind == kind
                &&& containers[i].container_fft_num == fft_radix_part * quotient(
                    residual,
                    containers[i].prime,
                )
            },
    decreases distinct_factors(residual).len() - from,
{
    let factors = distinct_factors(residual);
    if from >= factors.len() {
        assert(containers.take(found.len() as int) =~= found);
        assert(container_primes(containers) =~= container_primes(found) + Seq::<usize>::empty());
    } else {
        let prime = factors[from as int].0;
        if container_kind(prime, tuning) != Some(kind) {
            nested_pass_lists_the_primes(
                residual,
                fft_radix_part,
                tuning,
                kind,
                found,
                from + 1,
                containers,
            );
        } else {
            let count = checked_mul(
                fft_radix_part,
                quotient(residual, prime),
                "nested Rader container count",
            )->Ok_0;
            let next = match kind {
                MultiFftRaderContainerKind::Direct => direct_container(prime, count),
                MultiFftRaderContainerKind::Fft => built_container(
                    prime,
                    count,
                    tuning,
                )->Ok_0->Some_0,
            };
            assert(next.kind == kind && next.prime == prime && next.container_fft_num == count);
            nested_pass_lists_the_primes(
                residual,
                fft_radix_part,
                tuning,
                kind,
                found.push(next),
                from + 1,
                containers,
            );
            assert(containers[found.len() as int] == next) by {
                assert(containers.take(found.len() as int + 1)[found.len() as int] == next);
            }
            assert(containers.take(found.len() as int) =~= found) by {
                assert(containers.take(found.len() as int + 1).take(found.len() as int) =~= found);
                assert(containers.take(found.len() as int + 1).take(found.len() as int)
                    =~= containers.take(found.len() as int));
            }
            assert(container_primes(containers) =~= container_primes(found) + primes_of_kind(
                factors,
                tuning,
                kind,
                from,
            )) by {
                assert(container_primes(found.push(next)) =~= container_primes(found).push(prime));
            }
        }
    }
}

/// Every prime factor of what small radices leave has one container. Those convolved by
/// transforms come first, in ascending order, the directly convolved ones follow, and each
/// is repeated once per transform and per point that its prime does not cover.
pub proof fn nested_containers_list_the_primes(
    residual: usize,
    fft_radix_part: usize,
    tuning: PlannerTuning,
    containers: Seq<RaderContainerModel>,
)
    requires
        residual > 1,
        nested_containers(residual, fft_radix_part, tuning) == Ok::<
            Option<Seq<RaderContainerModel>>,
            VkFftError,
        >(Some(containers)),
    ensures
        container_primes(containers) == primes_of_kind(
            distinct_factors(residual),
            tuning,
            MultiFftRaderContainerKind::Fft,
            0,
        ) + primes_of_kind(
            distinct_factors(residual),
            tuning,
            MultiFftRaderContainerKind::Direct,
            0,
        ),
        containers.len() == distinct_factors(residual).len(),
        forall|i: int|
            0 <= i < containers.len() ==> {
                &&& (#[trigger] containers[i]).kind == if i < primes_of_kind(
                    distinct_factors(residual),
                    tuning,
                    MultiFftRaderContainerKind::Fft,
                    0,
                ).len() {
                    MultiFftRaderContainerKind::Fft
                } else {
                    MultiFftRaderContainerKind::Direct
                }
                &&& containers[i].container_fft_num == fft_radix_part * quotient(
                    residual,
                    containers[i].prime,
                )
            },
{
    let factors = distinct_factors(residual);
    let by_transforms = nested_pass(
        residual,
        fft_radix_part,
        tuning,
        MultiFftRaderContainerKind::Fft,
        Seq::empty(),
        0,
    )->Ok_0->Some_0;
    nested_pass_lists_the_primes(
        residual,
        fft_radix_part,
        tuning,
        MultiFftRaderContainerKind::Fft,
        Seq::empty(),
        0,
        by_transforms,
    );
    nested_pass_lists_the_primes(
        residual,
        fft_radix_part,
        tuning,
        MultiFftRaderContainerKind::Direct,
        by_transforms,
        0,
        containers,
    );
    let first = primes_of_kind(factors, tuning, MultiFftRaderContainerKind::Fft, 0);
    assert(container_primes(by_transforms) =~= first);
    assert(container_primes(by_transforms).len() == by_transforms.len());
    assert(container_primes(containers).len() == containers.len());
    assert forall|i: int| 0 <= i < by_transforms.len() implies #[trigger] containers[i]
        == by_transforms[i] by {
        assert(containers.take(by_transforms.len() as int)[i] == containers[i]);
    }
    kinds_share_the_factors(factors, tuning, 0);
}

proof fn kinds_share_the_factors(
    factors: Seq<(usize, usize)>,
    tuning: PlannerTuning,
    from: nat,
)
    requires
        all_classified(factors, tuning),
        from <= factors.len(),
    ensures
        primes_of_kind(factors, tuning, MultiFftRaderContainerKind::Fft, from).len()
            + primes_of_kind(factors, tuning, MultiFftRaderContainerKind::Direct, from).len()
            == factors.len() - from,
    decreases factors.len() - from,
{
    if from < factors.len() {
        kinds_share_the_factors(factors, tuning, from + 1);
        assert(container_kind(factors[from as int].0, tuning) is Some);
    }
}

} // verus!
