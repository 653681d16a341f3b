//! The register state of a transform together with that of all its Rader containers.

use vstd::prelude::*;

use crate::arith::{ceil_div, checked_mul, umax, umin};
use crate::axis_block::{quotient, round_down};
use crate::error::{PlanResult, VkFftError};
use crate::rader_containers::{
    container_view, containers_view, MultiFftRaderContainerKind,
    MultiFftRaderContainerRegisterState, RaderContainerModel,
};
use crate::rader_tables::{
    couple_container, coupled_container, lift_table, lifted_table, optimize_tables,
    optimized_radices, rader_register_min_max, used_extrema, CouplingModel, RegisterCoupling,
};
use crate::registers::{
    build_prime_table, factor_small, min_max_table_registers, prime_table, small_exponents,
    small_rest, table_extrema, viewed, viewed_option, RadixTable, SmallExponents,
    VKFFT_RADIX_TABLE_LEN,
};

verus! {

/// Register table of a transform's smooth factor with its largest and smallest count, and
/// the Rader containers of the transform.
pub struct RaderRegisterTree {
    pub outer: RadixTable,
    pub most: usize,
    pub least: usize,
    pub containers: Vec<MultiFftRaderContainerRegisterState>,
}

/// Mathematical content of a [`RaderRegisterTree`].
#[verifier::ext_equal]
pub struct RaderTreeModel {
    pub outer: Seq<usize>,
    pub most: usize,
    pub least: usize,
    pub containers: Seq<RaderContainerModel>,
}

impl View for RaderRegisterTree {
    type V = RaderTreeModel;

    open spec fn view(&self) -> RaderTreeModel {
        RaderTreeModel {
            outer: self.outer@,
            most: self.most,
            least: self.least,
            containers: containers_view(self.containers@),
        }
    }
}

/// A container with other registers.
pub open spec fn with_registers(
    container: RaderContainerModel,
    table: Seq<usize>,
    most: usize,
    least: usize,
) -> RaderContainerModel {
    RaderContainerModel {
        registers_per_thread_per_radix: table,
        registers_per_thread: most,
        min_registers_per_thread: least,
        ..container
    }
}

/// A container with other containers inside.
pub open spec fn with_subcontainers(
    container: RaderContainerModel,
    subcontainers: Seq<RaderContainerModel>,
) -> RaderContainerModel {
    RaderContainerModel { subcontainers, ..container }
}

/// Whether both lists hold the same containers inside theirs.
pub open spec fn same_subcontainers(
    a: Seq<RaderContainerModel>,
    b: Seq<RaderContainerModel>,
    from: int,
) -> bool {
    &&& a.len() == b.len()
    &&& forall|i: int|
        from <= i < a.len() ==> (#[trigger] a[i]).subcontainers == b[i].subcontainers
}

fn set_registers(
    containers: &mut Vec<MultiFftRaderContainerRegisterState>,
    index: usize,
    table: RadixTable,
    most: usize,
    least: usize,
)
    requires
        index < old(containers).len(),
    ensures
        final(containers)@.len() == old(containers)@.len(),
        containers_view(final(containers)@) == containers_view(old(containers)@).update(
            index as int,
            with_registers(
                containers_view(old(containers)@)[index as int],
                table@,
                most,
                least,
            ),
        ),
{
    let ghost before = containers@;
    containers[index].registers_per_thread_per_radix = table;
    containers[index].registers_per_thread = most;
    containers[index].min_registers_per_thread = least;
    proof {
        assert forall|i: int| 0 <= i < before.len() && i != index implies containers@[i]
            == before[i] by {}
        assert(containers_view(containers@) =~= containers_view(before).update(
            index as int,
            with_registers(containers_view(before)[index as int], table@, most, least),
        ));
    }
}

/// The tree after one container was brought together with the outer table.
pub open spec fn with_coupled(
    tree: RaderTreeModel,
    index: int,
    coupled: CouplingModel,
) -> RaderTreeModel {
    RaderTreeModel {
        outer: coupled.outer,
        most: umax(coupled.outer_most, coupled.most),
        least: coupled.outer_least,
        containers: tree.containers.update(
            index,
            with_registers(tree.containers[index], coupled.table, coupled.most, coupled.least),
        ),
    }
}

/// Every container convolved by transforms, from index `from` on, brought together with
/// the outer table in turn; each sees what those before it left.
pub open spec fn coupled_from(sequence_len: usize, tree: RaderTreeModel, from: nat) -> PlanResult<
    RaderTreeModel,
>
    decreases tree.containers.len() - from,
{
    if from >= tree.containers.len() {
        Ok(tree)
    } else if tree.containers[from as int].kind == MultiFftRaderContainerKind::Direct {
        coupled_from(sequence_len, tree, from + 1)
    } else {
        let container = tree.containers[from as int];
        match coupled_container(
            CouplingModel {
                outer: tree.outer,
                outer_most: tree.most,
                outer_least: tree.least,
                table: container.registers_per_thread_per_radix,
                most: container.registers_per_thread,
                least: container.min_registers_per_thread,
            },
            sequence_len,
            container.container_fft_num,
            container.prime.saturating_sub(1),
            "multi FFT-Rader register alignment",
            "multi FFT-Rader occupancy register scaling",
        ) {
            Err(error) => Err(error),
            Ok(coupled) => coupled_from(
                sequence_len,
                with_coupled(tree, from as int, coupled),
                from + 1,
            ),
        }
    }
}

/// Every container convolved by transforms, from index `from` on, lifted towards the
/// largest count of the whole tree.
pub open spec fn lifted_from(
    containers: Seq<RaderContainerModel>,
    most: usize,
    from: nat,
) -> PlanResult<Seq<RaderContainerModel>>
    decreases containers.len() - from,
{
    if from >= containers.len() {
        Ok(containers)
    } else if containers[from as int].kind == MultiFftRaderContainerKind::Direct {
        lifted_from(containers, most, from + 1)
    } else {
        let table = lifted_table(containers[from as int].registers_per_thread_per_radix, most);
        match used_extrema(table) {
            Err(error) => Err(error),
            Ok((largest, smallest)) => lifted_from(
                containers.update(
                    from as int,
                    with_registers(containers[from as int], table, largest, smallest),
                ),
                most,
                from + 1,
            ),
        }
    }
}

/// The containers inside each container, from index `from` on, optimized against the same
/// outer table in turn.
pub open spec fn nested_optimized_from(
    sequence_len: usize,
    original: Seq<RaderContainerModel>,
    tree: RaderTreeModel,
    from: nat,
) -> PlanResult<RaderTreeModel>
    decreases original, original.len() - from,
{
    if from >= original.len() {
        Ok(tree)
    } else if original[from as int].subcontainers.len() == 0 {
        nested_optimized_from(sequence_len, original, tree, from + 1)
    } else {
        match optimized_tree(
            sequence_len,
            RaderTreeModel {
                outer: tree.outer,
                most: tree.most,
                least: tree.least,
                containers: original[from as int].subcontainers,
            },
        ) {
            Err(error) => Err(error),
            Ok(nested) => nested_optimized_from(
                sequence_len,
                original,
                RaderTreeModel {
                    outer: nested.outer,
                    most: nested.most,
                    least: nested.least,
                    containers: tree.containers.update(
                        from as int,
                        with_subcontainers(tree.containers[from as int], nested.containers),
                    ),
                },
                from + 1,
            ),
        }
    }
}

/// The largest and smallest count of a tree and of its containers from index `from` on.
pub open spec fn merged_extrema(
    containers: Seq<RaderContainerModel>,
    most: usize,
    least: usize,
    from: int,
) -> (usize, usize)
    decreases containers.len() - from,
{
    if from >= containers.len() {
        (most, least)
    } else {
        merged_extrema(
            containers,
            umax(most, containers[from].registers_per_thread),
            umin(least, containers[from].min_registers_per_thread),
            from + 1,
        )
    }
}

/// One optimization of a tree: couple all containers, lift them, optimize what is inside
/// them, and merge their counts into the outer ones.
pub open spec fn optimized_tree(sequence_len: usize, tree: RaderTreeModel) -> PlanResult<
    RaderTreeModel,
>
    decreases tree.containers, tree.containers.len() + 1,
{
    if sequence_len == 0 || tree.least == 0 {
        Err(
            VkFftError::InvalidKernelIr(
                "multi FFT-Rader optimizer requires a non-zero outer register floor",
            ),
        )
    } else {
        match coupled_from(sequence_len, tree, 0) {
            Err(error) => Err(error),
            Ok(coupled) => match lifted_from(coupled.containers, coupled.most, 0) {
                Err(error) => Err(error),
                Ok(lifted) => match nested_optimized_from(
                    sequence_len,
                    tree.containers,
                    RaderTreeModel { containers: lifted, ..coupled },
                    0,
                ) {
                    Err(error) => Err(error),
                    Ok(nested) => {
                        let (most, least) = merged_extrema(
                            nested.containers,
                            nested.most,
                            nested.least,
                            0,
                        );
                        Ok(RaderTreeModel { most, least, ..nested })
                    },
                },
            },
        }
    }
}

proof fn view_at(containers: Seq<MultiFftRaderContainerRegisterState>, index: int)
    requires
        0 <= index < containers.len(),
    ensures
        containers_view(containers)[index] == container_view(containers[index]),
        containers_view(containers).len() == containers.len(),
{
}

fn couple_all(sequence_len: usize, tree: RaderRegisterTree) -> (planned: PlanResult<
    RaderRegisterTree,
>)
    ensures
        viewed(planned) == coupled_from(sequence_len, tree@, 0),
        planned matches Ok(coupled) ==> same_subcontainers(
            coupled@.containers,
            tree@.containers,
            0,
        ),
{
    let ghost start = tree@;
    let mut outer: RadixTable = tree.outer;
    let mut most: usize = tree.most;
    let mut least: usize = tree.least;
    let mut containers: Vec<MultiFftRaderContainerRegisterState> = tree.containers;
    let mut index: usize = 0;
    while index < containers.len()
        invariant
            index <= containers.len(),
            coupled_from(
                sequence_len,
                RaderTreeModel {
                    outer: outer@,
                    most,
                    least,
                    containers: containers_view(containers@),
                },
                index as nat,
            ) == coupled_from(sequence_len, start, 0),
            same_subcontainers(containers_view(containers@), start.containers, 0),
            start == tree@,
        decreases containers.len() - index,
    {
        proof {
            view_at(containers@, index as int);
        }
        let container: &MultiFftRaderContainerRegisterState = &containers[index];
        if container.kind != MultiFftRaderContainerKind::Direct {
            let coupled: RegisterCoupling = couple_container(
                RegisterCoupling {
                    outer,
                    outer_most: most,
                    outer_least: least,
                    table: container.registers_per_thread_per_radix,
                    most: container.registers_per_thread,
                    least: container.min_registers_per_thread,
                },
                sequence_len,
                container.container_fft_num,
                container.prime.saturating_sub(1),
                "multi FFT-Rader register alignment",
                "multi FFT-Rader occupancy register scaling",
            )?;
            outer = coupled.outer;
            most = umax(coupled.outer_most, coupled.most);
            least = coupled.outer_least;
            set_registers(&mut containers, index, coupled.table, coupled.most, coupled.least);
        }
        index = index + 1;
    }
    Ok(RaderRegisterTree { outer, most, least, containers })
}

fn lift_all(
    containers: Vec<MultiFftRaderContainerRegisterState>,
    most: usize,
    original: Ghost<Seq<RaderContainerModel>>,
) -> (planned: PlanResult<Vec<MultiFftRaderContainerRegisterState>>)
    requires
        same_subcontainers(containers_view(containers@), original@, 0),
    ensures
        lifted_from(containers_view(containers@), most, 0) == match planned {
            Ok(lifted) => Ok(containers_view(lifted@)),
            Err(error) => Err(error),
        },
        planned matches Ok(lifted) ==> same_subcontainers(
            containers_view(lifted@),
            original@,
            0,
        ),
{
    let ghost start = containers_view(containers@);
    let mut lifted: Vec<MultiFftRaderContainerRegisterState> = containers;
    let mut index: usize = 0;
    while index < lifted.len()
        invariant
            index <= lifted.len(),
            lifted_from(containers_view(lifted@), most, index as nat) == lifted_from(
                start,
                most,
                0,
            ),
            same_subcontainers(containers_view(lifted@), original@, 0),
            start == containers_view(containers@),
        decreases lifted.len() - index,
    {
        proof {
            view_at(lifted@, index as int);
        }
        let container: &MultiFftRaderContainerRegisterState = &lifted[index];
        if container.kind != MultiFftRaderContainerKind::Direct {
            let table: RadixTable = lift_table(container.registers_per_thread_per_radix, most);
            let (largest, smallest) = rader_register_min_max(&table)?;
            set_registers(&mut lifted, index, table, largest, smallest);
        }
        index = index + 1;
    }
    Ok(lifted)
}

fn merge_extrema(
    containers: &Vec<MultiFftRaderContainerRegisterState>,
    most: usize,
    least: usize,
) -> (merged: (usize, usize))
    ensures
        merged == merged_extrema(containers_view(containers@), most, least, 0),
{
    let mut largest: usize = most;
    let mut smallest: usize = least;
    let mut index: usize = 0;
    while index < containers.len()
        invariant
            index <= containers.len(),
            merged_extrema(containers_view(containers@), largest, smallest, index as int)
                == merged_extrema(containers_view(containers@), most, least, 0),
        decreases containers.len() - index,
    {
        proof {
            view_at(containers@, index as int);
        }
        largest = umax(largest, containers[index].registers_per_thread);
        smallest = umin(smallest, containers[index].min_registers_per_thread);
        index = index + 1;
    }
    (largest, smallest)
}

fn take_subcontainers(
    containers: &mut Vec<MultiFftRaderContainerRegisterState>,
    index: usize,
) -> (subcontainers: Vec<MultiFftRaderContainerRegisterState>)
    requires
        index < old(containers).len(),
    ensures
        final(containers)@.len() == old(containers)@.len(),
        containers_view(subcontainers@) == containers_view(
            old(containers)@,
        )[index as int].subcontainers,
        containers_view(final(containers)@) == containers_view(old(containers)@).update(
            index as int,
            with_subcontainers(
                containers_view(old(containers)@)[index as int],
                Seq::empty(),
            ),
        ),
{
    let ghost before = containers@;
    let mut subcontainers: Vec<MultiFftRaderContainerRegisterState> = Vec::new();
    std::mem::swap(&mut subcontainers, &mut containers[index].subcontainers);
    proof {
        reveal_with_fuel(container_view, 2);
        reveal_with_fuel(containers_view, 2);
        assert(
            containers_view(Seq::<MultiFftRaderContainerRegisterState>::empty()) =~= Seq::empty()
        );
        assert(containers_view(containers@) =~= containers_view(before).update(
            index as int,
            with_subcontainers(containers_view(before)[index as int], Seq::empty()),
        ));
    }
    subcontainers
}

fn put_subcontainers(
    containers: &mut Vec<MultiFftRaderContainerRegisterState>,
    index: usize,
    subcontainers: Vec<MultiFftRaderContainerRegisterState>,
)
    requires
        index < old(containers).len(),
    ensures
        final(containers)@.len() == old(containers)@.len(),
        containers_view(final(containers)@) == containers_view(old(containers)@).update(
            index as int,
            with_subcontainers(
                containers_view(old(containers)@)[index as int],
                containers_view(subcontainers@),
            ),
        ),
{
    let ghost before = containers@;
    let ghost inside = containers_view(subcontainers@);
    containers[index].subcontainers = subcontainers;
    proof {
        reveal_with_fuel(container_view, 2);
        reveal_with_fuel(containers_view, 2);
        assert(containers_view(containers@) =~= containers_view(before).update(
            index as int,
            with_subcontainers(containers_view(before)[index as int], inside),
        ));
    }
}

/// One optimization of a tree.
pub fn optimize_smooth_fft_rader_containers_once(sequence_len: usize, tree: RaderRegisterTree) -> (
planned: PlanResult<RaderRegisterTree>)
    ensures
        viewed(planned) == optimized_tree(sequence_len, tree@),
    decreases tree@.containers,
{
    let ghost original = tree@;
    if sequence_len == 0 || tree.least == 0 {
        return Err(
            VkFftError::InvalidKernelIr(
                "multi FFT-Rader optimizer requires a non-zero outer register floor",
            ),
        );
    }
    let coupled: RaderRegisterTree = couple_all(sequence_len, tree)?;
    let ghost coupled_model = coupled@;
    let mut outer: RadixTable = coupled.outer;
    let mut most: usize = coupled.most;
    let mut least: usize = coupled.least;
    let mut containers: Vec<MultiFftRaderContainerRegisterState> = lift_all(
        coupled.containers,
        most,
        Ghost(original.containers),
    )?;
    let ghost lifted_model = RaderTreeModel {
        containers: containers_view(containers@),
        ..coupled_model
    };
    let mut index: usize = 0;
    while index < containers.len()
        invariant
            index <= containers.len(),
            original == tree@,
            coupled_from(sequence_len, original, 0) == Ok::<RaderTreeModel, VkFftError>(
                coupled_model,
            ),
            lifted_from(coupled_model.containers, coupled_model.most, 0) == Ok::<
                Seq<RaderContainerModel>,
                VkFftError,
            >(lifted_model.containers),
            lifted_model == (
                RaderTreeModel { containers: lifted_model.containers, ..coupled_model }
            ),
            sequence_len != 0,
            original.least != 0,
            nested_optimized_from(
                sequence_len,
                original.containers,
                RaderTreeModel {
                    outer: outer@,
                    most,
                    least,
                    containers: containers_view(containers@),
                },
                index as nat,
            ) == nested_optimized_from(sequence_len, original.containers, lifted_model, 0),
            same_subcontainers(containers_view(containers@), original.containers, index as int),
        decreases containers.len() - index,
    {
        proof {
            view_at(containers@, index as int);
            assert(containers_view(containers@)[index as int].subcontainers
                == original.containers[index as int].subcontainers);
        }
        if containers[index].subcontainers.len() != 0 {
            let ghost before = containers_view(containers@);
            let inside: Vec<MultiFftRaderContainerRegisterState> = take_subcontainers(
                &mut containers,
                index,
            );
            let nested: RaderRegisterTree = optimize_smooth_fft_rader_containers_once(
                sequence_len,
                RaderRegisterTree { outer, most, least, containers: inside },
            )?;
            let ghost nested_model = nested@;
            outer = nested.outer;
            most = nested.most;
            least = nested.least;
            put_subcontainers(&mut containers, index, nested.containers);
            proof {
                assert(containers_view(containers@) =~= before.update(
                    index as int,
                    with_subcontainers(before[index as int], nested_model.containers),
                ));
            }
        }
        index = index + 1;
    }
    let (largest, smallest) = merge_extrema(&containers, most, least);
    Ok(RaderRegisterTree { outer, most: largest, least: smallest, containers })
}

/// Every used entry from index `from` on multiplied by the scale.
pub open spec fn table_scaled_from(
    table: Seq<usize>,
    scale: usize,
    operation: &'static str,
    from: int,
) -> PlanResult<Seq<usize>>
    decreases VKFFT_RADIX_TABLE_LEN - from,
{
    if from >= VKFFT_RADIX_TABLE_LEN {
        Ok(table)
    } else if table[from] == 0 {
        table_scaled_from(table, scale, operation, from + 1)
    } else {
        match checked_mul(table[from], scale, operation) {
            Err(error) => Err(error),
            Ok(value) => table_scaled_from(table.update(from, value), scale, operation, from + 1),
        }
    }
}

/// Every used entry multiplied by the scale.
pub open spec fn table_scaled(
    table: Seq<usize>,
    scale: usize,
    operation: &'static str,
) -> PlanResult<Seq<usize>> {
    table_scaled_from(table, scale, operation, 0)
}

fn scale_table(table: RadixTable, scale: usize, operation: &'static str) -> (scaled: PlanResult<
    RadixTable,
>)
    ensures
        viewed(scaled) == table_scaled(table@, scale, operation),
{
    let mut result: RadixTable = table;
    let mut index: usize = 0;
    while index < VKFFT_RADIX_TABLE_LEN
        invariant
            index <= VKFFT_RADIX_TABLE_LEN,
            table_scaled_from(result@, scale, operation, index as int) == table_scaled(
                table@,
                scale,
                operation,
            ),
        decreases VKFFT_RADIX_TABLE_LEN - index,
    {
        let value: usize = result[index];
        if value != 0 {
            result[index] = checked_mul(value, scale, operation)?;
        }
        index = index + 1;
    }
    Ok(result)
}

/// The tables of the containers from index `from` on multiplied by the scale.
pub open spec fn containers_scaled_from(
    containers: Seq<RaderContainerModel>,
    scale: usize,
    from: nat,
) -> PlanResult<Seq<RaderContainerModel>>
    decreases containers.len() - from,
{
    if from >= containers.len() {
        Ok(containers)
    } else {
        let container = containers[from as int];
        match table_scaled(
            container.registers_per_thread_per_radix,
            scale,
            "axis-0 global FFT-Rader register-table scaling",
        ) {
            Err(error) => Err(error),
            Ok(table) => containers_scaled_from(
                containers.update(
                    from as int,
                    with_registers(
                        container,
                        table,
                        container.registers_per_thread,
                        container.min_registers_per_thread,
                    ),
                ),
                scale,
                from + 1,
            ),
        }
    }
}

/// The tree with the tables of its containers multiplied by the scale; their cached counts
/// stay as they are.
pub open spec fn containers_scaled(
    tree: RaderTreeModel,
    scale: usize,
) -> PlanResult<RaderTreeModel> {
    match containers_scaled_from(tree.containers, scale, 0) {
        Err(error) => Err(error),
        Ok(containers) => Ok(RaderTreeModel { containers, ..tree }),
    }
}

fn scale_containers(tree: RaderRegisterTree, scale: usize) -> (planned: PlanResult<
    RaderRegisterTree,
>)
    ensures
        viewed(planned) == containers_scaled(tree@, scale),
{
    let ghost start = tree@;
    let outer: RadixTable = tree.outer;
    let most: usize = tree.most;
    let least: usize = tree.least;
    let mut containers: Vec<MultiFftRaderContainerRegisterState> = tree.containers;
    let mut index: usize = 0;
    while index < containers.len()
        invariant
            index <= containers.len(),
            start == tree@,
            containers_scaled_from(containers_view(containers@), scale, index as nat)
                == containers_scaled_from(start.containers, scale, 0),
        decreases containers.len() - index,
    {
        proof {
            view_at(containers@, index as int);
        }
        let largest: usize = containers[index].registers_per_thread;
        let smallest: usize = containers[index].min_registers_per_thread;
        let table: RadixTable = scale_table(
            containers[index].registers_per_thread_per_radix,
            scale,
            "axis-0 global FFT-Rader register-table scaling",
        )?;
        set_registers(&mut containers, index, table, largest, smallest);
        index = index + 1;
    }
    Ok(RaderRegisterTree { outer, most, least, containers })
}

/// The largest and smallest used entry of the containers' tables from index `from` on,
/// and of the counts handed in.
pub open spec fn tables_extrema_from(
    containers: Seq<RaderContainerModel>,
    most: usize,
    least: usize,
    from: int,
) -> (usize, usize)
    decreases containers.len() - from,
{
    if from >= containers.len() {
        (most, least)
    } else {
        let (largest, smallest) = table_extrema(containers[from].registers_per_thread_per_radix);
        tables_extrema_from(containers, umax(most, largest), umin(least, smallest), from + 1)
    }
}

/// The largest and smallest used entry of all tables of a tree, and of the counts handed
/// in.
pub open spec fn tree_extrema(tree: RaderTreeModel, most: usize, least: usize) -> (usize, usize) {
    let (largest, smallest) = table_extrema(tree.outer);
    tables_extrema_from(tree.containers, umax(most, largest), umin(least, smallest), 0)
}

pub fn find_tree_extrema(tree: &RaderRegisterTree, most: usize, least: usize) -> (extrema: (
    usize,
    usize,
))
    ensures
        extrema == tree_extrema(tree@, most, least),
{
    let (outer_most, outer_least) = min_max_table_registers(&tree.outer);
    let mut largest: usize = umax(most, outer_most);
    let mut smallest: usize = umin(least, outer_least);
    let mut index: usize = 0;
    while index < tree.containers.len()
        invariant
            index <= tree.containers.len(),
            tables_extrema_from(
                containers_view(tree.containers@),
                largest,
                smallest,
                index as int,
            ) == tree_extrema(tree@, most, least),
        decreases tree.containers.len() - index,
    {
        proof {
            view_at(tree.containers@, index as int);
        }
        let (table_most, table_least) = min_max_table_registers(
            &tree.containers[index].registers_per_thread_per_radix,
        );
        largest = umax(largest, table_most);
        smallest = umin(smallest, table_least);
        index = index + 1;
    }
    (largest, smallest)
}

/// Transforms per workgroup: the first upload keeps as many as fit its lanes.
pub open spec fn effective_coalescing(
    sequence_len: usize,
    max_batch_coalesced: usize,
    shrink_first_upload_coalescing: bool,
    physical_thread_limit: usize,
    least: usize,
) -> PlanResult<usize> {
    if !shrink_first_upload_coalescing || max_batch_coalesced <= 1 {
        Ok(max_batch_coalesced)
    } else {
        match checked_mul(
            physical_thread_limit,
            least,
            "axis-0 upload-0 coalescing shrink numerator",
        ) {
            Err(error) => Err(error),
            Ok(capacity) => Ok(umax(quotient(capacity, sequence_len), 1)),
        }
    }
}

fn shrink_coalescing(
    sequence_len: usize,
    max_batch_coalesced: usize,
    shrink_first_upload_coalescing: bool,
    physical_thread_limit: usize,
    least: usize,
) -> (planned: PlanResult<usize>)
    ensures
        planned == effective_coalescing(
            sequence_len,
            max_batch_coalesced,
            shrink_first_upload_coalescing,
            physical_thread_limit,
            least,
        ),
{
    if !shrink_first_upload_coalescing || max_batch_coalesced <= 1 {
        return Ok(max_batch_coalesced);
    }
    let capacity: usize = checked_mul(
        physical_thread_limit,
        least,
        "axis-0 upload-0 coalescing shrink numerator",
    )?;
    Ok(umax(quotient(capacity, sequence_len), 1))
}

/// How much larger the registers must be for these elements to fit the lanes.
pub open spec fn register_scale(
    elements: usize,
    least: usize,
    physical_thread_limit: usize,
) -> PlanResult<usize> {
    match ceil_div(elements, least) {
        Err(error) => Err(error),
        Ok(threads) => if threads <= physical_thread_limit {
            Ok(1)
        } else {
            match checked_mul(
                least,
                physical_thread_limit,
                "axis-0 global Rader register scaling denominator",
            ) {
                Err(error) => Err(error),
                Ok(capacity) => match ceil_div(elements, capacity) {
                    Err(error) => Err(error),
                    Ok(scale) => Ok(umax(scale, 1)),
                },
            }
        },
    }
}

fn find_register_scale(
    elements: usize,
    least: usize,
    physical_thread_limit: usize,
) -> (planned: PlanResult<usize>)
    ensures
        planned == register_scale(elements, least, physical_thread_limit),
{
    let threads: usize = ceil_div(elements, least)?;
    if threads <= physical_thread_limit {
        return Ok(1);
    }
    let capacity: usize = checked_mul(
        least,
        physical_thread_limit,
        "axis-0 global Rader register scaling denominator",
    )?;
    let scale: usize = ceil_div(elements, capacity)?;
    Ok(umax(scale, 1))
}

/// The tree with other largest and smallest counts.
pub open spec fn with_counts(
    tree: RaderTreeModel,
    most: usize,
    least: usize,
) -> RaderTreeModel {
    RaderTreeModel { outer: tree.outer, most, least, containers: tree.containers }
}

fn set_counts(
    tree: RaderRegisterTree,
    most: usize,
    least: usize,
) -> (planned: RaderRegisterTree)
    ensures
        planned@ == with_counts(tree@, most, least),
{
    RaderRegisterTree { outer: tree.outer, most, least, containers: tree.containers }
}

/// The tree with its outer table and counts multiplied by the scale.
#[verifier::opaque]
pub open spec fn scaled_outer(
    tree: RaderTreeModel,
    scale: usize,
) -> PlanResult<RaderTreeModel> {
    match checked_mul(tree.least, scale, "axis-0 global Rader minimum register scaling") {
        Err(error) => Err(error),
        Ok(least) => match checked_mul(
            tree.most,
            scale,
            "axis-0 global Rader maximum register scaling",
        ) {
            Err(error) => Err(error),
            Ok(most) => match table_scaled(
                tree.outer,
                scale,
                "axis-0 global ordinary register-table scaling",
            ) {
                Err(error) => Err(error),
                Ok(outer) => Ok(RaderTreeModel { outer, most, least, containers: tree.containers }),
            },
        },
    }
}

fn scale_outer(
    tree: RaderRegisterTree,
    scale: usize,
) -> (planned: PlanResult<RaderRegisterTree>)
    ensures
        viewed(planned) == scaled_outer(tree@, scale),
{
    reveal(scaled_outer);
    let least: usize = checked_mul(
        tree.least,
        scale,
        "axis-0 global Rader minimum register scaling",
    )?;
    let most: usize = checked_mul(
        tree.most,
        scale,
        "axis-0 global Rader maximum register scaling",
    )?;
    let outer: RadixTable = scale_table(
        tree.outer,
        scale,
        "axis-0 global ordinary register-table scaling",
    )?;
    Ok(RaderRegisterTree { outer, most, least, containers: tree.containers })
}

/// The tree whose smallest count serves these elements: that of all tables where it
/// already does, else the containers' tables are multiplied by the scale too.
#[verifier::opaque]
pub open spec fn relieved_tree(
    tree: RaderTreeModel,
    elements: usize,
    scale: usize,
    physical_thread_limit: usize,
) -> PlanResult<RaderTreeModel> {
    let (_largest, smallest) = tree_extrema(tree, 0, usize::MAX);
    if smallest == usize::MAX || smallest == 0 {
        Err(
            VkFftError::InvalidKernelIr(
                "axis-0 global Rader scaling found no active register table",
            ),
        )
    } else {
        match ceil_div(elements, smallest) {
            Err(error) => Err(error),
            Ok(threads) => if threads > physical_thread_limit {
                containers_scaled(tree, scale)
            } else {
                let most = tree.most;
                Ok(with_counts(tree, most, smallest))
            },
        }
    }
}

fn relieve_tree(
    tree: RaderRegisterTree,
    elements: usize,
    scale: usize,
    physical_thread_limit: usize,
) -> (planned: PlanResult<RaderRegisterTree>)
    ensures
        viewed(planned) == relieved_tree(tree@, elements, scale, physical_thread_limit),
{
    reveal(relieved_tree);
    let (_largest, smallest) = find_tree_extrema(&tree, 0, usize::MAX);
    if smallest == usize::MAX || smallest == 0 {
        return Err(
            VkFftError::InvalidKernelIr(
                "axis-0 global Rader scaling found no active register table",
            ),
        );
    }
    let threads: usize = ceil_div(elements, smallest)?;
    if threads > physical_thread_limit {
        return scale_containers(tree, scale);
    }
    let most: usize = tree.most;
    Ok(set_counts(tree, most, smallest))
}

/// The tree with its registers scaled until a workgroup holds its transforms, and the
/// scale. The outer table is scaled first, the containers' only where that is not enough.
#[verifier::opaque]
pub open spec fn scaled_tree(
    sequence_len: usize,
    max_batch_coalesced: usize,
    shrink_first_upload_coalescing: bool,
    physical_thread_limit: usize,
    tree: RaderTreeModel,
) -> PlanResult<(RaderTreeModel, usize)> {
    if sequence_len == 0
        || max_batch_coalesced == 0
        || physical_thread_limit == 0
        || tree.most == 0
        || tree.least == 0 {
        Err(
            VkFftError::InvalidKernelIr(
                "axis-0 global Rader register scaling requires non-zero dimensions",
            ),
        )
    } else {
        match effective_coalescing(
            sequence_len,
            max_batch_coalesced,
            shrink_first_upload_coalescing,
            physical_thread_limit,
            tree.least,
        ) {
            Err(error) => Err(error),
            Ok(coalesced) => match checked_mul(
                sequence_len,
                coalesced,
                "axis-0 global Rader coalesced element pressure",
            ) {
                Err(error) => Err(error),
                Ok(elements) => match register_scale(elements, tree.least, physical_thread_limit) {
                    Err(error) => Err(error),
                    Ok(scale) => match scaled_outer(tree, scale) {
                        Err(error) => Err(error),
                        Ok(enlarged) => match relieved_tree(
                            enlarged,
                            elements,
                            scale,
                            physical_thread_limit,
                        ) {
                            Err(error) => Err(error),
                            Ok(relieved) => {
                                let (most, least) = tree_extrema(
                                    relieved,
                                    umax(relieved.most, relieved.least),
                                    umin(relieved.most, relieved.least),
                                );
                                Ok((with_counts(relieved, most, least), scale))
                            },
                        },
                    },
                },
            },
        }
    }
}

pub fn scale_axis0_rader_register_tables_with_max_batch_coalesced(
    sequence_len: usize,
    max_batch_coalesced: usize,
    shrink_first_upload_coalescing: bool,
    physical_thread_limit: usize,
    tree: RaderRegisterTree,
) -> (planned: PlanResult<(RaderRegisterTree, usize)>)
    ensures
        viewed(planned) == scaled_tree(
            sequence_len,
            max_batch_coalesced,
            shrink_first_upload_coalescing,
            physical_thread_limit,
            tree@,
        ),
{
    reveal(scaled_tree);
    if sequence_len == 0
        || max_batch_coalesced == 0
        || physical_thread_limit == 0
        || tree.most == 0
        || tree.least == 0 {
        return Err(
            VkFftError::InvalidKernelIr(
                "axis-0 global Rader register scaling requires non-zero dimensions",
            ),
        );
    }
    let coalesced: usize = shrink_coalescing(
        sequence_len,
        max_batch_coalesced,
        shrink_first_upload_coalescing,
        physical_thread_limit,
        tree.least,
    )?;
    let elements: usize = checked_mul(
        sequence_len,
        coalesced,
        "axis-0 global Rader coalesced element pressure",
    )?;
    let scale: usize = find_register_scale(elements, tree.least, physical_thread_limit)?;
    let enlarged: RaderRegisterTree = scale_outer(tree, scale)?;
    let relieved: RaderRegisterTree = relieve_tree(
        enlarged,
        elements,
        scale,
        physical_thread_limit,
    )?;
    let (most, least) = find_tree_extrema(
        &relieved,
        umax(relieved.most, relieved.least),
        umin(relieved.most, relieved.least),
    );
    Ok((set_counts(relieved, most, least), scale))
}

/// Every used entry raised to the largest multiple of itself within the count.
pub open spec fn levelled_table(table: Seq<usize>, most: usize) -> Seq<usize> {
    Seq::new(
        table.len(),
        |i: int|
            if table[i] == 0 || quotient(most, table[i]) < 2 {
                table[i]
            } else {
                round_down(most, table[i])
            },
    )
}

fn level_table(table: RadixTable, most: usize) -> (levelled: RadixTable)
    ensures
        levelled@ == levelled_table(table@, most),
{
    let mut levelled: RadixTable = table;
    let mut index: usize = 0;
    while index < VKFFT_RADIX_TABLE_LEN
        invariant
            index <= VKFFT_RADIX_TABLE_LEN,
            levelled@.len() == table@.len(),
            forall|i: int|
                0 <= i < index ==> #[trigger] levelled@[i] == levelled_table(table@, most)[i],
            forall|i: int| index <= i < table@.len() ==> #[trigger] levelled@[i] == table@[i],
        decreases VKFFT_RADIX_TABLE_LEN - index,
    {
        let value: usize = table[index];
        assert(levelled@[index as int] == table@[index as int]);
        if value != 0 && quotient(most, value) >= 2 {
            levelled[index] = round_down(most, value);
        }
        assert(levelled@[index as int] == levelled_table(table@, most)[index as int]);
        index = index + 1;
    }
    assert(levelled@ =~= levelled_table(table@, most));
    levelled
}

/// A container with its table levelled.
pub open spec fn levelled_container(
    container: RaderContainerModel,
    most: usize,
) -> RaderContainerModel {
    with_registers(
        container,
        levelled_table(container.registers_per_thread_per_radix, most),
        container.registers_per_thread,
        container.min_registers_per_thread,
    )
}

/// The tree with all tables levelled.
pub open spec fn levelled_tree(tree: RaderTreeModel, most: usize) -> RaderTreeModel {
    RaderTreeModel {
        outer: levelled_table(tree.outer, most),
        most,
        least: tree.least,
        containers: Seq::new(
            tree.containers.len(),
            |i: int| levelled_container(tree.containers[i], most),
        ),
    }
}

fn level_tree(tree: RaderRegisterTree, most: usize) -> (levelled: RaderRegisterTree)
    ensures
        levelled@ == levelled_tree(tree@, most),
{
    let ghost start = tree@.containers;
    let ghost target = levelled_tree(tree@, most).containers;
    let outer: RadixTable = level_table(tree.outer, most);
    let least: usize = tree.least;
    let mut containers: Vec<MultiFftRaderContainerRegisterState> = tree.containers;
    let mut index: usize = 0;
    while index < containers.len()
        invariant
            index <= containers.len(),
            containers_view(containers@).len() == start.len(),
            target.len() == start.len(),
            target == Seq::new(start.len(), |i: int| levelled_container(start[i], most)),
            forall|i: int| 0 <= i < index ==>
                #[trigger] containers_view(containers@)[i] == target[i],
            forall|i: int|
                index <= i < start.len() ==> #[trigger] containers_view(containers@)[i]
                    == start[i],
        decreases containers.len() - index,
    {
        proof {
            view_at(containers@, index as int);
        }
        let largest: usize = containers[index].registers_per_thread;
        let smallest: usize = containers[index].min_registers_per_thread;
        let table: RadixTable = level_table(containers[index].registers_per_thread_per_radix, most);
        let ghost before = containers_view(containers@);
        proof {
            assert(before[index as int] == start[index as int]);
        }
        set_registers(&mut containers, index, table, largest, smallest);
        assert(containers_view(containers@)[index as int] == target[index as int]);
        index = index + 1;
    }
    assert(containers_view(containers@) =~= target);
    RaderRegisterTree { outer, most, least, containers }
}

/// The tree with all tables levelled to its largest count, which is at least the floor of
/// the direct primes; `None` where no table is used.
#[verifier::opaque]
pub open spec fn harmonised_tree(
    tree: RaderTreeModel,
    rader_min_registers: usize,
) -> PlanResult<Option<RaderTreeModel>> {
    let target = umax(tree.most, rader_min_registers);
    let levelled = levelled_tree(tree, target);
    let (most, least) = tree_extrema(levelled, target, usize::MAX);
    if least == usize::MAX || least == 0 {
        Ok(None)
    } else {
        Ok(Some(with_counts(levelled, most, least)))
    }
}

pub fn harmonise_tree(
    tree: RaderRegisterTree,
    rader_min_registers: usize,
) -> (planned: PlanResult<Option<RaderRegisterTree>>)
    ensures
        viewed_option(planned) == harmonised_tree(tree@, rader_min_registers),
{
    reveal(harmonised_tree);
    let target: usize = umax(tree.most, rader_min_registers);
    let levelled: RaderRegisterTree = level_tree(tree, target);
    let (most, least) = find_tree_extrema(&levelled, target, usize::MAX);
    if least == usize::MAX || least == 0 {
        return Ok(None);
    }
    Ok(Some(set_counts(levelled, most, least)))
}

/// How often each small prime divides the smooth factor around Rader containers.
pub open spec fn outer_multipliers(
    smooth_outer_factor: usize,
) -> PlanResult<Seq<usize>> {
    if smooth_outer_factor == 0 {
        Err(VkFftError::UnsupportedKernelPath("Rader smooth outer factor must be non-zero"))
    } else {
        let (e, rest) = small_factors(smooth_outer_factor);
        if rest != 1 {
            Err(
                VkFftError::UnsupportedKernelPath(
                    "Rader smooth outer factor contains a non-Stockham prime",
                ),
            )
        } else {
            Ok(prime_table(e.two, e.three, e.five, e.seven, e.eleven, e.thirteen))
        }
    }
}

pub fn smooth_outer_primitive_multipliers(
    smooth_outer_factor: usize,
) -> (planned: PlanResult<RadixTable>)
    ensures
        viewed(planned) == outer_multipliers(smooth_outer_factor),
{
    if smooth_outer_factor == 0 {
        return Err(VkFftError::UnsupportedKernelPath("Rader smooth outer factor must be non-zero"));
    }
    let (e, rest) = factor_small(smooth_outer_factor);
    if rest != 1 {
        return Err(
            VkFftError::UnsupportedKernelPath(
                "Rader smooth outer factor contains a non-Stockham prime",
            ),
        );
    }
    Ok(build_prime_table(e.two, e.three, e.five, e.seven, e.eleven, e.thirteen))
}

/// The exponents of the small primes of a length, and what they leave of it.
pub open spec fn small_factors(fft_len: usize) -> (SmallExponents, usize) {
    (small_exponents(fft_len as int), small_rest(fft_len as int) as usize)
}

/// The smallest count of the stages from `radix` on; each stage that occurs needs
/// registers.
pub open spec fn outer_floor_from(
    registers: Seq<usize>,
    multipliers: Seq<usize>,
    least: usize,
    operation: &'static str,
    radix: int,
) -> PlanResult<usize>
    decreases VKFFT_RADIX_TABLE_LEN - radix,
{
    if radix >= VKFFT_RADIX_TABLE_LEN {
        Ok(least)
    } else if multipliers[radix] == 0 {
        outer_floor_from(registers, multipliers, least, operation, radix + 1)
    } else if registers[radix] == 0 {
        Err(VkFftError::InvalidKernelIr(operation))
    } else {
        outer_floor_from(
            registers,
            multipliers,
            umin(least, registers[radix]),
            operation,
            radix + 1,
        )
    }
}

/// The smallest count of the outer stages once regrouped, and `least`; a smooth factor of
/// one has no stages.
#[verifier::opaque]
pub open spec fn outer_floor(
    outer: Seq<usize>,
    multipliers: Seq<usize>,
    smooth_outer_factor: usize,
    least: usize,
    operation: &'static str,
) -> PlanResult<usize> {
    if smooth_outer_factor <= 1 {
        Ok(least)
    } else {
        let (registers, stages, _, _) = optimized_radices(outer, multipliers);
        outer_floor_from(registers, stages, least, operation, 2)
    }
}

pub fn find_outer_floor(
    outer: RadixTable,
    multipliers: RadixTable,
    smooth_outer_factor: usize,
    least: usize,
    operation: &'static str,
) -> (floor: PlanResult<usize>)
    ensures
        floor == outer_floor(outer@, multipliers@, smooth_outer_factor, least, operation),
{
    reveal(outer_floor);
    if smooth_outer_factor <= 1 {
        return Ok(least);
    }
    let (registers, stages, _largest, _required) = optimize_tables(outer, multipliers);
    let mut smallest: usize = least;
    let mut radix: usize = 2;
    while radix < VKFFT_RADIX_TABLE_LEN
        invariant
            2 <= radix <= VKFFT_RADIX_TABLE_LEN,
            smooth_outer_factor > 1,
            registers@ == optimized_radices(outer@, multipliers@).0,
            stages@ == optimized_radices(outer@, multipliers@).1,
            outer_floor_from(registers@, stages@, smallest, operation, radix as int)
                == outer_floor_from(registers@, stages@, least, operation, 2),
        decreases VKFFT_RADIX_TABLE_LEN - radix,
    {
        reveal(outer_floor);
        if stages[radix] != 0 {
            if registers[radix] == 0 {
                return Err(VkFftError::InvalidKernelIr(operation));
            }
            smallest = umin(smallest, registers[radix]);
        }
        radix = radix + 1;
    }
    Ok(smallest)
}

/// Registers and lanes the stages of a convolution ask for, from `radix` downwards:
/// whether any stage has registers, the smallest count and the most lanes.
pub open spec fn stage_pressure(
    registers: Seq<usize>,
    multipliers: Seq<usize>,
    container_fft_num: usize,
    convolution_len: usize,
    seen: bool,
    least: usize,
    threads: usize,
    radix: int,
) -> PlanResult<(bool, usize, usize)>
    decreases radix,
{
    if radix < 2 {
        Ok((seen, least, threads))
    } else if multipliers[radix] == 0 || registers[radix] == 0 {
        stage_pressure(
            registers,
            multipliers,
            container_fft_num,
            convolution_len,
            seen,
            least,
            threads,
            radix - 1,
        )
    } else {
        match ceil_div(convolution_len, registers[radix]) {
            Err(error) => Err(error),
            Ok(lanes) => match checked_mul(
                container_fft_num,
                lanes,
                "recursive FFT-Rader child thread pressure",
            ) {
                Err(error) => Err(error),
                Ok(total) => stage_pressure(
                    registers,
                    multipliers,
                    container_fft_num,
                    convolution_len,
                    true,
                    umin(least, registers[radix]),
                    umax(threads, total),
                    radix - 1,
                ),
            },
        }
    }
}

fn measure_stage_pressure(
    registers: &RadixTable,
    multipliers: &RadixTable,
    container_fft_num: usize,
    convolution_len: usize,
    least: usize,
    threads: usize,
) -> (pressure: PlanResult<(bool, usize, usize)>)
    ensures
        pressure == stage_pressure(
            registers@,
            multipliers@,
            container_fft_num,
            convolution_len,
            false,
            least,
            threads,
            VKFFT_RADIX_TABLE_LEN - 1,
        ),
{
    let mut seen: bool = false;
    let mut smallest: usize = least;
    let mut most: usize = threads;
    let mut radix: usize = VKFFT_RADIX_TABLE_LEN - 1;
    while radix >= 2
        invariant
            1 <= radix < VKFFT_RADIX_TABLE_LEN,
            stage_pressure(
                registers@,
                multipliers@,
                container_fft_num,
                convolution_len,
                seen,
                smallest,
                most,
                radix as int,
            ) == stage_pressure(
                registers@,
                multipliers@,
                container_fft_num,
                convolution_len,
                false,
                least,
                threads,
                VKFFT_RADIX_TABLE_LEN - 1,
            ),
        decreases radix,
    {
        let count: usize = registers[radix];
        if multipliers[radix] != 0 && count != 0 {
            let lanes: usize = ceil_div(convolution_len, count)?;
            let total: usize = checked_mul(
                container_fft_num,
                lanes,
                "recursive FFT-Rader child thread pressure",
            )?;
            seen = true;
            smallest = umin(smallest, count);
            most = umax(most, total);
        }
        radix = radix - 1;
    }
    Ok((seen, smallest, most))
}

/// The smallest register count and the most lanes once the stages of a container and of
/// those inside it are counted in. A stage without registers asks for nothing.
pub open spec fn container_pressure(
    container: RaderContainerModel,
    least: usize,
    threads: usize,
) -> PlanResult<(usize, usize)>
    decreases container, 0int,
{
    if container.kind == MultiFftRaderContainerKind::Direct {
        Ok((least, threads))
    } else {
        let (registers, multipliers, _, _) = optimized_radices(
            container.registers_per_thread_per_radix,
            container.stage_radix_multipliers,
        );
        match stage_pressure(
            registers,
            multipliers,
            container.container_fft_num,
            container.prime.saturating_sub(1),
            false,
            least,
            threads,
            VKFFT_RADIX_TABLE_LEN - 1,
        ) {
            Err(error) => Err(error),
            Ok((seen, smallest, most)) => match containers_pressure_from(
                container.subcontainers,
                smallest,
                most,
                0,
            ) {
                Err(error) => Err(error),
                Ok(total) => if !seen && container.subcontainers.len() == 0 {
                    Err(
                        VkFftError::InvalidKernelIr(
                            "recursive FFT-Rader container has no executable parent or sub-prime stage",
                        ),
                    )
                } else {
                    Ok(total)
                },
            },
        }
    }
}

/// The same for the containers of a list from index `from` on.
pub open spec fn containers_pressure_from(
    containers: Seq<RaderContainerModel>,
    least: usize,
    threads: usize,
    from: nat,
) -> PlanResult<(usize, usize)>
    decreases containers, containers.len() - from,
{
    if from >= containers.len() {
        Ok((least, threads))
    } else {
        match container_pressure(containers[from as int], least, threads) {
            Err(error) => Err(error),
            Ok((smallest, most)) => containers_pressure_from(
                containers,
                smallest,
                most,
                from + 1,
            ),
        }
    }
}

/// The smallest register count and the most lanes of a container and of those inside it.
pub fn optimize_and_collect_recursive_fft_rader_pressure(
    container: &MultiFftRaderContainerRegisterState,
    final_min_registers: usize,
    min_rader_fft_thread_num: usize,
) -> (pressure: PlanResult<(usize, usize)>)
    ensures
        pressure == container_pressure(
            container@,
            final_min_registers,
            min_rader_fft_thread_num,
        ),
    decreases container@, 0int,
{
    if container.kind == MultiFftRaderContainerKind::Direct {
        return Ok((final_min_registers, min_rader_fft_thread_num));
    }
    let (registers, multipliers, _largest, _required) = optimize_tables(
        container.registers_per_thread_per_radix,
        container.stage_radix_multipliers,
    );
    let (seen, least, threads) = measure_stage_pressure(
        &registers,
        &multipliers,
        container.container_fft_num,
        container.prime.saturating_sub(1),
        final_min_registers,
        min_rader_fft_thread_num,
    )?;
    let total: (usize, usize) = collect_containers_pressure(
        &container.subcontainers,
        least,
        threads,
    )?;
    if !seen && container.subcontainers.len() == 0 {
        return Err(
            VkFftError::InvalidKernelIr(
                "recursive FFT-Rader container has no executable parent or sub-prime stage",
            ),
        );
    }
    Ok(total)
}

/// The smallest register count and the most lanes of a list of containers.
pub open spec fn containers_pressure(
    containers: Seq<RaderContainerModel>,
    least: usize,
    threads: usize,
) -> PlanResult<(usize, usize)> {
    containers_pressure_from(containers, least, threads, 0)
}

pub fn collect_containers_pressure(
    containers: &Vec<MultiFftRaderContainerRegisterState>,
    least: usize,
    threads: usize,
) -> (pressure: PlanResult<(usize, usize)>)
    ensures
        pressure == containers_pressure(containers_view(containers@), least, threads),
    decreases containers_view(containers@), containers@.len(),
{
    let mut smallest: usize = least;
    let mut most: usize = threads;
    let mut index: usize = 0;
    while index < containers.len()
        invariant
            index <= containers.len(),
            containers_pressure_from(
                containers_view(containers@),
                smallest,
                most,
                index as nat,
            ) == containers_pressure(containers_view(containers@), least, threads),
        decreases containers.len() - index,
    {
        proof {
            view_at(containers@, index as int);
        }
        let (next_smallest, next_most) = optimize_and_collect_recursive_fft_rader_pressure(
            &containers[index],
            smallest,
            most,
        )?;
        smallest = next_smallest;
        most = next_most;
        index = index + 1;
    }
    Ok((smallest, most))
}

} // verus!
