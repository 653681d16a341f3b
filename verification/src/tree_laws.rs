//! What optimizing, scaling and levelling the registers of a tree leaves unchanged, and how
//! the counts of a tree relate to those of its containers.

use vstd::prelude::*;

use crate::arith::{umax, umin};
use crate::error::VkFftError;
use crate::rader_containers::{MultiFftRaderContainerKind, RaderContainerModel};
use crate::rader_tables::{coupled_container, lifted_table, used_extrema, CouplingModel};
use crate::rader_tree::{
    containers_scaled_from, coupled_from, harmonised_tree, levelled_tree, lifted_from,
    merged_extrema, nested_optimized_from, optimized_tree, relieved_tree, scaled_outer, scaled_tree,
    table_scaled, with_coupled, with_registers, with_subcontainers, RaderTreeModel,
};

verus! {

/// Whether two containers agree in all but registers, and so do the containers inside them.
pub open spec fn same_but_registers(a: RaderContainerModel, b: RaderContainerModel) -> bool
    decreases a,
{
    &&& a.kind == b.kind
    &&& a.prime == b.prime
    &&& a.container_fft_num == b.container_fft_num
    &&& a.stage_radix_multipliers == b.stage_radix_multipliers
    &&& a.subcontainers.len() == b.subcontainers.len()
    &&& forall|i: int|
        0 <= i < a.subcontainers.len() ==> same_but_registers(
            #[trigger] a.subcontainers[i],
            b.subcontainers[i],
        )
}

/// The same for two lists of containers.
pub open spec fn same_containers(
    a: Seq<RaderContainerModel>,
    b: Seq<RaderContainerModel>,
) -> bool {
    &&& a.len() == b.len()
    &&& forall|i: int| 0 <= i < a.len() ==> same_but_registers(#[trigger] a[i], b[i])
}

proof fn same_as_itself(container: RaderContainerModel)
    ensures
        same_but_registers(container, container),
    decreases container,
{
    assert forall|i: int| 0 <= i < container.subcontainers.len() implies same_but_registers(
        #[trigger] container.subcontainers[i],
        container.subcontainers[i],
    ) by {
        same_as_itself(container.subcontainers[i]);
    }
}

proof fn all_same_as_themselves(containers: Seq<RaderContainerModel>)
    ensures
        same_containers(containers, containers),
{
    assert forall|i: int| 0 <= i < containers.len() implies same_but_registers(
        #[trigger] containers[i],
        containers[i],
    ) by {
        same_as_itself(containers[i]);
    }
}

proof fn same_after_registers(
    start: Seq<RaderContainerModel>,
    containers: Seq<RaderContainerModel>,
    index: int,
    table: Seq<usize>,
    most: usize,
    least: usize,
)
    requires
        same_containers(start, containers),
        0 <= index < containers.len(),
    ensures
        same_containers(
            start,
            containers.update(index, with_registers(containers[index], table, most, least)),
        ),
{
    assert(same_but_registers(start[index], containers[index]));
}

proof fn coupling_keeps_containers(
    start: Seq<RaderContainerModel>,
    sequence_len: usize,
    tree: RaderTreeModel,
    from: nat,
    coupled: RaderTreeModel,
)
    requires
        same_containers(start, tree.containers),
        coupled_from(sequence_len, tree, from) == Ok::<RaderTreeModel, VkFftError>(coupled),
    ensures
        same_containers(start, coupled.containers),
    decreases tree.containers.len() - from,
{
    if from < tree.containers.len() {
        let container = tree.containers[from as int];
        if container.kind == MultiFftRaderContainerKind::Direct {
            coupling_keeps_containers(start, sequence_len, tree, from + 1, coupled);
        } else {
            let step = coupled_container(
                CouplingModel {
                    outer: tree.outer,
                    outer_most: tree.most,
                    outer_least: tree.least,
                    table: container.registers_per_thread_per_radix,
                    most: container.registers_per_thread,
                    least: container.min_registers_per_thread,
                },
                sequence_len,
                container.container_fft_num,
                container.prime.saturating_sub(1),
                "multi FFT-Rader register alignment",
                "multi FFT-Rader occupancy register scaling",
            )->Ok_0;
            same_after_registers(
                start,
                tree.containers,
                from as int,
                step.table,
                step.most,
                step.least,
            );
            coupling_keeps_containers(
                start,
                sequence_len,
                with_coupled(tree, from as int, step),
                from + 1,
                coupled,
            );
        }
    }
}

proof fn lifting_keeps_containers(
    start: Seq<RaderContainerModel>,
    containers: Seq<RaderContainerModel>,
    most: usize,
    from: nat,
    lifted: Seq<RaderContainerModel>,
)
    requires
        same_containers(start, containers),
        lifted_from(containers, most, from) == Ok::<Seq<RaderContainerModel>, VkFftError>(lifted),
    ensures
        same_containers(start, lifted),
    decreases containers.len() - from,
{
    if from < containers.len() {
        if containers[from as int].kind == MultiFftRaderContainerKind::Direct {
            lifting_keeps_containers(start, containers, most, from + 1, lifted);
        } else {
            let table = lifted_table(
                containers[from as int].registers_per_thread_per_radix,
                most,
            );
            let (largest, smallest) = used_extrema(table)->Ok_0;
            same_after_registers(start, containers, from as int, table, largest, smallest);
            lifting_keeps_containers(
                start,
                containers.update(
                    from as int,
                    with_registers(containers[from as int], table, largest, smallest),
                ),
                most,
                from + 1,
                lifted,
            );
        }
    }
}

proof fn nesting_keeps_containers(
    sequence_len: usize,
    original: Seq<RaderContainerModel>,
    tree: RaderTreeModel,
    from: nat,
    nested: RaderTreeModel,
)
    requires
        same_containers(original, tree.containers),
        nested_optimized_from(sequence_len, original, tree, from) == Ok::<
            RaderTreeModel,
            VkFftError,
        >(nested),
    ensures
        same_containers(original, nested.containers),
    decreases original, original.len() - from,
{
    if from < original.len() {
        if original[from as int].subcontainers.len() == 0 {
            nesting_keeps_containers(sequence_len, original, tree, from + 1, nested);
        } else {
            let inner = RaderTreeModel {
                outer: tree.outer,
                most: tree.most,
                least: tree.least,
                containers: original[from as int].subcontainers,
            };
            let step = optimized_tree(sequence_len, inner)->Ok_0;
            optimizing_keeps_containers(sequence_len, inner, step);
            let next = RaderTreeModel {
                outer: step.outer,
                most: step.most,
                least: step.least,
                containers: tree.containers.update(
                    from as int,
                    with_subcontainers(tree.containers[from as int], step.containers),
                ),
            };
            assert(same_but_registers(original[from as int], tree.containers[from as int]));
            assert(same_but_registers(original[from as int], next.containers[from as int]));
            assert(same_containers(original, next.containers));
            nesting_keeps_containers(sequence_len, original, next, from + 1, nested);
        }
    }
}

/// Optimizing the registers of a tree changes nothing but registers, at any depth.
pub proof fn optimizing_keeps_containers(
    sequence_len: usize,
    tree: RaderTreeModel,
    optimized: RaderTreeModel,
)
    requires
        optimized_tree(sequence_len, tree) == Ok::<RaderTreeModel, VkFftError>(optimized),
    ensures
        same_containers(tree.containers, optimized.containers),
    decreases tree.containers, tree.containers.len() + 1,
{
    all_same_as_themselves(tree.containers);
    let coupled = coupled_from(sequence_len, tree, 0)->Ok_0;
    coupling_keeps_containers(tree.containers, sequence_len, tree, 0, coupled);
    let lifted = lifted_from(coupled.containers, coupled.most, 0)->Ok_0;
    lifting_keeps_containers(tree.containers, coupled.containers, coupled.most, 0, lifted);
    let start = RaderTreeModel { containers: lifted, ..coupled };
    let nested = nested_optimized_from(sequence_len, tree.containers, start, 0)->Ok_0;
    nesting_keeps_containers(sequence_len, tree.containers, start, 0, nested);
}

proof fn merged_extrema_bound(
    containers: Seq<RaderContainerModel>,
    most: usize,
    least: usize,
    from: int,
)
    requires
        0 <= from,
    ensures
        merged_extrema(containers, most, least, from).0 >= most,
        merged_extrema(containers, most, least, from).1 <= least,
        forall|i: int|
            from <= i < containers.len() ==> {
                &&& (#[trigger] containers[i]).registers_per_thread <= merged_extrema(
                    containers,
                    most,
                    least,
                    from,
                ).0
                &&& containers[i].min_registers_per_thread >= merged_extrema(
                    containers,
                    most,
                    least,
                    from,
                ).1
            },
    decreases containers.len() - from,
{
    if from < containers.len() {
        merged_extrema_bound(
            containers,
            umax(most, containers[from].registers_per_thread),
            umin(least, containers[from].min_registers_per_thread),
            from + 1,
        );
    }
}

/// The counts of an optimized tree bound those of all its containers.
pub proof fn optimized_counts_bound_the_containers(
    sequence_len: usize,
    tree: RaderTreeModel,
    optimized: RaderTreeModel,
)
    requires
        optimized_tree(sequence_len, tree) == Ok::<RaderTreeModel, VkFftError>(optimized),
    ensures
        forall|i: int|
            0 <= i < optimized.containers.len() ==> {
                &&& (#[trigger] optimized.containers[i]).registers_per_thread <= optimized.most
                &&& optimized.containers[i].min_registers_per_thread >= optimized.least
            },
{
    let coupled = coupled_from(sequence_len, tree, 0)->Ok_0;
    let lifted = lifted_from(coupled.containers, coupled.most, 0)->Ok_0;
    let nested = nested_optimized_from(
        sequence_len,
        tree.containers,
        RaderTreeModel { containers: lifted, ..coupled },
        0,
    )->Ok_0;
    merged_extrema_bound(nested.containers, nested.most, nested.least, 0);
}

proof fn scaling_tables_keeps_containers(
    start: Seq<RaderContainerModel>,
    containers: Seq<RaderContainerModel>,
    scale: usize,
    from: nat,
    scaled: Seq<RaderContainerModel>,
)
    requires
        same_containers(start, containers),
        containers_scaled_from(containers, scale, from) == Ok::<
            Seq<RaderContainerModel>,
            VkFftError,
        >(scaled),
    ensures
        same_containers(start, scaled),
    decreases containers.len() - from,
{
    if from < containers.len() {
        let container = containers[from as int];
        let table = table_scaled(
            container.registers_per_thread_per_radix,
            scale,
            "axis-0 global FFT-Rader register-table scaling",
        )->Ok_0;
        same_after_registers(
            start,
            containers,
            from as int,
            table,
            container.registers_per_thread,
            container.min_registers_per_thread,
        );
        scaling_tables_keeps_containers(
            start,
            containers.update(
                from as int,
                with_registers(
                    container,
                    table,
                    container.registers_per_thread,
                    container.min_registers_per_thread,
                ),
            ),
            scale,
            from + 1,
            scaled,
        );
    }
}

/// Scaling the registers of a tree changes nothing but registers.
pub proof fn scaling_keeps_containers(
    sequence_len: usize,
    max_batch_coalesced: usize,
    shrink_first_upload_coalescing: bool,
    physical_thread_limit: usize,
    tree: RaderTreeModel,
    scaled: RaderTreeModel,
    scale: usize,
)
    requires
        scaled_tree(
            sequence_len,
            max_batch_coalesced,
            shrink_first_upload_coalescing,
            physical_thread_limit,
            tree,
        ) == Ok::<(RaderTreeModel, usize), VkFftError>((scaled, scale)),
    ensures
        same_containers(tree.containers, scaled.containers),
        scale >= 1,
{
    reveal(scaled_tree);
    reveal(scaled_outer);
    reveal(relieved_tree);
    all_same_as_themselves(tree.containers);
    if let Ok(relieved) = containers_scaled_from(tree.containers, scale, 0) {
        scaling_tables_keeps_containers(tree.containers, tree.containers, scale, 0, relieved);
    }
}

/// Levelling the registers of a tree changes nothing but registers.
pub proof fn levelling_keeps_containers(
    tree: RaderTreeModel,
    rader_min_registers: usize,
    harmonised: RaderTreeModel,
)
    requires
        harmonised_tree(tree, rader_min_registers) == Ok::<Option<RaderTreeModel>, VkFftError>(
            Some(harmonised),
        ),
    ensures
        same_containers(tree.containers, harmonised.containers),
        harmonised.most >= tree.most,
        harmonised.most >= rader_min_registers,
        harmonised.least >= 1,
{
    reveal(harmonised_tree);
    all_same_as_themselves(tree.containers);
    let target = umax(tree.most, rader_min_registers);
    let levelled = levelled_tree(tree, target);
    assert forall|i: int| 0 <= i < tree.containers.len() implies same_but_registers(
        #[trigger] tree.containers[i],
        levelled.containers[i],
    ) by {
        same_as_itself(tree.containers[i]);
    }
    tree_extrema_only_grow(levelled, target, usize::MAX);
}

proof fn tree_extrema_only_grow(tree: RaderTreeModel, most: usize, least: usize)
    ensures
        crate::rader_tree::tree_extrema(tree, most, least).0 >= most,
{
    let (largest, smallest) = crate::registers::table_extrema(tree.outer);
    tables_extrema_only_grow(tree.containers, umax(most, largest), umin(least, smallest), 0);
}

proof fn tables_extrema_only_grow(
    containers: Seq<RaderContainerModel>,
    most: usize,
    least: usize,
    from: int,
)
    requires
        0 <= from,
    ensures
        crate::rader_tree::tables_extrema_from(containers, most, least, from).0 >= most,
    decreases containers.len() - from,
{
    if from < containers.len() {
        let (largest, smallest) = crate::registers::table_extrema(
            containers[from].registers_per_thread_per_radix,
        );
        tables_extrema_only_grow(containers, umax(most, largest), umin(least, smallest), from + 1);
    }
}

} // verus!
