//! The lanes of a Rader convolution hold all of it: every stage has a lane for every
//! butterfly, and no more lanes are taken than the widest stage asks for.

use vstd::prelude::*;

use crate::arith::{ceil_div, ceil_div_is_least_cover, checked_mul, umax};

use crate::config::DeviceProfile;
use crate::error::VkFftError;
use crate::rader_registers::{
    rader_fft_registers, stage_lanes, transpose_schedule, transposed_stages_from,
    RaderFftRegisterModel, RaderFftStageLaneSchedule, RaderFftTransposeModel,
};
use crate::rader_tables::{container_lanes, stage_lanes_from};
use crate::radix_laws::{checked_stages_multiply_to_the_length, stages_multiply_to};
use crate::registers::RadixRegisterModel;

verus! {

/// Whether `lanes` lanes, each with the registers of the stage's radix, hold `len` values.
pub open spec fn lanes_hold(
    lanes: int,
    len: int,
    stages: Seq<usize>,
    registers: Seq<usize>,
    index: int,
) -> bool {
    lanes * registers[stages[index] as int] >= len
}

pub(crate) proof fn stage_lanes_cover(
    fft_len: usize,
    stages: Seq<usize>,
    registers: Seq<usize>,
    from: int,
    most: usize,
)
    requires
        0 <= from <= stages.len(),
    ensures
        stage_lanes_from(fft_len, stages, registers, from, most) matches Ok(lanes) ==> {
            &&& lanes >= most
            &&& forall|i: int|
                from <= i < stages.len() ==> #[trigger] lanes_hold(
                    lanes as int,
                    fft_len as int,
                    stages,
                    registers,
                    i,
                )
            &&& lanes == most || exists|i: int|
                from <= i < stages.len() && !#[trigger] lanes_hold(
                    lanes - 1,
                    fft_len as int,
                    stages,
                    registers,
                    i,
                )
        },
    decreases stages.len() - from,
{
    if from < stages.len() && registers[stages[from] as int] != 0 {
        let count = registers[stages[from] as int];
        if let Ok(here) = ceil_div(fft_len, count) {
            ceil_div_is_least_cover(fft_len, count);
            stage_lanes_cover(fft_len, stages, registers, from + 1, umax(most, here));
            if let Ok(lanes) = stage_lanes_from(fft_len, stages, registers, from, most) {
                assert(lanes * count >= fft_len) by (nonlinear_arith)
                    requires
                        here * count >= fft_len,
                        lanes >= here,
                        count >= 0,
                ;
                assert(lanes_hold(lanes as int, fft_len as int, stages, registers, from));
                if lanes == umax(most, here) && lanes != most {
                    if (here - 1) * count >= fft_len {
                        assert(here == 0 || here - 1 >= here);
                        assert((here - 1) * count < 0 || here > 0) by (nonlinear_arith)
                            requires
                                count > 0,
                        ;
                        assert(((here - 1) as usize) * count >= fft_len);
                    }
                    assert(!lanes_hold(lanes - 1, fft_len as int, stages, registers, from));
                }
            }
        }
    }
}

/// What a transposed stage has to be: it runs the radix of its place, its lanes hold one
/// container, one lane fewer would not, and all containers have those lanes.
pub open spec fn transposed_stage_covers(
    transpose: RaderFftTransposeModel,
    internal_fft: RadixRegisterModel,
    index: int,
) -> bool {
    let stage = transpose.stages[index];
    let radix = internal_fft.stage_radices[index];
    &&& stage.radix == radix
    &&& stage.logical_storage_per_thread
        == internal_fft.registers_per_thread_per_radix[radix as int]
        * internal_fft.register_boost
    &&& stage.sub_logical_group_size * stage.logical_storage_per_thread
        >= transpose.container_fft_dim
    &&& (stage.sub_logical_group_size - 1) * stage.logical_storage_per_thread
        < transpose.container_fft_dim
    &&& stage.active_threads == transpose.container_fft_num * stage.sub_logical_group_size
    &&& stage.active_threads <= transpose.workgroup_threads
}

proof fn transposed_stages_cover(
    container_fft_num: usize,
    container_fft_dim: usize,
    internal_fft: RadixRegisterModel,
    stages: Seq<RaderFftStageLaneSchedule>,
    most: usize,
    from: int,
)
    requires
        from == stages.len() <= internal_fft.stage_radices.len(),
        container_fft_dim > 0,
        forall|m: usize, i: int|
            m >= most && 0 <= i < from ==> #[trigger] transposed_stage_covers(
                RaderFftTransposeModel {
                    container_fft_num,
                    container_fft_dim,
                    workgroup_threads: m,
                    stages,
                },
                internal_fft,
                i,
            ),
    ensures
        transposed_stages_from(
            container_fft_num,
            container_fft_dim,
            internal_fft,
            stages,
            most,
            from,
        ) matches Ok((all, threads)) ==> {
            &&& all.len() == internal_fft.stage_radices.len()
            &&& threads >= most
            &&& forall|i: int|
                0 <= i < all.len() ==> #[trigger] transposed_stage_covers(
                    RaderFftTransposeModel {
                        container_fft_num,
                        container_fft_dim,
                        workgroup_threads: threads,
                        stages: all,
                    },
                    internal_fft,
                    i,
                )
        },
    decreases internal_fft.stage_radices.len() - from,
{
    if from < internal_fft.stage_radices.len() {
        let radix = internal_fft.stage_radices[from];
        if let Ok(storage) = checked_mul(
            internal_fft.registers_per_thread_per_radix[radix as int],
            internal_fft.register_boost,
            "Rader transpose logical storage per thread",
        ) {
            if storage != 0 {
                if let Ok(group) = ceil_div(container_fft_dim, storage) {
                    ceil_div_is_least_cover(container_fft_dim, storage);
                    if let Ok(threads) = checked_mul(
                        container_fft_num,
                        group,
                        "Rader transpose active thread count",
                    ) {
                        let next = stages.push(
                            stage_lanes(from as usize, radix, storage, group, threads),
                        );
                        if (group - 1) * storage >= container_fft_dim {
                            assert(((group - 1) as usize) * storage >= container_fft_dim);
                        }
                        assert forall|m: usize, i: int|
                            m >= umax(most, threads) && 0 <= i < from
                                + 1 implies #[trigger] transposed_stage_covers(
                            RaderFftTransposeModel {
                                container_fft_num,
                                container_fft_dim,
                                workgroup_threads: m,
                                stages: next,
                            },
                            internal_fft,
                            i,
                        ) by {
                            if i < from {
                                assert(transposed_stage_covers(
                                    RaderFftTransposeModel {
                                        container_fft_num,
                                        container_fft_dim,
                                        workgroup_threads: m,
                                        stages,
                                    },
                                    internal_fft,
                                    i,
                                ));
                            }
                        }
                        transposed_stages_cover(
                            container_fft_num,
                            container_fft_dim,
                            internal_fft,
                            next,
                            umax(most, threads),
                            from + 1,
                        );
                    }
                }
            }
        }
    }
}

/// What the plan of a Rader convolution promises of its lanes.
pub open spec fn convolution_is_covered(
    plan: RaderFftRegisterModel,
    batch_count: usize,
    device: DeviceProfile,
) -> bool {
    let internal = plan.internal_fft;
    let lanes = plan.min_rader_fft_thread_num as int / plan.container_fft_num as int;
    // The lanes of one container hold the convolution at every stage.
    &&& plan.min_rader_fft_thread_num == plan.container_fft_num * lanes
    &&& forall|i: int|
        0 <= i < internal.stage_radices.len() ==> #[trigger] lanes_hold(
            lanes,
            plan.convolution_len as int,
            internal.stage_radices,
            internal.registers_per_thread_per_radix,
            i,
        )
    // One lane fewer would not.
    &&& exists|i: int|
        0 <= i < internal.stage_radices.len() && !#[trigger] lanes_hold(
            lanes - 1,
            plan.convolution_len as int,
            internal.stage_radices,
            internal.registers_per_thread_per_radix,
            i,
        )
    // The stages are a transform of the convolution's length.
    &&& stages_multiply_to(internal.stage_radices, 0) == plan.convolution_len
    // The launch runs every convolution of the batch with those lanes, within the device.
    &&& plan.execution_threads_per_workgroup == plan.execution_container_fft_num * lanes
    &&& plan.execution_workgroup_count * plan.execution_container_fft_num == batch_count
    &&& plan.execution_container_fft_num <= plan.container_fft_num
    &&& plan.min_rader_fft_thread_num <= device.max_threads_per_block
    // A transpose covers the convolution too, and is there where it is of use.
    &&& plan.rader_transpose is Some <==> plan.container_fft_num >= 8
        && internal.stage_radices.len() > 1
    &&& plan.rader_transpose matches Some(transpose) ==> {
        &&& transpose.container_fft_num == plan.container_fft_num
        &&& transpose.container_fft_dim == plan.convolution_len
        &&& transpose.workgroup_threads == plan.min_rader_fft_thread_num
        &&& transpose.stages.len() == internal.stage_radices.len()
        &&& forall|i: int|
            0 <= i < transpose.stages.len() ==> #[trigger] transposed_stage_covers(
                transpose,
                internal,
                i,
            )
    }
}

/// In every plan of a Rader convolution that is handed out, the lanes cover the
/// convolution: those of one container hold all its values at every stage, transposed or
/// not, and one lane fewer would lose some.
pub proof fn rader_lanes_cover_the_convolution(
    prime: usize,
    batch_count: usize,
    outer_fft_len: usize,
    container_fft_num: usize,
    device: DeviceProfile,
    plan: RaderFftRegisterModel,
)
    requires
        rader_fft_registers(prime, batch_count, outer_fft_len, container_fft_num, device) == Ok::<
            RaderFftRegisterModel,
            VkFftError,
        >(plan),
    ensures
        plan.prime == prime,
        plan.convolution_len == prime - 1,
        plan.outer_fft_len == outer_fft_len == prime * container_fft_num,
        plan.container_fft_num == container_fft_num,
        convolution_is_covered(plan, batch_count, device),
{
    reveal(rader_fft_registers);
    reveal(RaderFftRegisterModel::checked);
    reveal(transpose_schedule);
    let internal = plan.internal_fft;
    checked_stages_multiply_to_the_length(internal);
    stage_lanes_cover(
        internal.fft_len,
        internal.stage_radices,
        internal.registers_per_thread_per_radix,
        0,
        0,
    );
    let lanes = container_lanes(internal)->Ok_0 as int;
    let num = plan.container_fft_num as int;
    assert((num * lanes) / num == lanes) by (nonlinear_arith)
        requires
            num > 0,
    ;
    assert(lanes != 0) by {
        assert(num * 0 == 0);
    }
    let groups = plan.execution_container_fft_num as int;
    vstd::arithmetic::div_mod::lemma_fundamental_div_mod(batch_count as int, groups);
    assert(groups * (batch_count as int / groups) == (batch_count as int / groups) * groups)
        by (nonlinear_arith);
    if plan.rader_transpose is Some {
        transposed_stages_cover(
            plan.container_fft_num,
            plan.convolution_len,
            internal,
            Seq::empty(),
            0,
            0,
        );
    }
    assert(plan.min_rader_fft_thread_num == num * lanes);
    assert(plan.execution_threads_per_workgroup == plan.execution_container_fft_num * lanes);
    assert(plan.execution_workgroup_count * plan.execution_container_fft_num == batch_count);
    assert(plan.min_rader_fft_thread_num <= device.max_threads_per_block);
    assert(plan.rader_transpose matches Some(transpose) ==> transpose.stages.len()
        == internal.stage_radices.len());
    assert(plan.rader_transpose is Some <==> plan.container_fft_num >= 8
        && internal.stage_radices.len() > 1);
}

} // verus!
