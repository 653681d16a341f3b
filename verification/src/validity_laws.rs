//! What the checks of schedules accept: everything a valid one promises, stated of its
//! fields.

use vstd::prelude::*;

use crate::arith::{checked_mul, is_pow2, umax};
use crate::axis_block::StockhamAxisBlockSchedule;
use crate::config::DeviceProfile;
use crate::lane_laws::{lanes_hold, stage_lanes_cover};
use crate::rader_registers::{
    RaderFftRegisterModel, RaderFftStageLaneLayout, RaderFftTransposeModel,
};
use crate::rader_tables::container_lanes;
use crate::rader_uploads::RaderUploadModel;
use crate::radix_laws::{checked_stages_multiply_to_the_length, stages_multiply_to};
use crate::registers::{RadixRegisterModel, VKFFT_RADIX_TABLE_LEN};
use crate::split_laws::{computed_product_is_exact, product_of};

verus! {

/// A workgroup shape is accepted exactly where it groups at least one transform and no more
/// than the batch, has lanes, has its local sizes in the stated order, and keeps to both
/// extents and to the lanes of the device.
pub proof fn shapes_are_accepted_where_they_fit(
    block: StockhamAxisBlockSchedule,
    batch_count: usize,
    device: DeviceProfile,
)
    ensures
        block.checked(batch_count, device) is Ok <==> {
            &&& 1 <= block.grouped_batch <= batch_count
            &&& 1 <= block.threads_per_transform
            &&& block.local_size_x == if block.transforms_on_x {
                block.grouped_batch
            } else {
                block.threads_per_transform
            }
            &&& block.local_size_y == if block.transforms_on_x {
                block.threads_per_transform
            } else {
                block.grouped_batch
            }
            &&& block.local_size_x <= device.max_workgroup_size[0]
            &&& block.local_size_y <= device.max_workgroup_size[1]
            &&& block.local_size_x * block.local_size_y <= device.max_threads_per_block
        },
{
}

/// Whether a transposed stage is the one of its place: it runs a radix, has storage and
/// lanes, keeps the lanes of all containers active, and only the first stage lies container
/// by container.
pub open spec fn transposed_stage_is_whole(model: RaderFftTransposeModel, index: int) -> bool {
    let stage = model.stages[index];
    &&& stage.stage_index == index
    &&& stage.radix >= 2
    &&& stage.logical_storage_per_thread >= 1
    &&& stage.sub_logical_group_size >= 1
    &&& stage.active_threads == model.container_fft_num * stage.sub_logical_group_size
    &&& stage.layout == RaderFftStageLaneLayout::ContainerMajor <==> index == 0
}

proof fn checked_stages_are_whole(model: RaderFftTransposeModel, from: int, most: usize)
    requires
        0 <= from <= model.stages.len(),
    ensures
        model.stages_checked_from(from, most) matches Ok(widest) ==> {
            &&& most <= widest
            &&& forall|i: int|
                from <= i < model.stages.len() ==> transposed_stage_is_whole(model, i) && (
                #[trigger] model.stages[i]).active_threads <= widest
            &&& widest == most || exists|i: int|
                from <= i < model.stages.len() && (#[trigger] model.stages[i]).active_threads
                    == widest
        },
    decreases model.stages.len() - from,
{
    if from < model.stages.len() && model.stage_shaped(from) {
        let threads = checked_mul(
            model.container_fft_num,
            model.stages[from].sub_logical_group_size,
            "Rader transpose stage thread count",
        );
        if threads is Ok {
            checked_stages_are_whole(model, from + 1, umax(most, threads->Ok_0));
            if model.stages_checked_from(from, most) is Ok {
                assert(transposed_stage_is_whole(model, from));
            }
        }
    }
}

/// A transpose that checks has at least eight containers and two stages, every stage is
/// whole, and its workgroup has the lanes of its widest stage.
pub proof fn checked_transposes_are_whole(model: RaderFftTransposeModel)
    requires
        model.checked() is Ok,
    ensures
        model.container_fft_num >= 8,
        model.container_fft_dim >= 1,
        model.stages.len() >= 2,
        forall|i: int|
            0 <= i < model.stages.len() ==> transposed_stage_is_whole(model, i) && (
            #[trigger] model.stages[i]).active_threads <= model.workgroup_threads,
        exists|i: int|
            0 <= i < model.stages.len() && (#[trigger] model.stages[i]).active_threads
                == model.workgroup_threads,
{
    reveal(RaderFftTransposeModel::checked);
    checked_stages_are_whole(model, 0, 0);
}

/// A Rader plan that checks is of one prime and its convolution: the dimensions multiply, the
/// lanes of a container hold it at every stage and one fewer would not, the thread and
/// workgroup counts follow, and it is transposed exactly where eight containers run several
/// stages.
pub proof fn checked_rader_plans_hold_together(model: RaderFftRegisterModel)
    requires
        model.checked() is Ok,
    ensures
        model.prime >= 3,
        model.convolution_len == model.prime - 1,
        model.prime * model.container_fft_num == model.outer_fft_len,
        1 <= model.execution_container_fft_num <= model.container_fft_num,
        model.internal_fft.fft_len == model.convolution_len,
        model.internal_fft.register_boost == 1,
        stages_multiply_to(model.internal_fft.stage_radices, 0) == model.convolution_len,
        model.internal_fft.rhs_transform_count % model.container_fft_num == 0,
        model.execution_workgroup_count * model.execution_container_fft_num
            == model.internal_fft.rhs_transform_count,
        exists|lanes: int|
            #![trigger model.container_fft_num * lanes]
            model.min_rader_fft_thread_num == model.container_fft_num * lanes
                && model.execution_threads_per_workgroup == model.execution_container_fft_num
                * lanes && lanes >= 1 && forall|i: int|
                0 <= i < model.internal_fft.stage_radices.len() ==> #[trigger] lanes_hold(
                    lanes,
                    model.convolution_len as int,
                    model.internal_fft.stage_radices,
                    model.internal_fft.registers_per_thread_per_radix,
                    i,
                ),
        model.rader_transpose is Some <==> model.container_fft_num >= 8
            && model.internal_fft.stage_radices.len() > 1,
        model.rader_transpose matches Some(transpose) ==> {
            &&& transpose.checked() is Ok
            &&& transpose.container_fft_num == model.container_fft_num
            &&& transpose.container_fft_dim == model.convolution_len
            &&& transpose.workgroup_threads == model.min_rader_fft_thread_num
            &&& transpose.stages.len() == model.internal_fft.stage_radices.len()
            &&& forall|i: int|
                0 <= i < transpose.stages.len() ==> (#[trigger] transpose.stages[i]).radix
                    == model.internal_fft.stage_radices[i]
        },
{
    reveal(RaderFftRegisterModel::checked);
    let internal = model.internal_fft;
    checked_stages_multiply_to_the_length(internal);
    stage_lanes_cover(
        internal.fft_len,
        internal.stage_radices,
        internal.registers_per_thread_per_radix,
        0,
        0,
    );
    let lanes = container_lanes(internal)->Ok_0 as int;
    assert(model.min_rader_fft_thread_num == model.container_fft_num * lanes);
    assert(lanes >= 1) by {
        if lanes == 0 {
            assert(model.container_fft_num * 0 == 0);
        }
    }
    let groups = model.execution_container_fft_num as int;
    let count = internal.rhs_transform_count as int;
    vstd::arithmetic::div_mod::lemma_fundamental_div_mod(count, groups);
    assert(groups * (count / groups) == (count / groups) * groups) by (nonlinear_arith);
}

/// A register schedule that checks has a length, transforms and registers, a boost that is a
/// power of two within the table, and a largest count no smaller than its smallest.
pub proof fn checked_registers_hold_together(model: RadixRegisterModel)
    requires
        model.checked() is Ok,
    ensures
        model.fft_len >= 1,
        model.rhs_transform_count >= 1,
        is_pow2(model.register_boost as int) && model.register_boost < VKFFT_RADIX_TABLE_LEN,
        1 <= model.min_registers_per_thread <= model.registers_per_thread,
        model.max_non_power_of_two_radix >= 1,
        model.required_local_registers >= 1,
        model.register_boost_stage_radix matches Some(radix) ==> 2 <= radix
            < VKFFT_RADIX_TABLE_LEN,
        stages_multiply_to(model.stage_radices, 0) == model.fft_len,
{
    reveal(RadixRegisterModel::checked);
    checked_stages_multiply_to_the_length(model);
}

/// A Rader upload schedule that checks has two or three factors, none of them zero, which
/// multiply to its length, and capacities.
pub proof fn checked_rader_uploads_hold_together(model: RaderUploadModel)
    requires
        model.checked() is Ok,
    ensures
        model.sequence_len >= 1,
        model.used_shared_memory_bytes >= 1,
        model.max_sequence_len_shared >= 1,
        model.max_sequence_len_strided >= 1,
        model.upload_count == 2 || model.upload_count == 3,
        model.axis_split.len() == model.upload_count,
        forall|i: int| 0 <= i < model.axis_split.len() ==> #[trigger] model.axis_split[i] >= 1,
        product_of(model.axis_split) == model.sequence_len,
{
    computed_product_is_exact(
        model.axis_split,
        "Rader upload axis split product",
        model.sequence_len,
    );
    assert forall|i: int| 0 <= i < model.axis_split.len() implies #[trigger] model.axis_split[i]
        >= 1 by {
        assert(!crate::splits::has_zero(model.axis_split));
    }
}

} // verus!
