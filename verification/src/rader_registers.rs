//! Register, container and lane plans of the convolution inside an FFT-Rader prime.

use vstd::prelude::*;

use crate::arith::{ceil_div, checked_mul, umax};
use crate::axis_block::{multiple_of, quotient};
use crate::config::{Backend, DeviceProfile, GpuVendor};
use crate::error::{PlanResult, VkFftError};
use crate::quad::is_good;
use crate::rader_tables::{
    all_stages, container_lanes, optimize_container_table, optimize_tables, optimized_radices,
    optimized_single_container, rader_fft_threads_per_container, rader_small_radix_multipliers,
    scale_rader_stage_registers_to_thread_limit, small_radix_multipliers, thread_scaled,
};
use crate::registers::{
    expand_stages, good_sequence, min_max_stage_registers, radix_in_table, stage_extrema,
    stages_in_table, viewed, viewed_option, RadixRegisterModel, RadixRegisterSchedule, RadixTable,
};
use crate::shared_search::{rader_optimize_shared_register_table, shared_register_table};

verus! {

/// How the lanes of a stage are assigned to containers.
///
/// Lanes of one container are neighbours in the container-major layout. In the
/// interleaved layout neighbouring lanes belong to neighbouring containers.
#[derive(Debug, Clone, Copy, PartialEq, Eq, Structural)]
pub enum RaderFftStageLaneLayout {
    ContainerMajor,
    TransposedContainerInterleaved,
}

/// Lane ownership of one stage.
#[derive(Debug, Clone, Copy, PartialEq, Eq, Structural)]
pub struct RaderFftStageLaneSchedule {
    pub stage_index: usize,
    pub radix: usize,
    pub logical_storage_per_thread: usize,
    pub sub_logical_group_size: usize,
    pub active_threads: usize,
    pub layout: RaderFftStageLaneLayout,
}

/// Lane ownership of all stages of a transposed Rader convolution.
#[derive(Debug, Clone, PartialEq, Eq)]
pub struct RaderFftTransposeSchedule {
    pub container_fft_num: usize,
    pub container_fft_dim: usize,
    pub workgroup_threads: usize,
    pub stages: Vec<RaderFftStageLaneSchedule>,
}

/// Mathematical content of a [`RaderFftTransposeSchedule`].
#[verifier::ext_equal]
pub struct RaderFftTransposeModel {
    pub container_fft_num: usize,
    pub container_fft_dim: usize,
    pub workgroup_threads: usize,
    pub stages: Seq<RaderFftStageLaneSchedule>,
}

impl View for RaderFftTransposeSchedule {
    type V = RaderFftTransposeModel;

    open spec fn view(&self) -> RaderFftTransposeModel {
        RaderFftTransposeModel {
            container_fft_num: self.container_fft_num,
            container_fft_dim: self.container_fft_dim,
            workgroup_threads: self.workgroup_threads,
            stages: self.stages@,
        }
    }
}

/// Only the first stage is container-major.
#[verifier::allow_in_spec]
pub fn layout_of_stage(stage_index: usize) -> RaderFftStageLaneLayout
    returns
        (if stage_index == 0 {
            RaderFftStageLaneLayout::ContainerMajor
        } else {
            RaderFftStageLaneLayout::TransposedContainerInterleaved
        }),
{
    if stage_index == 0 {
        RaderFftStageLaneLayout::ContainerMajor
    } else {
        RaderFftStageLaneLayout::TransposedContainerInterleaved
    }
}

impl RaderFftTransposeModel {
    /// What checking the stages from index `from` on reports, else the most lanes any
    /// stage keeps active.
    pub open spec fn stages_checked_from(self, from: int, most: usize) -> PlanResult<usize>
        decreases self.stages.len() - from,
    {
        if from >= self.stages.len() {
            Ok(most)
        } else if !self.stage_shaped(from) {
            Err(VkFftError::InvalidKernelIr("Rader transpose stage metadata is inconsistent"))
        } else {
            match checked_mul(
                self.container_fft_num,
                self.stages[from].sub_logical_group_size,
                "Rader transpose stage thread count",
            ) {
                Err(error) => Err(error),
                Ok(threads) => if self.stages[from].active_threads != threads {
                    Err(
                        VkFftError::InvalidKernelIr(
                            "Rader transpose stage metadata is inconsistent",
                        ),
                    )
                } else {
                    self.stages_checked_from(from + 1, umax(most, threads))
                },
            }
        }
    }

    /// Whether a stage's fields fit its place in the schedule.
    pub open spec fn stage_shaped(self, index: int) -> bool {
        &&& self.stages[index].stage_index == index
        &&& self.stages[index].radix >= 2
        &&& self.stages[index].logical_storage_per_thread != 0
        &&& self.stages[index].sub_logical_group_size != 0
        &&& self.stages[index].layout == layout_of_stage(index as usize)
    }

    /// What checking the schedule reports.
    #[verifier::opaque]
    pub open spec fn checked(self) -> PlanResult<()> {
        if self.container_fft_num < 8 || self.container_fft_dim == 0 || self.workgroup_threads == 0
            || self.stages.len() < 2 {
            Err(VkFftError::InvalidKernelIr("Rader transpose schedule metadata is inconsistent"))
        } else {
            match self.stages_checked_from(0, 0) {
                Err(error) => Err(error),
                Ok(most) => if most != self.workgroup_threads {
                    Err(
                        VkFftError::InvalidKernelIr(
                            "Rader transpose workgroup size does not match its stages",
                        ),
                    )
                } else {
                    Ok(())
                },
            }
        }
    }

    /// The position within its container and the container that a lane works for.
    pub open spec fn lane(self, stage: RaderFftStageLaneSchedule, local_invocation: usize) -> (
        usize,
        usize,
    ) {
        match stage.layout {
            RaderFftStageLaneLayout::ContainerMajor => (
                local_invocation % stage.sub_logical_group_size,
                local_invocation / stage.sub_logical_group_size,
            ),
            RaderFftStageLaneLayout::TransposedContainerInterleaved => (
                local_invocation / self.container_fft_num,
                local_invocation % self.container_fft_num,
            ),
        }
    }

    /// What asking for the coordinates of a lane gives.
    pub open spec fn coordinates(self, stage_index: usize, local_invocation: usize) -> PlanResult<
        Option<(usize, usize)>,
    > {
        match self.checked() {
            Err(error) => Err(error),
            Ok(_) => if stage_index >= self.stages.len() {
                Err(VkFftError::InvalidKernelIr("Rader transpose stage index is out of range"))
            } else if local_invocation >= self.stages[stage_index as int].active_threads {
                Ok(None)
            } else {
                Ok(Some(self.lane(self.stages[stage_index as int], local_invocation)))
            },
        }
    }

    /// The lane that works at a position of a container.
    pub open spec fn invocation(
        self,
        stage: RaderFftStageLaneSchedule,
        rader_idx: usize,
        container: usize,
    ) -> int {
        match stage.layout {
            RaderFftStageLaneLayout::ContainerMajor => container * stage.sub_logical_group_size
                + rader_idx,
            RaderFftStageLaneLayout::TransposedContainerInterleaved => rader_idx
                * self.container_fft_num + container,
        }
    }

    /// What asking for the lane at a position of a container gives.
    pub open spec fn physical(
        self,
        stage_index: usize,
        rader_idx: usize,
        container: usize,
    ) -> PlanResult<usize> {
        match self.checked() {
            Err(error) => Err(error),
            Ok(_) => if stage_index >= self.stages.len() {
                Err(VkFftError::InvalidKernelIr("Rader transpose stage index is out of range"))
            } else if rader_idx >= self.stages[stage_index as int].sub_logical_group_size
                || container >= self.container_fft_num {
                Err(
                    VkFftError::InvalidKernelIr(
                        "Rader transpose logical lane/container is out of range",
                    ),
                )
            } else {
                Ok(
                    self.invocation(
                        self.stages[stage_index as int],
                        rader_idx,
                        container,
                    ) as usize,
                )
            },
        }
    }
}

proof fn checked_stage_is_shaped(model: RaderFftTransposeModel, from: int, most: usize, index: int)
    requires
        0 <= from <= index < model.stages.len(),
        model.stages_checked_from(from, most) is Ok,
    ensures
        model.stage_shaped(index),
        model.stages[index].active_threads == model.container_fft_num
            * model.stages[index].sub_logical_group_size,
    decreases index - from,
{
    if from < index {
        let threads = checked_mul(
            model.container_fft_num,
            model.stages[from].sub_logical_group_size,
            "Rader transpose stage thread count",
        )->Ok_0;
        checked_stage_is_shaped(model, from + 1, umax(most, threads), index);
    }
}

/// On a schedule that checks, every active lane has coordinates, and they lead back to it.
pub proof fn lane_coordinates_lead_back(
    model: RaderFftTransposeModel,
    stage_index: usize,
    local_invocation: usize,
)
    requires
        model.checked() is Ok,
        stage_index < model.stages.len(),
        local_invocation < model.stages[stage_index as int].active_threads,
    ensures
        model.coordinates(stage_index, local_invocation) matches Ok(Some(found)) && model.physical(
            stage_index,
            found.0,
            found.1,
        ) == Ok::<usize, VkFftError>(local_invocation),
{
    reveal(RaderFftTransposeModel::checked);
    checked_stage_is_shaped(model, 0, 0, stage_index as int);
    let stage = model.stages[stage_index as int];
    let group = stage.sub_logical_group_size as int;
    let containers = model.container_fft_num as int;
    let lane = local_invocation as int;
    if stage.layout is ContainerMajor {
        vstd::arithmetic::div_mod::lemma_fundamental_div_mod(lane, group);
        assert(lane / group < containers) by (nonlinear_arith)
            requires
                0 <= lane < containers * group,
                group > 0,
        ;
        assert(group * (lane / group) == (lane / group) * group) by (nonlinear_arith);
    } else {
        vstd::arithmetic::div_mod::lemma_fundamental_div_mod(lane, containers);
        assert(lane / containers < group) by (nonlinear_arith)
            requires
                0 <= lane < containers * group,
                containers > 0,
        ;
        assert(containers * (lane / containers) == (lane / containers) * containers)
            by (nonlinear_arith);
    }
}

/// On a schedule that checks, every position of every container has an active lane, and
/// that lane's coordinates are the position.
pub proof fn physical_invocation_leads_back(
    model: RaderFftTransposeModel,
    stage_index: usize,
    rader_idx: usize,
    container: usize,
)
    requires
        model.checked() is Ok,
        stage_index < model.stages.len(),
        rader_idx < model.stages[stage_index as int].sub_logical_group_size,
        container < model.container_fft_num,
    ensures
        model.physical(stage_index, rader_idx, container) matches Ok(lane)
            && model.coordinates(stage_index, lane) == Ok::<Option<(usize, usize)>, VkFftError>(
            Some((rader_idx, container)),
        ),
{
    reveal(RaderFftTransposeModel::checked);
    checked_stage_is_shaped(model, 0, 0, stage_index as int);
    let stage = model.stages[stage_index as int];
    invocation_is_active(model, stage, rader_idx, container);
    let group = stage.sub_logical_group_size as int;
    let containers = model.container_fft_num as int;
    let idx = rader_idx as int;
    let c = container as int;
    if stage.layout is ContainerMajor {
        vstd::arithmetic::div_mod::lemma_fundamental_div_mod_converse(
            c * group + idx,
            group,
            c,
            idx,
        );
    } else {
        vstd::arithmetic::div_mod::lemma_fundamental_div_mod_converse(
            idx * containers + c,
            containers,
            idx,
            c,
        );
    }
}

proof fn invocation_is_active(
    model: RaderFftTransposeModel,
    stage: RaderFftStageLaneSchedule,
    rader_idx: usize,
    container: usize,
)
    requires
        stage.active_threads == model.container_fft_num * stage.sub_logical_group_size,
        rader_idx < stage.sub_logical_group_size,
        container < model.container_fft_num,
    ensures
        0 <= model.invocation(stage, rader_idx, container) < stage.active_threads,
        0 <= container * stage.sub_logical_group_size <= usize::MAX,
        0 <= rader_idx * model.container_fft_num <= usize::MAX,
{
    let group = stage.sub_logical_group_size as int;
    let containers = model.container_fft_num as int;
    let idx = rader_idx as int;
    let c = container as int;
    assert(0 <= c * group && c * group + idx < containers * group) by (nonlinear_arith)
        requires
            0 <= idx < group,
            0 <= c < containers,
    ;
    assert(0 <= idx * containers && idx * containers + c < containers * group)
        by (nonlinear_arith)
        requires
            0 <= idx < group,
            0 <= c < containers,
    ;
}

impl RaderFftTransposeSchedule {
    pub fn validate(&self) -> (checked: PlanResult<()>)
        ensures
            checked == self@.checked(),
    {
        reveal(RaderFftTransposeModel::checked);
        if self.container_fft_num < 8 || self.container_fft_dim == 0 || self.workgroup_threads == 0
            || self.stages.len() < 2 {
            return Err(
                VkFftError::InvalidKernelIr("Rader transpose schedule metadata is inconsistent"),
            );
        }
        let mut most: usize = 0;
        let mut index: usize = 0;
        while index < self.stages.len()
            invariant
                index <= self.stages.len(),
                self@.stages_checked_from(index as int, most) == self@.stages_checked_from(0, 0),
                self.container_fft_num >= 8,
                self.container_fft_dim != 0,
                self.workgroup_threads != 0,
                self.stages.len() >= 2,
            decreases self.stages.len() - index,
        {
            reveal(RaderFftTransposeModel::checked);
            let stage: RaderFftStageLaneSchedule = self.stages[index];
            if stage.stage_index != index || stage.radix < 2 || stage.logical_storage_per_thread
                == 0 || stage.sub_logical_group_size == 0 || stage.layout != layout_of_stage(
                index,
            ) {
                return Err(
                    VkFftError::InvalidKernelIr("Rader transpose stage metadata is inconsistent"),
                );
            }
            let threads: usize = checked_mul(
                self.container_fft_num,
                stage.sub_logical_group_size,
                "Rader transpose stage thread count",
            )?;
            if stage.active_threads != threads {
                return Err(
                    VkFftError::InvalidKernelIr("Rader transpose stage metadata is inconsistent"),
                );
            }
            most = umax(most, threads);
            index = index + 1;
        }
        if most != self.workgroup_threads {
            return Err(
                VkFftError::InvalidKernelIr(
                    "Rader transpose workgroup size does not match its stages",
                ),
            );
        }
        Ok(())
    }

    /// The position within its container and the container of one lane; `None` for a lane
    /// beyond the stage's active ones.
    pub fn lane_coordinates(&self, stage_index: usize, local_invocation: usize) -> (found:
        PlanResult<Option<(usize, usize)>>)
        ensures
            found == self@.coordinates(stage_index, local_invocation),
    {
        self.validate()?;
        if stage_index >= self.stages.len() {
            return Err(
                VkFftError::InvalidKernelIr("Rader transpose stage index is out of range"),
            );
        }
        let stage: RaderFftStageLaneSchedule = self.stages[stage_index];
        if local_invocation >= stage.active_threads {
            return Ok(None);
        }
        proof {
            reveal(RaderFftTransposeModel::checked);
            checked_stage_is_shaped(self@, 0, 0, stage_index as int);
        }
        Ok(
            Some(
                match stage.layout {
                    RaderFftStageLaneLayout::ContainerMajor => (
                        local_invocation % stage.sub_logical_group_size,
                        local_invocation / stage.sub_logical_group_size,
                    ),
                    RaderFftStageLaneLayout::TransposedContainerInterleaved => (
                        local_invocation / self.container_fft_num,
                        local_invocation % self.container_fft_num,
                    ),
                },
            ),
        )
    }

    /// The lane that works at a position of a container.
    pub fn physical_invocation(
        &self,
        stage_index: usize,
        rader_idx: usize,
        container: usize,
    ) -> (lane: PlanResult<usize>)
        ensures
            lane == self@.physical(stage_index, rader_idx, container),
    {
        self.validate()?;
        if stage_index >= self.stages.len() {
            return Err(
                VkFftError::InvalidKernelIr("Rader transpose stage index is out of range"),
            );
        }
        let stage: RaderFftStageLaneSchedule = self.stages[stage_index];
        if rader_idx >= stage.sub_logical_group_size || container >= self.container_fft_num {
            return Err(
                VkFftError::InvalidKernelIr(
                    "Rader transpose logical lane/container is out of range",
                ),
            );
        }
        proof {
            reveal(RaderFftTransposeModel::checked);
            checked_stage_is_shaped(self@, 0, 0, stage_index as int);
            invocation_is_active(self@, stage, rader_idx, container);
        }
        Ok(
            match stage.layout {
                RaderFftStageLaneLayout::ContainerMajor => container * stage.sub_logical_group_size
                    + rader_idx,
                RaderFftStageLaneLayout::TransposedContainerInterleaved => rader_idx
                    * self.container_fft_num + container,
            },
        )
    }
}

/// Register and occupancy plan of the convolution inside an FFT-Rader prime.
///
/// `container_fft_num` convolutions belong to one outer transform and take
/// `min_rader_fft_thread_num` lanes together; the `execution_*` fields give the launch
/// shape.
#[derive(Debug, Clone, PartialEq, Eq)]
pub struct RaderFftRegisterSchedule {
    pub prime: usize,
    pub convolution_len: usize,
    pub outer_fft_len: usize,
    pub container_fft_num: usize,
    pub min_rader_fft_thread_num: usize,
    pub execution_container_fft_num: usize,
    pub execution_workgroup_count: usize,
    pub execution_threads_per_workgroup: usize,
    /// Present exactly where eight or more containers run more than one stage.
    pub rader_transpose: Option<RaderFftTransposeSchedule>,
    pub internal_fft: RadixRegisterSchedule,
}

/// Mathematical content of a [`RaderFftRegisterSchedule`].
#[verifier::ext_equal]
pub struct RaderFftRegisterModel {
    pub prime: usize,
    pub convolution_len: usize,
    pub outer_fft_len: usize,
    pub container_fft_num: usize,
    pub min_rader_fft_thread_num: usize,
    pub execution_container_fft_num: usize,
    pub execution_workgroup_count: usize,
    pub execution_threads_per_workgroup: usize,
    pub rader_transpose: Option<RaderFftTransposeModel>,
    pub internal_fft: RadixRegisterModel,
}

/// The model of an optional transpose.
pub open spec fn transpose_view(transpose: Option<RaderFftTransposeSchedule>) -> Option<
    RaderFftTransposeModel,
> {
    match transpose {
        Some(schedule) => Some(schedule@),
        None => None,
    }
}

impl View for RaderFftRegisterSchedule {
    type V = RaderFftRegisterModel;

    open spec fn view(&self) -> RaderFftRegisterModel {
        RaderFftRegisterModel {
            prime: self.prime,
            convolution_len: self.convolution_len,
            outer_fft_len: self.outer_fft_len,
            container_fft_num: self.container_fft_num,
            min_rader_fft_thread_num: self.min_rader_fft_thread_num,
            execution_container_fft_num: self.execution_container_fft_num,
            execution_workgroup_count: self.execution_workgroup_count,
            execution_threads_per_workgroup: self.execution_threads_per_workgroup,
            rader_transpose: transpose_view(self.rader_transpose),
            internal_fft: self.internal_fft@,
        }
    }
}

/// Whether the transpose runs the radices of the schedule, stage by stage.
pub open spec fn runs_radices(transpose: RaderFftTransposeModel, radices: Seq<usize>) -> bool {
    &&& transpose.stages.len() == radices.len()
    &&& forall|i: int| 0 <= i < radices.len() ==> (#[trigger] transpose.stages[i]).radix
        == radices[i]
}

impl RaderFftRegisterModel {
    /// Whether the scalar fields can belong to one plan.
    pub open spec fn scalars_consistent(self) -> bool {
        &&& self.prime >= 3
        &&& self.convolution_len == self.prime - 1
        &&& self.container_fft_num != 0
        &&& self.execution_container_fft_num != 0
        &&& self.execution_container_fft_num <= self.container_fft_num
        &&& self.min_rader_fft_thread_num != 0
        &&& self.execution_threads_per_workgroup != 0
        &&& self.execution_workgroup_count != 0
        &&& self.internal_fft.fft_len == self.convolution_len
        &&& self.internal_fft.register_boost == 1
        &&& self.internal_fft.register_boost_stage_radix is None
        &&& self.internal_fft.stage_radices.len() != 0
        &&& self.prime * self.container_fft_num == self.outer_fft_len
        &&& multiple_of(self.internal_fft.rhs_transform_count, self.container_fft_num)
        &&& multiple_of(self.internal_fft.rhs_transform_count, self.execution_container_fft_num)
    }

    /// What checking the thread and workgroup counts reports.
    pub open spec fn counts_checked(self) -> PlanResult<()> {
        match container_lanes(self.internal_fft) {
            Err(error) => Err(error),
            Ok(lanes) => match checked_mul(
                self.container_fft_num,
                lanes,
                "Rader FFT upstream thread estimate",
            ) {
                Err(error) => Err(error),
                Ok(threads) => match checked_mul(
                    self.execution_container_fft_num,
                    lanes,
                    "Rader FFT execution thread estimate",
                ) {
                    Err(error) => Err(error),
                    Ok(execution_threads) => if threads != self.min_rader_fft_thread_num
                        || execution_threads != self.execution_threads_per_workgroup || quotient(
                        self.internal_fft.rhs_transform_count,
                        self.execution_container_fft_num,
                    ) != self.execution_workgroup_count {
                        Err(
                            VkFftError::InvalidKernelIr(
                                "Rader FFT thread/workgroup estimates do not match the register schedule",
                            ),
                        )
                    } else {
                        Ok(())
                    },
                },
            },
        }
    }

    /// What checking the transpose reports.
    pub open spec fn transpose_checked(self) -> PlanResult<()> {
        let expected = self.container_fft_num >= 8 && self.internal_fft.stage_radices.len() > 1;
        match self.rader_transpose {
            Some(transpose) => if !expected {
                Err(
                    VkFftError::InvalidKernelIr(
                        "Rader transpose presence does not match the upstream gate",
                    ),
                )
            } else {
                match transpose.checked() {
                    Err(error) => Err(error),
                    Ok(_) => if transpose.container_fft_num != self.container_fft_num
                        || transpose.container_fft_dim != self.convolution_len
                        || transpose.workgroup_threads != self.min_rader_fft_thread_num
                        || !runs_radices(transpose, self.internal_fft.stage_radices) {
                        Err(
                            VkFftError::InvalidKernelIr(
                                "Rader transpose schedule does not match the internal FFT",
                            ),
                        )
                    } else {
                        Ok(())
                    },
                }
            },
            None => if expected {
                Err(
                    VkFftError::InvalidKernelIr(
                        "Rader transpose presence does not match the upstream gate",
                    ),
                )
            } else {
                Ok(())
            },
        }
    }

    /// What checking the plan reports.
    #[verifier::opaque]
    pub open spec fn checked(self) -> PlanResult<()> {
        match self.internal_fft.checked() {
            Err(error) => Err(error),
            Ok(_) => if !self.scalars_consistent() {
                Err(
                    VkFftError::InvalidKernelIr(
                        "Rader FFT register schedule metadata is inconsistent",
                    ),
                )
            } else {
                match self.counts_checked() {
                    Err(error) => Err(error),
                    Ok(_) => self.transpose_checked(),
                }
            },
        }
    }
}

fn transpose_runs_radices(transpose: &RaderFftTransposeSchedule, radices: &Vec<usize>) -> (runs:
    bool)
    ensures
        runs == runs_radices(transpose@, radices@),
{
    if transpose.stages.len() != radices.len() {
        return false;
    }
    let mut index: usize = 0;
    while index < radices.len()
        invariant
            index <= radices.len(),
            transpose.stages.len() == radices.len(),
            forall|i: int|
                0 <= i < index ==> (#[trigger] transpose@.stages[i]).radix == radices@[i],
        decreases radices.len() - index,
    {
        if transpose.stages[index].radix != radices[index] {
            assert(transpose@.stages[index as int].radix != radices@[index as int]);
            return false;
        }
        index = index + 1;
    }
    true
}

impl RaderFftRegisterSchedule {
    pub fn validate(&self) -> (checked: PlanResult<()>)
        ensures
            checked == self@.checked(),
    {
        reveal(RaderFftRegisterModel::checked);
        self.internal_fft.validate()?;
        if self.prime < 3 || self.convolution_len != self.prime - 1 || self.container_fft_num == 0
            || self.execution_container_fft_num == 0 || self.execution_container_fft_num
            > self.container_fft_num || self.min_rader_fft_thread_num == 0
            || self.execution_threads_per_workgroup == 0 || self.execution_workgroup_count == 0
            || self.internal_fft.fft_len != self.convolution_len
            || self.internal_fft.register_boost != 1
            || self.internal_fft.register_boost_stage_radix.is_some()
            || self.internal_fft.stage_radices.len() == 0 || self.prime.checked_mul(
            self.container_fft_num,
        ) != Some(self.outer_fft_len) || !multiple_of(
            self.internal_fft.rhs_transform_count,
            self.container_fft_num,
        ) || !multiple_of(
            self.internal_fft.rhs_transform_count,
            self.execution_container_fft_num,
        ) {
            return Err(
                VkFftError::InvalidKernelIr("Rader FFT register schedule metadata is inconsistent"),
            );
        }
        proof {
            crate::registers::checked_stages_are_in_table(self.internal_fft@);
        }
        let lanes: usize = rader_fft_threads_per_container(&self.internal_fft)?;
        let threads: usize = checked_mul(
            self.container_fft_num,
            lanes,
            "Rader FFT upstream thread estimate",
        )?;
        let execution_threads: usize = checked_mul(
            self.execution_container_fft_num,
            lanes,
            "Rader FFT execution thread estimate",
        )?;
        if threads != self.min_rader_fft_thread_num || execution_threads
            != self.execution_threads_per_workgroup || quotient(
            self.internal_fft.rhs_transform_count,
            self.execution_container_fft_num,
        ) != self.execution_workgroup_count {
            return Err(
                VkFftError::InvalidKernelIr(
                    "Rader FFT thread/workgroup estimates do not match the register schedule",
                ),
            );
        }
        let expected: bool = self.container_fft_num >= 8 && self.internal_fft.stage_radices.len()
            > 1;
        match &self.rader_transpose {
            Some(transpose) => {
                if !expected {
                    return Err(
                        VkFftError::InvalidKernelIr(
                            "Rader transpose presence does not match the upstream gate",
                        ),
                    );
                }
                transpose.validate()?;
                if transpose.container_fft_num != self.container_fft_num
                    || transpose.container_fft_dim != self.convolution_len
                    || transpose.workgroup_threads != self.min_rader_fft_thread_num
                    || !transpose_runs_radices(transpose, &self.internal_fft.stage_radices) {
                    return Err(
                        VkFftError::InvalidKernelIr(
                            "Rader transpose schedule does not match the internal FFT",
                        ),
                    );
                }
                Ok(())
            },
            None => {
                if expected {
                    return Err(
                        VkFftError::InvalidKernelIr(
                            "Rader transpose presence does not match the upstream gate",
                        ),
                    );
                }
                Ok(())
            },
        }
    }

    /// Workgroups that run the convolutions of whole outer transforms.
    pub fn upstream_workgroup_count(&self) -> usize
        requires
            self.container_fft_num != 0,
        returns
            self.internal_fft.rhs_transform_count / self.container_fft_num,
    {
        self.internal_fft.rhs_transform_count / self.container_fft_num
    }

    /// Whether one workgroup executes all containers of an outer transform.
    pub fn upstream_grouping_is_executable(&self) -> bool
        returns
            self.execution_container_fft_num == self.container_fft_num,
    {
        self.execution_container_fft_num == self.container_fft_num
    }
}

/// The lanes of one stage.
pub open spec fn stage_lanes(
    index: usize,
    radix: usize,
    storage: usize,
    group: usize,
    threads: usize,
) -> RaderFftStageLaneSchedule {
    RaderFftStageLaneSchedule {
        stage_index: index,
        radix,
        logical_storage_per_thread: storage,
        sub_logical_group_size: group,
        active_threads: threads,
        layout: layout_of_stage(index),
    }
}

/// The stages from index `from` on appended to those before, and the most lanes any keeps
/// active.
pub open spec fn transposed_stages_from(
    container_fft_num: usize,
    container_fft_dim: usize,
    internal_fft: RadixRegisterModel,
    stages: Seq<RaderFftStageLaneSchedule>,
    most: usize,
    from: int,
) -> PlanResult<(Seq<RaderFftStageLaneSchedule>, usize)>
    decreases internal_fft.stage_radices.len() - from,
{
    if from >= internal_fft.stage_radices.len() {
        Ok((stages, most))
    } else {
        let radix = internal_fft.stage_radices[from];
        match checked_mul(
            internal_fft.registers_per_thread_per_radix[radix as int],
            internal_fft.register_boost,
            "Rader transpose logical storage per thread",
        ) {
            Err(error) => Err(error),
            Ok(storage) => if storage == 0 {
                Err(VkFftError::InvalidKernelIr("Rader transpose stage has no register storage"))
            } else {
                match ceil_div(container_fft_dim, storage) {
                    Err(error) => Err(error),
                    Ok(group) => match checked_mul(
                        container_fft_num,
                        group,
                        "Rader transpose active thread count",
                    ) {
                        Err(error) => Err(error),
                        Ok(threads) => transposed_stages_from(
                            container_fft_num,
                            container_fft_dim,
                            internal_fft,
                            stages.push(
                                stage_lanes(from as usize, radix, storage, group, threads),
                            ),
                            umax(most, threads),
                            from + 1,
                        ),
                    },
                }
            },
        }
    }
}

/// The transpose of a convolution; none below eight containers or with a single stage.
#[verifier::opaque]
pub open spec fn transpose_schedule(
    container_fft_num: usize,
    container_fft_dim: usize,
    internal_fft: RadixRegisterModel,
) -> PlanResult<Option<RaderFftTransposeModel>> {
    if container_fft_num < 8 || internal_fft.stage_radices.len() <= 1 {
        Ok(None)
    } else {
        match transposed_stages_from(
            container_fft_num,
            container_fft_dim,
            internal_fft,
            Seq::empty(),
            0,
            0,
        ) {
            Err(error) => Err(error),
            Ok((stages, workgroup_threads)) => {
                let model = RaderFftTransposeModel {
                    container_fft_num,
                    container_fft_dim,
                    workgroup_threads,
                    stages,
                };
                match model.checked() {
                    Err(error) => Err(error),
                    Ok(_) => Ok(Some(model)),
                }
            },
        }
    }
}

fn build_rader_fft_transpose_schedule(
    container_fft_num: usize,
    container_fft_dim: usize,
    internal_fft: &RadixRegisterSchedule,
) -> (planned: PlanResult<Option<RaderFftTransposeSchedule>>)
    requires
        stages_in_table(internal_fft.stage_radices@),
    ensures
        viewed_option(planned) == transpose_schedule(
            container_fft_num,
            container_fft_dim,
            internal_fft@,
        ),
{
    reveal(transpose_schedule);
    if container_fft_num < 8 || internal_fft.stage_radices.len() <= 1 {
        return Ok(None);
    }
    let mut stages: Vec<RaderFftStageLaneSchedule> = Vec::new();
    let mut workgroup_threads: usize = 0;
    let mut index: usize = 0;
    while index < internal_fft.stage_radices.len()
        invariant
            index <= internal_fft.stage_radices.len(),
            internal_fft.stage_radices.len() > 1,
            container_fft_num >= 8,
            stages_in_table(internal_fft.stage_radices@),
            transposed_stages_from(
                container_fft_num,
                container_fft_dim,
                internal_fft@,
                stages@,
                workgroup_threads,
                index as int,
            ) == transposed_stages_from(
                container_fft_num,
                container_fft_dim,
                internal_fft@,
                Seq::empty(),
                0,
                0,
            ),
        decreases internal_fft.stage_radices.len() - index,
    {
        reveal(transpose_schedule);
        let radix: usize = internal_fft.stage_radices[index];
        assert(radix_in_table(radix));
        let storage: usize = checked_mul(
            internal_fft.registers_per_thread_per_radix[radix],
            internal_fft.register_boost,
            "Rader transpose logical storage per thread",
        )?;
        if storage == 0 {
            return Err(
                VkFftError::InvalidKernelIr("Rader transpose stage has no register storage"),
            );
        }
        let group: usize = ceil_div(container_fft_dim, storage)?;
        let threads: usize = checked_mul(
            container_fft_num,
            group,
            "Rader transpose active thread count",
        )?;
        workgroup_threads = umax(workgroup_threads, threads);
        stages.push(
            RaderFftStageLaneSchedule {
                stage_index: index,
                radix,
                logical_storage_per_thread: storage,
                sub_logical_group_size: group,
                active_threads: threads,
                layout: layout_of_stage(index),
            },
        );
        index = index + 1;
    }
    let schedule = RaderFftTransposeSchedule {
        container_fft_num,
        container_fft_dim,
        workgroup_threads,
        stages,
    };
    schedule.validate()?;
    Ok(Some(schedule))
}

/// The stages of a convolution from its register table, with the counts raised until all
/// containers fit a workgroup.
#[verifier::opaque]
pub open spec fn convolution_schedule(
    convolution_len: usize,
    batch_count: usize,
    container_fft_num: usize,
    max_threads_per_block: usize,
    table: Seq<usize>,
) -> PlanResult<RadixRegisterModel> {
    match small_radix_multipliers(convolution_len) {
        Err(error) => Err(error),
        Ok(primitive) => {
            let (best, multipliers, largest, required) = optimized_radices(table, primitive);
            let stage_radices = all_stages(multipliers);
            match thread_scaled(
                convolution_len,
                container_fft_num,
                max_threads_per_block,
                stage_radices,
                best,
            ) {
                Err(error) => Err(error),
                Ok(registers) => {
                    let (most, least) = stage_extrema(stage_radices, registers);
                    if most == 0 || least == 0 {
                        Err(
                            VkFftError::InvalidKernelIr(
                                "Rader FFT register scheduler produced no executable stages",
                            ),
                        )
                    } else {
                        let schedule = RadixRegisterModel {
                            fft_len: convolution_len,
                            rhs_transform_count: batch_count,
                            register_boost: 1,
                            registers_per_thread_per_radix: registers,
                            stage_radix_multipliers: multipliers,
                            stage_radices,
                            register_boost_stage_radix: None,
                            registers_per_thread: most,
                            min_registers_per_thread: least,
                            is_good_sequence: good_sequence(most, least),
                            max_non_power_of_two_radix: largest,
                            required_local_registers: required,
                        };
                        match schedule.checked() {
                            Err(error) => Err(error),
                            Ok(_checked) => Ok(schedule),
                        }
                    }
                },
            }
        },
    }
}

fn plan_convolution(
    convolution_len: usize,
    batch_count: usize,
    container_fft_num: usize,
    max_threads_per_block: usize,
    table: RadixTable,
) -> (planned: PlanResult<RadixRegisterSchedule>)
    ensures
        viewed(planned) == convolution_schedule(
            convolution_len,
            batch_count,
            container_fft_num,
            max_threads_per_block,
            table@,
        ),
        planned matches Ok(schedule) ==> schedule@.checked() is Ok,
{
    reveal(convolution_schedule);
    let primitive: RadixTable = rader_small_radix_multipliers(convolution_len)?;
    let (best, multipliers, largest, required) = optimize_tables(table, primitive);
    let stage_radices: Vec<usize> = expand_stages(&multipliers);
    let registers: RadixTable = scale_rader_stage_registers_to_thread_limit(
        convolution_len,
        container_fft_num,
        max_threads_per_block,
        stage_radices.as_slice(),
        best,
    )?;
    let (most, least) = min_max_stage_registers(stage_radices.as_slice(), &registers);
    if most == 0 || least == 0 {
        return Err(
            VkFftError::InvalidKernelIr(
                "Rader FFT register scheduler produced no executable stages",
            ),
        );
    }
    let schedule: RadixRegisterSchedule = RadixRegisterSchedule {
        fft_len: convolution_len,
        rhs_transform_count: batch_count,
        register_boost: 1,
        registers_per_thread_per_radix: registers,
        stage_radix_multipliers: multipliers,
        stage_radices,
        register_boost_stage_radix: None,
        registers_per_thread: most,
        min_registers_per_thread: least,
        is_good_sequence: is_good(most, least),
        max_non_power_of_two_radix: largest,
        required_local_registers: required,
    };
    let _checked: () = schedule.validate()?;
    Ok(schedule)
}

/// Containers one workgroup executes: all of them, unless the transposed lanes exceed the
/// device.
pub open spec fn execution_containers(
    transpose: Option<RaderFftTransposeModel>,
    container_fft_num: usize,
    max_threads_per_block: usize,
) -> usize {
    match transpose {
        Some(schedule) if schedule.workgroup_threads > max_threads_per_block => 1,
        _ => container_fft_num,
    }
}

fn choose_execution_containers(
    transpose: &Option<RaderFftTransposeSchedule>,
    container_fft_num: usize,
    max_threads_per_block: usize,
) -> (containers: usize)
    ensures
        containers == execution_containers(
            transpose_view(*transpose),
            container_fft_num,
            max_threads_per_block,
        ),
{
    match transpose {
        Some(schedule) => if schedule.workgroup_threads > max_threads_per_block {
            1
        } else {
            container_fft_num
        },
        None => container_fft_num,
    }
}

/// The plan of `container_fft_num` convolutions of one prime inside an outer transform of
/// `prime * container_fft_num`, for a batch of convolutions.
///
/// The container's table is coupled to the outer transform twice: the second pass starts
/// from the table that the first one raised.
#[verifier::opaque]
pub open spec fn rader_fft_registers(
    prime: usize,
    batch_count: usize,
    outer_fft_len: usize,
    container_fft_num: usize,
    device: DeviceProfile,
) -> PlanResult<RaderFftRegisterModel> {
    if device.backend == Backend::CpuReference {
        Err(
            VkFftError::UnsupportedKernelPath(
                "Rader FFT register scheduler requires a GPU DeviceProfile",
            ),
        )
    } else if prime < 3 {
        Err(
            VkFftError::UnsupportedKernelPath(
                "Rader FFT register scheduler requires a prime length of at least three",
            ),
        )
    } else if batch_count == 0 {
        Err(VkFftError::ZeroBatchCount)
    } else if container_fft_num == 0 {
        Err(
            VkFftError::UnsupportedKernelPath(
                "Rader outer-register coupling requires consistent container dimensions",
            ),
        )
    } else {
        match checked_mul(prime, container_fft_num, "Rader outer FFT/container product") {
            Err(error) => Err(error),
            Ok(covered) => if outer_fft_len != covered
                || !multiple_of(batch_count, container_fft_num) {
                Err(
                    VkFftError::UnsupportedKernelPath(
                        "Rader outer-register coupling requires consistent container dimensions",
                    ),
                )
            } else {
                let convolution_len = (prime - 1) as usize;
                match shared_register_table(convolution_len) {
                    Err(error) => Err(error),
                    Ok((shared, _shared_most, _shared_least)) => {
                        let outer_batch_count = quotient(batch_count, container_fft_num);
                        match optimized_single_container(
                            outer_fft_len,
                            container_fft_num,
                            container_fft_num,
                            outer_batch_count,
                            shared,
                        ) {
                            Err(error) => Err(error),
                            Ok((first, _first_least)) => match optimized_single_container(
                                outer_fft_len,
                                container_fft_num,
                                container_fft_num,
                                outer_batch_count,
                                first,
                            ) {
                                Err(error) => Err(error),
                                Ok((second, _second_least)) => match convolution_schedule(
                                    convolution_len,
                                    batch_count,
                                    container_fft_num,
                                    device.max_threads_per_block,
                                    second,
                                ) {
                                    Err(error) => Err(error),
                                    Ok(internal_fft) => match container_lanes(internal_fft) {
                                        Err(error) => Err(error),
                                        Ok(lanes) => match checked_mul(
                                            container_fft_num,
                                            lanes,
                                            "Rader FFT multi-container thread estimate",
                                        ) {
                                            Err(error) => Err(error),
                                            Ok(
                                                min_rader_fft_thread_num,
                                            ) => if min_rader_fft_thread_num
                                                > device.max_threads_per_block {
                                                Err(
                                                    VkFftError::ResourceLimitExceeded {
                                                        resource: "upstream-grouped Rader FFT threads per workgroup",
                                                        required: min_rader_fft_thread_num,
                                                        available: device.max_threads_per_block,
                                                    },
                                                )
                                            } else {
                                                match transpose_schedule(
                                                    container_fft_num,
                                                    convolution_len,
                                                    internal_fft,
                                                ) {
                                                    Err(error) => Err(error),
                                                    Ok(rader_transpose) => {
                                                        let execution_container_fft_num =
                                                            execution_containers(
                                                            rader_transpose,
                                                            container_fft_num,
                                                            device.max_threads_per_block,
                                                        );
                                                        let execution_workgroup_count = quotient(
                                                            batch_count,
                                                            execution_container_fft_num,
                                                        );
                                                        match checked_mul(
                                                            execution_container_fft_num,
                                                            lanes,
                                                            "Rader FFT grouped execution thread estimate",
                                                        ) {
                                                            Err(error) => Err(error),
                                                            Ok(execution_threads_per_workgroup) => {
                                                                let schedule = RaderFftRegisterModel {
                                                                    prime,
                                                                    convolution_len,
                                                                    outer_fft_len,
                                                                    container_fft_num,
                                                                    min_rader_fft_thread_num,
                                                                    execution_container_fft_num,
                                                                    execution_workgroup_count,
                                                                    execution_threads_per_workgroup,
                                                                    rader_transpose,
                                                                    internal_fft,
                                                                };
                                                                match schedule.checked() {
                                                                    Err(error) => Err(error),
                                                                    Ok(_checked) => Ok(schedule),
                                                                }
                                                            },
                                                        }
                                                    },
                                                }
                                            },
                                        },
                                    },
                                },
                            },
                        }
                    },
                }
            },
        }
    }
}

pub fn plan_gpu_rader_fft_registers_for_containers(
    prime: usize,
    batch_count: usize,
    outer_fft_len: usize,
    container_fft_num: usize,
    device: DeviceProfile,
) -> (planned: PlanResult<RaderFftRegisterSchedule>)
    ensures
        viewed(planned) == rader_fft_registers(
            prime,
            batch_count,
            outer_fft_len,
            container_fft_num,
            device,
        ),
{
    reveal(rader_fft_registers);
    if device.backend == Backend::CpuReference {
        return Err(
            VkFftError::UnsupportedKernelPath(
                "Rader FFT register scheduler requires a GPU DeviceProfile",
            ),
        );
    }
    if prime < 3 {
        return Err(
            VkFftError::UnsupportedKernelPath(
                "Rader FFT register scheduler requires a prime length of at least three",
            ),
        );
    }
    if batch_count == 0 {
        return Err(VkFftError::ZeroBatchCount);
    }
    if container_fft_num == 0 {
        return Err(
            VkFftError::UnsupportedKernelPath(
                "Rader outer-register coupling requires consistent container dimensions",
            ),
        );
    }
    let covered: usize = checked_mul(
        prime,
        container_fft_num,
        "Rader outer FFT/container product",
    )?;
    if outer_fft_len != covered || !multiple_of(batch_count, container_fft_num) {
        return Err(
            VkFftError::UnsupportedKernelPath(
                "Rader outer-register coupling requires consistent container dimensions",
            ),
        );
    }
    let convolution_len: usize = prime - 1;
    let (shared, _shared_most, _shared_least) = rader_optimize_shared_register_table(
        convolution_len,
    )?;
    let outer_batch_count: usize = quotient(batch_count, container_fft_num);
    let (first, _first_least) = optimize_container_table(
        outer_fft_len,
        container_fft_num,
        container_fft_num,
        outer_batch_count,
        shared,
    )?;
    let (second, _second_least) = optimize_container_table(
        outer_fft_len,
        container_fft_num,
        container_fft_num,
        outer_batch_count,
        first,
    )?;
    let internal_fft: RadixRegisterSchedule = plan_convolution(
        convolution_len,
        batch_count,
        container_fft_num,
        device.max_threads_per_block,
        second,
    )?;
    proof {
        crate::registers::checked_stages_are_in_table(internal_fft@);
    }
    let lanes: usize = rader_fft_threads_per_container(&internal_fft)?;
    let min_rader_fft_thread_num: usize = checked_mul(
        container_fft_num,
        lanes,
        "Rader FFT multi-container thread estimate",
    )?;
    if min_rader_fft_thread_num > device.max_threads_per_block {
        return Err(
            VkFftError::ResourceLimitExceeded {
                resource: "upstream-grouped Rader FFT threads per workgroup",
                required: min_rader_fft_thread_num,
                available: device.max_threads_per_block,
            },
        );
    }
    let rader_transpose: Option<RaderFftTransposeSchedule> = build_rader_fft_transpose_schedule(
        container_fft_num,
        convolution_len,
        &internal_fft,
    )?;
    let execution_container_fft_num: usize = choose_execution_containers(
        &rader_transpose,
        container_fft_num,
        device.max_threads_per_block,
    );
    let execution_workgroup_count: usize = quotient(batch_count, execution_container_fft_num);
    let execution_threads_per_workgroup: usize = checked_mul(
        execution_container_fft_num,
        lanes,
        "Rader FFT grouped execution thread estimate",
    )?;
    let schedule: RaderFftRegisterSchedule = RaderFftRegisterSchedule {
        prime,
        convolution_len,
        outer_fft_len,
        container_fft_num,
        min_rader_fft_thread_num,
        execution_container_fft_num,
        execution_workgroup_count,
        execution_threads_per_workgroup,
        rader_transpose,
        internal_fft,
    };
    let _checked: () = schedule.validate()?;
    Ok(schedule)
}

/// The plan of a prime that is the whole transform.
pub open spec fn rader_fft_registers_alone(
    prime: usize,
    batch_count: usize,
    device: DeviceProfile,
) -> PlanResult<RaderFftRegisterModel> {
    rader_fft_registers(prime, batch_count, prime, 1, device)
}

pub fn plan_gpu_rader_fft_registers(
    prime: usize,
    batch_count: usize,
    device: DeviceProfile,
) -> (planned: PlanResult<RaderFftRegisterSchedule>)
    ensures
        viewed(planned) == rader_fft_registers_alone(prime, batch_count, device),
{
    plan_gpu_rader_fft_registers_for_containers(prime, batch_count, prime, 1, device)
}

/// The same for NVIDIA Vulkan devices only.
pub open spec fn nvidia_rader_fft_registers(
    prime: usize,
    batch_count: usize,
    outer_fft_len: usize,
    container_fft_num: usize,
    device: DeviceProfile,
) -> PlanResult<RaderFftRegisterModel> {
    if device.backend != Backend::Vulkan || device.vendor != GpuVendor::Nvidia {
        Err(
            VkFftError::UnsupportedKernelPath(
                "Rader FFT register scheduler slice requires an NVIDIA Vulkan DeviceProfile",
            ),
        )
    } else {
        rader_fft_registers(prime, batch_count, outer_fft_len, container_fft_num, device)
    }
}

pub fn plan_nvidia_vulkan_rader_fft_registers_for_containers(
    prime: usize,
    batch_count: usize,
    outer_fft_len: usize,
    container_fft_num: usize,
    device: DeviceProfile,
) -> (planned: PlanResult<RaderFftRegisterSchedule>)
    ensures
        viewed(planned) == nvidia_rader_fft_registers(
            prime,
            batch_count,
            outer_fft_len,
            container_fft_num,
            device,
        ),
{
    if device.backend != Backend::Vulkan || device.vendor != GpuVendor::Nvidia {
        return Err(
            VkFftError::UnsupportedKernelPath(
                "Rader FFT register scheduler slice requires an NVIDIA Vulkan DeviceProfile",
            ),
        );
    }
    plan_gpu_rader_fft_registers_for_containers(
        prime,
        batch_count,
        outer_fft_len,
        container_fft_num,
        device,
    )
}

/// The same for NVIDIA Vulkan devices only, of a prime that is the whole transform.
pub open spec fn nvidia_rader_fft_registers_alone(
    prime: usize,
    batch_count: usize,
    device: DeviceProfile,
) -> PlanResult<RaderFftRegisterModel> {
    nvidia_rader_fft_registers(prime, batch_count, prime, 1, device)
}

pub fn plan_nvidia_vulkan_rader_fft_registers(
    prime: usize,
    batch_count: usize,
    device: DeviceProfile,
) -> (planned: PlanResult<RaderFftRegisterSchedule>)
    ensures
        viewed(planned) == nvidia_rader_fft_registers_alone(prime, batch_count, device),
{
    plan_nvidia_vulkan_rader_fft_registers_for_containers(prime, batch_count, prime, 1, device)
}

/// Every plan that is handed out checks, so its lanes can be looked up both ways.
pub proof fn rader_fft_plans_check(
    prime: usize,
    batch_count: usize,
    outer_fft_len: usize,
    container_fft_num: usize,
    device: DeviceProfile,
)
    ensures
        rader_fft_registers(
            prime,
            batch_count,
            outer_fft_len,
            container_fft_num,
            device,
        ) matches Ok(
            plan,
        ) ==> {
            &&& plan.checked() is Ok
            &&& plan.internal_fft.checked() is Ok
            &&& (plan.rader_transpose matches Some(transpose) ==> transpose.checked() is Ok)
        },
{
    reveal(rader_fft_registers);
    reveal(RaderFftRegisterModel::checked);
}

} // verus!
