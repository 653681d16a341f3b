//! Upload schedules: how one axis is split over Stockham uploads and which register
//! schedule each upload runs.

use vstd::prelude::*;

use crate::arith::{checked_mul, is_power_of_two};
use crate::config::{precision_name, DeviceProfile, Precision};
use crate::error::{PlanResult, VkFftError};
use crate::policy:: {
    is_nvidia_vulkan, plan_gpu_scheduler_policy, scheduler_policy, GpuSchedulerPolicy
};
use crate::quad::{
    plan_gpu_double_double_quad_registers, quad_schedule, DoubleDoubleQuadRegisterSchedule,
    QuadRegisterModel,
};
use crate::registers::{
    plan_gpu_power_of_two_radix_registers, plan_gpu_small_mixed_radix_registers,
    power_of_two_schedule, small_mixed_schedule, viewed, RadixRegisterModel, RadixRegisterSchedule,
};
use crate::splits::{
    contains_zero, divisor_three_upload_split, four_step_order,
    generic_power_of_two_three_upload_split, generic_sqrt_divisor_split_with_limits,
    generic_three_upload_divisor_split_with_limits, generic_three_upload_unit_stride_split,
    has_zero, multiply_split, power_of_two_three_split, power_of_two_three_upload_split,
    power_of_two_two_upload_split, power_three_upload_split, power_two_upload_split,
    prefer_four_step_first_factor, split_product, sqrt_split, unit_stride_split,
};
use crate::upload_count::{
    plan_upload_shape, unit_stride_first, upload_shape, StockhamUploadAxisContext, UploadLabels,
    UploadLimits, UploadShape,
};

verus! {

/// Bytes of one double-double complex value.
pub const DD_COMPLEX_BYTES: usize = 32;

/// Upload schedule of one axis.
#[derive(Debug, Clone, PartialEq, Eq)]
pub struct StockhamUploadSchedule {
    pub sequence_len: usize,
    pub batch_count: usize,
    pub used_shared_memory_bytes: usize,
    pub max_sequence_len_shared: usize,
    pub max_sequence_len_strided: usize,
    pub register_boost: usize,
    pub upload_count: usize,
    pub axis_split: Vec<usize>,
    pub radix_schedules: Vec<RadixRegisterSchedule>,
}

/// Mathematical content of a [`StockhamUploadSchedule`].
#[verifier::ext_equal]
pub struct StockhamUploadModel {
    pub sequence_len: usize,
    pub batch_count: usize,
    pub used_shared_memory_bytes: usize,
    pub max_sequence_len_shared: usize,
    pub max_sequence_len_strided: usize,
    pub register_boost: usize,
    pub upload_count: usize,
    pub axis_split: Seq<usize>,
    pub radix_schedules: Seq<RadixRegisterModel>,
}

/// The models of a list of register schedules.
pub open spec fn radix_models(schedules: Seq<RadixRegisterSchedule>) -> Seq<RadixRegisterModel> {
    Seq::new(schedules.len(), |i: int| schedules[i]@)
}

impl View for StockhamUploadSchedule {
    type V = StockhamUploadModel;

    open spec fn view(&self) -> StockhamUploadModel {
        StockhamUploadModel {
            sequence_len: self.sequence_len,
            batch_count: self.batch_count,
            used_shared_memory_bytes: self.used_shared_memory_bytes,
            max_sequence_len_shared: self.max_sequence_len_shared,
            max_sequence_len_strided: self.max_sequence_len_strided,
            register_boost: self.register_boost,
            upload_count: self.upload_count,
            axis_split: self.axis_split@,
            radix_schedules: radix_models(self.radix_schedules@),
        }
    }
}

/// What checking the register schedules from index `from` on against their uploads
/// reports.
pub open spec fn radix_parts_checked(
    split: Seq<usize>,
    schedules: Seq<RadixRegisterModel>,
    register_boost: usize,
    total: usize,
    from: int,
) -> PlanResult<()>
    decreases split.len() - from,
{
    if from >= split.len() {
        Ok(())
    } else {
        match schedules[from].checked() {
            Err(error) => Err(error),
            Ok(_) => if schedules[from].fft_len != split[from] || schedules[from].register_boost
                != register_boost || schedules[from].rhs_transform_count != total / split[from] {
                Err(
                    VkFftError::InvalidKernelIr(
                        "Stockham upload radix metadata does not match its axis split",
                    ),
                )
            } else {
                radix_parts_checked(split, schedules, register_boost, total, from + 1)
            },
        }
    }
}

impl StockhamUploadModel {
    /// Whether the scalar fields and list lengths can belong to one schedule.
    pub open spec fn scalars_consistent(self) -> bool {
        &&& self.sequence_len != 0
        &&& self.batch_count != 0
        &&& self.used_shared_memory_bytes != 0
        &&& self.max_sequence_len_shared != 0
        &&& self.max_sequence_len_strided != 0
        &&& self.register_boost != 0
        &&& self.upload_count != 0
        &&& self.axis_split.len() == self.upload_count
        &&& self.radix_schedules.len() == self.upload_count
    }

    /// What checking the schedule reports: the split multiplies to the sequence length,
    /// and every upload has a register schedule of its own length, boost and count.
    pub open spec fn checked(self) -> PlanResult<()> {
        if !self.scalars_consistent() {
            Err(VkFftError::InvalidKernelIr("Stockham upload schedule metadata is inconsistent"))
        } else {
            match split_product(self.axis_split, 0, 1, "Stockham upload axis split product") {
                Err(error) => Err(error),
                Ok(product) => if has_zero(self.axis_split) || product != self.sequence_len {
                    Err(
                        VkFftError::InvalidKernelIr(
                            "Stockham upload axis split does not cover the sequence",
                        ),
                    )
                } else {
                    match checked_mul(
                        self.sequence_len,
                        self.batch_count,
                        "Stockham upload total element count",
                    ) {
                        Err(error) => Err(error),
                        Ok(total) => radix_parts_checked(
                            self.axis_split,
                            self.radix_schedules,
                            self.register_boost,
                            total,
                            0,
                        ),
                    }
                },
            }
        }
    }
}

impl StockhamUploadSchedule {
    pub fn validate(&self) -> (checked: PlanResult<()>)
        ensures
            checked == self@.checked(),
    {
        if self.sequence_len == 0 || self.batch_count == 0 || self.used_shared_memory_bytes == 0
            || self.max_sequence_len_shared == 0 || self.max_sequence_len_strided == 0
            || self.register_boost == 0 || self.upload_count == 0 || self.axis_split.len()
            != self.upload_count || self.radix_schedules.len() != self.upload_count {
            return Err(
                VkFftError::InvalidKernelIr("Stockham upload schedule metadata is inconsistent"),
            );
        }
        let product: usize = multiply_split(
            &self.axis_split,
            "Stockham upload axis split product",
        )?;
        if contains_zero(&self.axis_split) || product != self.sequence_len {
            return Err(
                VkFftError::InvalidKernelIr(
                    "Stockham upload axis split does not cover the sequence",
                ),
            );
        }
        let total: usize = checked_mul(
            self.sequence_len,
            self.batch_count,
            "Stockham upload total element count",
        )?;
        let ghost model = self@;
        let mut index: usize = 0;
        while index < self.axis_split.len()
            invariant
                model == self@,
                index <= self.axis_split.len(),
                self.axis_split.len() == self.radix_schedules.len(),
                !has_zero(self.axis_split@),
                model.checked() == radix_parts_checked(
                    model.axis_split,
                    model.radix_schedules,
                    self.register_boost,
                    total,
                    index as int,
                ),
            decreases self.axis_split.len() - index,
        {
            assert(model.radix_schedules[index as int] == self.radix_schedules@[index as int]@);
            assert(self.axis_split@[index as int] != 0) by {
                if self.axis_split@[index as int] == 0 {
                    assert(self.axis_split@.contains(0));
                }
            }
            let part: &RadixRegisterSchedule = &self.radix_schedules[index];
            part.validate()?;
            let len: usize = self.axis_split[index];
            if part.fft_len != len || part.register_boost != self.register_boost
                || part.rhs_transform_count != total / len {
                return Err(
                    VkFftError::InvalidKernelIr(
                        "Stockham upload radix metadata does not match its axis split",
                    ),
                );
            }
            index = index + 1;
        }
        Ok(())
    }
}

/// The register schedule of one upload of a split axis.
pub open spec fn radix_part(len: usize, total: usize, register_boost: usize) -> PlanResult<
    RadixRegisterModel,
> {
    if len == 0 {
        Err(
            VkFftError::InvalidKernelIr("Stockham upload axis split does not cover the sequence"),
        )
    } else if is_power_of_two(len) {
        power_of_two_schedule(len, total / len, register_boost)
    } else {
        small_mixed_schedule(len, total / len)
    }
}

fn plan_radix_part(len: usize, total: usize, register_boost: usize) -> (part: PlanResult<
    RadixRegisterSchedule,
>)
    ensures
        viewed(part) == radix_part(len, total, register_boost),
{
    if len == 0 {
        return Err(
            VkFftError::InvalidKernelIr("Stockham upload axis split does not cover the sequence"),
        );
    }
    if is_power_of_two(len) {
        plan_gpu_power_of_two_radix_registers(len, total / len, register_boost)
    } else {
        plan_gpu_small_mixed_radix_registers(len, total / len)
    }
}

/// The register schedules of the uploads from index `from` on, appended to `done`.
pub open spec fn radix_parts(
    split: Seq<usize>,
    total: usize,
    register_boost: usize,
    done: Seq<RadixRegisterModel>,
) -> PlanResult<Seq<RadixRegisterModel>>
    decreases split.len() - done.len(),
{
    if done.len() >= split.len() {
        Ok(done)
    } else {
        match radix_part(split[done.len() as int], total, register_boost) {
            Err(error) => Err(error),
            Ok(part) => radix_parts(split, total, register_boost, done.push(part)),
        }
    }
}

/// The register schedules of every upload.
pub open spec fn all_radix_parts(
    split: Seq<usize>,
    total: usize,
    register_boost: usize,
) -> PlanResult<Seq<RadixRegisterModel>> {
    radix_parts(split, total, register_boost, Seq::empty())
}

fn plan_radix_parts(split: &Vec<usize>, total: usize, register_boost: usize) -> (parts: PlanResult<
    Vec<RadixRegisterSchedule>,
>)
    ensures
        match parts {
            Ok(list) => all_radix_parts(split@, total, register_boost) == Ok::<
                Seq<RadixRegisterModel>,
                VkFftError,
            >(radix_models(list@)),
            Err(error) => all_radix_parts(split@, total, register_boost) == Err::<
                Seq<RadixRegisterModel>,
                VkFftError,
            >(error),
        },
{
    let mut parts: Vec<RadixRegisterSchedule> = Vec::new();
    assert(radix_models(parts@) =~= Seq::empty());
    while parts.len() < split.len()
        invariant
            parts.len() <= split.len(),
            radix_parts(split@, total, register_boost, radix_models(parts@)) == all_radix_parts(
                split@,
                total,
                register_boost,
            ),
        decreases split.len() - parts.len(),
    {
        let ghost before = parts@;
        let part: RadixRegisterSchedule = plan_radix_part(
            split[parts.len()],
            total,
            register_boost,
        )?;
        parts.push(part);
        assert(radix_models(parts@) =~= radix_models(before).push(part@));
    }
    Ok(parts)
}

/// Names of the power-of-two family's overflow errors.
#[verifier::allow_in_spec]
pub fn power_of_two_labels() -> UploadLabels
    returns
        (UploadLabels {
            initial_non_strided: "GPU scheduler non-strided register boost",
            initial_strided: "GPU scheduler strided register boost",
            four_step_non_strided: "GPU four-step non-strided register boost",
            four_step_strided: "GPU four-step strided register boost",
            bluestein_strided: "GPU strided Bluestein legacy pass capacity",
            unit_denominator: "GPU scheduler unit-stride register-boost denominator",
            strided_denominator: "GPU scheduler strided register-boost denominator",
            boost_square: "NVIDIA scheduler register boost square",
            upload_count: "NVIDIA scheduler upload count",
            final_strided: "NVIDIA scheduler final strided register boost",
            final_non_strided: "GPU scheduler final non-strided register boost",
            too_many: "NVIDIA Vulkan scheduler requires more than three Stockham uploads",
        }),
{
    UploadLabels {
        initial_non_strided: "GPU scheduler non-strided register boost",
        initial_strided: "GPU scheduler strided register boost",
        four_step_non_strided: "GPU four-step non-strided register boost",
        four_step_strided: "GPU four-step strided register boost",
        bluestein_strided: "GPU strided Bluestein legacy pass capacity",
        unit_denominator: "GPU scheduler unit-stride register-boost denominator",
        strided_denominator: "GPU scheduler strided register-boost denominator",
        boost_square: "NVIDIA scheduler register boost square",
        upload_count: "NVIDIA scheduler upload count",
        final_strided: "NVIDIA scheduler final strided register boost",
        final_non_strided: "GPU scheduler final non-strided register boost",
        too_many: "NVIDIA Vulkan scheduler requires more than three Stockham uploads",
    }
}

/// Names of the smooth family's overflow errors.
#[verifier::allow_in_spec]
pub fn smooth_labels() -> UploadLabels
    returns
        (UploadLabels {
            initial_non_strided: "GPU smooth scheduler initial non-strided boost",
            initial_strided: "GPU smooth scheduler initial strided boost",
            four_step_non_strided: "GPU smooth scheduler four-step non-strided boost",
            four_step_strided: "GPU smooth scheduler four-step strided boost",
            bluestein_strided: "GPU smooth strided Bluestein legacy pass capacity",
            unit_denominator: "GPU smooth scheduler unit-stride register-boost denominator",
            strided_denominator: "GPU smooth scheduler strided register-boost denominator",
            boost_square: "NVIDIA smooth scheduler register boost square",
            upload_count: "NVIDIA smooth scheduler upload count",
            final_strided: "NVIDIA smooth scheduler final strided register boost",
            final_non_strided: "GPU smooth scheduler final non-strided register boost",
            too_many: "NVIDIA Vulkan smooth scheduler requires more than three Stockham uploads",
        }),
{
    UploadLabels {
        initial_non_strided: "GPU smooth scheduler initial non-strided boost",
        initial_strided: "GPU smooth scheduler initial strided boost",
        four_step_non_strided: "GPU smooth scheduler four-step non-strided boost",
        four_step_strided: "GPU smooth scheduler four-step strided boost",
        bluestein_strided: "GPU smooth strided Bluestein legacy pass capacity",
        unit_denominator: "GPU smooth scheduler unit-stride register-boost denominator",
        strided_denominator: "GPU smooth scheduler strided register-boost denominator",
        boost_square: "NVIDIA smooth scheduler register boost square",
        upload_count: "NVIDIA smooth scheduler upload count",
        final_strided: "NVIDIA smooth scheduler final strided register boost",
        final_non_strided: "GPU smooth scheduler final non-strided register boost",
        too_many: "NVIDIA Vulkan smooth scheduler requires more than three Stockham uploads",
    }
}

/// Names of the double-double family's overflow errors.
#[verifier::allow_in_spec]
pub fn double_double_labels() -> UploadLabels
    returns
        (UploadLabels {
            initial_non_strided: "double-double Stockham initial non-strided register boost",
            initial_strided: "double-double Stockham initial strided register boost",
            four_step_non_strided: "double-double Stockham four-step non-strided register boost",
            four_step_strided: "double-double Stockham four-step strided register boost",
            bluestein_strided: "double-double strided Bluestein legacy pass capacity",
            unit_denominator: "double-double Stockham unit-stride register-boost denominator",
            strided_denominator: "double-double Stockham strided register-boost denominator",
            boost_square: "double-double Stockham register boost square",
            upload_count: "double-double Stockham upload count",
            final_strided: "double-double Stockham final strided register boost",
            final_non_strided: "double-double Stockham final non-strided register boost",
            too_many: "double-double Stockham scheduler requires more than three uploads",
        }),
{
    UploadLabels {
        initial_non_strided: "double-double Stockham initial non-strided register boost",
        initial_strided: "double-double Stockham initial strided register boost",
        four_step_non_strided: "double-double Stockham four-step non-strided register boost",
        four_step_strided: "double-double Stockham four-step strided register boost",
        bluestein_strided: "double-double strided Bluestein legacy pass capacity",
        unit_denominator: "double-double Stockham unit-stride register-boost denominator",
        strided_denominator: "double-double Stockham strided register-boost denominator",
        boost_square: "double-double Stockham register boost square",
        upload_count: "double-double Stockham upload count",
        final_strided: "double-double Stockham final strided register boost",
        final_non_strided: "double-double Stockham final non-strided register boost",
        too_many: "double-double Stockham scheduler requires more than three uploads",
    }
}

/// Values one strided upload holds in `shared_bytes`.
#[verifier::allow_in_spec]
pub fn strided_capacity(
    shared_bytes: usize,
    complex_bytes: usize,
    coalesced_bytes: usize,
    shared: usize,
) -> usize
    returns
        (if coalesced_bytes > complex_bytes {
            shared_bytes / coalesced_bytes
        } else {
            shared
        }),
{
    if coalesced_bytes > complex_bytes {
        shared_bytes / coalesced_bytes
    } else {
        shared
    }
}

/// The limits of an ordinary axis. Bluestein and convolution kernels keep nothing in
/// boosted registers, and convolutions do not reorder their uploads.
#[verifier::allow_in_spec]
pub fn ordinary_limits(
    shared_bytes: usize,
    complex_bytes: usize,
    shared: usize,
    strided: usize,
    keep_boost: bool,
    policy: GpuSchedulerPolicy,
    context: StockhamUploadAxisContext,
) -> UploadLimits
    returns
        (UploadLimits {
            shared_bytes,
            complex_bytes,
            coalesced_bytes: policy.coalesced_memory_bytes,
            shared,
            strided,
            boost_limit: if context.use_bluestein_fft || context.perform_convolution {
                1
            } else {
                policy.register_boost
            },
            four_step_boost_limit: if context.perform_convolution {
                1
            } else {
                policy.register_boost_four_step
            },
            keep_boost,
            reorder_four_step: policy.reorder_four_step && !context.perform_convolution,
            perform_convolution: context.perform_convolution,
            swap_to_two: policy.swap_to_two_stage_four_step,
            swap_to_three: policy.swap_to_three_stage_four_step,
        }),
{
    UploadLimits {
        shared_bytes,
        complex_bytes,
        coalesced_bytes: policy.coalesced_memory_bytes,
        shared,
        strided,
        boost_limit: if context.use_bluestein_fft || context.perform_convolution {
            1
        } else {
            policy.register_boost
        },
        four_step_boost_limit: if context.perform_convolution {
            1
        } else {
            policy.register_boost_four_step
        },
        keep_boost,
        reorder_four_step: policy.reorder_four_step && !context.perform_convolution,
        perform_convolution: context.perform_convolution,
        swap_to_two: policy.swap_to_two_stage_four_step,
        swap_to_three: policy.swap_to_three_stage_four_step,
    }
}

/// A split of one factor.
pub open spec fn whole_split(len: usize) -> Seq<usize> {
    seq![len]
}

fn whole(len: usize) -> (split: Vec<usize>)
    ensures
        split@ == whole_split(len),
{
    let split: Vec<usize> = vec![len];
    assert(split@ =~= seq![len]);
    split
}

/// A split of two factors.
pub open spec fn pair_split(pair: (usize, usize)) -> Seq<usize> {
    seq![pair.0, pair.1]
}

fn pair(factors: (usize, usize)) -> (split: Vec<usize>)
    ensures
        split@ == pair_split(factors),
{
    let split: Vec<usize> = vec![factors.0, factors.1];
    assert(split@ =~= seq![factors.0, factors.1]);
    split
}

/// The factors of a power of two over its uploads.
pub open spec fn power_of_two_axis_split(
    len: usize,
    limits: UploadLimits,
    shape: UploadShape,
    unit_stride: bool,
    device: DeviceProfile,
) -> PlanResult<Seq<usize>> {
    if shape.upload_count <= 1 {
        Ok(whole_split(len))
    } else if shape.upload_count == 2 {
        power_two_upload_split(
            len,
            limits.shared,
            shape.max_strided,
            shape.half_bandwidth,
            shape.register_boost,
            unit_stride,
            device,
        )
    } else {
        power_of_two_three_split(
            len,
            limits.shared_bytes,
            limits.shared,
            shape.max_strided,
            shape.half_bandwidth,
            shape.register_boost,
            unit_stride,
            device,
        )
    }
}

fn split_power_of_two_axis(
    len: usize,
    limits: UploadLimits,
    shape: UploadShape,
    unit_stride: bool,
    device: DeviceProfile,
) -> (planned: PlanResult<Vec<usize>>)
    requires
        limits.shared > 0,
        shape.register_boost > 0,
    ensures
        viewed(planned) == power_of_two_axis_split(len, limits, shape, unit_stride, device),
{
    if shape.upload_count <= 1 {
        return Ok(whole(len));
    }
    if shape.upload_count == 2 {
        return power_of_two_two_upload_split(
            len,
            limits.shared,
            shape.max_strided,
            shape.half_bandwidth,
            shape.register_boost,
            unit_stride,
            device,
        );
    }
    power_of_two_three_upload_split(
        len,
        limits.shared_bytes,
        limits.shared,
        shape.max_strided,
        shape.half_bandwidth,
        shape.register_boost,
        unit_stride,
        device,
    )
}

/// The upload schedule of a power of two.
#[verifier::opaque]
pub open spec fn power_of_two_uploads(
    sequence_len: usize,
    batch_count: usize,
    precision: Precision,
    device: DeviceProfile,
    axis_context: StockhamUploadAxisContext,
) -> PlanResult<StockhamUploadModel> {
    match scheduler_policy(precision, device) {
        Err(error) => Err(error),
        Ok(policy) => if sequence_len == 0 || !is_power_of_two(sequence_len) {
            Err(
                VkFftError::UnsupportedKernelPath(
                    "NVIDIA Vulkan scheduler slice currently requires a power-of-two length",
                ),
            )
        } else if batch_count == 0 {
            Err(VkFftError::ZeroBatchCount)
        } else if precision.is_double_double() {
            Err(
                VkFftError::UnsupportedPrecision {
                    backend: "NVIDIA Vulkan scheduler baseline",
                    precision: precision_name(precision),
                },
            )
        } else {
            let complex_bytes = precision.compute_complex_bytes();
            let shared_bytes = device.shared_memory_pow2_bytes;
            if shared_bytes < complex_bytes {
                Err(
                    VkFftError::ResourceLimitExceeded {
                        resource: "NVIDIA Vulkan scheduler shared memory",
                        required: complex_bytes,
                        available: shared_bytes,
                    },
                )
            } else {
                let shared = shared_bytes / complex_bytes;
                let strided = strided_capacity(
                    shared_bytes,
                    complex_bytes,
                    policy.coalesced_memory_bytes,
                    shared,
                );
                if strided == 0 {
                    Err(
                        VkFftError::ResourceLimitExceeded {
                            resource: "NVIDIA Vulkan scheduler strided shared-memory capacity",
                            required: 1,
                            available: 0,
                        },
                    )
                } else {
                    let limits = ordinary_limits(
                        shared_bytes,
                        complex_bytes,
                        shared,
                        strided,
                        true,
                        policy,
                        axis_context,
                    );
                    match upload_shape(sequence_len, limits, axis_context, power_of_two_labels()) {
                        Err(error) => Err(error),
                        Ok(shape) => {
                            let unit_stride = unit_stride_first(limits, axis_context);
                            match power_of_two_axis_split(
                                sequence_len,
                                limits,
                                shape,
                                unit_stride,
                                device,
                            ) {
                                Err(error) => Err(error),
                                Ok(axis_split) => match checked_mul(
                                    sequence_len,
                                    batch_count,
                                    "NVIDIA scheduler total element count",
                                ) {
                                    Err(error) => Err(error),
                                    Ok(total) => match all_radix_parts(
                                        axis_split,
                                        total,
                                        shape.register_boost,
                                    ) {
                                        Err(error) => Err(error),
                                        Ok(radix_schedules) => {
                                            let schedule = StockhamUploadModel {
                                                sequence_len,
                                                batch_count,
                                                used_shared_memory_bytes: shared_bytes,
                                                max_sequence_len_shared: shared,
                                                max_sequence_len_strided: strided,
                                                register_boost: shape.register_boost,
                                                upload_count: shape.upload_count,
                                                axis_split,
                                                radix_schedules,
                                            };
                                            match schedule.checked() {
                                                Err(error) => Err(error),
                                                Ok(_checked) => Ok(schedule),
                                            }
                                        },
                                    },
                                },
                            }
                        },
                    }
                }
            }
        },
    }
}

pub fn plan_gpu_power_of_two_stockham_uploads_for_batches_with_axis_context(
    sequence_len: usize,
    batch_count: usize,
    precision: Precision,
    device: DeviceProfile,
    axis_context: StockhamUploadAxisContext,
) -> (planned: PlanResult<StockhamUploadSchedule>)
    ensures
        viewed(planned) == power_of_two_uploads(
            sequence_len,
            batch_count,
            precision,
            device,
            axis_context,
        ),
{
    reveal(power_of_two_uploads);
    let policy: GpuSchedulerPolicy = plan_gpu_scheduler_policy(precision, device)?;
    if sequence_len == 0 || !is_power_of_two(sequence_len) {
        return Err(
            VkFftError::UnsupportedKernelPath(
                "NVIDIA Vulkan scheduler slice currently requires a power-of-two length",
            ),
        );
    }
    if batch_count == 0 {
        return Err(VkFftError::ZeroBatchCount);
    }
    if precision.is_double_double() {
        return Err(
            VkFftError::UnsupportedPrecision {
                backend: "NVIDIA Vulkan scheduler baseline",
                precision: precision_name(precision),
            },
        );
    }
    let complex_bytes: usize = precision.compute_complex_bytes();
    let shared_bytes: usize = device.shared_memory_pow2_bytes;
    if shared_bytes < complex_bytes {
        return Err(
            VkFftError::ResourceLimitExceeded {
                resource: "NVIDIA Vulkan scheduler shared memory",
                required: complex_bytes,
                available: shared_bytes,
            },
        );
    }
    let shared: usize = shared_bytes / complex_bytes;
    let strided: usize = strided_capacity(
        shared_bytes,
        complex_bytes,
        policy.coalesced_memory_bytes,
        shared,
    );
    if strided == 0 {
        return Err(
            VkFftError::ResourceLimitExceeded {
                resource: "NVIDIA Vulkan scheduler strided shared-memory capacity",
                required: 1,
                available: 0,
            },
        );
    }
    let limits: UploadLimits = ordinary_limits(
        shared_bytes,
        complex_bytes,
        shared,
        strided,
        true,
        policy,
        axis_context,
    );
    let shape: UploadShape = plan_upload_shape(
        sequence_len,
        limits,
        axis_context,
        power_of_two_labels(),
    )?;
    assert(shared > 0) by (nonlinear_arith)
        requires
            shared == shared_bytes / complex_bytes,
            shared_bytes >= complex_bytes,
            complex_bytes > 0,
    ;
    let unit_stride: bool = unit_stride_first(limits, axis_context);
    let axis_split: Vec<usize> = split_power_of_two_axis(
        sequence_len,
        limits,
        shape,
        unit_stride,
        device,
    )?;
    let total: usize = checked_mul(
        sequence_len,
        batch_count,
        "NVIDIA scheduler total element count",
    )?;
    let radix_schedules: Vec<RadixRegisterSchedule> = plan_radix_parts(
        &axis_split,
        total,
        shape.register_boost,
    )?;
    let schedule: StockhamUploadSchedule = StockhamUploadSchedule {
        sequence_len,
        batch_count,
        used_shared_memory_bytes: shared_bytes,
        max_sequence_len_shared: shared,
        max_sequence_len_strided: strided,
        register_boost: shape.register_boost,
        upload_count: shape.upload_count,
        axis_split,
        radix_schedules,
    };
    let _checked: () = schedule.validate()?;
    Ok(schedule)
}

/// The same for a contiguous axis of a plain transform.
pub open spec fn power_of_two_uploads_plain(
    sequence_len: usize,
    batch_count: usize,
    precision: Precision,
    device: DeviceProfile,
) -> PlanResult<StockhamUploadModel> {
    power_of_two_uploads(sequence_len, batch_count, precision, device, plain_context())
}

pub fn plan_gpu_power_of_two_stockham_uploads_for_batches(
    sequence_len: usize,
    batch_count: usize,
    precision: Precision,
    device: DeviceProfile,
) -> (planned: PlanResult<StockhamUploadSchedule>)
    ensures
        viewed(planned) == power_of_two_uploads_plain(sequence_len, batch_count, precision, device),
{
    plan_gpu_power_of_two_stockham_uploads_for_batches_with_axis_context(
        sequence_len,
        batch_count,
        precision,
        device,
        plain_context(),
    )
}

/// The context of a contiguous axis of a plain transform.
#[verifier::allow_in_spec]
pub fn plain_context() -> StockhamUploadAxisContext
    returns
        StockhamUploadAxisContext::plain(),
{
    StockhamUploadAxisContext::default()
}

/// The same for one transform.
pub fn plan_gpu_power_of_two_stockham_uploads(
    sequence_len: usize,
    precision: Precision,
    device: DeviceProfile,
) -> (planned: PlanResult<StockhamUploadSchedule>)
    ensures
        viewed(planned) == power_of_two_uploads_plain(sequence_len, 1, precision, device),
{
    plan_gpu_power_of_two_stockham_uploads_for_batches(sequence_len, 1, precision, device)
}

/// The same, for NVIDIA Vulkan devices only.
pub open spec fn nvidia_power_of_two_uploads(
    sequence_len: usize,
    batch_count: usize,
    precision: Precision,
    device: DeviceProfile,
) -> PlanResult<StockhamUploadModel> {
    if !is_nvidia_vulkan(device) {
        Err(
            VkFftError::UnsupportedKernelPath(
                "NVIDIA Vulkan scheduler slice requires an NVIDIA Vulkan DeviceProfile",
            ),
        )
    } else {
        power_of_two_uploads_plain(sequence_len, batch_count, precision, device)
    }
}

pub fn plan_nvidia_vulkan_power_of_two_stockham_uploads_for_batches(
    sequence_len: usize,
    batch_count: usize,
    precision: Precision,
    device: DeviceProfile,
) -> (planned: PlanResult<StockhamUploadSchedule>)
    ensures
        viewed(planned) == nvidia_power_of_two_uploads(
            sequence_len,
            batch_count,
            precision,
            device,
        ),
{
    if !is_nvidia_vulkan(device) {
        return Err(
            VkFftError::UnsupportedKernelPath(
                "NVIDIA Vulkan scheduler slice requires an NVIDIA Vulkan DeviceProfile",
            ),
        );
    }
    plan_gpu_power_of_two_stockham_uploads_for_batches(sequence_len, batch_count, precision, device)
}

/// The same for one transform.
pub fn plan_nvidia_vulkan_power_of_two_stockham_uploads(
    sequence_len: usize,
    precision: Precision,
    device: DeviceProfile,
) -> (planned: PlanResult<StockhamUploadSchedule>)
    ensures
        viewed(planned) == nvidia_power_of_two_uploads(sequence_len, 1, precision, device),
{
    plan_nvidia_vulkan_power_of_two_stockham_uploads_for_batches(sequence_len, 1, precision, device)
}

/// The factors of a length that is no power of two over its uploads, found by divisor
/// search.
pub open spec fn searched_axis_split(
    len: usize,
    limits: UploadLimits,
    shape: UploadShape,
    unit_stride: bool,
    missing: &'static str,
) -> PlanResult<Seq<usize>> {
    if shape.upload_count <= 1 {
        Ok(whole_split(len))
    } else if shape.upload_count == 2 {
        let quotient_limit = if unit_stride { limits.shared } else { shape.half_bandwidth };
        match sqrt_split(len, shape.max_strided, quotient_limit) {
            Err(error) => Err(error),
            Ok(found) => pair_split_or(found, missing),
        }
    } else if unit_stride {
        unit_stride_split(len, limits.shared, shape.max_strided)
    } else {
        divisor_three_upload_split(len, shape.max_strided, shape.half_bandwidth)
    }
}

fn split_searched_axis(
    len: usize,
    limits: UploadLimits,
    shape: UploadShape,
    unit_stride: bool,
    missing: &'static str,
) -> (planned: PlanResult<Vec<usize>>)
    ensures
        viewed(planned) == searched_axis_split(len, limits, shape, unit_stride, missing),
{
    if shape.upload_count <= 1 {
        return Ok(whole(len));
    }
    if shape.upload_count == 2 {
        let quotient_limit: usize = if unit_stride { limits.shared } else { shape.half_bandwidth };
        let found: Option<(usize, usize)> = generic_sqrt_divisor_split_with_limits(
            len,
            shape.max_strided,
            quotient_limit,
        )?;
        return pair_or(found, missing);
    }
    if unit_stride {
        return generic_three_upload_unit_stride_split(len, limits.shared, shape.max_strided);
    }
    generic_three_upload_divisor_split_with_limits(len, shape.max_strided, shape.half_bandwidth)
}

/// A found pair of factors, or that none was found.
pub open spec fn pair_split_or(found: Option<(usize, usize)>, missing: &'static str) -> PlanResult<
    Seq<usize>,
> {
    match found {
        Some(factors) => Ok(pair_split(factors)),
        None => Err(VkFftError::UnsupportedKernelPath(missing)),
    }
}

fn pair_or(found: Option<(usize, usize)>, missing: &'static str) -> (split: PlanResult<Vec<usize>>)
    ensures
        viewed(split) == pair_split_or(found, missing),
{
    match found {
        Some(factors) => Ok(pair(factors)),
        None => Err(VkFftError::UnsupportedKernelPath(missing)),
    }
}

/// The split in four-step order where `reorder` asks for it.
pub open spec fn reordered_split(split: Seq<usize>, reorder: bool) -> Seq<usize> {
    if reorder {
        four_step_order(split)
    } else {
        split
    }
}

pub fn reordered(split: Vec<usize>, reorder: bool) -> (ordered: Vec<usize>)
    ensures
        ordered@ == reordered_split(split@, reorder),
{
    let mut split = split;
    if reorder {
        prefer_four_step_first_factor(&mut split);
    }
    split
}

/// The upload schedule of any length over the primes 2 to 13.
#[verifier::opaque]
pub open spec fn smooth_uploads(
    sequence_len: usize,
    batch_count: usize,
    precision: Precision,
    device: DeviceProfile,
    axis_context: StockhamUploadAxisContext,
) -> PlanResult<StockhamUploadModel> {
    if is_power_of_two(sequence_len) {
        power_of_two_uploads(sequence_len, batch_count, precision, device, axis_context)
    } else {
        match scheduler_policy(precision, device) {
            Err(error) => Err(error),
            Ok(policy) => if sequence_len < 3 {
                Err(
                    VkFftError::UnsupportedKernelPath(
                        "non-power-of-two smooth upload scheduling requires an FFT length >= 3",
                    ),
                )
            } else if batch_count == 0 {
                Err(VkFftError::ZeroBatchCount)
            } else if precision.is_double_double() {
                Err(
                    VkFftError::UnsupportedPrecision {
                        backend: "NVIDIA Vulkan smooth scheduler",
                        precision: precision_name(precision),
                    },
                )
            } else {
                let complex_bytes = precision.compute_complex_bytes();
                match small_mixed_schedule(sequence_len, batch_count) {
                    Err(error) => Err(error),
                    Ok(_whole) => {
                        let shared_bytes = device.shared_memory_bytes;
                        if shared_bytes < complex_bytes {
                            Err(
                                VkFftError::ResourceLimitExceeded {
                                    resource: "NVIDIA Vulkan smooth scheduler shared memory",
                                    required: complex_bytes,
                                    available: shared_bytes,
                                },
                            )
                        } else {
                            let shared = shared_bytes / complex_bytes;
                            let strided = strided_capacity(
                                shared_bytes,
                                complex_bytes,
                                policy.coalesced_memory_bytes,
                                shared,
                            );
                            if strided == 0 {
                                Err(
                                    VkFftError::ResourceLimitExceeded {
                                        resource: "NVIDIA Vulkan smooth scheduler strided shared-memory capacity",
                                        required: 1,
                                        available: 0,
                                    },
                                )
                            } else {
                                let keep_boost = policy.register_boost_non_power_of_two
                                    && !axis_context.perform_convolution;
                                let limits = ordinary_limits(
                                    shared_bytes,
                                    complex_bytes,
                                    shared,
                                    strided,
                                    keep_boost,
                                    policy,
                                    axis_context,
                                );
                                match upload_shape(
                                    sequence_len,
                                    limits,
                                    axis_context,
                                    smooth_labels(),
                                ) {
                                    Err(error) => Err(error),
                                    Ok(shape) => {
                                        let unit_stride = unit_stride_first(limits, axis_context);
                                        match searched_axis_split(
                                            sequence_len,
                                            limits,
                                            shape,
                                            unit_stride,
                                            "GPU smooth scheduler could not find a two-upload divisor split",
                                        ) {
                                            Err(error) => Err(error),
                                            Ok(found_split) => {
                                                let axis_split = reordered_split(
                                                    found_split,
                                                    !unit_stride
                                                        && limits.reorder_four_step
                                                        && !axis_context.use_bluestein_fft,
                                                );
                                                match checked_mul(
                                                    sequence_len,
                                                    batch_count,
                                                    "NVIDIA smooth scheduler total element count",
                                                ) {
                                                    Err(error) => Err(error),
                                                    Ok(total) => match all_radix_parts(
                                                        axis_split,
                                                        total,
                                                        shape.register_boost,
                                                    ) {
                                                        Err(error) => Err(error),
                                                        Ok(radix_schedules) => {
                                                            let schedule = StockhamUploadModel {
                                                                sequence_len,
                                                                batch_count,
                                                                used_shared_memory_bytes: shared_bytes,
                                                                max_sequence_len_shared: shared,
                                                                max_sequence_len_strided: strided,
                                                                register_boost: shape.register_boost,
                                                                upload_count: shape.upload_count,
                                                                axis_split,
                                                                radix_schedules,
                                                            };
                                                            match schedule.checked() {
                                                                Err(error) => Err(error),
                                                                Ok(_checked) => Ok(schedule),
                                                            }
                                                        },
                                                    },
                                                }
                                            },
                                        }
                                    },
                                }
                            }
                        }
                    },
                }
            },
        }
    }
}

pub fn plan_gpu_smooth_stockham_uploads_for_batches_with_axis_context(
    sequence_len: usize,
    batch_count: usize,
    precision: Precision,
    device: DeviceProfile,
    axis_context: StockhamUploadAxisContext,
) -> (planned: PlanResult<StockhamUploadSchedule>)
    ensures
        viewed(planned) == smooth_uploads(
            sequence_len,
            batch_count,
            precision,
            device,
            axis_context,
        ),
{
    reveal(smooth_uploads);
    if is_power_of_two(sequence_len) {
        return plan_gpu_power_of_two_stockham_uploads_for_batches_with_axis_context(
            sequence_len,
            batch_count,
            precision,
            device,
            axis_context,
        );
    }
    let policy: GpuSchedulerPolicy = plan_gpu_scheduler_policy(precision, device)?;
    if sequence_len < 3 {
        return Err(
            VkFftError::UnsupportedKernelPath(
                "non-power-of-two smooth upload scheduling requires an FFT length >= 3",
            ),
        );
    }
    if batch_count == 0 {
        return Err(VkFftError::ZeroBatchCount);
    }
    if precision.is_double_double() {
        return Err(
            VkFftError::UnsupportedPrecision {
                backend: "NVIDIA Vulkan smooth scheduler",
                precision: precision_name(precision),
            },
        );
    }
    let complex_bytes: usize = precision.compute_complex_bytes();
    let _whole: RadixRegisterSchedule = plan_gpu_small_mixed_radix_registers(
        sequence_len,
        batch_count,
    )?;
    let shared_bytes: usize = device.shared_memory_bytes;
    if shared_bytes < complex_bytes {
        return Err(
            VkFftError::ResourceLimitExceeded {
                resource: "NVIDIA Vulkan smooth scheduler shared memory",
                required: complex_bytes,
                available: shared_bytes,
            },
        );
    }
    let shared: usize = shared_bytes / complex_bytes;
    let strided: usize = strided_capacity(
        shared_bytes,
        complex_bytes,
        policy.coalesced_memory_bytes,
        shared,
    );
    if strided == 0 {
        return Err(
            VkFftError::ResourceLimitExceeded {
                resource: "NVIDIA Vulkan smooth scheduler strided shared-memory capacity",
                required: 1,
                available: 0,
            },
        );
    }
    let keep_boost: bool = policy.register_boost_non_power_of_two
        && !axis_context.perform_convolution;
    let limits: UploadLimits = ordinary_limits(
        shared_bytes,
        complex_bytes,
        shared,
        strided,
        keep_boost,
        policy,
        axis_context,
    );
    let shape: UploadShape = plan_upload_shape(
        sequence_len,
        limits,
        axis_context,
        smooth_labels(),
    )?;
    let unit_stride: bool = unit_stride_first(limits, axis_context);
    let found_split: Vec<usize> = split_searched_axis(
        sequence_len,
        limits,
        shape,
        unit_stride,
        "GPU smooth scheduler could not find a two-upload divisor split",
    )?;
    let axis_split: Vec<usize> = reordered(
        found_split,
        !unit_stride && limits.reorder_four_step && !axis_context.use_bluestein_fft,
    );
    let total: usize = checked_mul(
        sequence_len,
        batch_count,
        "NVIDIA smooth scheduler total element count",
    )?;
    let radix_schedules: Vec<RadixRegisterSchedule> = plan_radix_parts(
        &axis_split,
        total,
        shape.register_boost,
    )?;
    let schedule: StockhamUploadSchedule = StockhamUploadSchedule {
        sequence_len,
        batch_count,
        used_shared_memory_bytes: shared_bytes,
        max_sequence_len_shared: shared,
        max_sequence_len_strided: strided,
        register_boost: shape.register_boost,
        upload_count: shape.upload_count,
        axis_split,
        radix_schedules,
    };
    let _checked: () = schedule.validate()?;
    Ok(schedule)
}

/// The same for a contiguous axis of a plain transform.
pub open spec fn smooth_uploads_plain(
    sequence_len: usize,
    batch_count: usize,
    precision: Precision,
    device: DeviceProfile,
) -> PlanResult<StockhamUploadModel> {
    smooth_uploads(sequence_len, batch_count, precision, device, plain_context())
}

pub fn plan_gpu_smooth_stockham_uploads_for_batches(
    sequence_len: usize,
    batch_count: usize,
    precision: Precision,
    device: DeviceProfile,
) -> (planned: PlanResult<StockhamUploadSchedule>)
    ensures
        viewed(planned) == smooth_uploads_plain(sequence_len, batch_count, precision, device),
{
    plan_gpu_smooth_stockham_uploads_for_batches_with_axis_context(
        sequence_len,
        batch_count,
        precision,
        device,
        plain_context(),
    )
}

/// The same for one transform.
pub fn plan_gpu_smooth_stockham_uploads(
    sequence_len: usize,
    precision: Precision,
    device: DeviceProfile,
) -> (planned: PlanResult<StockhamUploadSchedule>)
    ensures
        viewed(planned) == smooth_uploads_plain(sequence_len, 1, precision, device),
{
    plan_gpu_smooth_stockham_uploads_for_batches(sequence_len, 1, precision, device)
}

/// The same, for NVIDIA Vulkan devices only.
pub open spec fn nvidia_smooth_uploads(
    sequence_len: usize,
    batch_count: usize,
    precision: Precision,
    device: DeviceProfile,
) -> PlanResult<StockhamUploadModel> {
    if !is_nvidia_vulkan(device) {
        Err(
            VkFftError::UnsupportedKernelPath(
                "NVIDIA Vulkan smooth scheduler requires an NVIDIA Vulkan DeviceProfile",
            ),
        )
    } else {
        smooth_uploads_plain(sequence_len, batch_count, precision, device)
    }
}

pub fn plan_nvidia_vulkan_smooth_stockham_uploads_for_batches(
    sequence_len: usize,
    batch_count: usize,
    precision: Precision,
    device: DeviceProfile,
) -> (planned: PlanResult<StockhamUploadSchedule>)
    ensures
        viewed(planned) == nvidia_smooth_uploads(sequence_len, batch_count, precision, device),
{
    if !is_nvidia_vulkan(device) {
        return Err(
            VkFftError::UnsupportedKernelPath(
                "NVIDIA Vulkan smooth scheduler requires an NVIDIA Vulkan DeviceProfile",
            ),
        );
    }
    plan_gpu_smooth_stockham_uploads_for_batches(sequence_len, batch_count, precision, device)
}

/// The same for one transform.
pub fn plan_nvidia_vulkan_smooth_stockham_uploads(
    sequence_len: usize,
    precision: Precision,
    device: DeviceProfile,
) -> (planned: PlanResult<StockhamUploadSchedule>)
    ensures
        viewed(planned) == nvidia_smooth_uploads(sequence_len, 1, precision, device),
{
    plan_nvidia_vulkan_smooth_stockham_uploads_for_batches(sequence_len, 1, precision, device)
}

/// Upload schedule of one double-double axis.
#[derive(Debug, Clone, PartialEq, Eq)]
pub struct DoubleDoubleStockhamUploadSchedule {
    pub sequence_len: usize,
    pub batch_count: usize,
    pub used_shared_memory_bytes: usize,
    pub max_sequence_len_shared: usize,
    pub max_sequence_len_strided: usize,
    pub register_boost: usize,
    pub upload_count: usize,
    pub axis_split: Vec<usize>,
    pub quad_schedules: Vec<DoubleDoubleQuadRegisterSchedule>,
}

/// Mathematical content of a [`DoubleDoubleStockhamUploadSchedule`].
#[verifier::ext_equal]
pub struct DoubleDoubleUploadModel {
    pub sequence_len: usize,
    pub batch_count: usize,
    pub used_shared_memory_bytes: usize,
    pub max_sequence_len_shared: usize,
    pub max_sequence_len_strided: usize,
    pub register_boost: usize,
    pub upload_count: usize,
    pub axis_split: Seq<usize>,
    pub quad_schedules: Seq<QuadRegisterModel>,
}

/// The models of a list of double-double register schedules.
pub open spec fn quad_models(schedules: Seq<DoubleDoubleQuadRegisterSchedule>) -> Seq<
    QuadRegisterModel,
> {
    Seq::new(schedules.len(), |i: int| schedules[i]@)
}

impl View for DoubleDoubleStockhamUploadSchedule {
    type V = DoubleDoubleUploadModel;

    open spec fn view(&self) -> DoubleDoubleUploadModel {
        DoubleDoubleUploadModel {
            sequence_len: self.sequence_len,
            batch_count: self.batch_count,
            used_shared_memory_bytes: self.used_shared_memory_bytes,
            max_sequence_len_shared: self.max_sequence_len_shared,
            max_sequence_len_strided: self.max_sequence_len_strided,
            register_boost: self.register_boost,
            upload_count: self.upload_count,
            axis_split: self.axis_split@,
            quad_schedules: quad_models(self.quad_schedules@),
        }
    }
}

impl DoubleDoubleUploadModel {
    /// Whether the scalar fields and list lengths can belong to one schedule.
    pub open spec fn scalars_consistent(self) -> bool {
        &&& self.sequence_len >= 2
        &&& self.batch_count != 0
        &&& self.used_shared_memory_bytes >= 32
        &&& self.max_sequence_len_shared != 0
        &&& self.max_sequence_len_strided != 0
        &&& self.register_boost != 0
        &&& 1 <= self.upload_count <= 3
        &&& self.axis_split.len() == self.upload_count
        &&& self.quad_schedules.len() == self.upload_count
        &&& !has_zero(self.axis_split)
    }

    /// Whether upload `i` has a register schedule of its own length and count.
    pub open spec fn part_matches(self, total: usize, i: int) -> bool {
        &&& self.quad_schedules[i].fft_len == self.axis_split[i]
        &&& self.quad_schedules[i].rhs_transform_count == total / self.axis_split[i]
        &&& self.quad_schedules[i].min_registers_per_thread != 0
    }

    /// Whether every upload does.
    pub open spec fn all_parts_match(self, total: usize) -> bool {
        forall|i: int|
            0 <= i < self.axis_split.len() ==> #[trigger] self.part_matches(total, i)
    }

    /// What checking the schedule reports.
    pub open spec fn checked(self) -> PlanResult<()> {
        if !self.scalars_consistent() {
            Err(
                VkFftError::InvalidKernelIr(
                    "double-double Stockham upload schedule metadata is inconsistent",
                ),
            )
        } else {
            match split_product(
                self.axis_split,
                0,
                1,
                "double-double Stockham upload axis split product",
            ) {
                Err(error) => Err(error),
                Ok(product) => if product != self.sequence_len {
                    Err(
                        VkFftError::InvalidKernelIr(
                            "double-double Stockham upload split does not cover the sequence",
                        ),
                    )
                } else {
                    match checked_mul(
                        self.sequence_len,
                        self.batch_count,
                        "double-double Stockham upload total element count",
                    ) {
                        Err(error) => Err(error),
                        Ok(total) => if self.all_parts_match(total) {
                            Ok(())
                        } else {
                            Err(
                                VkFftError::InvalidKernelIr(
                                    "double-double Stockham upload Quad metadata does not match its axis split",
                                ),
                            )
                        },
                    }
                },
            }
        }
    }
}

impl DoubleDoubleStockhamUploadSchedule {
    pub fn validate(&self) -> (checked: PlanResult<()>)
        ensures
            checked == self@.checked(),
    {
        if self.sequence_len < 2 || self.batch_count == 0 || self.used_shared_memory_bytes < 32
            || self.max_sequence_len_shared == 0 || self.max_sequence_len_strided == 0
            || self.register_boost == 0 || self.upload_count < 1 || self.upload_count > 3
            || self.axis_split.len() != self.upload_count || self.quad_schedules.len()
            != self.upload_count || contains_zero(&self.axis_split) {
            return Err(
                VkFftError::InvalidKernelIr(
                    "double-double Stockham upload schedule metadata is inconsistent",
                ),
            );
        }
        let product: usize = multiply_split(
            &self.axis_split,
            "double-double Stockham upload axis split product",
        )?;
        if product != self.sequence_len {
            return Err(
                VkFftError::InvalidKernelIr(
                    "double-double Stockham upload split does not cover the sequence",
                ),
            );
        }
        let total: usize = checked_mul(
            self.sequence_len,
            self.batch_count,
            "double-double Stockham upload total element count",
        )?;
        let mut index: usize = 0;
        while index < self.axis_split.len()
            invariant
                index <= self.axis_split.len(),
                self@.scalars_consistent(),
                split_product(
                    self.axis_split@,
                    0,
                    1,
                    "double-double Stockham upload axis split product",
                ) == Ok::<usize, VkFftError>(self.sequence_len),
                checked_mul(
                    self.sequence_len,
                    self.batch_count,
                    "double-double Stockham upload total element count",
                ) == Ok::<usize, VkFftError>(total),
                forall|i: int| 0 <= i < index ==> #[trigger] self@.part_matches(total, i),
            decreases self.axis_split.len() - index,
        {
            assert(self@.quad_schedules[index as int] == self.quad_schedules@[index as int]@);
            assert(self.axis_split@[index as int] != 0) by {
                if self.axis_split@[index as int] == 0 {
                    assert(self.axis_split@.contains(0));
                }
            }
            let len: usize = self.axis_split[index];
            let part: &DoubleDoubleQuadRegisterSchedule = &self.quad_schedules[index];
            if part.fft_len != len || part.rhs_transform_count != total / len
                || part.min_registers_per_thread == 0 {
                assert(!self@.part_matches(total, index as int));
                assert(!self@.all_parts_match(total));
                return Err(
                    VkFftError::InvalidKernelIr(
                        "double-double Stockham upload Quad metadata does not match its axis split",
                    ),
                );
            }
            assert(self@.part_matches(total, index as int));
            index = index + 1;
        }
        assert(self@.all_parts_match(total));
        Ok(())
    }
}

/// The double-double register schedule of one upload of a split axis.
pub open spec fn quad_part(len: usize, total: usize) -> PlanResult<QuadRegisterModel> {
    if len == 0 {
        Err(
            VkFftError::InvalidKernelIr(
                "double-double Stockham upload schedule metadata is inconsistent",
            ),
        )
    } else {
        quad_schedule(len, total / len)
    }
}

/// The double-double register schedules of the uploads that follow those `done`.
pub open spec fn quad_parts(
    split: Seq<usize>,
    total: usize,
    done: Seq<QuadRegisterModel>,
) -> PlanResult<Seq<QuadRegisterModel>>
    decreases split.len() - done.len(),
{
    if done.len() >= split.len() {
        Ok(done)
    } else {
        match quad_part(split[done.len() as int], total) {
            Err(error) => Err(error),
            Ok(part) => quad_parts(split, total, done.push(part)),
        }
    }
}

/// The double-double register schedules of every upload.
pub open spec fn all_quad_parts(split: Seq<usize>, total: usize) -> PlanResult<
    Seq<QuadRegisterModel>,
> {
    quad_parts(split, total, Seq::empty())
}

fn plan_quad_parts(split: &Vec<usize>, total: usize) -> (parts: PlanResult<
    Vec<DoubleDoubleQuadRegisterSchedule>,
>)
    ensures
        match parts {
            Ok(list) => all_quad_parts(split@, total) == Ok::<Seq<QuadRegisterModel>, VkFftError>(
                quad_models(list@),
            ),
            Err(error) => all_quad_parts(split@, total) == Err::<
                Seq<QuadRegisterModel>,
                VkFftError,
            >(error),
        },
{
    let mut parts: Vec<DoubleDoubleQuadRegisterSchedule> = Vec::new();
    assert(quad_models(parts@) =~= Seq::empty());
    while parts.len() < split.len()
        invariant
            parts.len() <= split.len(),
            quad_parts(split@, total, quad_models(parts@)) == all_quad_parts(split@, total),
        decreases split.len() - parts.len(),
    {
        let ghost before = parts@;
        let len: usize = split[parts.len()];
        if len == 0 {
            return Err(
                VkFftError::InvalidKernelIr(
                    "double-double Stockham upload schedule metadata is inconsistent",
                ),
            );
        }
        let part: DoubleDoubleQuadRegisterSchedule = plan_gpu_double_double_quad_registers(
            len,
            total / len,
        )?;
        parts.push(part);
        assert(quad_models(parts@) =~= quad_models(before).push(part@));
    }
    Ok(parts)
}

/// The limits of a double-double axis, which convolutions do not change.
#[verifier::allow_in_spec]
pub fn double_double_limits(
    shared_bytes: usize,
    shared: usize,
    strided: usize,
    keep_boost: bool,
    policy: GpuSchedulerPolicy,
    context: StockhamUploadAxisContext,
) -> UploadLimits
    returns
        (UploadLimits {
            shared_bytes,
            complex_bytes: DD_COMPLEX_BYTES,
            coalesced_bytes: policy.coalesced_memory_bytes,
            shared,
            strided,
            boost_limit: if context.use_bluestein_fft {
                1
            } else {
                policy.register_boost
            },
            four_step_boost_limit: policy.register_boost_four_step,
            keep_boost,
            reorder_four_step: policy.reorder_four_step,
            perform_convolution: false,
            swap_to_two: policy.swap_to_two_stage_four_step,
            swap_to_three: policy.swap_to_three_stage_four_step,
        }),
{
    UploadLimits {
        shared_bytes,
        complex_bytes: DD_COMPLEX_BYTES,
        coalesced_bytes: policy.coalesced_memory_bytes,
        shared,
        strided,
        boost_limit: if context.use_bluestein_fft {
            1
        } else {
            policy.register_boost
        },
        four_step_boost_limit: policy.register_boost_four_step,
        keep_boost,
        reorder_four_step: policy.reorder_four_step,
        perform_convolution: false,
        swap_to_two: policy.swap_to_two_stage_four_step,
        swap_to_three: policy.swap_to_three_stage_four_step,
    }
}

/// Whether the factors from index `from` on keep to a limit.
pub open spec fn factors_within(split: Seq<usize>, from: int, limit: usize) -> bool {
    forall|i: int| from <= i < split.len() ==> #[trigger] split[i] <= limit
}

fn factors_keep_within(split: &Vec<usize>, from: usize, limit: usize) -> (within: bool)
    ensures
        within == factors_within(split@, from as int, limit),
{
    let mut index: usize = from;
    while index < split.len()
        invariant
            from <= index,
            forall|i: int| from <= i < index && i < split@.len() ==> #[trigger] split@[i] <= limit,
        decreases split.len() - index,
    {
        if split[index] > limit {
            assert(split@[index as int] > limit);
            return false;
        }
        index = index + 1;
    }
    true
}

/// Whether every factor of a three-upload split fits its upload.
pub open spec fn three_split_fits(
    split: Seq<usize>,
    limits: UploadLimits,
    shape: UploadShape,
    unit_stride: bool,
) -> bool {
    if unit_stride {
        split.len() > 0 && split[0] <= limits.shared && factors_within(split, 1, shape.max_strided)
    } else {
        factors_within(split, 0, shape.max_strided)
    }
}

fn three_split_is_executable(
    split: &Vec<usize>,
    limits: UploadLimits,
    shape: UploadShape,
    unit_stride: bool,
) -> (fits: bool)
    ensures
        fits == three_split_fits(split@, limits, shape, unit_stride),
{
    if unit_stride {
        split.len() > 0 && split[0] <= limits.shared && factors_keep_within(
            split,
            1,
            shape.max_strided,
        )
    } else {
        factors_keep_within(split, 0, shape.max_strided)
    }
}

/// The factors of a double-double axis. A three-upload power-of-two split that does not
/// fit is searched for again within the limits.
pub open spec fn double_double_axis_split(
    len: usize,
    limits: UploadLimits,
    shape: UploadShape,
    unit_stride: bool,
    device: DeviceProfile,
) -> PlanResult<Seq<usize>> {
    if !is_power_of_two(len) || shape.upload_count <= 1 {
        searched_axis_split(
            len,
            limits,
            shape,
            unit_stride,
            "double-double Stockham scheduler could not find a two-upload divisor split",
        )
    } else {
        match power_of_two_axis_split(len, limits, shape, unit_stride, device) {
            Err(error) => Err(error),
            Ok(split) => if shape.upload_count == 2
                || three_split_fits(split, limits, shape, unit_stride) {
                Ok(split)
            } else if unit_stride {
                unit_stride_split(len, limits.shared, shape.max_strided)
            } else {
                power_three_upload_split(len, shape.max_strided, shape.max_strided)
            },
        }
    }
}

fn split_double_double_axis(
    len: usize,
    limits: UploadLimits,
    shape: UploadShape,
    unit_stride: bool,
    device: DeviceProfile,
) -> (planned: PlanResult<Vec<usize>>)
    requires
        limits.shared > 0,
        shape.register_boost > 0,
    ensures
        viewed(planned) == double_double_axis_split(len, limits, shape, unit_stride, device),
{
    if !is_power_of_two(len) || shape.upload_count <= 1 {
        return split_searched_axis(
            len,
            limits,
            shape,
            unit_stride,
            "double-double Stockham scheduler could not find a two-upload divisor split",
        );
    }
    let split: Vec<usize> = split_power_of_two_axis(len, limits, shape, unit_stride, device)?;
    if shape.upload_count == 2 || three_split_is_executable(&split, limits, shape, unit_stride) {
        return Ok(split);
    }
    if unit_stride {
        return generic_three_upload_unit_stride_split(len, limits.shared, shape.max_strided);
    }
    generic_power_of_two_three_upload_split(len, shape.max_strided, shape.max_strided)
}

/// The upload schedule of a double-double axis.
#[verifier::opaque]
pub open spec fn double_double_uploads(
    sequence_len: usize,
    batch_count: usize,
    device: DeviceProfile,
    axis_context: StockhamUploadAxisContext,
) -> PlanResult<DoubleDoubleUploadModel> {
    if sequence_len < 2 {
        Err(
            VkFftError::UnsupportedKernelPath(
                "double-double Stockham upload scheduling requires N>=2",
            ),
        )
    } else if batch_count == 0 {
        Err(VkFftError::ZeroBatchCount)
    } else {
        match scheduler_policy(Precision::DoubleDouble, device) {
            Err(error) => Err(error),
            Ok(policy) => {
                let power = is_power_of_two(sequence_len);
                let shared_bytes = if power {
                    device.shared_memory_pow2_bytes
                } else {
                    device.shared_memory_bytes
                };
                if shared_bytes < DD_COMPLEX_BYTES {
                    Err(
                        VkFftError::ResourceLimitExceeded {
                            resource: "double-double Stockham upload shared memory",
                            required: DD_COMPLEX_BYTES,
                            available: shared_bytes,
                        },
                    )
                } else {
                    let shared = shared_bytes / DD_COMPLEX_BYTES;
                    let strided = strided_capacity(
                        shared_bytes,
                        DD_COMPLEX_BYTES,
                        policy.coalesced_memory_bytes,
                        shared,
                    );
                    if strided == 0 {
                        Err(
                            VkFftError::ResourceLimitExceeded {
                                resource: "double-double Stockham upload strided shared-memory capacity",
                                required: 1,
                                available: 0,
                            },
                        )
                    } else {
                        let keep_boost = power || policy.register_boost_non_power_of_two;
                        let limits = double_double_limits(
                            shared_bytes,
                            shared,
                            strided,
                            keep_boost,
                            policy,
                            axis_context,
                        );
                        match upload_shape(
                            sequence_len,
                            limits,
                            axis_context,
                            double_double_labels(),
                        ) {
                            Err(error) => Err(error),
                            Ok(shape) => {
                                let unit_stride = unit_stride_first(limits, axis_context);
                                match double_double_axis_split(
                                    sequence_len,
                                    limits,
                                    shape,
                                    unit_stride,
                                    device,
                                ) {
                                    Err(error) => Err(error),
                                    Ok(found_split) => {
                                        let axis_split = reordered_split(
                                            found_split,
                                            !power && shape.upload_count > 1 && !unit_stride,
                                        );
                                        match checked_mul(
                                            sequence_len,
                                            batch_count,
                                            "double-double Stockham upload total element count",
                                        ) {
                                            Err(error) => Err(error),
                                            Ok(total) => match all_quad_parts(axis_split, total) {
                                                Err(error) => Err(error),
                                                Ok(quad_schedules) => {
                                                    let schedule = DoubleDoubleUploadModel {
                                                        sequence_len,
                                                        batch_count,
                                                        used_shared_memory_bytes: shared_bytes,
                                                        max_sequence_len_shared: shared,
                                                        max_sequence_len_strided: strided,
                                                        register_boost: shape.register_boost,
                                                        upload_count: shape.upload_count,
                                                        axis_split,
                                                        quad_schedules,
                                                    };
                                                    match schedule.checked() {
                                                        Err(error) => Err(error),
                                                        Ok(_checked) => Ok(schedule),
                                                    }
                                                },
                                            },
                                        }
                                    },
                                }
                            },
                        }
                    }
                }
            },
        }
    }
}

pub fn plan_gpu_double_double_stockham_uploads_for_batches_with_axis_context(
    sequence_len: usize,
    batch_count: usize,
    device: DeviceProfile,
    axis_context: StockhamUploadAxisContext,
) -> (planned: PlanResult<DoubleDoubleStockhamUploadSchedule>)
    ensures
        viewed(planned) == double_double_uploads(sequence_len, batch_count, device, axis_context),
{
    reveal(double_double_uploads);
    if sequence_len < 2 {
        return Err(
            VkFftError::UnsupportedKernelPath(
                "double-double Stockham upload scheduling requires N>=2",
            ),
        );
    }
    if batch_count == 0 {
        return Err(VkFftError::ZeroBatchCount);
    }
    let policy: GpuSchedulerPolicy = plan_gpu_scheduler_policy(Precision::DoubleDouble, device)?;
    let power: bool = is_power_of_two(sequence_len);
    let shared_bytes: usize = if power {
        device.shared_memory_pow2_bytes
    } else {
        device.shared_memory_bytes
    };
    if shared_bytes < DD_COMPLEX_BYTES {
        return Err(
            VkFftError::ResourceLimitExceeded {
                resource: "double-double Stockham upload shared memory",
                required: DD_COMPLEX_BYTES,
                available: shared_bytes,
            },
        );
    }
    let shared: usize = shared_bytes / DD_COMPLEX_BYTES;
    let strided: usize = strided_capacity(
        shared_bytes,
        DD_COMPLEX_BYTES,
        policy.coalesced_memory_bytes,
        shared,
    );
    if strided == 0 {
        return Err(
            VkFftError::ResourceLimitExceeded {
                resource: "double-double Stockham upload strided shared-memory capacity",
                required: 1,
                available: 0,
            },
        );
    }
    let keep_boost: bool = power || policy.register_boost_non_power_of_two;
    let limits: UploadLimits = double_double_limits(
        shared_bytes,
        shared,
        strided,
        keep_boost,
        policy,
        axis_context,
    );
    let shape: UploadShape = plan_upload_shape(
        sequence_len,
        limits,
        axis_context,
        double_double_labels(),
    )?;
    let unit_stride: bool = unit_stride_first(limits, axis_context);
    let found_split: Vec<usize> = split_double_double_axis(
        sequence_len,
        limits,
        shape,
        unit_stride,
        device,
    )?;
    let axis_split: Vec<usize> = reordered(
        found_split,
        !power && shape.upload_count > 1 && !unit_stride,
    );
    let total: usize = checked_mul(
        sequence_len,
        batch_count,
        "double-double Stockham upload total element count",
    )?;
    let quad_schedules: Vec<DoubleDoubleQuadRegisterSchedule> = plan_quad_parts(
        &axis_split,
        total,
    )?;
    let schedule: DoubleDoubleStockhamUploadSchedule = DoubleDoubleStockhamUploadSchedule {
        sequence_len,
        batch_count,
        used_shared_memory_bytes: shared_bytes,
        max_sequence_len_shared: shared,
        max_sequence_len_strided: strided,
        register_boost: shape.register_boost,
        upload_count: shape.upload_count,
        axis_split,
        quad_schedules,
    };
    let _checked: () = schedule.validate()?;
    Ok(schedule)
}

/// The same for a contiguous axis of a plain transform.
pub open spec fn double_double_uploads_plain(
    sequence_len: usize,
    batch_count: usize,
    device: DeviceProfile,
) -> PlanResult<DoubleDoubleUploadModel> {
    double_double_uploads(sequence_len, batch_count, device, plain_context())
}

pub fn plan_gpu_double_double_stockham_uploads_for_batches(
    sequence_len: usize,
    batch_count: usize,
    device: DeviceProfile,
) -> (planned: PlanResult<DoubleDoubleStockhamUploadSchedule>)
    ensures
        viewed(planned) == double_double_uploads_plain(sequence_len, batch_count, device),
{
    plan_gpu_double_double_stockham_uploads_for_batches_with_axis_context(
        sequence_len,
        batch_count,
        device,
        plain_context(),
    )
}

} // verus!
