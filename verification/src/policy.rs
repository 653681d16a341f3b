//! Scheduling defaults per backend and vendor.

use vstd::prelude::*;

use crate::arith::umax;
use crate::config::{
    has_fixed_upstream_gpu_scheduler_profile, upstream_coalesced_memory_bytes_for_precision,
    Backend, DeviceProfile, GpuVendor, Precision,
};
use crate::error::{PlanResult, VkFftError};

verus! {

/// Where a kernel takes its twiddle factors from.
#[derive(Debug, Clone, Copy, PartialEq, Eq, Structural)]
pub enum StockhamTwiddleSource {
    OnTheFly,
    LookupTable,
}

/// Scheduling defaults of one backend and vendor.
#[derive(Debug, Clone, Copy, PartialEq, Eq, Structural)]
pub struct GpuSchedulerPolicy {
    pub register_boost: usize,
    pub register_boost_four_step: usize,
    pub register_boost_non_power_of_two: bool,
    pub reorder_four_step: bool,
    pub swap_to_two_stage_four_step: usize,
    pub swap_to_three_stage_four_step: usize,
    pub subgroup_width: usize,
    pub coalesced_memory_bytes: usize,
    pub stockham_twiddle_source: StockhamTwiddleSource,
    pub four_step_twiddle_source: StockhamTwiddleSource,
}

/// Precisions computed in at least double precision, whose twiddles come from a table.
#[verifier::allow_in_spec]
pub fn precision_uses_lut(precision: Precision) -> bool
    returns
        !(precision is F32 || precision is F16StorageF32Compute),
{
    match precision {
        Precision::F32 | Precision::F16StorageF32Compute => false,
        _ => true,
    }
}

/// Precisions stored in at least double precision, which split long axes earlier.
#[verifier::allow_in_spec]
pub fn splits_long_axes_early(precision: Precision) -> bool
    returns
        precision is F64 || precision is DoubleDouble || precision is DoubleDoubleF64Storage,
{
    match precision {
        Precision::F64 | Precision::DoubleDouble | Precision::DoubleDoubleF64Storage => true,
        _ => false,
    }
}

pub open spec fn has_specialized_policy(device: DeviceProfile) -> bool {
    crate::config::has_fixed_profile(device.backend, device.vendor)
}

/// Whether a backend and vendor pair has a policy of its own.
pub fn has_specialized_gpu_scheduler_policy(device: DeviceProfile) -> (known: bool)
    ensures
        known == has_specialized_policy(device),
{
    has_fixed_upstream_gpu_scheduler_profile(device)
}

/// How many times its shared memory a single upload may keep in registers.
#[verifier::allow_in_spec]
pub fn default_register_boost(device: DeviceProfile) -> usize
    returns
        (match device.backend {
            Backend::Vulkan | Backend::OpenCl => match device.vendor {
                GpuVendor::Nvidia => 4usize,
                GpuVendor::Amd => if device.shared_memory_bytes >= 65_536 {
                    2
                } else {
                    4
                },
                GpuVendor::Intel => if device.shared_memory_bytes >= 65_536 {
                    1
                } else {
                    2
                },
                _ => 1,
            },
            Backend::LevelZero => if device.shared_memory_bytes >= 65_536 {
                1
            } else {
                2
            },
            _ => 1,
        }),
{
    match device.backend {
        Backend::Vulkan | Backend::OpenCl => match device.vendor {
            GpuVendor::Nvidia => 4,
            GpuVendor::Amd => if device.shared_memory_bytes >= 65_536 {
                2
            } else {
                4
            },
            GpuVendor::Intel => if device.shared_memory_bytes >= 65_536 {
                1
            } else {
                2
            },
            _ => 1,
        },
        Backend::LevelZero => if device.shared_memory_bytes >= 65_536 {
            1
        } else {
            2
        },
        _ => 1,
    }
}

/// The length from which an axis takes more uploads than capacity alone asks for.
#[verifier::allow_in_spec]
pub fn default_four_step_swap(precision: Precision, device: DeviceProfile) -> usize
    returns
        (match (device.backend, device.vendor) {
            (Backend::Vulkan, GpuVendor::Nvidia) | (Backend::OpenCl, GpuVendor::Nvidia) | (
                Backend::Cuda,
                _,
            ) => 4_194_305usize,
            (Backend::Hip, _) => if splits_long_axes_early(precision) {
                1_048_576
            } else {
                2_097_152
            },
            _ => if splits_long_axes_early(precision) {
                262_144
            } else {
                524_288
            },
        }),
{
    match (device.backend, device.vendor) {
        (Backend::Vulkan, GpuVendor::Nvidia) | (Backend::OpenCl, GpuVendor::Nvidia) | (
            Backend::Cuda,
            _,
        ) => 4_194_305,
        (Backend::Hip, _) => if splits_long_axes_early(precision) {
            1_048_576
        } else {
            2_097_152
        },
        _ => if splits_long_axes_early(precision) {
            262_144
        } else {
            524_288
        },
    }
}

/// Lanes that execute in lockstep. HIP, Level Zero and Metal devices report theirs.
#[verifier::allow_in_spec]
pub fn default_subgroup_width(device: DeviceProfile) -> usize
    returns
        (match device.backend {
            Backend::Vulkan | Backend::OpenCl => if device.vendor == GpuVendor::Amd {
                64usize
            } else {
                32
            },
            Backend::Hip => if device.subgroup.size == 0 {
                64
            } else {
                device.subgroup.size
            },
            Backend::LevelZero | Backend::Metal => umax(device.subgroup.size, 1),
            _ => 32,
        }),
{
    match device.backend {
        Backend::Vulkan | Backend::OpenCl => if device.vendor == GpuVendor::Amd {
            64
        } else {
            32
        },
        Backend::Hip => if device.subgroup.size == 0 {
            64
        } else {
            device.subgroup.size
        },
        Backend::LevelZero | Backend::Metal => umax(device.subgroup.size, 1),
        _ => 32,
    }
}

/// Intel hardware reads every twiddle from a table; elsewhere the precision decides.
#[verifier::allow_in_spec]
pub fn default_twiddle_source(precision: Precision, device: DeviceProfile) -> StockhamTwiddleSource
    returns
        (match (device.backend, device.vendor) {
            (Backend::Vulkan, GpuVendor::Intel) | (Backend::OpenCl, GpuVendor::Intel) | (
                Backend::LevelZero,
                _,
            ) => StockhamTwiddleSource::LookupTable,
            _ => if precision_uses_lut(precision) {
                StockhamTwiddleSource::LookupTable
            } else {
                StockhamTwiddleSource::OnTheFly
            },
        }),
{
    match (device.backend, device.vendor) {
        (Backend::Vulkan, GpuVendor::Intel) | (Backend::OpenCl, GpuVendor::Intel) | (
            Backend::LevelZero,
            _,
        ) => StockhamTwiddleSource::LookupTable,
        _ => if precision_uses_lut(precision) {
            StockhamTwiddleSource::LookupTable
        } else {
            StockhamTwiddleSource::OnTheFly
        },
    }
}

/// The policy of a known backend and vendor pair. Physical limits stay in the device
/// profile; only the policy's own numbers are fixed here.
pub open spec fn scheduler_policy(
    precision: Precision,
    device: DeviceProfile,
) -> PlanResult<GpuSchedulerPolicy> {
    if !has_specialized_policy(device) {
        Err(
            VkFftError::UnsupportedKernelPath(
                "fixed upstream scheduler policy is unavailable for this backend/vendor pair",
            ),
        )
    } else {
        Ok(
            GpuSchedulerPolicy {
                register_boost: default_register_boost(device),
                register_boost_four_step: 1,
                register_boost_non_power_of_two: false,
                reorder_four_step: true,
                swap_to_two_stage_four_step: default_four_step_swap(precision, device),
                swap_to_three_stage_four_step: default_four_step_swap(precision, device),
                subgroup_width: default_subgroup_width(device),
                coalesced_memory_bytes: crate::config::coalesced_bytes_for(device, precision),
                stockham_twiddle_source: default_twiddle_source(precision, device),
                four_step_twiddle_source: if device.backend == Backend::Hip {
                    StockhamTwiddleSource::OnTheFly
                } else {
                    default_twiddle_source(precision, device)
                },
            },
        )
    }
}

pub fn plan_gpu_scheduler_policy(precision: Precision, device: DeviceProfile) -> (policy:
    PlanResult<GpuSchedulerPolicy>)
    ensures
        policy == scheduler_policy(precision, device),
{
    if !has_specialized_gpu_scheduler_policy(device) {
        return Err(
            VkFftError::UnsupportedKernelPath(
                "fixed upstream scheduler policy is unavailable for this backend/vendor pair",
            ),
        );
    }
    let swap: usize = default_four_step_swap(precision, device);
    let twiddle: StockhamTwiddleSource = default_twiddle_source(precision, device);
    Ok(
        GpuSchedulerPolicy {
            register_boost: default_register_boost(device),
            register_boost_four_step: 1,
            register_boost_non_power_of_two: false,
            reorder_four_step: true,
            swap_to_two_stage_four_step: swap,
            swap_to_three_stage_four_step: swap,
            subgroup_width: default_subgroup_width(device),
            coalesced_memory_bytes: upstream_coalesced_memory_bytes_for_precision(
                device,
                precision,
            ),
            stockham_twiddle_source: twiddle,
            four_step_twiddle_source: if device.backend == Backend::Hip {
                StockhamTwiddleSource::OnTheFly
            } else {
                twiddle
            },
        },
    )
}

/// What every policy guarantees: it exists exactly for the known pairs, boosts by 1, 2 or
/// 4 and never across uploads, and keeps the two four-step thresholds together and
/// high enough to force three uploads.
pub proof fn policy_bounds(precision: Precision, device: DeviceProfile)
    ensures
        scheduler_policy(precision, device) is Ok <==> has_specialized_policy(device),
        scheduler_policy(precision, device) matches Ok(policy) ==> {
            &&& policy.register_boost == 1 || policy.register_boost == 2 || policy.register_boost
                == 4
            &&& policy.register_boost_four_step == 1
            &&& !policy.register_boost_non_power_of_two
            &&& policy.reorder_four_step
            &&& policy.swap_to_two_stage_four_step == policy.swap_to_three_stage_four_step
            &&& policy.swap_to_three_stage_four_step >= 262_144
            &&& policy.subgroup_width >= 1
            &&& policy.coalesced_memory_bytes >= 32
        },
{
}

/// Where Stockham stage twiddles come from; on the fly where there is no policy.
pub open spec fn stockham_twiddle_source(
    precision: Precision,
    device: DeviceProfile,
) -> StockhamTwiddleSource {
    match scheduler_policy(precision, device) {
        Ok(policy) => policy.stockham_twiddle_source,
        Err(_) => StockhamTwiddleSource::OnTheFly,
    }
}

pub fn plan_gpu_stockham_twiddle_source(precision: Precision, device: DeviceProfile) -> (source:
    StockhamTwiddleSource)
    ensures
        source == stockham_twiddle_source(precision, device),
{
    match plan_gpu_scheduler_policy(precision, device) {
        Ok(policy) => policy.stockham_twiddle_source,
        Err(_) => StockhamTwiddleSource::OnTheFly,
    }
}

/// Whether the device is driven by the NVIDIA Vulkan entry points.
#[verifier::allow_in_spec]
pub fn is_nvidia_vulkan(device: DeviceProfile) -> bool
    returns
        device.backend == Backend::Vulkan && device.vendor == GpuVendor::Nvidia,
{
    device.backend == Backend::Vulkan && device.vendor == GpuVendor::Nvidia
}

pub fn plan_nvidia_vulkan_stockham_twiddle_source(
    precision: Precision,
    device: DeviceProfile,
) -> (source: StockhamTwiddleSource)
    ensures
        source == (if is_nvidia_vulkan(device) {
            stockham_twiddle_source(precision, device)
        } else {
            StockhamTwiddleSource::OnTheFly
        }),
{
    if is_nvidia_vulkan(device) {
        plan_gpu_stockham_twiddle_source(precision, device)
    } else {
        StockhamTwiddleSource::OnTheFly
    }
}

/// Scheduling knobs of NVIDIA Vulkan devices.
#[derive(Debug, Clone, Copy, PartialEq, Eq, Structural)]
pub struct NvidiaVulkanSchedulerTuning {
    pub register_boost: usize,
    pub register_boost_four_step: usize,
    pub register_boost_non_power_of_two: bool,
    pub reorder_four_step: bool,
    pub swap_to_two_stage_four_step: usize,
    pub swap_to_three_stage_four_step: usize,
}

impl Default for NvidiaVulkanSchedulerTuning {
    /// The single precision policy of an NVIDIA Vulkan device.
    fn default() -> (tuning: Self)
        ensures
            tuning == (NvidiaVulkanSchedulerTuning {
                register_boost: 4,
                register_boost_four_step: 1,
                register_boost_non_power_of_two: false,
                reorder_four_step: true,
                swap_to_two_stage_four_step: 4_194_305,
                swap_to_three_stage_four_step: 4_194_305,
            }),
    {
        let device: DeviceProfile = DeviceProfile::generic(Backend::Vulkan, GpuVendor::Nvidia);
        let swap: usize = default_four_step_swap(Precision::F32, device);
        NvidiaVulkanSchedulerTuning {
            register_boost: default_register_boost(device),
            register_boost_four_step: 1,
            register_boost_non_power_of_two: false,
            reorder_four_step: true,
            swap_to_two_stage_four_step: swap,
            swap_to_three_stage_four_step: swap,
        }
    }
}

} // verus!
