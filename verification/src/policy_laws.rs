//! How the policies of two devices or two precisions relate, and what each vendor's own
//! policy holds.

use vstd::prelude::*;

use crate::config::{Backend, DeviceProfile, GpuVendor, Precision};
use crate::direct_rader::dimension_limit;
use crate::policy::{scheduler_policy, StockhamTwiddleSource};
use crate::stockham_blocks::{
    double_double_stockham_usable_shared_memory_bytes, lane_limit, LaneAxis,
};
use crate::upload_count::{effective_bandwidth_boost, StockhamUploadAxisContext};
use crate::uploads::ordinary_limits;

verus! {

/// Only these pairs have a policy: NVIDIA under Vulkan, OpenCL and CUDA, AMD under Vulkan,
/// OpenCL and HIP, Intel under Vulkan, OpenCL and Level Zero, Apple under Metal.
pub proof fn policies_cover_known_hardware(precision: Precision, device: DeviceProfile)
    ensures
        scheduler_policy(precision, device) is Ok <==> {
            ||| device.vendor == GpuVendor::Nvidia && (device.backend == Backend::Vulkan
                || device.backend == Backend::OpenCl || device.backend == Backend::Cuda)
            ||| device.vendor == GpuVendor::Amd && (device.backend == Backend::Vulkan
                || device.backend == Backend::OpenCl || device.backend == Backend::Hip)
            ||| device.vendor == GpuVendor::Intel && (device.backend == Backend::Vulkan
                || device.backend == Backend::OpenCl || device.backend == Backend::LevelZero)
            ||| device.vendor == GpuVendor::Apple && device.backend == Backend::Metal
        },
{
}

/// What a vendor's policy holds. NVIDIA and AMD hardware moves 32 bytes at once, other
/// hardware 64. A subgroup is what the runtime reports under HIP, Level Zero and Metal, else
/// 64 lanes on AMD and 32 elsewhere. Vulkan and OpenCL boost registers the more the less
/// shared memory a device has, NVIDIA always by 4; CUDA, HIP and Metal never boost.
pub proof fn policies_follow_the_hardware(precision: Precision, device: DeviceProfile)
    requires
        precision != Precision::F16StorageF32Compute,
    ensures
        scheduler_policy(precision, device) matches Ok(policy) ==> {
            let small = device.shared_memory_bytes < 65_536;
            &&& policy.coalesced_memory_bytes == if device.vendor == GpuVendor::Nvidia
                || device.vendor == GpuVendor::Amd {
                32usize
            } else {
                64
            }
            &&& policy.subgroup_width == if device.backend == Backend::Hip || device.backend
                == Backend::LevelZero || device.backend == Backend::Metal {
                if device.subgroup.size > 0 {
                    device.subgroup.size
                } else if device.backend == Backend::Hip {
                    64
                } else {
                    1
                }
            } else if device.vendor == GpuVendor::Amd {
                64
            } else {
                32
            }
            &&& policy.register_boost == if device.backend == Backend::Cuda || device.backend
                == Backend::Hip || device.backend == Backend::Metal {
                1usize
            } else if device.vendor == GpuVendor::Nvidia || (device.vendor == GpuVendor::Amd
                && small) {
                4
            } else if device.vendor == GpuVendor::Amd || small {
                2
            } else {
                1
            }
            &&& policy.register_boost_four_step == 1
            &&& !policy.register_boost_non_power_of_two
            &&& policy.reorder_four_step
            &&& device.vendor == GpuVendor::Nvidia ==> policy.swap_to_three_stage_four_step
                == 4_194_305
        },
{
}

/// How a device's policies differ between precisions. Half storage moves twice the bytes at
/// once. Storage in double precision halves the threshold of three uploads except on NVIDIA
/// hardware, where every precision shares one; single storage keeps it whatever it computes
/// in. Under HIP the threshold is four times as high as on other hardware.
pub proof fn precisions_scale_the_policy(
    precision: Precision,
    device: DeviceProfile,
)
    ensures
        scheduler_policy(Precision::F32, device) matches Ok(single) ==> {
            let other = scheduler_policy(precision, device)->Ok_0;
            let doubled = precision == Precision::F64 || precision == Precision::DoubleDouble
                || precision == Precision::DoubleDoubleF64Storage;
            &&& scheduler_policy(precision, device) is Ok
            &&& other.register_boost == single.register_boost
            &&& other.subgroup_width == single.subgroup_width
            &&& other.coalesced_memory_bytes == single.coalesced_memory_bytes * (if precision
                == Precision::F16StorageF32Compute {
                2int
            } else {
                1
            })
            &&& other.swap_to_two_stage_four_step == other.swap_to_three_stage_four_step
            &&& other.swap_to_three_stage_four_step * (if doubled && device.vendor
                != GpuVendor::Nvidia {
                2int
            } else {
                1
            }) == single.swap_to_three_stage_four_step
            &&& device.vendor != GpuVendor::Nvidia ==> single.swap_to_three_stage_four_step
                == if device.backend == Backend::Hip {
                4 * 524_288int
            } else {
                524_288
            }
        },
{
}

/// Twiddles come from a table exactly on Intel hardware and in precisions computed in at
/// least double precision. Those between uploads come from the same place, except that HIP
/// computes them on the fly.
pub proof fn twiddles_are_tabled_by_precision(precision: Precision, device: DeviceProfile)
    ensures
        scheduler_policy(precision, device) matches Ok(policy) ==> {
            &&& policy.stockham_twiddle_source == StockhamTwiddleSource::LookupTable <==> {
                ||| device.vendor == GpuVendor::Intel
                ||| precision.compute_complex_bytes() >= 16
            }
            &&& policy.four_step_twiddle_source == StockhamTwiddleSource::LookupTable <==> {
                &&& device.backend != Backend::Hip
                &&& device.vendor == GpuVendor::Intel || precision.compute_complex_bytes() >= 16
            }
        },
        scheduler_policy(precision, device) is Err ==> crate::policy::stockham_twiddle_source(
            precision,
            device,
        ) == StockhamTwiddleSource::OnTheFly,
        scheduler_policy(precision, device) matches Ok(policy)
            ==> crate::policy::stockham_twiddle_source(precision, device)
            == policy.stockham_twiddle_source,
{
}


/// Double-double kernels use all shared memory, except that NVIDIA's OpenCL compiler keeps
/// one complex value of 32 bytes for itself.
pub proof fn one_value_is_kept_by_the_compiler(device: DeviceProfile)
    ensures
        ({
            let usable = double_double_stockham_usable_shared_memory_bytes(device);
            let keeps = device.backend == Backend::OpenCl && device.vendor == GpuVendor::Nvidia;
            &&& !keeps ==> usable == device.shared_memory_bytes
            &&& keeps && device.shared_memory_bytes >= 32 ==> usable + 32
                == device.shared_memory_bytes
            &&& keeps && device.shared_memory_bytes < 32 ==> usable == 0
        }),
{
}

/// The lanes of a workgroup along one dimension are the fewer of all its lanes and of that
/// dimension.
pub proof fn lanes_keep_to_both_limits(lanes: LaneAxis, device: DeviceProfile)
    ensures
        ({
            let extent = if lanes == LaneAxis::X {
                device.max_workgroup_size[0]
            } else {
                device.max_workgroup_size[1]
            };
            let limit = lane_limit(lanes, device);
            &&& limit <= extent && limit <= device.max_threads_per_block
            &&& limit == extent || limit == device.max_threads_per_block
            &&& lanes == LaneAxis::X ==> limit == dimension_limit(
                device,
                device.max_workgroup_size[0],
            )
        }),
{
}

/// Only strided axes narrow their transactions: by the factor asked for, and a Bluestein
/// transform by 1 where none is.
pub proof fn only_strided_axes_narrow(context: StockhamUploadAxisContext)
    ensures
        ({
            let boost = effective_bandwidth_boost(context);
            &&& boost > 0 ==> context.strided_axis
            &&& context.strided_axis && context.bandwidth_boost > 0 ==> boost
                == context.bandwidth_boost
            &&& context.strided_axis && context.bandwidth_boost == 0 ==> (boost == 1
                <==> context.use_bluestein_fft) && (boost == 0 <==> !context.use_bluestein_fft)
        }),
{
}

/// Which limits an axis plans with: a Bluestein or convolution kernel boosts no register, a
/// convolution boosts none across uploads and does not reorder them, and every axis moves the
/// bytes of its policy at once.
pub proof fn limits_follow_the_context(
    shared_bytes: usize,
    complex_bytes: usize,
    shared: usize,
    strided: usize,
    keep_boost: bool,
    precision: Precision,
    device: DeviceProfile,
    context: StockhamUploadAxisContext,
)
    requires
        scheduler_policy(precision, device) is Ok,
    ensures
        ({
            let policy = scheduler_policy(precision, device)->Ok_0;
            let limits = ordinary_limits(
                shared_bytes,
                complex_bytes,
                shared,
                strided,
                keep_boost,
                policy,
                context,
            );
            &&& limits.shared == shared && limits.strided == strided
            &&& limits.shared_bytes == shared_bytes && limits.complex_bytes == complex_bytes
            &&& limits.coalesced_bytes == policy.coalesced_memory_bytes
            &&& limits.boost_limit == if context.use_bluestein_fft || context.perform_convolution {
                1
            } else {
                policy.register_boost
            }
            &&& limits.four_step_boost_limit == 1
            &&& limits.reorder_four_step == !context.perform_convolution
            &&& limits.perform_convolution == context.perform_convolution
            &&& limits.swap_to_two == limits.swap_to_three
            &&& limits.swap_to_three == policy.swap_to_three_stage_four_step
        }),
{
}

} // verus!
