//! Device and precision description that every planning function consumes.

use vstd::prelude::*;
use crate::error::{PlanResult, VkFftError};

verus! {

/// Compute API a plan is made for.
#[derive(Debug, Clone, Copy, PartialEq, Eq, Structural)]
pub enum Backend {
    Vulkan,
    OpenCl,
    Cuda,
    Hip,
    LevelZero,
    Metal,
    CpuReference,
}

/// Hardware vendor; `Other` carries the PCI vendor id.
#[derive(Debug, Clone, Copy, PartialEq, Eq, Structural)]
pub enum GpuVendor {
    Nvidia,
    Amd,
    Intel,
    Apple,
    Other(u32),
}

/// Storage and compute precision of a transform.
#[derive(Debug, Clone, Copy, PartialEq, Eq, Structural)]
pub enum Precision {
    F16StorageF32Compute,
    F32,
    F64,
    F64ComputeF32Storage,
    DoubleDouble,
    DoubleDoubleF64Storage,
}

impl Precision {
    /// Bytes one complex value occupies while it is being computed on.
    #[verifier::allow_in_spec]
    pub fn compute_complex_bytes(self) -> usize
        returns
            (match self {
                Precision::F16StorageF32Compute | Precision::F32 => 8usize,
                Precision::F64 | Precision::F64ComputeF32Storage => 16,
                Precision::DoubleDouble | Precision::DoubleDoubleF64Storage => 32,
            }),
    {
        match self {
            Precision::F16StorageF32Compute | Precision::F32 => 8,
            Precision::F64 | Precision::F64ComputeF32Storage => 16,
            Precision::DoubleDouble | Precision::DoubleDoubleF64Storage => 32,
        }
    }

    /// Whether values are computed as pairs of doubles.
    #[verifier::allow_in_spec]
    pub fn is_double_double(self) -> bool
        returns
            self is DoubleDouble || self is DoubleDoubleF64Storage,
    {
        match self {
            Precision::DoubleDouble | Precision::DoubleDoubleF64Storage => true,
            _ => false,
        }
    }
}

/// The name errors give a precision.
#[verifier::allow_in_spec]
pub fn precision_name(precision: Precision) -> &'static str
    returns
        (match precision {
            Precision::F16StorageF32Compute => "f16-storage/f32-compute",
            Precision::F32 => "f32",
            Precision::F64 => "f64",
            Precision::F64ComputeF32Storage => "f64-compute/f32-storage",
            Precision::DoubleDouble => "double-double",
            Precision::DoubleDoubleF64Storage => "double-double/f64-storage",
        }),
{
    match precision {
        Precision::F16StorageF32Compute => "f16-storage/f32-compute",
        Precision::F32 => "f32",
        Precision::F64 => "f64",
        Precision::F64ComputeF32Storage => "f64-compute/f32-storage",
        Precision::DoubleDouble => "double-double",
        Precision::DoubleDoubleF64Storage => "double-double/f64-storage",
    }
}

/// Subgroup (warp, wave) capabilities reported by a device.
#[derive(Debug, Clone, Copy, PartialEq, Eq)]
pub struct SubgroupProfile {
    pub size: usize,
    pub min_size: usize,
    pub max_size: usize,
    pub required_size_compute_supported: bool,
    pub compute_supported: bool,
    pub basic_supported: bool,
    pub shuffle_supported: bool,
    pub shuffle_relative_supported: bool,
    pub compute_full_subgroups: bool,
}

/// Physical limits of one device.
#[derive(Debug, Clone, Copy, PartialEq, Eq)]
pub struct DeviceProfile {
    pub backend: Backend,
    pub vendor: GpuVendor,
    pub max_threads_per_block: usize,
    pub max_workgroup_size: [usize; 3],
    pub shared_memory_bytes: usize,
    pub shared_memory_pow2_bytes: usize,
    pub coalesced_memory_bytes: usize,
    pub shared_banks: usize,
    pub supports_f64: bool,
    pub subgroup: SubgroupProfile,
}

impl DeviceProfile {
    /// Conservative limits for a backend and vendor whose device was not queried.
    pub fn generic(backend: Backend, vendor: GpuVendor) -> (device: Self)
        ensures
            device.backend == backend,
            device.vendor == vendor,
            device.max_threads_per_block == 256,
            device.max_workgroup_size@ == seq![256usize, 256, 64],
            device.shared_memory_bytes == 32_768,
            device.shared_memory_pow2_bytes == 32_768,
            device.coalesced_memory_bytes == coalesced_bytes(device),
            device.shared_banks == 32,
            !device.supports_f64,
            device.subgroup == (SubgroupProfile {
                size: 0,
                min_size: 0,
                max_size: 0,
                required_size_compute_supported: false,
                compute_supported: false,
                basic_supported: false,
                shuffle_supported: false,
                shuffle_relative_supported: false,
                compute_full_subgroups: false,
            }),
    {
        let mut device = DeviceProfile {
            backend,
            vendor,
            max_threads_per_block: 256,
            max_workgroup_size: [256, 256, 64],
            shared_memory_bytes: 32_768,
            shared_memory_pow2_bytes: 32_768,
            coalesced_memory_bytes: 0,
            shared_banks: 32,
            supports_f64: false,
            subgroup: SubgroupProfile {
                size: 0,
                min_size: 0,
                max_size: 0,
                required_size_compute_supported: false,
                compute_supported: false,
                basic_supported: false,
                shuffle_supported: false,
                shuffle_relative_supported: false,
                compute_full_subgroups: false,
            },
        };
        device.coalesced_memory_bytes = upstream_coalesced_memory_bytes(device);
        device
    }
}

/// Which primes the planner sends through direct and FFT based Rader stages.
/// Both ranges include their minimum and exclude their maximum.
#[derive(Debug, Clone, Copy, PartialEq, Eq, Structural)]
pub struct PlannerTuning {
    pub min_rader_direct_prime: usize,
    pub max_rader_direct_prime: usize,
    pub min_rader_fft_prime: usize,
    pub max_rader_fft_prime: usize,
    pub allow_recursive_fft_rader: bool,
}

impl PlannerTuning {
    /// The ranges used when nothing is known of the device.
    pub open spec fn portable_ranges() -> PlannerTuning {
        PlannerTuning {
            min_rader_direct_prime: 17,
            max_rader_direct_prime: 89,
            min_rader_fft_prime: 17,
            max_rader_fft_prime: 16_384,
            allow_recursive_fft_rader: false,
        }
    }

    pub fn portable() -> (tuning: Self)
        ensures
            tuning == Self::portable_ranges(),
    {
        PlannerTuning {
            min_rader_direct_prime: 17,
            max_rader_direct_prime: 89,
            min_rader_fft_prime: 17,
            max_rader_fft_prime: 16_384,
            allow_recursive_fft_rader: false,
        }
    }

    /// The portable ranges, with the direct range moved down to `11..29` where one
    /// complex value is a double-double pair.
    pub fn for_device(device: DeviceProfile, precision: Precision) -> (tuning: Self)
        ensures
            tuning == upstream_effective_tuning(
                if precision.is_double_double() {
                    PlannerTuning {
                        min_rader_direct_prime: 11,
                        max_rader_direct_prime: 29,
                        ..Self::portable_ranges()
                    }
                } else {
                    Self::portable_ranges()
                },
                device,
            ),
    {
        let mut tuning = Self::portable();
        if precision.is_double_double() {
            tuning.min_rader_direct_prime = 11;
            tuning.max_rader_direct_prime = 29;
        }
        upstream_effective_rader_tuning(tuning, device, precision)
    }

    pub fn with_recursive_fft_rader(self, allowed: bool) -> (tuning: Self)
        ensures
            tuning == (PlannerTuning { allow_recursive_fft_rader: allowed, ..self }),
    {
        PlannerTuning { allow_recursive_fft_rader: allowed, ..self }
    }

    /// Both prime ranges run upwards and start at a prime a Rader stage can hold.
    pub open spec fn valid(self) -> bool {
        &&& 2 < self.min_rader_direct_prime <= self.max_rader_direct_prime
        &&& 2 < self.min_rader_fft_prime <= self.max_rader_fft_prime
    }

    pub fn validate(&self) -> (checked: PlanResult<()>)
        ensures
            checked == (if self.valid() {
                Ok(())
            } else {
                Err(VkFftError::InvalidKernelIr("planner Rader prime ranges are empty or reversed"))
            }),
    {
        if self.min_rader_direct_prime <= 2 || self.min_rader_fft_prime <= 2
            || self.min_rader_direct_prime > self.max_rader_direct_prime
            || self.min_rader_fft_prime > self.max_rader_fft_prime {
            return Err(
                VkFftError::InvalidKernelIr("planner Rader prime ranges are empty or reversed"),
            );
        }
        Ok(())
    }
}

/// Backend and vendor pairs whose scheduling defaults are known.
pub open spec fn has_fixed_profile(backend: Backend, vendor: GpuVendor) -> bool {
    match backend {
        Backend::Vulkan | Backend::OpenCl => vendor == GpuVendor::Nvidia || vendor == GpuVendor::Amd
            || vendor == GpuVendor::Intel,
        Backend::Cuda => vendor == GpuVendor::Nvidia,
        Backend::Hip => vendor == GpuVendor::Amd,
        Backend::LevelZero => vendor == GpuVendor::Intel,
        Backend::Metal => vendor == GpuVendor::Apple,
        Backend::CpuReference => false,
    }
}

pub fn has_fixed_upstream_gpu_scheduler_profile(device: DeviceProfile) -> (known: bool)
    ensures
        known == has_fixed_profile(device.backend, device.vendor),
{
    match device.backend {
        Backend::Vulkan | Backend::OpenCl => device.vendor == GpuVendor::Nvidia || device.vendor
            == GpuVendor::Amd || device.vendor == GpuVendor::Intel,
        Backend::Cuda => device.vendor == GpuVendor::Nvidia,
        Backend::Hip => device.vendor == GpuVendor::Amd,
        Backend::LevelZero => device.vendor == GpuVendor::Intel,
        Backend::Metal => device.vendor == GpuVendor::Apple,
        Backend::CpuReference => false,
    }
}

/// Bytes one coalesced memory transaction moves on NVIDIA and AMD hardware is 32, and
/// 64 elsewhere.
pub open spec fn coalesced_bytes(device: DeviceProfile) -> usize {
    match device.backend {
        Backend::Vulkan | Backend::OpenCl => if device.vendor == GpuVendor::Nvidia || device.vendor
            == GpuVendor::Amd {
            32
        } else {
            64
        },
        Backend::Cuda | Backend::Hip => 32,
        Backend::LevelZero | Backend::Metal | Backend::CpuReference => 64,
    }
}

pub fn upstream_coalesced_memory_bytes(device: DeviceProfile) -> (bytes: usize)
    ensures
        bytes == coalesced_bytes(device),
{
    match device.backend {
        Backend::Vulkan | Backend::OpenCl => if device.vendor == GpuVendor::Nvidia || device.vendor
            == GpuVendor::Amd {
            32
        } else {
            64
        },
        Backend::Cuda | Backend::Hip => 32,
        Backend::LevelZero | Backend::Metal | Backend::CpuReference => 64,
    }
}

/// Half storage asks for twice the transaction width, so that a transaction covers as
/// many values as it does in single precision.
pub open spec fn coalesced_bytes_for(device: DeviceProfile, precision: Precision) -> usize {
    if precision == Precision::F16StorageF32Compute {
        (2 * coalesced_bytes(device)) as usize
    } else {
        coalesced_bytes(device)
    }
}

pub fn upstream_coalesced_memory_bytes_for_precision(
    device: DeviceProfile,
    precision: Precision,
) -> (bytes: usize)
    ensures
        bytes == coalesced_bytes_for(device, precision),
{
    let bytes: usize = upstream_coalesced_memory_bytes(device);
    if precision == Precision::F16StorageF32Compute {
        2 * bytes
    } else {
        bytes
    }
}

/// Tuning after the device's thread limit is applied: a direct Rader stage needs about
/// half a prime's worth of lanes, so its range ends where two such stages still fit.
pub open spec fn upstream_effective_tuning(
    tuning: PlannerTuning,
    device: DeviceProfile,
) -> PlannerTuning {
    let cap = if device.max_threads_per_block / 2 == 0 {
        0
    } else {
        device.max_threads_per_block / 2 - 1
    };
    PlannerTuning {
        max_rader_direct_prime: if tuning.max_rader_direct_prime <= cap {
            tuning.max_rader_direct_prime
        } else {
            cap as usize
        },
        ..tuning
    }
}

pub fn upstream_effective_rader_tuning(
    tuning: PlannerTuning,
    device: DeviceProfile,
    precision: Precision,
) -> (effective: PlannerTuning)
    ensures
        effective == upstream_effective_tuning(tuning, device),
{
    let cap: usize = (device.max_threads_per_block / 2).saturating_sub(1);
    PlannerTuning {
        max_rader_direct_prime: if tuning.max_rader_direct_prime <= cap {
            tuning.max_rader_direct_prime
        } else {
            cap
        },
        ..tuning
    }
}

} // verus!
