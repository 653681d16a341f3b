use vkfft_scheduler::arith::{checked_mul, checked_pow};
use vkfft_scheduler::axis_block::StockhamAxisBlockSchedule;
use vkfft_scheduler::config::{Backend, DeviceProfile, GpuVendor, Precision};
use vkfft_scheduler::error::VkFftError;
use vkfft_scheduler::policy::plan_gpu_scheduler_policy;
use vkfft_scheduler::quad::plan_gpu_double_double_quad_registers;
use vkfft_scheduler::rader_uploads::plan_gpu_force_rader_two_upload;
use vkfft_scheduler::registers::{
    plan_gpu_power_of_two_radix_registers, plan_gpu_small_mixed_radix_registers,
};
use vkfft_scheduler::splits::{power_of_two_three_upload_split, power_of_two_two_upload_split};
use vkfft_scheduler::uploads::{
    plan_gpu_double_double_stockham_uploads_for_batches, plan_gpu_smooth_stockham_uploads,
    plan_gpu_smooth_stockham_uploads_for_batches, plan_nvidia_vulkan_power_of_two_stockham_uploads,
};

fn device() -> DeviceProfile {
    DeviceProfile::generic(Backend::Vulkan, GpuVendor::Nvidia)
}

#[test]
fn unsupported_paths_are_named() {
    assert_eq!(
        plan_nvidia_vulkan_power_of_two_stockham_uploads(12, Precision::F32, device()),
        Err(VkFftError::UnsupportedKernelPath(
            "NVIDIA Vulkan scheduler slice currently requires a power-of-two length"
        ))
    );
    assert!(matches!(
        plan_gpu_small_mixed_radix_registers(17, 1),
        Err(VkFftError::UnsupportedKernelPath(_))
    ));
    assert!(matches!(
        plan_gpu_scheduler_policy(
            Precision::F32,
            DeviceProfile::generic(Backend::CpuReference, GpuVendor::Other(0))
        ),
        Err(VkFftError::UnsupportedKernelPath(_))
    ));
    assert_eq!(
        plan_gpu_double_double_stockham_uploads_for_batches(1, 1, device()),
        Err(VkFftError::UnsupportedKernelPath(
            "double-double Stockham upload scheduling requires N>=2"
        ))
    );
}

#[test]
fn inconsistent_requests_are_refused() {
    assert_eq!(
        plan_gpu_power_of_two_radix_registers(16, 0, 1),
        Err(VkFftError::InvalidKernelIr(
            "radix register scheduler requires a non-zero RHS transform count"
        ))
    );
    assert!(matches!(
        plan_gpu_power_of_two_radix_registers(16, 1, 3),
        Err(VkFftError::InvalidKernelIr(_))
    ));
    assert!(matches!(
        plan_gpu_force_rader_two_upload(100, &[17], device()),
        Err(VkFftError::InvalidKernelIr(_))
    ));
    let block = StockhamAxisBlockSchedule {
        threads_per_transform: 8,
        grouped_batch: 4,
        transforms_on_x: false,
        axis_swapped: true,
        local_size_x: 4,
        local_size_y: 8,
    };
    assert!(matches!(
        block.validate(4, device()),
        Err(VkFftError::InvalidKernelIr(_))
    ));
}

#[test]
fn overflow_names_its_operation() {
    assert_eq!(
        checked_mul(usize::MAX, 2, "twice the largest count"),
        Err(VkFftError::ArithmeticOverflow {
            operation: "twice the largest count"
        })
    );
    assert_eq!(
        checked_pow(10, 40, "a long power"),
        Err(VkFftError::ArithmeticOverflow {
            operation: "a long power"
        })
    );
    assert!(matches!(
        plan_gpu_smooth_stockham_uploads_for_batches(360, usize::MAX, Precision::F32, device()),
        Err(VkFftError::ArithmeticOverflow { .. })
    ));
}

#[test]
fn missing_shared_memory_names_what_is_needed() {
    let small = DeviceProfile {
        shared_memory_bytes: 15,
        shared_memory_pow2_bytes: 4,
        ..device()
    };
    assert_eq!(
        plan_nvidia_vulkan_power_of_two_stockham_uploads(16, Precision::F32, small),
        Err(VkFftError::ResourceLimitExceeded {
            resource: "NVIDIA Vulkan scheduler shared memory",
            required: 8,
            available: 4
        })
    );
    assert_eq!(
        plan_gpu_smooth_stockham_uploads(360, Precision::F64, small),
        Err(VkFftError::ResourceLimitExceeded {
            resource: "NVIDIA Vulkan smooth scheduler shared memory",
            required: 16,
            available: 15
        })
    );
}

#[test]
fn empty_batches_are_refused() {
    assert_eq!(
        plan_gpu_smooth_stockham_uploads_for_batches(16, 0, Precision::F32, device()),
        Err(VkFftError::ZeroBatchCount)
    );
    assert_eq!(
        plan_gpu_smooth_stockham_uploads_for_batches(12, 0, Precision::F32, device()),
        Err(VkFftError::ZeroBatchCount)
    );
    assert_eq!(
        plan_gpu_double_double_stockham_uploads_for_batches(16, 0, device()),
        Err(VkFftError::ZeroBatchCount)
    );
}

#[test]
fn double_double_has_schedules_of_its_own() {
    assert_eq!(
        plan_gpu_smooth_stockham_uploads(16, Precision::DoubleDouble, device()),
        Err(VkFftError::UnsupportedPrecision {
            backend: "NVIDIA Vulkan scheduler baseline",
            precision: "double-double"
        })
    );
    assert_eq!(
        plan_gpu_smooth_stockham_uploads(12, Precision::DoubleDouble, device()),
        Err(VkFftError::UnsupportedPrecision {
            backend: "NVIDIA Vulkan smooth scheduler",
            precision: "double-double"
        })
    );
    assert!(plan_gpu_double_double_quad_registers(16, 1).is_ok());
    assert!(plan_gpu_double_double_quad_registers(11, 1).is_err());
}

#[test]
fn exponents_beyond_the_machine_word_are_refused() {
    assert_eq!(
        checked_pow(1, 5_000_000_000, "an endless power"),
        Err(VkFftError::ValueOutOfRange {
            field: "NVIDIA scheduler upload exponent"
        })
    );
}

#[test]
fn missing_shared_memory_is_refused_only_where_it_is_read() {
    let amd = DeviceProfile::generic(Backend::Vulkan, GpuVendor::Amd);
    assert_eq!(
        power_of_two_two_upload_split(1_024, 0, 64, 64, 0, true, amd),
        Err(VkFftError::ResourceLimitExceeded {
            resource: "NVIDIA scheduler power-of-eight capacity",
            required: 1,
            available: 0,
        })
    );
    assert_eq!(
        power_of_two_two_upload_split(4_096, 0, 64, 64, 0, false, amd),
        Ok(vec![64, 64])
    );
    assert_eq!(
        power_of_two_two_upload_split(4_096, 64, 64, 64, 0, true, amd),
        Ok(vec![64, 64])
    );
    assert_eq!(
        power_of_two_three_upload_split(4_096, 128, 0, 64, 64, 0, true, amd),
        Err(VkFftError::UnsupportedKernelPath(
            "power-of-two three-upload split requires executable shared-memory capacities"
        ))
    );
}
