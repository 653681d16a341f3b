use vkfft_scheduler::config::{
    Backend, DeviceProfile, GpuVendor, PlannerTuning, Precision, SubgroupProfile,
};
use vkfft_scheduler::policy::{
    plan_gpu_scheduler_policy, plan_nvidia_vulkan_stockham_twiddle_source, StockhamTwiddleSource,
};
use vkfft_scheduler::rader_containers::{
    build_multi_fft_rader_container_state_with_tuning, MultiFftRaderContainerKind,
};
use vkfft_scheduler::rader_parents::{
    plan_gpu_axis0_multi_fft_rader_parent_schedule_with_tuning,
    plan_gpu_double_double_axis0_fft_rader_threads_for_prime_multiplicities_with_tuning,
};
use vkfft_scheduler::rader_registers::plan_gpu_rader_fft_registers_for_containers;
use vkfft_scheduler::uploads::{
    plan_gpu_power_of_two_stockham_uploads, plan_nvidia_vulkan_power_of_two_stockham_uploads,
};

fn nvidia_vulkan(shared_memory_bytes: usize) -> DeviceProfile {
    DeviceProfile {
        shared_memory_bytes,
        shared_memory_pow2_bytes: shared_memory_bytes.next_power_of_two() / 2,
        coalesced_memory_bytes: 32,
        ..DeviceProfile::generic(Backend::Vulkan, GpuVendor::Nvidia)
    }
}

#[test]
fn gpu_scheduler_policy_matches_fixed_upstream_backend_defaults() {
    let amd_48k = DeviceProfile {
        shared_memory_bytes: 48 * 1024,
        shared_memory_pow2_bytes: 32 * 1024,
        ..DeviceProfile::generic(Backend::Vulkan, GpuVendor::Amd)
    };
    let amd_f32 = plan_gpu_scheduler_policy(Precision::F32, amd_48k).unwrap();
    assert_eq!(amd_f32.register_boost, 4);
    assert_eq!(amd_f32.subgroup_width, 64);
    assert_eq!(amd_f32.coalesced_memory_bytes, 32);
    assert_eq!(amd_f32.swap_to_three_stage_four_step, 524_288);
    assert_eq!(
        amd_f32.stockham_twiddle_source,
        StockhamTwiddleSource::OnTheFly
    );
    let amd_f64 = plan_gpu_scheduler_policy(Precision::F64, amd_48k).unwrap();
    assert_eq!(amd_f64.swap_to_three_stage_four_step, 262_144);
    assert_eq!(
        amd_f64.stockham_twiddle_source,
        StockhamTwiddleSource::LookupTable
    );

    let amd_64k = DeviceProfile {
        shared_memory_bytes: 64 * 1024,
        shared_memory_pow2_bytes: 64 * 1024,
        ..amd_48k
    };
    assert_eq!(
        plan_gpu_scheduler_policy(Precision::F32, amd_64k)
            .unwrap()
            .register_boost,
        2
    );

    let cuda = plan_gpu_scheduler_policy(
        Precision::F32,
        DeviceProfile::generic(Backend::Cuda, GpuVendor::Nvidia),
    )
    .unwrap();
    assert_eq!(cuda.register_boost, 1);
    assert_eq!(cuda.swap_to_three_stage_four_step, 4_194_305);
    assert_eq!(cuda.subgroup_width, 32);

    for (backend, vendor) in [
        (Backend::Vulkan, GpuVendor::Amd),
        (Backend::Vulkan, GpuVendor::Intel),
        (Backend::OpenCl, GpuVendor::Amd),
        (Backend::OpenCl, GpuVendor::Intel),
    ] {
        let mut device = DeviceProfile::generic(backend, vendor);
        device.shared_memory_bytes = 64 * 1024;
        device.shared_memory_pow2_bytes = 64 * 1024;
        device.supports_f64 = true;
        let native_f64 = plan_gpu_scheduler_policy(Precision::F64, device).unwrap();
        let mixed = plan_gpu_scheduler_policy(Precision::F64ComputeF32Storage, device).unwrap();
        assert_eq!(native_f64.swap_to_three_stage_four_step, 262_144);
        assert_eq!(mixed.swap_to_three_stage_four_step, 524_288);
        assert_eq!(
            mixed.stockham_twiddle_source,
            StockhamTwiddleSource::LookupTable
        );
    }

    let hip_f64 = plan_gpu_scheduler_policy(
        Precision::F64,
        DeviceProfile::generic(Backend::Hip, GpuVendor::Amd),
    )
    .unwrap();
    assert_eq!(hip_f64.register_boost, 1);
    assert_eq!(hip_f64.swap_to_three_stage_four_step, 1_048_576);
    assert_eq!(hip_f64.subgroup_width, 64);
    let hip_f64_f32_storage = plan_gpu_scheduler_policy(
        Precision::F64ComputeF32Storage,
        DeviceProfile::generic(Backend::Hip, GpuVendor::Amd),
    )
    .unwrap();
    assert_eq!(hip_f64_f32_storage.register_boost, 1);
    assert_eq!(hip_f64_f32_storage.swap_to_three_stage_four_step, 2_097_152);
    assert_eq!(
        hip_f64_f32_storage.stockham_twiddle_source,
        StockhamTwiddleSource::LookupTable
    );
    assert_eq!(
        hip_f64_f32_storage.four_step_twiddle_source,
        StockhamTwiddleSource::OnTheFly
    );
    let hip_dd = plan_gpu_scheduler_policy(
        Precision::DoubleDouble,
        DeviceProfile::generic(Backend::Hip, GpuVendor::Amd),
    )
    .unwrap();
    assert_eq!(hip_dd.swap_to_three_stage_four_step, 1_048_576);
    let mut hip_wave32 = DeviceProfile::generic(Backend::Hip, GpuVendor::Amd);
    hip_wave32.subgroup = crate::SubgroupProfile {
        size: 32,
        min_size: 32,
        max_size: 32,
        required_size_compute_supported: false,
        compute_supported: true,
        basic_supported: true,
        shuffle_supported: true,
        shuffle_relative_supported: true,
        compute_full_subgroups: true,
    };
    assert_eq!(
        plan_gpu_scheduler_policy(Precision::F32, hip_wave32)
            .unwrap()
            .subgroup_width,
        32
    );
    assert_eq!(
        hip_f64.stockham_twiddle_source,
        StockhamTwiddleSource::LookupTable
    );
    assert_eq!(
        hip_f64.four_step_twiddle_source,
        StockhamTwiddleSource::OnTheFly
    );

    let level_zero = plan_gpu_scheduler_policy(
        Precision::F32,
        DeviceProfile::generic(Backend::LevelZero, GpuVendor::Intel),
    )
    .unwrap();
    assert_eq!(level_zero.register_boost, 2);
    assert_eq!(level_zero.coalesced_memory_bytes, 64);
    assert_eq!(
        level_zero.stockham_twiddle_source,
        StockhamTwiddleSource::LookupTable
    );
    let mut level_zero_64k = DeviceProfile::generic(Backend::LevelZero, GpuVendor::Intel);
    level_zero_64k.shared_memory_bytes = 64 * 1024;
    level_zero_64k.shared_memory_pow2_bytes = 64 * 1024;
    let level_zero_f64 = plan_gpu_scheduler_policy(Precision::F64, level_zero_64k).unwrap();
    assert_eq!(level_zero_f64.register_boost, 1);
    assert_eq!(level_zero_f64.swap_to_three_stage_four_step, 262_144);
    let level_zero_f64_f32_storage =
        plan_gpu_scheduler_policy(Precision::F64ComputeF32Storage, level_zero_64k).unwrap();
    assert_eq!(level_zero_f64_f32_storage.register_boost, 1);
    assert_eq!(
        level_zero_f64_f32_storage.swap_to_three_stage_four_step,
        524_288
    );
    assert_eq!(
        level_zero_f64_f32_storage.stockham_twiddle_source,
        StockhamTwiddleSource::LookupTable
    );

    let metal = plan_gpu_scheduler_policy(
        Precision::F32,
        DeviceProfile::generic(Backend::Metal, GpuVendor::Apple),
    )
    .unwrap();
    assert_eq!(metal.register_boost, 1);
    assert_eq!(metal.coalesced_memory_bytes, 64);
    assert_eq!(
        metal.stockham_twiddle_source,
        StockhamTwiddleSource::OnTheFly
    );
}

#[test]
fn amd_vulkan_policy_drives_register_boost_uploads_and_rader_grouping() {
    let mut amd_48k = DeviceProfile {
        shared_memory_bytes: 48 * 1024,
        shared_memory_pow2_bytes: 32 * 1024,
        max_threads_per_block: 1024,
        ..DeviceProfile::generic(Backend::Vulkan, GpuVendor::Amd)
    };
    let boost4 =
        plan_gpu_power_of_two_stockham_uploads(16_384, Precision::F32, amd_48k).unwrap();
    assert_eq!(boost4.upload_count, 1);
    assert_eq!(boost4.register_boost, 4);

    amd_48k.shared_memory_bytes = 64 * 1024;
    amd_48k.shared_memory_pow2_bytes = 64 * 1024;
    let boost2 =
        plan_gpu_power_of_two_stockham_uploads(16_384, Precision::F32, amd_48k).unwrap();
    assert_eq!(boost2.upload_count, 1);
    assert_eq!(boost2.register_boost, 2);

    let rader = plan_gpu_rader_fft_registers_for_containers(19, 8, 152, 8, amd_48k).unwrap();
    assert_eq!(rader.container_fft_num, 8);
    assert_eq!(rader.internal_fft.stage_radices, vec![6, 3]);
    assert!(rader.rader_transpose.is_some());
    assert!(rader.upstream_grouping_is_executable());

    let large_f64 =
        plan_gpu_power_of_two_stockham_uploads(262_144, Precision::F64, amd_48k).unwrap();
    assert_eq!(large_f64.upload_count, 3);
}

#[test]
fn nvidia_stockham_twiddle_policy_matches_upstream_precision_defaults() {
    let mut device = nvidia_vulkan(48 * 1024);
    device.supports_f64 = true;
    assert_eq!(
        plan_nvidia_vulkan_stockham_twiddle_source(Precision::F32, device),
        StockhamTwiddleSource::OnTheFly
    );
    assert_eq!(
        plan_nvidia_vulkan_stockham_twiddle_source(Precision::F64, device),
        StockhamTwiddleSource::LookupTable
    );
    let amd = DeviceProfile::generic(Backend::Vulkan, GpuVendor::Amd);
    assert_eq!(
        plan_nvidia_vulkan_stockham_twiddle_source(Precision::F64, amd),
        StockhamTwiddleSource::OnTheFly
    );
}

#[test]
fn nested_rader_container_classification_respects_custom_tuning() {
    let mut fft_nested_tuning = PlannerTuning::portable().with_recursive_fft_rader(true);
    fft_nested_tuning.max_rader_direct_prime = 47;
    fft_nested_tuning.validate().unwrap();
    let fft_nested =
        build_multi_fft_rader_container_state_with_tuning(283, 2, fft_nested_tuning)
            .unwrap()
            .expect("custom tuning should retain p283 as FFT-Rader");
    assert_eq!(fft_nested.subcontainers.len(), 1);
    assert_eq!(fft_nested.subcontainers[0].prime, 47);
    assert_eq!(
        fft_nested.subcontainers[0].kind,
        MultiFftRaderContainerKind::Fft
    );

    let mut narrow = nvidia_vulkan(48 * 1024);
    narrow.max_threads_per_block = 256;
    narrow.max_workgroup_size[0] = 256;
    let tuned_schedule = plan_gpu_axis0_multi_fft_rader_parent_schedule_with_tuning(
        2 * 283,
        &[(283, 1)],
        2,
        fft_nested_tuning,
        narrow,
    )
    .unwrap()
    .expect("custom nested p47 FFT-Rader should have an exact N566 parent schedule");
    let dd_tuned_threads =
        plan_gpu_double_double_axis0_fft_rader_threads_for_prime_multiplicities_with_tuning(
            2 * 283,
            &[(283, 1)],
            2,
            fft_nested_tuning,
            narrow,
        )
        .unwrap()
        .expect("custom DD nested p47 FFT-Rader should have an exact N566 parent schedule");
    assert_eq!(dd_tuned_threads, 57);
    assert_eq!(tuned_schedule.global_scale_registers_num, 1);
    assert_eq!(tuned_schedule.final_min_registers, 10);
    assert_eq!(tuned_schedule.min_rader_fft_thread_num, 48);
    assert_eq!(tuned_schedule.threads_per_transform, 57);
}

#[test]
fn nvidia_register_boost_matches_one_upload_power_of_two_policy() {
    let device = nvidia_vulkan(48 * 1024);
    let schedule =
        plan_nvidia_vulkan_power_of_two_stockham_uploads(16_384, Precision::F32, device)
            .unwrap();
    assert_eq!(schedule.used_shared_memory_bytes, 32 * 1024);
    assert_eq!(schedule.max_sequence_len_shared, 4096);
    assert_eq!(schedule.max_sequence_len_strided, 1024);
    assert_eq!(schedule.register_boost, 4);
    assert_eq!(schedule.upload_count, 1);
    assert_eq!(schedule.axis_split, vec![16_384]);
}
