use vkfft_scheduler::arith::{ceil_div, exact_log2_bounds};
use vkfft_scheduler::config::{
    upstream_effective_rader_tuning, Backend, DeviceProfile, GpuVendor, PlannerTuning, Precision,
};
use vkfft_scheduler::direct_rader::{
    plan_gpu_axis0_composite_direct_rader_threads,
    plan_gpu_axis0_composite_direct_rader_threads_for_prime_multiplicities,
    plan_gpu_axis0_composite_direct_rader_threads_for_primes,
    plan_gpu_double_double_axis0_composite_direct_rader_threads_for_prime_multiplicities,
    plan_gpu_double_double_axis0_composite_direct_rader_threads_for_primes,
};
use vkfft_scheduler::error::VkFftError;
use vkfft_scheduler::four_step_blocks::{
    plan_gpu_axis0_direct_rader_four_step_default_block_from_shape_for_precision,
    FourStepAxisBlockRequest,
};
use vkfft_scheduler::quad::plan_gpu_double_double_quad_registers;
use vkfft_scheduler::rader_containers::{
    build_multi_fft_rader_container_state, build_multi_fft_rader_container_state_with_tuning,
    build_nested_fft_rader_subcontainers, MultiFftRaderContainerKind,
};
use vkfft_scheduler::rader_parents::{
    plan_gpu_axis0_mixed_direct_fft_rader_threads,
    plan_gpu_axis0_mixed_direct_multi_fft_rader_threads,
    plan_gpu_axis0_mixed_direct_multi_fft_rader_threads_with_max_batch_coalesced,
    plan_gpu_axis0_multi_fft_rader_parent_schedule,
    plan_gpu_axis0_multi_fft_rader_parent_schedule_with_tuning,
    plan_gpu_axis0_multi_fft_rader_threads_for_prime_multiplicities,
    plan_gpu_double_double_axis0_fft_rader_threads_for_prime_multiplicities,
    plan_gpu_double_double_axis0_fft_rader_threads_for_prime_multiplicities_with_tuning,
    plan_gpu_double_double_axis0_mixed_direct_fft_rader_threads,
    plan_gpu_double_double_axis0_mixed_direct_multi_fft_rader_threads,
};
use vkfft_scheduler::rader_registers::{
    plan_nvidia_vulkan_rader_fft_registers, plan_nvidia_vulkan_rader_fft_registers_for_containers,
    RaderFftStageLaneLayout,
};
use vkfft_scheduler::rader_tables::{
    optimize_single_rader_container_registers, rader_container_occupancy_fits,
};
use vkfft_scheduler::rader_uploads::{
    plan_gpu_force_rader_two_upload, plan_gpu_rader_forced_upload_split,
    plan_gpu_rader_upload_split_with_axis_context, plan_nvidia_vulkan_force_rader_two_upload,
    RaderUploadReason,
};
use vkfft_scheduler::registers::plan_gpu_small_mixed_radix_registers;
use vkfft_scheduler::shared_search::rader_optimize_shared_register_table;
use vkfft_scheduler::upload_count::StockhamUploadAxisContext;

fn nvidia_vulkan(shared_memory_bytes: usize) -> DeviceProfile {
    DeviceProfile {
        shared_memory_bytes,
        shared_memory_pow2_bytes: shared_memory_bytes.next_power_of_two() / 2,
        coalesced_memory_bytes: 32,
        ..DeviceProfile::generic(Backend::Vulkan, GpuVendor::Nvidia)
    }
}

#[test]
fn exact_rader_outer_log2_scoring_matches_legacy_formula_without_float_in_production() {
    for prime in [17usize, 19, 29, 53, 257, 4001, 12289] {
        for exponent in 1..=20u32 {
            let containers = 1usize << exponent;
            let Some(outer_fft_len) = prime.checked_mul(containers) else {
                continue;
            };
            let (floor, ceil) = exact_log2_bounds(outer_fft_len);
            let legacy = (outer_fft_len as f64).log2();
            assert_eq!(floor, legacy as usize, "N={outer_fft_len}");
            for candidate in 1..=3usize {
                assert_eq!(
                    ceil_div(ceil, candidate).unwrap(),
                    (legacy / candidate as f64).ceil() as usize,
                    "N={outer_fft_len}, radix-log2 candidate={candidate}"
                );
            }
        }
    }

    let high_bit = usize::BITS - 2;
    let above_exact_f64_integer_range = (1usize << high_bit) + 1;
    assert_eq!(
        exact_log2_bounds(above_exact_f64_integer_range),
        (high_bit as usize, high_bit as usize + 1)
    );
    assert_eq!(
        exact_log2_bounds(usize::MAX),
        (usize::BITS as usize - 1, usize::BITS as usize)
    );
}

#[test]
fn force_rader_two_upload_matches_upstream_container_pressure_gate() {
    let mut device = nvidia_vulkan(48 * 1024);
    device.max_threads_per_block = 1024;
    assert!(!plan_nvidia_vulkan_force_rader_two_upload(17 * 512, &[17], device).unwrap());
    assert!(plan_nvidia_vulkan_force_rader_two_upload(17 * 513, &[17], device).unwrap());

    let mut narrow = device;
    narrow.max_threads_per_block = 128;
    assert!(!plan_nvidia_vulkan_force_rader_two_upload(19 * 128, &[19], narrow).unwrap());
    assert!(plan_nvidia_vulkan_force_rader_two_upload(19 * 129, &[19], narrow).unwrap());
    assert!(!plan_nvidia_vulkan_force_rader_two_upload(47 * 1024, &[], device).unwrap());
}

#[test]
fn normal_capacity_rader_split_precedes_force_promotion() {
    let mut device = nvidia_vulkan(32 * 1024);
    device.max_threads_per_block = 1024;
    device.max_workgroup_size = [1024, 1024, 64];

    let sequence_len = 3usize * 29 * 47;
    assert_eq!(sequence_len, 4_089);
    assert!(!plan_gpu_force_rader_two_upload(sequence_len, &[], device).unwrap());
    let direct = plan_gpu_rader_upload_split_with_axis_context(
        sequence_len,
        &[],
        &[29, 47],
        Precision::F32,
        device,
        StockhamUploadAxisContext::default(),
    )
    .unwrap()
    .expect("normal Direct-Rader capacity must enter the common multi-upload path");
    assert_eq!(direct.upload_count, 2);
    assert_eq!(direct.axis_split, vec![87, 47]);
    assert_eq!(direct.reason, RaderUploadReason::CapacityOrBandwidth);

    let dd_sequence_len = 4usize * 11 * 23;
    assert!(!plan_gpu_force_rader_two_upload(dd_sequence_len, &[], device).unwrap());
    let dd = plan_gpu_rader_upload_split_with_axis_context(
        dd_sequence_len,
        &[],
        &[11, 23],
        Precision::DoubleDouble,
        device,
        StockhamUploadAxisContext::default(),
    )
    .unwrap()
    .expect("normal DD Direct-Rader capacity must enter the common multi-upload path");
    assert_eq!(dd.upload_count, 2);
    assert_eq!(dd.axis_split, vec![44, 23]);
    assert_eq!(dd.reason, RaderUploadReason::CapacityOrBandwidth);

    let mut wide = nvidia_vulkan(48 * 1024);
    wide.max_threads_per_block = 1024;
    wide.max_workgroup_size = [1024, 1024, 64];
    let repeated = 19usize * 19 * 23;
    assert!(!plan_gpu_force_rader_two_upload(repeated, &[19, 23], wide).unwrap());
    let fft = plan_gpu_rader_upload_split_with_axis_context(
        repeated,
        &[19, 23],
        &[],
        Precision::F32,
        wide,
        StockhamUploadAxisContext::default(),
    )
    .unwrap()
    .expect("normal FFT-Rader capacity must enter the common multi-upload path");
    assert_eq!(fft.upload_count, 2);
    assert_eq!(fft.axis_split, vec![361, 23]);
    assert_eq!(fft.reason, RaderUploadReason::CapacityOrBandwidth);
}

#[test]
fn f16_rader_failed_two_pass_divisor_promotes_to_three() {
    let mut device = nvidia_vulkan(8 * 1024);
    device.shared_memory_pow2_bytes = 8 * 1024;
    device.max_threads_per_block = 1024;
    device.max_workgroup_size = [1024, 1024, 64];
    let sequence_len = 11usize * 17 * 47;
    let schedule = plan_gpu_rader_upload_split_with_axis_context(
        sequence_len,
        &[],
        &[17, 47],
        Precision::F16StorageF32Compute,
        device,
        StockhamUploadAxisContext::default(),
    )
    .unwrap()
    .expect("F16 Rader capacity must promote the failed two-pass split to three uploads");
    assert_eq!(schedule.upload_count, 3);
    assert_eq!(schedule.axis_split, vec![47, 17, 11]);
    assert_eq!(schedule.reason, RaderUploadReason::CapacityOrBandwidth);
}

#[test]
fn rader_upload_skips_when_pass_local_direct_reservation_exceeds_shared_memory() {
    let mut constrained = nvidia_vulkan(256);
    constrained.shared_memory_pow2_bytes = 256;
    let schedule = plan_gpu_rader_upload_split_with_axis_context(
        106,
        &[],
        &[53],
        Precision::F32,
        constrained,
        StockhamUploadAxisContext::default(),
    )
    .unwrap();
    assert_eq!(schedule, None);
}

#[test]
fn forced_rader_upload_uses_upstream_non_power_of_two_divisor_geometry() {
    let mut device = nvidia_vulkan(32 * 1024);
    device.max_threads_per_block = 1024;
    let schedule =
        plan_gpu_rader_forced_upload_split(17 * 8192, &[17], &[], Precision::F32, device)
            .unwrap()
            .expect("p17 across 8192 containers must enter the forced two-upload branch");
    assert_eq!(schedule.max_sequence_len_shared, 4096);
    assert_eq!(schedule.max_sequence_len_strided, 1024);
    assert_eq!(schedule.upload_count, 2);
    assert_eq!(schedule.axis_split, vec![512, 272]);
    assert_eq!(schedule.reason, RaderUploadReason::CapacityOrBandwidth);
    schedule.validate().unwrap();

    assert!(!plan_gpu_force_rader_two_upload(17 * 512, &[17], device).unwrap());
    let capacity =
        plan_gpu_rader_forced_upload_split(17 * 512, &[17], &[], Precision::F32, device)
            .unwrap()
            .expect("normal capacity must split N8704 even below the force threshold");
    assert_eq!(capacity.upload_count, 2);
    assert_eq!(capacity.axis_split, vec![128, 68]);
    assert_eq!(capacity.reason, RaderUploadReason::CapacityOrBandwidth);

    let mut thread_limited = nvidia_vulkan(48 * 1024);
    thread_limited.max_threads_per_block = 128;
    let schedule = plan_gpu_rader_forced_upload_split(
        17 * 300,
        &[17],
        &[],
        Precision::F32,
        thread_limited,
    )
    .unwrap()
    .expect(
        "thread pressure should force a two-upload split even below the 512-container gate",
    );
    assert_eq!(schedule.upload_count, 2);
    assert_eq!(schedule.axis_split, vec![68, 75]);
    assert_eq!(schedule.reason, RaderUploadReason::ForcedRaderPressure);

    let schedule = plan_gpu_rader_forced_upload_split(
        17 * 65_536,
        &[17],
        &[],
        Precision::F32,
        device,
    )
    .unwrap()
    .expect(
        "a forced Rader axis above the two-factor capacity should promote to three uploads",
    );
    assert_eq!(schedule.upload_count, 3);
    assert_eq!(schedule.axis_split, vec![128, 68, 128]);
    schedule.validate().unwrap();

    let mut intel = DeviceProfile::generic(Backend::Vulkan, GpuVendor::Intel);
    intel.shared_memory_bytes = 32 * 1024;
    intel.shared_memory_pow2_bytes = 32 * 1024;
    intel.max_threads_per_block = 1024;
    intel.max_workgroup_size = [1024, 1024, 64];
    let sequence_len = 17 * 16_384;
    let strided = plan_gpu_rader_upload_split_with_axis_context(
        sequence_len,
        &[17],
        &[],
        Precision::F32,
        intel,
        StockhamUploadAxisContext {
            strided_axis: true,
            ..StockhamUploadAxisContext::default()
        },
    )
    .unwrap()
    .expect("Intel strided p17 composite must retain forced-Rader scheduling");
    assert_eq!(strided.max_sequence_len_shared, 4_096);
    assert_eq!(strided.max_sequence_len_strided, 512);
    assert_eq!(strided.upload_count, 3);
    assert_eq!(strided.axis_split, vec![64, 68, 64]);

    let boosted = plan_gpu_rader_upload_split_with_axis_context(
        sequence_len,
        &[17],
        &[],
        Precision::F32,
        intel,
        StockhamUploadAxisContext {
            strided_axis: true,
            bandwidth_boost: 2,
            ..StockhamUploadAxisContext::default()
        },
    )
    .unwrap()
    .expect("B=2 must keep the forced-Rader branch while reducing its upload count");
    assert_eq!(boosted.upload_count, 2);
    assert_eq!(boosted.axis_split, vec![544, 512]);
    boosted.validate().unwrap();
}

#[test]
fn forced_rader_upload_uses_quad_compute_footprint_for_double_double() {
    let mut device = nvidia_vulkan(32 * 1024);
    device.max_threads_per_block = 1024;
    for precision in [Precision::DoubleDouble, Precision::DoubleDoubleF64Storage] {
        let schedule =
            plan_gpu_rader_forced_upload_split(17 * 8192, &[17], &[], precision, device)
                .unwrap()
                .expect("DD p17 across 8192 containers must enter the forced upload branch");
        assert_eq!(schedule.used_shared_memory_bytes, 32 * 1024);
        assert_eq!(schedule.max_sequence_len_shared, 1024);
        assert_eq!(schedule.max_sequence_len_strided, 1024);
        assert_eq!(schedule.upload_count, 2);
        assert_eq!(schedule.axis_split, vec![512, 272]);
        schedule.validate().unwrap();
    }
}

#[test]
fn composite_direct_rader_thread_estimate_matches_upstream_type1_coupling() {
    let device = nvidia_vulkan(48 * 1024);
    assert_eq!(
        plan_gpu_axis0_composite_direct_rader_threads(2 * 47, 47, 5, device).unwrap(),
        Some(48)
    );
    assert_eq!(
        plan_gpu_axis0_composite_direct_rader_threads(4 * 47, 47, 5, device).unwrap(),
        Some(48)
    );
    assert_eq!(
        plan_gpu_axis0_composite_direct_rader_threads(47, 47, 5, device).unwrap(),
        None
    );

    let mut too_narrow = device;
    too_narrow.max_threads_per_block = 32;
    too_narrow.max_workgroup_size[0] = 32;
    assert_eq!(
        plan_gpu_axis0_composite_direct_rader_threads(2 * 47, 47, 5, too_narrow).unwrap(),
        Some(24)
    );
}

#[test]
fn multi_direct_rader_thread_estimate_shares_upstream_register_scale() {
    let device = nvidia_vulkan(48 * 1024);
    assert_eq!(
        plan_gpu_axis0_composite_direct_rader_threads_for_primes(
            47 * 53,
            &[47, 53],
            2,
            device,
        )
        .unwrap(),
        Some(216)
    );
    let mut wide = device;
    wide.max_threads_per_block = 1024;
    wide.max_workgroup_size[0] = 1024;
    assert_eq!(
        plan_gpu_axis0_composite_direct_rader_threads_for_primes(47 * 53, &[47, 53], 2, wide,)
            .unwrap(),
        Some(432)
    );
}

#[test]
fn single_fft_rader_smooth_outer_parent_uses_shared_optimizer() {
    let mut device = nvidia_vulkan(48 * 1024);
    device.max_threads_per_block = 1024;
    device.max_workgroup_size[0] = 1024;
    assert_eq!(
        plan_gpu_axis0_multi_fft_rader_threads_for_prime_multiplicities(
            4 * 17,
            &[(17, 1)],
            75,
            device,
        )
        .unwrap(),
        Some(5)
    );
    assert_eq!(
        plan_gpu_axis0_multi_fft_rader_threads_for_prime_multiplicities(
            16 * 17,
            &[(17, 1)],
            512,
            device,
        )
        .unwrap(),
        Some(17)
    );
}

#[test]
fn double_double_single_fft_rader_smooth_outer_uses_quad_parent_state() {
    let mut device = nvidia_vulkan(48 * 1024);
    device.max_threads_per_block = 1024;
    device.max_workgroup_size[0] = 1024;
    assert_eq!(
        plan_gpu_double_double_axis0_fft_rader_threads_for_prime_multiplicities(
            4 * 17,
            &[(17, 1)],
            75,
            device,
        )
        .unwrap(),
        Some(5)
    );
    assert_eq!(
        plan_gpu_double_double_axis0_fft_rader_threads_for_prime_multiplicities(
            16 * 17,
            &[(17, 1)],
            512,
            device,
        )
        .unwrap(),
        Some(17)
    );
    assert_eq!(
        plan_gpu_double_double_axis0_fft_rader_threads_for_prime_multiplicities(
            19 * 19 * 23,
            &[(19, 2), (23, 1)],
            1,
            device,
        )
        .unwrap(),
        Some(437)
    );
}

#[test]
fn nested_direct_rader_subcontainer_feeds_recursive_optimizer_state() {
    let (registers, max_registers, min_registers) =
        rader_optimize_shared_register_table(282).unwrap();
    assert_eq!(registers[2], 4);
    assert_eq!(registers[3], 3);
    assert_eq!(max_registers, 4);
    assert_eq!(min_registers, 3);
    let state = build_multi_fft_rader_container_state(283, 2)
        .unwrap()
        .expect("p283 should retain nested p47 Direct-Rader under portable tuning");
    assert_eq!(state.kind, MultiFftRaderContainerKind::Fft);
    assert_eq!(state.prime, 283);
    assert_eq!(state.container_fft_num, 2);
    assert_eq!(state.subcontainers.len(), 1);
    assert_eq!(
        state.subcontainers[0].kind,
        MultiFftRaderContainerKind::Direct
    );
    assert_eq!(state.subcontainers[0].prime, 47);
    assert_eq!(state.subcontainers[0].container_fft_num, 2);
    assert_eq!(state.subcontainers[0].min_registers_per_thread, 2);
    assert_eq!(state.subcontainers[0].registers_per_thread, 2);

    let mut device = nvidia_vulkan(48 * 1024);
    device.max_threads_per_block = 1024;
    device.max_workgroup_size[0] = 1024;
    let schedule =
        plan_gpu_axis0_multi_fft_rader_parent_schedule(2 * 283, &[(283, 1)], 2, device)
            .unwrap()
            .expect("N566 nested p283/p47 should have an exact parent schedule");
    assert_eq!(schedule.global_scale_registers_num, 1);
    assert_eq!(schedule.final_min_registers, 2);
    assert_eq!(schedule.min_rader_fft_thread_num, 188);
    assert_eq!(schedule.threads_per_transform, 283);

    let mut narrow = device;
    narrow.max_threads_per_block = 256;
    narrow.max_workgroup_size[0] = 256;
    let narrow_schedule =
        plan_gpu_axis0_multi_fft_rader_parent_schedule(2 * 283, &[(283, 1)], 2, narrow)
            .unwrap()
            .expect("N566 nested p283/p47 should scale into a 256-thread profile");
    assert_eq!(narrow_schedule.global_scale_registers_num, 2);
    assert_eq!(narrow_schedule.final_min_registers, 4);
    assert_eq!(narrow_schedule.min_rader_fft_thread_num, 72);
    assert_eq!(narrow_schedule.threads_per_transform, 142);
}

#[test]
fn double_double_nested_rader_peeling_uses_min_direct_threshold() {
    let device = nvidia_vulkan(48 * 1024);
    let tuning = PlannerTuning::for_device(device, Precision::DoubleDouble)
        .with_recursive_fft_rader(true);
    assert_eq!(tuning.min_rader_direct_prime, 11);
    assert_eq!(tuning.max_rader_direct_prime, 29);

    let container = build_multi_fft_rader_container_state_with_tuning(53, 2, tuning)
        .unwrap()
        .expect("DD p53 FFT-Rader container should remain representable");
    assert_eq!(container.subcontainers.len(), 1);
    assert_eq!(container.subcontainers[0].prime, 13);
    assert_eq!(
        container.subcontainers[0].kind,
        MultiFftRaderContainerKind::Direct
    );
    assert_eq!(container.subcontainers[0].container_fft_num, 2);
    let threads =
        plan_gpu_double_double_axis0_fft_rader_threads_for_prime_multiplicities_with_tuning(
            2 * 53,
            &[(53, 1)],
            2,
            tuning,
            device,
        )
        .unwrap();
    assert_eq!(threads, Some(9));

    let ordinary = build_multi_fft_rader_container_state_with_tuning(
        53,
        2,
        PlannerTuning::portable().with_recursive_fft_rader(true),
    )
    .unwrap()
    .expect("ordinary p53 FFT-Rader container should remain representable");
    assert!(ordinary.subcontainers.is_empty());
}

#[test]
fn nested_rader_container_order_matches_upstream_fft_then_direct_passes() {
    let tuning = PlannerTuning::portable().with_recursive_fft_rader(true);
    let residual = 47usize * 53;
    let containers = build_nested_fft_rader_subcontainers(residual, 2, tuning)
        .unwrap()
        .expect("47*53 residual should be recursively schedulable");
    assert_eq!(containers.len(), 2);
    assert_eq!(containers[0].kind, MultiFftRaderContainerKind::Fft);
    assert_eq!(containers[0].prime, 53);
    assert_eq!(containers[0].container_fft_num, 94);
    assert_eq!(containers[1].kind, MultiFftRaderContainerKind::Direct);
    assert_eq!(containers[1].prime, 47);
    assert_eq!(containers[1].container_fft_num, 106);
}

#[test]
fn double_double_nested_fft_then_direct_order_reaches_n886_parent() {
    let device = nvidia_vulkan(48 * 1024);
    let tuning = PlannerTuning::for_device(device, Precision::DoubleDouble)
        .with_recursive_fft_rader(true);
    assert_eq!(tuning.min_rader_direct_prime, 11);
    assert_eq!(tuning.min_rader_fft_prime, 17);
    let parent = build_multi_fft_rader_container_state_with_tuning(443, 2, tuning)
        .unwrap()
        .expect("DD p443 should retain recursive 442=2*13*17 Rader state");
    assert_eq!(parent.subcontainers.len(), 2);
    assert_eq!(
        parent.subcontainers[0].kind,
        MultiFftRaderContainerKind::Fft
    );
    assert_eq!(parent.subcontainers[0].prime, 17);
    assert_eq!(
        parent.subcontainers[1].kind,
        MultiFftRaderContainerKind::Direct
    );
    assert_eq!(parent.subcontainers[1].prime, 13);
    let threads =
        plan_gpu_double_double_axis0_fft_rader_threads_for_prime_multiplicities_with_tuning(
            2 * 443,
            &[(443, 1)],
            1,
            tuning,
            device,
        )
        .unwrap()
        .expect("DD N886 should have an exact recursive Rader parent floor");
    assert_eq!(threads, 37);
    let mut wide = device;
    wide.max_threads_per_block = 1024;
    wide.max_workgroup_size[0] = 1024;
    let wide_threads =
        plan_gpu_double_double_axis0_fft_rader_threads_for_prime_multiplicities_with_tuning(
            2 * 443,
            &[(443, 1)],
            1,
            tuning,
            wide,
        )
        .unwrap()
        .expect("DD N886 should keep an exact parent floor on a 1024-thread profile");
    assert_eq!(wide_threads, 74);
}

#[test]
fn nested_rader_parent_schedule_must_use_device_capped_direct_range() {
    let tuning = PlannerTuning::portable().with_recursive_fft_rader(true);
    let mut device = nvidia_vulkan(48 * 1024);
    device.max_threads_per_block = 64;
    device.max_workgroup_size[0] = 64;

    let raw = plan_gpu_axis0_multi_fft_rader_parent_schedule_with_tuning(
        2 * 283,
        &[(283, 1)],
        2,
        tuning,
        device,
    )
    .unwrap()
    .expect("raw recursive N566 schedule should remain representable");

    let capped = upstream_effective_rader_tuning(tuning, device, Precision::F32);
    assert_eq!(capped.max_rader_direct_prime, 31);
    let expected = plan_gpu_axis0_multi_fft_rader_parent_schedule_with_tuning(
        2 * 283,
        &[(283, 1)],
        2,
        capped,
        device,
    )
    .unwrap()
    .expect("device-capped recursive N566 schedule should remain representable");

    assert_eq!(raw.global_scale_registers_num, 5);
    assert_eq!(raw.final_min_registers, 10);
    assert_eq!(raw.min_rader_fft_thread_num, 30);
    assert_eq!(raw.threads_per_transform, 57);
    assert_eq!(expected.global_scale_registers_num, 3);
    assert_eq!(expected.final_min_registers, 30);
    assert_eq!(expected.min_rader_fft_thread_num, 16);
    assert_eq!(expected.threads_per_transform, 19);
    assert_ne!(raw, expected);
}

#[test]
fn nested_sub_rader_type0_parent_recurses_register_and_thread_pressure() {
    let (registers, max_registers, min_registers) =
        rader_optimize_shared_register_table(106).unwrap();
    assert_eq!(registers[2], 2);
    assert_eq!(max_registers, 2);
    assert_eq!(min_registers, 2);

    let state = build_multi_fft_rader_container_state(107, 2)
        .unwrap()
        .expect("p107 should retain its safe p53 subcontainer");
    assert_eq!(state.prime, 107);
    assert_eq!(state.container_fft_num, 2);
    assert_eq!(state.stage_radix_multipliers[2], 1);
    assert_eq!(state.subcontainers.len(), 1);
    assert_eq!(state.subcontainers[0].prime, 53);
    assert_eq!(state.subcontainers[0].container_fft_num, 2);
    assert!(state.subcontainers[0].subcontainers.is_empty());

    let mut device = nvidia_vulkan(48 * 1024);
    device.max_threads_per_block = 256;
    device.max_workgroup_size[0] = 256;
    let schedule =
        plan_gpu_axis0_multi_fft_rader_parent_schedule(2 * 107, &[(107, 1)], 2, device)
            .unwrap()
            .expect("N214 nested p107/p53 should have an exact parent schedule");
    assert_eq!(schedule.global_scale_registers_num, 1);
    assert_eq!(schedule.final_min_registers, 12);
    assert_eq!(schedule.min_rader_fft_thread_num, 16);
    assert_eq!(schedule.threads_per_transform, 18);
    assert_eq!(
        plan_gpu_axis0_multi_fft_rader_threads_for_prime_multiplicities(
            2 * 107,
            &[(107, 1)],
            2,
            device,
        )
        .unwrap(),
        Some(18)
    );
    assert_eq!(
        plan_gpu_double_double_axis0_fft_rader_threads_for_prime_multiplicities(
            2 * 107,
            &[(107, 1)],
            2,
            device,
        )
        .unwrap(),
        Some(18)
    );
}

#[test]
fn nested_sub_rader_and_sibling_type0_share_joint_optimizer_state() {
    let mut device = nvidia_vulkan(48 * 1024);
    device.max_threads_per_block = 1024;
    device.max_workgroup_size[0] = 1024;
    let schedule = plan_gpu_axis0_multi_fft_rader_parent_schedule(
        19 * 107,
        &[(19, 1), (107, 1)],
        2,
        device,
    )
    .unwrap()
    .expect("N2033 p19+p107/p53 should fit the recursive joint type0 slice");
    assert_eq!(schedule.global_scale_registers_num, 1);
    assert_eq!(schedule.final_min_registers, 12);
    assert_eq!(schedule.min_rader_fft_thread_num, 214);
    assert_eq!(schedule.threads_per_transform, 214);
    assert_eq!(
        plan_gpu_double_double_axis0_fft_rader_threads_for_prime_multiplicities(
            19 * 107,
            &[(19, 1), (107, 1)],
            2,
            device,
        )
        .unwrap(),
        Some(214)
    );
}

#[test]
fn multiple_fft_rader_type0_containers_share_upstream_optimizer_state() {
    let mut device = nvidia_vulkan(48 * 1024);
    device.max_threads_per_block = 256;
    device.max_workgroup_size[0] = 256;
    let schedule =
        plan_gpu_axis0_multi_fft_rader_parent_schedule(19 * 29, &[(19, 1), (29, 1)], 2, device)
            .unwrap()
            .expect("p19+p29 should fit the exact smooth multi-type0 slice");
    assert_eq!(schedule.final_min_registers, 6);
    assert_eq!(schedule.min_rader_fft_thread_num, 87);
    assert_eq!(schedule.threads_per_transform, 92);
    assert_eq!(schedule.global_scale_registers_num, 1);
    assert_eq!(
        plan_gpu_axis0_multi_fft_rader_threads_for_prime_multiplicities(
            19 * 29,
            &[(19, 1), (29, 1)],
            2,
            device,
        )
        .unwrap(),
        Some(92)
    );

    let mut wide = device;
    wide.max_threads_per_block = 1024;
    wide.max_workgroup_size[0] = 1024;
    let scaled = plan_gpu_axis0_multi_fft_rader_parent_schedule(
        19 * 29 * 31,
        &[(19, 1), (29, 1), (31, 1)],
        1,
        wide,
    )
    .unwrap()
    .expect("p19+p29+p31 should be recovered by global register scaling");
    assert_eq!(scaled.threads_per_transform, 899);
    assert_eq!(scaled.global_scale_registers_num, 3);

    let repeated = plan_gpu_axis0_multi_fft_rader_parent_schedule(
        19 * 19 * 23,
        &[(19, 2), (23, 1)],
        1,
        wide,
    )
    .unwrap()
    .expect("p19^2+p23 should remain within one upload");
    assert_eq!(repeated.threads_per_transform, 437);
    assert_eq!(repeated.global_scale_registers_num, 2);
}

#[test]
fn double_double_mixed_multi_fft_rader_uses_quad_outer_and_global_scaling() {
    let mut device = nvidia_vulkan(48 * 1024);
    device.max_threads_per_block = 1024;
    device.max_workgroup_size[0] = 1024;
    assert_eq!(
        plan_gpu_double_double_axis0_mixed_direct_multi_fft_rader_threads(
            17 * 19 * 29,
            &[(17, 1)],
            &[(19, 1), (29, 1)],
            1,
            device,
        )
        .unwrap(),
        Some(999)
    );
    assert_eq!(
        plan_gpu_double_double_axis0_mixed_direct_multi_fft_rader_threads(
            2 * 17 * 19 * 23,
            &[(17, 1)],
            &[(19, 1), (23, 1)],
            1,
            device,
        )
        .unwrap(),
        Some(990)
    );
    assert_eq!(
        plan_gpu_double_double_axis0_mixed_direct_fft_rader_threads(
            17 * 19,
            &[(17, 1)],
            19,
            29,
            device,
        )
        .unwrap(),
        Some(171)
    );
}

#[test]
fn mixed_direct_multi_fft_rader_runs_joint_type0_then_type1_scheduler() {
    let mut device = nvidia_vulkan(48 * 1024);
    device.max_threads_per_block = 256;
    device.max_workgroup_size[0] = 256;
    assert_eq!(
        plan_gpu_axis0_mixed_direct_multi_fft_rader_threads(
            11 * 17 * 19,
            &[(11, 1)],
            &[(17, 1), (19, 1)],
            2,
            device,
        )
        .unwrap(),
        Some(256)
    );

    let mut wide = device;
    wide.max_threads_per_block = 1024;
    wide.max_workgroup_size[0] = 1024;
    assert_eq!(
        plan_gpu_axis0_mixed_direct_multi_fft_rader_threads(
            17 * 19 * 23,
            &[(17, 1)],
            &[(19, 1), (23, 1)],
            2,
            wide,
        )
        .unwrap(),
        Some(990)
    );
    assert_eq!(
        plan_gpu_axis0_mixed_direct_multi_fft_rader_threads(
            17 * 19 * 29,
            &[(17, 1)],
            &[(19, 1), (29, 1)],
            2,
            wide,
        )
        .unwrap(),
        Some(999)
    );
    assert_eq!(
        plan_gpu_axis0_mixed_direct_multi_fft_rader_threads_with_max_batch_coalesced(
            17 * 19,
            &[(17, 1)],
            &[(19, 1)],
            29,
            4,
            wide,
        )
        .unwrap(),
        Some(63)
    );
}

#[test]
fn mixed_direct_fft_rader_uses_type0_first_optimizer_before_type1_scaling() {
    let device = nvidia_vulkan(48 * 1024);
    let (mut registers, _, _) = rader_optimize_shared_register_table(30).unwrap();
    assert_eq!(
        optimize_single_rader_container_registers(17 * 31, 1, 17, 2, &mut registers).unwrap(),
        4
    );
    assert_eq!(
        plan_gpu_axis0_mixed_direct_fft_rader_threads(17 * 31, &[(17, 1)], 31, 2, device,)
            .unwrap(),
        Some(108)
    );
}

#[test]
fn double_double_mixed_direct_fft_rader_matches_zero_smooth_outer_slice() {
    let device = nvidia_vulkan(48 * 1024);
    assert_eq!(
        plan_gpu_double_double_axis0_mixed_direct_fft_rader_threads(
            17 * 31,
            &[(17, 1)],
            31,
            2,
            device,
        )
        .unwrap(),
        Some(108)
    );
    let with_smooth_outer = plan_gpu_double_double_axis0_mixed_direct_fft_rader_threads(
        2 * 17 * 31,
        &[(17, 1)],
        31,
        2,
        device,
    )
    .unwrap()
    .expect("DD mixed Rader with radix-2 outer factor should use Quad register state");
    assert!(with_smooth_outer > 0 && with_smooth_outer <= device.max_threads_per_block);
}

#[test]
fn double_double_mixed_rader_can_share_parent_floor_despite_quad_outer_table() {
    let mut device = nvidia_vulkan(48 * 1024);
    device.max_threads_per_block = 1024;
    device.max_workgroup_size[0] = 1024;
    let length = 15usize * 17 * 31;
    let ordinary =
        plan_gpu_axis0_mixed_direct_fft_rader_threads(length, &[(17, 1)], 31, 1, device)
            .unwrap()
            .expect("ordinary mixed Rader N7905 should produce a parent thread floor");
    let quad = plan_gpu_double_double_axis0_mixed_direct_fft_rader_threads(
        length,
        &[(17, 1)],
        31,
        1,
        device,
    )
    .unwrap()
    .expect("DD mixed Rader N7905 should produce a Quad parent thread floor");
    assert_eq!(ordinary, 990);
    assert_eq!(quad, 990);
    assert_eq!(ordinary, quad);

    let ordinary_outer = plan_gpu_small_mixed_radix_registers(15, length / 15).unwrap();
    let quad_outer = plan_gpu_double_double_quad_registers(15, length / 15).unwrap();
    assert_eq!(ordinary_outer.min_registers_per_thread, 15);
    assert_eq!(quad_outer.min_registers_per_thread, 3);
}

#[test]
fn double_double_composite_direct_rader_thread_estimate_uses_quad_outer_floor() {
    let device = nvidia_vulkan(48 * 1024);
    assert_eq!(
        plan_gpu_double_double_axis0_composite_direct_rader_threads_for_primes(
            2 * 47,
            &[47],
            5,
            device,
        )
        .unwrap(),
        Some(48)
    );
    assert_eq!(
        plan_gpu_double_double_axis0_composite_direct_rader_threads_for_primes(
            47 * 53,
            &[47, 53],
            2,
            device,
        )
        .unwrap(),
        Some(216)
    );
    let mut wide = device;
    wide.max_threads_per_block = 1024;
    wide.max_workgroup_size[0] = 1024;
    assert_eq!(
        plan_gpu_double_double_axis0_composite_direct_rader_threads_for_primes(
            47 * 53,
            &[47, 53],
            2,
            wide,
        )
        .unwrap(),
        Some(432)
    );
}

#[test]
fn repeated_direct_rader_multiplicity_removes_full_prime_power_from_outer_radix() {
    let device = nvidia_vulkan(48 * 1024);
    assert_eq!(
        plan_gpu_axis0_composite_direct_rader_threads_for_prime_multiplicities(
            17 * 17,
            &[(17, 2)],
            2,
            device,
        )
        .unwrap(),
        Some(153)
    );
    assert_eq!(
        plan_gpu_double_double_axis0_composite_direct_rader_threads_for_prime_multiplicities(
            17 * 17,
            &[(17, 2)],
            2,
            device,
        )
        .unwrap(),
        Some(153)
    );
}

#[test]
fn rader_occupancy_preserves_upstream_fractional_scaling_branch() {
    assert!(!rader_container_occupancy_fits(1, 8, 16, 32).unwrap());
    assert!(rader_container_occupancy_fits(4, 8, 16, 32).unwrap());
    assert!(rader_container_occupancy_fits(2, 8, 16, 64).unwrap());
    assert!(!rader_container_occupancy_fits(3, 8, 16, 16).unwrap());
    assert!(rader_container_occupancy_fits(8, 8, 16, 16).unwrap());
}

#[test]
fn rader_smooth_container_uses_optimize_shared_register_schedule() {
    let device = nvidia_vulkan(48 * 1024);
    let r17 = plan_nvidia_vulkan_rader_fft_registers(17, 2, device).unwrap();
    assert_eq!(r17.convolution_len, 16);
    assert_eq!(r17.container_fft_num, 1);
    assert_eq!(r17.min_rader_fft_thread_num, 1);
    assert_eq!(r17.execution_threads_per_workgroup, 1);
    assert_eq!(r17.execution_workgroup_count, 2);
    assert!(r17.upstream_grouping_is_executable());
    assert_eq!(r17.internal_fft.rhs_transform_count, 2);
    assert_eq!(r17.internal_fft.stage_radices, vec![16]);
    assert_eq!(r17.internal_fft.registers_per_thread, 16);
    assert_eq!(r17.internal_fft.min_registers_per_thread, 16);
    assert_eq!(r17.internal_fft.registers_per_thread_per_radix[16], 16);

    let r257 = plan_nvidia_vulkan_rader_fft_registers(257, 3, device).unwrap();
    assert_eq!(r257.convolution_len, 256);
    assert_eq!(r257.container_fft_num, 1);
    assert_eq!(r257.min_rader_fft_thread_num, 16);
    assert_eq!(r257.execution_threads_per_workgroup, 16);
    assert_eq!(r257.execution_workgroup_count, 3);
    assert!(r257.upstream_grouping_is_executable());
    assert_eq!(r257.internal_fft.rhs_transform_count, 3);
    assert_eq!(r257.internal_fft.stage_radices, vec![16, 16]);
    assert_eq!(r257.internal_fft.registers_per_thread, 16);
    assert_eq!(r257.internal_fft.min_registers_per_thread, 16);
    assert_eq!(r257.internal_fft.registers_per_thread_per_radix[16], 16);
    assert_eq!(r257.internal_fft.register_boost, 1);
    assert_eq!(r257.internal_fft.register_boost_stage_radix, None);

    let mixed =
        plan_nvidia_vulkan_rader_fft_registers_for_containers(257, 4, 514, 2, device).unwrap();
    assert_eq!(mixed.outer_fft_len, 514);
    assert_eq!(mixed.container_fft_num, 2);
    assert_eq!(mixed.min_rader_fft_thread_num, 32);
    assert_eq!(mixed.upstream_workgroup_count(), 2);
    assert_eq!(mixed.execution_container_fft_num, 2);
    assert_eq!(mixed.execution_workgroup_count, 2);
    assert_eq!(mixed.execution_threads_per_workgroup, 32);
    assert!(mixed.upstream_grouping_is_executable());
    assert_eq!(mixed.internal_fft.stage_radices, vec![16, 16]);
    assert_eq!(mixed.internal_fft.registers_per_thread_per_radix[16], 16);

    let grouped_four =
        plan_nvidia_vulkan_rader_fft_registers_for_containers(257, 8, 1028, 4, device).unwrap();
    assert_eq!(grouped_four.outer_fft_len, 1028);
    assert_eq!(grouped_four.container_fft_num, 4);
    assert_eq!(grouped_four.min_rader_fft_thread_num, 64);
    assert_eq!(grouped_four.execution_container_fft_num, 4);
    assert_eq!(grouped_four.execution_workgroup_count, 2);
    assert_eq!(grouped_four.execution_threads_per_workgroup, 64);
    assert!(grouped_four.upstream_grouping_is_executable());
    assert!(grouped_four.rader_transpose.is_none());
    assert_eq!(grouped_four.internal_fft.stage_radices, vec![16, 16]);

    for (prime, containers, batch_count, expected_radices) in [
        (19usize, 3usize, 6usize, vec![6usize, 3usize]),
        (29usize, 6usize, 12usize, vec![7usize, 4usize]),
    ] {
        let smooth_outer = plan_nvidia_vulkan_rader_fft_registers_for_containers(
            prime,
            batch_count,
            prime * containers,
            containers,
            device,
        )
        .unwrap();
        assert_eq!(smooth_outer.container_fft_num, containers);
        assert_eq!(smooth_outer.execution_container_fft_num, containers);
        assert_eq!(
            smooth_outer.execution_workgroup_count,
            batch_count / containers
        );
        assert_eq!(smooth_outer.internal_fft.stage_radices, expected_radices);
        assert!(smooth_outer.rader_transpose.is_none());
        assert!(smooth_outer.upstream_grouping_is_executable());
        assert!(smooth_outer.execution_threads_per_workgroup <= device.max_threads_per_block);
    }

    let mut constrained = device;
    constrained.max_threads_per_block = 16;
    let scaled =
        plan_nvidia_vulkan_rader_fft_registers_for_containers(257, 2, 514, 2, constrained)
            .unwrap();
    assert_eq!(scaled.min_rader_fft_thread_num, 16);
    assert_eq!(scaled.execution_threads_per_workgroup, 16);
    assert!(scaled.internal_fft.registers_per_thread_per_radix[16] >= 32);

    let transposed_eight =
        plan_nvidia_vulkan_rader_fft_registers_for_containers(257, 16, 2056, 8, device)
            .unwrap();
    assert_eq!(transposed_eight.container_fft_num, 8);
    assert_eq!(transposed_eight.min_rader_fft_thread_num, 128);
    assert_eq!(transposed_eight.execution_container_fft_num, 8);
    assert_eq!(transposed_eight.execution_workgroup_count, 2);
    assert_eq!(transposed_eight.execution_threads_per_workgroup, 128);
    assert!(transposed_eight.upstream_grouping_is_executable());
    let transpose = transposed_eight
        .rader_transpose
        .as_ref()
        .expect("eight two-stage p257 containers should enable upstream raderTranspose");
    assert_eq!(transpose.workgroup_threads, 128);
    assert_eq!(transpose.stages.len(), 2);
    assert_eq!(transpose.stages[0].sub_logical_group_size, 16);
    assert_eq!(transpose.stages[0].active_threads, 128);
    assert_eq!(
        transpose.stages[0].layout,
        RaderFftStageLaneLayout::ContainerMajor
    );
    assert_eq!(
        transpose.stages[1].layout,
        RaderFftStageLaneLayout::TransposedContainerInterleaved
    );
    assert_eq!(transpose.lane_coordinates(0, 0).unwrap(), Some((0, 0)));
    assert_eq!(transpose.lane_coordinates(0, 15).unwrap(), Some((15, 0)));
    assert_eq!(transpose.lane_coordinates(0, 16).unwrap(), Some((0, 1)));
    assert_eq!(transpose.lane_coordinates(0, 127).unwrap(), Some((15, 7)));
    assert_eq!(transpose.lane_coordinates(1, 0).unwrap(), Some((0, 0)));
    assert_eq!(transpose.lane_coordinates(1, 7).unwrap(), Some((0, 7)));
    assert_eq!(transpose.lane_coordinates(1, 8).unwrap(), Some((1, 0)));
    assert_eq!(transpose.lane_coordinates(1, 127).unwrap(), Some((15, 7)));
    assert_eq!(transpose.lane_coordinates(1, 128).unwrap(), None);

    for batch_count in [8usize, 16usize] {
        let transposed_p29 = plan_nvidia_vulkan_rader_fft_registers_for_containers(
            29,
            batch_count,
            232,
            8,
            device,
        )
        .unwrap();
        assert_eq!(transposed_p29.container_fft_num, 8);
        assert_eq!(transposed_p29.internal_fft.stage_radices, vec![7, 4]);
        assert!(transposed_p29.rader_transpose.is_some());
        assert!(transposed_p29.upstream_grouping_is_executable());
    }

    let transposed_sixteen =
        plan_nvidia_vulkan_rader_fft_registers_for_containers(257, 32, 4112, 16, device)
            .unwrap();
    assert_eq!(transposed_sixteen.container_fft_num, 16);
    assert_eq!(transposed_sixteen.min_rader_fft_thread_num, 256);
    assert_eq!(transposed_sixteen.execution_container_fft_num, 16);
    assert_eq!(transposed_sixteen.execution_workgroup_count, 2);
    assert_eq!(transposed_sixteen.execution_threads_per_workgroup, 256);
    assert!(transposed_sixteen.upstream_grouping_is_executable());
    let transpose16 = transposed_sixteen
        .rader_transpose
        .as_ref()
        .expect("sixteen p257 containers should reuse upstream raderTranspose geometry");
    assert_eq!(transpose16.workgroup_threads, 256);
    assert!(
        transpose16
            .stages
            .iter()
            .all(|stage| stage.active_threads == 256)
    );
    assert_eq!(
        transpose16.lane_coordinates(0, 255).unwrap(),
        Some((15, 15))
    );
    assert_eq!(
        transpose16.lane_coordinates(1, 255).unwrap(),
        Some((15, 15))
    );
    assert_eq!(transpose16.lane_coordinates(1, 256).unwrap(), None);

    let mut wide_device = device;
    wide_device.max_threads_per_block = 1024;
    let transposed_thirty_two =
        plan_nvidia_vulkan_rader_fft_registers_for_containers(257, 64, 8224, 32, wide_device)
            .unwrap();
    assert_eq!(transposed_thirty_two.container_fft_num, 32);
    assert_eq!(transposed_thirty_two.min_rader_fft_thread_num, 512);
    assert_eq!(transposed_thirty_two.execution_container_fft_num, 32);
    assert_eq!(transposed_thirty_two.execution_workgroup_count, 2);
    assert_eq!(transposed_thirty_two.execution_threads_per_workgroup, 512);
    let transpose32 = transposed_thirty_two.rader_transpose.as_ref().unwrap();
    assert_eq!(transpose32.workgroup_threads, 512);
    assert!(
        transpose32
            .stages
            .iter()
            .all(|stage| stage.active_threads == 512)
    );
    assert_eq!(
        transpose32.lane_coordinates(0, 511).unwrap(),
        Some((15, 31))
    );
    assert_eq!(
        transpose32.lane_coordinates(1, 511).unwrap(),
        Some((15, 31))
    );

    let one_stage_eight =
        plan_nvidia_vulkan_rader_fft_registers_for_containers(17, 16, 136, 8, device).unwrap();
    assert_eq!(one_stage_eight.internal_fft.stage_radices, vec![16]);
    assert_eq!(one_stage_eight.container_fft_num, 8);
    assert_eq!(one_stage_eight.min_rader_fft_thread_num, 8);
    assert_eq!(one_stage_eight.execution_container_fft_num, 8);
    assert_eq!(one_stage_eight.execution_workgroup_count, 2);
    assert_eq!(one_stage_eight.execution_threads_per_workgroup, 8);
    assert!(one_stage_eight.upstream_grouping_is_executable());
    assert!(one_stage_eight.rader_transpose.is_none());

    for (prime, expected_radices) in [
        (19usize, vec![6usize, 3]),
        (29usize, vec![7usize, 4]),
        (53usize, vec![13usize, 4]),
    ] {
        let transposed = plan_nvidia_vulkan_rader_fft_registers_for_containers(
            prime,
            16,
            prime * 8,
            8,
            device,
        )
        .unwrap();
        assert_eq!(transposed.container_fft_num, 8);
        assert_eq!(transposed.execution_container_fft_num, 8);
        assert!(transposed.upstream_grouping_is_executable());
        assert_eq!(transposed.internal_fft.stage_radices, expected_radices);
        let transpose = transposed.rader_transpose.as_ref().expect(
            "eight multi-stage smooth Rader containers should use upstream raderTranspose",
        );
        assert_eq!(transpose.container_fft_dim, prime - 1);
        assert_eq!(transpose.container_fft_num, 8);
        assert_eq!(
            transpose.workgroup_threads,
            transposed.execution_threads_per_workgroup
        );
        assert_eq!(transpose.stages.len(), 2);
        assert_eq!(
            transpose.stages[0].layout,
            RaderFftStageLaneLayout::ContainerMajor
        );
        assert_eq!(
            transpose.stages[1].layout,
            RaderFftStageLaneLayout::TransposedContainerInterleaved
        );
        assert!(transpose.workgroup_threads <= device.max_threads_per_block);
    }

    let r19 = plan_nvidia_vulkan_rader_fft_registers(19, 2, device).unwrap();
    assert_eq!(r19.convolution_len, 18);
    assert_eq!(r19.internal_fft.stage_radices, vec![6, 3]);
    assert_eq!(r19.internal_fft.registers_per_thread, 6);
    assert_eq!(r19.internal_fft.min_registers_per_thread, 6);
    assert_eq!(r19.execution_threads_per_workgroup, 3);
    assert_eq!(r19.execution_workgroup_count, 2);
    assert!(r19.rader_transpose.is_none());

    let r29 = plan_nvidia_vulkan_rader_fft_registers(29, 2, device).unwrap();
    assert_eq!(r29.convolution_len, 28);
    assert_eq!(r29.internal_fft.stage_radices, vec![7, 4]);
    assert_eq!(r29.internal_fft.registers_per_thread, 8);
    assert_eq!(r29.internal_fft.min_registers_per_thread, 7);
    assert_eq!(r29.execution_threads_per_workgroup, 4);
    assert_eq!(r29.execution_workgroup_count, 2);

    for (prime, expected_radices, expected_threads) in [
        (19usize, vec![6usize, 3], 6usize),
        (29, vec![7, 4], 8),
        (53, vec![13, 4], 8),
    ] {
        let grouped = plan_nvidia_vulkan_rader_fft_registers_for_containers(
            prime,
            4,
            prime * 2,
            2,
            device,
        )
        .unwrap();
        assert_eq!(grouped.container_fft_num, 2);
        assert_eq!(grouped.execution_container_fft_num, 2);
        assert_eq!(grouped.execution_workgroup_count, 2);
        assert_eq!(grouped.execution_threads_per_workgroup, expected_threads);
        assert!(grouped.upstream_grouping_is_executable());
        assert!(grouped.rader_transpose.is_none());
        assert_eq!(grouped.internal_fft.stage_radices, expected_radices);
    }

    assert!(matches!(
        plan_nvidia_vulkan_rader_fft_registers(47, 1, device),
        Err(VkFftError::UnsupportedKernelPath(_))
    ));
}

#[test]
fn direct_rader_four_step_shape_preserves_f16_coalescing_width() {
    let device = DeviceProfile {
        shared_memory_bytes: 8 * 1024,
        shared_memory_pow2_bytes: 8 * 1024,
        max_threads_per_block: 256,
        max_workgroup_size: [256, 256, 64],
        ..DeviceProfile::generic(Backend::Vulkan, GpuVendor::Amd)
    };
    let request = FourStepAxisBlockRequest {
        axis_upload_id: 1,
        stage_start_size: 64,
        transform_count: 2_176,
        outer_batch_count: 1,
        perform_zero_padding: false,
        grouped_batch_override: None,
    };
    let f32 = plan_gpu_axis0_direct_rader_four_step_default_block_from_shape_for_precision(
        3,
        47,
        24,
        47,
        request,
        Precision::F32,
        8,
        device,
    )
    .unwrap()
    .unwrap();
    let f16 = plan_gpu_axis0_direct_rader_four_step_default_block_from_shape_for_precision(
        3,
        47,
        24,
        47,
        request,
        Precision::F16StorageF32Compute,
        8,
        device,
    )
    .unwrap()
    .unwrap();
    assert_eq!((f32.grouped_batch, f32.local_size_x), (4, 4));
    assert_eq!((f16.grouped_batch, f16.local_size_x), (8, 8));
    assert_eq!((f16.threads_per_transform, f16.local_size_y), (24, 24));
}
