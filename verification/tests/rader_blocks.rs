use vkfft_scheduler::config::{Backend, DeviceProfile, GpuVendor, PlannerTuning, Precision};
use vkfft_scheduler::quad::plan_gpu_double_double_quad_registers;
use vkfft_scheduler::rader_blocks::{
    plan_gpu_axis0_direct_rader_batch_block, plan_gpu_axis0_fft_rader_batch_block,
    plan_gpu_axis0_fft_rader_batch_block_with_grouped_batch,
    plan_gpu_double_double_axis0_fft_rader_user_grouped_batch_block,
    plan_gpu_other_axis_direct_rader_batch_block, plan_gpu_other_axis_fft_rader_batch_block,
};
use vkfft_scheduler::rader_parents::plan_gpu_axis0_multi_fft_rader_parent_schedule_with_max_batch_coalesced;
use vkfft_scheduler::rader_registers::plan_gpu_rader_fft_registers_for_containers;
use vkfft_scheduler::stockham_blocks::plan_gpu_double_double_axis0_user_grouped_stockham_block;

fn nvidia_vulkan(shared_memory_bytes: usize) -> DeviceProfile {
    DeviceProfile {
        shared_memory_bytes,
        shared_memory_pow2_bytes: shared_memory_bytes.next_power_of_two() / 2,
        coalesced_memory_bytes: 32,
        ..DeviceProfile::generic(Backend::Vulkan, GpuVendor::Nvidia)
    }
}

#[test]
fn higher_axis_f16_forced_rader_keeps_full_upload0_coalescing_pressure() {
    let mut device = DeviceProfile::generic(Backend::Vulkan, GpuVendor::Amd);
    device.shared_memory_bytes = 2048;
    device.shared_memory_pow2_bytes = 2048;
    device.max_threads_per_block = 64;
    device.max_workgroup_size = [64, 64, 64];
    device.coalesced_memory_bytes = 64;
    let mut tuning = PlannerTuning::for_device(device, Precision::F16StorageF32Compute);
    tuning.min_rader_direct_prime = 17;
    tuning.max_rader_direct_prime = 89;
    tuning.min_rader_fft_prime = 17;
    tuning.max_rader_fft_prime = 16_384;
    tuning.validate().unwrap();

    let axis0_upload0 =
        plan_gpu_axis0_multi_fft_rader_parent_schedule_with_max_batch_coalesced(
            62,
            &[(31, 1)],
            31,
            8,
            true,
            tuning,
            device,
        )
        .unwrap()
        .expect("axis-0 upload0 should have a parent schedule");
    assert_eq!(axis0_upload0.global_scale_registers_num, 1);
    assert_eq!(axis0_upload0.final_min_registers, 4);
    assert_eq!(axis0_upload0.min_rader_fft_thread_num, 12);
    assert_eq!(axis0_upload0.threads_per_transform, 16);

    let higher_axis = plan_gpu_axis0_multi_fft_rader_parent_schedule_with_max_batch_coalesced(
        62,
        &[(31, 1)],
        31,
        8,
        false,
        tuning,
        device,
    )
    .unwrap()
    .expect("higher-axis upload0 should have a parent schedule");
    assert_eq!(higher_axis.global_scale_registers_num, 2);
    assert_eq!(higher_axis.final_min_registers, 8);
    assert_eq!(higher_axis.min_rader_fft_thread_num, 6);
    assert_eq!(higher_axis.threads_per_transform, 8);
}

#[test]
fn higher_axis_rader_blocks_keep_prime_threads_on_y() {
    let mut device = nvidia_vulkan(48 * 1024);
    device.max_threads_per_block = 1024;
    device.max_workgroup_size = [1024, 1024, 64];

    let direct = plan_gpu_other_axis_direct_rader_batch_block(47, 40, 8, 8, None, None, device)
        .unwrap()
        .expect("higher-axis p47 should retain a physical block");
    assert_eq!(direct.threads_per_transform, 24);
    assert_eq!(direct.grouped_batch, 4);
    assert_eq!([direct.local_size_x, direct.local_size_y], [4, 24]);
    assert!(direct.transforms_on_x);
    assert!(!direct.axis_swapped);
    direct.validate(40, device).unwrap();

    let direct_user =
        plan_gpu_other_axis_direct_rader_batch_block(47, 40, 8, 8, Some(3), Some(3), device)
            .unwrap()
            .expect("higher-axis p47/G3 should retain the requested parent group");
    assert_eq!(direct_user.grouped_batch, 3);
    assert_eq!(
        [direct_user.local_size_x, direct_user.local_size_y],
        [3, 24]
    );
    direct_user.validate(40, device).unwrap();

    let schedule =
        plan_gpu_rader_fft_registers_for_containers(257, 40, 257, 1, device).unwrap();
    let fft =
        plan_gpu_other_axis_fft_rader_batch_block(257, 40, 8, &schedule, 8, None, None, device)
            .unwrap()
            .expect("higher-axis p257 should retain a physical block");
    assert_eq!(fft.threads_per_transform, 17);
    assert_eq!(fft.grouped_batch, 8);
    assert_eq!([fft.local_size_x, fft.local_size_y], [8, 17]);
    assert!(fft.transforms_on_x);
    assert!(!fft.axis_swapped);
    fft.validate(40, device).unwrap();

    let fft_user = plan_gpu_other_axis_fft_rader_batch_block(
        257,
        40,
        8,
        &schedule,
        8,
        Some(3),
        Some(3),
        device,
    )
    .unwrap()
    .expect("higher-axis p257/G3 should retain the requested parent group");
    assert_eq!(fft_user.grouped_batch, 3);
    assert_eq!([fft_user.local_size_x, fft_user.local_size_y], [3, 17]);
    fft_user.validate(40, device).unwrap();

    for (prime, expected_threads) in [(31usize, 7usize), (281, 41)] {
        let schedule =
            plan_gpu_rader_fft_registers_for_containers(prime, 40, prime, 1, device).unwrap();
        let block = plan_gpu_other_axis_fft_rader_batch_block(
            prime,
            40,
            8,
            &schedule,
            8,
            Some(3),
            Some(3),
            device,
        )
        .unwrap()
        .expect("higher-axis FFT-Rader residual must retain the exact caller floor");
        assert_eq!(block.threads_per_transform, expected_threads);
        assert_eq!(block.grouped_batch, 3);
        assert!(block.transforms_on_x);
        assert!(!block.axis_swapped);
        assert_eq!(
            [block.local_size_x, block.local_size_y],
            [3, expected_threads]
        );
        block.validate(40, device).unwrap();
    }
}

#[test]
fn axis0_direct_rader_batch_block_matches_p47_upstream_geometry() {
    let mut device = nvidia_vulkan(48 * 1024);
    device.max_threads_per_block = 1024;
    device.max_workgroup_size = [1024, 1024, 64];

    let block = plan_gpu_axis0_direct_rader_batch_block(47, 32, 8, false, None, device)
        .unwrap()
        .expect("p47/batch32 should use the upstream direct-Rader axis block");
    assert_eq!(block.threads_per_transform, 24);
    assert_eq!(block.grouped_batch, 5);
    assert!(!block.transforms_on_x);
    assert!(!block.axis_swapped);
    assert_eq!([block.local_size_x, block.local_size_y], [24, 5]);
    block.validate(32, device).unwrap();

    let user = plan_gpu_axis0_direct_rader_batch_block(47, 32, 8, false, Some(3), device)
        .unwrap()
        .expect("p47 groupedBatch override should use the upstream user branch");
    assert_eq!(user.threads_per_transform, 24);
    assert_eq!(user.grouped_batch, 1);
    assert_eq!([user.local_size_x, user.local_size_y], [24, 1]);
    user.validate(32, device).unwrap();

    let dd_user = plan_gpu_axis0_direct_rader_batch_block(47, 7, 32, false, Some(3), device)
        .unwrap()
        .expect("DD p47/batch7/G3 should retain the caller group");
    assert_eq!(dd_user.threads_per_transform, 24);
    assert_eq!(dd_user.grouped_batch, 3);
    assert!(!dd_user.transforms_on_x);
    assert!(!dd_user.axis_swapped);
    assert_eq!([dd_user.local_size_x, dd_user.local_size_y], [24, 3]);
    dd_user.validate(7, device).unwrap();
}

#[test]
fn axis0_fft_rader_batch_block_matches_p257_upstream_geometry() {
    let mut device = nvidia_vulkan(48 * 1024);
    device.max_threads_per_block = 1024;
    device.max_workgroup_size = [1024, 1024, 64];
    let schedule =
        plan_gpu_rader_fft_registers_for_containers(257, 32, 257, 1, device).unwrap();
    assert_eq!(schedule.container_fft_num, 1);
    assert_eq!(schedule.execution_container_fft_num, 1);
    assert_eq!(schedule.internal_fft.stage_radices, vec![16, 16]);
    assert_eq!(schedule.internal_fft.min_registers_per_thread, 16);
    assert_eq!(schedule.min_rader_fft_thread_num, 16);

    let block = plan_gpu_axis0_fft_rader_batch_block(257, 32, &schedule, 8, false, device)
        .unwrap()
        .expect("p257/batch32 should use the upstream Rader axis block");
    assert_eq!(block.threads_per_transform, 17);
    assert_eq!(block.grouped_batch, 7);
    assert!(!block.transforms_on_x);
    assert!(!block.axis_swapped);
    assert_eq!([block.local_size_x, block.local_size_y], [17, 7]);
    block.validate(32, device).unwrap();

    let user = plan_gpu_axis0_fft_rader_batch_block_with_grouped_batch(
        257,
        32,
        &schedule,
        8,
        false,
        Some(5),
        device,
    )
    .unwrap()
    .expect("p257 groupedBatch=5 should use the upstream user Rader branch");
    assert_eq!(user.threads_per_transform, 17);
    assert_eq!(user.grouped_batch, 5);
    assert!(!user.transforms_on_x);
    assert!(!user.axis_swapped);
    assert_eq!([user.local_size_x, user.local_size_y], [17, 5]);
    user.validate(32, device).unwrap();

    let mut wide_device = device;
    wide_device.shared_memory_bytes = 64 * 1024;
    wide_device.shared_memory_pow2_bytes = 64 * 1024;
    for (prime, expected_caller_threads, expected_internal_threads) in [
        (17usize, 2usize, 1usize),
        (29, 5, 4),
        (31, 7, 6),
        (257, 17, 16),
        (2_161, 145, 144),
        (4_993, 385, 384),
        (7_681, 769, 768),
    ] {
        let single =
            plan_gpu_rader_fft_registers_for_containers(prime, 1, prime, 1, wide_device)
                .unwrap();
        assert_eq!(
            single.execution_threads_per_workgroup, expected_internal_threads,
            "p{prime} internal convolution thread floor"
        );
        let single_block =
            plan_gpu_axis0_fft_rader_batch_block(prime, 1, &single, 8, false, wide_device)
                .unwrap()
                .expect("batch-one FFT-Rader must preserve a wider prime caller floor");
        assert_eq!(single_block.threads_per_transform, expected_caller_threads);
        assert_eq!(single_block.grouped_batch, 1);
        assert!(!single_block.transforms_on_x);
        assert!(!single_block.axis_swapped);
        assert_eq!(
            [single_block.local_size_x, single_block.local_size_y],
            [expected_caller_threads, 1]
        );
        single_block.validate(1, wide_device).unwrap();
    }

    for (prime, expected_threads) in [(17usize, 2usize), (31, 7)] {
        let batched =
            plan_gpu_rader_fft_registers_for_containers(prime, 32, prime, 1, device).unwrap();
        let block = plan_gpu_axis0_fft_rader_batch_block(prime, 32, &batched, 8, false, device)
            .unwrap()
            .expect("batch32 FFT-Rader residual must use the upstream caller block");
        assert_eq!(block.threads_per_transform, expected_threads);
        assert_eq!(block.grouped_batch, 32);
        assert!(block.transforms_on_x);
        assert!(block.axis_swapped);
        assert_eq!(
            [block.local_size_x, block.local_size_y],
            [32, expected_threads]
        );
        block.validate(32, device).unwrap();
    }

    for (prime, expected_radices) in [
        (769usize, vec![16usize, 16, 3]),
        (1_009, vec![16, 7, 3, 3]),
        (2_017, vec![16, 14, 3, 3]),
        (2_161, vec![16, 15, 3, 3]),
        (2_801, vec![16, 7, 5, 5]),
        (4_993, vec![16, 13, 8, 3]),
        (7_841, vec![16, 14, 7, 5]),
    ] {
        let schedule =
            plan_gpu_rader_fft_registers_for_containers(prime, 1, prime, 1, wide_device)
                .unwrap();
        assert_eq!(
            schedule.internal_fft.stage_radices, expected_radices,
            "p{prime} must preserve the final fixed-upstream Rader radix order"
        );
    }

    for (prime, radices, expected_threads, expected_padded_group) in [
        (19usize, vec![6usize, 3], 4usize, 32usize),
        (29, vec![7, 4], 5, 25),
    ] {
        let smooth =
            plan_gpu_rader_fft_registers_for_containers(prime, 32, prime, 1, device).unwrap();
        assert_eq!(smooth.internal_fft.stage_radices, radices);
        assert_eq!(smooth.container_fft_num, 1);
        assert_eq!(smooth.execution_container_fft_num, 1);
        assert!(smooth.rader_transpose.is_none());
        let smooth_block =
            plan_gpu_axis0_fft_rader_batch_block(prime, 32, &smooth, 8, false, device)
                .unwrap()
                .expect("smooth standalone Rader should use axis-level batch grouping");
        assert_eq!(smooth_block.threads_per_transform, expected_threads);
        assert_eq!(smooth_block.grouped_batch, 32);
        assert!(smooth_block.transforms_on_x);
        assert!(smooth_block.axis_swapped);
        assert_eq!(
            [smooth_block.local_size_x, smooth_block.local_size_y],
            [32, expected_threads]
        );
        let padded = plan_gpu_axis0_fft_rader_batch_block(prime, 32, &smooth, 8, true, device)
            .unwrap()
            .expect("zero-padded smooth Rader should keep grouping without axis swap");
        assert_eq!(padded.threads_per_transform, expected_threads);
        assert_eq!(padded.grouped_batch, expected_padded_group);
        assert!(!padded.transforms_on_x);
        assert!(!padded.axis_swapped);
        assert_eq!(
            [padded.local_size_x, padded.local_size_y],
            [expected_threads, expected_padded_group]
        );
    }
}

#[test]
fn double_double_fft_rader_user_group_separates_rader_caller_from_quad_child_floor() {
    let mut device = nvidia_vulkan(48 * 1024);
    device.max_threads_per_block = 1024;
    device.max_workgroup_size = [1024, 1024, 64];
    let quad = plan_gpu_double_double_quad_registers(256, 7).unwrap();
    assert_eq!(quad.min_registers_per_thread, 8);
    assert_eq!(256usize.div_ceil(quad.min_registers_per_thread), 32);

    let caller = plan_gpu_double_double_axis0_fft_rader_user_grouped_batch_block(
        257,
        7,
        Some(3),
        device,
    )
    .unwrap()
    .expect("DD p257/batch7/G3 should retain the caller group");
    assert_eq!(caller.threads_per_transform, 17);
    assert_eq!(caller.grouped_batch, 3);
    assert_eq!([caller.local_size_x, caller.local_size_y], [17, 3]);
    assert!(!caller.transforms_on_x);
    assert!(!caller.axis_swapped);
    caller.validate(7, device).unwrap();

    let child =
        plan_gpu_double_double_axis0_user_grouped_stockham_block(256, 7, Some(3), device)
            .unwrap()
            .expect("DD p257 internal N256 child should use its own Quad block");
    assert_eq!(child.threads_per_transform, 32);
    assert_eq!(child.grouped_batch, 3);
    assert_eq!([child.local_size_x, child.local_size_y], [3, 32]);
    assert!(child.transforms_on_x);
    assert!(child.axis_swapped);
}
