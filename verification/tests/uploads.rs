use vkfft_scheduler::config::{Backend, DeviceProfile, GpuVendor, Precision};
use vkfft_scheduler::four_step_blocks::{
    plan_gpu_axis0_four_step_default_block_from_shape,
    plan_gpu_axis0_four_step_default_block_from_shape_for_precision,
    plan_gpu_axis0_four_step_upload_block, FourStepAxisBlockRequest,
};
use vkfft_scheduler::stockham_blocks::{
    plan_gpu_double_double_axis0_stockham_block, plan_gpu_double_double_other_axis_stockham_block,
};
use vkfft_scheduler::upload_count::StockhamUploadAxisContext;
use vkfft_scheduler::uploads::{
    plan_gpu_double_double_stockham_uploads_for_batches,
    plan_gpu_power_of_two_stockham_uploads_for_batches_with_axis_context,
    plan_gpu_smooth_stockham_uploads,
    plan_gpu_smooth_stockham_uploads_for_batches_with_axis_context,
    plan_nvidia_vulkan_power_of_two_stockham_uploads,
    plan_nvidia_vulkan_power_of_two_stockham_uploads_for_batches,
    plan_nvidia_vulkan_smooth_stockham_uploads,
};

fn nvidia_vulkan(shared_memory_bytes: usize) -> DeviceProfile {
    DeviceProfile {
        shared_memory_bytes,
        shared_memory_pow2_bytes: shared_memory_bytes.next_power_of_two() / 2,
        coalesced_memory_bytes: 32,
        ..DeviceProfile::generic(Backend::Vulkan, GpuVendor::Nvidia)
    }
}

#[test]
fn double_double_upload_scheduler_uses_quad_capacity_and_upstream_splits() {
    let device = nvidia_vulkan(48 * 1024);

    let two = plan_gpu_double_double_stockham_uploads_for_batches(8_192, 7, device).unwrap();
    assert_eq!(two.used_shared_memory_bytes, 32 * 1024);
    assert_eq!(two.max_sequence_len_shared, 1_024);
    assert_eq!(two.max_sequence_len_strided, 1_024);
    assert_eq!(two.upload_count, 2);
    assert_eq!(two.axis_split, vec![128, 64]);
    assert_eq!(
        two.quad_schedules
            .iter()
            .map(|quad| quad.fft_len)
            .collect::<Vec<_>>(),
        two.axis_split
    );
    two.validate().unwrap();

    let wider = plan_gpu_double_double_stockham_uploads_for_batches(32_768, 1, device).unwrap();
    assert_eq!(wider.upload_count, 2);
    assert_eq!(wider.axis_split, vec![512, 64]);
    assert_eq!(
        wider
            .quad_schedules
            .iter()
            .map(|quad| quad.fft_len)
            .collect::<Vec<_>>(),
        wider.axis_split
    );
    wider.validate().unwrap();

    let very_wide =
        plan_gpu_double_double_stockham_uploads_for_batches(1_679_616, 1, device).unwrap();
    assert_eq!(very_wide.used_shared_memory_bytes, 48 * 1024);
    assert_eq!(very_wide.max_sequence_len_shared, 1_536);
    assert_eq!(very_wide.max_sequence_len_strided, 1_536);
    assert_eq!(very_wide.upload_count, 2);
    assert_eq!(very_wide.axis_split, vec![1_296, 1_296]);
    very_wide.validate().unwrap();

    let smooth = plan_gpu_double_double_stockham_uploads_for_batches(4_116, 3, device).unwrap();
    assert_eq!(smooth.used_shared_memory_bytes, 48 * 1024);
    assert_eq!(smooth.upload_count, 2);
    assert_eq!(smooth.axis_split, vec![84, 49]);
    assert!(
        smooth
            .quad_schedules
            .iter()
            .all(|quad| quad.min_registers_per_thread > 0)
    );
    smooth.validate().unwrap();

    let three =
        plan_gpu_double_double_stockham_uploads_for_batches(8_388_608, 1, device).unwrap();
    assert_eq!(three.upload_count, 3);
    assert_eq!(three.axis_split, vec![256, 128, 256]);
    assert_eq!(
        three
            .quad_schedules
            .iter()
            .map(|quad| quad.fft_len)
            .collect::<Vec<_>>(),
        three.axis_split
    );
    three.validate().unwrap();

    let three_wide =
        plan_gpu_double_double_stockham_uploads_for_batches(9_765_625, 1, device).unwrap();
    assert_eq!(three_wide.used_shared_memory_bytes, 48 * 1024);
    assert_eq!(three_wide.max_sequence_len_shared, 1_536);
    assert_eq!(three_wide.max_sequence_len_strided, 1_536);
    assert_eq!(three_wide.upload_count, 3);
    assert_eq!(three_wide.axis_split, vec![625, 125, 125]);
    assert_eq!(
        three_wide
            .quad_schedules
            .iter()
            .map(|quad| quad.fft_len)
            .collect::<Vec<_>>(),
        three_wide.axis_split
    );
    three_wide.validate().unwrap();
}

#[test]
fn double_double_three_upload_scheduler_reaches_875_point_component() {
    let device = nvidia_vulkan(48 * 1024);
    let schedule =
        plan_gpu_double_double_stockham_uploads_for_batches(102_942_875, 1, device).unwrap();
    assert_eq!(schedule.used_shared_memory_bytes, 48 * 1024);
    assert_eq!(schedule.max_sequence_len_shared, 1_536);
    assert_eq!(schedule.max_sequence_len_strided, 1_536);
    assert_eq!(schedule.upload_count, 3);
    assert_eq!(schedule.axis_split, vec![875, 343, 343]);
    assert_eq!(
        schedule
            .quad_schedules
            .iter()
            .map(|quad| quad.fft_len)
            .collect::<Vec<_>>(),
        schedule.axis_split
    );
    schedule.validate().unwrap();
}

#[test]
fn double_double_three_upload_scheduler_reaches_full_1536_capacity() {
    let device = nvidia_vulkan(48 * 1024);
    let schedule =
        plan_gpu_double_double_stockham_uploads_for_batches(3_319_142_400, 1, device).unwrap();
    assert_eq!(schedule.used_shared_memory_bytes, 48 * 1024);
    assert_eq!(schedule.max_sequence_len_shared, 1_536);
    assert_eq!(schedule.max_sequence_len_strided, 1_536);
    assert_eq!(schedule.upload_count, 3);
    assert_eq!(schedule.axis_split, vec![1536, 1470, 1470]);
    assert_eq!(
        schedule
            .quad_schedules
            .iter()
            .map(|quad| quad.fft_len)
            .collect::<Vec<_>>(),
        schedule.axis_split
    );
    schedule.validate().unwrap();
}

#[test]
fn double_double_two_upload_scheduler_reaches_3125_point_component_on_128k() {
    let mut device = nvidia_vulkan(128 * 1024);
    device.shared_memory_pow2_bytes = 128 * 1024;
    let schedule =
        plan_gpu_double_double_stockham_uploads_for_batches(1_953_125, 1, device).unwrap();
    assert_eq!(schedule.used_shared_memory_bytes, 128 * 1024);
    assert_eq!(schedule.max_sequence_len_shared, 4_096);
    assert_eq!(schedule.max_sequence_len_strided, 4_096);
    assert_eq!(schedule.upload_count, 2);
    assert_eq!(schedule.axis_split, vec![3125, 625]);
    assert_eq!(
        schedule
            .quad_schedules
            .iter()
            .map(|quad| quad.fft_len)
            .collect::<Vec<_>>(),
        schedule.axis_split
    );
    schedule.validate().unwrap();
}

#[test]
fn double_double_three_upload_scheduler_reaches_2401_point_component_on_96k() {
    let mut device = nvidia_vulkan(96 * 1024);
    device.shared_memory_pow2_bytes = 64 * 1024;
    let schedule =
        plan_gpu_double_double_stockham_uploads_for_batches(282_475_249, 1, device).unwrap();
    assert_eq!(schedule.used_shared_memory_bytes, 96 * 1024);
    assert_eq!(schedule.max_sequence_len_shared, 3_072);
    assert_eq!(schedule.max_sequence_len_strided, 3_072);
    assert_eq!(schedule.upload_count, 3);
    assert_eq!(schedule.axis_split, vec![2401, 343, 343]);
    assert_eq!(
        schedule
            .quad_schedules
            .iter()
            .map(|quad| quad.fft_len)
            .collect::<Vec<_>>(),
        schedule.axis_split
    );
    schedule.validate().unwrap();
}

#[test]
fn double_double_three_upload_scheduler_reaches_full_4096_leaf_capacity_on_128k() {
    let mut device = nvidia_vulkan(128 * 1024);
    device.shared_memory_pow2_bytes = 128 * 1024;
    let schedule =
        plan_gpu_double_double_stockham_uploads_for_batches(68_719_476_736, 1, device).unwrap();
    assert_eq!(schedule.used_shared_memory_bytes, 128 * 1024);
    assert_eq!(schedule.max_sequence_len_shared, 4_096);
    assert_eq!(schedule.max_sequence_len_strided, 4_096);
    assert_eq!(schedule.upload_count, 3);
    assert_eq!(schedule.axis_split, vec![4096, 4096, 4096]);
    assert_eq!(
        schedule
            .quad_schedules
            .iter()
            .map(|quad| quad.fft_len)
            .collect::<Vec<_>>(),
        schedule.axis_split
    );
    schedule.validate().unwrap();
}

#[test]
fn double_double_large_shared_single_upload_stockham_matches_upstream_global_scaling() {
    let mut device = nvidia_vulkan(164 * 1024);
    device.shared_memory_pow2_bytes = 164 * 1024;
    device.max_threads_per_block = 1024;
    device.max_workgroup_size = [1024, 1024, 64];

    for (sequence_len, expected_threads) in [
        (4_800usize, 960usize),
        (5_000usize, 625usize),
        (5_120usize, 640usize),
    ] {
        let upload =
            plan_gpu_double_double_stockham_uploads_for_batches(sequence_len, 1, device)
                .unwrap();
        assert_eq!(upload.upload_count, 1);
        assert_eq!(upload.axis_split, vec![sequence_len]);

        let block = plan_gpu_double_double_axis0_stockham_block(sequence_len, 1, device)
            .unwrap()
            .expect("164KiB DD single-upload transform should have an automatic axis block");
        assert_eq!(block.threads_per_transform, expected_threads);
        assert_eq!(block.grouped_batch, 1);
        assert_eq!(
            [block.local_size_x, block.local_size_y],
            [expected_threads, 1]
        );
        assert!(!block.transforms_on_x);
        assert!(!block.axis_swapped);
        block.validate(1, device).unwrap();

        let batched = plan_gpu_double_double_axis0_stockham_block(sequence_len, 32, device)
            .unwrap()
            .expect(
                "164KiB DD batch32 single-upload transform should keep the same caller floor",
            );
        assert_eq!(batched.threads_per_transform, expected_threads);
        assert_eq!(batched.grouped_batch, 1);
        assert_eq!(
            [batched.local_size_x, batched.local_size_y],
            [expected_threads, 1]
        );
        assert!(!batched.transforms_on_x);
        assert!(!batched.axis_swapped);
        batched.validate(32, device).unwrap();

        let higher = plan_gpu_double_double_other_axis_stockham_block(sequence_len, 40, device)
            .unwrap()
            .expect("164KiB DD higher-axis single-upload transform should keep one transform per workgroup");
        assert_eq!(higher.threads_per_transform, expected_threads);
        assert_eq!(higher.grouped_batch, 1);
        assert_eq!(
            [higher.local_size_x, higher.local_size_y],
            [1, expected_threads]
        );
        assert!(higher.transforms_on_x);
        assert!(!higher.axis_swapped);
        higher.validate(40, device).unwrap();
    }

    let small_device = nvidia_vulkan(48 * 1024);
    assert!(
        plan_gpu_double_double_axis0_stockham_block(5_000, 1, small_device)
            .unwrap()
            .is_none(),
        "N5000 must remain resource-driven and require multiple uploads on 48KiB"
    );
    assert!(
        plan_gpu_double_double_other_axis_stockham_block(5_000, 40, small_device)
            .unwrap()
            .is_none(),
        "higher-axis N5000 must also remain multi-upload on 48KiB"
    );
}

#[test]
fn strided_axis_class_changes_default_power_of_two_upload_count() {
    let mut device = nvidia_vulkan(48 * 1024);
    device.shared_memory_pow2_bytes = 32 * 1024;
    device.max_threads_per_block = 1024;
    device.max_workgroup_size = [1024, 1024, 64];

    let contiguous = plan_gpu_power_of_two_stockham_uploads_for_batches_with_axis_context(
        8_192,
        1,
        Precision::F32,
        device,
        StockhamUploadAxisContext::default(),
    )
    .unwrap();
    assert_eq!(contiguous.upload_count, 1);
    assert_eq!(contiguous.axis_split, vec![8_192]);

    let strided = plan_gpu_power_of_two_stockham_uploads_for_batches_with_axis_context(
        8_192,
        1,
        Precision::F32,
        device,
        StockhamUploadAxisContext {
            strided_axis: true,
            ..StockhamUploadAxisContext::default()
        },
    )
    .unwrap();
    assert_eq!(strided.upload_count, 2);
    assert_eq!(strided.axis_split.iter().product::<usize>(), 8_192);
    assert_ne!(strided.axis_split, contiguous.axis_split);
}

#[test]
fn strided_bandwidth_boost_reduces_upload_count_only_when_profitable() {
    let mut device = nvidia_vulkan(48 * 1024);
    device.shared_memory_pow2_bytes = 32 * 1024;
    device.max_threads_per_block = 1024;
    device.max_workgroup_size = [1024, 1024, 64];
    let length = 2_097_152usize;

    let baseline = plan_gpu_power_of_two_stockham_uploads_for_batches_with_axis_context(
        length,
        1,
        Precision::F32,
        device,
        StockhamUploadAxisContext {
            strided_axis: true,
            ..StockhamUploadAxisContext::default()
        },
    )
    .unwrap();
    assert_eq!(baseline.upload_count, 3);

    let neutral = plan_gpu_power_of_two_stockham_uploads_for_batches_with_axis_context(
        length,
        1,
        Precision::F32,
        device,
        StockhamUploadAxisContext {
            strided_axis: true,
            bandwidth_boost: 1,
            ..StockhamUploadAxisContext::default()
        },
    )
    .unwrap();
    assert_eq!(neutral.upload_count, baseline.upload_count);
    assert_eq!(neutral.axis_split, baseline.axis_split);

    let boosted = plan_gpu_power_of_two_stockham_uploads_for_batches_with_axis_context(
        length,
        1,
        Precision::F32,
        device,
        StockhamUploadAxisContext {
            strided_axis: true,
            bandwidth_boost: 2,
            ..StockhamUploadAxisContext::default()
        },
    )
    .unwrap();
    assert_eq!(boosted.upload_count, 2);
    assert_eq!(boosted.axis_split, vec![2_048, 1_024]);
}

#[test]
fn smooth_strided_bandwidth_boost_reduces_three_upload_to_two() {
    let mut device = nvidia_vulkan(48 * 1024);
    device.shared_memory_pow2_bytes = 32 * 1024;
    device.max_threads_per_block = 1024;
    device.max_workgroup_size = [1024, 1024, 64];
    let length = 3_145_728usize;

    let baseline = plan_gpu_smooth_stockham_uploads_for_batches_with_axis_context(
        length,
        1,
        Precision::F32,
        device,
        StockhamUploadAxisContext {
            strided_axis: true,
            ..StockhamUploadAxisContext::default()
        },
    )
    .unwrap();
    assert_eq!(baseline.upload_count, 3);
    assert_eq!(baseline.axis_split, vec![192, 128, 128]);

    let boosted = plan_gpu_smooth_stockham_uploads_for_batches_with_axis_context(
        length,
        1,
        Precision::F32,
        device,
        StockhamUploadAxisContext {
            strided_axis: true,
            bandwidth_boost: 2,
            ..StockhamUploadAxisContext::default()
        },
    )
    .unwrap();
    assert_eq!(boosted.upload_count, 2);
    assert_eq!(boosted.axis_split, vec![2_048, 1_536]);
}

#[test]
fn four_step_shape_splitter_matches_stockham_physical_rules_across_vendors() {
    for (backend, vendor) in [
        (Backend::Vulkan, GpuVendor::Nvidia),
        (Backend::Vulkan, GpuVendor::Amd),
        (Backend::OpenCl, GpuVendor::Intel),
    ] {
        let device = DeviceProfile {
            shared_memory_bytes: 4 * 1024,
            shared_memory_pow2_bytes: 4 * 1024,
            max_threads_per_block: 256,
            max_workgroup_size: [256, 256, 64],
            supports_f64: true,
            ..DeviceProfile::generic(backend, vendor)
        };
        let length = 8192usize;
        let upload = plan_gpu_smooth_stockham_uploads(length, Precision::F32, device).unwrap();
        assert!(matches!(upload.upload_count, 2 | 3));
        let mut stage_start_size = 1usize;
        let mut compared = 0usize;
        for axis_upload_id in 0..upload.upload_count {
            let fft_len = upload.axis_split[axis_upload_id];
            let transform_count = length / fft_len;
            let stockham = plan_gpu_axis0_four_step_upload_block(
                &upload,
                axis_upload_id,
                stage_start_size,
                transform_count,
                1,
                8,
                device,
            )
            .unwrap();
            if let Some(stockham) = stockham.filter(|block| block.grouped_batch > 1) {
                let shape = plan_gpu_axis0_four_step_default_block_from_shape(
                    upload.upload_count,
                    fft_len,
                    stockham.threads_per_transform,
                    FourStepAxisBlockRequest {
                        axis_upload_id,
                        stage_start_size,
                        transform_count,
                        outer_batch_count: 1,
                        perform_zero_padding: false,
                        grouped_batch_override: None,
                    },
                    8,
                    device,
                )
                .unwrap();
                assert_eq!(
                    shape,
                    Some(stockham),
                    "shape-only splitter diverged for {backend:?}/{vendor:?} upload {axis_upload_id}"
                );
                compared += 1;
            }
            stage_start_size *= fft_len;
        }
        assert!(
            compared > 0,
            "no grouped Four-step upload exercised for {vendor:?}"
        );
    }
}

#[test]
fn four_step_shape_splitter_uses_precision_specific_coalescing_width() {
    let mut device = nvidia_vulkan(48 * 1024);
    device.shared_memory_pow2_bytes = 32 * 1024;
    device.max_threads_per_block = 128;
    device.max_workgroup_size = [128, 128, 64];
    let request = FourStepAxisBlockRequest {
        axis_upload_id: 1,
        stage_start_size: 75,
        transform_count: 75,
        outer_batch_count: 1,
        perform_zero_padding: false,
        grouped_batch_override: None,
    };
    let ordinary =
        plan_gpu_axis0_four_step_default_block_from_shape(2, 68, 5, request, 8, device)
            .unwrap()
            .unwrap();
    assert_eq!(ordinary.threads_per_transform, 5);
    assert_eq!(ordinary.grouped_batch, 16);
    assert_eq!([ordinary.local_size_x, ordinary.local_size_y], [16, 5]);
    assert!(ordinary.transforms_on_x);
    assert!(!ordinary.axis_swapped);

    let quad = plan_gpu_axis0_four_step_default_block_from_shape(2, 68, 5, request, 32, device)
        .unwrap()
        .unwrap();
    assert_eq!(quad.threads_per_transform, 5);
    assert_eq!(quad.grouped_batch, 4);
    assert_eq!([quad.local_size_x, quad.local_size_y], [4, 5]);
    assert!(quad.transforms_on_x);
    assert!(!quad.axis_swapped);
}

#[test]
fn nvidia_two_upload_large_power_of_two_uses_sqrt_split() {
    let device = nvidia_vulkan(48 * 1024);
    let schedule =
        plan_nvidia_vulkan_power_of_two_stockham_uploads(1_048_576, Precision::F32, device)
            .unwrap();
    assert_eq!(schedule.register_boost, 1);
    assert_eq!(schedule.upload_count, 2);
    assert_eq!(schedule.axis_split, vec![1024, 1024]);
}

#[test]
fn nvidia_three_upload_threshold_uses_cube_root_divisor_search() {
    let device = nvidia_vulkan(48 * 1024);
    let schedule =
        plan_nvidia_vulkan_power_of_two_stockham_uploads(8_388_608, Precision::F32, device)
            .unwrap();
    assert_eq!(schedule.register_boost, 1);
    assert_eq!(schedule.upload_count, 3);
    assert_eq!(schedule.axis_split, vec![256, 128, 256]);
}

#[test]
fn nvidia_smooth_non_power_of_two_uploads_follow_generic_divisor_searches() {
    let device = DeviceProfile::generic(Backend::Vulkan, GpuVendor::Nvidia);

    let one = plan_nvidia_vulkan_smooth_stockham_uploads(3840, Precision::F32, device).unwrap();
    assert_eq!(one.register_boost, 1);
    assert_eq!(one.upload_count, 1);
    assert_eq!(one.axis_split, vec![3840]);
    assert_eq!(one.radix_schedules[0].stage_radices, vec![10, 12, 4, 4, 2]);
    assert_eq!(
        one.radix_schedules[0]
            .stage_radices
            .iter()
            .product::<usize>(),
        3840
    );

    let two = plan_nvidia_vulkan_smooth_stockham_uploads(6144, Precision::F32, device).unwrap();
    assert_eq!(two.register_boost, 1);
    assert_eq!(two.upload_count, 2);
    assert_eq!(two.axis_split, vec![96, 64]);
    assert_eq!(
        two.radix_schedules[0]
            .stage_radices
            .iter()
            .product::<usize>(),
        96
    );
    assert_eq!(
        two.radix_schedules[1]
            .stage_radices
            .iter()
            .product::<usize>(),
        64
    );

    let three =
        plan_nvidia_vulkan_smooth_stockham_uploads(1_572_864, Precision::F32, device).unwrap();
    assert_eq!(three.register_boost, 1);
    assert_eq!(three.upload_count, 3);
    assert_eq!(three.axis_split, vec![128, 96, 128]);
    assert!(three.axis_split.iter().all(|factor| *factor <= 1024));
    three.validate().unwrap();
}

#[test]
fn four_step_shape_respects_mixed_storage_coalescing_width() {
    let device = DeviceProfile {
        shared_memory_bytes: 8 * 1024,
        shared_memory_pow2_bytes: 8 * 1024,
        max_threads_per_block: 1024,
        max_workgroup_size: [1024, 1024, 64],
        ..DeviceProfile::generic(Backend::Vulkan, GpuVendor::Amd)
    };
    let request = FourStepAxisBlockRequest {
        axis_upload_id: 1,
        stage_start_size: 47,
        transform_count: 517,
        outer_batch_count: 1,
        perform_zero_padding: false,
        grouped_batch_override: None,
    };
    let f32 = plan_gpu_axis0_four_step_default_block_from_shape_for_precision(
        3,
        17,
        2,
        request,
        Precision::F32,
        8,
        device,
    )
    .unwrap()
    .unwrap();
    let f16 = plan_gpu_axis0_four_step_default_block_from_shape_for_precision(
        3,
        17,
        2,
        request,
        Precision::F16StorageF32Compute,
        8,
        device,
    )
    .unwrap()
    .unwrap();
    assert_eq!((f32.grouped_batch, f32.local_size_x), (47, 47));
    assert_eq!((f16.grouped_batch, f16.local_size_x), (32, 32));
    assert_eq!((f16.threads_per_transform, f16.local_size_y), (2, 2));
}

#[test]
fn batch_aware_upload_schedule_embeds_per_upload_register_metadata() {
    let device = nvidia_vulkan(48 * 1024);
    let schedule = plan_nvidia_vulkan_power_of_two_stockham_uploads_for_batches(
        1_048_576,
        2,
        Precision::F32,
        device,
    )
    .unwrap();
    assert_eq!(schedule.batch_count, 2);
    assert_eq!(schedule.axis_split, vec![1024, 1024]);
    assert_eq!(schedule.radix_schedules.len(), 2);
    for radix in &schedule.radix_schedules {
        assert_eq!(radix.fft_len, 1024);
        assert_eq!(radix.rhs_transform_count, 2048);
        assert_eq!(radix.register_boost, 1);
        assert_eq!(radix.stage_radices, vec![8, 8, 8, 2]);
    }
}
