use vkfft_scheduler::config::{Backend, DeviceProfile, GpuVendor, Precision};
use vkfft_scheduler::four_step_blocks::{
    plan_gpu_axis0_four_step_grouped_block_from_shape,
    plan_gpu_axis0_four_step_grouped_block_from_shape_for_precision,
    plan_gpu_axis0_four_step_upload_block, plan_gpu_axis0_four_step_upload_block_with_grouped_batch,
    FourStepAxisBlockRequest,
};
use vkfft_scheduler::stockham_blocks::{
    plan_gpu_axis0_single_upload_block, plan_gpu_axis0_single_upload_block_with_grouped_batch,
    plan_gpu_axis0_single_upload_block_with_zero_padding,
    plan_gpu_double_double_axis0_user_grouped_stockham_block,
    plan_gpu_double_double_other_axis_user_grouped_stockham_block,
    plan_gpu_other_axis_four_step_upload_block,
    plan_gpu_other_axis_four_step_upload_block_with_grouped_batch,
    plan_gpu_other_axis_single_upload_block,
    plan_gpu_other_axis_single_upload_block_with_grouped_batch,
};
use vkfft_scheduler::upload_count::StockhamUploadAxisContext;
use vkfft_scheduler::uploads::{
    plan_gpu_power_of_two_stockham_uploads_for_batches,
    plan_gpu_power_of_two_stockham_uploads_for_batches_with_axis_context,
    plan_gpu_smooth_stockham_uploads_for_batches,
};

fn nvidia_vulkan(shared_memory_bytes: usize) -> DeviceProfile {
    DeviceProfile {
        shared_memory_bytes,
        shared_memory_pow2_bytes: shared_memory_bytes.next_power_of_two() / 2,
        coalesced_memory_bytes: 32,
        ..DeviceProfile::generic(Backend::Vulkan, GpuVendor::Nvidia)
    }
}

#[test]
fn axis0_single_upload_block_matches_upstream_default_batch_geometry() {
    let mut device = nvidia_vulkan(48 * 1024);
    device.max_threads_per_block = 1024;
    device.max_workgroup_size = [1024, 1024, 64];
    let upload =
        plan_gpu_power_of_two_stockham_uploads_for_batches(64, 32, Precision::F32, device)
            .unwrap();
    assert_eq!(upload.upload_count, 1);
    assert_eq!(upload.register_boost, 1);
    assert_eq!(upload.radix_schedules[0].stage_radices, vec![8, 8]);

    let block = plan_gpu_axis0_single_upload_block(&upload, 8, device)
        .unwrap()
        .expect("64-point batched Stockham should use the covered axis block");
    assert_eq!(block.threads_per_transform, 8);
    assert_eq!(block.grouped_batch, 16);
    assert!(block.axis_swapped);
    assert_eq!([block.local_size_x, block.local_size_y], [16, 8]);
    block.validate(32, device).unwrap();

    let padded = plan_gpu_axis0_single_upload_block_with_zero_padding(&upload, 8, true, device)
        .unwrap()
        .expect("zero padding should keep groupedBatch while suppressing axisSwapped");
    assert_eq!(padded.threads_per_transform, 8);
    assert_eq!(padded.grouped_batch, 16);
    assert!(!padded.transforms_on_x);
    assert!(!padded.axis_swapped);
    assert_eq!([padded.local_size_x, padded.local_size_y], [8, 16]);
    padded.validate(32, device).unwrap();

    let user = plan_gpu_axis0_single_upload_block_with_grouped_batch(
        &upload,
        8,
        false,
        Some(8),
        device,
    )
    .unwrap()
    .expect("groupedBatch=8 should produce the upstream user-override block");
    assert_eq!(user.grouped_batch, 8);
    assert!(user.transforms_on_x);
    assert!(user.axis_swapped);
    assert_eq!([user.local_size_x, user.local_size_y], [8, 8]);

    let user_padded = plan_gpu_axis0_single_upload_block_with_grouped_batch(
        &upload,
        8,
        true,
        Some(8),
        device,
    )
    .unwrap()
    .expect("padded groupedBatch=8 should keep the user cap without axis swap");
    assert_eq!(user_padded.grouped_batch, 8);
    assert!(!user_padded.transforms_on_x);
    assert!(!user_padded.axis_swapped);
    assert_eq!([user_padded.local_size_x, user_padded.local_size_y], [8, 8]);

    let mixed_upload =
        plan_gpu_smooth_stockham_uploads_for_batches(18, 32, Precision::F32, device).unwrap();
    assert_eq!(mixed_upload.upload_count, 1);
    assert_eq!(mixed_upload.register_boost, 1);
    assert_eq!(mixed_upload.radix_schedules[0].stage_radices, vec![6, 3]);
    let mixed = plan_gpu_axis0_single_upload_block(&mixed_upload, 8, device)
        .unwrap()
        .expect("18-point smooth Stockham should share the same axis-block scheduler");
    assert_eq!(mixed.threads_per_transform, 3);
    assert_eq!(mixed.grouped_batch, 32);
    assert!(mixed.axis_swapped);
    assert_eq!([mixed.local_size_x, mixed.local_size_y], [32, 3]);

    let mut total_limited = device;
    total_limited.max_threads_per_block = 64;
    let limited = plan_gpu_axis0_single_upload_block(&upload, 8, total_limited)
        .unwrap()
        .expect("total-thread limit should shrink the batch block");
    assert_eq!(limited.grouped_batch, 8);
    assert!(limited.axis_swapped);
    assert_eq!([limited.local_size_x, limited.local_size_y], [8, 8]);

    let mut x_limited = device;
    x_limited.max_workgroup_size[0] = 8;
    assert!(
        plan_gpu_axis0_single_upload_block(&upload, 8, x_limited)
            .unwrap()
            .is_none(),
        "post-swap X must still obey the physical per-dimension limit"
    );
}

#[test]
fn higher_axis_single_upload_block_uses_fastest_dimension_on_x() {
    let mut device = nvidia_vulkan(48 * 1024);
    device.max_threads_per_block = 1024;
    device.max_workgroup_size = [1024, 1024, 64];

    let n3 =
        plan_gpu_smooth_stockham_uploads_for_batches(3, 8, Precision::F32, device).unwrap();
    let block3 = plan_gpu_other_axis_single_upload_block(&n3, 8, 8, device)
        .unwrap()
        .expect("higher-axis N=3 should group all eight fastest-axis sequences");
    assert_eq!(block3.threads_per_transform, 1);
    assert_eq!(block3.grouped_batch, 8);
    assert_eq!([block3.local_size_x, block3.local_size_y], [8, 1]);
    assert!(block3.transforms_on_x);
    assert!(!block3.axis_swapped);

    let n64 =
        plan_gpu_power_of_two_stockham_uploads_for_batches(64, 64, Precision::F32, device)
            .unwrap();
    let block64 = plan_gpu_other_axis_single_upload_block(&n64, 64, 8, device)
        .unwrap()
        .expect("higher-axis N=64 should use the upstream NVIDIA aimThreads shrink");
    assert_eq!(block64.threads_per_transform, 8);
    assert_eq!(block64.grouped_batch, 16);
    assert_eq!([block64.local_size_x, block64.local_size_y], [16, 8]);
    assert!(block64.transforms_on_x);
    assert!(!block64.axis_swapped);

    let n64_three_dim =
        plan_gpu_power_of_two_stockham_uploads_for_batches(64, 512, Precision::F32, device)
            .unwrap();
    let capped = plan_gpu_other_axis_single_upload_block(&n64_three_dim, 8, 8, device)
        .unwrap()
        .expect("higher-axis grouping must be capped by physical size[0], not inner stride");
    assert_eq!(capped.grouped_batch, 8);
    assert_eq!([capped.local_size_x, capped.local_size_y], [8, 8]);
}

#[test]
fn double_double_power_of_two_user_grouped_batch_uses_quad_register_floor() {
    let mut device = nvidia_vulkan(48 * 1024);
    device.max_threads_per_block = 1024;
    device.max_workgroup_size = [1024, 1024, 64];
    let block =
        plan_gpu_double_double_axis0_user_grouped_stockham_block(64, 7, Some(3), device)
            .unwrap()
            .expect("DD N=64 groupedBatch=3 should have an exact Quad axis block");
    assert_eq!(block.threads_per_transform, 8);
    assert_eq!(block.grouped_batch, 3);
    assert_eq!([block.local_size_x, block.local_size_y], [3, 8]);
    assert!(block.transforms_on_x);
    assert!(block.axis_swapped);

    let n16 = plan_gpu_double_double_axis0_user_grouped_stockham_block(16, 7, Some(3), device)
        .unwrap()
        .expect("DD N=16 groupedBatch=3 should keep a multi-lane Quad block");
    assert_eq!(n16.threads_per_transform, 4);
    assert_eq!(n16.grouped_batch, 3);
    assert_eq!([n16.local_size_x, n16.local_size_y], [3, 4]);
    assert!(n16.transforms_on_x);
    assert!(n16.axis_swapped);

    let n72 = plan_gpu_double_double_axis0_user_grouped_stockham_block(72, 7, Some(3), device)
        .unwrap()
        .expect("DD mixed-radix N=72 should be resource-gated rather than length-capped");
    assert_eq!(n72.threads_per_transform, 12);
    assert_eq!(n72.grouped_batch, 3);
    assert_eq!([n72.local_size_x, n72.local_size_y], [3, 12]);
    assert!(n72.transforms_on_x);
    assert!(n72.axis_swapped);

    let n512 =
        plan_gpu_double_double_axis0_user_grouped_stockham_block(512, 7, Some(3), device)
            .unwrap()
            .expect("DD N=512/G=3 should fit the exact 48KiB shared stripe");
    assert_eq!(n512.threads_per_transform, 64);
    assert_eq!(n512.grouped_batch, 3);
    assert_eq!([n512.local_size_x, n512.local_size_y], [64, 3]);
    assert!(!n512.transforms_on_x);
    assert!(!n512.axis_swapped);

    let n1024 =
        plan_gpu_double_double_axis0_user_grouped_stockham_block(1024, 7, Some(3), device)
            .unwrap()
            .expect("raw fixed-upstream resource clamp should still yield a group-1 fallback");
    assert_eq!(n1024.threads_per_transform, 128);
    assert_eq!(n1024.grouped_batch, 1);
    assert_eq!([n1024.local_size_x, n1024.local_size_y], [128, 1]);

    let higher = plan_gpu_double_double_other_axis_user_grouped_stockham_block(
        64,
        56,
        8,
        Some(3),
        Some(3),
        device,
    )
    .unwrap()
    .expect("DD higher-axis N=64 groupedBatch=3 should use the Quad X/Y tile");
    assert_eq!(higher.threads_per_transform, 8);
    assert_eq!(higher.grouped_batch, 3);
    assert_eq!([higher.local_size_x, higher.local_size_y], [3, 8]);
    assert!(higher.transforms_on_x);
    assert!(!higher.axis_swapped);

    let higher_axis2 = plan_gpu_double_double_other_axis_user_grouped_stockham_block(
        64,
        56,
        8,
        Some(5),
        Some(3),
        device,
    )
    .unwrap()
    .expect("DD axis>=2 grouping should preserve the fixed upstream axis-1 gate");
    assert_eq!(higher_axis2.grouped_batch, 5);
    assert_eq!(
        [higher_axis2.local_size_x, higher_axis2.local_size_y],
        [5, 8]
    );
    assert!(higher_axis2.transforms_on_x);
    assert!(!higher_axis2.axis_swapped);

    assert!(
        plan_gpu_double_double_axis0_user_grouped_stockham_block(32, 7, None, device,)
            .unwrap()
            .is_none()
    );
    let n48 = plan_gpu_double_double_axis0_user_grouped_stockham_block(48, 7, Some(3), device)
        .unwrap()
        .expect("DD mixed-radix N=48 should consume the exact Quad 2x3 table");
    assert_eq!(n48.threads_per_transform, 8);
    assert_eq!([n48.local_size_x, n48.local_size_y], [3, 8]);
    assert!(n48.axis_swapped);
    assert!(
        plan_gpu_double_double_axis0_user_grouped_stockham_block(11, 7, Some(3), device)
            .unwrap()
            .is_none()
    );
}

#[test]
fn higher_axis_user_grouped_batch_matches_fixed_upstream_x_tile() {
    let mut device = nvidia_vulkan(48 * 1024);
    device.max_threads_per_block = 1024;
    device.max_workgroup_size = [1024, 1024, 64];

    let n3 =
        plan_gpu_smooth_stockham_uploads_for_batches(3, 40, Precision::F32, device).unwrap();
    let axis1 = plan_gpu_other_axis_single_upload_block_with_grouped_batch(
        &n3,
        8,
        8,
        Some(3),
        Some(3),
        device,
    )
    .unwrap()
    .expect("axis-1 user groupedBatch should override the physical X tile");
    assert_eq!(axis1.threads_per_transform, 1);
    assert_eq!(axis1.grouped_batch, 3);
    assert_eq!([axis1.local_size_x, axis1.local_size_y], [3, 1]);
    assert!(axis1.transforms_on_x);
    assert!(!axis1.axis_swapped);

    let n64 =
        plan_gpu_power_of_two_stockham_uploads_for_batches(64, 64, Precision::F32, device)
            .unwrap();
    let user = plan_gpu_other_axis_single_upload_block_with_grouped_batch(
        &n64,
        64,
        8,
        Some(7),
        Some(7),
        device,
    )
    .unwrap()
    .expect("user groupedBatch should run before the default NVIDIA aimThreads shrink");
    assert_eq!(user.threads_per_transform, 8);
    assert_eq!(user.grouped_batch, 7);
    assert_eq!([user.local_size_x, user.local_size_y], [7, 8]);

    let axis2 = plan_gpu_other_axis_single_upload_block_with_grouped_batch(
        &n64,
        8,
        8,
        Some(5),
        Some(3),
        device,
    )
    .unwrap()
    .expect("axis-2 groupedBatch should use the fixed upstream axis-1 gate");
    assert_eq!(axis2.grouped_batch, 5);
    assert_eq!([axis2.local_size_x, axis2.local_size_y], [5, 8]);
}

#[test]
fn higher_axis_four_step_blocks_keep_transforms_on_x_across_uploads() {
    let mut device = nvidia_vulkan(32 * 1024);
    device.shared_memory_pow2_bytes = 32 * 1024;
    device.max_threads_per_block = 1024;
    device.max_workgroup_size = [1024, 1024, 64];

    let schedule =
        plan_gpu_smooth_stockham_uploads_for_batches(6_144, 40, Precision::F32, device)
            .unwrap();
    assert_eq!(schedule.upload_count, 2);
    assert_eq!(schedule.axis_split, vec![96, 64]);

    let upload1 = plan_gpu_other_axis_four_step_upload_block(&schedule, 1, 3_840, 8, 8, device)
        .unwrap()
        .expect("higher-axis upload1 should retain an executable X/Y block");
    let upload0 = plan_gpu_other_axis_four_step_upload_block(&schedule, 0, 2_560, 8, 8, device)
        .unwrap()
        .expect("higher-axis upload0 should retain an executable X/Y block");
    assert_eq!(upload1.grouped_batch, 8);
    assert_eq!(upload0.grouped_batch, 8);
    assert_eq!([upload1.local_size_x, upload1.local_size_y], [8, 8]);
    assert_eq!([upload0.local_size_x, upload0.local_size_y], [8, 8]);
    assert!(upload1.transforms_on_x && upload0.transforms_on_x);
    assert!(!upload1.axis_swapped && !upload0.axis_swapped);

    let user1 = plan_gpu_other_axis_four_step_upload_block_with_grouped_batch(
        &schedule,
        1,
        3_840,
        8,
        8,
        Some(3),
        Some(3),
        device,
    )
    .unwrap()
    .expect("higher-axis upload1 should preserve groupedBatch=3");
    let user0 = plan_gpu_other_axis_four_step_upload_block_with_grouped_batch(
        &schedule,
        0,
        2_560,
        8,
        8,
        Some(3),
        Some(3),
        device,
    )
    .unwrap()
    .expect("higher-axis upload0 should preserve groupedBatch=3");
    assert_eq!([user1.grouped_batch, user0.grouped_batch], [3, 3]);
    assert_eq!([user1.local_size_x, user1.local_size_y], [3, 8]);
    assert_eq!([user0.local_size_x, user0.local_size_y], [3, 8]);
    user1.validate(3_840, device).unwrap();
    user0.validate(2_560, device).unwrap();
}

#[test]
fn higher_axis_four_step_blocks_cover_three_upload_stockham() {
    let mut device = nvidia_vulkan(32 * 1024);
    device.shared_memory_pow2_bytes = 32 * 1024;
    device.max_threads_per_block = 1024;
    device.max_workgroup_size = [1024, 1024, 64];

    let schedule =
        plan_gpu_smooth_stockham_uploads_for_batches(1_572_864, 8, Precision::F32, device)
            .unwrap();
    assert_eq!(schedule.upload_count, 3);
    assert_eq!(schedule.axis_split, vec![128, 96, 128]);
    let counts = [98_304usize, 131_072, 98_304];
    let expected_y = [16usize, 8, 16];
    for ((axis_upload_id, transform_count), expected_y) in
        [2usize, 1, 0].into_iter().zip(counts).zip(expected_y)
    {
        let block = plan_gpu_other_axis_four_step_upload_block_with_grouped_batch(
            &schedule,
            axis_upload_id,
            transform_count,
            8,
            8,
            Some(3),
            Some(3),
            device,
        )
        .unwrap()
        .expect("higher-axis three-upload component should keep an executable block");
        assert_eq!(block.grouped_batch, 3);
        assert_eq!([block.local_size_x, block.local_size_y], [3, expected_y]);
        assert!(block.transforms_on_x);
        assert!(!block.axis_swapped);
        block.validate(transform_count, device).unwrap();
    }
}

#[test]
fn four_step_axis_blocks_match_upstream_two_and_three_upload_geometry() {
    let mut device = nvidia_vulkan(48 * 1024);
    device.max_threads_per_block = 1024;
    device.max_workgroup_size = [1024, 1024, 64];

    let two = plan_gpu_power_of_two_stockham_uploads_for_batches(
        1_048_576,
        1,
        Precision::F32,
        device,
    )
    .unwrap();
    assert_eq!(two.axis_split, vec![1024, 1024]);
    let upload1 = plan_gpu_axis0_four_step_upload_block(&two, 1, 1024, 1024, 1, 8, device)
        .unwrap()
        .expect("two-upload high pass should group Four-step transforms");
    let upload0 = plan_gpu_axis0_four_step_upload_block(&two, 0, 1, 1024, 1, 8, device)
        .unwrap()
        .expect("two-upload low pass should group Four-step transforms");
    for block in [upload1, upload0] {
        assert_eq!(block.threads_per_transform, 128);
        assert_eq!(block.grouped_batch, 4);
        assert!(block.transforms_on_x);
        assert_eq!([block.local_size_x, block.local_size_y], [4, 128]);
        block.validate(1024, device).unwrap();
    }
    assert!(!upload1.axis_swapped);
    assert!(upload0.axis_swapped);

    let user_upload1 = plan_gpu_axis0_four_step_upload_block_with_grouped_batch(
        &two,
        FourStepAxisBlockRequest {
            axis_upload_id: 1,
            stage_start_size: 1024,
            transform_count: 1024,
            outer_batch_count: 1,
            perform_zero_padding: false,
            grouped_batch_override: Some(2),
        },
        8,
        device,
    )
    .unwrap()
    .expect("two-upload user branch should keep upload1 grouped at four");
    let user_upload0 = plan_gpu_axis0_four_step_upload_block_with_grouped_batch(
        &two,
        FourStepAxisBlockRequest {
            axis_upload_id: 0,
            stage_start_size: 1,
            transform_count: 1024,
            outer_batch_count: 1,
            perform_zero_padding: false,
            grouped_batch_override: Some(2),
        },
        8,
        device,
    )
    .unwrap()
    .expect("two-upload user branch should cap upload0 at groupedBatch=2");
    assert_eq!(user_upload1.grouped_batch, 4);
    assert_eq!(
        [user_upload1.local_size_x, user_upload1.local_size_y],
        [4, 128]
    );
    assert!(!user_upload1.axis_swapped);
    assert_eq!(user_upload0.grouped_batch, 2);
    assert_eq!(
        [user_upload0.local_size_x, user_upload0.local_size_y],
        [2, 128]
    );
    assert!(user_upload0.axis_swapped);

    let three = plan_gpu_power_of_two_stockham_uploads_for_batches(
        8_388_608,
        1,
        Precision::F32,
        device,
    )
    .unwrap();
    assert_eq!(three.axis_split, vec![256, 128, 256]);
    let upload2 =
        plan_gpu_axis0_four_step_upload_block(&three, 2, 32_768, 32_768, 1, 8, device)
            .unwrap()
            .expect("three-upload high pass should group Four-step transforms");
    let upload1 = plan_gpu_axis0_four_step_upload_block(&three, 1, 256, 65_536, 1, 8, device)
        .unwrap()
        .expect("three-upload middle pass should group Four-step transforms");
    let upload0 = plan_gpu_axis0_four_step_upload_block(&three, 0, 1, 32_768, 1, 8, device)
        .unwrap()
        .expect("three-upload low pass should group Four-step transforms");
    assert_eq!(
        [
            upload2.grouped_batch,
            upload1.grouped_batch,
            upload0.grouped_batch,
        ],
        [16, 16, 16]
    );
    assert_eq!(
        [
            [upload2.local_size_x, upload2.local_size_y],
            [upload1.local_size_x, upload1.local_size_y],
            [upload0.local_size_x, upload0.local_size_y],
        ],
        [[16, 32], [16, 16], [16, 32]]
    );
    assert!(!upload2.axis_swapped && !upload1.axis_swapped && upload0.axis_swapped);
    assert!(upload2.transforms_on_x && upload1.transforms_on_x && upload0.transforms_on_x);

    let convolution_three =
        plan_gpu_power_of_two_stockham_uploads_for_batches_with_axis_context(
            8_388_608,
            1,
            Precision::F32,
            device,
            StockhamUploadAxisContext {
                perform_convolution: true,
                ..StockhamUploadAxisContext::default()
            },
        )
        .unwrap();
    assert_eq!(convolution_three.axis_split, vec![4096, 32, 64]);
    let convolution_u0 =
        plan_gpu_axis0_four_step_upload_block(&convolution_three, 0, 1, 2_048, 1, 8, device)
            .unwrap()
            .expect("three-upload convolution upload0 must preserve upstream groupedBatch=1");
    assert_eq!(convolution_u0.threads_per_transform, 512);
    assert_eq!(convolution_u0.grouped_batch, 1);
    assert!(!convolution_u0.transforms_on_x);
    assert!(!convolution_u0.axis_swapped);
    assert_eq!(
        [convolution_u0.local_size_x, convolution_u0.local_size_y],
        [512, 1]
    );
    convolution_u0.validate(2_048, device).unwrap();

    let user_middle = plan_gpu_axis0_four_step_upload_block_with_grouped_batch(
        &three,
        FourStepAxisBlockRequest {
            axis_upload_id: 1,
            stage_start_size: 256,
            transform_count: 65_536,
            outer_batch_count: 1,
            perform_zero_padding: false,
            grouped_batch_override: Some(2),
        },
        8,
        device,
    )
    .unwrap()
    .expect(
        "partial final Four-step workgroups make the fixed non-divisor user branch executable",
    );
    assert_eq!(user_middle.grouped_batch, 12);
    assert_eq!(
        [user_middle.local_size_x, user_middle.local_size_y],
        [12, 16]
    );
    assert_eq!(65_536usize.div_ceil(user_middle.grouped_batch), 5_462);
}

#[test]
fn grouped_four_step_precision_aware_path_preserves_f16_storage_coalescing() {
    let device = DeviceProfile {
        shared_memory_bytes: 32 * 1024,
        shared_memory_pow2_bytes: 32 * 1024,
        max_threads_per_block: 1024,
        max_workgroup_size: [1024, 1024, 64],
        ..DeviceProfile::generic(Backend::Vulkan, GpuVendor::Amd)
    };
    let request = FourStepAxisBlockRequest {
        axis_upload_id: 1,
        stage_start_size: 512,
        transform_count: 2_560,
        outer_batch_count: 5,
        perform_zero_padding: true,
        grouped_batch_override: Some(3),
    };
    let compute_shaped =
        plan_gpu_axis0_four_step_grouped_block_from_shape(2, 272, 17, request, 8, device)
            .unwrap()
            .unwrap();
    assert_eq!(compute_shaped.grouped_batch, 12);
    assert_eq!(
        [compute_shaped.local_size_x, compute_shaped.local_size_y],
        [12, 17]
    );

    let f16_storage = plan_gpu_axis0_four_step_grouped_block_from_shape_for_precision(
        2,
        272,
        17,
        request,
        Precision::F16StorageF32Compute,
        8,
        device,
    )
    .unwrap()
    .unwrap();
    assert_eq!(f16_storage.grouped_batch, 8);
    assert_eq!(
        [f16_storage.local_size_x, f16_storage.local_size_y],
        [8, 17]
    );
    assert!(f16_storage.transforms_on_x);
    assert!(!f16_storage.axis_swapped);
}
