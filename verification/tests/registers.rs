use vkfft_scheduler::arith::{nearest_register_multiple_multiplier, upstream_near_single_subgroup};
use vkfft_scheduler::config::{
    upstream_coalesced_memory_bytes, Backend, DeviceProfile, GpuVendor, PlannerTuning, Precision,
};
use vkfft_scheduler::direct_rader::{
    plan_gpu_axis0_composite_direct_rader_threads_for_prime_multiplicities_with_max_batch_coalesced,
    plan_gpu_double_double_axis0_composite_direct_rader_threads_for_prime_multiplicities_with_max_batch_coalesced,
};
use vkfft_scheduler::double_root::upstream_floor_nth_root;
use vkfft_scheduler::error::VkFftError;
use vkfft_scheduler::quad::plan_gpu_double_double_quad_registers;
use vkfft_scheduler::rader_blocks::{
    plan_gpu_axis0_direct_rader_batch_block,
    plan_gpu_double_double_axis0_fft_rader_user_grouped_batch_block,
    plan_gpu_double_double_axis0_fft_rader_user_grouped_batch_block_with_zero_padding,
    plan_gpu_double_double_other_axis_fft_rader_batch_block,
    plan_gpu_other_axis_direct_rader_batch_block,
};
use vkfft_scheduler::rader_parents::{
    plan_gpu_axis0_multi_fft_rader_threads_for_forced_upload,
    plan_gpu_axis0_multi_fft_rader_threads_for_prime_multiplicities_with_max_batch_coalesced,
    plan_gpu_double_double_axis0_fft_rader_threads_for_forced_upload_with_tuning,
    plan_gpu_double_double_axis0_fft_rader_threads_for_prime_multiplicities_with_tuning,
    plan_gpu_double_double_axis0_mixed_direct_multi_fft_rader_threads_for_forced_upload_with_tuning,
    plan_gpu_double_double_axis0_mixed_direct_multi_fft_rader_threads_with_tuning,
};
use vkfft_scheduler::registers::{
    plan_gpu_power_of_two_radix_registers, plan_gpu_small_mixed_radix_registers,
    plan_nvidia_vulkan_power_of_two_radix_registers, plan_nvidia_vulkan_small_mixed_radix_registers,
    plan_nvidia_vulkan_two_three_radix_registers,
};
use vkfft_scheduler::stockham_blocks::{
    plan_gpu_double_double_axis0_user_grouped_stockham_block,
    plan_gpu_double_double_axis0_user_grouped_stockham_block_with_zero_padding,
    plan_gpu_double_double_other_axis_four_step_upload_block,
    plan_gpu_double_double_other_axis_user_grouped_stockham_block,
};
use vkfft_scheduler::upload_count::StockhamUploadAxisContext;
use vkfft_scheduler::uploads::{
    plan_gpu_double_double_stockham_uploads_for_batches,
    plan_gpu_double_double_stockham_uploads_for_batches_with_axis_context,
    plan_gpu_power_of_two_stockham_uploads_for_batches,
    plan_gpu_power_of_two_stockham_uploads_for_batches_with_axis_context,
    plan_nvidia_vulkan_power_of_two_stockham_uploads, DD_COMPLEX_BYTES,
};

fn nvidia_vulkan(shared_memory_bytes: usize) -> DeviceProfile {
    DeviceProfile {
        shared_memory_bytes,
        shared_memory_pow2_bytes: shared_memory_bytes.next_power_of_two() / 2,
        coalesced_memory_bytes: 32,
        ..DeviceProfile::generic(Backend::Vulkan, GpuVendor::Nvidia)
    }
}

#[test]
fn optimize_shared_preserves_upstream_double_pow_root_rounding() {
    assert_eq!(upstream_floor_nth_root(64, 3), 3);
    assert_eq!(upstream_floor_nth_root(81, 4), 3);
    assert_eq!(upstream_floor_nth_root(256, 4), 4);
}

#[test]
fn exact_scheduler_integer_scoring_matches_legacy_ratio_and_subgroup_formulas() {
    for maximum in 1usize..=512 {
        for value in 1usize..=maximum {
            let ratio = maximum as f64 / value as f64;
            let ratio_floor = ratio.floor() as usize;
            let ratio_ceil = ratio.ceil() as usize;
            let ratio2 = (value * ratio_ceil) as f64 / maximum as f64;
            let ratio3 = maximum as f64 / (value * ratio_floor) as f64;
            let legacy = if ratio2 > ratio3 {
                ratio_floor
            } else {
                ratio_ceil
            };
            assert_eq!(
                nearest_register_multiple_multiplier(maximum, value),
                legacy,
                "maximum={maximum}, value={value}"
            );
        }
    }

    for subgroup in 1usize..=128 {
        for threads in 1usize..=4 * subgroup {
            let legacy = threads / subgroup == 1 && (threads as f64 / subgroup as f64) < 1.5;
            assert_eq!(
                upstream_near_single_subgroup(threads, subgroup),
                legacy,
                "threads={threads}, subgroup={subgroup}"
            );
        }
    }
}

#[test]
fn higher_axis_thread_limited_wide_types_match_upstream_grouping() {
    let mut device = nvidia_vulkan(48 * 1024);
    device.max_threads_per_block = 128;
    device.max_workgroup_size = [1024, 1024, 64];

    let stockham = plan_gpu_double_double_other_axis_user_grouped_stockham_block(
        64, 8, 8, None, None, device,
    )
    .unwrap()
    .expect("thread-limited DD N64 Stockham should keep the upstream X batch tile");
    assert_eq!(stockham.threads_per_transform, 8);
    assert_eq!(stockham.grouped_batch, 8);
    assert_eq!([stockham.local_size_x, stockham.local_size_y], [8, 8]);

    let f32 = plan_gpu_other_axis_direct_rader_batch_block(47, 40, 8, 8, None, None, device)
        .unwrap()
        .expect("thread-limited F32 p47 should retain a physical block");
    assert_eq!(f32.threads_per_transform, 24);
    assert_eq!(f32.grouped_batch, 4);

    let f64 = plan_gpu_other_axis_direct_rader_batch_block(47, 40, 8, 16, None, None, device)
        .unwrap()
        .expect("thread-limited F64 p47 should retain the coalescing-floor group");
    assert_eq!(f64.threads_per_transform, 24);
    assert_eq!(f64.grouped_batch, 2);
    assert_eq!([f64.local_size_x, f64.local_size_y], [2, 24]);

    let dd = plan_gpu_other_axis_direct_rader_batch_block(47, 40, 8, 32, None, None, device)
        .unwrap()
        .expect("thread-limited DD p47 should retain the coalescing-floor group");
    assert_eq!(dd.threads_per_transform, 24);
    assert_eq!(dd.grouped_batch, 1);
    assert_eq!([dd.local_size_x, dd.local_size_y], [1, 24]);

    let dd_fft =
        plan_gpu_double_double_other_axis_fft_rader_batch_block(257, 40, 8, None, None, device)
            .unwrap()
            .expect("thread-limited DD p257 should retain the upstream FFT-Rader group");
    assert_eq!(dd_fft.threads_per_transform, 17);
    assert_eq!(dd_fft.grouped_batch, 4);
    assert_eq!([dd_fft.local_size_x, dd_fft.local_size_y], [4, 17]);
}

#[test]
fn amd_dd_power_of_two_higher_axis_grouping_uses_full_shared_memory() {
    let device = DeviceProfile {
        shared_memory_bytes: 48 * 1024,
        shared_memory_pow2_bytes: 32 * 1024,
        max_threads_per_block: 1024,
        max_workgroup_size: [1024, 1024, 64],
        supports_f64: true,
        ..DeviceProfile::generic(Backend::Vulkan, GpuVendor::Amd)
    };
    let upload =
        plan_gpu_double_double_stockham_uploads_for_batches(16_384, 1, device).unwrap();
    assert_eq!(upload.used_shared_memory_bytes, 32 * 1024);
    assert_eq!(upload.upload_count, 2);
    assert_eq!(upload.axis_split, vec![256, 64]);

    let high = plan_gpu_double_double_other_axis_four_step_upload_block(
        &upload,
        1,
        upload.quad_schedules[1].rhs_transform_count,
        64,
        None,
        None,
        device,
    )
    .unwrap()
    .expect("AMD DD N64 high upload should consume the full 48KiB grouping budget");
    assert_eq!(high.threads_per_transform, 8);
    assert_eq!(high.grouped_batch, 24);
    assert_eq!([high.local_size_x, high.local_size_y], [24, 8]);
    assert_eq!(64 * high.grouped_batch * DD_COMPLEX_BYTES, 48 * 1024);
    assert!(high.transforms_on_x);
    assert!(!high.axis_swapped);

    let low = plan_gpu_double_double_other_axis_four_step_upload_block(
        &upload,
        0,
        upload.quad_schedules[0].rhs_transform_count,
        64,
        None,
        None,
        device,
    )
    .unwrap()
    .expect("AMD DD N256 low upload should retain an executable block");
    assert_eq!(low.grouped_batch, 2);
    assert!(low.transforms_on_x);
}

#[test]
fn double_double_quad_register_table_matches_fixed_upstream_mixed_radix_leaves() {
    let cases = [
        (3usize, vec![(3usize, 3usize)]),
        (9, vec![(3, 9), (9, 9)]),
        (5, vec![(5, 5)]),
        (7, vec![(7, 7)]),
        (15, vec![(3, 3), (5, 5), (15, 3)]),
        (21, vec![(3, 6), (7, 7)]),
        (30, vec![(2, 6), (3, 6), (5, 5), (6, 6), (10, 5), (15, 5)]),
        (42, vec![(2, 6), (3, 6), (7, 7), (6, 6), (14, 6)]),
        (70, vec![(2, 6), (5, 5), (7, 7), (10, 5), (14, 6)]),
        (168, vec![(2, 8), (3, 6), (7, 7), (8, 8), (6, 6), (14, 7)]),
        (
            210,
            vec![
                (2, 6),
                (3, 6),
                (5, 5),
                (7, 7),
                (6, 6),
                (10, 5),
                (14, 6),
                (15, 5),
            ],
        ),
    ];
    for (length, expected) in cases {
        let schedule = plan_gpu_double_double_quad_registers(length, 7).unwrap();
        for (radix, registers) in expected {
            assert_eq!(
                schedule.registers_per_thread_per_radix[radix], registers,
                "Quad register mismatch for N={length}, radix={radix}"
            );
        }
        assert_eq!(schedule.registers_per_thread_per_radix[11], 0);
        assert_eq!(schedule.registers_per_thread_per_radix[13], 0);
        assert!(schedule.min_registers_per_thread > 0);
        assert!(schedule.registers_per_thread >= schedule.min_registers_per_thread);
    }

    let n16 = plan_gpu_double_double_quad_registers(16, 7).unwrap();
    assert_eq!(n16.registers_per_thread_per_radix[2], 4);
    assert_eq!(n16.min_registers_per_thread, 4);
    let n64 = plan_gpu_double_double_quad_registers(64, 7).unwrap();
    assert_eq!(n64.registers_per_thread_per_radix[2], 8);
    assert_eq!(n64.min_registers_per_thread, 8);

    assert!(matches!(
        plan_gpu_double_double_quad_registers(11, 7),
        Err(VkFftError::UnsupportedKernelPath(_))
    ));
    assert!(matches!(
        plan_gpu_double_double_quad_registers(33, 7),
        Err(VkFftError::UnsupportedKernelPath(_))
    ));
}

#[test]
fn double_double_strided_axis_and_bandwidth_boost_follow_64b_coalescing() {
    let mut intel = DeviceProfile::generic(Backend::Vulkan, GpuVendor::Intel);
    intel.shared_memory_bytes = 32 * 1024;
    intel.shared_memory_pow2_bytes = 32 * 1024;
    intel.max_threads_per_block = 1024;
    intel.max_workgroup_size = [1024, 1024, 64];

    let contiguous =
        plan_gpu_double_double_stockham_uploads_for_batches(1024, 1, intel).unwrap();
    assert_eq!(contiguous.register_boost, 1);
    assert_eq!(contiguous.upload_count, 1);
    assert_eq!(contiguous.axis_split, vec![1024]);

    let strided = plan_gpu_double_double_stockham_uploads_for_batches_with_axis_context(
        1024,
        1,
        intel,
        StockhamUploadAxisContext {
            strided_axis: true,
            ..StockhamUploadAxisContext::default()
        },
    )
    .unwrap();
    assert_eq!(strided.max_sequence_len_shared, 1024);
    assert_eq!(strided.max_sequence_len_strided, 512);
    assert_eq!(strided.register_boost, 2);
    assert_eq!(strided.upload_count, 1);
    assert_eq!(strided.axis_split, vec![1024]);

    let boost1 = plan_gpu_double_double_stockham_uploads_for_batches_with_axis_context(
        1024,
        1,
        intel,
        StockhamUploadAxisContext {
            strided_axis: true,
            bandwidth_boost: 1,
            ..StockhamUploadAxisContext::default()
        },
    )
    .unwrap();
    assert_eq!(boost1.register_boost, 2);
    assert_eq!(boost1.upload_count, 1);
    assert_eq!(boost1.axis_split, vec![1024]);

    let boost2 = plan_gpu_double_double_stockham_uploads_for_batches_with_axis_context(
        1024,
        1,
        intel,
        StockhamUploadAxisContext {
            strided_axis: true,
            bandwidth_boost: 2,
            ..StockhamUploadAxisContext::default()
        },
    )
    .unwrap();
    assert_eq!(boost2.register_boost, 2);
    assert_eq!(boost2.upload_count, 1);
    assert_eq!(boost2.axis_split, vec![1024]);

    let bluestein_auto = plan_gpu_double_double_stockham_uploads_for_batches_with_axis_context(
        625,
        1,
        intel,
        StockhamUploadAxisContext {
            strided_axis: true,
            use_bluestein_fft: true,
            ..StockhamUploadAxisContext::default()
        },
    )
    .unwrap();
    assert_eq!(bluestein_auto.upload_count, 2);
    assert_eq!(bluestein_auto.axis_split, vec![25, 25]);

    let bluestein_boost2 =
        plan_gpu_double_double_stockham_uploads_for_batches_with_axis_context(
            625,
            1,
            intel,
            StockhamUploadAxisContext {
                strided_axis: true,
                bandwidth_boost: 2,
                use_bluestein_fft: true,
                perform_convolution: false,
            },
        )
        .unwrap();
    assert_eq!(bluestein_boost2.upload_count, 1);
    assert_eq!(bluestein_boost2.axis_split, vec![625]);
}

#[test]
fn double_double_axis0_zero_padding_disables_bank_conflict_swap() {
    let mut device = nvidia_vulkan(48 * 1024);
    device.max_threads_per_block = 1024;
    device.max_workgroup_size = [1024, 1024, 64];

    let stockham =
        plan_gpu_double_double_axis0_user_grouped_stockham_block(64, 7, Some(3), device)
            .unwrap()
            .expect("unpadded DD N64/G3 should use a physical block");
    assert_eq!([stockham.local_size_x, stockham.local_size_y], [3, 8]);
    assert!(stockham.axis_swapped);
    let stockham_padded =
        plan_gpu_double_double_axis0_user_grouped_stockham_block_with_zero_padding(
            64,
            7,
            Some(3),
            true,
            device,
        )
        .unwrap()
        .expect("padded DD N64/G3 should keep the unswapped block");
    assert_eq!(
        [stockham_padded.local_size_x, stockham_padded.local_size_y],
        [8, 3]
    );
    assert!(!stockham_padded.transforms_on_x);
    assert!(!stockham_padded.axis_swapped);

    let direct = plan_gpu_axis0_direct_rader_batch_block(
        13,
        7,
        DD_COMPLEX_BYTES,
        false,
        Some(3),
        device,
    )
    .unwrap()
    .expect("unpadded DD p13/G3 direct-Rader should use a physical block");
    assert_eq!(direct.threads_per_transform, 7);
    assert_eq!([direct.local_size_x, direct.local_size_y], [3, 7]);
    assert!(direct.axis_swapped);
    let direct_padded =
        plan_gpu_axis0_direct_rader_batch_block(13, 7, DD_COMPLEX_BYTES, true, Some(3), device)
            .unwrap()
            .expect("padded DD p13/G3 direct-Rader should keep the unswapped block");
    assert_eq!(
        [direct_padded.local_size_x, direct_padded.local_size_y],
        [7, 3]
    );
    assert!(!direct_padded.axis_swapped);

    let fft =
        plan_gpu_double_double_axis0_fft_rader_user_grouped_batch_block(17, 7, Some(3), device)
            .unwrap()
            .expect("unpadded DD p17/G3 FFT-Rader should use a physical block");
    assert_eq!(fft.threads_per_transform, 2);
    assert_eq!([fft.local_size_x, fft.local_size_y], [3, 2]);
    assert!(fft.axis_swapped);
    let fft_padded =
        plan_gpu_double_double_axis0_fft_rader_user_grouped_batch_block_with_zero_padding(
            17,
            7,
            Some(3),
            true,
            device,
        )
        .unwrap()
        .expect("padded DD p17/G3 FFT-Rader should keep the unswapped block");
    assert_eq!([fft_padded.local_size_x, fft_padded.local_size_y], [2, 3]);
    assert!(!fft_padded.axis_swapped);
}

#[test]
fn nvidia_opencl_dd_stockham_reserves_one_complex_of_static_shared_headroom() {
    let mut device = DeviceProfile {
        shared_memory_bytes: 48 * 1024,
        shared_memory_pow2_bytes: 32 * 1024,
        coalesced_memory_bytes: 32,
        max_threads_per_block: 1024,
        max_workgroup_size: [1024, 1024, 64],
        supports_f64: true,
        ..DeviceProfile::generic(Backend::OpenCl, GpuVendor::Nvidia)
    };

    let n128 =
        plan_gpu_double_double_axis0_user_grouped_stockham_block(128, 136, Some(136), device)
            .unwrap()
            .expect("OpenCL DD N128 should keep a cooperative block below the ptxas limit");
    assert_eq!(n128.grouped_batch, 11);
    assert!(
        128usize * n128.grouped_batch * DD_COMPLEX_BYTES + DD_COMPLEX_BYTES
            <= device.shared_memory_bytes
    );

    let n512 =
        plan_gpu_double_double_axis0_user_grouped_stockham_block(512, 7, Some(3), device)
            .unwrap()
            .expect("OpenCL DD N512/G3 should shrink rather than fill all 48KiB");
    assert_eq!(n512.grouped_batch, 2);
    assert!(n512.axis_swapped);

    assert!(
        plan_gpu_double_double_axis0_user_grouped_stockham_block(1536, 7, Some(1), device)
            .unwrap()
            .is_none()
    );

    let higher = plan_gpu_double_double_other_axis_user_grouped_stockham_block(
        512,
        7,
        8,
        Some(3),
        Some(3),
        device,
    )
    .unwrap()
    .expect("OpenCL DD higher-axis N512 should use the same shared headroom");
    assert_eq!(higher.grouped_batch, 2);

    device.backend = Backend::Vulkan;
    let vulkan =
        plan_gpu_double_double_axis0_user_grouped_stockham_block(512, 7, Some(3), device)
            .unwrap()
            .expect("Vulkan DD N512/G3 should retain the exact physical limit");
    assert_eq!(vulkan.grouped_batch, 3);
}

#[test]
fn perform_convolution_suppresses_register_boost_capacity_for_n8192() {
    let mut device = nvidia_vulkan(32 * 1024);
    device.shared_memory_pow2_bytes = 32 * 1024;
    device.max_threads_per_block = 1024;
    device.max_workgroup_size = [1024, 1024, 64];

    let ordinary = plan_gpu_power_of_two_stockham_uploads_for_batches_with_axis_context(
        8_192,
        1,
        Precision::F32,
        device,
        StockhamUploadAxisContext::default(),
    )
    .unwrap();
    assert_eq!(ordinary.register_boost, 2);
    assert_eq!(ordinary.upload_count, 1);
    assert_eq!(ordinary.axis_split, vec![8_192]);

    let convolution = plan_gpu_power_of_two_stockham_uploads_for_batches_with_axis_context(
        8_192,
        1,
        Precision::F32,
        device,
        StockhamUploadAxisContext {
            perform_convolution: true,
            ..StockhamUploadAxisContext::default()
        },
    )
    .unwrap();
    assert_eq!(convolution.register_boost, 1);
    assert_eq!(convolution.upload_count, 2);
    assert_eq!(convolution.axis_split, vec![128, 64]);
}

#[test]
fn large_power_of_two_split_preserves_non_nvidia_special_branch() {
    let amd = DeviceProfile {
        shared_memory_bytes: 48 * 1024,
        shared_memory_pow2_bytes: 32 * 1024,
        max_threads_per_block: 1024,
        max_workgroup_size: [1024, 1024, 64],
        ..DeviceProfile::generic(Backend::Vulkan, GpuVendor::Amd)
    };
    let amd_schedule =
        plan_gpu_power_of_two_stockham_uploads_for_batches(524_288, 1, Precision::F32, amd)
            .unwrap();
    assert_eq!(amd_schedule.upload_count, 3);
    assert_eq!(amd_schedule.axis_split, vec![64, 128, 64]);

    let intel = DeviceProfile {
        shared_memory_bytes: 48 * 1024,
        shared_memory_pow2_bytes: 32 * 1024,
        max_threads_per_block: 1024,
        max_workgroup_size: [1024, 1024, 64],
        ..DeviceProfile::generic(Backend::Vulkan, GpuVendor::Intel)
    };
    let intel_schedule =
        plan_gpu_power_of_two_stockham_uploads_for_batches(524_288, 1, Precision::F32, intel)
            .unwrap();
    assert_eq!(intel_schedule.upload_count, 3);
    assert_eq!(intel_schedule.axis_split, vec![64, 128, 64]);

    let hip = DeviceProfile {
        shared_memory_bytes: 48 * 1024,
        shared_memory_pow2_bytes: 32 * 1024,
        max_threads_per_block: 1024,
        max_workgroup_size: [1024, 1024, 64],
        ..DeviceProfile::generic(Backend::Hip, GpuVendor::Amd)
    };
    let hip_schedule =
        plan_gpu_power_of_two_stockham_uploads_for_batches(2_097_152, 1, Precision::F32, hip)
            .unwrap();
    assert_eq!(hip_schedule.upload_count, 3);
    assert_eq!(hip_schedule.axis_split, vec![64, 512, 64]);

    let nvidia = DeviceProfile {
        shared_memory_bytes: 48 * 1024,
        shared_memory_pow2_bytes: 32 * 1024,
        max_threads_per_block: 1024,
        max_workgroup_size: [1024, 1024, 64],
        ..DeviceProfile::generic(Backend::Vulkan, GpuVendor::Nvidia)
    };
    let nvidia_schedule =
        plan_gpu_power_of_two_stockham_uploads_for_batches(524_288, 1, Precision::F32, nvidia)
            .unwrap();
    assert_eq!(nvidia_schedule.upload_count, 2);
    assert_eq!(nvidia_schedule.axis_split, vec![1024, 512]);
}

#[test]
fn pass_local_coalescing_changes_pure_type0_and_direct_only_parent_floors() {
    let mut wide = nvidia_vulkan(48 * 1024);
    wide.max_threads_per_block = 1024;
    wide.max_workgroup_size[0] = 1024;
    assert_eq!(
        plan_gpu_axis0_multi_fft_rader_threads_for_prime_multiplicities_with_max_batch_coalesced(
            4 * 17,
            &[(17, 1)],
            75,
            4,
            wide,
        )
        .unwrap(),
        Some(5)
    );
    assert_eq!(
        plan_gpu_axis0_composite_direct_rader_threads_for_prime_multiplicities_with_max_batch_coalesced(
            2 * 17,
            &[(17, 1)],
            32,
            4,
            wide,
        )
        .unwrap(),
        Some(18)
    );

    let mut narrow = wide;
    narrow.max_threads_per_block = 64;
    narrow.max_workgroup_size[0] = 64;
    assert_eq!(
        plan_gpu_axis0_composite_direct_rader_threads_for_prime_multiplicities_with_max_batch_coalesced(
            2 * 17,
            &[(17, 1)],
            32,
            1,
            narrow,
        )
        .unwrap(),
        Some(18)
    );
    assert_eq!(
        plan_gpu_axis0_composite_direct_rader_threads_for_prime_multiplicities_with_max_batch_coalesced(
            2 * 17,
            &[(17, 1)],
            32,
            4,
            narrow,
        )
        .unwrap(),
        Some(9)
    );

    assert_eq!(
        plan_gpu_axis0_composite_direct_rader_threads_for_prime_multiplicities_with_max_batch_coalesced(
            5 * 11,
            &[(11, 1)],
            125,
            1,
            wide,
        )
        .unwrap(),
        Some(30)
    );
    assert_eq!(
        plan_gpu_double_double_axis0_composite_direct_rader_threads_for_prime_multiplicities_with_max_batch_coalesced(
            5 * 11,
            &[(11, 1)],
            125,
            1,
            wide,
        )
        .unwrap(),
        Some(30)
    );

    assert_eq!(
        plan_gpu_axis0_multi_fft_rader_threads_for_prime_multiplicities_with_max_batch_coalesced(
            16 * 17,
            &[(17, 1)],
            512,
            1,
            narrow,
        )
        .unwrap(),
        Some(17)
    );
    assert_eq!(
        plan_gpu_axis0_multi_fft_rader_threads_for_prime_multiplicities_with_max_batch_coalesced(
            16 * 17,
            &[(17, 1)],
            512,
            4,
            narrow,
        )
        .unwrap(),
        Some(16)
    );
    assert_eq!(
        plan_gpu_axis0_multi_fft_rader_threads_for_forced_upload(
            16 * 17,
            &[(17, 1)],
            512,
            4,
            0,
            narrow,
        )
        .unwrap(),
        Some(17)
    );
    assert_eq!(
        plan_gpu_axis0_multi_fft_rader_threads_for_forced_upload(
            16 * 17,
            &[(17, 1)],
            512,
            4,
            1,
            narrow,
        )
        .unwrap(),
        Some(16)
    );

    let mut medium = wide;
    medium.max_threads_per_block = 128;
    medium.max_workgroup_size[0] = 128;
    assert_eq!(
        plan_gpu_axis0_multi_fft_rader_threads_for_prime_multiplicities_with_max_batch_coalesced(
            32 * 17,
            &[(17, 1)],
            512,
            1,
            medium,
        )
        .unwrap(),
        Some(34)
    );
    assert_eq!(
        plan_gpu_axis0_multi_fft_rader_threads_for_prime_multiplicities_with_max_batch_coalesced(
            32 * 17,
            &[(17, 1)],
            512,
            4,
            medium,
        )
        .unwrap(),
        Some(32)
    );
}

#[test]
fn double_double_forced_pass_context_uses_coalesced_parent_pressure() {
    let mut device = DeviceProfile::generic(Backend::OpenCl, GpuVendor::Intel);
    device.shared_memory_bytes = 48 * 1024;
    device.shared_memory_pow2_bytes = 32 * 1024;
    device.max_threads_per_block = 32;
    device.max_workgroup_size[0] = 32;
    device.supports_f64 = true;
    assert_eq!(
        upstream_coalesced_memory_bytes(device) / 32,
        2
    );

    assert_eq!(
        plan_gpu_double_double_axis0_composite_direct_rader_threads_for_prime_multiplicities_with_max_batch_coalesced(
            2 * 17,
            &[(17, 1)],
            32,
            1,
            device,
        )
        .unwrap(),
        Some(18)
    );
    assert_eq!(
        plan_gpu_double_double_axis0_composite_direct_rader_threads_for_prime_multiplicities_with_max_batch_coalesced(
            2 * 17,
            &[(17, 1)],
            32,
            2,
            device,
        )
        .unwrap(),
        Some(9)
    );

    let recursive = PlannerTuning::portable().with_recursive_fft_rader(true);
    assert_eq!(
        plan_gpu_double_double_axis0_fft_rader_threads_for_prime_multiplicities_with_tuning(
            16 * 17,
            &[(17, 1)],
            32,
            recursive,
            device,
        )
        .unwrap(),
        Some(17)
    );
    assert_eq!(
        plan_gpu_double_double_axis0_fft_rader_threads_for_forced_upload_with_tuning(
            16 * 17,
            &[(17, 1)],
            32,
            2,
            1,
            recursive,
            device,
        )
        .unwrap(),
        Some(16)
    );

    let mut mixed_tuning = recursive;
    mixed_tuning.min_rader_direct_prime = 17;
    mixed_tuning.max_rader_direct_prime = 31;
    mixed_tuning.min_rader_fft_prime = 19;
    mixed_tuning.validate().unwrap();
    assert_eq!(
        plan_gpu_double_double_axis0_mixed_direct_multi_fft_rader_threads_with_tuning(
            17 * 19,
            &[(17, 1)],
            &[(19, 1)],
            32,
            mixed_tuning,
            device,
        )
        .unwrap(),
        Some(27)
    );
    assert_eq!(
        plan_gpu_double_double_axis0_mixed_direct_multi_fft_rader_threads_for_forced_upload_with_tuning(
            17 * 19,
            &[(17, 1)],
            &[(19, 1)],
            32,
            2,
            1,
            mixed_tuning,
            device,
        )
        .unwrap(),
        Some(17)
    );
}

#[test]
fn nvidia_f64_capacity_uses_sixteen_byte_complex_values() {
    let device = nvidia_vulkan(48 * 1024);
    let schedule =
        plan_nvidia_vulkan_power_of_two_stockham_uploads(8192, Precision::F64, device).unwrap();
    assert_eq!(schedule.max_sequence_len_shared, 2048);
    assert_eq!(schedule.max_sequence_len_strided, 1024);
    assert_eq!(schedule.register_boost, 4);
    assert_eq!(schedule.upload_count, 1);
}

#[test]
fn two_three_register_schedule_matches_upstream_table_and_merge_order() {
    let cases = [
        (6usize, vec![6], 6usize),
        (12, vec![12], 12),
        (18, vec![6, 3], 6),
        (24, vec![12, 2], 12),
        (36, vec![6, 6], 6),
        (54, vec![6, 3, 3], 6),
        (72, vec![12, 6], 12),
    ];
    for (length, expected_radices, expected_registers) in cases {
        let schedule = plan_nvidia_vulkan_two_three_radix_registers(length, 2).unwrap();
        assert_eq!(schedule.fft_len, length);
        assert_eq!(schedule.register_boost, 1);
        assert_eq!(schedule.stage_radices, expected_radices, "N={length}");
        assert_eq!(
            schedule.registers_per_thread, expected_registers,
            "N={length}"
        );
        assert!(schedule.register_boost_stage_radix.is_none());
    }
    assert!(matches!(
        plan_nvidia_vulkan_two_three_radix_registers(60, 2),
        Err(VkFftError::UnsupportedKernelPath(_))
    ));
    assert!(matches!(
        plan_nvidia_vulkan_two_three_radix_registers(27, 2),
        Err(VkFftError::UnsupportedKernelPath(_))
    ));
}

#[test]
fn backend_neutral_register_entries_preserve_exact_legacy_tables() {
    let generic_pow2 = plan_gpu_power_of_two_radix_registers(1024, 7, 1).unwrap();
    let legacy_pow2 = plan_nvidia_vulkan_power_of_two_radix_registers(1024, 7, 1).unwrap();
    assert_eq!(generic_pow2, legacy_pow2);

    for length in [18usize, 60, 143, 3840] {
        let generic = plan_gpu_small_mixed_radix_registers(length, 5).unwrap();
        let legacy = plan_nvidia_vulkan_small_mixed_radix_registers(length, 5).unwrap();
        assert_eq!(
            generic, legacy,
            "shared VkFFT register table diverged for N={length}"
        );
    }
}

#[test]
fn broader_small_mixed_register_table_matches_upstream_decision_leaves() {
    let cases = [
        (3usize, vec![(3usize, 3usize)]),
        (5, vec![(5, 5)]),
        (7, vec![(7, 7)]),
        (9, vec![(3, 9)]),
        (11, vec![(11, 11)]),
        (13, vec![(13, 13)]),
        (10, vec![(2, 10), (5, 10)]),
        (14, vec![(2, 14), (7, 14)]),
        (15, vec![(3, 15), (5, 15)]),
        (21, vec![(3, 6), (7, 7)]),
        (22, vec![(2, 10), (11, 11)]),
        (25, vec![(5, 5)]),
        (26, vec![(2, 12), (13, 13)]),
        (27, vec![(3, 9)]),
        (30, vec![(2, 6), (3, 6), (5, 5)]),
        (35, vec![(5, 5), (7, 7)]),
        (39, vec![(3, 12), (13, 13)]),
        (40, vec![(2, 8), (5, 10)]),
        (42, vec![(2, 6), (3, 6), (7, 7)]),
        (44, vec![(2, 8), (11, 11)]),
        (49, vec![(7, 7)]),
        (55, vec![(5, 5), (11, 11)]),
        (60, vec![(2, 12), (3, 12), (5, 10)]),
        (66, vec![(2, 6), (3, 6), (11, 11)]),
        (70, vec![(2, 10), (5, 10), (7, 7)]),
        (78, vec![(2, 6), (3, 6), (13, 13)]),
        (63, vec![(3, 9), (7, 7)]),
        (65, vec![(5, 5), (13, 13)]),
        (77, vec![(7, 7), (11, 11)]),
        (91, vec![(7, 7), (13, 13)]),
        (105, vec![(3, 15), (5, 15), (7, 14)]),
        (110, vec![(2, 10), (5, 10), (11, 11)]),
        (130, vec![(2, 10), (5, 10), (13, 13)]),
        (154, vec![(2, 14), (7, 14), (11, 11)]),
        (165, vec![(3, 15), (5, 15), (11, 11)]),
        (182, vec![(2, 14), (7, 14), (13, 13)]),
        (195, vec![(3, 15), (5, 15), (13, 13)]),
        (231, vec![(3, 12), (7, 14), (11, 11)]),
        (273, vec![(3, 12), (7, 14), (13, 13)]),
        (286, vec![(2, 12), (11, 11), (13, 13)]),
        (330, vec![(2, 10), (3, 15), (5, 10), (11, 11)]),
        (390, vec![(2, 10), (3, 15), (5, 10), (13, 13)]),
        (429, vec![(3, 12), (11, 11), (13, 13)]),
        (462, vec![(2, 12), (3, 12), (7, 14), (11, 11)]),
        (546, vec![(2, 12), (3, 12), (7, 14), (13, 13)]),
        (770, vec![(2, 10), (5, 10), (7, 14), (11, 11)]),
        (858, vec![(2, 6), (3, 6), (11, 11), (13, 13)]),
        (117, vec![(3, 9), (13, 13)]),
        (121, vec![(11, 11)]),
        (143, vec![(11, 11), (13, 13)]),
        (169, vec![(13, 13)]),
        (210, vec![(2, 14), (3, 15), (5, 15), (7, 14)]),
        (420, vec![(2, 12), (3, 12), (5, 15), (7, 14)]),
    ];
    for (length, primitive_registers) in cases {
        let schedule = plan_nvidia_vulkan_small_mixed_radix_registers(length, 2).unwrap();
        assert_eq!(schedule.fft_len, length);
        assert_eq!(schedule.register_boost, 1);
        for (radix, registers) in primitive_registers {
            assert_eq!(
                schedule.registers_per_thread_per_radix[radix], registers,
                "primitive register mismatch for N={length}, radix={radix}"
            );
        }
        assert_eq!(schedule.stage_radices.iter().product::<usize>(), length);
        assert!(schedule.register_boost_stage_radix.is_none());
    }

    for length in [17usize, 34, 46, 51, 69] {
        assert!(matches!(
            plan_nvidia_vulkan_small_mixed_radix_registers(length, 2),
            Err(VkFftError::UnsupportedKernelPath(_))
        ));
    }
}

#[test]
fn every_smooth_factor_combination_selects_a_register_table_leaf() {
    let odd_primes = [5usize, 7, 11, 13];
    let mut covered = 0usize;
    for exponent2 in 0usize..=4 {
        for exponent3 in 0usize..=2 {
            for mask in 0usize..(1usize << odd_primes.len()) {
                let mut length = 1usize << exponent2;
                length = length.checked_mul(3usize.pow(exponent3 as u32)).unwrap();
                for (bit, prime) in odd_primes.iter().enumerate() {
                    if mask & (1usize << bit) != 0 {
                        length = length.checked_mul(*prime).unwrap();
                    }
                }
                if length < 3 || length.is_power_of_two() {
                    continue;
                }
                covered += 1;
                let schedule =
                    plan_nvidia_vulkan_small_mixed_radix_registers(length, 2).map_err(|error| format!("{error:?}")).unwrap_or_else(
                        |error| panic!(
                            "smooth factor combination N={length} (2^{exponent2} 3^{exponent3} mask={mask:#06b}) failed: {error}"
                        ),
                    );
                assert_eq!(schedule.stage_radices.iter().product::<usize>(), length);
                assert_eq!(schedule.register_boost, 1);
            }
        }
    }
    assert_eq!(covered, 235);
}

#[test]
fn power_of_two_register_schedule_matches_upstream_radix_eight_grouping() {
    let schedule = plan_nvidia_vulkan_power_of_two_radix_registers(1024, 1, 1).unwrap();
    assert_eq!(schedule.registers_per_thread_per_radix[2], 8);
    assert_eq!(schedule.registers_per_thread_per_radix[4], 8);
    assert_eq!(schedule.registers_per_thread_per_radix[8], 8);
    assert_eq!(schedule.registers_per_thread, 8);
    assert_eq!(schedule.min_registers_per_thread, 8);
    assert!(schedule.is_good_sequence);
    assert_eq!(schedule.register_boost_stage_radix, None);
    assert_eq!(schedule.stage_radices, vec![8, 8, 8, 2]);
    assert_eq!(schedule.stage_radix_multipliers[8], 3);
    assert_eq!(schedule.stage_radix_multipliers[2], 1);
}

#[test]
fn register_boost_extracts_vkfft_final_stage() {
    let schedule = plan_nvidia_vulkan_power_of_two_radix_registers(16_384, 1, 4).unwrap();
    assert_eq!(schedule.register_boost_stage_radix, Some(4));
    assert_eq!(schedule.stage_radices, vec![8, 8, 8, 8, 4]);
    assert_eq!(schedule.stage_radix_multipliers[8], 4);
    assert_eq!(schedule.stage_radix_multipliers[4], 0);
    assert_eq!(schedule.registers_per_thread, 8);
    assert_eq!(schedule.min_registers_per_thread, 8);
}

#[test]
fn boost_only_stage_uses_vkfft_two_register_fallback() {
    let schedule = plan_nvidia_vulkan_power_of_two_radix_registers(4, 1, 4).unwrap();
    assert_eq!(schedule.register_boost_stage_radix, Some(4));
    assert_eq!(schedule.stage_radices, vec![4]);
    assert_eq!(schedule.registers_per_thread, 2);
    assert_eq!(schedule.min_registers_per_thread, 2);
}
