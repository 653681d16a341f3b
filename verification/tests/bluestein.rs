use vkfft_scheduler::bluestein::{
    upstream_bluestein_auto_padding, upstream_bluestein_auto_padding_from_table,
    upstream_bluestein_generic_padding,
};
use vkfft_scheduler::config::{Backend, DeviceProfile, GpuVendor, PlannerTuning, Precision};
use vkfft_scheduler::quad::plan_gpu_double_double_quad_registers;
use vkfft_scheduler::rader_parents::plan_gpu_axis0_multi_fft_rader_parent_schedule_with_tuning;
use vkfft_scheduler::upload_count::StockhamUploadAxisContext;
use vkfft_scheduler::uploads::{
    plan_gpu_power_of_two_stockham_uploads_for_batches_with_axis_context,
    plan_gpu_smooth_stockham_uploads_for_batches_with_axis_context,
};

fn nvidia_vulkan(shared_memory_bytes: usize) -> DeviceProfile {
    DeviceProfile {
        shared_memory_bytes,
        shared_memory_pow2_bytes: shared_memory_bytes.next_power_of_two() / 2,
        coalesced_memory_bytes: 32,
        ..DeviceProfile::generic(Backend::Vulkan, GpuVendor::Nvidia)
    }
}

#[test]
fn bluestein_auto_padding_tables_match_fixed_upstream_boundaries() {
    let nvidia = nvidia_vulkan(48 * 1024);
    assert_eq!(
        upstream_bluestein_auto_padding_from_table(41, Precision::F32, nvidia),
        Some(96)
    );
    assert_eq!(
        upstream_bluestein_auto_padding_from_table(41, Precision::F64, nvidia),
        Some(90)
    );
    assert_eq!(
        upstream_bluestein_auto_padding_from_table(66, Precision::DoubleDouble, nvidia,),
        None
    );
    assert_eq!(
        upstream_bluestein_auto_padding_from_table(206, Precision::F32, nvidia),
        Some(512)
    );
    assert_eq!(
        upstream_bluestein_auto_padding_from_table(256, Precision::F32, nvidia),
        Some(512)
    );
    assert_eq!(
        upstream_bluestein_auto_padding_from_table(257, Precision::F32, nvidia),
        Some(567)
    );
    assert_eq!(
        upstream_bluestein_auto_padding_from_table(4096, Precision::F32, nvidia),
        Some(8192)
    );
    assert_eq!(
        upstream_bluestein_auto_padding_from_table(4097, Precision::F32, nvidia),
        None
    );

    let amd = DeviceProfile::generic(Backend::Vulkan, GpuVendor::Amd);
    assert_eq!(
        upstream_bluestein_auto_padding_from_table(19, Precision::F32, amd),
        Some(42)
    );
    assert_eq!(
        upstream_bluestein_auto_padding_from_table(19, Precision::F64, amd),
        Some(40)
    );
    assert_eq!(
        upstream_bluestein_auto_padding_from_table(3438, Precision::F64, amd),
        Some(6875)
    );
    assert_eq!(
        upstream_bluestein_auto_padding_from_table(3439, Precision::F64, amd),
        Some(8192)
    );

    let unknown = DeviceProfile::generic(Backend::Vulkan, GpuVendor::Other(0x1234));
    assert_eq!(
        upstream_bluestein_auto_padding_from_table(206, Precision::F32, unknown),
        None
    );

    assert_eq!(
        upstream_bluestein_generic_padding(10, 1, Precision::F32, nvidia).unwrap(),
        32
    );
    assert_eq!(
        upstream_bluestein_auto_padding(4106, 1, Precision::F32, nvidia).unwrap(),
        8232
    );
    for precision in [Precision::DoubleDouble, Precision::DoubleDoubleF64Storage] {
        assert_eq!(
            upstream_bluestein_auto_padding_from_table(4106, precision, nvidia),
            None
        );
        assert_eq!(
            upstream_bluestein_auto_padding(4106, 1, precision, nvidia).unwrap(),
            8232
        );
        let quad = plan_gpu_double_double_quad_registers(8232, 1).unwrap();
        assert!(quad.is_good_sequence);
    }
}

#[test]
fn strided_bluestein_preserves_upstream_divisor_order_without_four_step_preference() {
    let mut nvidia = DeviceProfile::generic(Backend::Vulkan, GpuVendor::Nvidia);
    nvidia.shared_memory_bytes = 32 * 1024;
    nvidia.shared_memory_pow2_bytes = 32 * 1024;
    nvidia.max_threads_per_block = 1024;
    nvidia.max_workgroup_size = [1024, 1024, 64];

    let bluestein = plan_gpu_smooth_stockham_uploads_for_batches_with_axis_context(
        4_368,
        40,
        Precision::F32,
        nvidia,
        StockhamUploadAxisContext {
            strided_axis: true,
            use_bluestein_fft: true,
            ..StockhamUploadAxisContext::default()
        },
    )
    .unwrap();
    assert_eq!(bluestein.upload_count, 2);
    assert_eq!(bluestein.axis_split, vec![78, 56]);
    assert_eq!(
        bluestein
            .radix_schedules
            .iter()
            .map(|radix| (radix.fft_len, radix.rhs_transform_count))
            .collect::<Vec<_>>(),
        vec![(78, 2_240), (56, 3_120)]
    );

    let ordinary = plan_gpu_smooth_stockham_uploads_for_batches_with_axis_context(
        4_368,
        40,
        Precision::F32,
        nvidia,
        StockhamUploadAxisContext {
            strided_axis: true,
            ..StockhamUploadAxisContext::default()
        },
    )
    .unwrap();
    assert_eq!(ordinary.upload_count, 2);
    assert_eq!(ordinary.axis_split, vec![56, 78]);
}

#[test]
fn bluestein_strided_legacy_bandwidth_probe_matches_fixed_upstream_boundaries() {
    let mut intel = DeviceProfile::generic(Backend::Vulkan, GpuVendor::Intel);
    intel.shared_memory_bytes = 32 * 1024;
    intel.shared_memory_pow2_bytes = 32 * 1024;
    intel.max_threads_per_block = 1024;
    intel.max_workgroup_size = [1024, 1024, 64];

    for sequence_len in [625usize, 1_024usize] {
        let auto = if sequence_len.is_power_of_two() {
            plan_gpu_power_of_two_stockham_uploads_for_batches_with_axis_context(
                sequence_len,
                1,
                Precision::F32,
                intel,
                StockhamUploadAxisContext {
                    strided_axis: true,
                    use_bluestein_fft: true,
                    ..StockhamUploadAxisContext::default()
                },
            )
        } else {
            plan_gpu_smooth_stockham_uploads_for_batches_with_axis_context(
                sequence_len,
                1,
                Precision::F32,
                intel,
                StockhamUploadAxisContext {
                    strided_axis: true,
                    use_bluestein_fft: true,
                    ..StockhamUploadAxisContext::default()
                },
            )
        }
        .unwrap();
        assert_eq!(auto.upload_count, 2, "auto B=1 N={sequence_len}");

        let boosted = if sequence_len.is_power_of_two() {
            plan_gpu_power_of_two_stockham_uploads_for_batches_with_axis_context(
                sequence_len,
                1,
                Precision::F32,
                intel,
                StockhamUploadAxisContext {
                    strided_axis: true,
                    bandwidth_boost: 2,
                    use_bluestein_fft: true,
                    perform_convolution: false,
                },
            )
        } else {
            plan_gpu_smooth_stockham_uploads_for_batches_with_axis_context(
                sequence_len,
                1,
                Precision::F32,
                intel,
                StockhamUploadAxisContext {
                    strided_axis: true,
                    bandwidth_boost: 2,
                    use_bluestein_fft: true,
                    perform_convolution: false,
                },
            )
        }
        .unwrap();
        assert_eq!(boosted.upload_count, 1, "explicit B=2 N={sequence_len}");
        assert_eq!(boosted.axis_split, vec![sequence_len]);
    }
}

#[test]
fn bluestein_context_forces_register_boost_one_before_upload_scoring() {
    let mut device = nvidia_vulkan(48 * 1024);
    device.shared_memory_pow2_bytes = 32 * 1024;
    device.max_threads_per_block = 1024;
    device.max_workgroup_size = [1024, 1024, 64];

    let ordinary = plan_gpu_power_of_two_stockham_uploads_for_batches_with_axis_context(
        16_384,
        1,
        Precision::F32,
        device,
        StockhamUploadAxisContext::default(),
    )
    .unwrap();
    assert_eq!(ordinary.register_boost, 4);
    assert_eq!(ordinary.upload_count, 1);
    assert_eq!(ordinary.axis_split, vec![16_384]);

    let bluestein = plan_gpu_power_of_two_stockham_uploads_for_batches_with_axis_context(
        16_384,
        1,
        Precision::F32,
        device,
        StockhamUploadAxisContext {
            use_bluestein_fft: true,
            ..StockhamUploadAxisContext::default()
        },
    )
    .unwrap();
    assert_eq!(bluestein.register_boost, 1);
    assert_eq!(bluestein.upload_count, 2);
    assert_eq!(bluestein.axis_split, vec![256, 64]);
}

#[test]
fn bluestein_unit_stride_pow2_split_uses_shared_first_stage() {
    let mut device = nvidia_vulkan(48 * 1024);
    device.shared_memory_pow2_bytes = 32 * 1024;
    device.max_threads_per_block = 1024;
    device.max_workgroup_size = [1024, 1024, 64];
    let context = StockhamUploadAxisContext {
        use_bluestein_fft: true,
        ..StockhamUploadAxisContext::default()
    };

    let two = plan_gpu_power_of_two_stockham_uploads_for_batches_with_axis_context(
        65_536,
        1,
        Precision::F32,
        device,
        context,
    )
    .unwrap();
    assert_eq!(two.register_boost, 1);
    assert_eq!(two.upload_count, 2);
    assert_eq!(two.axis_split, vec![1_024, 64]);

    let three = plan_gpu_power_of_two_stockham_uploads_for_batches_with_axis_context(
        8_388_608,
        1,
        Precision::F32,
        device,
        context,
    )
    .unwrap();
    assert_eq!(three.register_boost, 1);
    assert_eq!(three.upload_count, 3);
    assert_eq!(three.axis_split, vec![4_096, 32, 64]);
}

#[test]
fn zero_register_fft_rader_stage_does_not_block_cross_bluestein_parent_scoring() {
    let mut tuning = PlannerTuning::portable();
    tuning.min_rader_direct_prime = 29;
    tuning.min_rader_fft_prime = 29;
    tuning.validate().unwrap();

    let mut nvidia_48k = nvidia_vulkan(48 * 1024);
    nvidia_48k.max_threads_per_block = 1024;
    nvidia_48k.max_workgroup_size[0] = 1024;
    let n206 = plan_gpu_axis0_multi_fft_rader_parent_schedule_with_tuning(
        2 * 103,
        &[(103, 1)],
        1,
        tuning,
        nvidia_48k,
    )
    .unwrap()
    .expect("N206 p103 cross-Bluestein parent should remain schedulable");
    assert_eq!(n206.final_min_registers, 2);
    assert_eq!(n206.min_rader_fft_thread_num, 68);
    assert_eq!(n206.threads_per_transform, 103);

    let mut nvidia_256k = nvidia_vulkan(256 * 1024);
    nvidia_256k.shared_memory_pow2_bytes = 256 * 1024;
    nvidia_256k.max_threads_per_block = 1024;
    nvidia_256k.max_workgroup_size[0] = 1024;
    let n3193 = plan_gpu_axis0_multi_fft_rader_parent_schedule_with_tuning(
        31 * 103,
        &[(31, 1), (103, 1)],
        1,
        tuning,
        nvidia_256k,
    )
    .unwrap()
    .expect("N3193 p31+p103 cross-Bluestein parent should remain schedulable");
    assert_eq!(n3193.final_min_registers, 5);
    assert_eq!(n3193.min_rader_fft_thread_num, 618);
    assert_eq!(n3193.threads_per_transform, 639);
}
