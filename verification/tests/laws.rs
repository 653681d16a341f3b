use vkfft_scheduler::arith::{
    ceil_cuberoot, ceil_div, ceil_sqrt, checked_pow, exact_log2_bounds, exponent_covering,
    highest_power_of_two_at_most, largest_square_divisor_boost, next_power_of_two, strip_factor,
};
use vkfft_scheduler::bluestein::{
    is_bluestein_small_radix_smooth, upstream_bluestein_auto_padding,
    upstream_bluestein_generic_padding,
};
use vkfft_scheduler::config::{Backend, DeviceProfile, GpuVendor, PlannerTuning, Precision};
use vkfft_scheduler::direct_rader::{
    plan_gpu_axis0_composite_direct_rader_threads_for_prime_multiplicities,
    scale_axis0_direct_rader_type1_register_floor_with_max_batch_coalesced,
};
use vkfft_scheduler::double_root::upstream_floor_nth_root;
use vkfft_scheduler::factors::distinct_prime_factors;
use vkfft_scheduler::four_step_blocks::{
    plan_gpu_axis0_four_step_default_block_from_shape_for_precision,
    plan_gpu_axis0_four_step_upload_block_with_grouped_batch_for_precision,
    FourStepAxisBlockRequest,
};
use vkfft_scheduler::policy::plan_gpu_scheduler_policy;
use vkfft_scheduler::quad::plan_gpu_double_double_quad_registers;
use vkfft_scheduler::rader_containers::{
    build_multi_fft_rader_container_state, build_nested_fft_rader_subcontainers,
    MultiFftRaderContainerKind, MultiFftRaderContainerRegisterState,
};
use vkfft_scheduler::rader_parents::{
    plan_gpu_axis0_mixed_direct_multi_fft_rader_threads,
    plan_gpu_axis0_multi_fft_rader_parent_schedule,
    plan_gpu_axis0_multi_fft_rader_threads_for_prime_multiplicities,
    plan_gpu_double_double_axis0_fft_rader_threads_for_prime_multiplicities,
    plan_gpu_double_double_axis0_mixed_direct_multi_fft_rader_threads,
};
use vkfft_scheduler::rader_registers::plan_gpu_rader_fft_registers_for_containers;
use vkfft_scheduler::rader_tables::{
    rader_outer_register_state, rader_small_radix_multipliers_with_residual,
};
use vkfft_scheduler::rader_tree::{
    optimize_smooth_fft_rader_containers_once,
    scale_axis0_rader_register_tables_with_max_batch_coalesced, RaderRegisterTree,
};
use vkfft_scheduler::rader_uploads::{plan_gpu_rader_upload_split, RaderUploadReason};
use vkfft_scheduler::registers::{
    fewest_stage_log, min_max_stage_registers, plan_gpu_power_of_two_radix_registers,
    plan_gpu_small_mixed_radix_registers, plan_nvidia_vulkan_two_three_radix_registers,
    VKFFT_RADIX_TABLE_LEN,
};
use vkfft_scheduler::shared_search::rader_optimize_shared_register_table;
use vkfft_scheduler::splits::{
    generic_power_of_two_three_upload_split, generic_sqrt_divisor_split_with_limits,
    generic_three_upload_divisor_split_with_limits, generic_three_upload_unit_stride_split,
    power_of_two_three_upload_split, power_of_two_two_upload_split, prefer_four_step_first_factor,
};
use vkfft_scheduler::stockham_blocks::{
    plan_gpu_axis0_single_upload_block, plan_gpu_axis0_single_upload_block_with_zero_padding,
    plan_gpu_other_axis_single_upload_block,
};
use vkfft_scheduler::upload_count::StockhamUploadAxisContext;
use vkfft_scheduler::uploads::{
    plan_gpu_double_double_stockham_uploads_for_batches,
    plan_gpu_power_of_two_stockham_uploads_for_batches_with_axis_context,
    plan_gpu_smooth_stockham_uploads, plan_gpu_smooth_stockham_uploads_for_batches,
};

fn nvidia_vulkan() -> DeviceProfile {
    DeviceProfile {
        max_threads_per_block: 1_024,
        max_workgroup_size: [1_024, 1_024, 64],
        shared_memory_bytes: 48 * 1_024,
        shared_memory_pow2_bytes: 32 * 1_024,
        coalesced_memory_bytes: 32,
        ..DeviceProfile::generic(Backend::Vulkan, GpuVendor::Nvidia)
    }
}

fn amd_vulkan() -> DeviceProfile {
    DeviceProfile {
        vendor: GpuVendor::Amd,
        ..nvidia_vulkan()
    }
}

fn product(factors: &[usize]) -> usize {
    factors.iter().product()
}

fn double_root(value: usize, degree: usize) -> usize {
    (value as f64).powf(1.0 / degree as f64).floor() as usize
}

/// The least value whose root, taken in double precision, reaches `root`.
fn least_reaching(root: usize, degree: usize) -> Option<usize> {
    if double_root(usize::MAX, degree) < root {
        return None;
    }
    let (mut low, mut high) = (0usize, usize::MAX);
    while low < high {
        let middle = low + (high - low) / 2;
        if double_root(middle, degree) >= root {
            high = middle;
        } else {
            low = middle + 1;
        }
    }
    Some(low)
}

#[test]
fn nth_roots_round_as_double_precision_does() {
    for degree in 1usize..=19 {
        for root in 1usize..=17 {
            let Some(least) = least_reaching(root, degree) else {
                continue;
            };
            assert!(
                upstream_floor_nth_root(least, degree) >= root,
                "value {least} degree {degree}"
            );
            assert!(
                upstream_floor_nth_root(least - 1, degree) < root,
                "value {least} degree {degree}"
            );
            for value in [least - 1, least, least.saturating_add(1)] {
                assert_eq!(
                    upstream_floor_nth_root(value, degree),
                    double_root(value, degree),
                    "value {value} degree {degree}"
                );
            }
        }
    }
}

#[test]
fn nth_roots_of_any_degree_round_as_double_precision_does() {
    for degree in 2usize..=64 {
        for root in 1usize..=2_000 {
            let Some(exact) = root.checked_pow(degree as u32) else {
                break;
            };
            if exact > 1 << 49 {
                break;
            }
            for value in exact.saturating_sub(2)..=exact + 2 {
                assert_eq!(
                    upstream_floor_nth_root(value, degree),
                    double_root(value, degree),
                    "value {value} degree {degree}"
                );
            }
        }
    }
    for degree in 1usize..=70 {
        for value in [0usize, 1, 2, 3, 400, 65_536, 1 << 53, (1 << 53) + 1, usize::MAX] {
            assert_eq!(
                upstream_floor_nth_root(value, degree),
                double_root(value, degree),
                "value {value} degree {degree}"
            );
        }
    }
    assert_eq!(upstream_floor_nth_root(400, 2), 20);
    assert_eq!(upstream_floor_nth_root(19_683, 3), 26);
    assert_eq!(upstream_floor_nth_root((1 << 53) + 1, 1), 1 << 53);
    assert_eq!(upstream_floor_nth_root(usize::MAX, 1), usize::MAX);
    assert_eq!(upstream_floor_nth_root(usize::MAX, 2), 1 << 32);
    assert_eq!(upstream_floor_nth_root(usize::MAX, 64), 2);
    assert_eq!(upstream_floor_nth_root(usize::MAX, 65), 1);
}

#[test]
fn square_roots_are_whole_below_two_to_the_52() {
    for root in [1usize, 2, 3, 1_000, 65_537, (1 << 26) - 1] {
        let square = root * root;
        assert_eq!(upstream_floor_nth_root(square, 2), root);
        assert_eq!(upstream_floor_nth_root(square - 1, 2), root - 1);
    }
    for degree in 2usize..=64 {
        for value in [63usize, 64, 65, 19_683, 1 << 40, usize::MAX] {
            let root = upstream_floor_nth_root(value, degree) as u128;
            let power = |base: u128| base.checked_pow(degree as u32).unwrap_or(u128::MAX);
            assert!(root <= 1 || power(root - 1) <= value as u128);
            assert!(power(root + 2) > value as u128);
        }
    }
}

#[test]
fn ceil_division_is_the_least_cover() {
    for value in 0usize..200 {
        for divisor in 1usize..40 {
            let count = ceil_div(value, divisor).unwrap();
            assert!(count * divisor >= value);
            assert!(count == 0 || (count - 1) * divisor < value);
        }
    }
    assert_eq!(ceil_div(17, 4).unwrap(), 5);
    assert!(ceil_div(1, 0).is_err());
}

#[test]
fn powers_roots_and_logarithms_bracket_their_value() {
    for value in 1usize..2_000 {
        let above = next_power_of_two(value).unwrap();
        let below = highest_power_of_two_at_most(value);
        assert!(above.is_power_of_two() && below.is_power_of_two());
        assert!(below <= value && value <= above);
        assert!(2 * below > value && (value == 1 || above < 2 * value));
        let (low, high) = exact_log2_bounds(value);
        assert_eq!(1usize << low, below);
        assert_eq!(1usize << high, above);
        let square = ceil_sqrt(value).unwrap();
        assert!(square * square >= value && (square - 1) * (square - 1) < value);
        let cube = ceil_cuberoot(value).unwrap();
        assert!(cube.pow(3) >= value && (cube - 1).pow(3) < value);
    }
    assert_eq!(exponent_covering(1_000, 10).unwrap(), 3);
    assert_eq!(exponent_covering(1_001, 10).unwrap(), 4);
    assert_eq!(checked_pow(3, 4, "power").unwrap(), 81);
}

#[test]
fn square_divisor_boost_is_the_greatest_one() {
    for len in 1usize..400 {
        for limit in 1usize..12 {
            let boost = largest_square_divisor_boost(len, limit);
            let expected = (1..=limit)
                .rev()
                .find(|candidate| len % (candidate * candidate) == 0)
                .unwrap();
            assert_eq!(boost, expected);
        }
    }
}

#[test]
fn stripped_factors_multiply_back() {
    for value in 1usize..500 {
        for prime in [2usize, 3, 5, 7, 11, 13] {
            let (left, count) = strip_factor(value, prime);
            assert_eq!(left * prime.pow(count as u32), value);
            assert_ne!(left % prime, 0);
        }
    }
}

#[test]
fn distinct_factors_are_primes_that_multiply_back() {
    for value in 1usize..3_000 {
        let factors = distinct_prime_factors(value);
        let mut total = 1;
        let mut last = 1;
        for (prime, multiplicity) in factors {
            assert!(prime > last);
            assert!((2..prime).all(|divisor| prime % divisor != 0));
            assert!(multiplicity > 0);
            total *= prime.pow(multiplicity as u32);
            last = prime;
        }
        assert_eq!(total, value);
    }
    assert_eq!(distinct_prime_factors(0), vec![]);
    assert_eq!(distinct_prime_factors(360), vec![(2, 3), (3, 2), (5, 1)]);
}

#[test]
fn smooth_lengths_have_schedules_and_no_others() {
    for len in 2usize..700 {
        let mut rest = len;
        for prime in [2, 3, 5, 7, 11, 13] {
            while rest % prime == 0 {
                rest /= prime;
            }
        }
        let planned = plan_gpu_small_mixed_radix_registers(len, 3);
        assert_eq!(planned.is_ok(), rest == 1 && !len.is_power_of_two(), "length {len}");
        if let Ok(schedule) = planned {
            schedule.validate().unwrap();
            assert_eq!(product(&schedule.stage_radices), len);
        }
    }
    let two_three = plan_nvidia_vulkan_two_three_radix_registers(648, 1).unwrap();
    assert_eq!(product(&two_three.stage_radices), 648);
}

#[test]
fn powers_of_two_have_schedules_at_every_boost() {
    for log in 1usize..20 {
        for boost in [1usize, 2, 4] {
            let len = 1usize << log;
            if let Ok(schedule) = plan_gpu_power_of_two_radix_registers(len, 1, boost) {
                schedule.validate().unwrap();
                assert_eq!(product(&schedule.stage_radices), len);
            } else {
                assert_ne!(boost, 1, "length {len}");
            }
        }
    }
}

#[test]
fn fewest_stages_are_chosen() {
    for exponent in 1usize..=40 {
        let best = fewest_stage_log(exponent);
        let stages = exponent.div_ceil(best);
        for other in 1usize..=3 {
            assert!(stages <= exponent.div_ceil(other));
        }
    }
}

#[test]
fn found_splits_multiply_to_the_length_within_their_limits() {
    for len in 2usize..3_000 {
        if let Some((quotient, divisor)) =
            generic_sqrt_divisor_split_with_limits(len, 64, 96).unwrap()
        {
            assert_eq!(quotient * divisor, len);
            assert!(divisor <= 64 && quotient <= 96);
        }
        if let Ok(split) = generic_three_upload_divisor_split_with_limits(len, 16, 24) {
            assert_eq!(product(&split), len);
            assert!(split[0] <= 24 && split[1] <= 16 && split[2] <= 16);
        }
        if let Ok(split) = generic_three_upload_unit_stride_split(len, 40, 12) {
            assert_eq!(product(&split), len);
            assert!(split[0] <= 40 && split[1] <= 12 && split[2] <= 12);
        }
    }
    assert_eq!(
        generic_sqrt_divisor_split_with_limits(360, 64, 96).unwrap(),
        Some((20, 18))
    );
    assert_eq!(generic_sqrt_divisor_split_with_limits(127, 64, 96).unwrap(), None);
}

#[test]
fn splits_of_powers_of_two_multiply_to_them() {
    for device in [nvidia_vulkan(), amd_vulkan()] {
        for log in 6usize..24 {
            let len = 1usize << log;
            for unit_stride in [false, true] {
                if let Ok(split) =
                    power_of_two_two_upload_split(len, 4_096, 1_024, 1_024, 1, unit_stride, device)
                {
                    assert_eq!(split.len(), 2);
                    assert_eq!(product(&split), len);
                }
                if let Ok(split) = power_of_two_three_upload_split(
                    len,
                    32_768,
                    4_096,
                    1_024,
                    1_024,
                    1,
                    unit_stride,
                    device,
                ) {
                    assert_eq!(split.len(), 3);
                    assert_eq!(product(&split), len);
                }
            }
            if let Ok(split) = generic_power_of_two_three_upload_split(len, 1_024, 1_024) {
                assert_eq!(product(&split), len);
            }
        }
    }
    // A factor raised to 64 leaves nothing of a shorter axis.
    let short = power_of_two_two_upload_split(32, 8, 8, 8, 1, false, amd_vulkan()).unwrap();
    assert_ne!(product(&short), 32);
}

#[test]
fn reordering_keeps_the_factors() {
    let mut split = vec![9, 25, 16];
    prefer_four_step_first_factor(&mut split);
    assert_eq!(split, vec![16, 25, 9]);
    let mut split = vec![15, 6, 12, 40];
    prefer_four_step_first_factor(&mut split);
    assert_eq!(product(&split), 15 * 6 * 12 * 40);
    assert_eq!(split[0], 40);
}

#[test]
fn planned_uploads_check_and_cover_the_axis() {
    for device in [nvidia_vulkan(), amd_vulkan()] {
        for len in [4usize, 360, 4_096, 8_192, 10_000, 65_536, 1_048_576, 7_085_880, 16_777_216] {
            let upload =
                plan_gpu_smooth_stockham_uploads_for_batches(len, 5, Precision::F32, device)
                    .unwrap();
            upload.validate().unwrap();
            assert!((1..=3).contains(&upload.upload_count));
            assert_eq!(product(&upload.axis_split), len);
            for (part, factor) in upload.radix_schedules.iter().zip(&upload.axis_split) {
                assert_eq!(part.fft_len, *factor);
                assert_eq!(part.rhs_transform_count * factor, len * 5);
                assert_eq!(part.register_boost, upload.register_boost);
            }
        }
        let wide = plan_gpu_double_double_stockham_uploads_for_batches(8_192, 2, device).unwrap();
        wide.validate().unwrap();
        assert_eq!(product(&wide.axis_split), 8_192);
    }
}

#[test]
fn planned_rader_uploads_fit_strided_memory() {
    let device = nvidia_vulkan();
    for (len, prime) in [(17 * 8_192usize, 17usize), (97 * 2_048, 97), (257 * 1_000, 257)] {
        let Some(upload) =
            plan_gpu_rader_upload_split(len, &[prime], &[], Precision::F32, device).unwrap()
        else {
            panic!("length {len} takes one upload");
        };
        upload.validate().unwrap();
        assert_eq!(product(&upload.axis_split), len);
        assert!(upload.upload_count == 2 || upload.upload_count == 3);
        assert!(upload
            .axis_split
            .iter()
            .all(|factor| *factor <= upload.max_sequence_len_strided));
        assert_eq!(upload.reason, RaderUploadReason::CapacityOrBandwidth);
    }
}

#[test]
fn peeled_radices_multiply_back() {
    for len in 2usize..2_000 {
        let (multipliers, residual) = rader_small_radix_multipliers_with_residual(len, 17).unwrap();
        let mut total = residual;
        for radix in 2usize..17 {
            total *= radix.pow(multipliers[radix] as u32);
            assert_ne!(residual % radix, 0);
        }
        assert_eq!(total, len);
    }
    for minimum in [0usize, 1, 2] {
        let (multipliers, residual) =
            rader_small_radix_multipliers_with_residual(96, minimum).unwrap();
        assert!(multipliers.iter().all(|count| *count == 0));
        assert_eq!(residual, 96);
    }
}

#[test]
fn shared_register_tables_keep_their_extrema() {
    for len in 2usize..600 {
        if let Ok((table, most, least)) = rader_optimize_shared_register_table(len) {
            let used: Vec<usize> = table.iter().copied().filter(|value| *value != 0).collect();
            assert!(used.iter().all(|value| least <= *value && *value <= most));
        }
    }
}

#[test]
fn nested_containers_list_transforms_before_direct_primes() {
    let tuning = PlannerTuning::portable();
    for residual in 17usize..4_000 {
        let Some(containers) = build_nested_fft_rader_subcontainers(residual, 3, tuning).unwrap()
        else {
            continue;
        };
        let factors = distinct_prime_factors(residual);
        assert_eq!(containers.len(), factors.len());
        let mut direct_seen = false;
        for container in &containers {
            if container.kind == MultiFftRaderContainerKind::Direct {
                direct_seen = true;
                assert_eq!(container.registers_per_thread, 2);
                assert!(container.subcontainers.is_empty());
            } else {
                assert!(!direct_seen);
            }
            assert_eq!(container.container_fft_num, 3 * (residual / container.prime));
            assert!(factors.iter().any(|factor| factor.0 == container.prime));
        }
    }
    assert!(build_nested_fft_rader_subcontainers(0, 3, tuning)
        .unwrap()
        .unwrap()
        .is_empty());
}

fn shape(
    containers: &[MultiFftRaderContainerRegisterState],
) -> Vec<(MultiFftRaderContainerKind, usize, usize, Vec<usize>, usize)> {
    let mut listed = Vec::new();
    for container in containers {
        listed.push((
            container.kind,
            container.prime,
            container.container_fft_num,
            container.stage_radix_multipliers.to_vec(),
            container.subcontainers.len(),
        ));
        listed.extend(shape(&container.subcontainers));
    }
    listed
}

#[test]
fn optimizing_and_scaling_change_nothing_but_registers() {
    for (sequence_len, primes) in [(257usize * 4, vec![257usize]), (97 * 73, vec![97, 73])] {
        let containers: Vec<MultiFftRaderContainerRegisterState> = primes
            .iter()
            .map(|prime| {
                build_multi_fft_rader_container_state(*prime, sequence_len / prime)
                    .unwrap()
                    .unwrap()
            })
            .collect();
        let before = shape(&containers);
        let smooth = sequence_len / product(&primes);
        let (outer, most, least) = rader_outer_register_state(sequence_len, smooth, 1).unwrap();
        let tree = RaderRegisterTree {
            outer,
            most,
            least,
            containers,
        };
        let optimized = optimize_smooth_fft_rader_containers_once(sequence_len, tree).unwrap();
        assert_eq!(shape(&optimized.containers), before);
        for container in &optimized.containers {
            assert!(container.registers_per_thread <= optimized.most);
            assert!(container.min_registers_per_thread >= optimized.least);
        }
        let (scaled, scale) = scale_axis0_rader_register_tables_with_max_batch_coalesced(
            sequence_len,
            4,
            false,
            64,
            optimized,
        )
        .unwrap();
        assert!(scale >= 1);
        assert_eq!(shape(&scaled.containers), before);
    }
}

#[test]
fn parent_estimates_fit_the_workgroup() {
    let device = nvidia_vulkan();
    for (sequence_len, primes) in [
        (257usize * 4, vec![(257usize, 1usize)]),
        (97 * 73, vec![(97, 1), (73, 1)]),
        (17 * 17 * 8, vec![(17, 2)]),
    ] {
        let schedule = plan_gpu_axis0_multi_fft_rader_parent_schedule(
            sequence_len,
            &primes,
            1,
            device,
        )
        .unwrap()
        .unwrap();
        assert!(schedule.threads_per_transform >= 1);
        assert!(schedule.threads_per_transform <= 1_024);
        assert!(schedule.threads_per_transform * schedule.final_min_registers >= sequence_len);
        assert!(schedule.threads_per_transform >= schedule.min_rader_fft_thread_num);
    }
    let mixed =
        plan_gpu_axis0_mixed_direct_multi_fft_rader_threads(47 * 257, &[(47, 1)], &[(257, 1)], 1, device)
            .unwrap();
    assert!(mixed.is_some_and(|threads| (1..=1_024).contains(&threads)));
    let direct = plan_gpu_axis0_composite_direct_rader_threads_for_prime_multiplicities(
        47 * 47 * 2,
        &[(47, 2)],
        1,
        device,
    )
    .unwrap();
    assert!(direct.is_some_and(|threads| (1..=1_024).contains(&threads)));
}

#[test]
fn lanes_of_a_transposed_rader_stage_lead_back() {
    let device = nvidia_vulkan();
    let schedule =
        plan_gpu_rader_fft_registers_for_containers(257, 16, 257 * 16, 16, device).unwrap();
    schedule.validate().unwrap();
    let transpose = schedule.rader_transpose.unwrap();
    let mut found = 0;
    for stage in 0..transpose.stages.len() {
        for lane in 0..transpose.workgroup_threads {
            if let Some((index, container)) = transpose.lane_coordinates(stage, lane).unwrap() {
                assert_eq!(
                    transpose.physical_invocation(stage, index, container).unwrap(),
                    lane
                );
                found += 1;
            }
        }
    }
    assert!(found > 0);
}

#[test]
fn bluestein_padding_covers_the_convolution() {
    for device in [nvidia_vulkan(), amd_vulkan()] {
        for len in (17usize..3_000).step_by(13) {
            let padded =
                upstream_bluestein_auto_padding(len, 1, Precision::F32, device).unwrap();
            assert!(padded >= 2 * len - 1);
            let searched =
                upstream_bluestein_generic_padding(len, 1, Precision::F32, device).unwrap();
            assert!(searched >= 2 * len - 1);
            assert!(is_bluestein_small_radix_smooth(searched));
        }
    }
}

#[test]
fn blocks_fit_the_device_and_keep_their_shape() {
    let device = nvidia_vulkan();
    for len in [64usize, 100, 256, 1_000, 2_048] {
        let upload =
            plan_gpu_smooth_stockham_uploads_for_batches(len, 64, Precision::F32, device).unwrap();
        assert_eq!(upload.radix_schedules[0].fft_len, upload.axis_split[0]);
        if let Some(block) =
            plan_gpu_axis0_single_upload_block(&upload, 8, device).unwrap()
        {
            block.validate(64, device).unwrap();
        }
        if let Some(block) =
            plan_gpu_axis0_single_upload_block_with_zero_padding(&upload, 8, true, device).unwrap()
        {
            assert!(!block.axis_swapped);
        }
        if let Some(block) =
            plan_gpu_other_axis_single_upload_block(&upload, 64, 8, device).unwrap()
        {
            assert!(block.transforms_on_x && !block.axis_swapped);
        }
    }
}

#[test]
fn shape_splitter_agrees_with_upload_splitter() {
    let mut compared = 0;
    for device in [nvidia_vulkan(), amd_vulkan()] {
        for len in [65_536usize, 1_048_576, 10_000, 1_000_000] {
            let upload = plan_gpu_smooth_stockham_uploads(len, Precision::F32, device).unwrap();
            let mut start = 1;
            for (id, factor) in upload.axis_split.iter().enumerate() {
                let request = FourStepAxisBlockRequest {
                    axis_upload_id: id,
                    stage_start_size: start,
                    transform_count: len / factor,
                    outer_batch_count: 1,
                    perform_zero_padding: false,
                    grouped_batch_override: None,
                };
                start *= factor;
                let block = plan_gpu_axis0_four_step_upload_block_with_grouped_batch_for_precision(
                    &upload,
                    request,
                    Precision::F32,
                    8,
                    device,
                )
                .unwrap();
                let Some(block) = block.filter(|block| block.grouped_batch > 1) else {
                    continue;
                };
                let from_shape =
                    plan_gpu_axis0_four_step_default_block_from_shape_for_precision(
                        upload.upload_count,
                        *factor,
                        block.threads_per_transform,
                        request,
                        Precision::F32,
                        8,
                        device,
                    )
                    .unwrap();
                assert_eq!(from_shape, Some(block));
                compared += 1;
            }
        }
    }
    assert!(compared > 0);
}

#[test]
fn convolutions_never_boost_registers() {
    let plain = plan_gpu_power_of_two_stockham_uploads_for_batches_with_axis_context(
        8_192,
        1,
        Precision::F32,
        nvidia_vulkan(),
        StockhamUploadAxisContext {
            perform_convolution: true,
            ..StockhamUploadAxisContext::default()
        },
    )
    .unwrap();
    assert_eq!(plain.register_boost, 1);
}

#[test]
fn short_axes_take_one_upload() {
    for device in [nvidia_vulkan(), amd_vulkan()] {
        for len in [1usize, 2, 64, 1_024, 4_096] {
            let upload =
                plan_gpu_smooth_stockham_uploads_for_batches(len, 3, Precision::F32, device)
                    .unwrap();
            assert_eq!(upload.axis_split, vec![len]);
            assert_eq!(upload.register_boost, 1);
        }
        for len in [3usize, 360, 1_155, 6_000, 6_144] {
            let upload =
                plan_gpu_smooth_stockham_uploads_for_batches(len, 3, Precision::F32, device)
                    .unwrap();
            assert_eq!(upload.axis_split, vec![len]);
            assert_eq!(upload.register_boost, 1);
        }
    }
}

#[test]
fn double_double_schedules_exist_over_two_three_five_and_seven() {
    for len in 2usize..800 {
        let mut rest = len;
        for prime in [2, 3, 5, 7] {
            while rest % prime == 0 {
                rest /= prime;
            }
        }
        let planned = plan_gpu_double_double_quad_registers(len, 5);
        assert_eq!(planned.is_ok(), rest == 1, "length {len}");
        if let Ok(schedule) = planned {
            for value in schedule.registers_per_thread_per_radix {
                assert!(
                    value == 0
                        || (schedule.min_registers_per_thread <= value
                            && value <= schedule.registers_per_thread)
                );
            }
        }
    }
}

#[test]
fn direct_floor_is_the_least_that_suffices() {
    let (registers, lanes) =
        scale_axis0_direct_rader_type1_register_floor_with_max_batch_coalesced(
            47 * 8,
            &[(47, 1)],
            2,
            1,
            1_024,
        )
        .unwrap()
        .unwrap();
    assert_eq!(registers % 2, 0);
    assert!(lanes <= 1_024);
    let (tighter, fewer) = scale_axis0_direct_rader_type1_register_floor_with_max_batch_coalesced(
        47 * 8,
        &[(47, 1)],
        2,
        1,
        64,
    )
    .unwrap()
    .unwrap();
    assert!(tighter >= registers);
    assert!(fewer <= 64);
}

#[test]
fn both_precisions_take_the_same_lanes_without_a_smooth_factor() {
    let device = nvidia_vulkan();
    let lists: [(&[(usize, usize)], &[(usize, usize)]); 5] = [
        (&[(47, 1)], &[(257, 1)]),
        (&[(47, 2)], &[(17, 1)]),
        (&[(17, 1)], &[(19, 1), (29, 1)]),
        (&[(17, 1)], &[(19, 1), (23, 1)]),
        (&[(11, 1)], &[(17, 1), (19, 1)]),
    ];
    let mut estimates = 0;
    for (direct, primes) in lists {
        let len: usize = direct
            .iter()
            .chain(primes)
            .map(|(prime, count)| prime.pow(*count as u32))
            .product();
        for batch_count in [1usize, 2, 7] {
            let ordinary = plan_gpu_axis0_mixed_direct_multi_fft_rader_threads(
                len,
                direct,
                primes,
                batch_count,
                device,
            );
            assert_eq!(
                plan_gpu_double_double_axis0_mixed_direct_multi_fft_rader_threads(
                    len,
                    direct,
                    primes,
                    batch_count,
                    device,
                )
                .ok(),
                ordinary.clone().ok(),
            );
            if let Ok(Some(_)) = ordinary {
                estimates += 1;
            }
        }
    }
    assert!(estimates > 0);
    assert_eq!(
        plan_gpu_double_double_axis0_fft_rader_threads_for_prime_multiplicities(
            17 * 19,
            &[(17, 1), (19, 1)],
            1,
            device,
        )
        .unwrap(),
        plan_gpu_axis0_multi_fft_rader_threads_for_prime_multiplicities(
            17 * 19,
            &[(17, 1), (19, 1)],
            1,
            device,
        )
        .unwrap(),
    );
}

#[test]
fn factors_of_several_uploads_fit_strided_memory() {
    for device in [nvidia_vulkan(), amd_vulkan()] {
        for len in [10_000usize, 30_000, 48_000, 99_792, 1_000_000, 7 * 65_536] {
            let Ok(upload) = plan_gpu_smooth_stockham_uploads_for_batches(
                len,
                2,
                Precision::F32,
                device,
            ) else {
                continue;
            };
            if upload.upload_count > 1 {
                assert_eq!(upload.register_boost, 1);
                let fits = |factor: &usize| *factor <= upload.max_sequence_len_strided;
                assert!(upload.axis_split.iter().all(fits), "length {len}");
            }
        }
        for len in [3_000usize, 10_000, 8_192, 65_536, 262_144] {
            let Ok(upload) = plan_gpu_double_double_stockham_uploads_for_batches(len, 1, device)
            else {
                continue;
            };
            let capacity = upload.max_sequence_len_strided * upload.register_boost;
            if upload.upload_count == 3 || (upload.upload_count == 2 && capacity >= 64) {
                assert!(capacity.pow(upload.upload_count as u32) >= len);
                assert!(upload.axis_split.iter().all(|factor| *factor <= capacity));
            }
        }
    }
    let small = DeviceProfile {
        shared_memory_bytes: 1_024,
        shared_memory_pow2_bytes: 1_024,
        ..DeviceProfile::generic(Backend::Vulkan, GpuVendor::Nvidia)
    };
    let upload =
        plan_gpu_smooth_stockham_uploads_for_batches(1_024, 1, Precision::F32, small).unwrap();
    assert_eq!(upload.max_sequence_len_strided, 32);
    assert_eq!(upload.axis_split, [64, 16]);
}

#[test]
fn policies_boost_by_one_two_or_four() {
    for vendor in [GpuVendor::Nvidia, GpuVendor::Amd, GpuVendor::Intel] {
        for shared in [16_384usize, 32_768, 49_152, 65_536] {
            let device = DeviceProfile {
                shared_memory_bytes: shared,
                ..DeviceProfile::generic(Backend::Vulkan, vendor)
            };
            for precision in [Precision::F32, Precision::F64] {
                let policy = plan_gpu_scheduler_policy(precision, device).unwrap();
                assert!(matches!(policy.register_boost, 1 | 2 | 4));
                assert!(policy.swap_to_three_stage_four_step >= 262_144);
            }
        }
    }
}

#[test]
fn generic_devices_report_no_subgroup() {
    let subgroup = DeviceProfile::generic(Backend::Cuda, GpuVendor::Nvidia).subgroup;
    assert_eq!((subgroup.size, subgroup.min_size, subgroup.max_size), (0, 0, 0));
    assert!(!subgroup.required_size_compute_supported && !subgroup.compute_supported);
    assert!(!subgroup.basic_supported && !subgroup.shuffle_supported);
    assert!(!subgroup.shuffle_relative_supported && !subgroup.compute_full_subgroups);
}

#[test]
fn stages_below_two_read_their_entries_too() {
    let mut registers = [0usize; VKFFT_RADIX_TABLE_LEN];
    registers[0] = 5;
    registers[1] = 3;
    registers[2] = 4;
    assert_eq!(min_max_stage_registers(&[1, 2], &registers), (4, 3));
    assert_eq!(min_max_stage_registers(&[0], &registers), (5, 5));
    assert_eq!(min_max_stage_registers(&[7], &registers), (0, 0));
}
