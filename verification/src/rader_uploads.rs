//! Uploads of an axis with Rader primes.

use vstd::prelude::*;

use crate::arith::{ceil_div, checked_mul, exponent_covering, exponent_covering_spec, umax};
use crate::config::{Backend, DeviceProfile, Precision};
use crate::error::{PlanResult, VkFftError};
use crate::policy:: {
    is_nvidia_vulkan, plan_gpu_scheduler_policy, scheduler_policy, GpuSchedulerPolicy
};
use crate::registers::viewed_option;
use crate::splits::{
    contains_zero, divisor_three_upload_split, generic_sqrt_divisor_split_with_limits,
    generic_three_upload_divisor_split_with_limits, has_zero, multiply_split, split_product,
    sqrt_split,
};
use crate::upload_count::{
    apply_strided_bandwidth_boost, bandwidth_uploads, swapped_count, StockhamUploadAxisContext,
    UploadLimits,
};
use crate::uploads::{pair_split, plain_context, reordered, reordered_split, strided_capacity};

verus! {

/// Whether a prime would be replicated over too many containers, in list order: the
/// first prime that does not divide ends the search with an error, the first that
/// presses ends it with `true`.
pub open spec fn force_from(
    sequence_len: usize,
    primes: Seq<usize>,
    max_threads: usize,
    from: int,
) -> PlanResult<bool>
    decreases primes.len() - from,
{
    if from >= primes.len() {
        Ok(false)
    } else if primes[from] < 2 || sequence_len % primes[from] != 0 {
        Err(VkFftError::InvalidKernelIr("FFT-Rader prime does not divide the scheduled axis"))
    } else if sequence_len / primes[from] > 512 || sequence_len / primes[from] > max_threads {
        Ok(true)
    } else {
        force_from(sequence_len, primes, max_threads, from + 1)
    }
}

/// Whether an FFT-Rader axis must not stay in one upload.
pub open spec fn force_two_upload(
    sequence_len: usize,
    fft_rader_primes: Seq<usize>,
    device: DeviceProfile,
) -> PlanResult<bool> {
    if sequence_len == 0 || device.max_threads_per_block == 0 {
        Err(VkFftError::InvalidKernelIr("Rader upload pressure requires non-zero dimensions"))
    } else if device.backend == Backend::CpuReference {
        Ok(false)
    } else {
        force_from(sequence_len, fft_rader_primes, device.max_threads_per_block, 0)
    }
}

pub fn plan_gpu_force_rader_two_upload(
    sequence_len: usize,
    fft_rader_primes: &[usize],
    device: DeviceProfile,
) -> (forced: PlanResult<bool>)
    ensures
        forced == force_two_upload(sequence_len, fft_rader_primes@, device),
{
    if sequence_len == 0 || device.max_threads_per_block == 0 {
        return Err(
            VkFftError::InvalidKernelIr("Rader upload pressure requires non-zero dimensions"),
        );
    }
    if device.backend == Backend::CpuReference {
        return Ok(false);
    }
    let mut index: usize = 0;
    while index < fft_rader_primes.len()
        invariant
            index <= fft_rader_primes.len(),
            force_two_upload(sequence_len, fft_rader_primes@, device) == force_from(
                sequence_len,
                fft_rader_primes@,
                device.max_threads_per_block,
                index as int,
            ),
        decreases fft_rader_primes.len() - index,
    {
        let prime: usize = fft_rader_primes[index];
        if prime < 2 || sequence_len % prime != 0 {
            return Err(
                VkFftError::InvalidKernelIr("FFT-Rader prime does not divide the scheduled axis"),
            );
        }
        let containers: usize = sequence_len / prime;
        if containers > 512 || containers > device.max_threads_per_block {
            return Ok(true);
        }
        index = index + 1;
    }
    Ok(false)
}

pub fn plan_nvidia_vulkan_force_rader_two_upload(
    sequence_len: usize,
    fft_rader_primes: &[usize],
    device: DeviceProfile,
) -> (forced: PlanResult<bool>)
    ensures
        forced == (if is_nvidia_vulkan(device) {
            force_two_upload(sequence_len, fft_rader_primes@, device)
        } else {
            Ok(false)
        }),
{
    if !is_nvidia_vulkan(device) {
        return Ok(false);
    }
    plan_gpu_force_rader_two_upload(sequence_len, fft_rader_primes, device)
}

/// Why a Rader axis takes several uploads.
#[derive(Debug, Clone, Copy, PartialEq, Eq, Structural)]
pub enum RaderUploadReason {
    CapacityOrBandwidth,
    ForcedRaderPressure,
}

/// Upload split of an axis with Rader primes; a factor may itself contain one.
#[derive(Debug, Clone, PartialEq, Eq)]
pub struct RaderUploadSchedule {
    pub sequence_len: usize,
    pub used_shared_memory_bytes: usize,
    pub max_sequence_len_shared: usize,
    pub max_sequence_len_strided: usize,
    pub upload_count: usize,
    pub axis_split: Vec<usize>,
    pub reason: RaderUploadReason,
}

/// The same schedule under the name its forced form has.
pub type RaderForcedUploadSchedule = RaderUploadSchedule;

/// Mathematical content of a [`RaderUploadSchedule`].
#[verifier::ext_equal]
pub struct RaderUploadModel {
    pub sequence_len: usize,
    pub used_shared_memory_bytes: usize,
    pub max_sequence_len_shared: usize,
    pub max_sequence_len_strided: usize,
    pub upload_count: usize,
    pub axis_split: Seq<usize>,
    pub reason: RaderUploadReason,
}

impl View for RaderUploadSchedule {
    type V = RaderUploadModel;

    open spec fn view(&self) -> RaderUploadModel {
        RaderUploadModel {
            sequence_len: self.sequence_len,
            used_shared_memory_bytes: self.used_shared_memory_bytes,
            max_sequence_len_shared: self.max_sequence_len_shared,
            max_sequence_len_strided: self.max_sequence_len_strided,
            upload_count: self.upload_count,
            axis_split: self.axis_split@,
            reason: self.reason,
        }
    }
}

impl RaderUploadModel {
    /// What checking the schedule reports.
    pub open spec fn checked(self) -> PlanResult<()> {
        if self.sequence_len == 0 || self.used_shared_memory_bytes == 0
            || self.max_sequence_len_shared == 0 || self.max_sequence_len_strided == 0 || !(
        self.upload_count == 2 || self.upload_count == 3) || self.axis_split.len()
            != self.upload_count || has_zero(self.axis_split) {
            Err(VkFftError::InvalidKernelIr("Rader upload schedule metadata is inconsistent"))
        } else {
            match split_product(self.axis_split, 0, 1, "Rader upload axis split product") {
                Err(error) => Err(error),
                Ok(product) => if product != self.sequence_len {
                    Err(
                        VkFftError::InvalidKernelIr(
                            "Rader upload split does not cover the sequence",
                        ),
                    )
                } else {
                    Ok(())
                },
            }
        }
    }
}

impl RaderUploadSchedule {
    pub fn validate(&self) -> (checked: PlanResult<()>)
        ensures
            checked == self@.checked(),
    {
        if self.sequence_len == 0 || self.used_shared_memory_bytes == 0
            || self.max_sequence_len_shared == 0 || self.max_sequence_len_strided == 0 || !(
        self.upload_count == 2 || self.upload_count == 3) || self.axis_split.len()
            != self.upload_count || contains_zero(&self.axis_split) {
            return Err(
                VkFftError::InvalidKernelIr("Rader upload schedule metadata is inconsistent"),
            );
        }
        let product: usize = multiply_split(&self.axis_split, "Rader upload axis split product")?;
        if product != self.sequence_len {
            return Err(
                VkFftError::InvalidKernelIr("Rader upload split does not cover the sequence"),
            );
        }
        Ok(())
    }
}

/// The largest listed prime, where every one divides the length; 1 for none.
pub open spec fn largest_direct_prime(
    sequence_len: usize,
    primes: Seq<usize>,
    from: int,
    largest: usize,
) -> PlanResult<usize>
    decreases primes.len() - from,
{
    if from >= primes.len() {
        Ok(largest)
    } else if primes[from] < 2 || sequence_len % primes[from] != 0 {
        Err(VkFftError::InvalidKernelIr("direct-Rader prime does not divide the scheduled axis"))
    } else {
        largest_direct_prime(sequence_len, primes, from + 1, umax(largest, primes[from]))
    }
}

/// The largest direct-Rader prime of an axis; 1 for none.
pub open spec fn direct_prime_reserve(
    sequence_len: usize,
    primes: Seq<usize>,
) -> PlanResult<usize> {
    largest_direct_prime(sequence_len, primes, 0, 1)
}

fn find_largest_direct_prime(sequence_len: usize, primes: &[usize]) -> (largest: PlanResult<usize>)
    ensures
        largest == direct_prime_reserve(sequence_len, primes@),
        largest matches Ok(prime) ==> prime >= 1,
{
    let mut largest: usize = 1;
    let mut index: usize = 0;
    while index < primes.len()
        invariant
            index <= primes.len(),
            largest >= 1,
            direct_prime_reserve(sequence_len, primes@) == largest_direct_prime(
                sequence_len,
                primes@,
                index as int,
                largest,
            ),
        decreases primes.len() - index,
    {
        let prime: usize = primes[index];
        if prime < 2 || sequence_len % prime != 0 {
            return Err(
                VkFftError::InvalidKernelIr(
                    "direct-Rader prime does not divide the scheduled axis",
                ),
            );
        }
        largest = umax(largest, prime);
        index = index + 1;
    }
    Ok(largest)
}

/// The limits of a Rader axis, which never boosts registers.
#[verifier::allow_in_spec]
pub fn rader_limits(
    shared_bytes: usize,
    complex_bytes: usize,
    shared: usize,
    strided: usize,
    policy: GpuSchedulerPolicy,
) -> UploadLimits
    returns
        (UploadLimits {
            shared_bytes,
            complex_bytes,
            coalesced_bytes: policy.coalesced_memory_bytes,
            shared,
            strided,
            boost_limit: 1,
            four_step_boost_limit: 1,
            keep_boost: false,
            reorder_four_step: policy.reorder_four_step,
            perform_convolution: false,
            swap_to_two: policy.swap_to_two_stage_four_step,
            swap_to_three: policy.swap_to_three_stage_four_step,
        }),
{
    UploadLimits {
        shared_bytes,
        complex_bytes,
        coalesced_bytes: policy.coalesced_memory_bytes,
        shared,
        strided,
        boost_limit: 1,
        four_step_boost_limit: 1,
        keep_boost: false,
        reorder_four_step: policy.reorder_four_step,
        perform_convolution: false,
        swap_to_two: policy.swap_to_two_stage_four_step,
        swap_to_three: policy.swap_to_three_stage_four_step,
    }
}

/// Uploads that shared memory alone asks for.
pub open spec fn rader_base_count(
    sequence_len: usize,
    limits: UploadLimits,
    axis_context: StockhamUploadAxisContext,
) -> PlanResult<usize> {
    match ceil_div(
        sequence_len,
        if axis_context.strided_axis { limits.strided } else { limits.shared },
    ) {
        Err(error) => Err(error),
        Ok(groups) => if groups > 1 {
            exponent_covering_spec(sequence_len, limits.strided)
        } else {
            Ok(1)
        },
    }
}

fn rader_base_upload_count(
    sequence_len: usize,
    limits: UploadLimits,
    axis_context: StockhamUploadAxisContext,
) -> (planned: PlanResult<usize>)
    ensures
        planned == rader_base_count(sequence_len, limits, axis_context),
{
    let groups: usize = ceil_div(
        sequence_len,
        if axis_context.strided_axis { limits.strided } else { limits.shared },
    )?;
    if groups > 1 {
        return exponent_covering(sequence_len, limits.strided);
    }
    Ok(1)
}

/// Two factors where two uploads were asked for and a divisor pair exists, else three.
pub open spec fn rader_axis_split(
    sequence_len: usize,
    upload_count: usize,
    strided: usize,
    half_bandwidth: usize,
) -> PlanResult<Option<Seq<usize>>> {
    match (if upload_count == 2 {
        sqrt_split(sequence_len, strided, half_bandwidth)
    } else {
        Ok(None)
    }) {
        Err(error) => Err(error),
        Ok(Some(factors)) => Ok(Some(pair_split(factors))),
        Ok(None) => match divisor_three_upload_split(sequence_len, strided, half_bandwidth) {
            Ok(split) => Ok(Some(split)),
            Err(VkFftError::UnsupportedKernelPath(_)) => Ok(None),
            Err(error) => Err(error),
        },
    }
}

fn split_rader_axis(
    sequence_len: usize,
    upload_count: usize,
    strided: usize,
    half_bandwidth: usize,
) -> (split: PlanResult<Option<Vec<usize>>>)
    ensures
        viewed_option(split) == rader_axis_split(
            sequence_len,
            upload_count,
            strided,
            half_bandwidth,
        ),
{
    if upload_count == 2 {
        let found: Option<(usize, usize)> = generic_sqrt_divisor_split_with_limits(
            sequence_len,
            strided,
            half_bandwidth,
        )?;
        if let Some(factors) = found {
            let split: Vec<usize> = vec![factors.0, factors.1];
            assert(split@ =~= pair_split(factors));
            return Ok(Some(split));
        }
    }
    match generic_three_upload_divisor_split_with_limits(sequence_len, strided, half_bandwidth) {
        Ok(split) => Ok(Some(split)),
        Err(VkFftError::UnsupportedKernelPath(_)) => Ok(None),
        Err(error) => Err(error),
    }
}

/// How a Rader axis is uploaded; nothing where one upload is enough or no split exists.
/// The ordinary count comes first, and Rader pressure only raises a count of one.
#[verifier::opaque]
pub open spec fn rader_uploads(
    sequence_len: usize,
    fft_rader_primes: Seq<usize>,
    direct_rader_primes: Seq<usize>,
    precision: Precision,
    device: DeviceProfile,
    axis_context: StockhamUploadAxisContext,
) -> PlanResult<Option<RaderUploadModel>> {
    match force_two_upload(sequence_len, fft_rader_primes, device) {
        Err(error) => Err(error),
        Ok(forced) => match scheduler_policy(precision, device) {
            Err(error) => Err(error),
            Ok(policy) => {
                let complex_bytes = precision.compute_complex_bytes();
                match direct_prime_reserve(sequence_len, direct_rader_primes) {
                    Err(error) => Err(error),
                    Ok(largest) => {
                        let reserve_elements = (largest - 1) as usize;
                        match checked_mul(
                            reserve_elements,
                            complex_bytes,
                            "Rader forced upload shared reservation",
                        ) {
                            Err(error) => Err(error),
                            Ok(reserve_bytes) => if device.shared_memory_bytes < reserve_bytes {
                                Ok(None)
                            } else {
                                let shared_bytes = (
                                    device.shared_memory_bytes - reserve_bytes
                                ) as usize;
                                if shared_bytes < complex_bytes {
                                    Ok(None)
                                } else {
                                    let shared = shared_bytes / complex_bytes;
                                    let strided = strided_capacity(
                                        shared_bytes,
                                        complex_bytes,
                                        policy.coalesced_memory_bytes,
                                        shared,
                                    );
                                    if strided == 0 {
                                        Ok(None)
                                    } else {
                                        let limits = rader_limits(
                                            shared_bytes,
                                            complex_bytes,
                                            shared,
                                            strided,
                                            policy,
                                        );
                                        match rader_base_count(sequence_len, limits, axis_context) {
                                            Err(error) => Err(error),
                                            Ok(base) => match bandwidth_uploads(
                                                sequence_len,
                                                base,
                                                shared,
                                                strided,
                                                limits,
                                                axis_context,
                                            ) {
                                                Err(error) => Err(error),
                                                Ok((probed, half_bandwidth)) => {
                                                    let ordinary = swapped_count(
                                                        sequence_len,
                                                        probed,
                                                        limits,
                                                    );
                                                    let wanted = if ordinary == 1 && forced {
                                                        2
                                                    } else {
                                                        ordinary
                                                    };
                                                    if wanted == 1 || wanted > 3 {
                                                        Ok(None)
                                                    } else {
                                                        match rader_axis_split(
                                                            sequence_len,
                                                            wanted,
                                                            strided,
                                                            half_bandwidth,
                                                        ) {
                                                            Err(error) => Err(error),
                                                            Ok(None) => Ok(None),
                                                            Ok(Some(found_split)) => {
                                                                let axis_split = reordered_split(
                                                                    found_split,
                                                                    policy.reorder_four_step
                                                                        && !axis_context.use_bluestein_fft,
                                                                );
                                                                let upload_count = factor_count_spec(
                                                                    axis_split,
                                                                );
                                                                let reason = if ordinary == 1
                                                                    && forced {
                                                                    RaderUploadReason::ForcedRaderPressure
                                                                } else {
                                                                    RaderUploadReason::CapacityOrBandwidth
                                                                };
                                                                let schedule = RaderUploadModel {
                                                                    sequence_len,
                                                                    used_shared_memory_bytes: shared_bytes,
                                                                    max_sequence_len_shared: shared,
                                                                    max_sequence_len_strided: strided,
                                                                    upload_count,
                                                                    axis_split,
                                                                    reason,
                                                                };
                                                                match schedule.checked() {
                                                                    Err(error) => Err(error),
                                                                    Ok(_checked) => Ok(
                                                                        Some(schedule),
                                                                    ),
                                                                }
                                                            },
                                                        }
                                                    }
                                                },
                                            },
                                        }
                                    }
                                }
                            },
                        }
                    },
                }
            },
        },
    }
}

pub fn plan_gpu_rader_upload_split_with_axis_context(
    sequence_len: usize,
    fft_rader_primes: &[usize],
    direct_rader_primes: &[usize],
    precision: Precision,
    device: DeviceProfile,
    axis_context: StockhamUploadAxisContext,
) -> (planned: PlanResult<Option<RaderUploadSchedule>>)
    ensures
        viewed_option(planned) == rader_uploads(
            sequence_len,
            fft_rader_primes@,
            direct_rader_primes@,
            precision,
            device,
            axis_context,
        ),
{
    reveal(rader_uploads);
    let forced: bool = plan_gpu_force_rader_two_upload(sequence_len, fft_rader_primes, device)?;
    let policy: GpuSchedulerPolicy = plan_gpu_scheduler_policy(precision, device)?;
    let complex_bytes: usize = precision.compute_complex_bytes();
    let largest: usize = find_largest_direct_prime(sequence_len, direct_rader_primes)?;
    let reserve_elements: usize = largest - 1;
    let reserve_bytes: usize = checked_mul(
        reserve_elements,
        complex_bytes,
        "Rader forced upload shared reservation",
    )?;
    if device.shared_memory_bytes < reserve_bytes {
        return Ok(None);
    }
    let shared_bytes: usize = device.shared_memory_bytes - reserve_bytes;
    if shared_bytes < complex_bytes {
        return Ok(None);
    }
    let shared: usize = shared_bytes / complex_bytes;
    let strided: usize = strided_capacity(
        shared_bytes,
        complex_bytes,
        policy.coalesced_memory_bytes,
        shared,
    );
    if strided == 0 {
        return Ok(None);
    }
    let limits: UploadLimits = rader_limits(shared_bytes, complex_bytes, shared, strided, policy);
    let base: usize = rader_base_upload_count(sequence_len, limits, axis_context)?;
    let (probed, half_bandwidth) = apply_strided_bandwidth_boost(
        sequence_len,
        base,
        shared,
        strided,
        limits,
        axis_context,
    )?;
    let ordinary: usize = swapped_count(sequence_len, probed, limits);
    let wanted: usize = if ordinary == 1 && forced { 2 } else { ordinary };
    if wanted == 1 || wanted > 3 {
        return Ok(None);
    }
    let found_split: Vec<usize> = match split_rader_axis(
        sequence_len,
        wanted,
        strided,
        half_bandwidth,
    ) {
        Ok(Some(value)) => value,
        Ok(None) => {
            return Ok(None);
        },
        Err(error) => {
            return Err(error);
        },
    };
    let axis_split: Vec<usize> = reordered(
        found_split,
        policy.reorder_four_step && !axis_context.use_bluestein_fft,
    );
    let upload_count: usize = factor_count(&axis_split);
    let reason: RaderUploadReason = if ordinary == 1 && forced {
        RaderUploadReason::ForcedRaderPressure
    } else {
        RaderUploadReason::CapacityOrBandwidth
    };
    let schedule: RaderUploadSchedule = RaderUploadSchedule {
        sequence_len,
        used_shared_memory_bytes: shared_bytes,
        max_sequence_len_shared: shared,
        max_sequence_len_strided: strided,
        upload_count,
        axis_split,
        reason,
    };
    let _checked: () = schedule.validate()?;
    Ok(Some(schedule))
}

/// Number of factors of a split.
pub open spec fn factor_count_spec(split: Seq<usize>) -> usize {
    split.len() as usize
}

fn factor_count(split: &Vec<usize>) -> (count: usize)
    ensures
        count == factor_count_spec(split@),
{
    split.len()
}

/// The same for a contiguous axis of a plain transform.
pub open spec fn rader_uploads_plain(
    sequence_len: usize,
    fft_rader_primes: Seq<usize>,
    direct_rader_primes: Seq<usize>,
    precision: Precision,
    device: DeviceProfile,
) -> PlanResult<Option<RaderUploadModel>> {
    rader_uploads(
        sequence_len,
        fft_rader_primes,
        direct_rader_primes,
        precision,
        device,
        plain_context(),
    )
}

pub fn plan_gpu_rader_upload_split(
    sequence_len: usize,
    fft_rader_primes: &[usize],
    direct_rader_primes: &[usize],
    precision: Precision,
    device: DeviceProfile,
) -> (planned: PlanResult<Option<RaderUploadSchedule>>)
    ensures
        viewed_option(planned) == rader_uploads_plain(
            sequence_len,
            fft_rader_primes@,
            direct_rader_primes@,
            precision,
            device,
        ),
{
    plan_gpu_rader_upload_split_with_axis_context(
        sequence_len,
        fft_rader_primes,
        direct_rader_primes,
        precision,
        device,
        plain_context(),
    )
}

/// The same under the name its forced form has.
pub fn plan_gpu_rader_forced_upload_split(
    sequence_len: usize,
    fft_rader_primes: &[usize],
    direct_rader_primes: &[usize],
    precision: Precision,
    device: DeviceProfile,
) -> (planned: PlanResult<Option<RaderUploadSchedule>>)
    ensures
        viewed_option(planned) == rader_uploads_plain(
            sequence_len,
            fft_rader_primes@,
            direct_rader_primes@,
            precision,
            device,
        ),
{
    plan_gpu_rader_upload_split(
        sequence_len,
        fft_rader_primes,
        direct_rader_primes,
        precision,
        device,
    )
}

} // verus!
