//! When a Rader axis may not stay in one upload, and what its uploads have to work with.

use vstd::prelude::*;

use crate::arith::umax;
use crate::config::{Backend, DeviceProfile, Precision};
use crate::error::VkFftError;
use crate::policy::{policy_bounds, scheduler_policy};
use crate::rader_uploads::{
    direct_prime_reserve, force_from, force_two_upload, largest_direct_prime, rader_uploads,
    RaderUploadModel, RaderUploadReason,
};
use crate::upload_count::StockhamUploadAxisContext;

verus! {

/// Whether the prime at an index is replicated over more containers than one upload takes:
/// more than 512, or more than a workgroup has threads.
pub open spec fn prime_presses(
    sequence_len: usize,
    primes: Seq<usize>,
    device: DeviceProfile,
    index: int,
) -> bool {
    let containers = sequence_len as int / primes[index] as int;
    containers > 512 || containers > device.max_threads_per_block
}

/// Whether the prime at an index is one and divides the length.
pub open spec fn prime_divides(sequence_len: usize, primes: Seq<usize>, index: int) -> bool {
    primes[index] >= 2 && sequence_len as int % primes[index] as int == 0
}

proof fn forced_from_is_pressure(
    sequence_len: usize,
    primes: Seq<usize>,
    device: DeviceProfile,
    from: int,
)
    requires
        0 <= from <= primes.len(),
    ensures
        match force_from(sequence_len, primes, device.max_threads_per_block, from) {
            Ok(true) => exists|i: int|
                from <= i < primes.len()
                    && #[trigger] prime_presses(sequence_len, primes, device, i),
            Ok(false) => {
                &&& forall|i: int|
                    from <= i < primes.len() ==> #[trigger] prime_divides(sequence_len, primes, i)
                &&& forall|i: int|
                    from <= i < primes.len() ==> !#[trigger] prime_presses(
                        sequence_len,
                        primes,
                        device,
                        i,
                    )
            },
            Err(_) => exists|i: int|
                from <= i < primes.len() && !#[trigger] prime_divides(sequence_len, primes, i),
        },
    decreases primes.len() - from,
{
    if from < primes.len() {
        if prime_divides(sequence_len, primes, from) {
            if !prime_presses(sequence_len, primes, device, from) {
                forced_from_is_pressure(sequence_len, primes, device, from + 1);
            }
        }
    }
}

/// On a GPU, where every listed prime divides the length, an axis is forced over several
/// uploads exactly where some prime has more than 512 containers or more than a workgroup
/// has threads.
pub proof fn axis_is_forced_by_any_pressing_prime(
    sequence_len: usize,
    primes: Seq<usize>,
    device: DeviceProfile,
)
    requires
        sequence_len > 0,
        device.max_threads_per_block > 0,
        device.backend != Backend::CpuReference,
        forall|i: int| 0 <= i < primes.len() ==> #[trigger] prime_divides(sequence_len, primes, i),
    ensures
        force_two_upload(sequence_len, primes, device) == Ok::<bool, VkFftError>(
            exists|i: int|
                0 <= i < primes.len() && #[trigger] prime_presses(sequence_len, primes, device, i),
        ),
{
    forced_from_is_pressure(sequence_len, primes, device, 0);
}

/// A list is refused only for a prime that does not divide the length, and where it is
/// accepted without force none presses.
pub proof fn unforced_axes_have_no_pressing_prime(
    sequence_len: usize,
    primes: Seq<usize>,
    device: DeviceProfile,
)
    requires
        sequence_len > 0,
        device.max_threads_per_block > 0,
        device.backend != Backend::CpuReference,
    ensures
        force_two_upload(sequence_len, primes, device) is Err ==> exists|i: int|
            0 <= i < primes.len() && !#[trigger] prime_divides(sequence_len, primes, i),
        force_two_upload(sequence_len, primes, device) == Ok::<bool, VkFftError>(false)
            ==> {
            &&& forall|i: int|
                0 <= i < primes.len() ==> #[trigger] prime_divides(sequence_len, primes, i)
            &&& forall|i: int|
                0 <= i < primes.len() ==> !#[trigger] prime_presses(sequence_len, primes, device, i)
        },
{
    forced_from_is_pressure(sequence_len, primes, device, 0);
}

proof fn reserve_is_largest(sequence_len: usize, primes: Seq<usize>, from: int, largest: usize)
    requires
        0 <= from <= primes.len(),
    ensures
        largest_direct_prime(sequence_len, primes, from, largest) matches Ok(found) ==> {
            &&& found >= largest
            &&& forall|i: int| from <= i < primes.len() ==> 2 <= #[trigger] primes[i] <= found
            &&& found == largest || exists|i: int|
                from <= i < primes.len() && #[trigger] primes[i] == found
        },
    decreases primes.len() - from,
{
    if from < primes.len() && primes[from] >= 2 && sequence_len % primes[from] == 0 {
        reserve_is_largest(sequence_len, primes, from + 1, umax(largest, primes[from]));
        if let Ok(found) = largest_direct_prime(sequence_len, primes, from, largest) {
            assert(found == primes[from] || found == largest || exists|i: int|
                from + 1 <= i < primes.len() && #[trigger] primes[i] == found);
        }
    }
}

/// The uploads of a Rader axis leave room for the table of every direct prime, of one entry
/// less than the prime, and use all the shared memory besides. The capacities are what that
/// memory holds, per value and per transaction.
pub proof fn rader_uploads_leave_room_for_direct_primes(
    sequence_len: usize,
    fft_primes: Seq<usize>,
    direct_primes: Seq<usize>,
    precision: Precision,
    device: DeviceProfile,
    context: StockhamUploadAxisContext,
    upload: RaderUploadModel,
)
    requires
        rader_uploads(sequence_len, fft_primes, direct_primes, precision, device, context) == Ok::<
            Option<RaderUploadModel>,
            VkFftError,
        >(Some(upload)),
    ensures
        ({
            let complex = precision.compute_complex_bytes();
            let coalesced = scheduler_policy(precision, device)->Ok_0.coalesced_memory_bytes;
            let transaction = umax(coalesced, complex);
            &&& forall|i: int|
                0 <= i < direct_primes.len() ==> upload.used_shared_memory_bytes + (
                #[trigger] direct_primes[i] - 1) * complex <= device.shared_memory_bytes
            &&& direct_primes.len() == 0 ==> upload.used_shared_memory_bytes
                == device.shared_memory_bytes
            &&& direct_primes.len() > 0 ==> exists|i: int|
                0 <= i < direct_primes.len() && upload.used_shared_memory_bytes + (
                #[trigger] direct_primes[i] - 1) * complex == device.shared_memory_bytes
            &&& upload.max_sequence_len_shared * complex <= upload.used_shared_memory_bytes < (
            upload.max_sequence_len_shared + 1) * complex
            &&& upload.max_sequence_len_strided * transaction <= upload.used_shared_memory_bytes < (
            upload.max_sequence_len_strided + 1) * transaction
        }),
{
    reveal(rader_uploads);
    reserve_is_largest(sequence_len, direct_primes, 0, 1);
    let complex = precision.compute_complex_bytes() as int;
    let largest = direct_prime_reserve(sequence_len, direct_primes)->Ok_0;
    assert forall|i: int| 0 <= i < direct_primes.len() implies upload.used_shared_memory_bytes + (
    #[trigger] direct_primes[i] - 1) * complex <= device.shared_memory_bytes by {
        assert((direct_primes[i] - 1) * complex <= (largest - 1) * complex) by (nonlinear_arith)
            requires
                direct_primes[i] <= largest,
                complex >= 0,
        ;
    }
    if direct_primes.len() > 0 {
        assert(2 <= direct_primes[0] <= largest);
        let i = choose|i: int| 0 <= i < direct_primes.len() && #[trigger] direct_primes[i]
            == largest;
        assert(upload.used_shared_memory_bytes + (direct_primes[i] - 1) * complex
            == device.shared_memory_bytes);
    } else {
        assert((largest - 1) * complex == 0) by (nonlinear_arith)
            requires
                largest == 1,
        ;
    }
    let used = upload.used_shared_memory_bytes as int;
    let transaction = umax(
        scheduler_policy(precision, device)->Ok_0.coalesced_memory_bytes,
        complex as usize,
    ) as int;
    whole_quotient(used, complex);
    whole_quotient(used, transaction);
}

/// A quotient is the most that fits.
pub(crate) proof fn whole_quotient(value: int, unit: int)
    requires
        unit > 0,
        value >= 0,
    ensures
        (value / unit) * unit <= value < (value / unit + 1) * unit,
{
    vstd::arithmetic::div_mod::lemma_fundamental_div_mod(value, unit);
    let q = value / unit;
    assert(unit * q == q * unit && (q + 1) * unit == q * unit + unit) by (nonlinear_arith);
}


/// Why a contiguous Rader axis is uploaded several times: pressure is the reason exactly
/// where shared memory holds the axis and it is short of the policy's threshold. Three
/// uploads are planned from that threshold on.
pub proof fn contiguous_rader_uploads_say_why(
    sequence_len: usize,
    fft_primes: Seq<usize>,
    direct_primes: Seq<usize>,
    precision: Precision,
    device: DeviceProfile,
    context: StockhamUploadAxisContext,
    upload: RaderUploadModel,
)
    requires
        !context.strided_axis,
        sequence_len >= 1,
        rader_uploads(sequence_len, fft_primes, direct_primes, precision, device, context) == Ok::<
            Option<RaderUploadModel>,
            VkFftError,
        >(Some(upload)),
    ensures
        ({
            let policy = scheduler_policy(precision, device)->Ok_0;
            &&& upload.reason == RaderUploadReason::ForcedRaderPressure <==> {
                &&& sequence_len <= upload.max_sequence_len_shared
                &&& sequence_len < policy.swap_to_three_stage_four_step
            }
            &&& upload.reason == RaderUploadReason::ForcedRaderPressure ==> force_two_upload(
                sequence_len,
                fft_primes,
                device,
            ) == Ok::<bool, VkFftError>(true)
            &&& sequence_len >= policy.swap_to_three_stage_four_step ==> upload.upload_count == 3
        }),
{
    reveal(rader_uploads);
    policy_bounds(precision, device);
    let policy = scheduler_policy(precision, device)->Ok_0;
    let complex = precision.compute_complex_bytes();
    let used = upload.used_shared_memory_bytes;
    let shared = upload.max_sequence_len_shared;
    let strided = upload.max_sequence_len_strided;
    assert(strided <= shared) by {
        vstd::arithmetic::div_mod::lemma_div_is_ordered_by_denominator(
            used as int,
            complex as int,
            umax(policy.coalesced_memory_bytes, complex) as int,
        );
    }
    crate::arith::ceil_div_is_least_cover(sequence_len, shared);
    assert(1 * shared == shared) by (nonlinear_arith);
    if sequence_len > shared && strided >= 2 {
        crate::arith::exponent_covering_is_least(sequence_len, strided);
        vstd::arithmetic::power::lemma_pow1(strided as int);
    }
    if sequence_len >= policy.swap_to_three_stage_four_step {
        crate::split_laws::cuberoot_split_is_exact(
            sequence_len,
            strided,
            strided,
            false,
            "GPU smooth scheduler could not find a three-upload divisor split",
        );
        let found = crate::splits::divisor_three_upload_split(sequence_len, strided, strided);
        crate::choice_laws::ordered_splits_lead_with_a_power_of_two(found->Ok_0);
    }
}

/// A contiguous axis that shared memory holds beside its largest direct prime, short of the
/// policy's threshold and without a pressing prime, is left to one upload.
pub proof fn unpressed_rader_axes_take_one_upload(
    sequence_len: usize,
    fft_primes: Seq<usize>,
    direct_primes: Seq<usize>,
    precision: Precision,
    device: DeviceProfile,
    context: StockhamUploadAxisContext,
)
    requires
        !context.strided_axis,
        sequence_len >= 1,
        force_two_upload(sequence_len, fft_primes, device) == Ok::<bool, VkFftError>(false),
        scheduler_policy(precision, device) matches Ok(policy) && sequence_len
            < policy.swap_to_three_stage_four_step,
        direct_prime_reserve(sequence_len, direct_primes) matches Ok(largest) && (sequence_len
            + largest - 1) * precision.compute_complex_bytes() <= device.shared_memory_bytes,
        2 * device.shared_memory_bytes <= usize::MAX,
    ensures
        rader_uploads(sequence_len, fft_primes, direct_primes, precision, device, context) == Ok::<
            Option<RaderUploadModel>,
            VkFftError,
        >(None),
{
    reveal(rader_uploads);
    policy_bounds(precision, device);
    let policy = scheduler_policy(precision, device)->Ok_0;
    let complex = precision.compute_complex_bytes() as int;
    let largest = direct_prime_reserve(sequence_len, direct_primes)->Ok_0 as int;
    let len = sequence_len as int;
    reserve_is_largest(sequence_len, direct_primes, 0, 1);
    assert((len + largest - 1) * complex == len * complex + (largest - 1) * complex)
        by (nonlinear_arith);
    assert(len * complex >= len && len * complex >= complex && (largest - 1) * complex >= 0)
        by (nonlinear_arith)
        requires
            len >= 1,
            complex >= 1,
            largest >= 1,
    ;
    let used = device.shared_memory_bytes - (largest - 1) * complex;
    whole_quotient(used, complex);
    let shared = used / complex;
    if shared < len {
        assert((shared + 1) * complex <= len * complex) by (nonlinear_arith)
            requires
                shared + 1 <= len,
                complex >= 1,
        ;
    }
    assert(shared <= used) by (nonlinear_arith)
        requires
            shared * complex <= used,
            complex >= 1,
            shared >= 0,
    ;
    crate::arith::ceil_div_is_least_cover(sequence_len, shared as usize);
    assert(1 * shared == shared) by (nonlinear_arith);
    assert(1 * (shared as usize) >= sequence_len);
}

} // verus!
