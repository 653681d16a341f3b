//! Workgroup shapes: which transforms and lanes share one workgroup, and the rules that
//! fit a batch of transforms into a device's limits.

use vstd::prelude::*;

use crate::arith::{
    ceil_div, checked_mul, near_single_subgroup, next_power_of_two, saturating_product, umax, umin,
};
use crate::config::{DeviceProfile, GpuVendor, Precision};
use crate::error::{PlanResult, VkFftError};

verus! {

/// Lanes a workgroup aims for.
pub const AIM_THREADS: usize = 128;

/// Workgroup shape of one upload: `grouped_batch` transforms of `threads_per_transform`
/// lanes each. `transforms_on_x` says which local dimension counts the transforms.
#[derive(Debug, Clone, Copy, PartialEq, Eq, Structural)]
pub struct StockhamAxisBlockSchedule {
    pub threads_per_transform: usize,
    pub grouped_batch: usize,
    pub transforms_on_x: bool,
    pub axis_swapped: bool,
    pub local_size_x: usize,
    pub local_size_y: usize,
}

impl StockhamAxisBlockSchedule {
    /// Whether every dimension is positive and no more transforms are grouped than exist.
    pub open spec fn dimensions_consistent(self, batch_count: usize) -> bool {
        &&& self.threads_per_transform != 0
        &&& 0 < self.grouped_batch <= batch_count
        &&& self.local_size_x != 0
        &&& self.local_size_y != 0
    }

    /// Whether the local sizes are the transforms and lanes in the stated order, and
    /// within the device's limits.
    pub open spec fn fits(self, device: DeviceProfile) -> bool {
        &&& self.transforms_on_x ==> self.local_size_x == self.grouped_batch && self.local_size_y
            == self.threads_per_transform
        &&& !self.transforms_on_x ==> self.local_size_x == self.threads_per_transform
            && self.local_size_y == self.grouped_batch
        &&& self.local_size_x <= device.max_workgroup_size[0]
        &&& self.local_size_y <= device.max_workgroup_size[1]
        &&& self.local_size_x * self.local_size_y <= device.max_threads_per_block
    }

    /// What checking the shape reports.
    pub open spec fn checked(self, batch_count: usize, device: DeviceProfile) -> PlanResult<()> {
        if !self.dimensions_consistent(batch_count) {
            Err(
                VkFftError::InvalidKernelIr(
                    "Stockham axis-block schedule has inconsistent dimensions",
                ),
            )
        } else if self.local_size_x * self.local_size_y > usize::MAX {
            Err(
                VkFftError::ArithmeticOverflow {
                    operation: "Stockham axis-block workgroup product",
                },
            )
        } else if !self.fits(device) {
            Err(
                VkFftError::InvalidKernelIr(
                    "Stockham axis-block schedule exceeds device workgroup limits",
                ),
            )
        } else {
            Ok(())
        }
    }

    pub fn validate(self, batch_count: usize, device: DeviceProfile) -> (checked: PlanResult<()>)
        ensures
            checked == self.checked(batch_count, device),
    {
        if self.threads_per_transform == 0 || self.grouped_batch == 0 || self.grouped_batch
            > batch_count || self.local_size_x == 0 || self.local_size_y == 0 {
            return Err(
                VkFftError::InvalidKernelIr(
                    "Stockham axis-block schedule has inconsistent dimensions",
                ),
            );
        }
        let total: usize = checked_mul(
            self.local_size_x,
            self.local_size_y,
            "Stockham axis-block workgroup product",
        )?;
        let ordered: bool = if self.transforms_on_x {
            self.local_size_x == self.grouped_batch && self.local_size_y
                == self.threads_per_transform
        } else {
            self.local_size_x == self.threads_per_transform && self.local_size_y
                == self.grouped_batch
        };
        if !ordered || self.local_size_x > device.max_workgroup_size[0] || self.local_size_y
            > device.max_workgroup_size[1] || total > device.max_threads_per_block {
            return Err(
                VkFftError::InvalidKernelIr(
                    "Stockham axis-block schedule exceeds device workgroup limits",
                ),
            );
        }
        Ok(())
    }
}

/// The shape itself where it checks.
#[verifier::opaque]
pub open spec fn block_if_checked(
    block: StockhamAxisBlockSchedule,
    batch_count: usize,
    device: DeviceProfile,
) -> Option<StockhamAxisBlockSchedule> {
    if block.checked(batch_count, device) is Ok {
        Some(block)
    } else {
        None
    }
}

pub fn keep_if_checked(
    block: StockhamAxisBlockSchedule,
    batch_count: usize,
    device: DeviceProfile,
) -> (kept: Option<StockhamAxisBlockSchedule>)
    ensures
        kept == block_if_checked(block, batch_count, device),
        kept matches Some(shape) ==> shape == block && block.dimensions_consistent(batch_count)
            && block.fits(device),
{
    reveal(block_if_checked);
    match block.validate(batch_count, device) {
        Ok(_) => Some(block),
        Err(_) => None,
    }
}

/// `grouped` transforms on X and their lanes on Y.
#[verifier::opaque]
pub open spec fn transforms_x_block(
    grouped: usize,
    threads: usize,
    batch_count: usize,
    device: DeviceProfile,
) -> Option<StockhamAxisBlockSchedule> {
    block_if_checked(StockhamAxisBlockSchedule {
        threads_per_transform: threads,
        grouped_batch: grouped,
        transforms_on_x: true,
        axis_swapped: false,
        local_size_x: grouped,
        local_size_y: threads,
    }, batch_count, device)
}

pub fn block_transforms_on_x(
    grouped: usize,
    threads: usize,
    batch_count: usize,
    device: DeviceProfile,
) -> (planned: Option<StockhamAxisBlockSchedule>)
    ensures
        planned == transforms_x_block(grouped, threads, batch_count, device),
        planned matches Some(block) ==>
            block.dimensions_consistent(batch_count)
                && block.fits(device)
                && block.transforms_on_x
                && !block.axis_swapped,
{
    reveal(transforms_x_block);
    keep_if_checked(StockhamAxisBlockSchedule {
        threads_per_transform: threads,
        grouped_batch: grouped,
        transforms_on_x: true,
        axis_swapped: false,
        local_size_x: grouped,
        local_size_y: threads,
    }, batch_count, device)
}

/// Lanes on X and `grouped` transforms on Y, exchanged where `swapped` holds.
#[verifier::opaque]
pub open spec fn swappable_block(
    grouped: usize,
    threads: usize,
    swapped: bool,
    batch_count: usize,
    device: DeviceProfile,
) -> Option<StockhamAxisBlockSchedule> {
    block_if_checked(StockhamAxisBlockSchedule {
        threads_per_transform: threads,
        grouped_batch: grouped,
        transforms_on_x: swapped,
        axis_swapped: swapped,
        local_size_x: if swapped { grouped } else { threads },
        local_size_y: if swapped { threads } else { grouped },
    }, batch_count, device)
}

pub fn block_swappable(
    grouped: usize,
    threads: usize,
    swapped: bool,
    batch_count: usize,
    device: DeviceProfile,
) -> (planned: Option<StockhamAxisBlockSchedule>)
    ensures
        planned == swappable_block(grouped, threads, swapped, batch_count, device),
        planned matches Some(block) ==>
            block.dimensions_consistent(batch_count)
                && block.fits(device)
                && block.axis_swapped == swapped
                && block.transforms_on_x == swapped,
{
    reveal(swappable_block);
    keep_if_checked(StockhamAxisBlockSchedule {
        threads_per_transform: threads,
        grouped_batch: grouped,
        transforms_on_x: swapped,
        axis_swapped: swapped,
        local_size_x: if swapped { grouped } else { threads },
        local_size_y: if swapped { threads } else { grouped },
    }, batch_count, device)
}

/// A shape of a strided axis: it fits the batch and the device, its transforms lie on X
/// and its lanes on Y.
pub open spec fn strided_shape(
    planned: PlanResult<Option<StockhamAxisBlockSchedule>>,
    batch_count: usize,
    device: DeviceProfile,
) -> bool {
    planned matches Ok(Some(block)) ==> {
        &&& block.dimensions_consistent(batch_count)
        &&& block.fits(device)
        &&& block.transforms_on_x
        &&& !block.axis_swapped
    }
}

/// A shape of a contiguous axis: it fits the batch and the device, its transforms lie on X
/// exactly where its dimensions are exchanged, and they are not exchanged where the data is
/// zero padded.
pub open spec fn contiguous_shape(
    planned: PlanResult<Option<StockhamAxisBlockSchedule>>,
    batch_count: usize,
    device: DeviceProfile,
    perform_zero_padding: bool,
) -> bool {
    planned matches Ok(Some(block)) ==> {
        &&& block.dimensions_consistent(batch_count)
        &&& block.fits(device)
        &&& block.axis_swapped == block.transforms_on_x
        &&& perform_zero_padding ==> !block.axis_swapped
    }
}

/// A shape of one upload of a contiguous axis: the first upload reads contiguously, and the
/// later ones are strided.
pub open spec fn axis_upload_shape(
    planned: PlanResult<Option<StockhamAxisBlockSchedule>>,
    axis_upload_id: usize,
    batch_count: usize,
    device: DeviceProfile,
    perform_zero_padding: bool,
) -> bool {
    if axis_upload_id == 0 {
        contiguous_shape(planned, batch_count, device, perform_zero_padding)
    } else {
        strided_shape(planned, batch_count, device)
    }
}

/// Every shape handed out checks: no more transforms than exist, and local sizes within
/// the device's limits.
pub proof fn kept_blocks_fit(
    block: StockhamAxisBlockSchedule,
    batch_count: usize,
    device: DeviceProfile,
)
    ensures
        block_if_checked(block, batch_count, device) matches Some(kept) ==> {
            &&& kept.dimensions_consistent(batch_count)
            &&& kept.fits(device)
            &&& kept.grouped_batch * kept.threads_per_transform <= device.max_threads_per_block
        },
{
    reveal(block_if_checked);
    assert(block.grouped_batch * block.threads_per_transform == block.threads_per_transform
        * block.grouped_batch) by (nonlinear_arith);
}

/// Whether `a * b` fits in `usize` and exceeds the limit.
#[verifier::allow_in_spec]
pub fn product_exceeds(a: usize, b: usize, limit: usize) -> bool
    returns
        limit < a * b <= usize::MAX,
{
    match a.checked_mul(b) {
        Some(product) => product > limit,
        None => false,
    }
}

/// Whether `a * b` stays below the limit.
#[verifier::allow_in_spec]
pub fn product_below(a: usize, b: usize, limit: usize) -> bool
    returns
        a * b < limit,
{
    match a.checked_mul(b) {
        Some(product) => product < limit,
        None => false,
    }
}

/// Whether `a * b` keeps to the limit.
#[verifier::allow_in_spec]
pub fn product_within(a: usize, b: usize, limit: usize) -> bool
    returns
        a * b <= limit,
{
    match a.checked_mul(b) {
        Some(product) => product <= limit,
        None => false,
    }
}

/// Whether `a * b * c` keeps to the limit.
#[verifier::allow_in_spec]
pub fn triple_product_within(a: usize, b: usize, c: usize, limit: usize) -> bool
    returns
        a * b <= usize::MAX && (a * b) * c <= limit,
{
    match a.checked_mul(b) {
        Some(product) => product_within(product, c, limit),
        None => false,
    }
}

/// `value` rounded down to a multiple of `unit`; 0 for a unit of 0.
#[verifier::allow_in_spec]
pub fn round_down(value: usize, unit: usize) -> usize
    returns
        (if unit == 0 {
            0
        } else {
            (value / unit * unit) as usize
        }),
{
    if unit == 0 {
        return 0;
    }
    assert(value / unit * unit <= value) by (nonlinear_arith)
        requires
            unit > 0,
    ;
    value / unit * unit
}

/// `value / divisor`; 0 for a divisor of 0.
#[verifier::allow_in_spec]
pub fn quotient(value: usize, divisor: usize) -> usize
    returns
        (if divisor == 0 {
            0
        } else {
            value / divisor
        }),
{
    if divisor == 0 {
        0
    } else {
        value / divisor
    }
}

/// `value % divisor == 0`; false for a divisor of 0 unless the value is 0.
#[verifier::allow_in_spec]
pub fn multiple_of(value: usize, divisor: usize) -> bool
    returns
        (if divisor == 0 {
            value == 0
        } else {
            value % divisor == 0
        }),
{
    if divisor == 0 {
        value == 0
    } else {
        value % divisor == 0
    }
}

/// The next power of two, or the value itself where that does not fit.
#[verifier::allow_in_spec]
pub fn power_of_two_above(value: usize) -> usize
    returns
        (match next_power_of_two(value) {
            Some(power) => power,
            None => value,
        }),
{
    match next_power_of_two(value) {
        Some(power) => power,
        None => value,
    }
}

/// The plain precision with the given footprint per complex value.
#[verifier::allow_in_spec]
pub fn precision_of_bytes(complex_bytes: usize) -> Option<Precision>
    returns
        (match complex_bytes {
            8 => Some(Precision::F32),
            16 => Some(Precision::F64),
            32 => Some(Precision::DoubleDouble),
            _ => None,
        }),
{
    match complex_bytes {
        8 => Some(Precision::F32),
        16 => Some(Precision::F64),
        32 => Some(Precision::DoubleDouble),
        _ => None,
    }
}

/// The plain single or double precision with the given footprint.
#[verifier::allow_in_spec]
pub fn ordinary_precision_of_bytes(complex_bytes: usize) -> Option<Precision>
    returns
        (match complex_bytes {
            8 => Some(Precision::F32),
            16 => Some(Precision::F64),
            _ => None,
        }),
{
    match complex_bytes {
        8 => Some(Precision::F32),
        16 => Some(Precision::F64),
        _ => None,
    }
}

/// The group halved, never below `floor`, while it fills two aimed workgroups.
pub open spec fn aim_shrunk(grouped: int, threads: int, floor: int) -> int
    decreases grouped,
{
    if 2 * AIM_THREADS <= grouped * threads <= usize::MAX && grouped > floor && grouped > 0 {
        aim_shrunk(
            if grouped / 2 >= floor {
                grouped / 2
            } else {
                floor
            },
            threads,
            floor,
        )
    } else {
        grouped
    }
}

/// On NVIDIA devices the group shrunk to the aimed workgroup, else the group.
#[verifier::opaque]
pub open spec fn vendor_shrunk(
    grouped: usize,
    threads: usize,
    floor: usize,
    device: DeviceProfile,
) -> usize {
    if device.vendor == GpuVendor::Nvidia {
        aim_shrunk(grouped as int, threads as int, floor as int) as usize
    } else {
        grouped
    }
}

pub fn shrink_for_vendor(grouped: usize, threads: usize, floor: usize, device: DeviceProfile) -> (
    shrunk: usize)
    ensures
        shrunk == vendor_shrunk(grouped, threads, floor, device),
{
    reveal(vendor_shrunk);
    if device.vendor != GpuVendor::Nvidia {
        return grouped;
    }
    let mut shrunk: usize = grouped;
    while shrunk > floor && shrunk > 0 && fills_two_aims(shrunk, threads)
        invariant
            aim_shrunk(shrunk as int, threads as int, floor as int) == aim_shrunk(
                grouped as int,
                threads as int,
                floor as int,
            ),
        decreases shrunk,
    {
        shrunk = umax(shrunk / 2, floor);
    }
    shrunk
}

/// Whether the group fills at least two aimed workgroups.
#[verifier::allow_in_spec]
pub fn fills_two_aims(grouped: usize, threads: usize) -> bool
    returns
        2 * AIM_THREADS <= grouped * threads <= usize::MAX,
{
    match grouped.checked_mul(threads) {
        Some(total) => total >= 2 * AIM_THREADS,
        None => false,
    }
}

/// The group halved until its transforms fit the capacity; 1 at least.
pub open spec fn halved_to_fit(grouped: int, len: int, capacity: int) -> int
    decreases grouped,
{
    if grouped > 1 && capacity < grouped * len <= usize::MAX {
        halved_to_fit(grouped / 2, len, capacity)
    } else {
        grouped
    }
}

/// The same on machine integers.
#[verifier::opaque]
pub open spec fn halved_group(grouped: usize, len: usize, capacity: usize) -> usize {
    halved_to_fit(grouped as int, len as int, capacity as int) as usize
}

pub fn halve_to_fit(grouped: usize, len: usize, capacity: usize) -> (halved: usize)
    ensures
        halved == halved_group(grouped, len, capacity),
        grouped >= 1 ==> halved >= 1,
{
    reveal(halved_group);
    let mut halved: usize = grouped;
    while halved > 1 && product_exceeds(halved, len, capacity)
        invariant
            grouped >= 1 ==> halved >= 1,
            halved_to_fit(halved as int, len as int, capacity as int) == halved_to_fit(
                grouped as int,
                len as int,
                capacity as int,
            ),
        decreases halved,
    {
        halved = halved / 2;
    }
    halved
}

/// The first of `dimension / divisor`, `dimension / (divisor + 1)` and so on that is
/// positive and keeps `other` times it within the limit.
pub open spec fn fitting_quotient(
    dimension: int,
    other: int,
    limit: int,
    divisor: int,
) -> Option<int>
    decreases dimension - divisor + 1,
{
    if divisor < 1 || divisor > dimension {
        None
    } else if dimension / divisor > 0 && dimension / divisor * other <= limit {
        Some(dimension / divisor)
    } else {
        fitting_quotient(dimension, other, limit, divisor + 1)
    }
}

fn find_fitting_quotient(dimension: usize, other: usize, limit: usize) -> (found: Option<usize>)
    ensures
        match found {
            Some(value) => fitting_quotient(dimension as int, other as int, limit as int, 1)
                == Some(value as int),
            None => fitting_quotient(dimension as int, other as int, limit as int, 1) is None,
        },
{
    let mut divisor: usize = 1;
    while divisor <= dimension
        invariant
            divisor >= 1,
            fitting_quotient(dimension as int, other as int, limit as int, divisor as int)
                == fitting_quotient(dimension as int, other as int, limit as int, 1),
        decreases dimension - divisor + 1,
    {
        let candidate: usize = dimension / divisor;
        if candidate > 0 && product_within(candidate, other, limit) {
            return Some(candidate);
        }
        if divisor == dimension {
            assert(fitting_quotient(dimension as int, other as int, limit as int, divisor + 1)
                is None);
            return None;
        }
        divisor = divisor + 1;
    }
    None
}

/// The group, or where its lanes exceed the limit the first quotient of it that fits.
#[verifier::opaque]
pub open spec fn group_fit(grouped: usize, threads: usize, limit: usize) -> usize {
    if product_exceeds(grouped, threads, limit) {
        match fitting_quotient(grouped as int, threads as int, limit as int, 1) {
            Some(found) => found as usize,
            None => grouped,
        }
    } else {
        grouped
    }
}

pub fn fit_group(grouped: usize, threads: usize, limit: usize) -> (fitted: usize)
    ensures
        fitted == group_fit(grouped, threads, limit),
{
    reveal(group_fit);
    if product_exceeds(grouped, threads, limit) {
        match find_fitting_quotient(grouped, threads, limit) {
            Some(found) => found,
            None => grouped,
        }
    } else {
        grouped
    }
}

/// A dimension cut to its first quotient that fits beside the other; 1 where none does.
#[verifier::opaque]
pub open spec fn reduced_dimension(dimension: usize, other: usize, limit: usize) -> usize {
    if saturating_product(dimension, other) <= limit {
        dimension
    } else {
        match fitting_quotient(dimension as int, other as int, limit as int, 1) {
            Some(found) => found as usize,
            None => 1,
        }
    }
}

pub fn reduce_dimension(dimension: usize, other: usize, limit: usize) -> (reduced: usize)
    ensures
        reduced == reduced_dimension(dimension, other, limit),
{
    reveal(reduced_dimension);
    if saturating_product(dimension, other) <= limit {
        return dimension;
    }
    match find_fitting_quotient(dimension, other, limit) {
        Some(found) => found,
        None => 1,
    }
}

/// A group cut to fit fits: where even one transform keeps to the limit, so does the
/// result.
pub proof fn reduced_dimension_fits(dimension: usize, other: usize, limit: usize)
    requires
        dimension >= 1,
        other <= limit,
        limit < usize::MAX,
    ensures
        reduced_dimension(dimension, other, limit) * other <= limit,
        1 <= reduced_dimension(dimension, other, limit) <= dimension,
{
    reveal(reduced_dimension);
    fitting_quotient_fits(dimension as int, other as int, limit as int, 1);
}

proof fn fitting_quotient_fits(dimension: int, other: int, limit: int, divisor: int)
    requires
        1 <= divisor <= dimension <= usize::MAX,
        0 <= other <= limit,
    ensures
        fitting_quotient(dimension, other, limit, divisor) matches Some(found) && 1 <= found
            <= dimension && found * other <= limit,
    decreases dimension - divisor,
{
    assert(dimension / divisor <= dimension) by (nonlinear_arith)
        requires
            1 <= divisor <= dimension,
    ;
    if divisor == dimension {
        assert(dimension / divisor == 1) by (nonlinear_arith)
            requires
                divisor == dimension,
                dimension >= 1,
        ;
        assert(1 * other == other) by (nonlinear_arith);
    } else {
        fitting_quotient_fits(dimension, other, limit, divisor + 1);
    }
}

/// Whether exchanging the local dimensions avoids bank conflicts: even lengths and
/// narrow transforms do, where the grouped transforms stay below the capacity.
#[verifier::opaque]
pub open spec fn swaps_axes(
    len: usize,
    threads: usize,
    grouped: usize,
    capacity: usize,
    zero_padding: bool,
    device: DeviceProfile,
) -> bool {
    !zero_padding
        && (len % 2 == 0 || threads < umax(device.shared_banks, 1) / 4)
        && grouped > 1
        && product_below(grouped, len, capacity)
}

pub fn should_swap_axes(
    len: usize,
    threads: usize,
    grouped: usize,
    capacity: usize,
    zero_padding: bool,
    device: DeviceProfile,
) -> (planned: bool)
    ensures
        planned == swaps_axes(len, threads, grouped, capacity, zero_padding, device),
        zero_padding ==> !planned,
{
    reveal(swaps_axes);
    !zero_padding
        && (len % 2 == 0 || threads < umax(device.shared_banks, 1) / 4)
        && grouped > 1
        && product_below(grouped, len, capacity)
}

/// How many transforms bring a workgroup to the aimed lane count. A transform that
/// nearly fills one subgroup counts as one.
#[verifier::allow_in_spec]
pub fn estimate_batch(
    threads: usize,
    warp: usize,
) -> usize
    returns
        (if nearly_fills_subgroup(threads, warp) {
            umax(quotient(AIM_THREADS, warp), 1)
        } else {
            umax(quotient(AIM_THREADS, threads), 1)
        }),
{
    if nearly_fills_subgroup(threads, warp) {
        return umax(quotient(AIM_THREADS, warp), 1);
    }
    umax(quotient(AIM_THREADS, threads), 1)
}

/// Whether `threads` fills one subgroup and less than half of a second one.
#[verifier::allow_in_spec]
pub fn nearly_fills_subgroup(threads: usize, warp: usize) -> bool
    returns
        near_single_subgroup(threads as int, warp as int),
{
    if warp == 0 {
        false
    } else {
        crate::arith::upstream_near_single_subgroup(threads, warp)
    }
}

/// The group an axis of strided transforms starts from.
#[verifier::allow_in_spec]
pub fn initial_group(
    strided: usize,
    len: usize,
    coalesced: usize,
    operation: &'static str,
) -> PlanResult<usize>
    returns
        (if quotient(strided, len) > 1 {
            checked_mul(quotient(strided, len), coalesced, operation)
        } else {
            Ok(coalesced)
        }),
{
    if quotient(strided, len) > 1 {
        checked_mul(quotient(strided, len), coalesced, operation)
    } else {
        Ok(coalesced)
    }
}

/// The group as a multiple of the coalesced width, of the subgroup, and of two and four
/// coalesced widths where it exceeds them. A transform longer than one strided upload
/// groups only what shared memory holds.
#[verifier::opaque]
pub open spec fn aligned_group(
    grouped: usize,
    coalesced: usize,
    len: usize,
    strided: usize,
    shared: usize,
    warp: usize,
) -> usize {
    let whole = round_down(umax(grouped, coalesced), coalesced);
    let held = if len > strided { umax(quotient(shared, len), 1) } else { whole };
    let by_warp = if held > warp { round_down(held, warp) } else { held };
    let two = saturating_product(2, coalesced);
    let by_two = if by_warp > two { round_down(by_warp, two) } else { by_warp };
    let four = saturating_product(4, coalesced);
    let by_four = if by_two > four { round_down(by_two, four) } else { by_two };
    umax(by_four, 1)
}

pub fn align_group(
    grouped: usize,
    coalesced: usize,
    len: usize,
    strided: usize,
    shared: usize,
    warp: usize,
) -> (planned: usize)
    ensures
        planned == aligned_group(grouped, coalesced, len, strided, shared, warp),
{
    reveal(aligned_group);
    let whole: usize = round_down(umax(grouped, coalesced), coalesced);
    let held: usize = if len > strided { umax(quotient(shared, len), 1) } else { whole };
    let by_warp: usize = if held > warp { round_down(held, warp) } else { held };
    let two: usize = saturating_product(2, coalesced);
    let by_two: usize = if by_warp > two { round_down(by_warp, two) } else { by_warp };
    let four: usize = saturating_product(4, coalesced);
    let by_four: usize = if by_two > four { round_down(by_two, four) } else { by_two };
    umax(by_four, 1)
}

/// A group on Y cut to the device's limits and then to shared memory.
#[verifier::opaque]
pub open spec fn limited_group(
    grouped: usize,
    threads: usize,
    len: usize,
    capacity: usize,
    device: DeviceProfile,
) -> usize {
    let within_size = umax(umin(grouped, device.max_workgroup_size[1]), 1);
    let within_threads = if product_exceeds(within_size, threads, device.max_threads_per_block) {
        umax(quotient(device.max_threads_per_block, threads), 1)
    } else {
        within_size
    };
    halved_group(within_threads, len, capacity)
}

pub fn limit_group(
    grouped: usize,
    threads: usize,
    len: usize,
    capacity: usize,
    device: DeviceProfile,
) -> (planned: usize)
    ensures
        planned == limited_group(grouped, threads, len, capacity, device),
{
    reveal(limited_group);
    let within_size: usize = umax(umin(grouped, device.max_workgroup_size[1]), 1);
    let within_threads: usize = if product_exceeds(
        within_size,
        threads,
        device.max_threads_per_block,
    ) {
        umax(quotient(device.max_threads_per_block, threads), 1)
    } else {
        within_size
    };
    halve_to_fit(within_threads, len, capacity)
}

/// A group on X within the batch and the device's first local dimension.
#[verifier::allow_in_spec]
pub fn clamped_x_group(
    grouped: usize,
    batch_count: usize,
    device: DeviceProfile,
) -> usize
    returns
        umax(umin(umin(grouped, batch_count), device.max_workgroup_size[0]), 1),
{
    umax(umin(umin(grouped, batch_count), device.max_workgroup_size[0]), 1)
}

/// The group a caller asked for on X. It takes effect where the automatic group exceeds
/// `gate`. A group whose lanes exceed the limit is replaced by the limit over the group
/// itself, clamped again where `reclamp` holds.
#[verifier::opaque]
pub open spec fn user_x_group(
    automatic: usize,
    gate: usize,
    requested: usize,
    threads: usize,
    batch_count: usize,
    reclamp: bool,
    device: DeviceProfile,
) -> Option<usize> {
    let wanted = if umax(automatic, 1) > gate { requested } else { umax(automatic, 1) };
    let clamped = clamped_x_group(wanted, batch_count, device);
    if !product_exceeds(clamped, threads, device.max_threads_per_block) {
        Some(clamped)
    } else {
        let replaced = quotient(device.max_threads_per_block, clamped);
        if replaced == 0 {
            None
        } else if reclamp {
            Some(clamped_x_group(replaced, batch_count, device))
        } else {
            Some(replaced)
        }
    }
}

pub fn choose_user_x_group(
    automatic: usize,
    gate: usize,
    requested: usize,
    threads: usize,
    batch_count: usize,
    reclamp: bool,
    device: DeviceProfile,
) -> (planned: Option<usize>)
    ensures
        planned == user_x_group(automatic, gate, requested, threads, batch_count, reclamp, device),
{
    reveal(user_x_group);
    let wanted: usize = if umax(automatic, 1) > gate { requested } else { umax(automatic, 1) };
    let clamped: usize = clamped_x_group(wanted, batch_count, device);
    if !product_exceeds(clamped, threads, device.max_threads_per_block) {
        return Some(clamped);
    }
    let replaced: usize = quotient(device.max_threads_per_block, clamped);
    if replaced == 0 {
        return None;
    }
    if reclamp {
        return Some(clamped_x_group(replaced, batch_count, device));
    }
    Some(replaced)
}

/// The automatic group on X: at most the fastest axis, shrunk to the aimed workgroup on
/// NVIDIA devices, clamped, and cut until its lanes fit.
#[verifier::opaque]
pub open spec fn automatic_x_group(
    grouped: usize,
    fastest_axis_len: usize,
    threads: usize,
    coalesced: usize,
    batch_count: usize,
    device: DeviceProfile,
) -> usize {
    let bounded = umax(umin(fastest_axis_len, grouped), 1);
    let shrunk = vendor_shrunk(bounded, threads, coalesced, device);
    let clamped = clamped_x_group(shrunk, batch_count, device);
    group_fit(clamped, threads, device.max_threads_per_block)
}

pub fn choose_automatic_x_group(
    grouped: usize,
    fastest_axis_len: usize,
    threads: usize,
    coalesced: usize,
    batch_count: usize,
    device: DeviceProfile,
) -> (planned: usize)
    ensures
        planned == automatic_x_group(
            grouped,
            fastest_axis_len,
            threads,
            coalesced,
            batch_count,
            device,
        ),
{
    reveal(automatic_x_group);
    let bounded: usize = umax(umin(fastest_axis_len, grouped), 1);
    let shrunk: usize = shrink_for_vendor(bounded, threads, coalesced, device);
    let clamped: usize = clamped_x_group(shrunk, batch_count, device);
    fit_group(clamped, threads, device.max_threads_per_block)
}

/// The value in an option, or the default.
#[verifier::allow_in_spec]
pub fn value_or(value: Option<usize>, default: usize) -> usize
    returns
        (match value {
            Some(found) => found,
            None => default,
        }),
{
    match value {
        Some(found) => found,
        None => default,
    }
}

/// One widening step: transactions of `bytes` where the transform still fits.
#[verifier::allow_in_spec]
pub fn widened_group(
    bytes: usize,
    len: usize,
    shared: usize,
    complex_bytes: usize,
    grouped: usize,
    coalesced: usize,
) -> (usize, usize)
    returns
        ({
            let candidate = quotient(bytes, complex_bytes);
            if candidate > 0 && product_within(len, candidate, shared) {
                (candidate, candidate)
            } else {
                (grouped, coalesced)
            }
        }),
{
    let candidate: usize = quotient(bytes, complex_bytes);
    if candidate > 0 && product_within(len, candidate, shared) {
        return (candidate, candidate);
    }
    (grouped, coalesced)
}

/// Group and coalesced width of one upload of several. NVIDIA devices widen their
/// transactions to 64 and then 128 bytes; others halve the group of the first upload.
#[verifier::opaque]
pub open spec fn four_step_group(
    upload_count: usize,
    axis_upload_id: usize,
    len: usize,
    shared: usize,
    complex_bytes: usize,
    grouped: usize,
    coalesced: usize,
    device: DeviceProfile,
) -> PlanResult<(usize, usize)> {
    if device.vendor == GpuVendor::Nvidia {
        if upload_count == 3 || (upload_count == 2 && (axis_upload_id > 0 || len <= 512)) {
            let (first_group, first_width) = widened_group(
                64,
                len,
                shared,
                complex_bytes,
                grouped,
                coalesced,
            );
            Ok(widened_group(128, len, shared, complex_bytes, first_group, first_width))
        } else {
            Ok((grouped, coalesced))
        }
    } else if axis_upload_id == 0
        && (
            (upload_count == 2 && product_within(len, coalesced, shared))
                || (
                    upload_count == 3
                        && len < quotient(shared, saturating_product(2, complex_bytes))
                )
        ) {
        match ceil_div(grouped, 2) {
            Err(error) => Err(error),
            Ok(half) => Ok((half, coalesced)),
        }
    } else {
        Ok((grouped, coalesced))
    }
}

pub fn adjust_four_step_group(
    upload_count: usize,
    axis_upload_id: usize,
    len: usize,
    shared: usize,
    complex_bytes: usize,
    grouped: usize,
    coalesced: usize,
    device: DeviceProfile,
) -> (planned: PlanResult<(usize, usize)>)
    ensures
        planned == four_step_group(
            upload_count,
            axis_upload_id,
            len,
            shared,
            complex_bytes,
            grouped,
            coalesced,
            device,
        ),
{
    reveal(four_step_group);
    if device.vendor == GpuVendor::Nvidia {
        if upload_count == 3 || (upload_count == 2 && (axis_upload_id > 0 || len <= 512)) {
            let (first_group, first_width) = widened_group(
                64,
                len,
                shared,
                complex_bytes,
                grouped,
                coalesced,
            );
            return Ok(widened_group(128, len, shared, complex_bytes, first_group, first_width));
        }
        return Ok((grouped, coalesced));
    }
    if axis_upload_id == 0
        && (
            (upload_count == 2 && product_within(len, coalesced, shared))
                || (
                    upload_count == 3
                        && len < quotient(shared, saturating_product(2, complex_bytes))
                )
        ) {
        let half: usize = ceil_div(grouped, 2)?;
        return Ok((half, coalesced));
    }
    Ok((grouped, coalesced))
}

/// The group scaled up to the aimed lane count where shared memory holds the result.
#[verifier::opaque]
pub open spec fn aim_scaled_group(
    grouped: usize,
    threads: usize,
    len: usize,
    shared: usize,
    operation: &'static str,
) -> PlanResult<usize> {
    let scale = quotient(quotient(AIM_THREADS, threads), umax(grouped, 1));
    if scale > 1 && triple_product_within(len, grouped, scale, shared) {
        checked_mul(grouped, scale, operation)
    } else {
        Ok(grouped)
    }
}

pub fn scale_to_aim(
    grouped: usize,
    threads: usize,
    len: usize,
    shared: usize,
    operation: &'static str,
) -> (planned: PlanResult<usize>)
    ensures
        planned == aim_scaled_group(grouped, threads, len, shared, operation),
{
    reveal(aim_scaled_group);
    let scale: usize = quotient(quotient(AIM_THREADS, threads), umax(grouped, 1));
    if scale > 1 && triple_product_within(len, grouped, scale, shared) {
        return checked_mul(grouped, scale, operation);
    }
    Ok(grouped)
}

} // verus!
