//! Padded lengths of Bluestein convolutions.
//!
//! A length covered by a measured table takes its padding from there. Any other length
//! searches upwards for one whose register schedule is good.

use vstd::prelude::*;

use crate::arith::{checked_mul, is_power_of_two, next_power_of_two, umax};
use crate::axis_block::quotient;
use crate::config::{
    has_fixed_profile, has_fixed_upstream_gpu_scheduler_profile, DeviceProfile, GpuVendor,
    Precision,
};
use crate::error::{PlanResult, VkFftError};
use crate::policy::precision_uses_lut;
use crate::quad::{
    factor_quad, plan_gpu_double_double_quad_registers, quad_factors, quad_schedule,
    DoubleDoubleQuadRegisterSchedule,
};
use crate::registers::{
    plan_gpu_power_of_two_radix_registers, plan_gpu_small_mixed_radix_registers,
    power_of_two_schedule, small_mixed_schedule, RadixRegisterSchedule,
};

verus! {

/// Measured paddings on NVIDIA devices where twiddles come from a table.
#[verifier::allow_in_spec]
pub fn nvidia_wide_padding(
    sequence_len: usize,
) -> Option<usize>
    returns
        (if sequence_len < 17 {
            None
        } else if sequence_len < 19 {
            Some(36usize)
        } else if sequence_len < 23 {
            Some(40usize)
        } else if sequence_len < 29 {
            Some(48usize)
        } else if sequence_len < 34 {
            Some(64usize)
        } else if sequence_len < 37 {
            Some(70usize)
        } else if sequence_len < 41 {
            Some(80usize)
        } else if sequence_len < 46 {
            Some(90usize)
        } else if sequence_len < 51 {
            Some(96usize)
        } else if sequence_len < 53 {
            Some(104usize)
        } else if sequence_len < 67 {
            Some(128usize)
        } else if sequence_len < 73 {
            Some(144usize)
        } else if sequence_len < 82 {
            Some(160usize)
        } else if sequence_len < 129 {
            Some(256usize)
        } else if sequence_len < 145 {
            Some(288usize)
        } else if sequence_len < 257 {
            Some(512usize)
        } else if sequence_len < 314 {
            Some(625usize)
        } else if sequence_len < 376 {
            Some(750usize)
        } else if sequence_len < 379 {
            Some(756usize)
        } else if sequence_len < 386 {
            Some(768usize)
        } else if sequence_len < 513 {
            Some(1024usize)
        } else if sequence_len < 529 {
            Some(1056usize)
        } else if sequence_len < 601 {
            Some(1200usize)
        } else if sequence_len < 614 {
            Some(1225usize)
        } else if sequence_len < 626 {
            Some(1250usize)
        } else if sequence_len < 649 {
            Some(1296usize)
        } else if sequence_len < 667 {
            Some(1331usize)
        } else if sequence_len < 721 {
            Some(1440usize)
        } else if sequence_len < 730 {
            Some(1456usize)
        } else if sequence_len < 781 {
            Some(1560usize)
        } else if sequence_len < 1025 {
            Some(2048usize)
        } else if sequence_len < 1095 {
            Some(2187usize)
        } else if sequence_len < 1153 {
            Some(2304usize)
        } else if sequence_len < 1345 {
            Some(2688usize)
        } else if sequence_len < 1366 {
            Some(2730usize)
        } else if sequence_len < 1464 {
            Some(2925usize)
        } else if sequence_len < 1501 {
            Some(3000usize)
        } else if sequence_len < 2049 {
            Some(4096usize)
        } else if sequence_len < 2185 {
            Some(4368usize)
        } else if sequence_len < 2305 {
            Some(4608usize)
        } else if sequence_len < 2364 {
            Some(4900usize)
        } else if sequence_len < 2451 {
            Some(4900usize)
        } else if sequence_len < 2593 {
            Some(5184usize)
        } else if sequence_len < 2814 {
            Some(5625usize)
        } else if sequence_len < 2881 {
            Some(5760usize)
        } else if sequence_len < 3001 {
            Some(6000usize)
        } else if sequence_len < 3026 {
            Some(6048usize)
        } else if sequence_len < 3073 {
            Some(6144usize)
        } else if sequence_len < 3282 {
            Some(6561usize)
        } else {
            Some(8192usize)
        }),
{
    if sequence_len < 17 {
        return None;
    }
    if sequence_len < 19 {
        return Some(36usize);
    }
    if sequence_len < 23 {
        return Some(40usize);
    }
    if sequence_len < 29 {
        return Some(48usize);
    }
    if sequence_len < 34 {
        return Some(64usize);
    }
    if sequence_len < 37 {
        return Some(70usize);
    }
    if sequence_len < 41 {
        return Some(80usize);
    }
    if sequence_len < 46 {
        return Some(90usize);
    }
    if sequence_len < 51 {
        return Some(96usize);
    }
    if sequence_len < 53 {
        return Some(104usize);
    }
    if sequence_len < 67 {
        return Some(128usize);
    }
    if sequence_len < 73 {
        return Some(144usize);
    }
    if sequence_len < 82 {
        return Some(160usize);
    }
    if sequence_len < 129 {
        return Some(256usize);
    }
    if sequence_len < 145 {
        return Some(288usize);
    }
    if sequence_len < 257 {
        return Some(512usize);
    }
    if sequence_len < 314 {
        return Some(625usize);
    }
    if sequence_len < 376 {
        return Some(750usize);
    }
    if sequence_len < 379 {
        return Some(756usize);
    }
    if sequence_len < 386 {
        return Some(768usize);
    }
    if sequence_len < 513 {
        return Some(1024usize);
    }
    if sequence_len < 529 {
        return Some(1056usize);
    }
    if sequence_len < 601 {
        return Some(1200usize);
    }
    if sequence_len < 614 {
        return Some(1225usize);
    }
    if sequence_len < 626 {
        return Some(1250usize);
    }
    if sequence_len < 649 {
        return Some(1296usize);
    }
    if sequence_len < 667 {
        return Some(1331usize);
    }
    if sequence_len < 721 {
        return Some(1440usize);
    }
    if sequence_len < 730 {
        return Some(1456usize);
    }
    if sequence_len < 781 {
        return Some(1560usize);
    }
    if sequence_len < 1025 {
        return Some(2048usize);
    }
    if sequence_len < 1095 {
        return Some(2187usize);
    }
    if sequence_len < 1153 {
        return Some(2304usize);
    }
    if sequence_len < 1345 {
        return Some(2688usize);
    }
    if sequence_len < 1366 {
        return Some(2730usize);
    }
    if sequence_len < 1464 {
        return Some(2925usize);
    }
    if sequence_len < 1501 {
        return Some(3000usize);
    }
    if sequence_len < 2049 {
        return Some(4096usize);
    }
    if sequence_len < 2185 {
        return Some(4368usize);
    }
    if sequence_len < 2305 {
        return Some(4608usize);
    }
    if sequence_len < 2364 {
        return Some(4900usize);
    }
    if sequence_len < 2451 {
        return Some(4900usize);
    }
    if sequence_len < 2593 {
        return Some(5184usize);
    }
    if sequence_len < 2814 {
        return Some(5625usize);
    }
    if sequence_len < 2881 {
        return Some(5760usize);
    }
    if sequence_len < 3001 {
        return Some(6000usize);
    }
    if sequence_len < 3026 {
        return Some(6048usize);
    }
    if sequence_len < 3073 {
        return Some(6144usize);
    }
    if sequence_len < 3282 {
        return Some(6561usize);
    }
    Some(8192usize)
}

/// Measured paddings on NVIDIA devices where twiddles are computed.
#[verifier::allow_in_spec]
pub fn nvidia_single_padding(
    sequence_len: usize,
) -> Option<usize>
    returns
        (if sequence_len < 17 {
            None
        } else if sequence_len < 19 {
            Some(36usize)
        } else if sequence_len < 23 {
            Some(40usize)
        } else if sequence_len < 29 {
            Some(48usize)
        } else if sequence_len < 34 {
            Some(64usize)
        } else if sequence_len < 37 {
            Some(70usize)
        } else if sequence_len < 41 {
            Some(80usize)
        } else if sequence_len < 51 {
            Some(96usize)
        } else if sequence_len < 53 {
            Some(104usize)
        } else if sequence_len < 57 {
            Some(112usize)
        } else if sequence_len < 61 {
            Some(120usize)
        } else if sequence_len < 67 {
            Some(128usize)
        } else if sequence_len < 73 {
            Some(144usize)
        } else if sequence_len < 76 {
            Some(150usize)
        } else if sequence_len < 82 {
            Some(160usize)
        } else if sequence_len < 129 {
            Some(256usize)
        } else if sequence_len < 193 {
            Some(384usize)
        } else if sequence_len < 257 {
            Some(512usize)
        } else if sequence_len < 285 {
            Some(567usize)
        } else if sequence_len < 314 {
            Some(625usize)
        } else if sequence_len < 386 {
            Some(768usize)
        } else if sequence_len < 417 {
            Some(832usize)
        } else if sequence_len < 513 {
            Some(1024usize)
        } else if sequence_len < 577 {
            Some(1152usize)
        } else if sequence_len < 601 {
            Some(1200usize)
        } else if sequence_len < 649 {
            Some(1296usize)
        } else if sequence_len < 769 {
            Some(1536usize)
        } else if sequence_len < 1025 {
            Some(2048usize)
        } else if sequence_len < 1095 {
            Some(2187usize)
        } else if sequence_len < 1153 {
            Some(2304usize)
        } else if sequence_len < 1251 {
            Some(2500usize)
        } else if sequence_len < 1297 {
            Some(2592usize)
        } else if sequence_len < 1409 {
            Some(2816usize)
        } else if sequence_len < 1537 {
            Some(3072usize)
        } else if sequence_len < 2049 {
            Some(4096usize)
        } else if sequence_len < 2185 {
            Some(4368usize)
        } else if sequence_len < 2283 {
            Some(4563usize)
        } else if sequence_len < 2289 {
            Some(4576usize)
        } else if sequence_len < 2305 {
            Some(4608usize)
        } else if sequence_len < 2593 {
            Some(5184usize)
        } else if sequence_len < 2814 {
            Some(5625usize)
        } else if sequence_len < 2817 {
            Some(5632usize)
        } else if sequence_len < 3001 {
            Some(6000usize)
        } else if sequence_len < 3073 {
            Some(6144usize)
        } else if sequence_len < 3282 {
            Some(6561usize)
        } else {
            Some(8192usize)
        }),
{
    if sequence_len < 17 {
        return None;
    }
    if sequence_len < 19 {
        return Some(36usize);
    }
    if sequence_len < 23 {
        return Some(40usize);
    }
    if sequence_len < 29 {
        return Some(48usize);
    }
    if sequence_len < 34 {
        return Some(64usize);
    }
    if sequence_len < 37 {
        return Some(70usize);
    }
    if sequence_len < 41 {
        return Some(80usize);
    }
    if sequence_len < 51 {
        return Some(96usize);
    }
    if sequence_len < 53 {
        return Some(104usize);
    }
    if sequence_len < 57 {
        return Some(112usize);
    }
    if sequence_len < 61 {
        return Some(120usize);
    }
    if sequence_len < 67 {
        return Some(128usize);
    }
    if sequence_len < 73 {
        return Some(144usize);
    }
    if sequence_len < 76 {
        return Some(150usize);
    }
    if sequence_len < 82 {
        return Some(160usize);
    }
    if sequence_len < 129 {
        return Some(256usize);
    }
    if sequence_len < 193 {
        return Some(384usize);
    }
    if sequence_len < 257 {
        return Some(512usize);
    }
    if sequence_len < 285 {
        return Some(567usize);
    }
    if sequence_len < 314 {
        return Some(625usize);
    }
    if sequence_len < 386 {
        return Some(768usize);
    }
    if sequence_len < 417 {
        return Some(832usize);
    }
    if sequence_len < 513 {
        return Some(1024usize);
    }
    if sequence_len < 577 {
        return Some(1152usize);
    }
    if sequence_len < 601 {
        return Some(1200usize);
    }
    if sequence_len < 649 {
        return Some(1296usize);
    }
    if sequence_len < 769 {
        return Some(1536usize);
    }
    if sequence_len < 1025 {
        return Some(2048usize);
    }
    if sequence_len < 1095 {
        return Some(2187usize);
    }
    if sequence_len < 1153 {
        return Some(2304usize);
    }
    if sequence_len < 1251 {
        return Some(2500usize);
    }
    if sequence_len < 1297 {
        return Some(2592usize);
    }
    if sequence_len < 1409 {
        return Some(2816usize);
    }
    if sequence_len < 1537 {
        return Some(3072usize);
    }
    if sequence_len < 2049 {
        return Some(4096usize);
    }
    if sequence_len < 2185 {
        return Some(4368usize);
    }
    if sequence_len < 2283 {
        return Some(4563usize);
    }
    if sequence_len < 2289 {
        return Some(4576usize);
    }
    if sequence_len < 2305 {
        return Some(4608usize);
    }
    if sequence_len < 2593 {
        return Some(5184usize);
    }
    if sequence_len < 2814 {
        return Some(5625usize);
    }
    if sequence_len < 2817 {
        return Some(5632usize);
    }
    if sequence_len < 3001 {
        return Some(6000usize);
    }
    if sequence_len < 3073 {
        return Some(6144usize);
    }
    if sequence_len < 3282 {
        return Some(6561usize);
    }
    Some(8192usize)
}

/// Measured paddings on other devices where twiddles come from a table.
#[verifier::allow_in_spec]
pub fn other_wide_padding(
    sequence_len: usize,
) -> Option<usize>
    returns
        (if sequence_len < 17 {
            None
        } else if sequence_len < 19 {
            Some(36usize)
        } else if sequence_len < 23 {
            Some(40usize)
        } else if sequence_len < 29 {
            Some(56usize)
        } else if sequence_len < 34 {
            Some(64usize)
        } else if sequence_len < 37 {
            Some(70usize)
        } else if sequence_len < 41 {
            Some(78usize)
        } else if sequence_len < 43 {
            Some(81usize)
        } else if sequence_len < 46 {
            Some(90usize)
        } else if sequence_len < 67 {
            Some(125usize)
        } else if sequence_len < 76 {
            Some(150usize)
        } else if sequence_len < 89 {
            Some(175usize)
        } else if sequence_len < 97 {
            Some(189usize)
        } else if sequence_len < 101 {
            Some(198usize)
        } else if sequence_len < 123 {
            Some(243usize)
        } else if sequence_len < 129 {
            Some(256usize)
        } else if sequence_len < 136 {
            Some(270usize)
        } else if sequence_len < 257 {
            Some(512usize)
        } else if sequence_len < 314 {
            Some(625usize)
        } else if sequence_len < 321 {
            Some(640usize)
        } else if sequence_len < 353 {
            Some(702usize)
        } else if sequence_len < 376 {
            Some(750usize)
        } else if sequence_len < 379 {
            Some(756usize)
        } else if sequence_len < 386 {
            Some(768usize)
        } else if sequence_len < 439 {
            Some(875usize)
        } else if sequence_len < 513 {
            Some(1024usize)
        } else if sequence_len < 649 {
            Some(1296usize)
        } else if sequence_len < 651 {
            Some(1300usize)
        } else if sequence_len < 663 {
            Some(1323usize)
        } else if sequence_len < 673 {
            Some(1344usize)
        } else if sequence_len < 757 {
            Some(1512usize)
        } else if sequence_len < 897 {
            Some(1792usize)
        } else if sequence_len < 1009 {
            Some(2016usize)
        } else if sequence_len < 1025 {
            Some(2048usize)
        } else if sequence_len < 1095 {
            Some(2187usize)
        } else if sequence_len < 1569 {
            Some(3136usize)
        } else if sequence_len < 1581 {
            Some(3159usize)
        } else if sequence_len < 1717 {
            Some(3430usize)
        } else if sequence_len < 1793 {
            Some(3584usize)
        } else if sequence_len < 2049 {
            Some(4096usize)
        } else if sequence_len < 2113 {
            Some(4224usize)
        } else if sequence_len < 2189 {
            Some(4375usize)
        } else if sequence_len < 2241 {
            Some(4480usize)
        } else if sequence_len < 2353 {
            Some(4704usize)
        } else if sequence_len < 2465 {
            Some(4928usize)
        } else if sequence_len < 2497 {
            Some(4992usize)
        } else if sequence_len < 2504 {
            Some(5005usize)
        } else if sequence_len < 2553 {
            Some(5103usize)
        } else if sequence_len < 2689 {
            Some(5376usize)
        } else if sequence_len < 2817 {
            Some(5632usize)
        } else if sequence_len < 2913 {
            Some(5824usize)
        } else if sequence_len < 3026 {
            Some(6048usize)
        } else if sequence_len < 3073 {
            Some(6144usize)
        } else if sequence_len < 3439 {
            Some(6875usize)
        } else {
            Some(8192usize)
        }),
{
    if sequence_len < 17 {
        return None;
    }
    if sequence_len < 19 {
        return Some(36usize);
    }
    if sequence_len < 23 {
        return Some(40usize);
    }
    if sequence_len < 29 {
        return Some(56usize);
    }
    if sequence_len < 34 {
        return Some(64usize);
    }
    if sequence_len < 37 {
        return Some(70usize);
    }
    if sequence_len < 41 {
        return Some(78usize);
    }
    if sequence_len < 43 {
        return Some(81usize);
    }
    if sequence_len < 46 {
        return Some(90usize);
    }
    if sequence_len < 67 {
        return Some(125usize);
    }
    if sequence_len < 76 {
        return Some(150usize);
    }
    if sequence_len < 89 {
        return Some(175usize);
    }
    if sequence_len < 97 {
        return Some(189usize);
    }
    if sequence_len < 101 {
        return Some(198usize);
    }
    if sequence_len < 123 {
        return Some(243usize);
    }
    if sequence_len < 129 {
        return Some(256usize);
    }
    if sequence_len < 136 {
        return Some(270usize);
    }
    if sequence_len < 257 {
        return Some(512usize);
    }
    if sequence_len < 314 {
        return Some(625usize);
    }
    if sequence_len < 321 {
        return Some(640usize);
    }
    if sequence_len < 353 {
        return Some(702usize);
    }
    if sequence_len < 376 {
        return Some(750usize);
    }
    if sequence_len < 379 {
        return Some(756usize);
    }
    if sequence_len < 386 {
        return Some(768usize);
    }
    if sequence_len < 439 {
        return Some(875usize);
    }
    if sequence_len < 513 {
        return Some(1024usize);
    }
    if sequence_len < 649 {
        return Some(1296usize);
    }
    if sequence_len < 651 {
        return Some(1300usize);
    }
    if sequence_len < 663 {
        return Some(1323usize);
    }
    if sequence_len < 673 {
        return Some(1344usize);
    }
    if sequence_len < 757 {
        return Some(1512usize);
    }
    if sequence_len < 897 {
        return Some(1792usize);
    }
    if sequence_len < 1009 {
        return Some(2016usize);
    }
    if sequence_len < 1025 {
        return Some(2048usize);
    }
    if sequence_len < 1095 {
        return Some(2187usize);
    }
    if sequence_len < 1569 {
        return Some(3136usize);
    }
    if sequence_len < 1581 {
        return Some(3159usize);
    }
    if sequence_len < 1717 {
        return Some(3430usize);
    }
    if sequence_len < 1793 {
        return Some(3584usize);
    }
    if sequence_len < 2049 {
        return Some(4096usize);
    }
    if sequence_len < 2113 {
        return Some(4224usize);
    }
    if sequence_len < 2189 {
        return Some(4375usize);
    }
    if sequence_len < 2241 {
        return Some(4480usize);
    }
    if sequence_len < 2353 {
        return Some(4704usize);
    }
    if sequence_len < 2465 {
        return Some(4928usize);
    }
    if sequence_len < 2497 {
        return Some(4992usize);
    }
    if sequence_len < 2504 {
        return Some(5005usize);
    }
    if sequence_len < 2553 {
        return Some(5103usize);
    }
    if sequence_len < 2689 {
        return Some(5376usize);
    }
    if sequence_len < 2817 {
        return Some(5632usize);
    }
    if sequence_len < 2913 {
        return Some(5824usize);
    }
    if sequence_len < 3026 {
        return Some(6048usize);
    }
    if sequence_len < 3073 {
        return Some(6144usize);
    }
    if sequence_len < 3439 {
        return Some(6875usize);
    }
    Some(8192usize)
}

/// Measured paddings on other devices where twiddles are computed.
#[verifier::allow_in_spec]
pub fn other_single_padding(
    sequence_len: usize,
) -> Option<usize>
    returns
        (if sequence_len < 17 {
            None
        } else if sequence_len < 19 {
            Some(36usize)
        } else if sequence_len < 23 {
            Some(42usize)
        } else if sequence_len < 34 {
            Some(64usize)
        } else if sequence_len < 43 {
            Some(81usize)
        } else if sequence_len < 46 {
            Some(88usize)
        } else if sequence_len < 67 {
            Some(125usize)
        } else if sequence_len < 76 {
            Some(150usize)
        } else if sequence_len < 82 {
            Some(162usize)
        } else if sequence_len < 89 {
            Some(175usize)
        } else if sequence_len < 129 {
            Some(256usize)
        } else if sequence_len < 257 {
            Some(512usize)
        } else if sequence_len < 314 {
            Some(625usize)
        } else if sequence_len < 386 {
            Some(768usize)
        } else if sequence_len < 513 {
            Some(1024usize)
        } else if sequence_len < 649 {
            Some(1296usize)
        } else if sequence_len < 1025 {
            Some(2048usize)
        } else if sequence_len < 1095 {
            Some(2187usize)
        } else if sequence_len < 1153 {
            Some(2304usize)
        } else if sequence_len < 1251 {
            Some(2500usize)
        } else if sequence_len < 1297 {
            Some(2592usize)
        } else if sequence_len < 1537 {
            Some(3072usize)
        } else if sequence_len < 1564 {
            Some(3125usize)
        } else if sequence_len < 1569 {
            Some(3136usize)
        } else if sequence_len < 2049 {
            Some(4096usize)
        } else if sequence_len < 2189 {
            Some(4375usize)
        } else if sequence_len < 2305 {
            Some(4608usize)
        } else if sequence_len < 2593 {
            Some(5184usize)
        } else if sequence_len < 3282 {
            Some(6561usize)
        } else {
            Some(8192usize)
        }),
{
    if sequence_len < 17 {
        return None;
    }
    if sequence_len < 19 {
        return Some(36usize);
    }
    if sequence_len < 23 {
        return Some(42usize);
    }
    if sequence_len < 34 {
        return Some(64usize);
    }
    if sequence_len < 43 {
        return Some(81usize);
    }
    if sequence_len < 46 {
        return Some(88usize);
    }
    if sequence_len < 67 {
        return Some(125usize);
    }
    if sequence_len < 76 {
        return Some(150usize);
    }
    if sequence_len < 82 {
        return Some(162usize);
    }
    if sequence_len < 89 {
        return Some(175usize);
    }
    if sequence_len < 129 {
        return Some(256usize);
    }
    if sequence_len < 257 {
        return Some(512usize);
    }
    if sequence_len < 314 {
        return Some(625usize);
    }
    if sequence_len < 386 {
        return Some(768usize);
    }
    if sequence_len < 513 {
        return Some(1024usize);
    }
    if sequence_len < 649 {
        return Some(1296usize);
    }
    if sequence_len < 1025 {
        return Some(2048usize);
    }
    if sequence_len < 1095 {
        return Some(2187usize);
    }
    if sequence_len < 1153 {
        return Some(2304usize);
    }
    if sequence_len < 1251 {
        return Some(2500usize);
    }
    if sequence_len < 1297 {
        return Some(2592usize);
    }
    if sequence_len < 1537 {
        return Some(3072usize);
    }
    if sequence_len < 1564 {
        return Some(3125usize);
    }
    if sequence_len < 1569 {
        return Some(3136usize);
    }
    if sequence_len < 2049 {
        return Some(4096usize);
    }
    if sequence_len < 2189 {
        return Some(4375usize);
    }
    if sequence_len < 2305 {
        return Some(4608usize);
    }
    if sequence_len < 2593 {
        return Some(5184usize);
    }
    if sequence_len < 3282 {
        return Some(6561usize);
    }
    Some(8192usize)
}

/// The least length a Bluestein convolution of this transform needs; none for an empty
/// transform or where it does not fit.
#[verifier::allow_in_spec]
pub fn least_padding(sequence_len: usize) -> Option<usize>
    returns
        (if sequence_len == 0 || 2 * sequence_len > usize::MAX {
            None
        } else {
            Some((2 * sequence_len - 1) as usize)
        }),
{
    if sequence_len == 0 || sequence_len > usize::MAX / 2 {
        None
    } else {
        Some(2 * sequence_len - 1)
    }
}

/// A padding that covers the least one.
#[verifier::allow_in_spec]
pub fn covering_padding(padded: Option<usize>, required: Option<usize>) -> Option<usize>
    returns
        (match (padded, required) {
            (Some(length), Some(least)) => if least <= length {
                Some(length)
            } else {
                None
            },
            _ => None,
        }),
{
    match (padded, required) {
        (Some(length), Some(least)) => if least <= length {
            Some(length)
        } else {
            None
        },
        _ => None,
    }
}

/// Whether the device has measured defaults.
pub open spec fn known_profile(device: DeviceProfile) -> bool {
    has_fixed_profile(device.backend, device.vendor)
}

/// The measured padding of a length, where one is known and long enough.
#[verifier::opaque]
pub open spec fn table_padding(
    sequence_len: usize,
    precision: Precision,
    device: DeviceProfile,
) -> Option<usize> {
    if !known_profile(device) {
        None
    } else {
        let required = least_padding(sequence_len);
        if device.vendor == GpuVendor::Nvidia {
            if precision_uses_lut(precision) {
                covering_padding(nvidia_wide_padding(sequence_len), required)
            } else {
                covering_padding(nvidia_single_padding(sequence_len), required)
            }
        } else if precision_uses_lut(precision) {
            covering_padding(other_wide_padding(sequence_len), required)
        } else {
            covering_padding(other_single_padding(sequence_len), required)
        }
    }
}

pub fn upstream_bluestein_auto_padding_from_table(
    sequence_len: usize,
    precision: Precision,
    device: DeviceProfile,
) -> (planned: Option<usize>)
    ensures
        planned == table_padding(sequence_len, precision, device),
{
    reveal(table_padding);
    if !has_fixed_upstream_gpu_scheduler_profile(device) {
        return None;
    }
    let required: Option<usize> = least_padding(sequence_len);
    if device.vendor == GpuVendor::Nvidia {
        if precision_uses_lut(precision) {
            return covering_padding(nvidia_wide_padding(sequence_len), required);
        }
        return covering_padding(nvidia_single_padding(sequence_len), required);
    }
    if precision_uses_lut(precision) {
        return covering_padding(other_wide_padding(sequence_len), required);
    }
    covering_padding(other_single_padding(sequence_len), required)
}

/// Whether 2, 3, 5 and 7 are the only prime factors of a length.
pub open spec fn small_radix_smooth(value: usize) -> bool {
    quad_factors(value).rest == 1
}

pub fn is_bluestein_small_radix_smooth(value: usize) -> (smooth: bool)
    requires
        value > 0,
    ensures
        smooth == small_radix_smooth(value),
{
    factor_quad(value).rest == 1
}

/// Whether the register schedule of a padded length is good.
pub open spec fn padding_is_good(
    candidate: usize,
    rhs_transform_count: usize,
    precision: Precision,
) -> PlanResult<bool> {
    if precision.is_double_double() {
        match quad_schedule(candidate, rhs_transform_count) {
            Err(error) => Err(error),
            Ok(quad) => Ok(quad.is_good_sequence),
        }
    } else if is_power_of_two(candidate) {
        match power_of_two_schedule(candidate, rhs_transform_count, 1) {
            Err(error) => Err(error),
            Ok(power) => Ok(power.is_good_sequence),
        }
    } else {
        match small_mixed_schedule(candidate, rhs_transform_count) {
            Err(error) => Err(error),
            Ok(mixed) => Ok(mixed.is_good_sequence),
        }
    }
}

fn judge_padding(
    candidate: usize,
    rhs_transform_count: usize,
    precision: Precision,
) -> (planned: PlanResult<bool>)
    ensures
        planned == padding_is_good(candidate, rhs_transform_count, precision),
{
    if precision.is_double_double() {
        let quad: DoubleDoubleQuadRegisterSchedule = plan_gpu_double_double_quad_registers(
            candidate,
            rhs_transform_count,
        )?;
        return Ok(quad.is_good_sequence);
    }
    if is_power_of_two(candidate) {
        let power: RadixRegisterSchedule = plan_gpu_power_of_two_radix_registers(
            candidate,
            rhs_transform_count,
            1,
        )?;
        return Ok(power.is_good_sequence);
    }
    let mixed: RadixRegisterSchedule = plan_gpu_small_mixed_radix_registers(
        candidate,
        rhs_transform_count,
    )?;
    Ok(mixed.is_good_sequence)
}

/// The length tried for `candidate`: the next power of two for short transforms, and where
/// the candidate has come three quarters of the way to one that shared memory holds or
/// that no padding would fit.
pub open spec fn raised_candidate(
    candidate: usize,
    sequence_len: usize,
    required: usize,
    shared: usize,
) -> PlanResult<usize> {
    match next_power_of_two(candidate) {
        None => Err(
            VkFftError::ArithmeticOverflow {
                operation: "fixed upstream Bluestein next power of two",
            },
        ),
        Some(power) => if sequence_len < 128 || (power * 3 <= candidate * 4 && (power <= shared
            || required > shared)) {
            Ok(power)
        } else {
            Ok(candidate)
        },
    }
}

fn raise_candidate(
    candidate: usize,
    sequence_len: usize,
    required: usize,
    shared: usize,
) -> (raised: PlanResult<usize>)
    ensures
        raised == raised_candidate(candidate, sequence_len, required, shared),
{
    match next_power_of_two(candidate) {
        None => Err(
            VkFftError::ArithmeticOverflow {
                operation: "fixed upstream Bluestein next power of two",
            },
        ),
        Some(power) => {
            let close: bool = (power as u128) * 3 <= (candidate as u128) * 4;
            if sequence_len < 128 || (close && (power <= shared || required > shared)) {
                Ok(power)
            } else {
                Ok(candidate)
            }
        },
    }
}

/// Whether a length ends the search.
pub open spec fn padding_accepted(
    candidate: usize,
    max_rhs: usize,
    precision: Precision,
) -> PlanResult<bool> {
    if small_radix_smooth(candidate) {
        padding_is_good(candidate, umax(quotient(max_rhs, candidate), 1), precision)
    } else {
        Ok(false)
    }
}

fn accept_padding(candidate: usize, max_rhs: usize, precision: Precision) -> (accepted: PlanResult<
    bool,
>)
    requires
        candidate > 0,
    ensures
        accepted == padding_accepted(candidate, max_rhs, precision),
{
    if is_bluestein_small_radix_smooth(candidate) {
        judge_padding(candidate, umax(quotient(max_rhs, candidate), 1), precision)
    } else {
        Ok(false)
    }
}

/// The first length from `candidate` on that ends the search.
pub open spec fn padding_from(
    candidate: usize,
    sequence_len: usize,
    required: usize,
    max_rhs: usize,
    shared: usize,
    precision: Precision,
) -> PlanResult<usize>
    decreases usize::MAX - candidate,
{
    proof {
        crate::arith::pow2_at_least_is_least(candidate as int);
    }
    match raised_candidate(candidate, sequence_len, required, shared) {
        Err(error) => Err(error),
        Ok(raised) => match padding_accepted(raised, max_rhs, precision) {
            Err(error) => Err(error),
            Ok(accepted) => if accepted {
                Ok(raised)
            } else if raised == usize::MAX {
                Err(
                    VkFftError::ArithmeticOverflow {
                        operation: "fixed upstream Bluestein padding search",
                    },
                )
            } else {
                padding_from(
                    (raised + 1) as usize,
                    sequence_len,
                    required,
                    max_rhs,
                    shared,
                    precision,
                )
            },
        },
    }
}

fn search_padding(
    start: usize,
    sequence_len: usize,
    required: usize,
    max_rhs: usize,
    shared: usize,
    precision: Precision,
) -> (padded: PlanResult<usize>)
    requires
        start > 0,
    ensures
        padded == padding_from(start, sequence_len, required, max_rhs, shared, precision),
{
    let mut candidate: usize = start;
    loop
        invariant
            candidate > 0,
            padding_from(candidate, sequence_len, required, max_rhs, shared, precision)
                == padding_from(start, sequence_len, required, max_rhs, shared, precision),
        decreases usize::MAX - candidate,
    {
        proof {
            crate::arith::pow2_at_least_is_least(candidate as int);
        }
        let raised: usize = raise_candidate(candidate, sequence_len, required, shared)?;
        let accepted: bool = accept_padding(raised, max_rhs, precision)?;
        if accepted {
            return Ok(raised);
        }
        if raised == usize::MAX {
            return Err(
                VkFftError::ArithmeticOverflow {
                    operation: "fixed upstream Bluestein padding search",
                },
            );
        }
        candidate = raised + 1;
    }
}

/// The padding of a length that no measurement covers.
#[verifier::opaque]
pub open spec fn generic_padding(
    sequence_len: usize,
    batch_count: usize,
    precision: Precision,
    device: DeviceProfile,
) -> PlanResult<usize> {
    if !known_profile(device) {
        Err(
            VkFftError::UnsupportedKernelPath(
                "fixed upstream Bluestein padding requires a known GPU scheduler profile",
            ),
        )
    } else {
        match padding_or_overflow(least_padding(sequence_len)) {
            Err(error) => Err(error),
            Ok(required) => match checked_mul(
                sequence_len,
                batch_count,
                "fixed upstream Bluestein RHS estimate",
            ) {
                Err(error) => Err(error),
                Ok(max_rhs) => {
                    let bytes = if is_power_of_two(sequence_len) {
                        device.shared_memory_pow2_bytes
                    } else {
                        device.shared_memory_bytes
                    };
                    padding_from(
                        required,
                        sequence_len,
                        required,
                        max_rhs,
                        quotient(bytes, precision.compute_complex_bytes()),
                        precision,
                    )
                },
            },
        }
    }
}

pub fn upstream_bluestein_generic_padding(
    sequence_len: usize,
    batch_count: usize,
    precision: Precision,
    device: DeviceProfile,
) -> (planned: PlanResult<usize>)
    ensures
        planned == generic_padding(sequence_len, batch_count, precision, device),
{
    reveal(generic_padding);
    if !has_fixed_upstream_gpu_scheduler_profile(device) {
        return Err(
            VkFftError::UnsupportedKernelPath(
                "fixed upstream Bluestein padding requires a known GPU scheduler profile",
            ),
        );
    }
    let required: usize = padding_or_overflow(least_padding(sequence_len))?;
    let max_rhs: usize = checked_mul(
        sequence_len,
        batch_count,
        "fixed upstream Bluestein RHS estimate",
    )?;
    let bytes: usize = if is_power_of_two(sequence_len) {
        device.shared_memory_pow2_bytes
    } else {
        device.shared_memory_bytes
    };
    search_padding(
        required,
        sequence_len,
        required,
        max_rhs,
        quotient(bytes, precision.compute_complex_bytes()),
        precision,
    )
}

/// A length that fits, else the overflow.
#[verifier::allow_in_spec]
pub fn padding_or_overflow(padding: Option<usize>) -> PlanResult<usize>
    returns
        (match padding {
            Some(length) => Ok(length),
            None => Err(
                VkFftError::ArithmeticOverflow {
                    operation: "fixed upstream Bluestein minimum padded length",
                },
            ),
        }),
{
    match padding {
        Some(length) => Ok(length),
        None => Err(
            VkFftError::ArithmeticOverflow {
                operation: "fixed upstream Bluestein minimum padded length",
            },
        ),
    }
}

/// The padded length of a Bluestein convolution: the measured one, else a searched one.
pub open spec fn auto_padding(
    sequence_len: usize,
    batch_count: usize,
    precision: Precision,
    device: DeviceProfile,
) -> PlanResult<usize> {
    match table_padding(sequence_len, precision, device) {
        Some(padded) => Ok(padded),
        None => generic_padding(sequence_len, batch_count, precision, device),
    }
}

pub fn upstream_bluestein_auto_padding(
    sequence_len: usize,
    batch_count: usize,
    precision: Precision,
    device: DeviceProfile,
) -> (padded: PlanResult<usize>)
    ensures
        padded == auto_padding(sequence_len, batch_count, precision, device),
{
    match upstream_bluestein_auto_padding_from_table(sequence_len, precision, device) {
        Some(padded) => Ok(padded),
        None => upstream_bluestein_generic_padding(sequence_len, batch_count, precision, device),
    }
}

proof fn searched_padding_is_accepted(
    candidate: usize,
    sequence_len: usize,
    required: usize,
    max_rhs: usize,
    shared: usize,
    precision: Precision,
)
    ensures
        padding_from(candidate, sequence_len, required, max_rhs, shared, precision) matches Ok(
            padded,
        ) ==> padded >= candidate && small_radix_smooth(padded),
    decreases usize::MAX - candidate,
{
    crate::arith::pow2_at_least_is_least(candidate as int);
    if let Ok(raised) = raised_candidate(candidate, sequence_len, required, shared) {
        if raised < usize::MAX {
            searched_padding_is_accepted(
                (raised + 1) as usize,
                sequence_len,
                required,
                max_rhs,
                shared,
                precision,
            );
        }
    }
}

/// A Bluestein convolution is never too short: every padding is at least `2 n - 1`.
pub proof fn auto_padding_covers_the_convolution(
    sequence_len: usize,
    batch_count: usize,
    precision: Precision,
    device: DeviceProfile,
)
    ensures
        auto_padding(sequence_len, batch_count, precision, device) matches Ok(padded) ==> padded
            >= 2 * sequence_len - 1,
{
    reveal(table_padding);
    reveal(generic_padding);
    if let Some(required) = least_padding(sequence_len) {
        let bytes = if is_power_of_two(sequence_len) {
            device.shared_memory_pow2_bytes
        } else {
            device.shared_memory_bytes
        };
        searched_padding_is_accepted(
            required,
            sequence_len,
            required,
            (sequence_len * batch_count) as usize,
            quotient(bytes, precision.compute_complex_bytes()),
            precision,
        );
    }
}

/// A searched padding has no prime factor above 7.
pub proof fn generic_padding_is_smooth(
    sequence_len: usize,
    batch_count: usize,
    precision: Precision,
    device: DeviceProfile,
)
    ensures
        generic_padding(sequence_len, batch_count, precision, device) matches Ok(padded)
            ==> small_radix_smooth(padded),
{
    reveal(generic_padding);
    if let Some(required) = least_padding(sequence_len) {
        let bytes = if is_power_of_two(sequence_len) {
            device.shared_memory_pow2_bytes
        } else {
            device.shared_memory_bytes
        };
        searched_padding_is_accepted(
            required,
            sequence_len,
            required,
            (sequence_len * batch_count) as usize,
            quotient(bytes, precision.compute_complex_bytes()),
            precision,
        );
    }
}

} // verus!
