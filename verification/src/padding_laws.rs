//! What Bluestein paddings are: rows of the measured tables, or the first good length of a
//! search. Every one covers the convolution and has a register schedule.

use vstd::arithmetic::power::pow;
use vstd::prelude::*;

use crate::arith::{
    is_pow2, is_power_of_two, pow2_at_least, pow2_at_least_is_least, stripped, stripped_times_power,
    umax,
};
use crate::axis_block::quotient;
use crate::bluestein::{
    auto_padding, generic_padding, known_profile, least_padding, nvidia_single_padding,
    nvidia_wide_padding, other_single_padding, other_wide_padding, padding_accepted, padding_from,
    padding_is_good, raised_candidate, table_padding,
};
use crate::config::{DeviceProfile, GpuVendor, Precision};
use crate::quad::quad_factors;
use crate::radix_laws::{
    every_power_of_two_has_a_schedule, every_smooth_length_has_a_schedule, exponents_of,
    small_exponents_multiply, Exponents,
};
use crate::registers::{power_of_two_schedule, small_exponents, small_mixed_schedule, small_rest};

verus! {

/// Measured rows of NVIDIA devices with tabled twiddles: the shortest length of each, and its
/// padding.
pub open spec fn nvidia_wide_rows() -> Seq<(int, int)> {
    seq![
        (17, 36),
        (19, 40),
        (23, 48),
        (29, 64),
        (34, 70),
        (37, 80),
        (41, 90),
        (46, 96),
        (51, 104),
        (53, 128),
        (67, 144),
        (73, 160),
        (82, 256),
        (129, 288),
        (145, 512),
        (257, 625),
        (314, 750),
        (376, 756),
        (379, 768),
        (386, 1024),
        (513, 1056),
        (529, 1200),
        (601, 1225),
        (614, 1250),
        (626, 1296),
        (649, 1331),
        (667, 1440),
        (721, 1456),
        (730, 1560),
        (781, 2048),
        (1025, 2187),
        (1095, 2304),
        (1153, 2688),
        (1345, 2730),
        (1366, 2925),
        (1464, 3000),
        (1501, 4096),
        (2049, 4368),
        (2185, 4608),
        (2305, 4900),
        (2364, 4900),
        (2451, 5184),
        (2593, 5625),
        (2814, 5760),
        (2881, 6000),
        (3001, 6048),
        (3026, 6144),
        (3073, 6561),
        (3282, 8192),
    ]
}

/// Measured rows of NVIDIA devices with computed twiddles: the shortest length of each, and its
/// padding.
pub open spec fn nvidia_single_rows() -> Seq<(int, int)> {
    seq![
        (17, 36),
        (19, 40),
        (23, 48),
        (29, 64),
        (34, 70),
        (37, 80),
        (41, 96),
        (51, 104),
        (53, 112),
        (57, 120),
        (61, 128),
        (67, 144),
        (73, 150),
        (76, 160),
        (82, 256),
        (129, 384),
        (193, 512),
        (257, 567),
        (285, 625),
        (314, 768),
        (386, 832),
        (417, 1024),
        (513, 1152),
        (577, 1200),
        (601, 1296),
        (649, 1536),
        (769, 2048),
        (1025, 2187),
        (1095, 2304),
        (1153, 2500),
        (1251, 2592),
        (1297, 2816),
        (1409, 3072),
        (1537, 4096),
        (2049, 4368),
        (2185, 4563),
        (2283, 4576),
        (2289, 4608),
        (2305, 5184),
        (2593, 5625),
        (2814, 5632),
        (2817, 6000),
        (3001, 6144),
        (3073, 6561),
        (3282, 8192),
    ]
}

/// Measured rows of other devices with tabled twiddles: the shortest length of each, and its
/// padding.
pub open spec fn other_wide_rows() -> Seq<(int, int)> {
    seq![
        (17, 36),
        (19, 40),
        (23, 56),
        (29, 64),
        (34, 70),
        (37, 78),
        (41, 81),
        (43, 90),
        (46, 125),
        (67, 150),
        (76, 175),
        (89, 189),
        (97, 198),
        (101, 243),
        (123, 256),
        (129, 270),
        (136, 512),
        (257, 625),
        (314, 640),
        (321, 702),
        (353, 750),
        (376, 756),
        (379, 768),
        (386, 875),
        (439, 1024),
        (513, 1296),
        (649, 1300),
        (651, 1323),
        (663, 1344),
        (673, 1512),
        (757, 1792),
        (897, 2016),
        (1009, 2048),
        (1025, 2187),
        (1095, 3136),
        (1569, 3159),
        (1581, 3430),
        (1717, 3584),
        (1793, 4096),
        (2049, 4224),
        (2113, 4375),
        (2189, 4480),
        (2241, 4704),
        (2353, 4928),
        (2465, 4992),
        (2497, 5005),
        (2504, 5103),
        (2553, 5376),
        (2689, 5632),
        (2817, 5824),
        (2913, 6048),
        (3026, 6144),
        (3073, 6875),
        (3439, 8192),
    ]
}

/// Measured rows of other devices with computed twiddles: the shortest length of each, and its
/// padding.
pub open spec fn other_single_rows() -> Seq<(int, int)> {
    seq![
        (17, 36),
        (19, 42),
        (23, 64),
        (34, 81),
        (43, 88),
        (46, 125),
        (67, 150),
        (76, 162),
        (82, 175),
        (89, 256),
        (129, 512),
        (257, 625),
        (314, 768),
        (386, 1024),
        (513, 1296),
        (649, 2048),
        (1025, 2187),
        (1095, 2304),
        (1153, 2500),
        (1251, 2592),
        (1297, 3072),
        (1537, 3125),
        (1564, 3136),
        (1569, 4096),
        (2049, 4375),
        (2189, 4608),
        (2305, 5184),
        (2593, 6561),
        (3282, 8192),
    ]
}

/// The measured rows of a device and a precision: two tables for NVIDIA devices and two for
/// all others, one of each for the precisions whose twiddles are tabled.
pub open spec fn measured_rows(precision: Precision, device: DeviceProfile) -> Seq<(int, int)> {
    if precision == Precision::F32 || precision == Precision::F16StorageF32Compute {
        if device.vendor == GpuVendor::Nvidia {
            nvidia_single_rows()
        } else {
            other_single_rows()
        }
    } else if device.vendor == GpuVendor::Nvidia {
        nvidia_wide_rows()
    } else {
        other_wide_rows()
    }
}

/// Whether a row is the one whose range holds a length: from its own shortest length to the
/// next row's, and without end for the last row.
pub open spec fn row_holds(rows: Seq<(int, int)>, len: int, row: int) -> bool {
    &&& 0 <= row < rows.len()
    &&& rows[row].0 <= len
    &&& row + 1 < rows.len() ==> len < rows[row + 1].0
}

/// Whether a length has no prime factor above 13.
pub open spec fn thirteen_smooth(len: int) -> bool {
    exists|e: Exponents| #[trigger] e.value() == len && e.nonnegative()
}

proof fn stripping_passes_a_factor(value: int, prime: int, factor: int)
    requires
        value > 0,
        prime == 2 && (factor == 3 || factor == 5 || factor == 7 || factor == 11 || factor == 13)
            || prime == 3 && (factor == 5 || factor == 7 || factor == 11 || factor == 13) || prime
            == 5 && (factor == 7 || factor == 11 || factor == 13) || prime == 7 && (factor == 11
            || factor == 13) || prime == 11 && factor == 13,
    ensures
        stripped(factor * value, prime) == factor * stripped(value, prime),
    decreases value,
{
    assert(factor * value > 0) by (nonlinear_arith)
        requires
            factor > 0,
            value > 0,
    ;
    let rest = value / prime;
    assert((factor * value) % prime == 0 <==> value % prime == 0);
    if value % prime == 0 {
        assert(value == prime * rest);
        assert(factor * value == prime * (factor * rest)) by (nonlinear_arith)
            requires
                value == prime * rest,
        ;
        assert((factor * value) / prime == factor * rest);
        stripping_passes_a_factor(rest, prime, factor);
    }
}

proof fn stripping_takes_a_factor(value: int, factor: int)
    requires
        value > 0,
        factor == 2 || factor == 3 || factor == 5 || factor == 7 || factor == 11 || factor == 13,
    ensures
        stripped(factor * value, factor) == stripped(value, factor),
{
    assert((factor * value) % factor == 0 && (factor * value) / factor == value);
}

proof fn one_is_smooth()
    ensures
        small_rest(1) == 1,
{
    reveal(small_rest);
}

/// A smooth length stays smooth when it is multiplied by a prime from 2 to 13.
proof fn multiplying_keeps_smooth(value: int, factor: int)
    requires
        value > 0,
        small_rest(value) == 1,
        factor == 2 || factor == 3 || factor == 5 || factor == 7 || factor == 11 || factor == 13,
    ensures
        small_rest(factor * value) == 1,
{
    reveal(small_rest);
    let a = stripped(value, 2);
    stripped_times_power(value, 2);
    let b = stripped(a, 3);
    stripped_times_power(a, 3);
    let c = stripped(b, 5);
    stripped_times_power(b, 5);
    let d = stripped(c, 7);
    stripped_times_power(c, 7);
    let f = stripped(d, 11);
    stripped_times_power(d, 11);
    if factor == 2 {
        stripping_takes_a_factor(value, 2);
    } else {
        stripping_passes_a_factor(value, 2, factor);
        if factor == 3 {
            stripping_takes_a_factor(a, 3);
        } else {
            stripping_passes_a_factor(a, 3, factor);
            if factor == 5 {
                stripping_takes_a_factor(b, 5);
            } else {
                stripping_passes_a_factor(b, 5, factor);
                if factor == 7 {
                    stripping_takes_a_factor(c, 7);
                } else {
                    stripping_passes_a_factor(c, 7, factor);
                    if factor == 11 {
                        stripping_takes_a_factor(d, 11);
                    } else {
                        stripping_passes_a_factor(d, 11, factor);
                        stripping_takes_a_factor(f, 13);
                    }
                }
            }
        }
    }
}

proof fn nvidia_wide_paddings_are_smooth(sequence_len: usize)
    ensures
        nvidia_wide_padding(sequence_len) matches Some(padded) ==> padded >= 36 && small_rest(
            padded as int,
        ) == 1,
{
    one_is_smooth();
    multiplying_keeps_smooth(1, 3);
    multiplying_keeps_smooth(3, 3);
    multiplying_keeps_smooth(9, 2);
    multiplying_keeps_smooth(18, 2);
    multiplying_keeps_smooth(1, 5);
    multiplying_keeps_smooth(5, 2);
    multiplying_keeps_smooth(10, 2);
    multiplying_keeps_smooth(20, 2);
    multiplying_keeps_smooth(3, 2);
    multiplying_keeps_smooth(6, 2);
    multiplying_keeps_smooth(12, 2);
    multiplying_keeps_smooth(24, 2);
    multiplying_keeps_smooth(1, 2);
    multiplying_keeps_smooth(2, 2);
    multiplying_keeps_smooth(4, 2);
    multiplying_keeps_smooth(8, 2);
    multiplying_keeps_smooth(16, 2);
    multiplying_keeps_smooth(32, 2);
    multiplying_keeps_smooth(1, 7);
    multiplying_keeps_smooth(7, 5);
    multiplying_keeps_smooth(35, 2);
    multiplying_keeps_smooth(40, 2);
    multiplying_keeps_smooth(5, 3);
    multiplying_keeps_smooth(15, 3);
    multiplying_keeps_smooth(45, 2);
    multiplying_keeps_smooth(48, 2);
    multiplying_keeps_smooth(1, 13);
    multiplying_keeps_smooth(13, 2);
    multiplying_keeps_smooth(26, 2);
    multiplying_keeps_smooth(52, 2);
    multiplying_keeps_smooth(64, 2);
    multiplying_keeps_smooth(36, 2);
    multiplying_keeps_smooth(72, 2);
    multiplying_keeps_smooth(80, 2);
    multiplying_keeps_smooth(128, 2);
    multiplying_keeps_smooth(144, 2);
    multiplying_keeps_smooth(256, 2);
    multiplying_keeps_smooth(5, 5);
    multiplying_keeps_smooth(25, 5);
    multiplying_keeps_smooth(125, 5);
    multiplying_keeps_smooth(125, 3);
    multiplying_keeps_smooth(375, 2);
    multiplying_keeps_smooth(7, 3);
    multiplying_keeps_smooth(21, 3);
    multiplying_keeps_smooth(63, 3);
    multiplying_keeps_smooth(189, 2);
    multiplying_keeps_smooth(378, 2);
    multiplying_keeps_smooth(96, 2);
    multiplying_keeps_smooth(192, 2);
    multiplying_keeps_smooth(384, 2);
    multiplying_keeps_smooth(512, 2);
    multiplying_keeps_smooth(1, 11);
    multiplying_keeps_smooth(11, 3);
    multiplying_keeps_smooth(33, 2);
    multiplying_keeps_smooth(66, 2);
    multiplying_keeps_smooth(132, 2);
    multiplying_keeps_smooth(264, 2);
    multiplying_keeps_smooth(528, 2);
    multiplying_keeps_smooth(25, 3);
    multiplying_keeps_smooth(75, 2);
    multiplying_keeps_smooth(150, 2);
    multiplying_keeps_smooth(300, 2);
    multiplying_keeps_smooth(600, 2);
    multiplying_keeps_smooth(7, 7);
    multiplying_keeps_smooth(49, 5);
    multiplying_keeps_smooth(245, 5);
    multiplying_keeps_smooth(625, 2);
    multiplying_keeps_smooth(9, 3);
    multiplying_keeps_smooth(27, 3);
    multiplying_keeps_smooth(81, 2);
    multiplying_keeps_smooth(162, 2);
    multiplying_keeps_smooth(324, 2);
    multiplying_keeps_smooth(648, 2);
    multiplying_keeps_smooth(11, 11);
    multiplying_keeps_smooth(121, 11);
    multiplying_keeps_smooth(90, 2);
    multiplying_keeps_smooth(180, 2);
    multiplying_keeps_smooth(360, 2);
    multiplying_keeps_smooth(720, 2);
    multiplying_keeps_smooth(13, 7);
    multiplying_keeps_smooth(91, 2);
    multiplying_keeps_smooth(182, 2);
    multiplying_keeps_smooth(364, 2);
    multiplying_keeps_smooth(728, 2);
    multiplying_keeps_smooth(13, 5);
    multiplying_keeps_smooth(65, 3);
    multiplying_keeps_smooth(195, 2);
    multiplying_keeps_smooth(390, 2);
    multiplying_keeps_smooth(780, 2);
    multiplying_keeps_smooth(1024, 2);
    multiplying_keeps_smooth(81, 3);
    multiplying_keeps_smooth(243, 3);
    multiplying_keeps_smooth(729, 3);
    multiplying_keeps_smooth(288, 2);
    multiplying_keeps_smooth(576, 2);
    multiplying_keeps_smooth(1152, 2);
    multiplying_keeps_smooth(21, 2);
    multiplying_keeps_smooth(42, 2);
    multiplying_keeps_smooth(84, 2);
    multiplying_keeps_smooth(168, 2);
    multiplying_keeps_smooth(336, 2);
    multiplying_keeps_smooth(672, 2);
    multiplying_keeps_smooth(1344, 2);
    multiplying_keeps_smooth(91, 5);
    multiplying_keeps_smooth(455, 3);
    multiplying_keeps_smooth(1365, 2);
    multiplying_keeps_smooth(65, 5);
    multiplying_keeps_smooth(325, 3);
    multiplying_keeps_smooth(975, 3);
    multiplying_keeps_smooth(750, 2);
    multiplying_keeps_smooth(1500, 2);
    multiplying_keeps_smooth(2048, 2);
    multiplying_keeps_smooth(91, 3);
    multiplying_keeps_smooth(273, 2);
    multiplying_keeps_smooth(546, 2);
    multiplying_keeps_smooth(1092, 2);
    multiplying_keeps_smooth(2184, 2);
    multiplying_keeps_smooth(2304, 2);
    multiplying_keeps_smooth(1225, 2);
    multiplying_keeps_smooth(2450, 2);
    multiplying_keeps_smooth(1296, 2);
    multiplying_keeps_smooth(2592, 2);
    multiplying_keeps_smooth(625, 3);
    multiplying_keeps_smooth(1875, 3);
    multiplying_keeps_smooth(1440, 2);
    multiplying_keeps_smooth(2880, 2);
    multiplying_keeps_smooth(3000, 2);
    multiplying_keeps_smooth(756, 2);
    multiplying_keeps_smooth(1512, 2);
    multiplying_keeps_smooth(3024, 2);
    multiplying_keeps_smooth(768, 2);
    multiplying_keeps_smooth(1536, 2);
    multiplying_keeps_smooth(3072, 2);
    multiplying_keeps_smooth(2187, 3);
    multiplying_keeps_smooth(4096, 2);
}

proof fn nvidia_wide_row_is_taken(sequence_len: usize, row: int)
    requires
        row_holds(nvidia_wide_rows(), sequence_len as int, row),
    ensures
        nvidia_wide_padding(sequence_len) == Some(nvidia_wide_rows()[row].1 as usize),
        nvidia_wide_rows()[row].1 <= 8192,
{
    let rows = nvidia_wide_rows();
    assert(rows.len() == 49);
    if row == 0 {
        assert(nvidia_wide_rows()[0] == (17int, 36int) && nvidia_wide_rows()[1] == (19int, 40int));
    }
    if row == 1 {
        assert(nvidia_wide_rows()[1] == (19int, 40int) && nvidia_wide_rows()[2] == (23int, 48int));
    }
    if row == 2 {
        assert(nvidia_wide_rows()[2] == (23int, 48int) && nvidia_wide_rows()[3] == (29int, 64int));
    }
    if row == 3 {
        assert(nvidia_wide_rows()[3] == (29int, 64int) && nvidia_wide_rows()[4] == (34int, 70int));
    }
    if row == 4 {
        assert(nvidia_wide_rows()[4] == (34int, 70int) && nvidia_wide_rows()[5] == (37int, 80int));
    }
    if row == 5 {
        assert(nvidia_wide_rows()[5] == (37int, 80int) && nvidia_wide_rows()[6] == (41int, 90int));
    }
    if row == 6 {
        assert(nvidia_wide_rows()[6] == (41int, 90int) && nvidia_wide_rows()[7] == (46int, 96int));
    }
    if row == 7 {
        assert(nvidia_wide_rows()[7] == (46int, 96int) && nvidia_wide_rows()[8] == (51int, 104int));
    }
    if row == 8 {
        assert(
            nvidia_wide_rows()[8] == (51int, 104int) && nvidia_wide_rows()[9] == (53int, 128int)
        );
    }
    if row == 9 {
        assert(
            nvidia_wide_rows()[9] == (53int, 128int) && nvidia_wide_rows()[10] == (67int, 144int)
        );
    }
    if row == 10 {
        assert(
            nvidia_wide_rows()[10] == (67int, 144int) && nvidia_wide_rows()[11] == (73int, 160int)
        );
    }
    if row == 11 {
        assert(
            nvidia_wide_rows()[11] == (73int, 160int) && nvidia_wide_rows()[12] == (82int, 256int)
        );
    }
    if row == 12 {
        assert(
            nvidia_wide_rows()[12] == (82int, 256int) && nvidia_wide_rows()[13] == (129int, 288int)
        );
    }
    if row == 13 {
        assert(
            nvidia_wide_rows()[13] == (129int, 288int) && nvidia_wide_rows()[14] == (145int, 512int)
        );
    }
    if row == 14 {
        assert(
            nvidia_wide_rows()[14] == (145int, 512int) && nvidia_wide_rows()[15] == (257int, 625int)
        );
    }
    if row == 15 {
        assert(
            nvidia_wide_rows()[15] == (257int, 625int) && nvidia_wide_rows()[16] == (314int, 750int)
        );
    }
    if row == 16 {
        assert(
            nvidia_wide_rows()[16] == (314int, 750int) && nvidia_wide_rows()[17] == (376int, 756int)
        );
    }
    if row == 17 {
        assert(
            nvidia_wide_rows()[17] == (376int, 756int) && nvidia_wide_rows()[18] == (379int, 768int)
        );
    }
    if row == 18 {
        assert(
            nvidia_wide_rows()[18] == (379int, 768int)
                && nvidia_wide_rows()[19] == (386int, 1024int)
        );
    }
    if row == 19 {
        assert(
            nvidia_wide_rows()[19] == (386int, 1024int)
                && nvidia_wide_rows()[20] == (513int, 1056int)
        );
    }
    if row == 20 {
        assert(
            nvidia_wide_rows()[20] == (513int, 1056int)
                && nvidia_wide_rows()[21] == (529int, 1200int)
        );
    }
    if row == 21 {
        assert(
            nvidia_wide_rows()[21] == (529int, 1200int)
                && nvidia_wide_rows()[22] == (601int, 1225int)
        );
    }
    if row == 22 {
        assert(
            nvidia_wide_rows()[22] == (601int, 1225int)
                && nvidia_wide_rows()[23] == (614int, 1250int)
        );
    }
    if row == 23 {
        assert(
            nvidia_wide_rows()[23] == (614int, 1250int)
                && nvidia_wide_rows()[24] == (626int, 1296int)
        );
    }
    if row == 24 {
        assert(
            nvidia_wide_rows()[24] == (626int, 1296int)
                && nvidia_wide_rows()[25] == (649int, 1331int)
        );
    }
    if row == 25 {
        assert(
            nvidia_wide_rows()[25] == (649int, 1331int)
                && nvidia_wide_rows()[26] == (667int, 1440int)
        );
    }
    if row == 26 {
        assert(
            nvidia_wide_rows()[26] == (667int, 1440int)
                && nvidia_wide_rows()[27] == (721int, 1456int)
        );
    }
    if row == 27 {
        assert(
            nvidia_wide_rows()[27] == (721int, 1456int)
                && nvidia_wide_rows()[28] == (730int, 1560int)
        );
    }
    if row == 28 {
        assert(
            nvidia_wide_rows()[28] == (730int, 1560int)
                && nvidia_wide_rows()[29] == (781int, 2048int)
        );
    }
    if row == 29 {
        assert(
            nvidia_wide_rows()[29] == (781int, 2048int)
                && nvidia_wide_rows()[30] == (1025int, 2187int)
        );
    }
    if row == 30 {
        assert(
            nvidia_wide_rows()[30] == (1025int, 2187int)
                && nvidia_wide_rows()[31] == (1095int, 2304int)
        );
    }
    if row == 31 {
        assert(
            nvidia_wide_rows()[31] == (1095int, 2304int)
                && nvidia_wide_rows()[32] == (1153int, 2688int)
        );
    }
    if row == 32 {
        assert(
            nvidia_wide_rows()[32] == (1153int, 2688int)
                && nvidia_wide_rows()[33] == (1345int, 2730int)
        );
    }
    if row == 33 {
        assert(
            nvidia_wide_rows()[33] == (1345int, 2730int)
                && nvidia_wide_rows()[34] == (1366int, 2925int)
        );
    }
    if row == 34 {
        assert(
            nvidia_wide_rows()[34] == (1366int, 2925int)
                && nvidia_wide_rows()[35] == (1464int, 3000int)
        );
    }
    if row == 35 {
        assert(
            nvidia_wide_rows()[35] == (1464int, 3000int)
                && nvidia_wide_rows()[36] == (1501int, 4096int)
        );
    }
    if row == 36 {
        assert(
            nvidia_wide_rows()[36] == (1501int, 4096int)
                && nvidia_wide_rows()[37] == (2049int, 4368int)
        );
    }
    if row == 37 {
        assert(
            nvidia_wide_rows()[37] == (2049int, 4368int)
                && nvidia_wide_rows()[38] == (2185int, 4608int)
        );
    }
    if row == 38 {
        assert(
            nvidia_wide_rows()[38] == (2185int, 4608int)
                && nvidia_wide_rows()[39] == (2305int, 4900int)
        );
    }
    if row == 39 {
        assert(
            nvidia_wide_rows()[39] == (2305int, 4900int)
                && nvidia_wide_rows()[40] == (2364int, 4900int)
        );
    }
    if row == 40 {
        assert(
            nvidia_wide_rows()[40] == (2364int, 4900int)
                && nvidia_wide_rows()[41] == (2451int, 5184int)
        );
    }
    if row == 41 {
        assert(
            nvidia_wide_rows()[41] == (2451int, 5184int)
                && nvidia_wide_rows()[42] == (2593int, 5625int)
        );
    }
    if row == 42 {
        assert(
            nvidia_wide_rows()[42] == (2593int, 5625int)
                && nvidia_wide_rows()[43] == (2814int, 5760int)
        );
    }
    if row == 43 {
        assert(
            nvidia_wide_rows()[43] == (2814int, 5760int)
                && nvidia_wide_rows()[44] == (2881int, 6000int)
        );
    }
    if row == 44 {
        assert(
            nvidia_wide_rows()[44] == (2881int, 6000int)
                && nvidia_wide_rows()[45] == (3001int, 6048int)
        );
    }
    if row == 45 {
        assert(
            nvidia_wide_rows()[45] == (3001int, 6048int)
                && nvidia_wide_rows()[46] == (3026int, 6144int)
        );
    }
    if row == 46 {
        assert(
            nvidia_wide_rows()[46] == (3026int, 6144int)
                && nvidia_wide_rows()[47] == (3073int, 6561int)
        );
    }
    if row == 47 {
        assert(
            nvidia_wide_rows()[47] == (3073int, 6561int)
                && nvidia_wide_rows()[48] == (3282int, 8192int)
        );
    }
    if row == 48 {
        assert(nvidia_wide_rows()[48] == (3282int, 8192int));
    }
}

proof fn nvidia_single_paddings_are_smooth(sequence_len: usize)
    ensures
        nvidia_single_padding(sequence_len) matches Some(padded) ==> padded >= 36 && small_rest(
            padded as int,
        ) == 1,
{
    one_is_smooth();
    multiplying_keeps_smooth(1, 3);
    multiplying_keeps_smooth(3, 3);
    multiplying_keeps_smooth(9, 2);
    multiplying_keeps_smooth(18, 2);
    multiplying_keeps_smooth(1, 5);
    multiplying_keeps_smooth(5, 2);
    multiplying_keeps_smooth(10, 2);
    multiplying_keeps_smooth(20, 2);
    multiplying_keeps_smooth(3, 2);
    multiplying_keeps_smooth(6, 2);
    multiplying_keeps_smooth(12, 2);
    multiplying_keeps_smooth(24, 2);
    multiplying_keeps_smooth(1, 2);
    multiplying_keeps_smooth(2, 2);
    multiplying_keeps_smooth(4, 2);
    multiplying_keeps_smooth(8, 2);
    multiplying_keeps_smooth(16, 2);
    multiplying_keeps_smooth(32, 2);
    multiplying_keeps_smooth(1, 7);
    multiplying_keeps_smooth(7, 5);
    multiplying_keeps_smooth(35, 2);
    multiplying_keeps_smooth(40, 2);
    multiplying_keeps_smooth(48, 2);
    multiplying_keeps_smooth(1, 13);
    multiplying_keeps_smooth(13, 2);
    multiplying_keeps_smooth(26, 2);
    multiplying_keeps_smooth(52, 2);
    multiplying_keeps_smooth(7, 2);
    multiplying_keeps_smooth(14, 2);
    multiplying_keeps_smooth(28, 2);
    multiplying_keeps_smooth(56, 2);
    multiplying_keeps_smooth(5, 3);
    multiplying_keeps_smooth(15, 2);
    multiplying_keeps_smooth(30, 2);
    multiplying_keeps_smooth(60, 2);
    multiplying_keeps_smooth(64, 2);
    multiplying_keeps_smooth(36, 2);
    multiplying_keeps_smooth(72, 2);
    multiplying_keeps_smooth(5, 5);
    multiplying_keeps_smooth(25, 3);
    multiplying_keeps_smooth(75, 2);
    multiplying_keeps_smooth(80, 2);
    multiplying_keeps_smooth(128, 2);
    multiplying_keeps_smooth(96, 2);
    multiplying_keeps_smooth(192, 2);
    multiplying_keeps_smooth(256, 2);
    multiplying_keeps_smooth(7, 3);
    multiplying_keeps_smooth(21, 3);
    multiplying_keeps_smooth(63, 3);
    multiplying_keeps_smooth(189, 3);
    multiplying_keeps_smooth(25, 5);
    multiplying_keeps_smooth(125, 5);
    multiplying_keeps_smooth(384, 2);
    multiplying_keeps_smooth(104, 2);
    multiplying_keeps_smooth(208, 2);
    multiplying_keeps_smooth(416, 2);
    multiplying_keeps_smooth(512, 2);
    multiplying_keeps_smooth(144, 2);
    multiplying_keeps_smooth(288, 2);
    multiplying_keeps_smooth(576, 2);
    multiplying_keeps_smooth(150, 2);
    multiplying_keeps_smooth(300, 2);
    multiplying_keeps_smooth(600, 2);
    multiplying_keeps_smooth(9, 3);
    multiplying_keeps_smooth(27, 3);
    multiplying_keeps_smooth(81, 2);
    multiplying_keeps_smooth(162, 2);
    multiplying_keeps_smooth(324, 2);
    multiplying_keeps_smooth(648, 2);
    multiplying_keeps_smooth(768, 2);
    multiplying_keeps_smooth(1024, 2);
    multiplying_keeps_smooth(81, 3);
    multiplying_keeps_smooth(243, 3);
    multiplying_keeps_smooth(729, 3);
    multiplying_keeps_smooth(1152, 2);
    multiplying_keeps_smooth(625, 2);
    multiplying_keeps_smooth(1250, 2);
    multiplying_keeps_smooth(1296, 2);
    multiplying_keeps_smooth(1, 11);
    multiplying_keeps_smooth(11, 2);
    multiplying_keeps_smooth(22, 2);
    multiplying_keeps_smooth(44, 2);
    multiplying_keeps_smooth(88, 2);
    multiplying_keeps_smooth(176, 2);
    multiplying_keeps_smooth(352, 2);
    multiplying_keeps_smooth(704, 2);
    multiplying_keeps_smooth(1408, 2);
    multiplying_keeps_smooth(1536, 2);
    multiplying_keeps_smooth(2048, 2);
    multiplying_keeps_smooth(13, 7);
    multiplying_keeps_smooth(91, 3);
    multiplying_keeps_smooth(273, 2);
    multiplying_keeps_smooth(546, 2);
    multiplying_keeps_smooth(1092, 2);
    multiplying_keeps_smooth(2184, 2);
    multiplying_keeps_smooth(13, 13);
    multiplying_keeps_smooth(169, 3);
    multiplying_keeps_smooth(507, 3);
    multiplying_keeps_smooth(1521, 3);
    multiplying_keeps_smooth(13, 11);
    multiplying_keeps_smooth(143, 2);
    multiplying_keeps_smooth(286, 2);
    multiplying_keeps_smooth(572, 2);
    multiplying_keeps_smooth(1144, 2);
    multiplying_keeps_smooth(2288, 2);
    multiplying_keeps_smooth(2304, 2);
    multiplying_keeps_smooth(2592, 2);
    multiplying_keeps_smooth(625, 3);
    multiplying_keeps_smooth(1875, 3);
    multiplying_keeps_smooth(2816, 2);
    multiplying_keeps_smooth(125, 3);
    multiplying_keeps_smooth(375, 2);
    multiplying_keeps_smooth(750, 2);
    multiplying_keeps_smooth(1500, 2);
    multiplying_keeps_smooth(3000, 2);
    multiplying_keeps_smooth(3072, 2);
    multiplying_keeps_smooth(2187, 3);
    multiplying_keeps_smooth(4096, 2);
}

proof fn nvidia_single_row_is_taken(sequence_len: usize, row: int)
    requires
        row_holds(nvidia_single_rows(), sequence_len as int, row),
    ensures
        nvidia_single_padding(sequence_len) == Some(nvidia_single_rows()[row].1 as usize),
        nvidia_single_rows()[row].1 <= 8192,
{
    let rows = nvidia_single_rows();
    assert(rows.len() == 45);
    if row == 0 {
        assert(
            nvidia_single_rows()[0] == (17int, 36int) && nvidia_single_rows()[1] == (19int, 40int)
        );
    }
    if row == 1 {
        assert(
            nvidia_single_rows()[1] == (19int, 40int) && nvidia_single_rows()[2] == (23int, 48int)
        );
    }
    if row == 2 {
        assert(
            nvidia_single_rows()[2] == (23int, 48int) && nvidia_single_rows()[3] == (29int, 64int)
        );
    }
    if row == 3 {
        assert(
            nvidia_single_rows()[3] == (29int, 64int) && nvidia_single_rows()[4] == (34int, 70int)
        );
    }
    if row == 4 {
        assert(
            nvidia_single_rows()[4] == (34int, 70int) && nvidia_single_rows()[5] == (37int, 80int)
        );
    }
    if row == 5 {
        assert(
            nvidia_single_rows()[5] == (37int, 80int) && nvidia_single_rows()[6] == (41int, 96int)
        );
    }
    if row == 6 {
        assert(
            nvidia_single_rows()[6] == (41int, 96int) && nvidia_single_rows()[7] == (51int, 104int)
        );
    }
    if row == 7 {
        assert(
            nvidia_single_rows()[7] == (51int, 104int) && nvidia_single_rows()[8] == (53int, 112int)
        );
    }
    if row == 8 {
        assert(
            nvidia_single_rows()[8] == (53int, 112int) && nvidia_single_rows()[9] == (57int, 120int)
        );
    }
    if row == 9 {
        assert(
            nvidia_single_rows()[9] == (57int, 120int)
                && nvidia_single_rows()[10] == (61int, 128int)
        );
    }
    if row == 10 {
        assert(
            nvidia_single_rows()[10] == (61int, 128int)
                && nvidia_single_rows()[11] == (67int, 144int)
        );
    }
    if row == 11 {
        assert(
            nvidia_single_rows()[11] == (67int, 144int)
                && nvidia_single_rows()[12] == (73int, 150int)
        );
    }
    if row == 12 {
        assert(
            nvidia_single_rows()[12] == (73int, 150int)
                && nvidia_single_rows()[13] == (76int, 160int)
        );
    }
    if row == 13 {
        assert(
            nvidia_single_rows()[13] == (76int, 160int)
                && nvidia_single_rows()[14] == (82int, 256int)
        );
    }
    if row == 14 {
        assert(
            nvidia_single_rows()[14] == (82int, 256int)
                && nvidia_single_rows()[15] == (129int, 384int)
        );
    }
    if row == 15 {
        assert(
            nvidia_single_rows()[15] == (129int, 384int)
                && nvidia_single_rows()[16] == (193int, 512int)
        );
    }
    if row == 16 {
        assert(
            nvidia_single_rows()[16] == (193int, 512int)
                && nvidia_single_rows()[17] == (257int, 567int)
        );
    }
    if row == 17 {
        assert(
            nvidia_single_rows()[17] == (257int, 567int)
                && nvidia_single_rows()[18] == (285int, 625int)
        );
    }
    if row == 18 {
        assert(
            nvidia_single_rows()[18] == (285int, 625int)
                && nvidia_single_rows()[19] == (314int, 768int)
        );
    }
    if row == 19 {
        assert(
            nvidia_single_rows()[19] == (314int, 768int)
                && nvidia_single_rows()[20] == (386int, 832int)
        );
    }
    if row == 20 {
        assert(
            nvidia_single_rows()[20] == (386int, 832int)
                && nvidia_single_rows()[21] == (417int, 1024int)
        );
    }
    if row == 21 {
        assert(
            nvidia_single_rows()[21] == (417int, 1024int)
                && nvidia_single_rows()[22] == (513int, 1152int)
        );
    }
    if row == 22 {
        assert(
            nvidia_single_rows()[22] == (513int, 1152int)
                && nvidia_single_rows()[23] == (577int, 1200int)
        );
    }
    if row == 23 {
        assert(
            nvidia_single_rows()[23] == (577int, 1200int)
                && nvidia_single_rows()[24] == (601int, 1296int)
        );
    }
    if row == 24 {
        assert(
            nvidia_single_rows()[24] == (601int, 1296int)
                && nvidia_single_rows()[25] == (649int, 1536int)
        );
    }
    if row == 25 {
        assert(
            nvidia_single_rows()[25] == (649int, 1536int)
                && nvidia_single_rows()[26] == (769int, 2048int)
        );
    }
    if row == 26 {
        assert(
            nvidia_single_rows()[26] == (769int, 2048int)
                && nvidia_single_rows()[27] == (1025int, 2187int)
        );
    }
    if row == 27 {
        assert(
            nvidia_single_rows()[27] == (1025int, 2187int)
                && nvidia_single_rows()[28] == (1095int, 2304int)
        );
    }
    if row == 28 {
        assert(
            nvidia_single_rows()[28] == (1095int, 2304int)
                && nvidia_single_rows()[29] == (1153int, 2500int)
        );
    }
    if row == 29 {
        assert(
            nvidia_single_rows()[29] == (1153int, 2500int)
                && nvidia_single_rows()[30] == (1251int, 2592int)
        );
    }
    if row == 30 {
        assert(
            nvidia_single_rows()[30] == (1251int, 2592int)
                && nvidia_single_rows()[31] == (1297int, 2816int)
        );
    }
    if row == 31 {
        assert(
            nvidia_single_rows()[31] == (1297int, 2816int)
                && nvidia_single_rows()[32] == (1409int, 3072int)
        );
    }
    if row == 32 {
        assert(
            nvidia_single_rows()[32] == (1409int, 3072int)
                && nvidia_single_rows()[33] == (1537int, 4096int)
        );
    }
    if row == 33 {
        assert(
            nvidia_single_rows()[33] == (1537int, 4096int)
                && nvidia_single_rows()[34] == (2049int, 4368int)
        );
    }
    if row == 34 {
        assert(
            nvidia_single_rows()[34] == (2049int, 4368int)
                && nvidia_single_rows()[35] == (2185int, 4563int)
        );
    }
    if row == 35 {
        assert(
            nvidia_single_rows()[35] == (2185int, 4563int)
                && nvidia_single_rows()[36] == (2283int, 4576int)
        );
    }
    if row == 36 {
        assert(
            nvidia_single_rows()[36] == (2283int, 4576int)
                && nvidia_single_rows()[37] == (2289int, 4608int)
        );
    }
    if row == 37 {
        assert(
            nvidia_single_rows()[37] == (2289int, 4608int)
                && nvidia_single_rows()[38] == (2305int, 5184int)
        );
    }
    if row == 38 {
        assert(
            nvidia_single_rows()[38] == (2305int, 5184int)
                && nvidia_single_rows()[39] == (2593int, 5625int)
        );
    }
    if row == 39 {
        assert(
            nvidia_single_rows()[39] == (2593int, 5625int)
                && nvidia_single_rows()[40] == (2814int, 5632int)
        );
    }
    if row == 40 {
        assert(
            nvidia_single_rows()[40] == (2814int, 5632int)
                && nvidia_single_rows()[41] == (2817int, 6000int)
        );
    }
    if row == 41 {
        assert(
            nvidia_single_rows()[41] == (2817int, 6000int)
                && nvidia_single_rows()[42] == (3001int, 6144int)
        );
    }
    if row == 42 {
        assert(
            nvidia_single_rows()[42] == (3001int, 6144int)
                && nvidia_single_rows()[43] == (3073int, 6561int)
        );
    }
    if row == 43 {
        assert(
            nvidia_single_rows()[43] == (3073int, 6561int)
                && nvidia_single_rows()[44] == (3282int, 8192int)
        );
    }
    if row == 44 {
        assert(nvidia_single_rows()[44] == (3282int, 8192int));
    }
}

proof fn other_wide_paddings_are_smooth(sequence_len: usize)
    ensures
        other_wide_padding(sequence_len) matches Some(padded) ==> padded >= 36 && small_rest(
            padded as int,
        ) == 1,
{
    one_is_smooth();
    multiplying_keeps_smooth(1, 3);
    multiplying_keeps_smooth(3, 3);
    multiplying_keeps_smooth(9, 2);
    multiplying_keeps_smooth(18, 2);
    multiplying_keeps_smooth(1, 5);
    multiplying_keeps_smooth(5, 2);
    multiplying_keeps_smooth(10, 2);
    multiplying_keeps_smooth(20, 2);
    multiplying_keeps_smooth(1, 7);
    multiplying_keeps_smooth(7, 2);
    multiplying_keeps_smooth(14, 2);
    multiplying_keeps_smooth(28, 2);
    multiplying_keeps_smooth(1, 2);
    multiplying_keeps_smooth(2, 2);
    multiplying_keeps_smooth(4, 2);
    multiplying_keeps_smooth(8, 2);
    multiplying_keeps_smooth(16, 2);
    multiplying_keeps_smooth(32, 2);
    multiplying_keeps_smooth(7, 5);
    multiplying_keeps_smooth(35, 2);
    multiplying_keeps_smooth(1, 13);
    multiplying_keeps_smooth(13, 3);
    multiplying_keeps_smooth(39, 2);
    multiplying_keeps_smooth(9, 3);
    multiplying_keeps_smooth(27, 3);
    multiplying_keeps_smooth(5, 3);
    multiplying_keeps_smooth(15, 3);
    multiplying_keeps_smooth(45, 2);
    multiplying_keeps_smooth(5, 5);
    multiplying_keeps_smooth(25, 5);
    multiplying_keeps_smooth(25, 3);
    multiplying_keeps_smooth(75, 2);
    multiplying_keeps_smooth(35, 5);
    multiplying_keeps_smooth(7, 3);
    multiplying_keeps_smooth(21, 3);
    multiplying_keeps_smooth(63, 3);
    multiplying_keeps_smooth(1, 11);
    multiplying_keeps_smooth(11, 3);
    multiplying_keeps_smooth(33, 3);
    multiplying_keeps_smooth(99, 2);
    multiplying_keeps_smooth(81, 3);
    multiplying_keeps_smooth(64, 2);
    multiplying_keeps_smooth(128, 2);
    multiplying_keeps_smooth(45, 3);
    multiplying_keeps_smooth(135, 2);
    multiplying_keeps_smooth(256, 2);
    multiplying_keeps_smooth(125, 5);
    multiplying_keeps_smooth(40, 2);
    multiplying_keeps_smooth(80, 2);
    multiplying_keeps_smooth(160, 2);
    multiplying_keeps_smooth(320, 2);
    multiplying_keeps_smooth(39, 3);
    multiplying_keeps_smooth(117, 3);
    multiplying_keeps_smooth(351, 2);
    multiplying_keeps_smooth(125, 3);
    multiplying_keeps_smooth(375, 2);
    multiplying_keeps_smooth(189, 2);
    multiplying_keeps_smooth(378, 2);
    multiplying_keeps_smooth(3, 2);
    multiplying_keeps_smooth(6, 2);
    multiplying_keeps_smooth(12, 2);
    multiplying_keeps_smooth(24, 2);
    multiplying_keeps_smooth(48, 2);
    multiplying_keeps_smooth(96, 2);
    multiplying_keeps_smooth(192, 2);
    multiplying_keeps_smooth(384, 2);
    multiplying_keeps_smooth(175, 5);
    multiplying_keeps_smooth(512, 2);
    multiplying_keeps_smooth(81, 2);
    multiplying_keeps_smooth(162, 2);
    multiplying_keeps_smooth(324, 2);
    multiplying_keeps_smooth(648, 2);
    multiplying_keeps_smooth(13, 5);
    multiplying_keeps_smooth(65, 5);
    multiplying_keeps_smooth(325, 2);
    multiplying_keeps_smooth(650, 2);
    multiplying_keeps_smooth(7, 7);
    multiplying_keeps_smooth(49, 3);
    multiplying_keeps_smooth(147, 3);
    multiplying_keeps_smooth(441, 3);
    multiplying_keeps_smooth(21, 2);
    multiplying_keeps_smooth(42, 2);
    multiplying_keeps_smooth(84, 2);
    multiplying_keeps_smooth(168, 2);
    multiplying_keeps_smooth(336, 2);
    multiplying_keeps_smooth(672, 2);
    multiplying_keeps_smooth(756, 2);
    multiplying_keeps_smooth(56, 2);
    multiplying_keeps_smooth(112, 2);
    multiplying_keeps_smooth(224, 2);
    multiplying_keeps_smooth(448, 2);
    multiplying_keeps_smooth(896, 2);
    multiplying_keeps_smooth(63, 2);
    multiplying_keeps_smooth(126, 2);
    multiplying_keeps_smooth(252, 2);
    multiplying_keeps_smooth(504, 2);
    multiplying_keeps_smooth(1008, 2);
    multiplying_keeps_smooth(1024, 2);
    multiplying_keeps_smooth(243, 3);
    multiplying_keeps_smooth(729, 3);
    multiplying_keeps_smooth(49, 2);
    multiplying_keeps_smooth(98, 2);
    multiplying_keeps_smooth(196, 2);
    multiplying_keeps_smooth(392, 2);
    multiplying_keeps_smooth(784, 2);
    multiplying_keeps_smooth(1568, 2);
    multiplying_keeps_smooth(351, 3);
    multiplying_keeps_smooth(1053, 3);
    multiplying_keeps_smooth(49, 7);
    multiplying_keeps_smooth(343, 5);
    multiplying_keeps_smooth(1715, 2);
    multiplying_keeps_smooth(1792, 2);
    multiplying_keeps_smooth(2048, 2);
    multiplying_keeps_smooth(33, 2);
    multiplying_keeps_smooth(66, 2);
    multiplying_keeps_smooth(132, 2);
    multiplying_keeps_smooth(264, 2);
    multiplying_keeps_smooth(528, 2);
    multiplying_keeps_smooth(1056, 2);
    multiplying_keeps_smooth(2112, 2);
    multiplying_keeps_smooth(875, 5);
    multiplying_keeps_smooth(70, 2);
    multiplying_keeps_smooth(140, 2);
    multiplying_keeps_smooth(280, 2);
    multiplying_keeps_smooth(560, 2);
    multiplying_keeps_smooth(1120, 2);
    multiplying_keeps_smooth(2240, 2);
    multiplying_keeps_smooth(147, 2);
    multiplying_keeps_smooth(294, 2);
    multiplying_keeps_smooth(588, 2);
    multiplying_keeps_smooth(1176, 2);
    multiplying_keeps_smooth(2352, 2);
    multiplying_keeps_smooth(11, 7);
    multiplying_keeps_smooth(77, 2);
    multiplying_keeps_smooth(154, 2);
    multiplying_keeps_smooth(308, 2);
    multiplying_keeps_smooth(616, 2);
    multiplying_keeps_smooth(1232, 2);
    multiplying_keeps_smooth(2464, 2);
    multiplying_keeps_smooth(78, 2);
    multiplying_keeps_smooth(156, 2);
    multiplying_keeps_smooth(312, 2);
    multiplying_keeps_smooth(624, 2);
    multiplying_keeps_smooth(1248, 2);
    multiplying_keeps_smooth(2496, 2);
    multiplying_keeps_smooth(13, 11);
    multiplying_keeps_smooth(143, 7);
    multiplying_keeps_smooth(1001, 5);
    multiplying_keeps_smooth(189, 3);
    multiplying_keeps_smooth(567, 3);
    multiplying_keeps_smooth(1701, 3);
    multiplying_keeps_smooth(1344, 2);
    multiplying_keeps_smooth(2688, 2);
    multiplying_keeps_smooth(11, 2);
    multiplying_keeps_smooth(22, 2);
    multiplying_keeps_smooth(44, 2);
    multiplying_keeps_smooth(88, 2);
    multiplying_keeps_smooth(176, 2);
    multiplying_keeps_smooth(352, 2);
    multiplying_keeps_smooth(704, 2);
    multiplying_keeps_smooth(1408, 2);
    multiplying_keeps_smooth(2816, 2);
    multiplying_keeps_smooth(13, 7);
    multiplying_keeps_smooth(91, 2);
    multiplying_keeps_smooth(182, 2);
    multiplying_keeps_smooth(364, 2);
    multiplying_keeps_smooth(728, 2);
    multiplying_keeps_smooth(1456, 2);
    multiplying_keeps_smooth(2912, 2);
    multiplying_keeps_smooth(1512, 2);
    multiplying_keeps_smooth(3024, 2);
    multiplying_keeps_smooth(768, 2);
    multiplying_keeps_smooth(1536, 2);
    multiplying_keeps_smooth(3072, 2);
    multiplying_keeps_smooth(11, 5);
    multiplying_keeps_smooth(55, 5);
    multiplying_keeps_smooth(275, 5);
    multiplying_keeps_smooth(1375, 5);
    multiplying_keeps_smooth(4096, 2);
}

proof fn other_wide_row_is_taken(sequence_len: usize, row: int)
    requires
        row_holds(other_wide_rows(), sequence_len as int, row),
    ensures
        other_wide_padding(sequence_len) == Some(other_wide_rows()[row].1 as usize),
        other_wide_rows()[row].1 <= 8192,
{
    let rows = other_wide_rows();
    assert(rows.len() == 54);
    if row == 0 {
        assert(other_wide_rows()[0] == (17int, 36int) && other_wide_rows()[1] == (19int, 40int));
    }
    if row == 1 {
        assert(other_wide_rows()[1] == (19int, 40int) && other_wide_rows()[2] == (23int, 56int));
    }
    if row == 2 {
        assert(other_wide_rows()[2] == (23int, 56int) && other_wide_rows()[3] == (29int, 64int));
    }
    if row == 3 {
        assert(other_wide_rows()[3] == (29int, 64int) && other_wide_rows()[4] == (34int, 70int));
    }
    if row == 4 {
        assert(other_wide_rows()[4] == (34int, 70int) && other_wide_rows()[5] == (37int, 78int));
    }
    if row == 5 {
        assert(other_wide_rows()[5] == (37int, 78int) && other_wide_rows()[6] == (41int, 81int));
    }
    if row == 6 {
        assert(other_wide_rows()[6] == (41int, 81int) && other_wide_rows()[7] == (43int, 90int));
    }
    if row == 7 {
        assert(other_wide_rows()[7] == (43int, 90int) && other_wide_rows()[8] == (46int, 125int));
    }
    if row == 8 {
        assert(other_wide_rows()[8] == (46int, 125int) && other_wide_rows()[9] == (67int, 150int));
    }
    if row == 9 {
        assert(other_wide_rows()[9] == (67int, 150int) && other_wide_rows()[10] == (76int, 175int));
    }
    if row == 10 {
        assert(
            other_wide_rows()[10] == (76int, 175int) && other_wide_rows()[11] == (89int, 189int)
        );
    }
    if row == 11 {
        assert(
            other_wide_rows()[11] == (89int, 189int) && other_wide_rows()[12] == (97int, 198int)
        );
    }
    if row == 12 {
        assert(
            other_wide_rows()[12] == (97int, 198int) && other_wide_rows()[13] == (101int, 243int)
        );
    }
    if row == 13 {
        assert(
            other_wide_rows()[13] == (101int, 243int) && other_wide_rows()[14] == (123int, 256int)
        );
    }
    if row == 14 {
        assert(
            other_wide_rows()[14] == (123int, 256int) && other_wide_rows()[15] == (129int, 270int)
        );
    }
    if row == 15 {
        assert(
            other_wide_rows()[15] == (129int, 270int) && other_wide_rows()[16] == (136int, 512int)
        );
    }
    if row == 16 {
        assert(
            other_wide_rows()[16] == (136int, 512int) && other_wide_rows()[17] == (257int, 625int)
        );
    }
    if row == 17 {
        assert(
            other_wide_rows()[17] == (257int, 625int) && other_wide_rows()[18] == (314int, 640int)
        );
    }
    if row == 18 {
        assert(
            other_wide_rows()[18] == (314int, 640int) && other_wide_rows()[19] == (321int, 702int)
        );
    }
    if row == 19 {
        assert(
            other_wide_rows()[19] == (321int, 702int) && other_wide_rows()[20] == (353int, 750int)
        );
    }
    if row == 20 {
        assert(
            other_wide_rows()[20] == (353int, 750int) && other_wide_rows()[21] == (376int, 756int)
        );
    }
    if row == 21 {
        assert(
            other_wide_rows()[21] == (376int, 756int) && other_wide_rows()[22] == (379int, 768int)
        );
    }
    if row == 22 {
        assert(
            other_wide_rows()[22] == (379int, 768int) && other_wide_rows()[23] == (386int, 875int)
        );
    }
    if row == 23 {
        assert(
            other_wide_rows()[23] == (386int, 875int) && other_wide_rows()[24] == (439int, 1024int)
        );
    }
    if row == 24 {
        assert(
            other_wide_rows()[24] == (439int, 1024int) && other_wide_rows()[25] == (513int, 1296int)
        );
    }
    if row == 25 {
        assert(
            other_wide_rows()[25] == (513int, 1296int) && other_wide_rows()[26] == (649int, 1300int)
        );
    }
    if row == 26 {
        assert(
            other_wide_rows()[26] == (649int, 1300int) && other_wide_rows()[27] == (651int, 1323int)
        );
    }
    if row == 27 {
        assert(
            other_wide_rows()[27] == (651int, 1323int) && other_wide_rows()[28] == (663int, 1344int)
        );
    }
    if row == 28 {
        assert(
            other_wide_rows()[28] == (663int, 1344int) && other_wide_rows()[29] == (673int, 1512int)
        );
    }
    if row == 29 {
        assert(
            other_wide_rows()[29] == (673int, 1512int) && other_wide_rows()[30] == (757int, 1792int)
        );
    }
    if row == 30 {
        assert(
            other_wide_rows()[30] == (757int, 1792int) && other_wide_rows()[31] == (897int, 2016int)
        );
    }
    if row == 31 {
        assert(
            other_wide_rows()[31] == (897int, 2016int)
                && other_wide_rows()[32] == (1009int, 2048int)
        );
    }
    if row == 32 {
        assert(
            other_wide_rows()[32] == (1009int, 2048int)
                && other_wide_rows()[33] == (1025int, 2187int)
        );
    }
    if row == 33 {
        assert(
            other_wide_rows()[33] == (1025int, 2187int)
                && other_wide_rows()[34] == (1095int, 3136int)
        );
    }
    if row == 34 {
        assert(
            other_wide_rows()[34] == (1095int, 3136int)
                && other_wide_rows()[35] == (1569int, 3159int)
        );
    }
    if row == 35 {
        assert(
            other_wide_rows()[35] == (1569int, 3159int)
                && other_wide_rows()[36] == (1581int, 3430int)
        );
    }
    if row == 36 {
        assert(
            other_wide_rows()[36] == (1581int, 3430int)
                && other_wide_rows()[37] == (1717int, 3584int)
        );
    }
    if row == 37 {
        assert(
            other_wide_rows()[37] == (1717int, 3584int)
                && other_wide_rows()[38] == (1793int, 4096int)
        );
    }
    if row == 38 {
        assert(
            other_wide_rows()[38] == (1793int, 4096int)
                && other_wide_rows()[39] == (2049int, 4224int)
        );
    }
    if row == 39 {
        assert(
            other_wide_rows()[39] == (2049int, 4224int)
                && other_wide_rows()[40] == (2113int, 4375int)
        );
    }
    if row == 40 {
        assert(
            other_wide_rows()[40] == (2113int, 4375int)
                && other_wide_rows()[41] == (2189int, 4480int)
        );
    }
    if row == 41 {
        assert(
            other_wide_rows()[41] == (2189int, 4480int)
                && other_wide_rows()[42] == (2241int, 4704int)
        );
    }
    if row == 42 {
        assert(
            other_wide_rows()[42] == (2241int, 4704int)
                && other_wide_rows()[43] == (2353int, 4928int)
        );
    }
    if row == 43 {
        assert(
            other_wide_rows()[43] == (2353int, 4928int)
                && other_wide_rows()[44] == (2465int, 4992int)
        );
    }
    if row == 44 {
        assert(
            other_wide_rows()[44] == (2465int, 4992int)
                && other_wide_rows()[45] == (2497int, 5005int)
        );
    }
    if row == 45 {
        assert(
            other_wide_rows()[45] == (2497int, 5005int)
                && other_wide_rows()[46] == (2504int, 5103int)
        );
    }
    if row == 46 {
        assert(
            other_wide_rows()[46] == (2504int, 5103int)
                && other_wide_rows()[47] == (2553int, 5376int)
        );
    }
    if row == 47 {
        assert(
            other_wide_rows()[47] == (2553int, 5376int)
                && other_wide_rows()[48] == (2689int, 5632int)
        );
    }
    if row == 48 {
        assert(
            other_wide_rows()[48] == (2689int, 5632int)
                && other_wide_rows()[49] == (2817int, 5824int)
        );
    }
    if row == 49 {
        assert(
            other_wide_rows()[49] == (2817int, 5824int)
                && other_wide_rows()[50] == (2913int, 6048int)
        );
    }
    if row == 50 {
        assert(
            other_wide_rows()[50] == (2913int, 6048int)
                && other_wide_rows()[51] == (3026int, 6144int)
        );
    }
    if row == 51 {
        assert(
            other_wide_rows()[51] == (3026int, 6144int)
                && other_wide_rows()[52] == (3073int, 6875int)
        );
    }
    if row == 52 {
        assert(
            other_wide_rows()[52] == (3073int, 6875int)
                && other_wide_rows()[53] == (3439int, 8192int)
        );
    }
    if row == 53 {
        assert(other_wide_rows()[53] == (3439int, 8192int));
    }
}

proof fn other_single_paddings_are_smooth(sequence_len: usize)
    ensures
        other_single_padding(sequence_len) matches Some(padded) ==> padded >= 36 && small_rest(
            padded as int,
        ) == 1,
{
    one_is_smooth();
    multiplying_keeps_smooth(1, 3);
    multiplying_keeps_smooth(3, 3);
    multiplying_keeps_smooth(9, 2);
    multiplying_keeps_smooth(18, 2);
    multiplying_keeps_smooth(1, 7);
    multiplying_keeps_smooth(7, 3);
    multiplying_keeps_smooth(21, 2);
    multiplying_keeps_smooth(1, 2);
    multiplying_keeps_smooth(2, 2);
    multiplying_keeps_smooth(4, 2);
    multiplying_keeps_smooth(8, 2);
    multiplying_keeps_smooth(16, 2);
    multiplying_keeps_smooth(32, 2);
    multiplying_keeps_smooth(9, 3);
    multiplying_keeps_smooth(27, 3);
    multiplying_keeps_smooth(1, 11);
    multiplying_keeps_smooth(11, 2);
    multiplying_keeps_smooth(22, 2);
    multiplying_keeps_smooth(44, 2);
    multiplying_keeps_smooth(1, 5);
    multiplying_keeps_smooth(5, 5);
    multiplying_keeps_smooth(25, 5);
    multiplying_keeps_smooth(25, 3);
    multiplying_keeps_smooth(75, 2);
    multiplying_keeps_smooth(81, 2);
    multiplying_keeps_smooth(7, 5);
    multiplying_keeps_smooth(35, 5);
    multiplying_keeps_smooth(64, 2);
    multiplying_keeps_smooth(128, 2);
    multiplying_keeps_smooth(256, 2);
    multiplying_keeps_smooth(125, 5);
    multiplying_keeps_smooth(3, 2);
    multiplying_keeps_smooth(6, 2);
    multiplying_keeps_smooth(12, 2);
    multiplying_keeps_smooth(24, 2);
    multiplying_keeps_smooth(48, 2);
    multiplying_keeps_smooth(96, 2);
    multiplying_keeps_smooth(192, 2);
    multiplying_keeps_smooth(384, 2);
    multiplying_keeps_smooth(512, 2);
    multiplying_keeps_smooth(162, 2);
    multiplying_keeps_smooth(324, 2);
    multiplying_keeps_smooth(648, 2);
    multiplying_keeps_smooth(1024, 2);
    multiplying_keeps_smooth(81, 3);
    multiplying_keeps_smooth(243, 3);
    multiplying_keeps_smooth(729, 3);
    multiplying_keeps_smooth(36, 2);
    multiplying_keeps_smooth(72, 2);
    multiplying_keeps_smooth(144, 2);
    multiplying_keeps_smooth(288, 2);
    multiplying_keeps_smooth(576, 2);
    multiplying_keeps_smooth(1152, 2);
    multiplying_keeps_smooth(625, 2);
    multiplying_keeps_smooth(1250, 2);
    multiplying_keeps_smooth(1296, 2);
    multiplying_keeps_smooth(768, 2);
    multiplying_keeps_smooth(1536, 2);
    multiplying_keeps_smooth(625, 5);
    multiplying_keeps_smooth(7, 7);
    multiplying_keeps_smooth(49, 2);
    multiplying_keeps_smooth(98, 2);
    multiplying_keeps_smooth(196, 2);
    multiplying_keeps_smooth(392, 2);
    multiplying_keeps_smooth(784, 2);
    multiplying_keeps_smooth(1568, 2);
    multiplying_keeps_smooth(2048, 2);
    multiplying_keeps_smooth(175, 5);
    multiplying_keeps_smooth(875, 5);
    multiplying_keeps_smooth(2304, 2);
    multiplying_keeps_smooth(2592, 2);
    multiplying_keeps_smooth(2187, 3);
    multiplying_keeps_smooth(4096, 2);
}

proof fn other_single_row_is_taken(sequence_len: usize, row: int)
    requires
        row_holds(other_single_rows(), sequence_len as int, row),
    ensures
        other_single_padding(sequence_len) == Some(other_single_rows()[row].1 as usize),
        other_single_rows()[row].1 <= 8192,
{
    let rows = other_single_rows();
    assert(rows.len() == 29);
    if row == 0 {
        assert(
            other_single_rows()[0] == (17int, 36int) && other_single_rows()[1] == (19int, 42int)
        );
    }
    if row == 1 {
        assert(
            other_single_rows()[1] == (19int, 42int) && other_single_rows()[2] == (23int, 64int)
        );
    }
    if row == 2 {
        assert(
            other_single_rows()[2] == (23int, 64int) && other_single_rows()[3] == (34int, 81int)
        );
    }
    if row == 3 {
        assert(
            other_single_rows()[3] == (34int, 81int) && other_single_rows()[4] == (43int, 88int)
        );
    }
    if row == 4 {
        assert(
            other_single_rows()[4] == (43int, 88int) && other_single_rows()[5] == (46int, 125int)
        );
    }
    if row == 5 {
        assert(
            other_single_rows()[5] == (46int, 125int) && other_single_rows()[6] == (67int, 150int)
        );
    }
    if row == 6 {
        assert(
            other_single_rows()[6] == (67int, 150int) && other_single_rows()[7] == (76int, 162int)
        );
    }
    if row == 7 {
        assert(
            other_single_rows()[7] == (76int, 162int) && other_single_rows()[8] == (82int, 175int)
        );
    }
    if row == 8 {
        assert(
            other_single_rows()[8] == (82int, 175int) && other_single_rows()[9] == (89int, 256int)
        );
    }
    if row == 9 {
        assert(
            other_single_rows()[9] == (89int, 256int) && other_single_rows()[10] == (129int, 512int)
        );
    }
    if row == 10 {
        assert(
            other_single_rows()[10] == (129int, 512int)
                && other_single_rows()[11] == (257int, 625int)
        );
    }
    if row == 11 {
        assert(
            other_single_rows()[11] == (257int, 625int)
                && other_single_rows()[12] == (314int, 768int)
        );
    }
    if row == 12 {
        assert(
            other_single_rows()[12] == (314int, 768int)
                && other_single_rows()[13] == (386int, 1024int)
        );
    }
    if row == 13 {
        assert(
            other_single_rows()[13] == (386int, 1024int)
                && other_single_rows()[14] == (513int, 1296int)
        );
    }
    if row == 14 {
        assert(
            other_single_rows()[14] == (513int, 1296int)
                && other_single_rows()[15] == (649int, 2048int)
        );
    }
    if row == 15 {
        assert(
            other_single_rows()[15] == (649int, 2048int)
                && other_single_rows()[16] == (1025int, 2187int)
        );
    }
    if row == 16 {
        assert(
            other_single_rows()[16] == (1025int, 2187int)
                && other_single_rows()[17] == (1095int, 2304int)
        );
    }
    if row == 17 {
        assert(
            other_single_rows()[17] == (1095int, 2304int)
                && other_single_rows()[18] == (1153int, 2500int)
        );
    }
    if row == 18 {
        assert(
            other_single_rows()[18] == (1153int, 2500int)
                && other_single_rows()[19] == (1251int, 2592int)
        );
    }
    if row == 19 {
        assert(
            other_single_rows()[19] == (1251int, 2592int)
                && other_single_rows()[20] == (1297int, 3072int)
        );
    }
    if row == 20 {
        assert(
            other_single_rows()[20] == (1297int, 3072int)
                && other_single_rows()[21] == (1537int, 3125int)
        );
    }
    if row == 21 {
        assert(
            other_single_rows()[21] == (1537int, 3125int)
                && other_single_rows()[22] == (1564int, 3136int)
        );
    }
    if row == 22 {
        assert(
            other_single_rows()[22] == (1564int, 3136int)
                && other_single_rows()[23] == (1569int, 4096int)
        );
    }
    if row == 23 {
        assert(
            other_single_rows()[23] == (1569int, 4096int)
                && other_single_rows()[24] == (2049int, 4375int)
        );
    }
    if row == 24 {
        assert(
            other_single_rows()[24] == (2049int, 4375int)
                && other_single_rows()[25] == (2189int, 4608int)
        );
    }
    if row == 25 {
        assert(
            other_single_rows()[25] == (2189int, 4608int)
                && other_single_rows()[26] == (2305int, 5184int)
        );
    }
    if row == 26 {
        assert(
            other_single_rows()[26] == (2305int, 5184int)
                && other_single_rows()[27] == (2593int, 6561int)
        );
    }
    if row == 27 {
        assert(
            other_single_rows()[27] == (2593int, 6561int)
                && other_single_rows()[28] == (3282int, 8192int)
        );
    }
    if row == 28 {
        assert(other_single_rows()[28] == (3282int, 8192int));
    }
}

proof fn some_row_holds(rows: Seq<(int, int)>, len: int, from: int) -> (row: int)
    requires
        0 <= from < rows.len(),
        rows[from].0 <= len,
    ensures
        row_holds(rows, len, row),
    decreases rows.len() - from,
{
    if from + 1 < rows.len() && rows[from + 1].0 <= len {
        some_row_holds(rows, len, from + 1)
    } else {
        from
    }
}

/// A measured padding is the row of its device's and precision's table whose range holds the
/// length, where that row is long enough. No other length has one, and no unknown device.
pub proof fn measured_paddings_are_the_rows_that_hold(
    sequence_len: usize,
    precision: Precision,
    device: DeviceProfile,
)
    ensures
        table_padding(sequence_len, precision, device) matches Some(padded) ==> {
            &&& known_profile(device)
            &&& 2 * sequence_len - 1 <= padded
            &&& exists|row: int| #[trigger]
                row_holds(measured_rows(precision, device), sequence_len as int, row)
                    && measured_rows(precision, device)[row].1 == padded
        },
        forall|row: int|
            known_profile(device) && #[trigger] row_holds(
                measured_rows(precision, device),
                sequence_len as int,
                row,
            ) && 2 * sequence_len - 1 <= measured_rows(precision, device)[row].1 ==> table_padding(
                sequence_len,
                precision,
                device,
            ) == Some(measured_rows(precision, device)[row].1 as usize),
{
    reveal(table_padding);
    let rows = measured_rows(precision, device);
    let len = sequence_len as int;
    assert forall|row: int| #[trigger] row_holds(rows, len, row) implies {
        &&& sequence_len >= 17
        &&& rows[row].1 <= 8192
        &&& measured_padding(sequence_len, precision, device) == Some(rows[row].1 as usize)
    } by {
        row_is_taken(sequence_len, precision, device, row);
    }
    if sequence_len >= 17 {
        assert(rows[0].0 == 17);
        let row = some_row_holds(rows, len, 0);
        assert(row_holds(rows, len, row));
    }
}

/// The padding a table gives before it is held against the convolution.
spec fn measured_padding(
    sequence_len: usize,
    precision: Precision,
    device: DeviceProfile,
) -> Option<usize> {
    if device.vendor == GpuVendor::Nvidia {
        if crate::policy::precision_uses_lut(precision) {
            nvidia_wide_padding(sequence_len)
        } else {
            nvidia_single_padding(sequence_len)
        }
    } else if crate::policy::precision_uses_lut(precision) {
        other_wide_padding(sequence_len)
    } else {
        other_single_padding(sequence_len)
    }
}

proof fn row_is_taken(
    sequence_len: usize,
    precision: Precision,
    device: DeviceProfile,
    row: int,
)
    requires
        row_holds(measured_rows(precision, device), sequence_len as int, row),
    ensures
        sequence_len >= 17,
        measured_rows(precision, device)[row].1 <= 8192,
        measured_padding(sequence_len, precision, device) == Some(
            measured_rows(precision, device)[row].1 as usize,
        ),
{
    if precision == Precision::F32 || precision == Precision::F16StorageF32Compute {
        if device.vendor == GpuVendor::Nvidia {
            nvidia_single_row_is_taken(sequence_len, row);
        } else {
            other_single_row_is_taken(sequence_len, row);
        }
    } else if device.vendor == GpuVendor::Nvidia {
        nvidia_wide_row_is_taken(sequence_len, row);
    } else {
        other_wide_row_is_taken(sequence_len, row);
    }
}

proof fn quad_smooth_is_smooth(len: usize)
    requires
        len > 0,
        quad_factors(len).rest == 1,
    ensures
        small_rest(len as int) == 1,
{
    reveal(small_rest);
    let after2 = stripped(len as int, 2);
    stripped_times_power(len as int, 2);
    let after3 = stripped(after2, 3);
    stripped_times_power(after2, 3);
    let after5 = stripped(after3, 5);
    stripped_times_power(after3, 5);
    stripped_times_power(after5, 7);
}

proof fn power_is_pow2(exponent: nat)
    ensures
        is_pow2(pow(2, exponent)),
        pow(2, exponent) >= 1,
    decreases exponent,
{
    if exponent == 0 {
        vstd::arithmetic::power::lemma_pow0(2);
    } else {
        power_is_pow2((exponent - 1) as nat);
        vstd::arithmetic::power::lemma_pow_adds(2, 1, (exponent - 1) as nat);
        vstd::arithmetic::power::lemma_pow1(2);
    }
}

/// A length over the primes 2 to 13 is smooth, and is a power of two where no odd prime
/// occurs in it.
proof fn smooth_length(len: usize)
    requires
        len > 0,
        small_rest(len as int) == 1,
    ensures
        thirteen_smooth(len as int),
        ({
            let e = small_exponents(len as int);
            e.three == 0 && e.five == 0 && e.seven == 0 && e.eleven == 0 && e.thirteen == 0
                ==> is_power_of_two(len)
        }),
{
    small_exponents_multiply(len);
    let e = exponents_of(small_exponents(len as int));
    assert(e.value() == len && e.nonnegative());
    power_is_pow2(e.two as nat);
    vstd::arithmetic::power::lemma_pow0(3);
    vstd::arithmetic::power::lemma_pow0(5);
    vstd::arithmetic::power::lemma_pow0(7);
    vstd::arithmetic::power::lemma_pow0(11);
    vstd::arithmetic::power::lemma_pow0(13);
    let two = pow(2, e.two as nat);
    assert(((two * 1) * (1 * 1)) * (1 * 1) == two) by (nonlinear_arith);
}

/// A search ends at a length from its start on that has no prime factor above 7 and whose
/// register schedule is good. Short transforms only take powers of two. A good length that
/// the search passed over lies three quarters of the way to the next power of two.
proof fn search_ends_at_the_first_good_length(
    candidate: usize,
    sequence_len: usize,
    required: usize,
    max_rhs: usize,
    shared: usize,
    precision: Precision,
)
    requires
        candidate > 0,
    ensures
        padding_from(candidate, sequence_len, required, max_rhs, shared, precision) matches Ok(
            padded,
        ) ==> {
            &&& padded >= candidate
            &&& quad_factors(padded).rest == 1
            &&& padding_is_good(padded, umax(quotient(max_rhs, padded), 1), precision) == Ok::<
                bool,
                crate::error::VkFftError,
            >(true)
            &&& sequence_len < 128 ==> is_power_of_two(padded)
            &&& forall|skipped: usize|
                candidate <= skipped < padded && #[trigger] padding_accepted(
                    skipped,
                    max_rhs,
                    precision,
                ) == Ok::<bool, crate::error::VkFftError>(true) ==> sequence_len < 128 || 3
                    * pow2_at_least(skipped as int) <= 4 * skipped
        },
    decreases usize::MAX - candidate,
{
    pow2_at_least_is_least(candidate as int);
    let step = raised_candidate(candidate, sequence_len, required, shared);
    if step is Ok {
        let raised = step->Ok_0;
        let last = padding_accepted(raised, max_rhs, precision) == Ok::<
            bool,
            crate::error::VkFftError,
        >(true);
        if !last && raised < usize::MAX {
            search_ends_at_the_first_good_length(
                (raised + 1) as usize,
                sequence_len,
                required,
                max_rhs,
                shared,
                precision,
            );
        }
        assert forall|skipped: usize| candidate <= skipped < raised implies sequence_len < 128 || 3
            * (#[trigger] pow2_at_least(skipped as int)) <= 4 * skipped by {
            pow2_at_least_is_least(skipped as int);
            assert(is_pow2(raised as int));
        }
    }
}

/// Every searched padding covers the convolution, has no prime factor above 7 and a good
/// register schedule. A transform below 128 is padded to a power of two. A longer one passes
/// over no shorter good length, unless that lies three quarters of the way to the next power
/// of two.
pub proof fn searched_paddings_are_the_first_good_length(
    sequence_len: usize,
    batch_count: usize,
    precision: Precision,
    device: DeviceProfile,
)
    ensures
        generic_padding(sequence_len, batch_count, precision, device) matches Ok(padded) ==> {
            let total = sequence_len * batch_count;
            &&& known_profile(device)
            &&& padded >= 2 * sequence_len - 1
            &&& quad_factors(padded).rest == 1
            &&& padding_is_good(
                padded,
                umax(quotient(total as usize, padded), 1),
                precision,
            ) == Ok::<bool, crate::error::VkFftError>(true)
            &&& sequence_len < 128 ==> is_power_of_two(padded)
            &&& forall|skipped: usize|
                2 * sequence_len - 1 <= skipped < padded && #[trigger] padding_accepted(
                    skipped,
                    total as usize,
                    precision,
                ) == Ok::<bool, crate::error::VkFftError>(true) ==> sequence_len < 128 || 3
                    * pow2_at_least(skipped as int) <= 4 * skipped
        },
{
    reveal(generic_padding);
    if least_padding(sequence_len) is Some {
        let required = least_padding(sequence_len)->Some_0;
        let bytes = if is_power_of_two(sequence_len) {
            device.shared_memory_pow2_bytes
        } else {
            device.shared_memory_bytes
        };
        search_ends_at_the_first_good_length(
            required,
            sequence_len,
            required,
            (sequence_len * batch_count) as usize,
            quotient(bytes, precision.compute_complex_bytes()),
            precision,
        );
    }
}

/// Every padding that the automatic choice returns, measured or searched, covers the
/// convolution, has no prime factor above 13, and has a register schedule for every count of
/// transforms whose estimate of active threads fits.
pub proof fn every_padding_has_a_schedule(
    sequence_len: usize,
    batch_count: usize,
    precision: Precision,
    device: DeviceProfile,
    rhs_transform_count: usize,
)
    requires
        sequence_len >= 2,
        rhs_transform_count > 0,
    ensures
        auto_padding(sequence_len, batch_count, precision, device) matches Ok(padded) ==> {
            &&& padded >= 2 * sequence_len - 1
            &&& thirteen_smooth(padded as int)
            &&& umax(rhs_transform_count / 64, 1) * padded <= usize::MAX ==> {
                ||| is_power_of_two(padded) && power_of_two_schedule(
                    padded,
                    rhs_transform_count,
                    1,
                ) is Ok
                ||| !is_power_of_two(padded) && small_mixed_schedule(
                    padded,
                    rhs_transform_count,
                ) is Ok
            }
        },
{
    let planned = auto_padding(sequence_len, batch_count, precision, device);
    if planned is Ok {
        let padded = planned->Ok_0;
        let measured = table_padding(sequence_len, precision, device);
        if measured is Some {
            assert(small_rest(padded as int) == 1 && padded >= 2 * sequence_len - 1) by {
                reveal(table_padding);
                nvidia_wide_paddings_are_smooth(sequence_len);
                nvidia_single_paddings_are_smooth(sequence_len);
                other_wide_paddings_are_smooth(sequence_len);
                other_single_paddings_are_smooth(sequence_len);
            }
        } else {
            searched_paddings_are_the_first_good_length(
                sequence_len,
                batch_count,
                precision,
                device,
            );
            quad_smooth_is_smooth(padded);
        }
        smooth_length(padded);
        if umax(rhs_transform_count / 64, 1) * padded <= usize::MAX {
            if is_power_of_two(padded) {
                assert(is_power_of_two(1usize)) by {
                    reveal_with_fuel(is_pow2, 2);
                }
                every_power_of_two_has_a_schedule(padded, rhs_transform_count, 1);
            } else {
                every_smooth_length_has_a_schedule(padded, rhs_transform_count);
            }
        }
    }
}

} // verus!
