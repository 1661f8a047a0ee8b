//! Mapping from a raw analog knob sample to a discrete brightness level.
//!
//! The raw sample is a signed reading from the analog source. It is
//! clamped to `[0, 0x7fff]`, scaled down by a fixed device constant of
//! 10 000, pushed through the affine transform
//! `(LEVELS + 2) * scaled - 2`, and finally clamped to `[0, LEVELS - 1]`.
//! The skew by `+2 / -2` deliberately saturates the bottom and top of the
//! raw range so that the physical knob reaches both boundary levels
//! without per-device calibration. All arithmetic is carried out in
//! integers: the scale and the affine transform combine into one
//! floor division by 10 000.
use vstd::prelude::*;

verus! {

use crate::LEVELS;

/// Largest raw sample value the mapping distinguishes; higher readings
/// are clamped to it.
pub const RAW_MAX: u32 = 0x7fff;

/// The raw sample clamped to the non-negative range `[0, RAW_MAX]`.
pub open spec fn clamped_raw(raw: int) -> int {
    if raw < 0 {
        0
    } else if raw > RAW_MAX {
        RAW_MAX as int
    } else {
        raw
    }
}

/// The knob mapping: clamp the raw sample, apply the affine transform
/// `(LEVELS + 2) * raw / 10_000 - 2` rounded toward negative infinity,
/// and clamp the outcome to `[0, LEVELS - 1]`.
pub open spec fn knob_level(raw: int) -> int {
    let scaled = (LEVELS + 2) * clamped_raw(raw);
    if scaled <= 20_000 {
        0
    } else if (scaled - 20_000) / 10_000 >= LEVELS - 1 {
        (LEVELS - 1) as int
    } else {
        (scaled - 20_000) / 10_000
    }
}

/// Convert one raw analog sample into a brightness level.
///
/// The driver hands this function the signed reading it captured from
/// the analog source; the result is the knob's discrete position.
pub fn measure_level(raw: i16) -> (level: u32)
    ensures
        level == knob_level(raw as int),
        level < LEVELS,
{
    let clamped: u32 = if raw < 0 {
        0
    } else {
        raw as u32
    };
    let scaled: u32 = (LEVELS + 2) * clamped;
    if scaled <= 20_000 {
        0
    } else {
        let position: u32 = (scaled - 20_000) / 10_000;
        if position >= LEVELS - 1 {
            LEVELS - 1
        } else {
            position
        }
    }
}

/// Knob mapping range law: every raw sample maps into `[0, LEVELS - 1]`;
/// samples in the lower deadband (below 1 667) map to level 0, and the
/// maximum raw sample maps to the top level.
pub proof fn lemma_knob_level_range(raw: int)
    ensures
        0 <= knob_level(raw) < LEVELS,
        raw < 1_667 ==> knob_level(raw) == 0,
        raw >= RAW_MAX ==> knob_level(raw) == LEVELS - 1,
{
    let scaled = (LEVELS + 2) * clamped_raw(raw);
    assert(scaled == 18 * clamped_raw(raw));
    if scaled > 20_000 {
        vstd::arithmetic::div_mod::lemma_div_pos_is_pos(scaled - 20_000, 10_000);
    }
    if raw < 1_667 {
        assert(clamped_raw(raw) <= 1_666);
        assert(scaled <= 29_988);
        if scaled > 20_000 {
            assert((scaled - 20_000) / 10_000 == 0);
        }
    }
    if raw >= RAW_MAX {
        assert(clamped_raw(raw) == 0x7fff);
        assert(scaled == 18 * 0x7fff);
        assert((scaled - 20_000) / 10_000 == 56);
    }
}

/// Knob monotonicity law: the mapping is non-decreasing in the raw
/// sample value.
pub proof fn lemma_knob_level_monotonic(raw1: int, raw2: int)
    requires
        raw1 <= raw2,
    ensures
        knob_level(raw1) <= knob_level(raw2),
{
    let c1 = clamped_raw(raw1);
    let c2 = clamped_raw(raw2);
    assert(c1 <= c2);
    let s1 = (LEVELS + 2) * c1;
    let s2 = (LEVELS + 2) * c2;
    assert(s1 == 18 * c1 && s2 == 18 * c2);
    assert(s1 <= s2);
    lemma_knob_level_range(raw1);
    lemma_knob_level_range(raw2);
    if s1 > 20_000 && s2 > 20_000 {
        vstd::arithmetic::div_mod::lemma_div_is_ordered(s1 - 20_000, s2 - 20_000, 10_000);
    }
}

} // verus!
