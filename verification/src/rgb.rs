//! Pulse-width-modulation timing for the three-channel renderer.
//!
//! Each render cycle walks the three channels once. A channel's slot is
//! divided into `LEVELS` ticks: the line is held high for `level` ticks
//! and low for the remaining `LEVELS - level` ticks, so the duty cycle is
//! `level / LEVELS` while the slot length stays the same for every level.
//! The driver reads the configuration store once per cycle, reloads this
//! state with the snapshot, and then performs the on/off waits that
//! [`Rgb::step_times`] computes.
use vstd::prelude::*;

verus! {

use crate::LEVELS;

/// Largest tick duration the derivation can produce: one second divided
/// by the smallest divisor, `3 * 1 * LEVELS`.
pub const TICK_MICROS_MAX: u64 = 20_833;

/// Tick duration in microseconds for a frame rate: one second divided
/// among `frame_rate` cycles of 3 channel slots of `LEVELS` ticks each.
pub open spec fn tick_micros(frame_rate: int) -> int
    recommends
        frame_rate >= 1,
{
    1_000_000int / (3 * frame_rate * (LEVELS as int))
}

/// Renderer state: the configuration snapshot the current cycle works
/// from. The output lines themselves belong to the driver.
pub struct Rgb {
    /// Brightness levels of the current cycle, one per channel.
    pub levels: [u32; 3],
    /// Tick duration in microseconds derived from the frame rate.
    pub tick_time: u64,
}

impl Rgb {
    /// The snapshot is well formed: levels in range and a tick duration
    /// that some positive frame rate can produce.
    pub open spec fn wf(self) -> bool {
        &&& forall|i: int| 0 <= i < 3 ==> self.levels[i] < LEVELS
        &&& self.tick_time <= TICK_MICROS_MAX
    }

    /// Derive the tick duration from a frame rate.
    pub fn frame_tick_time(frame_rate: u64) -> (tick: u64)
        requires
            1 <= frame_rate <= u32::MAX,
        ensures
            tick == tick_micros(frame_rate as int),
            tick <= TICK_MICROS_MAX,
    {
        let divisor: u64 = 48 * frame_rate;
        proof {
            assert(divisor == 3 * (frame_rate as int) * (LEVELS as int));
            vstd::arithmetic::div_mod::lemma_div_is_ordered_by_denominator(
                1_000_000,
                48,
                divisor as int,
            );
        }
        1_000_000 / divisor
    }

    /// Create a renderer snapshot with all channels dark and the tick
    /// duration for the given frame rate.
    pub fn new(frame_rate: u64) -> (rgb: Rgb)
        requires
            1 <= frame_rate <= u32::MAX,
        ensures
            rgb.wf(),
            forall|i: int| 0 <= i < 3 ==> rgb.levels[i] == 0,
            rgb.tick_time == tick_micros(frame_rate as int),
    {
        let tick_time = Self::frame_tick_time(frame_rate);
        Rgb { levels: [0, 0, 0], tick_time }
    }

    /// Take over the configuration snapshot for the next render cycle:
    /// all three channels of the cycle use these levels and the tick
    /// duration derived from this frame rate.
    pub fn reload(&mut self, levels: [u32; 3], frame_rate: u32)
        requires
            forall|i: int| 0 <= i < 3 ==> levels[i] < LEVELS,
            frame_rate >= 1,
        ensures
            final(self).wf(),
            final(self).levels == levels,
            final(self).tick_time == tick_micros(frame_rate as int),
    {
        self.levels = levels;
        self.tick_time = Self::frame_tick_time(frame_rate as u64);
    }

    /// On-time and off-time in microseconds for one channel's slot: the
    /// line is high for `level` ticks and low for the rest, and the two
    /// always add up to the full slot of `LEVELS` ticks.
    pub fn step_times(&self, led: usize) -> (times: (u64, u64))
        requires
            led < 3,
            self.wf(),
        ensures
            times.0 == self.levels[led as int] * self.tick_time,
            times.1 == (LEVELS - self.levels[led as int]) * self.tick_time,
            times.0 + times.1 == LEVELS * self.tick_time,
    {
        let level = self.levels[led];
        proof {
            lemma_slot_time_level_invariant(level as int, self.tick_time as int);
        }
        let on_time: u64 = (level as u64) * self.tick_time;
        let off_time: u64 = ((LEVELS - level) as u64) * self.tick_time;
        (on_time, off_time)
    }
}

/// Duty-cycle law: a channel at level `v` is on for `v * t` microseconds
/// per cycle, and its slot always lasts `LEVELS * t` microseconds, no
/// matter the level — the boundary levels 0 and `LEVELS - 1` consume the
/// same slot time as any other.
pub proof fn lemma_slot_time_level_invariant(v: int, t: int)
    requires
        0 <= v <= LEVELS,
        0 <= t <= TICK_MICROS_MAX,
    ensures
        v * t + (LEVELS - v) * t == LEVELS * t,
        0 <= v * t <= LEVELS as int * TICK_MICROS_MAX as int,
        0 <= (LEVELS - v) * t <= LEVELS as int * TICK_MICROS_MAX as int,
{
    vstd::arithmetic::mul::lemma_mul_is_distributive_sub_other_way(t, LEVELS as int, v);
    vstd::arithmetic::mul::lemma_mul_upper_bound(v, LEVELS as int, t, TICK_MICROS_MAX as int);
    vstd::arithmetic::mul::lemma_mul_upper_bound(
        LEVELS - v,
        LEVELS as int,
        t,
        TICK_MICROS_MAX as int,
    );
    vstd::arithmetic::mul::lemma_mul_nonnegative(v, t);
    vstd::arithmetic::mul::lemma_mul_nonnegative(LEVELS - v, t);
}

/// Frame-rate derivation law: the tick duration is the integer part of
/// one second over `3 * frame_rate * LEVELS`, so multiplying it back
/// falls short of one second by less than one divisor — the derivation
/// is exact up to integer-division rounding.
pub proof fn lemma_tick_time_rounding(frame_rate: int)
    requires
        frame_rate >= 1,
    ensures
        tick_micros(frame_rate) * (3 * frame_rate * LEVELS) <= 1_000_000,
        1_000_000 - tick_micros(frame_rate) * (3 * frame_rate * LEVELS) < 3 * frame_rate
            * LEVELS,
{
    let divisor = 3 * frame_rate * (LEVELS as int);
    assert(divisor == 48 * frame_rate);
    vstd::arithmetic::div_mod::lemma_fundamental_div_mod(1_000_000, divisor);
    vstd::arithmetic::div_mod::lemma_mod_bound(1_000_000, divisor);
    vstd::arithmetic::mul::lemma_mul_is_commutative(divisor, tick_micros(frame_rate));
}

} // verus!
