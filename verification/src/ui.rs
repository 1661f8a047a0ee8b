//! The input controller: button chords route one knob onto four targets.
//!
//! Each poll the driver measures the knob, reads the two buttons, and
//! hands the plain values to [`Ui::on_tick`]. The chord selects the
//! target — neither button held picks the frame rate, a held combination
//! picks one brightness channel — and the controller compares the new
//! value against its locally cached copy: only a real change produces a
//! store write and a display refresh. At startup a held chord seeds one
//! channel from the knob before the first committed write.
use vstd::prelude::*;

verus! {

use crate::LEVELS;

/// Which part of the configuration a button chord routes the knob to.
#[derive(Clone, Copy, Debug, PartialEq, Eq, Structural)]
pub enum ChordTarget {
    /// Neither button held: the knob adjusts the frame rate.
    FrameRate,
    /// At least one button held: the knob adjusts this channel
    /// (0 red, 1 green, 2 blue).
    Channel(usize),
}

/// The routing table: both buttons held selects red, button A alone
/// selects blue, button B alone selects green, and neither selects the
/// frame rate.
pub open spec fn chord_target(a_low: bool, b_low: bool) -> ChordTarget {
    if a_low && b_low {
        ChordTarget::Channel(0)
    } else if a_low {
        ChordTarget::Channel(2)
    } else if b_low {
        ChordTarget::Channel(1)
    } else {
        ChordTarget::FrameRate
    }
}

/// Decide which configuration target the current button chord selects.
pub fn route_chord(a_low: bool, b_low: bool) -> (target: ChordTarget)
    ensures
        target == chord_target(a_low, b_low),
        target matches ChordTarget::Channel(i) ==> i < 3,
{
    if a_low && b_low {
        ChordTarget::Channel(0)
    } else if a_low {
        ChordTarget::Channel(2)
    } else if b_low {
        ChordTarget::Channel(1)
    } else {
        ChordTarget::FrameRate
    }
}

/// The frame rate a knob level selects: `level * 10 + 10`.
pub open spec fn rate_for_level(level: u32) -> u32
    recommends
        level < LEVELS,
{
    (level * 10 + 10) as u32
}

/// What one poll step does to the cached levels: the selected channel
/// takes the measured level; a frame-rate chord leaves every channel as
/// it was.
pub open spec fn step_levels(
    levels: Seq<u32>,
    level: u32,
    a_low: bool,
    b_low: bool,
) -> Seq<u32> {
    match chord_target(a_low, b_low) {
        ChordTarget::Channel(i) => levels.update(i as int, level),
        ChordTarget::FrameRate => levels,
    }
}

/// What one poll step does to the cached frame rate.
pub open spec fn step_rate(frame_rate: u32, level: u32, a_low: bool, b_low: bool) -> u32 {
    match chord_target(a_low, b_low) {
        ChordTarget::Channel(_) => frame_rate,
        ChordTarget::FrameRate => rate_for_level(level),
    }
}

/// Whether one poll step commits anything: only when the measured value
/// differs from the cached value of the selected target.
pub open spec fn step_writes(
    levels: Seq<u32>,
    frame_rate: u32,
    level: u32,
    a_low: bool,
    b_low: bool,
) -> bool {
    match chord_target(a_low, b_low) {
        ChordTarget::Channel(i) => levels[i as int] != level,
        ChordTarget::FrameRate => frame_rate != rate_for_level(level),
    }
}

/// What the input controller asks its driver to do after one poll.
#[derive(Clone, Copy, Debug, PartialEq, Eq)]
pub enum UiAction {
    /// Nothing changed: no store write and no display output.
    NoChange,
    /// Commit these three levels to the store and display the new state.
    WriteLevels([u32; 3]),
    /// Commit this frame rate to the store and display the new state.
    WriteFrameRate(u32),
}

/// The input controller's local copy of the configuration, kept to
/// detect changes and avoid redundant writes and displays.
pub struct UiState {
    /// Cached brightness levels, one per channel.
    pub levels: [u32; 3],
    /// Cached frame rate.
    pub frame_rate: u32,
}

impl UiState {
    /// Cached levels in range and a positive frame rate.
    pub open spec fn wf(self) -> bool {
        &&& forall|i: int| 0 <= i < 3 ==> self.levels[i] < LEVELS
        &&& self.frame_rate >= 1
    }

    /// The labeled fields of one status display, in order: the three
    /// channel levels under their color names, then the frame rate.
    pub fn show(&self) -> (fields: Vec<(&'static str, u32)>)
        ensures
            fields@.len() == 4,
            fields@[0].1 == self.levels[0] && fields@[0].0@ == "red"@,
            fields@[1].1 == self.levels[1] && fields@[1].0@ == "green"@,
            fields@[2].1 == self.levels[2] && fields@[2].0@ == "blue"@,
            fields@[3].1 == self.frame_rate && fields@[3].0@ == "frame rate"@,
    {
        let mut fields: Vec<(&'static str, u32)> = Vec::new();
        fields.push(("red", self.levels[0]));
        fields.push(("green", self.levels[1]));
        fields.push(("blue", self.levels[2]));
        fields.push(("frame rate", self.frame_rate));
        fields
    }
}

impl Default for UiState {
    /// The state before any input: every channel at the maximum level
    /// and the default frame rate of 100.
    fn default() -> (state: Self)
        ensures
            state.wf(),
            forall|i: int| 0 <= i < 3 ==> state.levels[i] == LEVELS - 1,
            state.frame_rate == 100,
    {
        UiState { levels: [LEVELS - 1, LEVELS - 1, LEVELS - 1], frame_rate: 100 }
    }
}

/// The input controller. The knob and the two buttons belong to the
/// driver, which feeds their readings in as plain values.
pub struct Ui {
    /// The locally cached configuration.
    pub state: UiState,
}

impl Ui {
    /// A controller in its default state.
    pub fn new() -> (ui: Ui)
        ensures
            ui.state.wf(),
            forall|i: int| 0 <= i < 3 ==> ui.state.levels[i] == LEVELS - 1,
            ui.state.frame_rate == 100,
    {
        Ui { state: UiState::default() }
    }

    /// Seed one channel's initial level from a knob measurement.
    pub fn initial_state(&mut self, rgb_value: usize, measured: u32)
        requires
            rgb_value < 3,
            measured < LEVELS,
            old(self).state.wf(),
        ensures
            final(self).state.wf(),
            final(self).state.levels@ == old(self).state.levels@.update(
                rgb_value as int,
                measured,
            ),
            final(self).state.frame_rate == old(self).state.frame_rate,
    {
        self.state.levels[rgb_value] = measured;
    }

    /// The one-time startup step: a chord held at start seeds the chord's
    /// channel from the measured knob level; with neither button held
    /// every channel keeps its default. The result is the level triple
    /// the driver must commit to the store (and display) in one update.
    pub fn startup(&mut self, a_low: bool, b_low: bool, measured: u32) -> (levels: [u32; 3])
        requires
            measured < LEVELS,
            old(self).state.wf(),
        ensures
            final(self).state.wf(),
            final(self).state.frame_rate == old(self).state.frame_rate,
            levels == final(self).state.levels,
            final(self).state.levels@ == (match chord_target(a_low, b_low) {
                ChordTarget::Channel(i) => old(self).state.levels@.update(i as int, measured),
                ChordTarget::FrameRate => old(self).state.levels@,
            }),
    {
        let target = route_chord(a_low, b_low);
        match target {
            ChordTarget::Channel(i) => self.initial_state(i, measured),
            ChordTarget::FrameRate => {},
        }
        self.state.levels
    }

    /// Adjust one brightness channel from the measured knob level. Only
    /// a level that differs from the cached one is committed; the action
    /// then carries the full level triple to write and display.
    pub fn change_led(&mut self, level: u32, rgb_value: usize) -> (action: UiAction)
        requires
            level < LEVELS,
            rgb_value < 3,
            old(self).state.wf(),
        ensures
            final(self).state.wf(),
            final(self).state.frame_rate == old(self).state.frame_rate,
            old(self).state.levels[rgb_value as int] == level ==> {
                &&& final(self).state == old(self).state
                &&& action == UiAction::NoChange
            },
            old(self).state.levels[rgb_value as int] != level ==> {
                &&& final(self).state.levels@ == old(self).state.levels@.update(
                    rgb_value as int,
                    level,
                )
                &&& action == UiAction::WriteLevels(final(self).state.levels)
            },
    {
        if level != self.state.levels[rgb_value] {
            self.state.levels[rgb_value] = level;
            UiAction::WriteLevels(self.state.levels)
        } else {
            UiAction::NoChange
        }
    }

    /// Adjust the frame rate from the measured knob level. Only a rate
    /// that differs from the cached one is committed.
    pub fn change_frame_rate(&mut self, level: u32) -> (action: UiAction)
        requires
            level < LEVELS,
            old(self).state.wf(),
        ensures
            final(self).state.wf(),
            final(self).state.levels == old(self).state.levels,
            rate_for_level(level) == old(self).state.frame_rate ==> {
                &&& final(self).state == old(self).state
                &&& action == UiAction::NoChange
            },
            rate_for_level(level) != old(self).state.frame_rate ==> {
                &&& final(self).state.frame_rate == rate_for_level(level)
                &&& action == UiAction::WriteFrameRate(rate_for_level(level))
            },
    {
        let new_rate: u32 = level * 10 + 10;
        if new_rate != self.state.frame_rate {
            self.state.frame_rate = new_rate;
            UiAction::WriteFrameRate(new_rate)
        } else {
            UiAction::NoChange
        }
    }

    /// One main-loop poll step: route the chord, update the cached copy
    /// of the selected target, and tell the driver what to commit. The
    /// action is `NoChange` exactly when the measured value matches the
    /// cache — no store write and no display output then.
    pub fn on_tick(&mut self, level: u32, a_low: bool, b_low: bool) -> (action: UiAction)
        requires
            level < LEVELS,
            old(self).state.wf(),
        ensures
            final(self).state.wf(),
            final(self).state.levels@ == (if step_writes(
                old(self).state.levels@,
                old(self).state.frame_rate,
                level,
                a_low,
                b_low,
            ) {
                step_levels(old(self).state.levels@, level, a_low, b_low)
            } else {
                old(self).state.levels@
            }),
            final(self).state.frame_rate == (if step_writes(
                old(self).state.levels@,
                old(self).state.frame_rate,
                level,
                a_low,
                b_low,
            ) {
                step_rate(old(self).state.frame_rate, level, a_low, b_low)
            } else {
                old(self).state.frame_rate
            }),
            match action {
                UiAction::NoChange => {
                    &&& !step_writes(
                        old(self).state.levels@,
                        old(self).state.frame_rate,
                        level,
                        a_low,
                        b_low,
                    )
                    &&& final(self).state == old(self).state
                },
                UiAction::WriteLevels(levels) => {
                    &&& step_writes(
                        old(self).state.levels@,
                        old(self).state.frame_rate,
                        level,
                        a_low,
                        b_low,
                    )
                    &&& chord_target(a_low, b_low) matches ChordTarget::Channel(_)
                    &&& levels == final(self).state.levels
                },
                UiAction::WriteFrameRate(rate) => {
                    &&& step_writes(
                        old(self).state.levels@,
                        old(self).state.frame_rate,
                        level,
                        a_low,
                        b_low,
                    )
                    &&& chord_target(a_low, b_low) == ChordTarget::FrameRate
                    &&& rate == final(self).state.frame_rate
                },
            },
    {
        let target = route_chord(a_low, b_low);
        match target {
            ChordTarget::FrameRate => self.change_frame_rate(level),
            ChordTarget::Channel(i) => self.change_led(level, i),
        }
    }
}

/// No-redundant-writes law: when the knob's mapped value equals the
/// cached value of the chord's target, a poll step commits nothing — the
/// cached state is untouched and neither a store write nor a display
/// output is issued.
pub proof fn lemma_no_redundant_writes(
    levels: Seq<u32>,
    frame_rate: u32,
    level: u32,
    a_low: bool,
    b_low: bool,
)
    requires
        levels.len() == 3,
        match chord_target(a_low, b_low) {
            ChordTarget::Channel(i) => levels[i as int] == level,
            ChordTarget::FrameRate => frame_rate == rate_for_level(level),
        },
    ensures
        !step_writes(levels, frame_rate, level, a_low, b_low),
{
}

/// Chord routing law: one poll step touches only the target its chord
/// selects — a channel chord leaves the frame rate and every other
/// channel unchanged, and the frame-rate chord leaves every channel
/// unchanged.
pub proof fn lemma_chord_routing(
    levels: Seq<u32>,
    frame_rate: u32,
    level: u32,
    a_low: bool,
    b_low: bool,
)
    requires
        levels.len() == 3,
    ensures
        chord_target(a_low, b_low) matches ChordTarget::Channel(i) ==> {
            &&& step_rate(frame_rate, level, a_low, b_low) == frame_rate
            &&& step_levels(levels, level, a_low, b_low)[i as int] == level
            &&& forall|j: int|
                0 <= j < 3 && j != i ==> step_levels(levels, level, a_low, b_low)[j] == levels[j]
        },
        chord_target(a_low, b_low) == ChordTarget::FrameRate ==> {
            &&& step_levels(levels, level, a_low, b_low) == levels
            &&& step_rate(frame_rate, level, a_low, b_low) == rate_for_level(level)
        },
{
}

} // verus!
