use rgb_knob::store::Store;
use rgb_knob::ui::{route_chord, ChordTarget, Ui, UiAction, UiState};
use rgb_knob::LEVELS;

#[test]
fn chord_routing_table() {
    assert_eq!(route_chord(true, true), ChordTarget::Channel(0));
    assert_eq!(route_chord(true, false), ChordTarget::Channel(2));
    assert_eq!(route_chord(false, true), ChordTarget::Channel(1));
    assert_eq!(route_chord(false, false), ChordTarget::FrameRate);
}

#[test]
fn default_state_is_maximum_brightness() {
    let state = UiState::default();
    assert_eq!(state.levels, [LEVELS - 1, LEVELS - 1, LEVELS - 1]);
    assert_eq!(state.frame_rate, 100);
}

#[test]
fn startup_seeding_both_buttons() {
    // Both buttons low and knob mapped to 9: only red is seeded.
    let mut ui = Ui::new();
    let mut store = Store::new();
    let levels = ui.startup(true, true, 9);
    store.set_rgb_levels(levels);
    assert_eq!(store.rgb_levels(), [9, LEVELS - 1, LEVELS - 1]);
}

#[test]
fn startup_seeding_single_buttons() {
    let mut ui = Ui::new();
    assert_eq!(ui.startup(true, false, 4), [LEVELS - 1, LEVELS - 1, 4]);
    let mut ui = Ui::new();
    assert_eq!(ui.startup(false, true, 4), [LEVELS - 1, 4, LEVELS - 1]);
}

#[test]
fn startup_without_chord_keeps_defaults() {
    let mut ui = Ui::new();
    let levels = ui.startup(false, false, 9);
    assert_eq!(levels, [LEVELS - 1, LEVELS - 1, LEVELS - 1]);
}

#[test]
fn chord_routes_red_only() {
    // Both buttons held, knob at 7: only channel 0 changes, to 7.
    let mut ui = Ui::new();
    let action = ui.on_tick(7, true, true);
    assert_eq!(action, UiAction::WriteLevels([7, LEVELS - 1, LEVELS - 1]));
    assert_eq!(ui.state.levels, [7, LEVELS - 1, LEVELS - 1]);
    assert_eq!(ui.state.frame_rate, 100);
}

#[test]
fn chord_routes_blue_only() {
    // Button A alone, knob at 3: only channel 2 changes, to 3.
    let mut ui = Ui::new();
    let action = ui.on_tick(3, true, false);
    assert_eq!(action, UiAction::WriteLevels([LEVELS - 1, LEVELS - 1, 3]));
    assert_eq!(ui.state.levels, [LEVELS - 1, LEVELS - 1, 3]);
    assert_eq!(ui.state.frame_rate, 100);
}

#[test]
fn chord_routes_green_only() {
    let mut ui = Ui::new();
    let action = ui.on_tick(12, false, true);
    assert_eq!(action, UiAction::WriteLevels([LEVELS - 1, 12, LEVELS - 1]));
    assert_eq!(ui.state.levels, [LEVELS - 1, 12, LEVELS - 1]);
}

#[test]
fn no_chord_routes_frame_rate() {
    // Neither button held, knob at 5: frame rate becomes 60, no channel
    // changes.
    let mut ui = Ui::new();
    let action = ui.on_tick(5, false, false);
    assert_eq!(action, UiAction::WriteFrameRate(60));
    assert_eq!(ui.state.frame_rate, 60);
    assert_eq!(ui.state.levels, [LEVELS - 1, LEVELS - 1, LEVELS - 1]);
}

#[test]
fn redundant_level_produces_no_action() {
    let mut ui = Ui::new();
    let action = ui.on_tick(LEVELS - 1, true, true);
    assert_eq!(action, UiAction::NoChange);
    assert_eq!(ui.state.levels, [LEVELS - 1, LEVELS - 1, LEVELS - 1]);
    assert_eq!(ui.state.frame_rate, 100);
}

#[test]
fn redundant_frame_rate_produces_no_action() {
    // Knob level 9 maps to rate 100, the cached default: no action.
    let mut ui = Ui::new();
    let action = ui.on_tick(9, false, false);
    assert_eq!(action, UiAction::NoChange);
    assert_eq!(ui.state.frame_rate, 100);
}

#[test]
fn repeated_poll_writes_once() {
    let mut ui = Ui::new();
    let first = ui.on_tick(7, true, true);
    let second = ui.on_tick(7, true, true);
    assert!(matches!(first, UiAction::WriteLevels(_)));
    assert_eq!(second, UiAction::NoChange);
}

#[test]
fn show_lists_labeled_fields() {
    let mut ui = Ui::new();
    ui.on_tick(7, true, true);
    let fields = ui.state.show();
    assert_eq!(
        fields,
        vec![
            ("red", 7),
            ("green", LEVELS - 1),
            ("blue", LEVELS - 1),
            ("frame rate", 100),
        ]
    );
}

#[test]
fn polls_drive_store_end_to_end() {
    // A short session: seed at startup, then a few polls whose actions
    // the driver commits to the store.
    let mut ui = Ui::new();
    let mut store = Store::new();
    let seeded = ui.startup(false, true, 2);
    store.set_rgb_levels(seeded);

    for (level, a_low, b_low) in [(5, false, false), (3, true, false), (3, true, false)] {
        match ui.on_tick(level, a_low, b_low) {
            UiAction::NoChange => {}
            UiAction::WriteLevels(levels) => store.set_rgb_levels(levels),
            UiAction::WriteFrameRate(rate) => store.set_frames(rate),
        }
    }
    assert_eq!(store.rgb_levels(), [LEVELS - 1, 2, 3]);
    assert_eq!(store.frames(), 60);
}
