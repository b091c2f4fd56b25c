use clicks_remote::events::{
    Action, ButtonEvent, ButtonId, ControlAction, Mode, Request, TextEntryContext,
    TransportState, Timecode,
};
use clicks_remote::text::TextBuffer;
use clicks_remote::translator::{action_lut, Translator};

fn press(id: ButtonId) -> ButtonEvent {
    ButtonEvent { id, pressed: true }
}

fn release(id: ButtonId) -> ButtonEvent {
    ButtonEvent { id, pressed: false }
}

const ALL_BUTTONS: [ButtonId; 12] = [
    ButtonId::MetronomeStart,
    ButtonId::MetronomeStop,
    ButtonId::Shift,
    ButtonId::Menu,
    ButtonId::MetronomeTempoPlus,
    ButtonId::MetronomeTempoMinus,
    ButtonId::MetronomeBrightPlus,
    ButtonId::MetronomeBrightMinus,
    ButtonId::Next,
    ButtonId::Previous,
    ButtonId::Stop,
    ButtonId::Start,
];

#[test]
fn lock_mode_ignores_everything_but_shift_stop() {
    // Scenario: locked unit; every press except shift+Stop emits nothing.
    let mut t = Translator::new();
    assert_eq!(t.mode, Mode::Lock);
    for id in ALL_BUTTONS {
        if id == ButtonId::Shift {
            continue; // exercised below, held separately
        }
        let out = t.on_button(press(id));
        assert!(out.actions.is_empty(), "{:?} must be ignored while locked", id);
        let out = t.on_button(release(id));
        assert!(out.actions.is_empty());
    }
    // Shift alone emits nothing either.
    let out = t.on_button(press(ButtonId::Shift));
    assert!(out.actions.is_empty());
    // Shift is now held: every button except Stop still emits nothing.
    for id in ALL_BUTTONS {
        if id == ButtonId::Stop || id == ButtonId::Shift {
            continue;
        }
        let out = t.on_button(press(id));
        assert!(out.actions.is_empty(), "shift+{:?} must be ignored while locked", id);
    }
    // Shift + Stop unlocks with exactly one ModeChange(Main).
    let out = t.on_button(press(ButtonId::Stop));
    assert_eq!(out.actions, vec![Action::ModeChange(Mode::Main)]);
    assert_eq!(out.mode_signal, Some(Mode::Main));
    assert_eq!(t.mode, Mode::Main);
}

#[test]
fn releases_never_emit() {
    let mut t = Translator::new();
    t.on_button(press(ButtonId::Shift));
    t.on_button(press(ButtonId::Stop)); // unlock
    t.on_button(release(ButtonId::Shift));
    for id in ALL_BUTTONS {
        let out = t.on_button(release(id));
        assert!(out.actions.is_empty(), "release of {:?} emitted an action", id);
    }
}

#[test]
fn main_mode_table_entries() {
    assert_eq!(
        action_lut(Mode::Main, false, ButtonId::Next, false),
        Some(Action::RequestToCore(Request::ControlAction(ControlAction::LoadNextCue)))
    );
    assert_eq!(
        action_lut(Mode::Main, false, ButtonId::Previous, false),
        Some(Action::RequestToCore(Request::ControlAction(ControlAction::LoadPreviousCue)))
    );
    assert_eq!(
        action_lut(Mode::Main, true, ButtonId::Previous, false),
        Some(Action::RequestToCore(Request::ControlAction(ControlAction::TransportZero)))
    );
    assert_eq!(
        action_lut(Mode::Main, false, ButtonId::Stop, false),
        Some(Action::RequestToCore(Request::ControlAction(ControlAction::TransportStop)))
    );
    assert_eq!(action_lut(Mode::Main, true, ButtonId::Stop, false), Some(Action::ModeChange(Mode::Lock)));
    assert_eq!(
        action_lut(Mode::Main, false, ButtonId::MetronomeTempoPlus, false),
        Some(Action::MetronomeAddTempo(1))
    );
    assert_eq!(
        action_lut(Mode::Main, true, ButtonId::MetronomeTempoPlus, false),
        Some(Action::MetronomeAddTempo(10))
    );
    assert_eq!(
        action_lut(Mode::Main, true, ButtonId::MetronomeTempoMinus, false),
        Some(Action::MetronomeAddTempo(-10))
    );
    assert_eq!(
        action_lut(Mode::Main, true, ButtonId::MetronomeStart, false),
        Some(Action::MetronomeTempoTap)
    );
    // Start depends on the playing flag.
    assert_eq!(
        action_lut(Mode::Main, false, ButtonId::Start, false),
        Some(Action::RequestToCore(Request::ControlAction(ControlAction::TransportStart)))
    );
    assert!(matches!(
        action_lut(Mode::Main, false, ButtonId::Start, true),
        Some(Action::RequestToCore(Request::ControlAction(ControlAction::ChangeJumpMode(_))))
    ));
    // Unmapped combination.
    assert_eq!(action_lut(Mode::Main, true, ButtonId::Next, false), None);
}

#[test]
fn text_entry_digit_table() {
    assert_eq!(action_lut(Mode::TextEntry, false, ButtonId::MetronomeStop, false), Some(Action::Character(b'1')));
    assert_eq!(action_lut(Mode::TextEntry, true, ButtonId::MetronomeBrightPlus, false), Some(Action::Character(b'0')));
    assert_eq!(action_lut(Mode::TextEntry, true, ButtonId::MetronomeTempoMinus, false), Some(Action::Character(b'.')));
    assert_eq!(action_lut(Mode::TextEntry, true, ButtonId::MetronomeBrightMinus, false), Some(Action::Character(b' ')));
    assert_eq!(action_lut(Mode::TextEntry, false, ButtonId::MetronomeTempoMinus, false), Some(Action::Character(b'5')));
    assert_eq!(action_lut(Mode::TextEntry, true, ButtonId::MetronomeStop, false), Some(Action::Character(b'7')));
    assert_eq!(action_lut(Mode::TextEntry, false, ButtonId::Previous, false), Some(Action::Backspace));
    assert_eq!(action_lut(Mode::TextEntry, false, ButtonId::Menu, false), Some(Action::Confirm));
    assert_eq!(action_lut(Mode::TextEntry, true, ButtonId::Menu, false), Some(Action::ModeChange(Mode::Menu)));
}

#[test]
fn mode_change_is_signalled_with_same_value() {
    let mut t = Translator::new();
    let out = t.on_upstream(Action::ModeChange(Mode::Menu));
    assert_eq!(out.actions, vec![Action::ModeChange(Mode::Menu)]);
    assert_eq!(out.mode_signal, Some(Mode::Menu));
    assert_eq!(t.mode, Mode::Menu);
    // Re-publishing an unchanged mode still signals a fresh transition.
    let out = t.on_upstream(Action::ModeChange(Mode::Menu));
    assert_eq!(out.mode_signal, Some(Mode::Menu));
}

#[test]
fn text_entry_start_forces_mode_and_prefixes_mode_change() {
    let mut t = Translator::new();
    t.on_upstream(Action::ModeChange(Mode::Menu));
    let start = Action::TextEntryStart {
        ctx: TextEntryContext::CorePort,
        initial_value: TextBuffer::empty(),
    };
    let out = t.on_upstream(start);
    assert_eq!(out.actions.len(), 2);
    assert_eq!(out.actions[0], Action::ModeChange(Mode::TextEntry));
    assert_eq!(out.actions[1], start);
    assert_eq!(out.mode_signal, Some(Mode::TextEntry));
    assert_eq!(t.mode, Mode::TextEntry);
}

#[test]
fn transport_data_updates_playing_flag() {
    let mut t = Translator::new();
    t.on_button(press(ButtonId::Shift));
    t.on_button(press(ButtonId::Stop));
    t.on_button(release(ButtonId::Shift));
    let running = TransportState { running: true, ltc: Timecode { h: 0, m: 0, s: 0, f: 0 } };
    t.on_upstream(Action::NewTransportData(running));
    assert!(t.playing);
    assert!(matches!(
        t.on_button(press(ButtonId::Start)).actions[0],
        Action::RequestToCore(Request::ControlAction(ControlAction::ChangeJumpMode(_)))
    ));
}
