use clicks_remote::events::{Action, Mode, TextEntryContext};
use clicks_remote::state::SystemState;
use clicks_remote::text::TextBuffer;
use clicks_remote::textentry::TextEntryEditor;

fn start(ctx: TextEntryContext) -> Action {
    Action::TextEntryStart { ctx, initial_value: TextBuffer::empty() }
}

fn type_text(ed: &mut TextEntryEditor, st: &mut SystemState, text: &[u8]) {
    for &b in text {
        ed.handle(Action::Character(b), st);
    }
}

#[test]
fn confirmed_port_is_parsed_into_state() {
    let mut st = SystemState::new();
    let mut ed = TextEntryEditor::new();
    ed.handle(start(TextEntryContext::CorePort), &mut st);
    type_text(&mut ed, &mut st, b"8090");
    let out = ed.handle(Action::Confirm, &mut st);
    assert!(out.done);
    assert_eq!(out.emitted, vec![Action::ModeChange(Mode::Menu)]);
    assert_eq!(st.core_ip.port, 8090);
    assert_eq!(st.core_ip.addr, [192, 168, 1, 135]); // address untouched
}

#[test]
fn unparseable_port_falls_back_to_zero() {
    let mut st = SystemState::new();
    let mut ed = TextEntryEditor::new();
    ed.handle(start(TextEntryContext::CorePort), &mut st);
    type_text(&mut ed, &mut st, b"99999"); // over 65535
    ed.handle(Action::Confirm, &mut st);
    assert_eq!(st.core_ip.port, 0);
}

#[test]
fn confirmed_address_keeps_the_port() {
    let mut st = SystemState::new();
    let mut ed = TextEntryEditor::new();
    ed.handle(start(TextEntryContext::CoreIPv4), &mut st);
    type_text(&mut ed, &mut st, b"10.0.0.42");
    ed.handle(Action::Confirm, &mut st);
    assert_eq!(st.core_ip.addr, [10, 0, 0, 42]);
    assert_eq!(st.core_ip.port, 8081);
}

#[test]
fn unparseable_address_falls_back_whole() {
    // The fallback endpoint is the unset one — port included, as the
    // original parse-or-default behaved.
    let mut st = SystemState::new();
    let mut ed = TextEntryEditor::new();
    ed.handle(start(TextEntryContext::CoreIPv4), &mut st);
    type_text(&mut ed, &mut st, b"10.0.42");
    ed.handle(Action::Confirm, &mut st);
    assert_eq!(st.core_ip.addr, [0, 0, 0, 0]);
    assert_eq!(st.core_ip.port, 0);
}

#[test]
fn characters_echo_updates_and_backspace_retracts() {
    let mut st = SystemState::new();
    let mut ed = TextEntryEditor::new();
    ed.handle(start(TextEntryContext::CorePort), &mut st);
    let out = ed.handle(Action::Character(b'4'), &mut st);
    assert_eq!(out.emitted.len(), 1);
    match out.emitted[0] {
        Action::TextEntryUpdate { ctx, value } => {
            assert_eq!(ctx, TextEntryContext::CorePort);
            assert_eq!(value.len(), 1);
        }
        ref other => panic!("expected an update, got {:?}", other),
    }
    let out = ed.handle(Action::Backspace, &mut st);
    assert_eq!(out.emitted.len(), 1);
    assert_eq!(ed.cursor, 0);
    // Backspace on an empty line is silent.
    let out = ed.handle(Action::Backspace, &mut st);
    assert!(out.emitted.is_empty());
}

#[test]
fn editor_clamps_at_its_capacity() {
    let mut st = SystemState::new();
    let mut ed = TextEntryEditor::new();
    ed.handle(start(TextEntryContext::Unknown), &mut st);
    for _ in 0..40 {
        ed.handle(Action::Character(b'7'), &mut st);
    }
    assert_eq!(ed.cursor, 31); // one slot below the buffer capacity
    let out = ed.handle(Action::Character(b'7'), &mut st);
    assert!(out.emitted.is_empty()); // silently dropped
}

#[test]
fn start_adopts_initial_value_and_context() {
    let mut st = SystemState::new();
    let mut ed = TextEntryEditor::new();
    let initial = TextBuffer::from_bytes(b"808");
    ed.handle(Action::TextEntryStart { ctx: TextEntryContext::CorePort, initial_value: initial }, &mut st);
    assert_eq!(ed.cursor, 3);
    assert_eq!(ed.ctx, TextEntryContext::CorePort);
    // Continue editing from the preloaded text.
    ed.handle(Action::Character(b'1'), &mut st);
    ed.handle(Action::Confirm, &mut st);
    assert_eq!(st.core_ip.port, 8081);
}

#[test]
fn unknown_context_confirm_changes_nothing_but_mode() {
    let mut st = SystemState::new();
    let mut ed = TextEntryEditor::new();
    ed.handle(start(TextEntryContext::Unknown), &mut st);
    type_text(&mut ed, &mut st, b"123");
    let out = ed.handle(Action::Confirm, &mut st);
    assert_eq!(out.emitted, vec![Action::ModeChange(Mode::Menu)]);
    assert_eq!(st, SystemState::new());
}
