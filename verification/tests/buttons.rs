use clicks_remote::buttons::{key_of_index, EdgeDetector, KEY_COUNT};
use clicks_remote::events::{ButtonEvent, ButtonId};

#[test]
fn edges_fire_once_per_transition() {
    let mut d = EdgeDetector::new();
    let mut levels = [false; KEY_COUNT];
    levels[0] = true; // MetronomeStart goes down
    let events = d.step(levels);
    assert_eq!(events, vec![ButtonEvent { id: ButtonId::MetronomeStart, pressed: true }]);
    // The same snapshot again reports nothing: edge-triggered, not
    // level-triggered.
    assert!(d.step(levels).is_empty());
    // The release is one event again.
    levels[0] = false;
    let events = d.step(levels);
    assert_eq!(events, vec![ButtonEvent { id: ButtonId::MetronomeStart, pressed: false }]);
}

#[test]
fn simultaneous_changes_come_in_key_order() {
    let mut d = EdgeDetector::new();
    let mut levels = [false; KEY_COUNT];
    levels[2] = true; // Shift
    levels[10] = true; // Stop
    let events = d.step(levels);
    assert_eq!(
        events,
        vec![
            ButtonEvent { id: ButtonId::Shift, pressed: true },
            ButtonEvent { id: ButtonId::Stop, pressed: true },
        ]
    );
}

#[test]
fn key_indices_cover_all_twelve_buttons() {
    let expected = [
        ButtonId::MetronomeStart,
        ButtonId::MetronomeStop,
        ButtonId::Shift,
        ButtonId::Menu,
        ButtonId::MetronomeTempoPlus,
        ButtonId::MetronomeTempoMinus,
        ButtonId::MetronomeBrightPlus,
        ButtonId::MetronomeBrightMinus,
        ButtonId::Next,
        ButtonId::Previous,
        ButtonId::Stop,
        ButtonId::Start,
    ];
    for (i, id) in expected.iter().enumerate() {
        assert_eq!(key_of_index(i), *id);
    }
}
