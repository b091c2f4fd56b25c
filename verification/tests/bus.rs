use clicks_remote::bus::{fanout_step, ActionQueue};
use clicks_remote::events::Action;
use clicks_remote::modeslot::ModeSlot;
use clicks_remote::events::Mode;

#[test]
fn queue_is_fifo_and_bounded() {
    let mut q = ActionQueue::new(2);
    assert_eq!(q.capacity(), 2);
    assert!(q.try_send(Action::NextItem));
    assert!(q.try_send(Action::PreviousItem));
    assert!(q.is_full());
    assert!(!q.try_send(Action::Confirm)); // dropped silently
    assert_eq!(q.len(), 2);
    assert_eq!(q.recv(), Some(Action::NextItem));
    assert_eq!(q.recv(), Some(Action::PreviousItem));
    assert_eq!(q.recv(), None);
}

#[test]
fn fanout_delivers_at_most_once_per_subscriber() {
    let mut control = ActionQueue::new(8);
    let mut ui = ActionQueue::new(8);
    let mut ux = ActionQueue::new(8);
    let mut led = ActionQueue::new(8);
    let mut metr = ActionQueue::new(8);
    let delivered =
        fanout_step(Action::ForceRedraw, &mut control, &mut ui, &mut ux, &mut led, &mut metr);
    assert_eq!(delivered, (true, true, true, true, true));
    for q in [&mut control, &mut ui, &mut ux, &mut led, &mut metr] {
        assert_eq!(q.len(), 1);
        assert_eq!(q.recv(), Some(Action::ForceRedraw));
    }
}

#[test]
fn full_subscriber_never_blocks_the_others() {
    // Fill the text-entry queue to its bound; the other four still get
    // the action, the full one silently drops it.
    let mut control = ActionQueue::new(8);
    let mut ui = ActionQueue::new(8);
    let mut ux = ActionQueue::new(1);
    let mut led = ActionQueue::new(8);
    let mut metr = ActionQueue::new(8);
    assert!(ux.try_send(Action::NextItem));
    let delivered =
        fanout_step(Action::ForceRedraw, &mut control, &mut ui, &mut ux, &mut led, &mut metr);
    assert_eq!(delivered, (true, true, false, true, true));
    assert_eq!(control.recv(), Some(Action::ForceRedraw));
    assert_eq!(ui.recv(), Some(Action::ForceRedraw));
    assert_eq!(led.recv(), Some(Action::ForceRedraw));
    assert_eq!(metr.recv(), Some(Action::ForceRedraw));
    // The full queue kept only what it already had.
    assert_eq!(ux.recv(), Some(Action::NextItem));
    assert_eq!(ux.recv(), None);
}

#[test]
fn zero_capacity_queue_drops_everything() {
    let mut q = ActionQueue::new(0);
    assert!(!q.try_send(Action::NextItem));
    assert_eq!(q.recv(), None);
}

#[test]
fn mode_slot_overwrites_and_consumes_once() {
    let mut s = ModeSlot::new();
    assert_eq!(s.peek(), Mode::Lock);
    assert_eq!(s.try_take(), None); // power-on value is not fresh
    s.signal(Mode::Main);
    s.signal(Mode::Menu); // overwrite before anyone waited
    assert_eq!(s.try_take(), Some(Mode::Menu));
    assert_eq!(s.try_take(), None); // freshness consumed at most once
    // The value stays readable until the next signal.
    assert_eq!(s.peek(), Mode::Menu);
    s.signal(Mode::TextEntry);
    assert_eq!(s.peek(), Mode::TextEntry);
}
