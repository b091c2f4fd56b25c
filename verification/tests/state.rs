use clicks_remote::events::Beat;
use clicks_remote::state::{SystemState, TrackedValue};
use clicks_remote::text::TextBuffer;

#[test]
fn tracked_value_marks_and_clears_dirt() {
    let mut t: TrackedValue<u16> = TrackedValue::new(5);
    assert!(!t.dirty);
    assert_eq!(t.peek(), 5);
    assert!(!t.dirty); // peek never touches the mark
    t.set(9);
    assert!(t.dirty);
    assert_eq!(t.read(), 9);
    assert!(!t.dirty);
}

#[test]
fn tracked_value_read_dirty_fires_once_per_change() {
    let mut t: TrackedValue<u16> = TrackedValue::new(1);
    assert_eq!(t.read_dirty(), None); // fresh cells are clean
    t.set(2);
    assert_eq!(t.read_dirty(), Some(2));
    assert_eq!(t.read_dirty(), None); // consumed
    t.set(2); // same value still counts as a change
    assert_eq!(t.read_dirty(), Some(2));
}

#[test]
fn tracked_value_read_ref_clears_the_mark() {
    let mut t: TrackedValue<Beat> = TrackedValue::new(Beat { tempo: 120, index: 1 });
    t.set(Beat { tempo: 90, index: 2 });
    assert_eq!(*t.read_ref(), Beat { tempo: 90, index: 2 });
    assert!(!t.dirty);
}

#[test]
fn system_state_starts_with_factory_defaults() {
    let s = SystemState::new();
    assert_eq!(s.cue_idx, 0);
    assert_eq!(s.beat_idx, 0);
    assert_eq!(s.beat, Beat { tempo: 0, index: 0 });
    assert_eq!(s.bpm, 120);
    assert_eq!(s.mark_label.len(), 0);
    assert_eq!(s.core_ip.addr, [192, 168, 1, 135]);
    assert_eq!(s.core_ip.port, 8081);
    assert_eq!(s.self_ip.addr, [0, 0, 0, 0]);
    assert_eq!(s.self_ip.port, 0);
}

#[test]
fn text_buffer_pushes_pops_and_truncates() {
    let mut b: TextBuffer<32> = TextBuffer::empty();
    assert_eq!(b.len(), 0);
    b.push(b'a');
    b.push(b'b');
    assert_eq!(b.len(), 2);
    assert_eq!(b.byte_at(0), b'a');
    assert_eq!(b.byte_at(1), b'b');
    b.pop();
    assert_eq!(b.len(), 1);
    b.pop();
    b.pop(); // popping empty is silent
    assert_eq!(b.len(), 0);
    // Pushing past the capacity truncates silently.
    for _ in 0..40 {
        b.push(b'z');
    }
    assert_eq!(b.len(), 32);
}

#[test]
fn text_buffer_from_bytes_copies_up_to_capacity() {
    let b: TextBuffer<8> = TextBuffer::from_bytes(b"overflowing");
    assert_eq!(b.len(), 8);
    assert_eq!(b.byte_at(0), b'o');
    assert_eq!(b.byte_at(7), b'w');
    let small: TextBuffer<8> = TextBuffer::from_bytes(b"hi");
    assert_eq!(small.len(), 2);
}
