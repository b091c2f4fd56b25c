//! Edge detection for the button matrix.
//!
//! The scanner polls key levels; the rest of the system wants edges: one
//! [`ButtonEvent`] per debounced transition, in physical key order, and no
//! duplicate "no change" reports. This module turns a freshly polled level
//! snapshot into exactly the events that changed since the last snapshot;
//! the GPIO polling itself stays outside.

use vstd::prelude::*;
use crate::events::{ButtonEvent, ButtonId};

verus! {

/// Number of physical keys in the matrix.
pub const KEY_COUNT: usize = 12;

/// The key at a matrix position, in scan order.
pub open spec fn spec_key_of_index(i: int) -> ButtonId {
    if i == 0 {
        ButtonId::MetronomeStart
    } else if i == 1 {
        ButtonId::MetronomeStop
    } else if i == 2 {
        ButtonId::Shift
    } else if i == 3 {
        ButtonId::Menu
    } else if i == 4 {
        ButtonId::MetronomeTempoPlus
    } else if i == 5 {
        ButtonId::MetronomeTempoMinus
    } else if i == 6 {
        ButtonId::MetronomeBrightPlus
    } else if i == 7 {
        ButtonId::MetronomeBrightMinus
    } else if i == 8 {
        ButtonId::Next
    } else if i == 9 {
        ButtonId::Previous
    } else if i == 10 {
        ButtonId::Stop
    } else {
        ButtonId::Start
    }
}

/// Executable key lookup.
pub fn key_of_index(i: usize) -> (r: ButtonId)
    requires
        i < KEY_COUNT,
    ensures
        r == spec_key_of_index(i as int),
{
    if i == 0 {
        ButtonId::MetronomeStart
    } else if i == 1 {
        ButtonId::MetronomeStop
    } else if i == 2 {
        ButtonId::Shift
    } else if i == 3 {
        ButtonId::Menu
    } else if i == 4 {
        ButtonId::MetronomeTempoPlus
    } else if i == 5 {
        ButtonId::MetronomeTempoMinus
    } else if i == 6 {
        ButtonId::MetronomeBrightPlus
    } else if i == 7 {
        ButtonId::MetronomeBrightMinus
    } else if i == 8 {
        ButtonId::Next
    } else if i == 9 {
        ButtonId::Previous
    } else if i == 10 {
        ButtonId::Stop
    } else {
        ButtonId::Start
    }
}

/// The events for the first `i` keys of a transition from `prev` to `cur`:
/// one per changed level, carrying the new level, in key order.
pub open spec fn spec_edges_upto(prev: Seq<bool>, cur: Seq<bool>, i: int) -> Seq<ButtonEvent>
    decreases i,
{
    if i <= 0 {
        Seq::<ButtonEvent>::empty()
    } else {
        spec_edges_upto(prev, cur, i - 1) + if cur[i - 1] != prev[i - 1] {
            seq![ButtonEvent { id: spec_key_of_index(i - 1), pressed: cur[i - 1] }]
        } else {
            Seq::<ButtonEvent>::empty()
        }
    }
}

/// The edge detector: remembers the level snapshot it reported last.
#[derive(Clone, Copy, Debug, PartialEq, Eq)]
pub struct EdgeDetector {
    pub last: [bool; KEY_COUNT],
}

impl EdgeDetector {
    /// A detector that has seen every key released.
    pub fn new() -> (r: Self)
        ensures
            forall|i: int| 0 <= i < KEY_COUNT ==> !r.last@[i],
    {
        EdgeDetector { last: [false;KEY_COUNT] }
    }

    /// Consumes one polled snapshot and returns the edge events since the
    /// previous one — exactly the keys whose level changed, each reported
    /// once with its new level, in key order.
    pub fn step(&mut self, levels: [bool; KEY_COUNT]) -> (events: Vec<ButtonEvent>)
        ensures
            final(self).last == levels,
            events@ == spec_edges_upto(old(self).last@, levels@, KEY_COUNT as int),
    {
        let mut events: Vec<ButtonEvent> = Vec::new();
        let mut i: usize = 0;
        while i < KEY_COUNT
            invariant
                i <= KEY_COUNT,
                self == old(self),
                events@ == spec_edges_upto(old(self).last@, levels@, i as int),
            decreases KEY_COUNT - i,
        {
            if levels[i] != self.last[i] {
                events.push(ButtonEvent { id: key_of_index(i), pressed: levels[i] });
            }
            proof {
                assert(events@ =~= spec_edges_upto(old(self).last@, levels@, i as int + 1));
            }
            i += 1;
        }
        self.last = levels;
        events
    }
}

/// Law (edge triggering): a snapshot equal to the previous one produces no
/// event at all — levels are never re-reported, only transitions are.
pub proof fn lemma_no_edges_without_change(levels: Seq<bool>, i: int)
    ensures
        spec_edges_upto(levels, levels, i) == Seq::<ButtonEvent>::empty(),
    decreases i,
{
    if i > 0 {
        lemma_no_edges_without_change(levels, i - 1);
        assert(spec_edges_upto(levels, levels, i) =~= Seq::<ButtonEvent>::empty());
    }
}

/// Law: every reported event is a real transition with the new level, and
/// a key that did not change is not reported.
pub proof fn lemma_edges_are_exactly_the_changes(prev: Seq<bool>, cur: Seq<bool>, i: int)
    requires
        0 <= i,
        prev.len() >= i,
        cur.len() >= i,
    ensures
        forall|e: int|
            0 <= e < spec_edges_upto(prev, cur, i).len() ==> {
                let ev = #[trigger] spec_edges_upto(prev, cur, i)[e];
                exists|k: int|
                    0 <= k < i && prev[k] != cur[k] && ev == (ButtonEvent {
                        id: spec_key_of_index(k),
                        pressed: cur[k],
                    })
            },
    decreases i,
{
    if i > 0 {
        lemma_edges_are_exactly_the_changes(prev, cur, i - 1);
        assert forall|e: int|
            0 <= e < spec_edges_upto(prev, cur, i).len() implies {
            let ev = #[trigger] spec_edges_upto(prev, cur, i)[e];
            exists|k: int|
                0 <= k < i && prev[k] != cur[k] && ev == (ButtonEvent {
                    id: spec_key_of_index(k),
                    pressed: cur[k],
                })
        } by {
            let shorter = spec_edges_upto(prev, cur, i - 1);
            if e < shorter.len() {
                let ev = shorter[e];
                let k = choose|k: int|
                    0 <= k < i - 1 && prev[k] != cur[k] && ev == (ButtonEvent {
                        id: spec_key_of_index(k),
                        pressed: cur[k],
                    });
                assert(0 <= k < i && prev[k] != cur[k] && spec_edges_upto(prev, cur, i)[e]
                    == (ButtonEvent { id: spec_key_of_index(k), pressed: cur[k] }));
            } else {
                assert(prev[i - 1] != cur[i - 1]);
                assert(spec_edges_upto(prev, cur, i)[e] == (ButtonEvent {
                    id: spec_key_of_index(i - 1),
                    pressed: cur[i - 1],
                }));
            }
        }
    }
}

} // verus!
