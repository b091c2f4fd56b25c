//! The action bus: bounded queues and the fan-out policy.
//!
//! Two inbound queues (`ACTION_SRC` from the translator, `ACTION_UPSTREAM`
//! from every other producer) feed a fan-out step that republishes each
//! action to independent subscriber queues — network control, UI, text
//! entry, LEDs, metronome control — with a non-blocking enqueue: a full
//! subscriber queue drops that action for that subscriber only and never
//! stalls the others.

use vstd::prelude::*;
use crate::events::Action;

verus! {

/// How often `a` occurs in `s`.
pub open spec fn count_occurrences(s: Seq<Action>, a: Action) -> nat
    decreases s.len(),
{
    if s.len() == 0 {
        0
    } else {
        count_occurrences(s.drop_last(), a) + if s.last() == a {
            1nat
        } else {
            0nat
        }
    }
}

/// What one non-blocking enqueue leaves in a queue of capacity `cap`: the
/// action appended when there is room, the queue untouched when there is
/// none.
pub open spec fn spec_try_send(q: Seq<Action>, cap: nat, a: Action) -> Seq<Action> {
    if q.len() < cap {
        q.push(a)
    } else {
        q
    }
}

/// A bounded single-writer FIFO queue of actions. The capacity is fixed at
/// construction; an enqueue on a full queue either blocks the caller (not a
/// library concern — the caller retries) or, through [`ActionQueue::try_send`],
/// drops the item.
#[derive(Debug)]
pub struct ActionQueue {
    items: Vec<Action>,
    cap: usize,
}

impl View for ActionQueue {
    type V = Seq<Action>;

    closed spec fn view(&self) -> Seq<Action> {
        self.items@
    }
}

impl ActionQueue {
    /// The queue's fixed capacity.
    pub closed spec fn spec_capacity(&self) -> nat {
        self.cap as nat
    }

    /// Every queue holds at most its capacity.
    pub closed spec fn wf(&self) -> bool {
        self.items@.len() <= self.cap
    }

    /// An empty queue of capacity `cap`.
    pub fn new(cap: usize) -> (r: Self)
        ensures
            r.wf(),
            r@ == Seq::<Action>::empty(),
            r.spec_capacity() == cap,
    {
        let r = ActionQueue { items: Vec::new(), cap };
        proof {
            assert(r@ =~= Seq::<Action>::empty());
        }
        r
    }

    /// Number of queued actions.
    pub fn len(&self) -> (r: usize)
        requires
            self.wf(),
        ensures
            r == self@.len(),
    {
        self.items.len()
    }

    /// The queue's capacity.
    pub fn capacity(&self) -> (r: usize)
        ensures
            r == self.spec_capacity(),
    {
        self.cap
    }

    /// Whether an enqueue would be dropped.
    pub fn is_full(&self) -> (r: bool)
        requires
            self.wf(),
        ensures
            r == (self@.len() == self.spec_capacity()),
    {
        self.items.len() == self.cap
    }

    /// Non-blocking enqueue: appends `a` and returns `true`, unless the
    /// queue is full, in which case `a` is dropped for this queue and the
    /// queue is untouched.
    pub fn try_send(&mut self, a: Action) -> (ok: bool)
        requires
            old(self).wf(),
        ensures
            final(self).wf(),
            final(self).spec_capacity() == old(self).spec_capacity(),
            ok == (old(self)@.len() < old(self).spec_capacity()),
            ok ==> final(self)@ == old(self)@.push(a),
            !ok ==> final(self)@ == old(self)@,
    {
        if self.items.len() < self.cap {
            self.items.push(a);
            true
        } else {
            false
        }
    }

    /// Dequeues the oldest action, if any.
    pub fn recv(&mut self) -> (r: Option<Action>)
        requires
            old(self).wf(),
        ensures
            final(self).wf(),
            final(self).spec_capacity() == old(self).spec_capacity(),
            old(self)@.len() == 0 ==> r is None && final(self)@ == old(self)@,
            old(self)@.len() > 0 ==> r == Some(old(self)@[0]) && final(self)@ == old(
                self,
            )@.drop_first(),
    {
        if self.items.len() > 0 {
            let a = self.items.remove(0);
            proof {
                assert(self@ =~= old(self)@.drop_first());
            }
            Some(a)
        } else {
            None
        }
    }
}

/// Republishes one bus-level action to the five subscriber queues with a
/// non-blocking enqueue each. Returns, in order, whether the network
/// control, UI, text entry, LED and metronome control queue accepted the
/// action.
///
/// Each queue's outcome depends on that queue alone: a full subscriber
/// loses this action, the others still receive it.
pub fn fanout_step(
    a: Action,
    control: &mut ActionQueue,
    ui: &mut ActionQueue,
    ux: &mut ActionQueue,
    led: &mut ActionQueue,
    metr: &mut ActionQueue,
) -> (delivered: (bool, bool, bool, bool, bool))
    requires
        old(control).wf(),
        old(ui).wf(),
        old(ux).wf(),
        old(led).wf(),
        old(metr).wf(),
    ensures
        final(control).wf(),
        final(ui).wf(),
        final(ux).wf(),
        final(led).wf(),
        final(metr).wf(),
        delivered.0 == (old(control)@.len() < old(control).spec_capacity()),
        delivered.1 == (old(ui)@.len() < old(ui).spec_capacity()),
        delivered.2 == (old(ux)@.len() < old(ux).spec_capacity()),
        delivered.3 == (old(led)@.len() < old(led).spec_capacity()),
        delivered.4 == (old(metr)@.len() < old(metr).spec_capacity()),
        final(control)@ == spec_try_send(old(control)@, old(control).spec_capacity(), a),
        final(ui)@ == spec_try_send(old(ui)@, old(ui).spec_capacity(), a),
        final(ux)@ == spec_try_send(old(ux)@, old(ux).spec_capacity(), a),
        final(led)@ == spec_try_send(old(led)@, old(led).spec_capacity(), a),
        final(metr)@ == spec_try_send(old(metr)@, old(metr).spec_capacity(), a),
{
    let d0 = control.try_send(a);
    let d1 = ui.try_send(a);
    let d2 = ux.try_send(a);
    let d3 = led.try_send(a);
    let d4 = metr.try_send(a);
    (d0, d1, d2, d3, d4)
}

/// Appending one action raises the count of every action by at most one.
proof fn lemma_count_push(s: Seq<Action>, pushed: Action, a: Action)
    ensures
        count_occurrences(s.push(pushed), a) == count_occurrences(s, a) + if pushed == a {
            1nat
        } else {
            0nat
        },
{
    assert(s.push(pushed).drop_last() =~= s);
}

/// Law: one fan-out of one action delivers it at most once to each
/// subscriber queue — the queue's count of that action grows by exactly
/// one when the queue had room, not at all when it was full, and counts of
/// every other action stay put. `spec_try_send` is a function of the one
/// queue and the action alone, so a full subscriber never blocks or alters
/// delivery to the others.
pub proof fn lemma_fanout_delivers_at_most_once(before: Seq<Action>, cap: nat, a: Action)
    ensures
        count_occurrences(spec_try_send(before, cap, a), a) == count_occurrences(before, a) + if
            before.len() < cap {
            1nat
        } else {
            0nat
        },
        forall|other: Action|
            other != a ==> count_occurrences(spec_try_send(before, cap, a), other)
                == count_occurrences(before, other),
{
    if before.len() < cap {
        lemma_count_push(before, a, a);
        assert forall|other: Action|
            other != a implies count_occurrences(spec_try_send(before, cap, a), other)
            == count_occurrences(before, other) by {
            lemma_count_push(before, a, other);
        }
    }
}

} // verus!
