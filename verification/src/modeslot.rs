//! The "latest value, may be missed" broadcast slot for the current mode.
//!
//! A single-slot mailbox: a send overwrites whatever was there, and a waiter
//! consumes the freshness of a value at most once. The value itself stays
//! readable until the next send, so late readers still see the latest mode.

use vstd::prelude::*;
use crate::events::Mode;

verus! {

/// The mode broadcast slot. It always holds the mode signalled last (the
/// power-on value until then); `fresh` records whether that value has been
/// consumed by a waiter yet.
#[derive(Clone, Copy, Debug, PartialEq, Eq, Structural)]
pub struct ModeSlot {
    pub value: Mode,
    pub fresh: bool,
}

impl ModeSlot {
    /// The slot as the system boots: `Lock`, not yet consumed by anyone.
    pub fn new() -> (r: Self)
        ensures
            r == (ModeSlot { value: Mode::Lock, fresh: false }),
    {
        ModeSlot { value: Mode::Lock, fresh: false }
    }

    /// Publishes a mode: overwrites the slot and marks it fresh, whatever
    /// was there before.
    pub fn signal(&mut self, m: Mode)
        ensures
            *final(self) == (ModeSlot { value: m, fresh: true }),
    {
        self.value = m;
        self.fresh = true;
    }

    /// Consumes the slot: returns the current value when it is fresh, and
    /// marks it consumed. The value itself is kept.
    pub fn try_take(&mut self) -> (r: Option<Mode>)
        ensures
            final(self).value == old(self).value,
            final(self).fresh == false,
            r == if old(self).fresh {
                Some(old(self).value)
            } else {
                None::<Mode>
            },
    {
        if self.fresh {
            self.fresh = false;
            Some(self.value)
        } else {
            None
        }
    }

    /// Reads the latest value without consuming its freshness.
    pub fn peek(&self) -> (r: Mode)
        ensures
            r == self.value,
    {
        self.value
    }
}

/// One operation on the slot, for stating laws over operation sequences.
pub enum SlotOp {
    Signal(Mode),
    Take,
}

/// The slot after one operation: what `signal` and `try_take` do to it.
pub open spec fn spec_slot_step(s: ModeSlot, op: SlotOp) -> ModeSlot {
    match op {
        SlotOp::Signal(m) => ModeSlot { value: m, fresh: true },
        SlotOp::Take => ModeSlot { value: s.value, fresh: false },
    }
}

/// The slot after a sequence of operations, applied left to right.
pub open spec fn spec_slot_run(s: ModeSlot, ops: Seq<SlotOp>) -> ModeSlot
    decreases ops.len(),
{
    if ops.len() == 0 {
        s
    } else {
        spec_slot_run(spec_slot_step(s, ops[0]), ops.drop_first())
    }
}

/// Law: once a mode is signalled, every later read of the slot returns that
/// very value until the next signal overwrites it — no number of consuming
/// reads in between changes the value, only its freshness.
pub proof fn lemma_slot_holds_value_until_next_signal(s: ModeSlot, m: Mode, ops: Seq<SlotOp>)
    requires
        forall|i: int| 0 <= i < ops.len() ==> !(ops[i] is Signal),
    ensures
        spec_slot_run(spec_slot_step(s, SlotOp::Signal(m)), ops).value == m,
    decreases ops.len(),
{
    let after = spec_slot_step(s, SlotOp::Signal(m));
    if ops.len() > 0 {
        assert(ops[0] is Take);
        assert(spec_slot_step(after, ops[0]).value == m);
        lemma_slot_value_stable(spec_slot_step(after, ops[0]), ops.drop_first());
    }
}

/// A run of consuming reads leaves the stored value untouched.
proof fn lemma_slot_value_stable(s: ModeSlot, ops: Seq<SlotOp>)
    requires
        forall|i: int| 0 <= i < ops.len() ==> !(ops[i] is Signal),
    ensures
        spec_slot_run(s, ops).value == s.value,
    decreases ops.len(),
{
    if ops.len() > 0 {
        assert(ops[0] is Take);
        lemma_slot_value_stable(spec_slot_step(s, ops[0]), ops.drop_first());
    }
}

} // verus!
