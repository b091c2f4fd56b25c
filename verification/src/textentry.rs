//! The text-entry editor: a bounded line buffer driven by translated
//! actions, which on confirmation parses its content into the system-state
//! field its context names.
//!
//! A session begins with a `TextEntryStart` and ends with a `Confirm`;
//! characters and backspaces in between edit the buffer and republish it as
//! `TextEntryUpdate` so the display can follow. Parsing failures fall back
//! to default values, never to a panic.

use vstd::prelude::*;
use crate::events::{Action, IpAddress, Mode, TextEntryContext};
use crate::parse::{
    parse_ipv4, parse_u16, spec_decimal_value, spec_digits_of, spec_ipv4_ok, spec_ipv4_split_at,
    spec_parse_u16_ok,
};
use crate::state::SystemState;
use crate::text::TextBuffer;

verus! {

/// The editor's state: the line being edited, the write position, and
/// which field the session edits.
#[derive(Clone, Copy, Debug, PartialEq, Eq)]
pub struct TextEntryEditor {
    pub buffer: TextBuffer<32>,
    pub cursor: usize,
    pub ctx: TextEntryContext,
}

/// What one editor step produced: actions for the upstream queue, and
/// whether the session is over.
pub struct TextEntryStep {
    pub emitted: Vec<Action>,
    pub done: bool,
}

impl TextEntryEditor {
    /// The cursor always sits at the end of a well-formed buffer.
    pub open spec fn wf(&self) -> bool {
        self.buffer.wf() && self.cursor == self.buffer@.len()
    }

    /// A fresh editor with an empty line and no context.
    pub fn new() -> (r: Self)
        ensures
            r.wf(),
            r.buffer@ == Seq::<u8>::empty(),
            r.ctx == TextEntryContext::Unknown,
    {
        TextEntryEditor { buffer: TextBuffer::empty(), cursor: 0, ctx: TextEntryContext::Unknown }
    }
}

/// An editor step that ignores its input: nothing moves, nothing is said.
pub open spec fn spec_editor_inert(
    s0: TextEntryEditor,
    st0: SystemState,
    s1: TextEntryEditor,
    st1: SystemState,
    emitted: Seq<Action>,
    done: bool,
) -> bool {
    &&& s1 == s0
    &&& st1 == st0
    &&& emitted == Seq::<Action>::empty()
    &&& !done
}

/// All of the system state except the core endpoint is left alone.
pub open spec fn spec_rest_unchanged(st0: SystemState, st1: SystemState) -> bool {
    &&& st1.cue_metadata == st0.cue_metadata
    &&& st1.cue_idx == st0.cue_idx
    &&& st1.beat_idx == st0.beat_idx
    &&& st1.beat == st0.beat
    &&& st1.mark_label == st0.mark_label
    &&& st1.bpm == st0.bpm
    &&& st1.self_ip == st0.self_ip
}

/// How a confirmation writes the buffer back into the system state. A port
/// field takes the parsed decimal, or zero when the text does not parse; an
/// address field takes the parsed dotted quad keeping the old port, or
/// falls back whole — port included — to the unset endpoint.
pub open spec fn spec_confirmed_state(
    s0: TextEntryEditor,
    st0: SystemState,
    st1: SystemState,
) -> bool {
    match s0.ctx {
        TextEntryContext::CorePort => {
            &&& spec_rest_unchanged(st0, st1)
            &&& st1.core_ip.addr == st0.core_ip.addr
            &&& st1.core_ip.port == if spec_parse_u16_ok(s0.buffer@) {
                spec_decimal_value(spec_digits_of(s0.buffer@)) as u16
            } else {
                0u16
            }
        },
        TextEntryContext::CoreIPv4 => {
            &&& spec_rest_unchanged(st0, st1)
            &&& (spec_ipv4_ok(s0.buffer@) ==> st1.core_ip.port == st0.core_ip.port && (exists|
                i: int,
                j: int,
                k: int,
            |
                spec_ipv4_split_at(s0.buffer@, i, j, k) && st1.core_ip.addr@[0]
                    == spec_decimal_value(s0.buffer@.subrange(0, i)) && st1.core_ip.addr@[1]
                    == spec_decimal_value(s0.buffer@.subrange(i + 1, j)) && st1.core_ip.addr@[2]
                    == spec_decimal_value(s0.buffer@.subrange(j + 1, k)) && st1.core_ip.addr@[3]
                    == spec_decimal_value(
                    s0.buffer@.subrange(k + 1, s0.buffer@.len() as int),
                )))
            &&& (!spec_ipv4_ok(s0.buffer@) ==> st1.core_ip.addr@ == seq![0u8, 0u8, 0u8, 0u8]
                && st1.core_ip.port == 0)
        },
        TextEntryContext::Unknown => st1 == st0,
    }
}

/// One editor step for one consumed action.
pub open spec fn spec_editor_step(
    s0: TextEntryEditor,
    st0: SystemState,
    action: Action,
    s1: TextEntryEditor,
    st1: SystemState,
    emitted: Seq<Action>,
    done: bool,
) -> bool {
    match action {
        Action::TextEntryStart { ctx, initial_value } => {
            &&& s1.ctx == ctx
            &&& s1.buffer == initial_value
            &&& s1.cursor == initial_value@.len()
            &&& st1 == st0
            &&& emitted == Seq::<Action>::empty()
            &&& !done
        },
        Action::Character(d) => {
            if s0.cursor < 31 {
                &&& s1.buffer@ == s0.buffer@.push(d)
                &&& s1.cursor == s0.cursor + 1
                &&& s1.ctx == s0.ctx
                &&& st1 == st0
                &&& emitted == seq![
                    Action::TextEntryUpdate { ctx: s0.ctx, value: s1.buffer },
                ]
                &&& !done
            } else {
                spec_editor_inert(s0, st0, s1, st1, emitted, done)
            }
        },
        Action::Backspace => {
            if s0.cursor > 0 {
                &&& s1.buffer@ == s0.buffer@.drop_last()
                &&& s1.cursor == s0.cursor - 1
                &&& s1.ctx == s0.ctx
                &&& st1 == st0
                &&& emitted == seq![
                    Action::TextEntryUpdate { ctx: s0.ctx, value: s1.buffer },
                ]
                &&& !done
            } else {
                spec_editor_inert(s0, st0, s1, st1, emitted, done)
            }
        },
        Action::Confirm => {
            &&& s1 == s0
            &&& spec_confirmed_state(s0, st0, st1)
            &&& emitted == seq![Action::ModeChange(Mode::Menu)]
            &&& done
        },
        _ => spec_editor_inert(s0, st0, s1, st1, emitted, done),
    }
}

impl TextEntryEditor {
    /// Consumes one action during an editing session. `state` is the
    /// shared system state the confirmation writes into; emitted actions
    /// belong on the upstream queue.
    pub fn handle(&mut self, action: Action, state: &mut SystemState) -> (out: TextEntryStep)
        requires
            old(self).wf(),
            action matches Action::TextEntryStart { initial_value, .. } ==> initial_value.wf(),
        ensures
            final(self).wf(),
            spec_editor_step(
                *old(self),
                *old(state),
                action,
                *final(self),
                *final(state),
                out.emitted@,
                out.done,
            ),
    {
        let mut emitted: Vec<Action> = Vec::new();
        let mut done = false;
        match action {
            Action::TextEntryStart { ctx, initial_value } => {
                self.ctx = ctx;
                self.buffer = initial_value;
                self.cursor = self.buffer.len();
            },
            Action::Character(d) => {
                if self.cursor < 31 {
                    self.buffer.push(d);
                    self.cursor = self.cursor + 1;
                    emitted.push(Action::TextEntryUpdate { ctx: self.ctx, value: self.buffer });
                }
            },
            Action::Backspace => {
                if self.cursor > 0 {
                    self.buffer.pop();
                    self.cursor = self.cursor - 1;
                    emitted.push(Action::TextEntryUpdate { ctx: self.ctx, value: self.buffer });
                }
            },
            Action::Confirm => {
                match self.ctx {
                    TextEntryContext::CorePort => {
                        let port: u16 = match parse_u16(&self.buffer) {
                            Some(v) => v,
                            None => 0,
                        };
                        state.core_ip = IpAddress { addr: state.core_ip.addr, port };
                    },
                    TextEntryContext::CoreIPv4 => {
                        match parse_ipv4(&self.buffer) {
                            Some(oct) => {
                                state.core_ip = IpAddress {
                                    addr: oct,
                                    port: state.core_ip.port,
                                };
                            },
                            None => {
                                state.core_ip = IpAddress {
                                    addr: [0u8, 0u8, 0u8, 0u8],
                                    port: 0,
                                };
                            },
                        }
                    },
                    TextEntryContext::Unknown => {},
                }
                emitted.push(Action::ModeChange(Mode::Menu));
                done = true;
            },
            _ => {},
        }
        TextEntryStep { emitted, done }
    }
}

} // verus!
