//! The mode-aware input translator.
//!
//! The translator consumes raw button edge events and upstream actions,
//! holds the current [`Mode`], the shift-modifier flag and the playing flag,
//! and produces semantic [`Action`]s through a total lookup table. Every
//! emission is paired with a fresh signal of the current mode for the mode
//! broadcast slot.

use vstd::prelude::*;
use crate::events::{
    Action, ButtonEvent, ButtonId, ControlAction, JumpModeChange, Mode, Request,
};

verus! {

/// The mode-dependent button mapping as a mathematical function.
///
/// `Lock` accepts exactly one combination (shift + Stop) and unlocks into
/// `Main`; `Main` maps transport, tempo and navigation keys, with shift
/// changing magnitude or meaning; `Menu` maps navigation; `TextEntry` maps a
/// fixed subset of keys to digits and punctuation.
pub open spec fn spec_action_lut(mode: Mode, shift: bool, id: ButtonId, playing: bool) -> Option<
    Action,
> {
    match (mode, shift, id) {
        (Mode::Lock, _, ButtonId::Start) => None,
        (Mode::Lock, true, ButtonId::Stop) => Some(Action::ModeChange(Mode::Main)),
        (Mode::Lock, _, _) => None,
        (Mode::Main, false, ButtonId::Menu) => Some(Action::ModeChange(Mode::Menu)),
        (Mode::Main, false, ButtonId::Next) => Some(
            Action::RequestToCore(Request::ControlAction(ControlAction::LoadNextCue)),
        ),
        (Mode::Main, false, ButtonId::Previous) => Some(
            Action::RequestToCore(Request::ControlAction(ControlAction::LoadPreviousCue)),
        ),
        (Mode::Main, true, ButtonId::Previous) => Some(
            Action::RequestToCore(Request::ControlAction(ControlAction::TransportZero)),
        ),
        (Mode::Main, _, ButtonId::Start) => Some(
            Action::RequestToCore(
                Request::ControlAction(
                    if playing {
                        ControlAction::ChangeJumpMode(JumpModeChange::Toggle)
                    } else {
                        ControlAction::TransportStart
                    },
                ),
            ),
        ),
        (Mode::Main, false, ButtonId::Stop) => Some(
            Action::RequestToCore(Request::ControlAction(ControlAction::TransportStop)),
        ),
        (Mode::Main, true, ButtonId::Stop) => Some(Action::ModeChange(Mode::Lock)),
        (Mode::Main, false, ButtonId::MetronomeStop) => Some(Action::MetronomeStop),
        (Mode::Main, false, ButtonId::MetronomeStart) => Some(Action::MetronomeStart),
        (Mode::Main, false, ButtonId::MetronomeTempoPlus) => Some(Action::MetronomeAddTempo(1)),
        (Mode::Main, false, ButtonId::MetronomeTempoMinus) => Some(Action::MetronomeAddTempo(-1i64)),
        (Mode::Main, true, ButtonId::MetronomeStart) => Some(Action::MetronomeTempoTap),
        (Mode::Main, true, ButtonId::MetronomeTempoPlus) => Some(Action::MetronomeAddTempo(10)),
        (Mode::Main, true, ButtonId::MetronomeTempoMinus) => Some(Action::MetronomeAddTempo(-10i64)),
        (Mode::Menu, false, ButtonId::Next) => Some(Action::NextItem),
        (Mode::Menu, false, ButtonId::Previous) => Some(Action::PreviousItem),
        (Mode::Menu, false, ButtonId::Menu) => Some(Action::SelectItem),
        (Mode::Menu, true, ButtonId::Menu) => Some(Action::ModeChange(Mode::Main)),
        (Mode::TextEntry, false, ButtonId::Menu) => Some(Action::Confirm),
        (Mode::TextEntry, true, ButtonId::Menu) => Some(Action::ModeChange(Mode::Menu)),
        // Digit entry: the keys become the ASCII digits 1-9 and 0, a dot
        // and a space, for numeric field editing.
        (Mode::TextEntry, false, ButtonId::MetronomeStop) => Some(Action::Character(49u8)),
        (Mode::TextEntry, false, ButtonId::MetronomeStart) => Some(Action::Character(50u8)),
        (Mode::TextEntry, false, ButtonId::MetronomeTempoPlus) => Some(Action::Character(51u8)),
        (Mode::TextEntry, false, ButtonId::MetronomeBrightPlus) => Some(Action::Character(52u8)),
        (Mode::TextEntry, false, ButtonId::MetronomeTempoMinus) => Some(Action::Character(53u8)),
        (Mode::TextEntry, false, ButtonId::MetronomeBrightMinus) => Some(Action::Character(54u8)),
        (Mode::TextEntry, false, ButtonId::Previous) => Some(Action::Backspace),
        (Mode::TextEntry, true, ButtonId::MetronomeStop) => Some(Action::Character(55u8)),
        (Mode::TextEntry, true, ButtonId::MetronomeStart) => Some(Action::Character(56u8)),
        (Mode::TextEntry, true, ButtonId::MetronomeTempoPlus) => Some(Action::Character(57u8)),
        (Mode::TextEntry, true, ButtonId::MetronomeBrightPlus) => Some(Action::Character(48u8)),
        (Mode::TextEntry, true, ButtonId::MetronomeTempoMinus) => Some(Action::Character(46u8)),
        (Mode::TextEntry, true, ButtonId::MetronomeBrightMinus) => Some(Action::Character(32u8)),
        _ => None,
    }
}

/// Executable form of the button mapping; total and side-effect-free.
pub fn action_lut(mode: Mode, shift: bool, id: ButtonId, playing: bool) -> (r: Option<Action>)
    ensures
        r == spec_action_lut(mode, shift, id, playing),
{
    match (mode, shift, id) {
        (Mode::Lock, _, ButtonId::Start) => None,
        (Mode::Lock, true, ButtonId::Stop) => Some(Action::ModeChange(Mode::Main)),
        (Mode::Lock, _, _) => None,
        (Mode::Main, false, ButtonId::Menu) => Some(Action::ModeChange(Mode::Menu)),
        (Mode::Main, false, ButtonId::Next) => Some(
            Action::RequestToCore(Request::ControlAction(ControlAction::LoadNextCue)),
        ),
        (Mode::Main, false, ButtonId::Previous) => Some(
            Action::RequestToCore(Request::ControlAction(ControlAction::LoadPreviousCue)),
        ),
        (Mode::Main, true, ButtonId::Previous) => Some(
            Action::RequestToCore(Request::ControlAction(ControlAction::TransportZero)),
        ),
        (Mode::Main, _, ButtonId::Start) => Some(
            Action::RequestToCore(
                Request::ControlAction(
                    if playing {
                        ControlAction::ChangeJumpMode(JumpModeChange::Toggle)
                    } else {
                        ControlAction::TransportStart
                    },
                ),
            ),
        ),
        (Mode::Main, false, ButtonId::Stop) => Some(
            Action::RequestToCore(Request::ControlAction(ControlAction::TransportStop)),
        ),
        (Mode::Main, true, ButtonId::Stop) => Some(Action::ModeChange(Mode::Lock)),
        (Mode::Main, false, ButtonId::MetronomeStop) => Some(Action::MetronomeStop),
        (Mode::Main, false, ButtonId::MetronomeStart) => Some(Action::MetronomeStart),
        (Mode::Main, false, ButtonId::MetronomeTempoPlus) => Some(Action::MetronomeAddTempo(1)),
        (Mode::Main, false, ButtonId::MetronomeTempoMinus) => Some(Action::MetronomeAddTempo(-1i64)),
        (Mode::Main, true, ButtonId::MetronomeStart) => Some(Action::MetronomeTempoTap),
        (Mode::Main, true, ButtonId::MetronomeTempoPlus) => Some(Action::MetronomeAddTempo(10)),
        (Mode::Main, true, ButtonId::MetronomeTempoMinus) => Some(Action::MetronomeAddTempo(-10i64)),
        (Mode::Menu, false, ButtonId::Next) => Some(Action::NextItem),
        (Mode::Menu, false, ButtonId::Previous) => Some(Action::PreviousItem),
        (Mode::Menu, false, ButtonId::Menu) => Some(Action::SelectItem),
        (Mode::Menu, true, ButtonId::Menu) => Some(Action::ModeChange(Mode::Main)),
        (Mode::TextEntry, false, ButtonId::Menu) => Some(Action::Confirm),
        (Mode::TextEntry, true, ButtonId::Menu) => Some(Action::ModeChange(Mode::Menu)),
        // Digit entry: the keys become the ASCII digits 1-9 and 0, a dot
        // and a space, for numeric field editing.
        (Mode::TextEntry, false, ButtonId::MetronomeStop) => Some(Action::Character(49u8)),
        (Mode::TextEntry, false, ButtonId::MetronomeStart) => Some(Action::Character(50u8)),
        (Mode::TextEntry, false, ButtonId::MetronomeTempoPlus) => Some(Action::Character(51u8)),
        (Mode::TextEntry, false, ButtonId::MetronomeBrightPlus) => Some(Action::Character(52u8)),
        (Mode::TextEntry, false, ButtonId::MetronomeTempoMinus) => Some(Action::Character(53u8)),
        (Mode::TextEntry, false, ButtonId::MetronomeBrightMinus) => Some(Action::Character(54u8)),
        (Mode::TextEntry, false, ButtonId::Previous) => Some(Action::Backspace),
        (Mode::TextEntry, true, ButtonId::MetronomeStop) => Some(Action::Character(55u8)),
        (Mode::TextEntry, true, ButtonId::MetronomeStart) => Some(Action::Character(56u8)),
        (Mode::TextEntry, true, ButtonId::MetronomeTempoPlus) => Some(Action::Character(57u8)),
        (Mode::TextEntry, true, ButtonId::MetronomeBrightPlus) => Some(Action::Character(48u8)),
        (Mode::TextEntry, true, ButtonId::MetronomeTempoMinus) => Some(Action::Character(46u8)),
        (Mode::TextEntry, true, ButtonId::MetronomeBrightMinus) => Some(Action::Character(32u8)),
        _ => None,
    }
}

/// The translator's state: current mode, shift modifier, and whether the
/// core reported external playback as running.
#[derive(Clone, Copy, Debug, PartialEq, Eq, Structural)]
pub struct Translator {
    pub mode: Mode,
    pub shift: bool,
    pub playing: bool,
}

/// What one translator step asks its surroundings to do: publish `actions`
/// on the source action queue in order, and, when `mode_signal` is set,
/// overwrite the mode broadcast slot with that value.
pub struct Emit {
    pub actions: Vec<Action>,
    pub mode_signal: Option<Mode>,
}

/// The shift flag after a button event: the shift key tracks its own level,
/// every other key leaves the flag alone.
pub open spec fn spec_shift_after(t: Translator, ev: ButtonEvent) -> bool {
    if ev.id == ButtonId::Shift {
        ev.pressed
    } else {
        t.shift
    }
}

/// The action a button event produces: presses consult the table under the
/// updated shift flag; releases produce nothing.
pub open spec fn spec_button_action(t: Translator, ev: ButtonEvent) -> Option<Action> {
    if ev.pressed {
        spec_action_lut(t.mode, spec_shift_after(t, ev), ev.id, t.playing)
    } else {
        None
    }
}

/// How the translator adopts an action it is about to publish as
/// authoritative: a `ModeChange` moves the mode, a `TextEntryStart` forces
/// `TextEntry`, transport data updates the playing flag.
pub open spec fn spec_adopted(t: Translator, a: Action) -> Translator {
    match a {
        Action::ModeChange(m) => Translator { mode: m, shift: t.shift, playing: t.playing },
        Action::TextEntryStart { .. } => Translator {
            mode: Mode::TextEntry,
            shift: t.shift,
            playing: t.playing,
        },
        Action::NewTransportData(d) => Translator {
            mode: t.mode,
            shift: t.shift,
            playing: d.running,
        },
        _ => t,
    }
}

/// The actions published for one adopted action: a `TextEntryStart` is
/// preceded by the `ModeChange` it forces; everything else goes out alone.
pub open spec fn spec_emitted_for(a: Action) -> Seq<Action> {
    match a {
        Action::TextEntryStart { .. } => seq![Action::ModeChange(Mode::TextEntry), a],
        _ => seq![a],
    }
}

/// Translator state after a button event.
pub open spec fn spec_on_button_next(t: Translator, ev: ButtonEvent) -> Translator {
    let t1 = Translator { mode: t.mode, shift: spec_shift_after(t, ev), playing: t.playing };
    match spec_button_action(t, ev) {
        Some(a) => spec_adopted(t1, a),
        None => t1,
    }
}

/// Actions published for a button event.
pub open spec fn spec_on_button_emitted(t: Translator, ev: ButtonEvent) -> Seq<Action> {
    match spec_button_action(t, ev) {
        Some(a) => spec_emitted_for(a),
        None => Seq::<Action>::empty(),
    }
}

/// Mode broadcast for a button event: signalled exactly when something is
/// emitted, with the translator's resulting mode.
pub open spec fn spec_on_button_signal(t: Translator, ev: ButtonEvent) -> Option<Mode> {
    match spec_button_action(t, ev) {
        Some(_) => Some(spec_on_button_next(t, ev).mode),
        None => None,
    }
}

/// Translator state after observing an upstream action.
pub open spec fn spec_on_upstream_next(t: Translator, a: Action) -> Translator {
    spec_adopted(t, a)
}

impl Translator {
    /// The power-on translator: locked, no modifier, not playing.
    pub fn new() -> (r: Self)
        ensures
            r == (Translator { mode: Mode::Lock, shift: false, playing: false }),
    {
        Translator { mode: Mode::Lock, shift: false, playing: false }
    }

    /// Consumes one debounced button edge.
    ///
    /// The shift key always updates the modifier flag, on press and on
    /// release alike. A press is then looked up in the table; a hit is
    /// adopted and published together with a fresh mode signal. Releases and
    /// unmapped presses emit nothing and signal nothing.
    pub fn on_button(&mut self, ev: ButtonEvent) -> (out: Emit)
        ensures
            *final(self) == spec_on_button_next(*old(self), ev),
            out.actions@ == spec_on_button_emitted(*old(self), ev),
            out.mode_signal == spec_on_button_signal(*old(self), ev),
    {
        if ev.id == ButtonId::Shift {
            self.shift = ev.pressed;
        }
        let maybe_action: Option<Action> = if ev.pressed {
            action_lut(self.mode, self.shift, ev.id, self.playing)
        } else {
            None
        };
        match maybe_action {
            Some(action) => {
                let out = self.publish(action);
                proof {
                    assert(out.actions@ =~= spec_on_button_emitted(*old(self), ev));
                }
                out
            },
            None => {
                let out = Emit { actions: Vec::new(), mode_signal: None };
                proof {
                    assert(out.actions@ =~= spec_on_button_emitted(*old(self), ev));
                }
                out
            },
        }
    }

    /// Observes an action another task published and adopts it as
    /// authoritative, republishing it (and, for a forced text entry, the
    /// `ModeChange` it implies) together with a fresh mode signal — even
    /// when the mode value itself is unchanged.
    pub fn on_upstream(&mut self, a: Action) -> (out: Emit)
        ensures
            *final(self) == spec_on_upstream_next(*old(self), a),
            out.actions@ == spec_emitted_for(a),
            out.mode_signal == Some(spec_on_upstream_next(*old(self), a).mode),
    {
        let out = self.publish(a);
        proof {
            assert(out.actions@ =~= spec_emitted_for(a));
        }
        out
    }

    /// Adopts `action` and builds the emission that publishes it.
    fn publish(&mut self, action: Action) -> (out: Emit)
        ensures
            *final(self) == spec_adopted(*old(self), action),
            out.actions@ == spec_emitted_for(action),
            out.mode_signal == Some(spec_adopted(*old(self), action).mode),
    {
        let mut actions: Vec<Action> = Vec::new();
        match action {
            Action::ModeChange(m) => {
                self.mode = m;
            },
            Action::TextEntryStart { .. } => {
                self.mode = Mode::TextEntry;
                actions.push(Action::ModeChange(Mode::TextEntry));
            },
            Action::NewTransportData(d) => {
                self.playing = d.running;
            },
            _ => {},
        }
        actions.push(action);
        proof {
            assert(actions@ =~= spec_emitted_for(action));
        }
        Emit { actions, mode_signal: Some(self.mode) }
    }
}

/// Law: for every state and every button event, the translator emits
/// something if and only if the event is a press whose
/// `(mode, shift, key, playing)` tuple has a table entry — the shift flag
/// taken after the event, as the table is consulted. A release never emits.
pub proof fn lemma_emission_iff_table_entry(t: Translator, ev: ButtonEvent)
    ensures
        spec_on_button_emitted(t, ev).len() > 0 <==> (ev.pressed && spec_action_lut(
            t.mode,
            spec_shift_after(t, ev),
            ev.id,
            t.playing,
        ) is Some),
        !ev.pressed ==> spec_on_button_emitted(t, ev) == Seq::<Action>::empty(),
{
}

/// Law: a `ModeChange` action never leaves the translator without the mode
/// broadcast being signalled with the same value in the same step, and that
/// value is also the translator's resulting mode. Stated for button events.
pub proof fn lemma_mode_change_signalled_button(t: Translator, ev: ButtonEvent)
    ensures
        forall|i: int, m: Mode|
            0 <= i < spec_on_button_emitted(t, ev).len() && spec_on_button_emitted(t, ev)[i]
                == Action::ModeChange(m) ==> spec_on_button_signal(t, ev) == Some(m)
                && spec_on_button_next(t, ev).mode == m,
{
}

/// Law: the same pairing for upstream actions: whenever the emission for an
/// adopted action holds a `ModeChange`, the mode signal of that step carries
/// the same value.
pub proof fn lemma_mode_change_signalled_upstream(t: Translator, a: Action)
    ensures
        forall|i: int, m: Mode|
            0 <= i < spec_emitted_for(a).len() && spec_emitted_for(a)[i] == Action::ModeChange(m)
                ==> spec_on_upstream_next(t, a).mode == m,
{
}

} // verus!
