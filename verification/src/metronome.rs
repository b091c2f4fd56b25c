//! The metronome timing engine.
//!
//! Two states, Stopped and Running. Control messages adjust the stored
//! tempo; while Running, a period timer fires a beat ("blip") per period and
//! any control message cancels the current wait and is handled first. Tap
//! tempo averages the stored tempo with the tempo implied by the interval
//! since the previous tap. Tempo changes are republished as telemetry so
//! listeners need not poll.
//!
//! The engine is a pure state machine over microsecond timestamps: the timer
//! and the queue around it live outside and feed it events.

use vstd::prelude::*;
use vstd::arithmetic::div_mod::lemma_fundamental_div_mod;
use crate::bus::{count_occurrences, lemma_fanout_delivers_at_most_once, spec_try_send};
use crate::events::{Action, ButtonEvent, ButtonId, Mode};
use crate::translator::{spec_on_button_emitted, Translator};

verus! {

/// Microseconds in a minute: tempo (beats/minute) to period (µs/beat).
pub const MINUTE_US: u64 = 60_000_000;

/// The metronome's state. `last_tap` is the reference instant of the last
/// tap (or of entering Running through a tap), in microseconds.
#[derive(Clone, Copy, Debug, PartialEq, Eq, Structural)]
pub struct Metronome {
    pub running: bool,
    pub bpm: i64,
    pub last_tap: u64,
}

/// What one metronome step asks its surroundings to do.
#[derive(Clone, Copy, Debug, PartialEq, Eq, Structural)]
pub struct MetronomeEffect {
    /// Emit one beat: enqueue `LEDBlip(Metronome)` without blocking.
    pub blip: bool,
    /// Republish the tempo as `NewBPM` telemetry with this value.
    pub publish_bpm: Option<u64>,
    /// Restart the period timer at the new state's period.
    pub rearm: bool,
}

/// One input to the engine: the period timer fired, or a control message
/// arrived (which, while Running, cancels the pending wait).
#[derive(Clone, Copy, Debug, PartialEq, Eq)]
pub enum MetronomeEvent {
    Tick,
    Control(Action),
}

/// Saturating addition on the tempo's storage type.
pub open spec fn spec_sat_add(a: int, b: int) -> int {
    if a + b > i64::MAX as int {
        i64::MAX as int
    } else if a + b < i64::MIN as int {
        i64::MIN as int
    } else {
        a + b
    }
}

/// The tempo value published as telemetry: never below zero.
pub open spec fn spec_bpm_telemetry(bpm: int) -> u64 {
    if bpm < 0 {
        0u64
    } else if bpm > u64::MAX as int {
        u64::MAX
    } else {
        bpm as u64
    }
}

/// The beat period for a stored tempo, microseconds: `MINUTE_US / bpm`,
/// defensively at least one microsecond and with non-positive tempos
/// treated as one beat per minute.
pub open spec fn spec_period_us(bpm: int) -> int {
    let p = MINUTE_US as int / (if bpm < 1 {
        1
    } else {
        bpm
    });
    if p < 1 {
        1
    } else {
        p
    }
}

/// The tap interval used for tempo estimation: the time since the previous
/// tap, clamped to at least one microsecond so that a double tap in the
/// same instant never divides by zero.
pub open spec fn spec_tap_interval(last_tap: int, now: int) -> int {
    if now > last_tap {
        now - last_tap
    } else {
        1
    }
}

/// The tempo after a tap at `now`: the average of the stored tempo and the
/// instantaneous tempo implied by the interval since the previous tap,
/// truncated toward zero as the storage type divides.
pub open spec fn spec_tap_bpm(bpm: int, last_tap: int, now: int) -> int {
    let implied = MINUTE_US as int / spec_tap_interval(last_tap, now);
    let sum = spec_sat_add(bpm, implied);
    if sum >= 0 {
        sum / 2
    } else {
        -((-sum) / 2)
    }
}

/// The state after one step.
pub open spec fn spec_met_next(m: Metronome, ev: MetronomeEvent, now: int) -> Metronome {
    if !m.running {
        match ev {
            MetronomeEvent::Control(Action::MetronomeStart) => Metronome {
                running: true,
                ..m
            },
            MetronomeEvent::Control(Action::MetronomeTempoTap) => Metronome {
                running: true,
                last_tap: now as u64,
                ..m
            },
            MetronomeEvent::Control(Action::MetronomeAddTempo(t)) => Metronome {
                bpm: spec_sat_add(m.bpm as int, t as int) as i64,
                ..m
            },
            MetronomeEvent::Control(Action::MetronomeSetTempo(t)) => Metronome { bpm: t, ..m },
            MetronomeEvent::Control(Action::NewBeatData(b)) => Metronome {
                bpm: b.tempo as i64,
                ..m
            },
            _ => m,
        }
    } else {
        match ev {
            MetronomeEvent::Tick => m,
            MetronomeEvent::Control(Action::MetronomeStop) => Metronome { running: false, ..m },
            MetronomeEvent::Control(Action::MetronomeTempoTap) => Metronome {
                bpm: spec_tap_bpm(m.bpm as int, m.last_tap as int, now) as i64,
                last_tap: now as u64,
                ..m
            },
            MetronomeEvent::Control(Action::MetronomeAddTempo(t)) => Metronome {
                bpm: spec_sat_add(m.bpm as int, t as int) as i64,
                ..m
            },
            MetronomeEvent::Control(Action::MetronomeSetTempo(t)) => Metronome { bpm: t, ..m },
            MetronomeEvent::Control(Action::NewBeatData(b)) => Metronome {
                bpm: b.tempo as i64,
                ..m
            },
            MetronomeEvent::Control(Action::NewTransportData(d)) => {
                if d.running {
                    Metronome { running: false, ..m }
                } else {
                    m
                }
            },
            _ => m,
        }
    }
}

/// The effect of one step.
pub open spec fn spec_met_effect(m: Metronome, ev: MetronomeEvent, now: int) -> MetronomeEffect {
    let next = spec_met_next(m, ev, now);
    if !m.running {
        match ev {
            MetronomeEvent::Control(Action::MetronomeStart) => MetronomeEffect {
                blip: true,
                publish_bpm: None,
                rearm: true,
            },
            MetronomeEvent::Control(Action::MetronomeTempoTap) => MetronomeEffect {
                blip: true,
                publish_bpm: None,
                rearm: true,
            },
            MetronomeEvent::Control(Action::MetronomeAddTempo(_)) => MetronomeEffect {
                blip: false,
                publish_bpm: Some(spec_bpm_telemetry(next.bpm as int)),
                rearm: false,
            },
            MetronomeEvent::Control(Action::MetronomeSetTempo(_)) => MetronomeEffect {
                blip: false,
                publish_bpm: Some(spec_bpm_telemetry(next.bpm as int)),
                rearm: false,
            },
            MetronomeEvent::Control(Action::NewBeatData(_)) => MetronomeEffect {
                blip: false,
                publish_bpm: Some(spec_bpm_telemetry(next.bpm as int)),
                rearm: false,
            },
            _ => MetronomeEffect { blip: false, publish_bpm: None, rearm: false },
        }
    } else {
        match ev {
            MetronomeEvent::Tick => MetronomeEffect {
                blip: true,
                publish_bpm: None,
                rearm: true,
            },
            MetronomeEvent::Control(Action::MetronomeStart) => MetronomeEffect {
                blip: true,
                publish_bpm: None,
                rearm: true,
            },
            MetronomeEvent::Control(Action::MetronomeTempoTap) => MetronomeEffect {
                blip: true,
                publish_bpm: Some(spec_bpm_telemetry(next.bpm as int)),
                rearm: true,
            },
            MetronomeEvent::Control(Action::MetronomeAddTempo(_)) => MetronomeEffect {
                blip: true,
                publish_bpm: Some(spec_bpm_telemetry(next.bpm as int)),
                rearm: true,
            },
            MetronomeEvent::Control(Action::MetronomeSetTempo(_)) => MetronomeEffect {
                blip: true,
                publish_bpm: Some(spec_bpm_telemetry(next.bpm as int)),
                rearm: true,
            },
            MetronomeEvent::Control(Action::NewBeatData(_)) => MetronomeEffect {
                blip: true,
                publish_bpm: Some(spec_bpm_telemetry(next.bpm as int)),
                rearm: true,
            },
            _ => MetronomeEffect { blip: false, publish_bpm: None, rearm: false },
        }
    }
}

/// Saturating addition on `i64`.
fn sat_add_i64(a: i64, b: i64) -> (r: i64)
    ensures
        r as int == spec_sat_add(a as int, b as int),
{
    if b >= 0 {
        if a > i64::MAX - b {
            i64::MAX
        } else {
            a + b
        }
    } else {
        if a < i64::MIN - b {
            i64::MIN
        } else {
            a + b
        }
    }
}

impl Metronome {
    /// The power-on metronome: stopped at 120 beats per minute. The caller
    /// publishes the initial tempo once, as [`Metronome::telemetry_bpm`]
    /// reports it.
    pub fn new() -> (r: Self)
        ensures
            r == (Metronome { running: false, bpm: 120i64, last_tap: 0u64 }),
    {
        Metronome { running: false, bpm: 120, last_tap: 0 }
    }

    /// The tempo as published in `NewBPM` telemetry.
    pub fn telemetry_bpm(&self) -> (r: u64)
        ensures
            r == spec_bpm_telemetry(self.bpm as int),
    {
        if self.bpm < 0 {
            0
        } else {
            self.bpm as u64
        }
    }

    /// The current beat period in microseconds; always at least one.
    pub fn period_us(&self) -> (r: u64)
        ensures
            r as int == spec_period_us(self.bpm as int),
            r >= 1,
    {
        let divisor: i64 = if self.bpm < 1 {
            1
        } else {
            self.bpm
        };
        let p: u64 = MINUTE_US / (divisor as u64);
        if p < 1 {
            1
        } else {
            p
        }
    }

    /// Advances the engine by one event at instant `now` (microseconds,
    /// monotonic) and returns what to do about it.
    pub fn step(&mut self, ev: MetronomeEvent, now: u64) -> (eff: MetronomeEffect)
        ensures
            *final(self) == spec_met_next(*old(self), ev, now as int),
            eff == spec_met_effect(*old(self), ev, now as int),
    {
        if !self.running {
            match ev {
                MetronomeEvent::Control(Action::MetronomeStart) => {
                    self.running = true;
                    MetronomeEffect { blip: true, publish_bpm: None, rearm: true }
                },
                MetronomeEvent::Control(Action::MetronomeTempoTap) => {
                    self.running = true;
                    self.last_tap = now;
                    MetronomeEffect { blip: true, publish_bpm: None, rearm: true }
                },
                MetronomeEvent::Control(Action::MetronomeAddTempo(t)) => {
                    self.bpm = sat_add_i64(self.bpm, t);
                    MetronomeEffect {
                        blip: false,
                        publish_bpm: Some(self.telemetry_bpm()),
                        rearm: false,
                    }
                },
                MetronomeEvent::Control(Action::MetronomeSetTempo(t)) => {
                    self.bpm = t;
                    MetronomeEffect {
                        blip: false,
                        publish_bpm: Some(self.telemetry_bpm()),
                        rearm: false,
                    }
                },
                MetronomeEvent::Control(Action::NewBeatData(b)) => {
                    self.bpm = b.tempo as i64;
                    MetronomeEffect {
                        blip: false,
                        publish_bpm: Some(self.telemetry_bpm()),
                        rearm: false,
                    }
                },
                _ => MetronomeEffect { blip: false, publish_bpm: None, rearm: false },
            }
        } else {
            match ev {
                MetronomeEvent::Tick => MetronomeEffect {
                    blip: true,
                    publish_bpm: None,
                    rearm: true,
                },
                MetronomeEvent::Control(Action::MetronomeStart) => MetronomeEffect {
                    blip: true,
                    publish_bpm: None,
                    rearm: true,
                },
                MetronomeEvent::Control(Action::MetronomeStop) => {
                    self.running = false;
                    MetronomeEffect { blip: false, publish_bpm: None, rearm: false }
                },
                MetronomeEvent::Control(Action::MetronomeTempoTap) => {
                    let interval: u64 = if now > self.last_tap {
                        now - self.last_tap
                    } else {
                        1
                    };
                    let implied: i64 = (MINUTE_US / interval) as i64;
                    let sum: i64 = sat_add_i64(self.bpm, implied);
                    self.bpm = if sum >= 0 {
                        sum / 2
                    } else {
                        let mag: i64 = -(sum + 1);
                        -(mag / 2 + mag % 2)
                    };
                    self.last_tap = now;
                    MetronomeEffect {
                        blip: true,
                        publish_bpm: Some(self.telemetry_bpm()),
                        rearm: true,
                    }
                },
                MetronomeEvent::Control(Action::MetronomeAddTempo(t)) => {
                    self.bpm = sat_add_i64(self.bpm, t);
                    MetronomeEffect {
                        blip: true,
                        publish_bpm: Some(self.telemetry_bpm()),
                        rearm: true,
                    }
                },
                MetronomeEvent::Control(Action::MetronomeSetTempo(t)) => {
                    self.bpm = t;
                    MetronomeEffect {
                        blip: true,
                        publish_bpm: Some(self.telemetry_bpm()),
                        rearm: true,
                    }
                },
                MetronomeEvent::Control(Action::NewBeatData(b)) => {
                    self.bpm = b.tempo as i64;
                    MetronomeEffect {
                        blip: true,
                        publish_bpm: Some(self.telemetry_bpm()),
                        rearm: true,
                    }
                },
                MetronomeEvent::Control(Action::NewTransportData(d)) => {
                    if d.running {
                        self.running = false;
                    }
                    MetronomeEffect { blip: false, publish_bpm: None, rearm: false }
                },
                _ => MetronomeEffect { blip: false, publish_bpm: None, rearm: false },
            }
        }
    }
}

/// Law (tap-tempo idempotence): while Running, a tap exactly one period
/// after the previous one leaves the tempo unchanged, within integer
/// rounding, and republishes it. For any tempo up to 10,000 beats per
/// minute the rounding cancels exactly: the tempo implied by the interval
/// is the stored one or one above it, and the truncated average is the
/// stored tempo itself. (At still higher tempos the two floor divisions
/// can drift the average by a unit.)
pub proof fn lemma_tap_tempo_idempotent(m: Metronome, now: u64)
    requires
        m.running,
        1 <= m.bpm <= 10_000,
        now as int == m.last_tap + MINUTE_US as int / (m.bpm as int),
    ensures
        spec_met_next(m, MetronomeEvent::Control(Action::MetronomeTempoTap), now as int).bpm
            == m.bpm,
        spec_met_effect(m, MetronomeEvent::Control(Action::MetronomeTempoTap), now as int)
            .publish_bpm == Some(m.bpm as u64),
{
    let minute = MINUTE_US as int;
    let b = m.bpm as int;
    let d = minute / b;
    lemma_fundamental_div_mod(minute, b);
    assert(b * d <= minute);
    assert(b * d > minute - b);
    // The period of any tempo this slow spans well over a thousandth of
    // the minute.
    assert(d >= 6000) by (nonlinear_arith)
        requires
            b * d > minute - b,
            1 <= b <= 10_000,
            minute == 60_000_000,
    ;
    assert(spec_tap_interval(m.last_tap as int, now as int) == d);
    let q = minute / d;
    lemma_fundamental_div_mod(minute, d);
    assert(d * q <= minute);
    assert(d * q > minute - d);
    // The implied tempo brackets the stored one from above...
    assert(q >= b) by (nonlinear_arith)
        requires
            d * q > minute - d,
            b * d <= minute,
            d >= 1,
    ;
    // ...by at most one unit.
    assert(q <= b + 1) by (nonlinear_arith)
        requires
            d * q <= minute,
            b * d > minute - b,
            d >= 6000,
            1 <= b <= 10_000,
            minute == 60_000_000,
    ;
    // Averaging the two truncates back to the stored tempo.
    assert(spec_sat_add(b, q) == b + q);
    assert(spec_tap_bpm(b, m.last_tap as int, now as int) == b);
}

/// Law: `MetronomeStart` while Stopped enters Running without touching the
/// tempo, emits the first beat at once, and re-arms the period timer, whose
/// period is the stored tempo's — so the following tick comes no earlier
/// than one full period later.
pub proof fn lemma_start_from_stopped(m: Metronome, now: u64)
    requires
        !m.running,
    ensures
        spec_met_next(m, MetronomeEvent::Control(Action::MetronomeStart), now as int)
            == (Metronome { running: true, bpm: m.bpm, last_tap: m.last_tap }),
        spec_met_effect(m, MetronomeEvent::Control(Action::MetronomeStart), now as int)
            == (MetronomeEffect { blip: true, publish_bpm: None, rearm: true }),
        1 <= m.bpm <= MINUTE_US ==> spec_period_us(m.bpm as int) == MINUTE_US as int / (
        m.bpm as int),
{
    if 1 <= m.bpm <= MINUTE_US {
        let b = m.bpm as int;
        lemma_fundamental_div_mod(MINUTE_US as int, b);
        assert(MINUTE_US as int / b >= 1) by {
            let q = MINUTE_US as int / b;
            if q < 1 {
                assert(b * q <= 0) by (nonlinear_arith)
                    requires
                        b >= 1 && q <= 0,
                ;
                assert(MINUTE_US as int % b < b);
            }
        }
    }
}

/// Law: while Stopped the metronome emits no beat at all — a timer tick is
/// ignored and every control message other than the two that start it
/// (`MetronomeStart`, `MetronomeTempoTap`) leaves it Stopped and blip-free;
/// while Running, every period tick emits exactly one beat and re-arms.
pub proof fn lemma_blips_only_while_running(m: Metronome, ev: MetronomeEvent, now: u64)
    ensures
        !spec_met_next(m, ev, now as int).running ==> !spec_met_effect(m, ev, now as int).blip,
        !m.running && !spec_met_effect(m, ev, now as int).blip ==> !spec_met_next(
            m,
            ev,
            now as int,
        ).running,
        m.running && ev == MetronomeEvent::Tick ==> spec_met_effect(m, ev, now as int)
            == (MetronomeEffect { blip: true, publish_bpm: None, rearm: true }),
        !m.running && ev == MetronomeEvent::Tick ==> spec_met_effect(m, ev, now as int)
            == (MetronomeEffect { blip: false, publish_bpm: None, rearm: false }),
        ev == MetronomeEvent::Tick ==> spec_met_next(m, ev, now as int) == m,
{
}

/// Law (the start key starts the metronome, end to end): in Main mode with
/// the shift key up, pressing the metronome start key makes the translator
/// emit exactly one `MetronomeStart`; fanned out to a metronome control
/// queue with room, that action lands in the queue exactly once; and the
/// engine, Stopped, consumes it into Running with one immediate beat and a
/// re-armed timer whose period is one minute over the stored tempo.
pub proof fn lemma_start_button_starts_metronome(
    t: Translator,
    queue: Seq<Action>,
    cap: nat,
    m: Metronome,
    now: u64,
)
    requires
        t.mode == Mode::Main,
        !t.shift,
        queue.len() < cap,
        !m.running,
        1 <= m.bpm <= MINUTE_US,
    ensures
        spec_on_button_emitted(t, ButtonEvent { id: ButtonId::MetronomeStart, pressed: true })
            == seq![Action::MetronomeStart],
        count_occurrences(spec_try_send(queue, cap, Action::MetronomeStart), Action::MetronomeStart)
            == count_occurrences(queue, Action::MetronomeStart) + 1,
        spec_met_next(m, MetronomeEvent::Control(Action::MetronomeStart), now as int) == (Metronome {
            running: true,
            bpm: m.bpm,
            last_tap: m.last_tap,
        }),
        spec_met_effect(m, MetronomeEvent::Control(Action::MetronomeStart), now as int)
            == (MetronomeEffect { blip: true, publish_bpm: None, rearm: true }),
        spec_period_us(m.bpm as int) == MINUTE_US as int / (m.bpm as int),
{
    lemma_fanout_delivers_at_most_once(queue, cap, Action::MetronomeStart);
    lemma_start_from_stopped(m, now);
}

} // verus!
