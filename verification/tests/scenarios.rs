//! End-to-end runs of the coordination core: translator, bus fan-out,
//! metronome and mode slot wired together as the firmware tasks wire them.

use clicks_remote::bus::{fanout_step, ActionQueue};
use clicks_remote::events::{Action, ButtonEvent, ButtonId, Led, Mode};
use clicks_remote::metronome::{Metronome, MetronomeEvent};
use clicks_remote::modeslot::ModeSlot;
use clicks_remote::translator::Translator;

struct Bus {
    control: ActionQueue,
    ui: ActionQueue,
    ux: ActionQueue,
    led: ActionQueue,
    metr: ActionQueue,
}

impl Bus {
    fn new() -> Bus {
        Bus {
            control: ActionQueue::new(8),
            ui: ActionQueue::new(8),
            ux: ActionQueue::new(8),
            led: ActionQueue::new(8),
            metr: ActionQueue::new(8),
        }
    }
}

/// Feeds a button event through the translator, the mode slot and the
/// fan-out, as the firmware loop does.
fn inject(t: &mut Translator, slot: &mut ModeSlot, bus: &mut Bus, ev: ButtonEvent) {
    let out = t.on_button(ev);
    if let Some(m) = out.mode_signal {
        slot.signal(m);
    }
    for a in out.actions {
        fanout_step(a, &mut bus.control, &mut bus.ui, &mut bus.ux, &mut bus.led, &mut bus.metr);
    }
}

fn unlock(t: &mut Translator, slot: &mut ModeSlot, bus: &mut Bus) {
    inject(t, slot, bus, ButtonEvent { id: ButtonId::Shift, pressed: true });
    inject(t, slot, bus, ButtonEvent { id: ButtonId::Stop, pressed: true });
    inject(t, slot, bus, ButtonEvent { id: ButtonId::Shift, pressed: false });
    inject(t, slot, bus, ButtonEvent { id: ButtonId::Stop, pressed: false });
    assert_eq!(t.mode, Mode::Main);
}

#[test]
fn metronome_start_button_reaches_engine_and_ticks() {
    // Scenario: press the metronome start key in Main mode with the
    // metronome stopped; exactly one MetronomeStart lands on its control
    // queue, the engine starts, and each period emits one beat.
    let mut t = Translator::new();
    let mut slot = ModeSlot::new();
    let mut bus = Bus::new();
    unlock(&mut t, &mut slot, &mut bus);
    while bus.metr.recv().is_some() {} // drain the unlock traffic

    inject(&mut t, &mut slot, &mut bus, ButtonEvent { id: ButtonId::MetronomeStart, pressed: true });
    assert_eq!(bus.metr.recv(), Some(Action::MetronomeStart));
    assert_eq!(bus.metr.recv(), None); // exactly one on the metronome control queue

    let mut m = Metronome::new();
    let eff = m.step(MetronomeEvent::Control(Action::MetronomeStart), 0);
    assert!(m.running && eff.blip && eff.rearm);
    assert_eq!(m.period_us(), 500_000); // 120 bpm

    let mut blips = 0;
    let mut now = 0;
    for _ in 0..4 {
        now += m.period_us();
        if m.step(MetronomeEvent::Tick, now).blip {
            blips += 1;
        }
    }
    assert_eq!(blips, 4); // one blip per period while running

    m.step(MetronomeEvent::Control(Action::MetronomeStop), now);
    assert!(!m.step(MetronomeEvent::Tick, now + 500_000).blip); // zero while stopped
}

#[test]
fn tap_tempo_buttons_update_published_tempo() {
    // Scenario: two shift+MetronomeStart taps 400 000 µs apart move the
    // tempo from 120 to (120 + 150) / 2 == 135, published as telemetry.
    let mut t = Translator::new();
    let mut slot = ModeSlot::new();
    let mut bus = Bus::new();
    unlock(&mut t, &mut slot, &mut bus);
    while bus.metr.recv().is_some() {}

    inject(&mut t, &mut slot, &mut bus, ButtonEvent { id: ButtonId::Shift, pressed: true });
    inject(&mut t, &mut slot, &mut bus, ButtonEvent { id: ButtonId::MetronomeStart, pressed: true });
    inject(&mut t, &mut slot, &mut bus, ButtonEvent { id: ButtonId::MetronomeStart, pressed: false });
    inject(&mut t, &mut slot, &mut bus, ButtonEvent { id: ButtonId::MetronomeStart, pressed: true });

    let mut m = Metronome::new();
    let mut now = 1_000_000;
    let mut published = None;
    while let Some(a) = bus.metr.recv() {
        let eff = m.step(MetronomeEvent::Control(a), now);
        now += 400_000;
        if let Some(bpm) = eff.publish_bpm {
            published = Some(bpm);
        }
    }
    assert_eq!(m.bpm, 135);
    assert_eq!(published, Some(135));
}

#[test]
fn mode_changes_reach_every_subscriber_and_the_slot() {
    let mut t = Translator::new();
    let mut slot = ModeSlot::new();
    let mut bus = Bus::new();
    inject(&mut t, &mut slot, &mut bus, ButtonEvent { id: ButtonId::Shift, pressed: true });
    inject(&mut t, &mut slot, &mut bus, ButtonEvent { id: ButtonId::Stop, pressed: true });
    assert_eq!(slot.try_take(), Some(Mode::Main));
    for q in [&mut bus.control, &mut bus.ui, &mut bus.ux, &mut bus.led, &mut bus.metr] {
        assert_eq!(q.recv(), Some(Action::ModeChange(Mode::Main)));
        assert_eq!(q.recv(), None);
    }
}

#[test]
fn blip_actions_fan_out_to_led_queue_only_once_each() {
    let mut bus = Bus::new();
    let blip = Action::LEDBlip(Led::Metronome);
    fanout_step(blip, &mut bus.control, &mut bus.ui, &mut bus.ux, &mut bus.led, &mut bus.metr);
    assert_eq!(bus.led.recv(), Some(blip));
    assert_eq!(bus.led.recv(), None);
}
