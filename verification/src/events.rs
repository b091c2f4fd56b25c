//! The data model of the controller: buttons, modes, the `Action` union that
//! every inter-task queue carries, and the values exchanged with the core
//! engine (requests, inbound messages, addresses, beats, transport state).
//!
//! Every type here is a plain `Copy` value, so actions can be fanned out to
//! several bounded queues without aliasing or allocation.

use vstd::prelude::*;
use crate::text::TextBuffer;

verus! {

/// The twelve physical keys of the button matrix.
#[derive(Clone, Copy, Debug, PartialEq, Eq, Structural)]
pub enum ButtonId {
    MetronomeStart,
    MetronomeStop,
    Shift,
    Menu,
    MetronomeTempoPlus,
    MetronomeTempoMinus,
    MetronomeBrightPlus,
    MetronomeBrightMinus,
    Next,
    Previous,
    Stop,
    Start,
}

/// One debounced edge transition of one key: produced per press or release,
/// never per poll.
#[derive(Clone, Copy, Debug, PartialEq, Eq, Structural)]
pub struct ButtonEvent {
    pub id: ButtonId,
    pub pressed: bool,
}

/// The exclusive top-level UI state. Exactly one mode is active at a time;
/// it gates which button mappings are live.
#[derive(Clone, Copy, Debug, PartialEq, Eq, Structural)]
pub enum Mode {
    TextEntry,
    Menu,
    Main,
    Lock,
}

/// Which system-state field a text-entry session edits.
#[derive(Clone, Copy, Debug, PartialEq, Eq, Structural)]
pub enum TextEntryContext {
    Unknown,
    CoreIPv4,
    CorePort,
}

/// The status LEDs of the unit.
#[derive(Clone, Copy, Debug, PartialEq, Eq, Structural)]
pub enum Led {
    Metronome,
    Connection,
    Playing,
    Vlt,
}

/// An IPv4 endpoint: four octets and a port.
#[derive(Clone, Copy, Debug, PartialEq, Eq)]
pub struct IpAddress {
    pub addr: [u8; 4],
    pub port: u16,
}

impl IpAddress {
    /// The unset endpoint, 0.0.0.0:0.
    pub fn unset() -> (r: Self)
        ensures
            r.addr@ =~= seq![0u8, 0u8, 0u8, 0u8],
            r.port == 0,
    {
        IpAddress { addr: [0u8, 0u8, 0u8, 0u8], port: 0 }
    }

    /// An endpoint from its octets and port.
    pub fn new(addr: [u8; 4], port: u16) -> (r: Self)
        ensures
            r.addr == addr,
            r.port == port,
    {
        IpAddress { addr, port }
    }
}

/// One beat of the show clock as the core reports it.
#[derive(Clone, Copy, Debug, PartialEq, Eq, Structural)]
pub struct Beat {
    /// Tempo declared by the source of truth for this beat, in beats/minute.
    pub tempo: u16,
    /// Index of the beat within the current bar.
    pub index: u16,
}

/// An hour:minute:second:frame timecode.
#[derive(Clone, Copy, Debug, PartialEq, Eq, Structural)]
pub struct Timecode {
    pub h: u8,
    pub m: u8,
    pub s: u8,
    pub f: u8,
}

/// The core's transport status: whether external playback runs, and where.
#[derive(Clone, Copy, Debug, PartialEq, Eq, Structural)]
pub struct TransportState {
    pub running: bool,
    pub ltc: Timecode,
}

/// Metadata of the cue the core currently holds.
#[derive(Clone, Copy, Debug, PartialEq, Eq)]
pub struct CueMetadata {
    pub name: TextBuffer<32>,
}

/// The set of message kinds a subscriber declares interest in, as a bitmask.
/// Bits this controller does not know are carried through untouched, so a
/// newer core remains readable (forward compatibility).
#[derive(Clone, Copy, Debug, PartialEq, Eq, Structural)]
pub struct MessageKinds {
    pub bits: u8,
}

/// Bit for heartbeat messages.
pub const KIND_HEARTBEAT: u8 = 1;

/// Bit for transport-state messages.
pub const KIND_TRANSPORT_DATA: u8 = 2;

/// Bit for beat-data messages.
pub const KIND_BEAT_DATA: u8 = 4;

/// Bit for shutdown notices.
pub const KIND_SHUTDOWN: u8 = 8;

/// Bit for generic event notices.
pub const KIND_EVENT: u8 = 16;

impl MessageKinds {
    /// The empty set of kinds.
    pub fn none() -> (r: Self)
        ensures
            r.bits == 0,
    {
        MessageKinds { bits: 0 }
    }

    /// Adds the kinds of `bit` to the set.
    pub fn with(self, bit: u8) -> (r: Self)
        ensures
            r.bits == self.bits | bit,
    {
        MessageKinds { bits: self.bits | bit }
    }

    /// Whether every bit of `bit` is in the set.
    pub fn contains(self, bit: u8) -> (r: bool)
        ensures
            r == (self.bits & bit == bit),
    {
        self.bits & bit == bit
    }
}

/// How the controller introduces itself when subscribing.
#[derive(Clone, Copy, Debug, PartialEq, Eq)]
pub struct SubscriberInfo {
    /// Human-readable name of this controller.
    pub identifier: TextBuffer<32>,
    /// The address the core should answer to.
    pub address: IpAddress,
    /// The message kinds this controller wants to receive.
    pub message_kinds: MessageKinds,
    /// Timestamp of the last contact, microseconds; zero on a fresh session.
    pub last_contact: u64,
}

/// Whether a jump-mode change toggles or forces a state.
#[derive(Clone, Copy, Debug, PartialEq, Eq, Structural)]
pub enum JumpModeChange {
    Toggle,
    On,
    Off,
}

/// A transport or cue command addressed to the core.
#[derive(Clone, Copy, Debug, PartialEq, Eq, Structural)]
pub enum ControlAction {
    LoadNextCue,
    LoadPreviousCue,
    TransportZero,
    TransportStart,
    TransportStop,
    ChangeJumpMode(JumpModeChange),
}

/// An outbound datagram payload, controller to core.
#[derive(Clone, Copy, Debug, PartialEq, Eq)]
pub enum Request {
    /// Opens a session: who subscribes, where to answer, and to what.
    Subscribe(SubscriberInfo),
    /// Keep-alive probe.
    Ping,
    /// A transport or cue command.
    ControlAction(ControlAction),
}

/// An inbound datagram payload, core to controller.
#[derive(Clone, Copy, Debug, PartialEq, Eq)]
pub enum SmallMessage {
    /// Periodic liveness notice with the core's clock, microseconds.
    Heartbeat(u64),
    /// The core's transport status changed.
    TransportData(TransportState),
    /// A new beat of the show clock.
    BeatData(Beat),
    /// The core is shutting down.
    ShutdownOccured,
    /// A generic numbered event.
    EventOccured(u16),
}

/// The tagged message union carried on all inter-task queues.
#[derive(Clone, Copy, Debug, PartialEq, Eq)]
pub enum Action {
    NextItem,
    PreviousItem,
    SelectItem,
    Character(u8),
    NextCue,
    PreviousCue,
    ModeChange(Mode),
    TextEntryStart { ctx: TextEntryContext, initial_value: TextBuffer<32> },
    TextEntryUpdate { ctx: TextEntryContext, value: TextBuffer<32> },
    TextEntryComplete { ctx: TextEntryContext, value: TextBuffer<32> },
    Confirm,
    Backspace,
    SeekCheckpoint,
    ForceRedraw,
    NewBeatData(Beat),
    NewBPM(u64),
    NewCueData(u16, CueMetadata),
    NewTransportData(TransportState),
    NewLabelData(TextBuffer<8>),
    DebugMessage { msg: TextBuffer<32> },
    ReloadConnection,
    GainConnection,
    LoseConnection,
    MessageFromCore(SmallMessage),
    RequestToCore(Request),
    LEDSet(Led, bool),
    LEDToggle(Led),
    LEDBlip(Led),
    MetronomeAddTempo(i64),
    MetronomeSetTempo(i64),
    MetronomeStop,
    MetronomeStart,
    MetronomeTempoTap,
}

} // verus!
