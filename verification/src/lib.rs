//! Coordination core of a hardware remote controller that drives a separate
//! media "core" engine over UDP.
//!
//! The library holds the event-routing and coordination logic as pure,
//! verified state machines over plain values: the mode-aware input
//! translator, the metronome timing engine, the bounded action bus with its
//! fan-out policy, the network session protocol (subscribe / reconnect /
//! request-response), the wire codec, the text-entry editor, and the shared
//! system state. The hardware and async plumbing around these machines
//! (button matrix scanning, display and LED driving, sockets, timers) stays
//! outside: it feeds events in and performs the commands that come out.

pub mod bus;
pub mod buttons;
pub mod events;
pub mod metronome;
pub mod modeslot;
pub mod netclient;
pub mod parse;
pub mod state;
pub mod text;
pub mod textentry;
pub mod translator;
pub mod wire;
