//! The shared system state and the dirty-tracking cell it is built from.
//!
//! One `SystemState` exists per system, behind a mutex owned by the
//! surroundings. Each field has exactly one writer task; readers that need
//! a consistent multi-field view must copy the fields out under one lock.

use vstd::prelude::*;
use crate::events::{Beat, CueMetadata, IpAddress};
use crate::text::TextBuffer;

verus! {

/// A value that remembers whether it changed since it was last read.
#[derive(Clone, Copy, Debug, PartialEq, Eq)]
pub struct TrackedValue<T> {
    pub value: T,
    pub dirty: bool,
}

impl<T: Copy> TrackedValue<T> {
    /// A fresh cell, not marked dirty.
    pub fn new(val: T) -> (r: Self)
        ensures
            r.value == val,
            !r.dirty,
    {
        TrackedValue { value: val, dirty: false }
    }

    /// Stores a value and marks the cell dirty.
    pub fn set(&mut self, val: T)
        ensures
            *final(self) == (TrackedValue { value: val, dirty: true }),
    {
        self.value = val;
        self.dirty = true;
    }

    /// Reads the value and clears the dirty mark.
    pub fn read(&mut self) -> (r: T)
        ensures
            r == old(self).value,
            *final(self) == (TrackedValue { value: old(self).value, dirty: false }),
    {
        self.dirty = false;
        self.value
    }

    /// Reads the value by reference and clears the dirty mark.
    pub fn read_ref(&mut self) -> (r: &T)
        ensures
            *r == old(self).value,
            *final(self) == (TrackedValue { value: old(self).value, dirty: false }),
    {
        self.dirty = false;
        &self.value
    }

    /// Takes the value only when it changed since the last read, clearing
    /// the mark; `None` when nothing changed.
    pub fn read_dirty(&mut self) -> (r: Option<T>)
        ensures
            *final(self) == (TrackedValue { value: old(self).value, dirty: false }),
            r == if old(self).dirty {
                Some(old(self).value)
            } else {
                None::<T>
            },
    {
        if self.dirty {
            self.dirty = false;
            Some(self.value)
        } else {
            None
        }
    }

    /// Reads the value without touching the dirty mark.
    pub fn peek(&self) -> (r: T)
        ensures
            r == self.value,
    {
        self.value
    }
}

/// The mutex-guarded snapshot the renderers read: cue and beat telemetry,
/// the short display label, the tempo, and the two endpoints. The network
/// client owns the addresses and telemetry fields; the UI reads everything
/// and owns nothing.
#[derive(Clone, Copy, Debug, PartialEq, Eq)]
pub struct SystemState {
    pub cue_metadata: CueMetadata,
    pub cue_idx: u16,
    pub beat_idx: u16,
    pub beat: Beat,
    pub mark_label: TextBuffer<8>,
    pub bpm: u16,
    pub core_ip: IpAddress,
    pub self_ip: IpAddress,
}

impl SystemState {
    /// The buffers inside the state respect their capacities.
    pub open spec fn wf(&self) -> bool {
        self.mark_label.wf() && self.cue_metadata.name.wf()
    }

    /// The fixed startup state: no cue, no beat, an empty label, 120 beats
    /// per minute, the factory core endpoint and an unset own endpoint.
    pub fn new() -> (r: Self)
        ensures
            r.wf(),
            r.cue_idx == 0,
            r.beat_idx == 0,
            r.beat == (Beat { tempo: 0u16, index: 0u16 }),
            r.mark_label@ == Seq::<u8>::empty(),
            r.cue_metadata.name@ == Seq::<u8>::empty(),
            r.bpm == 120,
            r.core_ip.addr@ =~= seq![192u8, 168u8, 1u8, 135u8],
            r.core_ip.port == 8081,
            r.self_ip.addr@ =~= seq![0u8, 0u8, 0u8, 0u8],
            r.self_ip.port == 0,
    {
        SystemState {
            cue_metadata: CueMetadata { name: TextBuffer::empty() },
            cue_idx: 0,
            beat_idx: 0,
            beat: Beat { tempo: 0, index: 0 },
            mark_label: TextBuffer::empty(),
            bpm: 120,
            core_ip: IpAddress { addr: [192u8, 168u8, 1u8, 135u8], port: 8081 },
            self_ip: IpAddress { addr: [0u8, 0u8, 0u8, 0u8], port: 0 },
        }
    }
}

} // verus!
