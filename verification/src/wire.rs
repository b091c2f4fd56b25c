//! The wire codec: the compact binary format of the two message families
//! the controller exchanges with the core over UDP.
//!
//! Outbound, a [`Request`] is encoded into one datagram payload; inbound,
//! the first bytes of a datagram decode into a [`SmallMessage`], and
//! unrecognized or truncated payloads decode to nothing so the caller can
//! drop them silently. Decoders read a prefix and ignore trailing bytes.
//!
//! Multi-byte integers travel little-endian. Every decoder is total and the
//! round-trip laws at the end of this module tie the two directions
//! together.

use vstd::prelude::*;
use vstd::arithmetic::div_mod::{
    lemma_basic_div, lemma_div_denominator, lemma_fundamental_div_mod,
};
use crate::events::{
    Beat, ControlAction, JumpModeChange, Request, SmallMessage, SubscriberInfo, Timecode,
    TransportState,
};

verus! {

// --- little-endian integers ---

/// The two little-endian bytes of a 16-bit value.
pub open spec fn spec_le2(v: u16) -> Seq<u8> {
    seq![(v as int % 256) as u8, (v as int / 256) as u8]
}

/// The value of two little-endian bytes.
pub open spec fn spec_from_le2(lo: u8, hi: u8) -> int {
    lo + 256 * hi
}

/// The eight little-endian bytes of a 64-bit value.
pub open spec fn spec_le8(v: u64) -> Seq<u8> {
    seq![
        (v as int % 256) as u8,
        (v as int / 256 % 256) as u8,
        (v as int / 65536 % 256) as u8,
        (v as int / 16777216 % 256) as u8,
        (v as int / 4294967296 % 256) as u8,
        (v as int / 1099511627776 % 256) as u8,
        (v as int / 281474976710656 % 256) as u8,
        (v as int / 72057594037927936 % 256) as u8,
    ]
}

/// The value of eight little-endian bytes.
pub open spec fn spec_from_le8(s: Seq<u8>) -> int
    recommends
        s.len() >= 8,
{
    s[0] + 256 * s[1] + 65536 * s[2] + 16777216 * s[3] + 4294967296 * s[4] + 1099511627776 * s[5]
        + 281474976710656 * s[6] + 72057594037927936 * s[7]
}

/// Reading back the two little-endian bytes of a 16-bit value recovers it.
pub proof fn lemma_le2_round_trip(v: u16)
    ensures
        spec_from_le2(spec_le2(v)[0], spec_le2(v)[1]) == v,
{
    lemma_fundamental_div_mod(v as int, 256);
}

/// Reading back the eight little-endian bytes of a 64-bit value recovers it.
pub proof fn lemma_le8_round_trip(v: u64)
    ensures
        spec_from_le8(spec_le8(v)) == v,
{
    let x = v as int;
    lemma_div_denominator(x, 256, 256);
    lemma_div_denominator(x, 65536, 256);
    lemma_div_denominator(x, 16777216, 256);
    lemma_div_denominator(x, 4294967296, 256);
    lemma_div_denominator(x, 1099511627776, 256);
    lemma_div_denominator(x, 281474976710656, 256);
    lemma_div_denominator(x, 72057594037927936, 256);
    lemma_fundamental_div_mod(x, 256);
    lemma_fundamental_div_mod(x / 256, 256);
    lemma_fundamental_div_mod(x / 65536, 256);
    lemma_fundamental_div_mod(x / 16777216, 256);
    lemma_fundamental_div_mod(x / 4294967296, 256);
    lemma_fundamental_div_mod(x / 1099511627776, 256);
    lemma_fundamental_div_mod(x / 281474976710656, 256);
    lemma_basic_div(x, 18446744073709551616);
}

/// Appends the two little-endian bytes of `v`.
fn push_le2(out: &mut Vec<u8>, v: u16)
    ensures
        final(out)@ == old(out)@ + spec_le2(v),
{
    out.push((v % 256) as u8);
    out.push((v / 256) as u8);
    proof {
        assert(out@ =~= old(out)@ + spec_le2(v));
    }
}

/// Appends the eight little-endian bytes of `v`.
fn push_le8(out: &mut Vec<u8>, v: u64)
    ensures
        final(out)@ == old(out)@ + spec_le8(v),
{
    out.push((v % 256) as u8);
    out.push((v / 256 % 256) as u8);
    out.push((v / 65536 % 256) as u8);
    out.push((v / 16777216 % 256) as u8);
    out.push((v / 4294967296 % 256) as u8);
    out.push((v / 1099511627776 % 256) as u8);
    out.push((v / 281474976710656 % 256) as u8);
    out.push((v / 72057594037927936 % 256) as u8);
    proof {
        assert(out@ =~= old(out)@ + spec_le8(v));
    }
}

// --- inbound messages ---

/// The encoding of an inbound message, as the core produces it: a tag byte,
/// then the variant's fields.
pub open spec fn spec_encode_message(m: SmallMessage) -> Seq<u8> {
    match m {
        SmallMessage::Heartbeat(t) => seq![0u8] + spec_le8(t),
        SmallMessage::TransportData(ts) => seq![
            1u8,
            if ts.running {
                1u8
            } else {
                0u8
            },
            ts.ltc.h,
            ts.ltc.m,
            ts.ltc.s,
            ts.ltc.f,
        ],
        SmallMessage::BeatData(b) => seq![2u8] + spec_le2(b.tempo) + spec_le2(b.index),
        SmallMessage::ShutdownOccured => seq![3u8],
        SmallMessage::EventOccured(e) => seq![4u8] + spec_le2(e),
    }
}

/// What a byte sequence decodes to: the message its prefix encodes, or
/// nothing when the tag is unknown or the payload truncated.
pub open spec fn spec_decode_message(s: Seq<u8>) -> Option<SmallMessage> {
    if s.len() < 1 {
        None
    } else if s[0] == 0 {
        if s.len() >= 9 {
            Some(SmallMessage::Heartbeat(spec_from_le8(s.subrange(1, 9)) as u64))
        } else {
            None
        }
    } else if s[0] == 1 {
        if s.len() >= 6 {
            Some(
                SmallMessage::TransportData(
                    TransportState {
                        running: s[1] != 0,
                        ltc: Timecode { h: s[2], m: s[3], s: s[4], f: s[5] },
                    },
                ),
            )
        } else {
            None
        }
    } else if s[0] == 2 {
        if s.len() >= 5 {
            Some(
                SmallMessage::BeatData(
                    Beat {
                        tempo: spec_from_le2(s[1], s[2]) as u16,
                        index: spec_from_le2(s[3], s[4]) as u16,
                    },
                ),
            )
        } else {
            None
        }
    } else if s[0] == 3 {
        Some(SmallMessage::ShutdownOccured)
    } else if s[0] == 4 {
        if s.len() >= 3 {
            Some(SmallMessage::EventOccured(spec_from_le2(s[1], s[2]) as u16))
        } else {
            None
        }
    } else {
        None
    }
}

/// Encodes one inbound message, as the core's side of the codec does.
pub fn encode_message(m: &SmallMessage) -> (r: Vec<u8>)
    ensures
        r@ == spec_encode_message(*m),
{
    let mut out: Vec<u8> = Vec::new();
    match m {
        SmallMessage::Heartbeat(t) => {
            out.push(0u8);
            push_le8(&mut out, *t);
        },
        SmallMessage::TransportData(ts) => {
            out.push(1u8);
            out.push(if ts.running {
                1u8
            } else {
                0u8
            });
            out.push(ts.ltc.h);
            out.push(ts.ltc.m);
            out.push(ts.ltc.s);
            out.push(ts.ltc.f);
        },
        SmallMessage::BeatData(b) => {
            out.push(2u8);
            push_le2(&mut out, b.tempo);
            push_le2(&mut out, b.index);
        },
        SmallMessage::ShutdownOccured => {
            out.push(3u8);
        },
        SmallMessage::EventOccured(e) => {
            out.push(4u8);
            push_le2(&mut out, *e);
        },
    }
    proof {
        assert(out@ =~= spec_encode_message(*m));
    }
    out
}

/// Decodes the prefix of one datagram into an inbound message, or `None`
/// for anything unrecognized or truncated — exactly when
/// [`spec_decode_message`] says so.
pub fn decode_message(s: &Vec<u8>) -> (r: Option<SmallMessage>)
    ensures
        r == spec_decode_message(s@),
{
    if s.len() < 1 {
        return None;
    }
    let tag = s[0];
    if tag == 0 {
        if s.len() >= 9 {
            let t: u64 = read_le8(s, 1);
            proof {
                assert(s@.subrange(1, 9) =~= seq![
                    s@[1], s@[2], s@[3], s@[4], s@[5], s@[6], s@[7], s@[8],
                ]);
            }
            Some(SmallMessage::Heartbeat(t))
        } else {
            None
        }
    } else if tag == 1 {
        if s.len() >= 6 {
            Some(
                SmallMessage::TransportData(
                    TransportState {
                        running: s[1] != 0,
                        ltc: Timecode { h: s[2], m: s[3], s: s[4], f: s[5] },
                    },
                ),
            )
        } else {
            None
        }
    } else if tag == 2 {
        if s.len() >= 5 {
            Some(
                SmallMessage::BeatData(
                    Beat { tempo: read_le2(s, 1), index: read_le2(s, 3) },
                ),
            )
        } else {
            None
        }
    } else if tag == 3 {
        Some(SmallMessage::ShutdownOccured)
    } else if tag == 4 {
        if s.len() >= 3 {
            Some(SmallMessage::EventOccured(read_le2(s, 1)))
        } else {
            None
        }
    } else {
        None
    }
}

/// Reads a 16-bit little-endian value at `at`.
fn read_le2(s: &Vec<u8>, at: usize) -> (r: u16)
    requires
        at + 2 <= s@.len(),
    ensures
        r == spec_from_le2(s@[at as int], s@[at as int + 1]),
{
    let n: usize = s.len();
    assert(at + 2 <= n);
    s[at] as u16 + 256 * (s[at + 1] as u16)
}

/// Reads a 64-bit little-endian value at `at`.
fn read_le8(s: &Vec<u8>, at: usize) -> (r: u64)
    requires
        at + 8 <= s@.len(),
    ensures
        r as int == spec_from_le8(
            seq![
                s@[at as int], s@[at as int + 1], s@[at as int + 2], s@[at as int + 3],
                s@[at as int + 4], s@[at as int + 5], s@[at as int + 6], s@[at as int + 7],
            ],
        ),
{
    let n: usize = s.len();
    assert(at + 8 <= n);
    s[at] as u64 + 256 * (s[at + 1] as u64) + 65536 * (s[at + 2] as u64) + 16777216 * (
    s[at + 3] as u64) + 4294967296 * (s[at + 4] as u64) + 1099511627776 * (s[at + 5] as u64)
        + 281474976710656 * (s[at + 6] as u64) + 72057594037927936 * (s[at + 7] as u64)
}

// --- outbound requests ---

/// A request is encodable when its identifier respects its capacity — every
/// buffer built through [`crate::text::TextBuffer`]'s constructors does.
pub open spec fn spec_request_wf(r: Request) -> bool {
    match r {
        Request::Subscribe(info) => info.identifier.wf(),
        _ => true,
    }
}

/// The encoding of a transport or cue command.
pub open spec fn spec_encode_control(ca: ControlAction) -> Seq<u8> {
    match ca {
        ControlAction::LoadNextCue => seq![0u8],
        ControlAction::LoadPreviousCue => seq![1u8],
        ControlAction::TransportZero => seq![2u8],
        ControlAction::TransportStart => seq![3u8],
        ControlAction::TransportStop => seq![4u8],
        ControlAction::ChangeJumpMode(jm) => seq![
            5u8,
            match jm {
                JumpModeChange::Toggle => 0u8,
                JumpModeChange::On => 1u8,
                JumpModeChange::Off => 2u8,
            },
        ],
    }
}

/// The encoding of an outbound request: a tag byte, then the variant's
/// fields; a subscription carries its identifier length-prefixed.
pub open spec fn spec_encode_request(r: Request) -> Seq<u8> {
    match r {
        Request::Ping => seq![0u8],
        Request::Subscribe(info) => seq![1u8, info.identifier@.len() as u8]
            + info.identifier@ + info.address.addr@ + spec_le2(info.address.port)
            + seq![info.message_kinds.bits] + spec_le8(info.last_contact),
        Request::ControlAction(ca) => seq![2u8] + spec_encode_control(ca),
    }
}

/// What a decoded request observably holds. Text rides as a plain byte
/// sequence here, so decoding can be stated as a function.
pub enum RequestAbs {
    Ping,
    Subscribe {
        identifier: Seq<u8>,
        address: Seq<u8>,
        port: u16,
        kinds: u8,
        last_contact: u64,
    },
    Control(ControlAction),
}

/// Everything observable about a request.
pub open spec fn spec_abs_request(r: Request) -> RequestAbs {
    match r {
        Request::Ping => RequestAbs::Ping,
        Request::Subscribe(info) => RequestAbs::Subscribe {
            identifier: info.identifier@,
            address: info.address.addr@,
            port: info.address.port,
            kinds: info.message_kinds.bits,
            last_contact: info.last_contact,
        },
        Request::ControlAction(ca) => RequestAbs::Control(ca),
    }
}

/// What a byte sequence decodes to as a request, as the core reads it: the
/// request whose encoding is a prefix, or nothing.
pub open spec fn spec_decode_request(s: Seq<u8>) -> Option<RequestAbs> {
    if s.len() < 1 {
        None
    } else if s[0] == 0 {
        Some(RequestAbs::Ping)
    } else if s[0] == 1 {
        if s.len() < 2 {
            None
        } else {
            let n = s[1] as int;
            if n > 32 || s.len() < 17 + n {
                None
            } else {
                Some(
                    RequestAbs::Subscribe {
                        identifier: s.subrange(2, 2 + n),
                        address: s.subrange(2 + n, 6 + n),
                        port: spec_from_le2(s[6 + n], s[7 + n]) as u16,
                        kinds: s[8 + n],
                        last_contact: spec_from_le8(s.subrange(9 + n, 17 + n)) as u64,
                    },
                )
            }
        }
    } else if s[0] == 2 {
        if s.len() < 2 {
            None
        } else if s[1] == 0 {
            Some(RequestAbs::Control(ControlAction::LoadNextCue))
        } else if s[1] == 1 {
            Some(RequestAbs::Control(ControlAction::LoadPreviousCue))
        } else if s[1] == 2 {
            Some(RequestAbs::Control(ControlAction::TransportZero))
        } else if s[1] == 3 {
            Some(RequestAbs::Control(ControlAction::TransportStart))
        } else if s[1] == 4 {
            Some(RequestAbs::Control(ControlAction::TransportStop))
        } else if s[1] == 5 {
            if s.len() < 3 {
                None
            } else if s[2] == 0 {
                Some(RequestAbs::Control(ControlAction::ChangeJumpMode(JumpModeChange::Toggle)))
            } else if s[2] == 1 {
                Some(RequestAbs::Control(ControlAction::ChangeJumpMode(JumpModeChange::On)))
            } else if s[2] == 2 {
                Some(RequestAbs::Control(ControlAction::ChangeJumpMode(JumpModeChange::Off)))
            } else {
                None
            }
        } else {
            None
        }
    } else {
        None
    }
}

/// Encodes one outbound request into a datagram payload.
pub fn encode_request(req: &Request) -> (r: Vec<u8>)
    requires
        spec_request_wf(*req),
    ensures
        r@ == spec_encode_request(*req),
{
    let mut out: Vec<u8> = Vec::new();
    match req {
        Request::Ping => {
            out.push(0u8);
        },
        Request::Subscribe(info) => {
            out.push(1u8);
            let idlen: usize = info.identifier.len();
            out.push(idlen as u8);
            let mut i: usize = 0;
            while i < idlen
                invariant
                    i <= idlen,
                    idlen == info.identifier@.len(),
                    info.identifier.wf(),
                    out@ == seq![1u8, idlen as u8] + info.identifier@.take(i as int),
                decreases idlen - i,
            {
                out.push(info.identifier.byte_at(i));
                i += 1;
                proof {
                    assert(out@ =~= seq![1u8, idlen as u8] + info.identifier@.take(i as int));
                }
            }
            proof {
                assert(info.identifier@.take(idlen as int) =~= info.identifier@);
            }
            out.push(info.address.addr[0]);
            out.push(info.address.addr[1]);
            out.push(info.address.addr[2]);
            out.push(info.address.addr[3]);
            push_le2(&mut out, info.address.port);
            out.push(info.message_kinds.bits);
            push_le8(&mut out, info.last_contact);
        },
        Request::ControlAction(ca) => {
            out.push(2u8);
            match ca {
                ControlAction::LoadNextCue => out.push(0u8),
                ControlAction::LoadPreviousCue => out.push(1u8),
                ControlAction::TransportZero => out.push(2u8),
                ControlAction::TransportStart => out.push(3u8),
                ControlAction::TransportStop => out.push(4u8),
                ControlAction::ChangeJumpMode(jm) => {
                    out.push(5u8);
                    match jm {
                        JumpModeChange::Toggle => out.push(0u8),
                        JumpModeChange::On => out.push(1u8),
                        JumpModeChange::Off => out.push(2u8),
                    }
                },
            }
        },
    }
    proof {
        assert(out@ =~= spec_encode_request(*req));
    }
    out
}

/// Law: decoding an encoded request recovers everything observable about
/// it, whatever trailing bytes ride along.
pub proof fn lemma_request_codec_round_trip(req: Request, extra: Seq<u8>)
    requires
        spec_request_wf(req),
    ensures
        spec_decode_request(spec_encode_request(req) + extra) == Some(spec_abs_request(req)),
{
    let e = spec_encode_request(req) + extra;
    match req {
        Request::Ping => {},
        Request::Subscribe(info) => {
            info.identifier.lemma_len_bounded();
            let n = info.identifier@.len() as int;
            assert(e[1] == n as u8);
            assert(e.subrange(2, 2 + n) =~= info.identifier@);
            assert(e.subrange(2 + n, 6 + n) =~= info.address.addr@);
            assert(e[6 + n] == spec_le2(info.address.port)[0]);
            assert(e[7 + n] == spec_le2(info.address.port)[1]);
            lemma_le2_round_trip(info.address.port);
            assert(e[8 + n] == info.message_kinds.bits);
            assert(e.subrange(9 + n, 17 + n) =~= spec_le8(info.last_contact));
            lemma_le8_round_trip(info.last_contact);
        },
        Request::ControlAction(ca) => {
            match ca {
                ControlAction::ChangeJumpMode(jm) => {},
                _ => {},
            }
        },
    }
}

/// Law: decoding an encoded inbound message recovers it, whatever trailing
/// bytes ride along in the datagram.
pub proof fn lemma_message_codec_round_trip(m: SmallMessage, extra: Seq<u8>)
    ensures
        spec_decode_message(spec_encode_message(m) + extra) == Some(m),
{
    let e = spec_encode_message(m) + extra;
    match m {
        SmallMessage::Heartbeat(t) => {
            assert(e.subrange(1, 9) =~= spec_le8(t));
            lemma_le8_round_trip(t);
        },
        SmallMessage::TransportData(ts) => {},
        SmallMessage::BeatData(b) => {
            lemma_le2_round_trip(b.tempo);
            lemma_le2_round_trip(b.index);
        },
        SmallMessage::ShutdownOccured => {},
        SmallMessage::EventOccured(v) => {
            lemma_le2_round_trip(v);
        },
    }
}

} // verus!
