//! The network protocol client: one logical session to the core over UDP.
//!
//! The outer life of the client is a reconnect loop: wait for an address
//! configuration, open a socket, send one `Subscribe`, then sit in the
//! session and react to inbound datagrams and control-queue actions. Every
//! failure mode — a failed send, a malformed datagram, an explicit reload —
//! funnels back to the same address-wait point, so there is never more than
//! one active session and no separate error state to track.
//!
//! The client here is the decision machine alone: sockets, timers and
//! queues live outside, feed it one [`NetEvent`] at a time and perform the
//! [`NetCommand`]s it returns.

use vstd::prelude::*;
use crate::events::{
    Action, IpAddress, Led, MessageKinds, Request, SubscriberInfo, KIND_BEAT_DATA, KIND_EVENT,
    KIND_HEARTBEAT, KIND_SHUTDOWN, KIND_TRANSPORT_DATA,
};
use crate::text::TextBuffer;
use crate::wire::{
    decode_message, encode_request, lemma_request_codec_round_trip, spec_abs_request,
    spec_decode_message, spec_decode_request, spec_encode_request, spec_request_wf, RequestAbs,
};

verus! {

/// The fixed local UDP port the controller binds.
pub const LOCAL_PORT: u16 = 1234;

/// Where the client stands in its reconnect loop.
#[derive(Clone, Copy, Debug, PartialEq, Eq, Structural)]
pub enum SessionPhase {
    /// Waiting for a network-layer address configuration.
    AwaitingConfig,
    /// Subscribe sent; its send outcome decides the session.
    SubscribePending,
    /// The subscribe send failed; waiting for an explicit reload before
    /// trying the whole loop again (no busy retry).
    AwaitingReload,
    /// Subscribed: traffic flows both ways.
    InSession,
    /// A request send is in flight; its outcome decides the session.
    SendPending,
}

/// The client's state: its phase and the two endpoints of the session.
#[derive(Clone, Copy, Debug, PartialEq, Eq)]
pub struct NetClient {
    pub phase: SessionPhase,
    pub local: IpAddress,
    pub remote: IpAddress,
}

/// One input to the client.
pub enum NetEvent {
    /// The network layer produced an address configuration (a DHCP lease):
    /// our octets, and the configured core endpoint read from shared state.
    ConfigAcquired { octets: [u8; 4], core: IpAddress },
    /// The outcome of the datagram send last commanded.
    SendResult { ok: bool },
    /// An inbound datagram arrived.
    Datagram { bytes: Vec<u8> },
    /// An action arrived on the network-control queue.
    Control { action: Action },
}

/// One instruction back to the surroundings, executed in order.
#[derive(Debug, PartialEq, Eq)]
pub enum NetCommand {
    /// Record the local endpoint in shared state.
    SetSelfIp(IpAddress),
    /// Publish an action on the upstream queue.
    EmitUpstream(Action),
    /// Open a UDP socket bound to this local port.
    OpenSocket(u16),
    /// Send one datagram to `dest` and report back a `SendResult`.
    SendDatagram { payload: Vec<u8>, dest: IpAddress },
    /// Close the session's socket.
    CloseSocket,
}

/// What a command observably is: the datagram payload is read through the
/// request codec, so contracts can speak of what is sent, not how it is
/// spelled in bytes.
pub enum NetCommandAbs {
    SetSelfIp(IpAddress),
    EmitUpstream(Action),
    OpenSocket(u16),
    Send { decoded: Option<RequestAbs>, dest: IpAddress },
    CloseSocket,
}

/// Everything observable about one command.
pub open spec fn spec_abs_cmd(c: NetCommand) -> NetCommandAbs {
    match c {
        NetCommand::SetSelfIp(ip) => NetCommandAbs::SetSelfIp(ip),
        NetCommand::EmitUpstream(a) => NetCommandAbs::EmitUpstream(a),
        NetCommand::OpenSocket(p) => NetCommandAbs::OpenSocket(p),
        NetCommand::SendDatagram { payload, dest } => NetCommandAbs::Send {
            decoded: spec_decode_request(payload@),
            dest,
        },
        NetCommand::CloseSocket => NetCommandAbs::CloseSocket,
    }
}

/// The identifier this controller subscribes under: the ASCII bytes of
/// "ClicKS Hardware Controller".
pub open spec fn spec_controller_identifier() -> Seq<u8> {
    seq![
        67u8, 108u8, 105u8, 99u8, 75u8, 83u8, 32u8, 72u8, 97u8, 114u8, 100u8, 119u8, 97u8, 114u8,
        101u8, 32u8, 67u8, 111u8, 110u8, 116u8, 114u8, 111u8, 108u8, 108u8, 101u8, 114u8,
    ]
}

/// The message kinds the controller asks for: heartbeat, transport state,
/// beat data, shutdown notices and generic events.
pub open spec fn spec_subscribed_kinds() -> u8 {
    KIND_HEARTBEAT | KIND_TRANSPORT_DATA | KIND_BEAT_DATA | KIND_SHUTDOWN | KIND_EVENT
}

/// The subscription the client opens a session with, as decoded back from
/// its own datagram.
pub open spec fn spec_subscription_abs(local: IpAddress) -> RequestAbs {
    RequestAbs::Subscribe {
        identifier: spec_controller_identifier(),
        address: local.addr@,
        port: local.port,
        kinds: spec_subscribed_kinds(),
        last_contact: 0u64,
    }
}

/// The client's state after one event.
pub open spec fn spec_net_next(c: NetClient, ev: NetEvent) -> NetClient {
    match (c.phase, ev) {
        (SessionPhase::AwaitingConfig, NetEvent::ConfigAcquired { octets, core }) => NetClient {
            phase: SessionPhase::SubscribePending,
            local: IpAddress { addr: octets, port: LOCAL_PORT },
            remote: core,
        },
        (SessionPhase::SubscribePending, NetEvent::SendResult { ok }) => NetClient {
            phase: if ok {
                SessionPhase::InSession
            } else {
                SessionPhase::AwaitingReload
            },
            ..c
        },
        (SessionPhase::AwaitingReload, NetEvent::Control { action: Action::ReloadConnection }) => {
            NetClient { phase: SessionPhase::AwaitingConfig, ..c }
        },
        (SessionPhase::InSession, NetEvent::Control { action }) => {
            match action {
                Action::RequestToCore(_) => NetClient { phase: SessionPhase::SendPending, ..c },
                Action::ReloadConnection => NetClient { phase: SessionPhase::AwaitingConfig, ..c },
                _ => c,
            }
        },
        (SessionPhase::SendPending, NetEvent::SendResult { ok }) => NetClient {
            phase: if ok {
                SessionPhase::InSession
            } else {
                SessionPhase::AwaitingConfig
            },
            ..c
        },
        _ => c,
    }
}

/// The commands one event produces, in execution order.
pub open spec fn spec_net_cmds(c: NetClient, ev: NetEvent) -> Seq<NetCommandAbs> {
    match (c.phase, ev) {
        (SessionPhase::AwaitingConfig, NetEvent::ConfigAcquired { octets, core }) => {
            let local = IpAddress { addr: octets, port: LOCAL_PORT };
            seq![
                NetCommandAbs::SetSelfIp(local),
                NetCommandAbs::EmitUpstream(Action::ForceRedraw),
                NetCommandAbs::OpenSocket(LOCAL_PORT),
                NetCommandAbs::EmitUpstream(Action::LEDBlip(Led::Connection)),
                NetCommandAbs::Send {
                    decoded: Some(spec_subscription_abs(local)),
                    dest: core,
                },
            ]
        },
        (SessionPhase::SubscribePending, NetEvent::SendResult { ok }) => {
            if ok {
                seq![
                    NetCommandAbs::Send { decoded: Some(RequestAbs::Ping), dest: c.remote },
                ]
            } else {
                Seq::<NetCommandAbs>::empty()
            }
        },
        (SessionPhase::AwaitingReload, NetEvent::Control { action: Action::ReloadConnection }) => {
            spec_session_close_cmds()
        },
        (SessionPhase::InSession, NetEvent::Datagram { bytes }) => {
            match spec_decode_message(bytes@) {
                Some(msg) => seq![NetCommandAbs::EmitUpstream(Action::MessageFromCore(msg))],
                None => Seq::<NetCommandAbs>::empty(),
            }
        },
        (SessionPhase::InSession, NetEvent::Control { action }) => {
            match action {
                Action::RequestToCore(req) => seq![
                    NetCommandAbs::Send {
                        decoded: Some(spec_abs_request(req)),
                        dest: c.remote,
                    },
                ],
                Action::ReloadConnection => spec_session_close_cmds(),
                _ => Seq::<NetCommandAbs>::empty(),
            }
        },
        (SessionPhase::SendPending, NetEvent::SendResult { ok }) => {
            if ok {
                Seq::<NetCommandAbs>::empty()
            } else {
                spec_session_close_cmds()
            }
        },
        _ => Seq::<NetCommandAbs>::empty(),
    }
}

/// The uniform tail of every session: turn the connection LED off and close
/// the socket.
pub open spec fn spec_session_close_cmds() -> Seq<NetCommandAbs> {
    seq![
        NetCommandAbs::EmitUpstream(Action::LEDSet(Led::Connection, false)),
        NetCommandAbs::CloseSocket,
    ]
}

/// An event is acceptable when any request it carries respects the text
/// capacity of the codec — every request built by this library does.
pub open spec fn spec_event_wf(ev: NetEvent) -> bool {
    match ev {
        NetEvent::Control { action: Action::RequestToCore(req) } => spec_request_wf(req),
        _ => true,
    }
}

/// What a consumer of `MessageFromCore` publishes for each core message:
/// transport data is forwarded while it is stopped or still near a frame
/// boundary, a beat is forwarded as beat telemetry, a shutdown notice turns
/// the connection LED off, a heartbeat turns it on, and anything else —
/// kinds the controller did not ask for included — is tolerated silently.
pub open spec fn spec_dispatch_message(m: crate::events::SmallMessage) -> Seq<Action> {
    match m {
        crate::events::SmallMessage::TransportData(d) => {
            if !d.running || d.ltc.f < 2 {
                seq![Action::NewTransportData(d)]
            } else {
                Seq::<Action>::empty()
            }
        },
        crate::events::SmallMessage::BeatData(b) => seq![Action::NewBeatData(b)],
        crate::events::SmallMessage::ShutdownOccured => seq![
            Action::LEDSet(Led::Connection, false),
        ],
        crate::events::SmallMessage::Heartbeat(_) => seq![Action::LEDSet(Led::Connection, true)],
        crate::events::SmallMessage::EventOccured(_) => Seq::<Action>::empty(),
    }
}

/// Turns one decoded core message into the actions it is worth on the
/// upstream queue.
pub fn dispatch_core_message(m: &crate::events::SmallMessage) -> (r: Vec<Action>)
    ensures
        r@ == spec_dispatch_message(*m),
{
    let mut out: Vec<Action> = Vec::new();
    match m {
        crate::events::SmallMessage::TransportData(d) => {
            if !d.running || d.ltc.f < 2 {
                out.push(Action::NewTransportData(*d));
            }
        },
        crate::events::SmallMessage::BeatData(b) => {
            out.push(Action::NewBeatData(*b));
        },
        crate::events::SmallMessage::ShutdownOccured => {
            out.push(Action::LEDSet(Led::Connection, false));
        },
        crate::events::SmallMessage::Heartbeat(_) => {
            out.push(Action::LEDSet(Led::Connection, true));
        },
        crate::events::SmallMessage::EventOccured(_) => {},
    }
    proof {
        assert(out@ =~= spec_dispatch_message(*m));
    }
    out
}

/// A phase with an open session's socket and subscription.
pub open spec fn spec_in_session(p: SessionPhase) -> bool {
    p == SessionPhase::InSession || p == SessionPhase::SendPending
}

/// Whether this event ends the active session: a failed request send, or an
/// explicit reload.
pub open spec fn spec_session_ending(c: NetClient, ev: NetEvent) -> bool {
    match (c.phase, ev) {
        (SessionPhase::SendPending, NetEvent::SendResult { ok }) => !ok,
        (SessionPhase::InSession, NetEvent::Control { action }) => action
            == Action::ReloadConnection,
        _ => false,
    }
}

/// A command that sends this client's own subscription family.
pub open spec fn spec_is_subscribe_send(cmd: NetCommandAbs) -> bool {
    match cmd {
        NetCommandAbs::Send { decoded: Some(RequestAbs::Subscribe { .. }), .. } => true,
        _ => false,
    }
}

/// Law (reconnect invariant, exit half): every session-ending event — a
/// send failure or an explicit reload — takes the client straight back to
/// the address-wait phase, with exactly the uniform close-down commands:
/// connection LED off, then close the socket.
pub proof fn lemma_session_end_reenters_address_wait(c: NetClient, ev: NetEvent)
    requires
        spec_session_ending(c, ev),
    ensures
        spec_net_next(c, ev).phase == SessionPhase::AwaitingConfig,
        spec_net_cmds(c, ev) == spec_session_close_cmds(),
{
}

/// Law (reconnect invariant, entry half): the client sends its subscription
/// exactly when it leaves the address wait on a fresh configuration — then
/// as the last of its bring-up commands, and as the only send among them —
/// and at no other step, as long as no caller explicitly asks it to forward
/// a subscription of its own making.
pub proof fn lemma_subscribe_sent_exactly_on_config(c: NetClient, ev: NetEvent)
    requires
        !match ev {
            NetEvent::Control { action: Action::RequestToCore(Request::Subscribe(_)) } => true,
            _ => false,
        },
    ensures
        c.phase == SessionPhase::AwaitingConfig && (ev matches NetEvent::ConfigAcquired { .. })
            ==> spec_net_cmds(c, ev).len() == 5 && spec_is_subscribe_send(spec_net_cmds(c, ev)[4])
            && (forall|i: int|
            0 <= i < 4 ==> !(#[trigger] spec_net_cmds(c, ev)[i] is Send)),
        !(c.phase == SessionPhase::AwaitingConfig && (ev matches NetEvent::ConfigAcquired { .. }))
            ==> (forall|i: int|
            0 <= i < spec_net_cmds(c, ev).len() ==> !spec_is_subscribe_send(
                #[trigger] spec_net_cmds(c, ev)[i],
            )),
{
}

/// Law (reconnect invariant, uniqueness half): the only way into a session
/// is the success report of the subscription just sent; so between any two
/// sessions the client has passed through the address wait and sent exactly
/// one fresh subscription.
pub proof fn lemma_session_entered_only_after_subscribe(c: NetClient, ev: NetEvent)
    ensures
        spec_in_session(spec_net_next(c, ev).phase) && !spec_in_session(c.phase) ==> c.phase
            == SessionPhase::SubscribePending && (ev matches NetEvent::SendResult { ok: true }),
{
}

/// Law: a malformed datagram has no effect at all — the decode failure is
/// swallowed, no state moves, no command is issued, the session stays up.
pub proof fn lemma_malformed_datagram_is_inert(c: NetClient, ev: NetEvent)
    requires
        c.phase == SessionPhase::InSession,
        ev matches NetEvent::Datagram { bytes } && spec_decode_message(bytes@) is None,
    ensures
        spec_net_next(c, ev) == c,
        spec_net_cmds(c, ev) == Seq::<NetCommandAbs>::empty(),
{
}

/// How many of these commands send this client's own subscription family.
pub open spec fn spec_count_subscribe_cmds(cmds: Seq<NetCommandAbs>) -> nat
    decreases cmds.len(),
{
    if cmds.len() == 0 {
        0
    } else {
        spec_count_subscribe_cmds(cmds.drop_last()) + if spec_is_subscribe_send(cmds.last()) {
            1nat
        } else {
            0nat
        }
    }
}

/// The client after a whole event sequence, applied left to right.
pub open spec fn spec_net_run(c: NetClient, evs: Seq<NetEvent>) -> NetClient
    decreases evs.len(),
{
    if evs.len() == 0 {
        c
    } else {
        spec_net_run(spec_net_next(c, evs[0]), evs.drop_first())
    }
}

/// Total subscriptions sent over a whole event sequence.
pub open spec fn spec_run_subscribes(c: NetClient, evs: Seq<NetEvent>) -> nat
    decreases evs.len(),
{
    if evs.len() == 0 {
        0
    } else {
        spec_count_subscribe_cmds(spec_net_cmds(c, evs[0])) + spec_run_subscribes(
            spec_net_next(c, evs[0]),
            evs.drop_first(),
        )
    }
}

/// How often a whole event sequence takes the client out of the address
/// wait — one fresh session attempt each.
pub open spec fn spec_run_departures(c: NetClient, evs: Seq<NetEvent>) -> nat
    decreases evs.len(),
{
    let here: nat = if c.phase == SessionPhase::AwaitingConfig && (evs.len() > 0 && evs[0]
        matches NetEvent::ConfigAcquired { .. }) {
        1
    } else {
        0
    };
    if evs.len() == 0 {
        0
    } else {
        here + spec_run_departures(spec_net_next(c, evs[0]), evs.drop_first())
    }
}

/// An event that explicitly asks the client to forward a subscription of
/// the caller's own making; the reconnect law counts only the client's own
/// subscription traffic, so it sets these aside.
pub open spec fn spec_is_explicit_subscribe(ev: NetEvent) -> bool {
    match ev {
        NetEvent::Control { action: Action::RequestToCore(Request::Subscribe(_)) } => true,
        _ => false,
    }
}

/// One step sends its subscription exactly when it leaves the address wait.
proof fn lemma_step_subscribe_count(c: NetClient, ev: NetEvent)
    requires
        !spec_is_explicit_subscribe(ev),
    ensures
        spec_count_subscribe_cmds(spec_net_cmds(c, ev)) == if c.phase
            == SessionPhase::AwaitingConfig && (ev matches NetEvent::ConfigAcquired { .. }) {
            1nat
        } else {
            0nat
        },
{
    reveal_with_fuel(spec_count_subscribe_cmds, 8);
    let cmds = spec_net_cmds(c, ev);
    if c.phase == SessionPhase::AwaitingConfig && (ev matches NetEvent::ConfigAcquired { .. }) {
        assert(cmds.drop_last().drop_last() =~= cmds.take(3));
        assert(cmds.take(3).drop_last() =~= cmds.take(2));
        assert(cmds.take(2).drop_last() =~= cmds.take(1));
        assert(cmds.take(1).drop_last() =~= cmds.take(0));
        assert(spec_count_subscribe_cmds(cmds.take(0)) == 0);
        assert(spec_count_subscribe_cmds(cmds) == 1);
    } else {
        if cmds.len() == 1 {
            assert(cmds.drop_last() =~= cmds.take(0));
            assert(spec_count_subscribe_cmds(cmds) == 0);
        } else if cmds.len() == 2 {
            assert(cmds.drop_last().drop_last() =~= cmds.take(0));
            assert(spec_count_subscribe_cmds(cmds) == 0);
        }
    }
}

/// Law (reconnect invariant, counted over whole runs): across any sequence
/// of events — sessions opening, failing, reloading, any number of times —
/// the client sends exactly one subscription per departure from the
/// address wait, as long as no caller explicitly asks it to forward a
/// subscription of the caller's own making. Exactly one `Subscribe` per
/// session attempt, never a retry storm, never a silent skip.
pub proof fn lemma_one_subscribe_per_session_attempt(c: NetClient, evs: Seq<NetEvent>)
    requires
        forall|i: int| 0 <= i < evs.len() ==> !spec_is_explicit_subscribe(#[trigger] evs[i]),
    ensures
        spec_run_subscribes(c, evs) == spec_run_departures(c, evs),
    decreases evs.len(),
{
    if evs.len() > 0 {
        lemma_step_subscribe_count(c, evs[0]);
        assert(forall|i: int|
            0 <= i < evs.drop_first().len() ==> !spec_is_explicit_subscribe(
                #[trigger] evs.drop_first()[i],
            ));
        lemma_one_subscribe_per_session_attempt(spec_net_next(c, evs[0]), evs.drop_first());
    }
}

/// Builds this controller's identifier buffer.
fn controller_identifier() -> (r: TextBuffer<32>)
    ensures
        r.wf(),
        r@ == spec_controller_identifier(),
{
    let mut r = TextBuffer::<32>::empty();
    r.push(67);
    r.push(108);
    r.push(105);
    r.push(99);
    r.push(75);
    r.push(83);
    r.push(32);
    r.push(72);
    r.push(97);
    r.push(114);
    r.push(100);
    r.push(119);
    r.push(97);
    r.push(114);
    r.push(101);
    r.push(32);
    r.push(67);
    r.push(111);
    r.push(110);
    r.push(116);
    r.push(114);
    r.push(111);
    r.push(108);
    r.push(108);
    r.push(101);
    r.push(114);
    proof {
        assert(r@ =~= spec_controller_identifier());
    }
    r
}

/// Builds the subscription request announcing `local` as the answer
/// address.
pub fn build_subscription(local: IpAddress) -> (r: Request)
    ensures
        spec_request_wf(r),
        spec_abs_request(r) == spec_subscription_abs(local),
{
    let kinds = MessageKinds::none().with(KIND_HEARTBEAT).with(KIND_TRANSPORT_DATA).with(
        KIND_BEAT_DATA,
    ).with(KIND_SHUTDOWN).with(KIND_EVENT);
    proof {
        assert(((((0u8 | 1u8) | 2u8) | 4u8) | 8u8) | 16u8 == (((1u8 | 2u8) | 4u8) | 8u8) | 16u8)
            by (bit_vector);
    }
    Request::Subscribe(
        SubscriberInfo {
            identifier: controller_identifier(),
            address: local,
            message_kinds: kinds,
            last_contact: 0,
        },
    )
}

impl NetClient {
    /// A client that has never seen an address configuration.
    pub fn new() -> (r: Self)
        ensures
            r.phase == SessionPhase::AwaitingConfig,
    {
        NetClient {
            phase: SessionPhase::AwaitingConfig,
            local: IpAddress::unset(),
            remote: IpAddress::unset(),
        }
    }

    /// Advances the client by one event and returns the commands to run,
    /// in order.
    pub fn step(&mut self, ev: NetEvent) -> (cmds: Vec<NetCommand>)
        requires
            spec_event_wf(ev),
        ensures
            *final(self) == spec_net_next(*old(self), ev),
            cmds@.map_values(|c: NetCommand| spec_abs_cmd(c)) == spec_net_cmds(*old(self), ev),
    {
        let mut cmds: Vec<NetCommand> = Vec::new();
        match (self.phase, ev) {
            (SessionPhase::AwaitingConfig, NetEvent::ConfigAcquired { octets, core }) => {
                let local = IpAddress::new(octets, LOCAL_PORT);
                self.local = local;
                self.remote = core;
                self.phase = SessionPhase::SubscribePending;
                let subscription = build_subscription(local);
                let payload = encode_request(&subscription);
                proof {
                    lemma_request_codec_round_trip(subscription, Seq::<u8>::empty());
                    assert(spec_encode_request(subscription) + Seq::<u8>::empty()
                        =~= payload@);
                }
                cmds.push(NetCommand::SetSelfIp(local));
                cmds.push(NetCommand::EmitUpstream(Action::ForceRedraw));
                cmds.push(NetCommand::OpenSocket(LOCAL_PORT));
                cmds.push(NetCommand::EmitUpstream(Action::LEDBlip(Led::Connection)));
                cmds.push(NetCommand::SendDatagram { payload, dest: core });
            },
            (SessionPhase::SubscribePending, NetEvent::SendResult { ok }) => {
                if ok {
                    self.phase = SessionPhase::InSession;
                    let payload = encode_request(&Request::Ping);
                    proof {
                        lemma_request_codec_round_trip(Request::Ping, Seq::<u8>::empty());
                        assert(spec_encode_request(Request::Ping) + Seq::<u8>::empty()
                            =~= payload@);
                    }
                    cmds.push(NetCommand::SendDatagram { payload, dest: self.remote });
                } else {
                    self.phase = SessionPhase::AwaitingReload;
                }
            },
            (SessionPhase::AwaitingReload, NetEvent::Control { action }) => {
                match action {
                    Action::ReloadConnection => {
                        self.phase = SessionPhase::AwaitingConfig;
                        cmds.push(
                            NetCommand::EmitUpstream(Action::LEDSet(Led::Connection, false)),
                        );
                        cmds.push(NetCommand::CloseSocket);
                    },
                    _ => {},
                }
            },
            (SessionPhase::InSession, NetEvent::Datagram { bytes }) => {
                match decode_message(&bytes) {
                    Some(msg) => {
                        cmds.push(NetCommand::EmitUpstream(Action::MessageFromCore(msg)));
                    },
                    None => {},
                }
            },
            (SessionPhase::InSession, NetEvent::Control { action }) => {
                match action {
                    Action::RequestToCore(req) => {
                        self.phase = SessionPhase::SendPending;
                        let payload = encode_request(&req);
                        proof {
                            lemma_request_codec_round_trip(req, Seq::<u8>::empty());
                            assert(spec_encode_request(req) + Seq::<u8>::empty() =~= payload@);
                        }
                        cmds.push(NetCommand::SendDatagram { payload, dest: self.remote });
                    },
                    Action::ReloadConnection => {
                        self.phase = SessionPhase::AwaitingConfig;
                        cmds.push(
                            NetCommand::EmitUpstream(Action::LEDSet(Led::Connection, false)),
                        );
                        cmds.push(NetCommand::CloseSocket);
                    },
                    _ => {},
                }
            },
            (SessionPhase::SendPending, NetEvent::SendResult { ok }) => {
                if ok {
                    self.phase = SessionPhase::InSession;
                } else {
                    self.phase = SessionPhase::AwaitingConfig;
                    cmds.push(NetCommand::EmitUpstream(Action::LEDSet(Led::Connection, false)));
                    cmds.push(NetCommand::CloseSocket);
                }
            },
            _ => {},
        }
        proof {
            assert(cmds@.map_values(|c: NetCommand| spec_abs_cmd(c)) =~= spec_net_cmds(
                *old(self),
                ev,
            ));
        }
        cmds
    }
}

} // verus!
