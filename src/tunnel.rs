//! CONNECT handling: the target check and the life of one tunnel.
use crate::authority::{resolve_authority, resolved_authority, Authority, CONNECT_DEFAULT_PORT};
use vstd::prelude::*;

verus! {

pub const STATUS_OK: u16 = 200;

pub const STATUS_BAD_REQUEST: u16 = 400;

pub const STATUS_BAD_GATEWAY: u16 = 502;

/// A gateway-class status: the proxy could not reach the origin.
pub open spec fn is_gateway_error(status: u16) -> bool {
    status == 502 || status == 504
}

/// How the proxy answers the head of a CONNECT request.
#[derive(Debug)]
pub enum ConnectReply {
    /// The target is valid: connect to it.
    Accept(Authority),
    /// The target names no host: answer 400 and connect to nothing.
    BadRequest,
}

/// Checks the target of a CONNECT request. A bare host gets port 443.
pub fn http_connect_accept(target: &str) -> (r: ConnectReply)
    ensures
        match resolved_authority(target@, CONNECT_DEFAULT_PORT) {
            Some(a) => r matches ConnectReply::Accept(x) && x@ == a && x.wf(),
            None => r is BadRequest,
        },
{
    match resolve_authority(target, CONNECT_DEFAULT_PORT) {
        Some(a) => ConnectReply::Accept(a),
        None => ConnectReply::BadRequest,
    }
}

#[derive(Debug, Clone, Copy, PartialEq, Eq, Structural)]
pub enum TunnelPhase {
    /// The outbound connection is being opened.
    Connecting,
    /// Both connections are spliced; bytes flow opaquely.
    Relaying,
    /// Both connections are closed, or were never both open.
    Closed,
}

/// What happened on one of the two connections.
#[derive(Debug, Clone, Copy, PartialEq, Eq, Structural)]
pub enum TunnelEvent {
    OutboundConnected,
    OutboundFailed,
    ClientClosed,
    RelayFinished,
}

/// What the connection task does next.
#[derive(Debug, Clone, Copy, PartialEq, Eq, Structural)]
pub enum TunnelAction {
    /// Write `200` with no body to the client, then splice the two connections.
    ReplyOkAndRelay,
    /// Write this status to the client, then close it.
    ReplyAndClose(u16),
    /// Give up the outbound attempt and release it.
    AbortOutbound,
    /// Close both connections.
    CloseBoth,
    Nothing,
}

/// One tunnel: its phase, whether a `200` went to the client, and whether an
/// outbound connection was ever asked for.
#[derive(Debug, Clone, Copy, PartialEq, Eq, Structural)]
pub struct Tunnel {
    pub phase: TunnelPhase,
    pub ok_sent: bool,
    pub outbound_opened: bool,
}

/// The tunnel that a CONNECT request with target `target` starts.
pub open spec fn tunnel_start(target: Seq<char>) -> Tunnel {
    match resolved_authority(target, CONNECT_DEFAULT_PORT) {
        Some(_) => Tunnel { phase: TunnelPhase::Connecting, ok_sent: false, outbound_opened: true },
        None => Tunnel { phase: TunnelPhase::Closed, ok_sent: false, outbound_opened: false },
    }
}

/// The transition of a tunnel on an event, and the action it calls for.
pub open spec fn tunnel_step(t: Tunnel, e: TunnelEvent) -> (Tunnel, TunnelAction) {
    match (t.phase, e) {
        (TunnelPhase::Connecting, TunnelEvent::OutboundConnected) => (
            Tunnel { phase: TunnelPhase::Relaying, ok_sent: true, ..t },
            TunnelAction::ReplyOkAndRelay,
        ),
        (TunnelPhase::Connecting, TunnelEvent::OutboundFailed) => (
            Tunnel { phase: TunnelPhase::Closed, ..t },
            TunnelAction::ReplyAndClose(STATUS_BAD_GATEWAY),
        ),
        (TunnelPhase::Connecting, TunnelEvent::ClientClosed) => (
            Tunnel { phase: TunnelPhase::Closed, ..t },
            TunnelAction::AbortOutbound,
        ),
        (TunnelPhase::Relaying, TunnelEvent::ClientClosed) => (
            Tunnel { phase: TunnelPhase::Closed, ..t },
            TunnelAction::CloseBoth,
        ),
        (TunnelPhase::Relaying, TunnelEvent::RelayFinished) => (
            Tunnel { phase: TunnelPhase::Closed, ..t },
            TunnelAction::CloseBoth,
        ),
        _ => (t, TunnelAction::Nothing),
    }
}

/// The tunnel after a sequence of events.
pub open spec fn tunnel_run(t: Tunnel, es: Seq<TunnelEvent>) -> Tunnel
    decreases es.len(),
{
    if es.len() == 0 {
        t
    } else {
        tunnel_step(tunnel_run(t, es.drop_last()), es.last()).0
    }
}

impl Tunnel {
    /// Starts a tunnel for a CONNECT request with target `target`: with a
    /// valid target it asks for the outbound connection, else it answers 400.
    pub fn start(target: &str) -> (r: (Tunnel, ConnectReply))
        ensures
            r.0 == tunnel_start(target@),
            match resolved_authority(target@, CONNECT_DEFAULT_PORT) {
                Some(a) => r.1 matches ConnectReply::Accept(x) && x@ == a && x.wf(),
                None => r.1 is BadRequest,
            },
    {
        let reply = http_connect_accept(target);
        let t = match reply {
            ConnectReply::Accept(_) => Tunnel {
                phase: TunnelPhase::Connecting,
                ok_sent: false,
                outbound_opened: true,
            },
            ConnectReply::BadRequest => Tunnel {
                phase: TunnelPhase::Closed,
                ok_sent: false,
                outbound_opened: false,
            },
        };
        (t, reply)
    }

    /// Moves the tunnel on by one event and says what to do.
    pub fn on_event(&mut self, e: TunnelEvent) -> (r: TunnelAction)
        ensures
            (*final(self), r) == tunnel_step(*old(self), e),
    {
        match (self.phase, e) {
            (TunnelPhase::Connecting, TunnelEvent::OutboundConnected) => {
                self.phase = TunnelPhase::Relaying;
                self.ok_sent = true;
                TunnelAction::ReplyOkAndRelay
            },
            (TunnelPhase::Connecting, TunnelEvent::OutboundFailed) => {
                self.phase = TunnelPhase::Closed;
                TunnelAction::ReplyAndClose(STATUS_BAD_GATEWAY)
            },
            (TunnelPhase::Connecting, TunnelEvent::ClientClosed) => {
                self.phase = TunnelPhase::Closed;
                TunnelAction::AbortOutbound
            },
            (TunnelPhase::Relaying, TunnelEvent::ClientClosed)
            | (TunnelPhase::Relaying, TunnelEvent::RelayFinished) => {
                self.phase = TunnelPhase::Closed;
                TunnelAction::CloseBoth
            },
            _ => TunnelAction::Nothing,
        }
    }
}

/// A closed tunnel stays closed, and sends nothing more.
proof fn lemma_closed_is_final(t: Tunnel, es: Seq<TunnelEvent>)
    requires
        t.phase == TunnelPhase::Closed,
    ensures
        tunnel_run(t, es) == t,
    decreases es.len(),
{
    if es.len() > 0 {
        lemma_closed_is_final(t, es.drop_last());
    }
}

/// A CONNECT request whose target cannot be parsed is answered 400, and no
/// outbound connection is opened, whatever happens afterwards; no 200 is sent.
pub proof fn lemma_unparseable_target_rejected(target: Seq<char>, es: Seq<TunnelEvent>)
    requires
        resolved_authority(target, CONNECT_DEFAULT_PORT) is None,
    ensures
        !tunnel_run(tunnel_start(target), es).outbound_opened,
        !tunnel_run(tunnel_start(target), es).ok_sent,
        tunnel_run(tunnel_start(target), es).phase == TunnelPhase::Closed,
{
    lemma_closed_is_final(tunnel_start(target), es);
}

/// When the origin refuses the connection, the client gets a gateway-class
/// status and is closed, no 200 having been sent, then or later.
pub proof fn lemma_refused_origin_gets_gateway_error(target: Seq<char>, es: Seq<TunnelEvent>)
    requires
        resolved_authority(target, CONNECT_DEFAULT_PORT) is Some,
    ensures
        ({
            let (t, a) = tunnel_step(tunnel_start(target), TunnelEvent::OutboundFailed);
            &&& a matches TunnelAction::ReplyAndClose(s) && is_gateway_error(s)
            &&& t.phase == TunnelPhase::Closed
            &&& !tunnel_run(t, es).ok_sent
        }),
{
    let (t, a) = tunnel_step(tunnel_start(target), TunnelEvent::OutboundFailed);
    lemma_closed_is_final(t, es);
}

/// A valid CONNECT target whose origin accepts the connection gets `200`,
/// then the two connections are spliced.
pub proof fn lemma_reachable_origin_gets_ok(target: Seq<char>)
    requires
        resolved_authority(target, CONNECT_DEFAULT_PORT) is Some,
    ensures
        tunnel_start(target).outbound_opened,
        tunnel_step(tunnel_start(target), TunnelEvent::OutboundConnected).1
            == TunnelAction::ReplyOkAndRelay,
        tunnel_step(tunnel_start(target), TunnelEvent::OutboundConnected).0.phase
            == TunnelPhase::Relaying,
{
}

} // verus!
