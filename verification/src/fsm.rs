//! The BGP peer finite-state machine core: a pure, total transition
//! function from state and event to action and next state, following the
//! RFC 4271 session states, plus the session arithmetic around it:
//! negotiated timers and connection collision resolution.
//!
//! The surrounding runner owns sockets and timers; it performs the
//! returned action and feeds the resulting events back in.

use vstd::prelude::*;

verus! {

/// The six RFC 4271 session states.
#[derive(Debug, Clone, Copy, PartialEq, Eq, Hash, Structural)]
pub enum PeerState {
    Idle,
    Connect,
    Active,
    OpenSent,
    OpenConfirm,
    Established,
}

/// The events delivered to the state machine: operator starts and stops,
/// timer expiries, TCP outcomes, and received messages or their errors.
#[derive(Debug, Clone, Copy, PartialEq, Eq, Hash, Structural)]
pub enum PeerEvent {
    ManualStart,
    AutomaticStart,
    ManualStop,
    ConnectRetryTimerExpires,
    HoldTimerExpires,
    KeepaliveTimerExpires,
    TcpCrAcked,
    TcpConnectionConfirmed,
    TcpConnectionFails,
    BgpOpen,
    BgpHeaderErr,
    BgpOpenMsgErr,
    KeepAliveMsg,
    UpdateMsg,
    UpdateMsgErr,
    NotifMsg,
}

/// What the runner must do on a transition.
#[derive(Debug, Clone, Copy, PartialEq, Eq, Hash, Structural)]
pub enum PeerAction {
    /// Nothing beyond the state change.
    NoAction,
    /// Open an outbound TCP connection and arm the connect retry timer.
    InitiateConnection,
    /// Wait for an inbound connection.
    Listen,
    /// Send an OPEN message on the now-open connection.
    SendOpen,
    /// Send a KEEPALIVE message.
    SendKeepAlive,
    /// Send a NOTIFICATION with the given code and sub-code, close the
    /// connection and release resources.
    SendNotification { code: u8, sub_code: u8 },
    /// Close the connection and release resources.
    CloseConnection,
    /// Surface the received UPDATE to the consumer.
    EmitUpdate,
    /// Surface that the session reached Established.
    EmitSessionEstablished,
}

/// The transition table: for every state and event the next state and
/// the action the runner must take. `passive` selects passive TCP
/// establishment on a start event. Events that a state does not handle
/// are ignored in Idle and tear the session down to Idle elsewhere, as
/// the RFC's catch-all rows do.
pub open spec fn spec_transition(s: PeerState, e: PeerEvent, passive: bool) -> (
    PeerState,
    PeerAction,
) {
    match (s, e) {
        (PeerState::Idle, PeerEvent::ManualStart) => if passive {
            (PeerState::Active, PeerAction::Listen)
        } else {
            (PeerState::Connect, PeerAction::InitiateConnection)
        },
        (PeerState::Idle, PeerEvent::AutomaticStart) => if passive {
            (PeerState::Active, PeerAction::Listen)
        } else {
            (PeerState::Connect, PeerAction::InitiateConnection)
        },
        (PeerState::Idle, _) => (PeerState::Idle, PeerAction::NoAction),
        (_, PeerEvent::ManualStop) => (PeerState::Idle, PeerAction::CloseConnection),
        (_, PeerEvent::NotifMsg) => (PeerState::Idle, PeerAction::CloseConnection),
        (PeerState::Connect, PeerEvent::TcpCrAcked) => (PeerState::OpenSent, PeerAction::SendOpen),
        (PeerState::Connect, PeerEvent::TcpConnectionConfirmed) => (
            PeerState::OpenSent,
            PeerAction::SendOpen,
        ),
        (PeerState::Connect, PeerEvent::ConnectRetryTimerExpires) => (
            PeerState::Connect,
            PeerAction::InitiateConnection,
        ),
        (PeerState::Connect, PeerEvent::TcpConnectionFails) => (
            PeerState::Active,
            PeerAction::Listen,
        ),
        (PeerState::Active, PeerEvent::TcpCrAcked) => (PeerState::OpenSent, PeerAction::SendOpen),
        (PeerState::Active, PeerEvent::TcpConnectionConfirmed) => (
            PeerState::OpenSent,
            PeerAction::SendOpen,
        ),
        (PeerState::Active, PeerEvent::ConnectRetryTimerExpires) => (
            PeerState::Connect,
            PeerAction::InitiateConnection,
        ),
        (PeerState::OpenSent, PeerEvent::BgpOpen) => (
            PeerState::OpenConfirm,
            PeerAction::SendKeepAlive,
        ),
        (PeerState::OpenSent, PeerEvent::HoldTimerExpires) => (
            PeerState::Idle,
            PeerAction::SendNotification { code: 4, sub_code: 0 },
        ),
        (PeerState::OpenSent, PeerEvent::BgpHeaderErr) => (
            PeerState::Idle,
            PeerAction::SendNotification { code: 1, sub_code: 0 },
        ),
        (PeerState::OpenSent, PeerEvent::BgpOpenMsgErr) => (
            PeerState::Idle,
            PeerAction::SendNotification { code: 2, sub_code: 0 },
        ),
        (PeerState::OpenSent, PeerEvent::TcpConnectionFails) => (
            PeerState::Active,
            PeerAction::Listen,
        ),
        (PeerState::OpenConfirm, PeerEvent::KeepAliveMsg) => (
            PeerState::Established,
            PeerAction::EmitSessionEstablished,
        ),
        (PeerState::OpenConfirm, PeerEvent::HoldTimerExpires) => (
            PeerState::Idle,
            PeerAction::SendNotification { code: 4, sub_code: 0 },
        ),
        (PeerState::OpenConfirm, PeerEvent::KeepaliveTimerExpires) => (
            PeerState::OpenConfirm,
            PeerAction::SendKeepAlive,
        ),
        (PeerState::Established, PeerEvent::UpdateMsg) => (
            PeerState::Established,
            PeerAction::EmitUpdate,
        ),
        (PeerState::Established, PeerEvent::KeepAliveMsg) => (
            PeerState::Established,
            PeerAction::NoAction,
        ),
        (PeerState::Established, PeerEvent::KeepaliveTimerExpires) => (
            PeerState::Established,
            PeerAction::SendKeepAlive,
        ),
        (PeerState::Established, PeerEvent::HoldTimerExpires) => (
            PeerState::Idle,
            PeerAction::SendNotification { code: 4, sub_code: 0 },
        ),
        (PeerState::Established, PeerEvent::UpdateMsgErr) => (
            PeerState::Idle,
            PeerAction::SendNotification { code: 3, sub_code: 0 },
        ),
        (_, _) => (PeerState::Idle, PeerAction::CloseConnection),
    }
}

/// Run one step of the state machine.
pub fn transition(s: PeerState, e: PeerEvent, passive: bool) -> (r: (PeerState, PeerAction))
    ensures
        r == spec_transition(s, e, passive),
{
    match (s, e) {
        (PeerState::Idle, PeerEvent::ManualStart) => if passive {
            (PeerState::Active, PeerAction::Listen)
        } else {
            (PeerState::Connect, PeerAction::InitiateConnection)
        },
        (PeerState::Idle, PeerEvent::AutomaticStart) => if passive {
            (PeerState::Active, PeerAction::Listen)
        } else {
            (PeerState::Connect, PeerAction::InitiateConnection)
        },
        (PeerState::Idle, _) => (PeerState::Idle, PeerAction::NoAction),
        (_, PeerEvent::ManualStop) => (PeerState::Idle, PeerAction::CloseConnection),
        (_, PeerEvent::NotifMsg) => (PeerState::Idle, PeerAction::CloseConnection),
        (PeerState::Connect, PeerEvent::TcpCrAcked) => (PeerState::OpenSent, PeerAction::SendOpen),
        (PeerState::Connect, PeerEvent::TcpConnectionConfirmed) => (
            PeerState::OpenSent,
            PeerAction::SendOpen,
        ),
        (PeerState::Connect, PeerEvent::ConnectRetryTimerExpires) => (
            PeerState::Connect,
            PeerAction::InitiateConnection,
        ),
        (PeerState::Connect, PeerEvent::TcpConnectionFails) => (
            PeerState::Active,
            PeerAction::Listen,
        ),
        (PeerState::Active, PeerEvent::TcpCrAcked) => (PeerState::OpenSent, PeerAction::SendOpen),
        (PeerState::Active, PeerEvent::TcpConnectionConfirmed) => (
            PeerState::OpenSent,
            PeerAction::SendOpen,
        ),
        (PeerState::Active, PeerEvent::ConnectRetryTimerExpires) => (
            PeerState::Connect,
            PeerAction::InitiateConnection,
        ),
        (PeerState::OpenSent, PeerEvent::BgpOpen) => (
            PeerState::OpenConfirm,
            PeerAction::SendKeepAlive,
        ),
        (PeerState::OpenSent, PeerEvent::HoldTimerExpires) => (
            PeerState::Idle,
            PeerAction::SendNotification { code: 4, sub_code: 0 },
        ),
        (PeerState::OpenSent, PeerEvent::BgpHeaderErr) => (
            PeerState::Idle,
            PeerAction::SendNotification { code: 1, sub_code: 0 },
        ),
        (PeerState::OpenSent, PeerEvent::BgpOpenMsgErr) => (
            PeerState::Idle,
            PeerAction::SendNotification { code: 2, sub_code: 0 },
        ),
        (PeerState::OpenSent, PeerEvent::TcpConnectionFails) => (
            PeerState::Active,
            PeerAction::Listen,
        ),
        (PeerState::OpenConfirm, PeerEvent::KeepAliveMsg) => (
            PeerState::Established,
            PeerAction::EmitSessionEstablished,
        ),
        (PeerState::OpenConfirm, PeerEvent::HoldTimerExpires) => (
            PeerState::Idle,
            PeerAction::SendNotification { code: 4, sub_code: 0 },
        ),
        (PeerState::OpenConfirm, PeerEvent::KeepaliveTimerExpires) => (
            PeerState::OpenConfirm,
            PeerAction::SendKeepAlive,
        ),
        (PeerState::Established, PeerEvent::UpdateMsg) => (
            PeerState::Established,
            PeerAction::EmitUpdate,
        ),
        (PeerState::Established, PeerEvent::KeepAliveMsg) => (
            PeerState::Established,
            PeerAction::NoAction,
        ),
        (PeerState::Established, PeerEvent::KeepaliveTimerExpires) => (
            PeerState::Established,
            PeerAction::SendKeepAlive,
        ),
        (PeerState::Established, PeerEvent::HoldTimerExpires) => (
            PeerState::Idle,
            PeerAction::SendNotification { code: 4, sub_code: 0 },
        ),
        (PeerState::Established, PeerEvent::UpdateMsgErr) => (
            PeerState::Idle,
            PeerAction::SendNotification { code: 3, sub_code: 0 },
        ),
        (_, _) => (PeerState::Idle, PeerAction::CloseConnection),
    }
}

/// The transition table is total by construction; this states its
/// session-lifecycle invariants: Established is entered only from
/// OpenConfirm on a received KEEPALIVE, an operator stop or a received
/// NOTIFICATION resets any non-idle session to Idle, and Idle ignores
/// everything but a start event.
pub proof fn lemma_transition_total(s: PeerState, e: PeerEvent, passive: bool)
    ensures
        spec_transition(s, e, passive).0 == PeerState::Established ==> (s
            == PeerState::OpenConfirm && e == PeerEvent::KeepAliveMsg) || s
            == PeerState::Established,
        s != PeerState::Idle && (e == PeerEvent::ManualStop || e == PeerEvent::NotifMsg)
            ==> spec_transition(s, e, passive) == (PeerState::Idle, PeerAction::CloseConnection),
        s == PeerState::Idle && !(e == PeerEvent::ManualStart || e == PeerEvent::AutomaticStart)
            ==> spec_transition(s, e, passive) == (PeerState::Idle, PeerAction::NoAction),
{
}

/// The negotiated hold time: the smaller of the locally configured value
/// and what the peer advertised.
pub fn negotiated_hold_time(local: u16, peer: u16) -> (r: u16)
    ensures
        r == (if local <= peer {
            local
        } else {
            peer
        }),
{
    if local <= peer {
        local
    } else {
        peer
    }
}

/// The keepalive interval derived from a hold time: a third of it, and
/// zero (disabled) exactly when the hold time is zero.
pub fn keepalive_interval(hold_time: u16) -> (r: u16)
    ensures
        r == hold_time / 3,
        hold_time == 0 ==> r == 0,
{
    hold_time / 3
}

/// Connection collision resolution: the side with the numerically
/// greater BGP identifier keeps its connection.
pub fn collision_local_wins(local_bgp_id: u32, peer_bgp_id: u32) -> (r: bool)
    ensures
        r == (local_bgp_id > peer_bgp_id),
{
    local_bgp_id > peer_bgp_id
}

/// Collision resolution picks at most one side: when the identifiers
/// differ, exactly one of the two speakers keeps its connection, so a
/// peer never reaches Established on both channels.
pub proof fn lemma_collision_exclusive(a: u32, b: u32)
    ensures
        a != b ==> ((a > b) != (b > a)),
        !((a > b) && (b > a)),
{
}

} // verus!
