use netgauze::fsm::{
    collision_local_wins, keepalive_interval, negotiated_hold_time, transition, PeerAction,
    PeerEvent, PeerState,
};

#[test]
fn test_session_establishment_path() {
    let (s, a) = transition(PeerState::Idle, PeerEvent::ManualStart, false);
    assert_eq!((s, a), (PeerState::Connect, PeerAction::InitiateConnection));
    let (s, a) = transition(s, PeerEvent::TcpCrAcked, false);
    assert_eq!((s, a), (PeerState::OpenSent, PeerAction::SendOpen));
    let (s, a) = transition(s, PeerEvent::BgpOpen, false);
    assert_eq!((s, a), (PeerState::OpenConfirm, PeerAction::SendKeepAlive));
    let (s, a) = transition(s, PeerEvent::KeepAliveMsg, false);
    assert_eq!(
        (s, a),
        (PeerState::Established, PeerAction::EmitSessionEstablished)
    );
    let (s, a) = transition(s, PeerEvent::UpdateMsg, false);
    assert_eq!((s, a), (PeerState::Established, PeerAction::EmitUpdate));
    let (s, a) = transition(s, PeerEvent::KeepaliveTimerExpires, false);
    assert_eq!((s, a), (PeerState::Established, PeerAction::SendKeepAlive));
}

#[test]
fn test_passive_start_listens() {
    let (s, a) = transition(PeerState::Idle, PeerEvent::ManualStart, true);
    assert_eq!((s, a), (PeerState::Active, PeerAction::Listen));
    let (s, a) = transition(s, PeerEvent::TcpCrAcked, true);
    assert_eq!((s, a), (PeerState::OpenSent, PeerAction::SendOpen));
}

#[test]
fn test_connect_retry_and_fallback() {
    let (s, a) = transition(PeerState::Connect, PeerEvent::ConnectRetryTimerExpires, false);
    assert_eq!((s, a), (PeerState::Connect, PeerAction::InitiateConnection));
    let (s, a) = transition(PeerState::Connect, PeerEvent::TcpConnectionFails, false);
    assert_eq!((s, a), (PeerState::Active, PeerAction::Listen));
}

#[test]
fn test_hold_timer_notifications() {
    for st in [
        PeerState::OpenSent,
        PeerState::OpenConfirm,
        PeerState::Established,
    ] {
        let (s, a) = transition(st, PeerEvent::HoldTimerExpires, false);
        assert_eq!(s, PeerState::Idle);
        assert_eq!(
            a,
            PeerAction::SendNotification {
                code: 4,
                sub_code: 0
            }
        );
    }
}

#[test]
fn test_header_and_open_errors() {
    let (s, a) = transition(PeerState::OpenSent, PeerEvent::BgpHeaderErr, false);
    assert_eq!(s, PeerState::Idle);
    assert_eq!(
        a,
        PeerAction::SendNotification {
            code: 1,
            sub_code: 0
        }
    );
    let (s, a) = transition(PeerState::OpenSent, PeerEvent::BgpOpenMsgErr, false);
    assert_eq!(s, PeerState::Idle);
    assert_eq!(
        a,
        PeerAction::SendNotification {
            code: 2,
            sub_code: 0
        }
    );
}

#[test]
fn test_stop_and_notification_reset_to_idle() {
    for st in [
        PeerState::Connect,
        PeerState::Active,
        PeerState::OpenSent,
        PeerState::OpenConfirm,
        PeerState::Established,
    ] {
        let (s, a) = transition(st, PeerEvent::ManualStop, false);
        assert_eq!((s, a), (PeerState::Idle, PeerAction::CloseConnection));
        let (s, a) = transition(st, PeerEvent::NotifMsg, false);
        assert_eq!((s, a), (PeerState::Idle, PeerAction::CloseConnection));
    }
}

#[test]
fn test_idle_ignores_session_events() {
    for ev in [
        PeerEvent::TcpCrAcked,
        PeerEvent::BgpOpen,
        PeerEvent::KeepAliveMsg,
        PeerEvent::UpdateMsg,
        PeerEvent::HoldTimerExpires,
        PeerEvent::NotifMsg,
    ] {
        let (s, a) = transition(PeerState::Idle, ev, false);
        assert_eq!((s, a), (PeerState::Idle, PeerAction::NoAction));
    }
}

#[test]
fn test_totality_of_transition_table() {
    // Every state and event pair yields some next state and action; the
    // function is total, so this just exercises the whole table.
    let states = [
        PeerState::Idle,
        PeerState::Connect,
        PeerState::Active,
        PeerState::OpenSent,
        PeerState::OpenConfirm,
        PeerState::Established,
    ];
    let events = [
        PeerEvent::ManualStart,
        PeerEvent::AutomaticStart,
        PeerEvent::ManualStop,
        PeerEvent::ConnectRetryTimerExpires,
        PeerEvent::HoldTimerExpires,
        PeerEvent::KeepaliveTimerExpires,
        PeerEvent::TcpCrAcked,
        PeerEvent::TcpConnectionConfirmed,
        PeerEvent::TcpConnectionFails,
        PeerEvent::BgpOpen,
        PeerEvent::BgpHeaderErr,
        PeerEvent::BgpOpenMsgErr,
        PeerEvent::KeepAliveMsg,
        PeerEvent::UpdateMsg,
        PeerEvent::UpdateMsgErr,
        PeerEvent::NotifMsg,
    ];
    let mut established_entries = 0;
    for st in states {
        for ev in events {
            for passive in [false, true] {
                let (next, _action) = transition(st, ev, passive);
                if next == PeerState::Established && st != PeerState::Established {
                    assert_eq!(st, PeerState::OpenConfirm);
                    assert_eq!(ev, PeerEvent::KeepAliveMsg);
                    established_entries += 1;
                }
            }
        }
    }
    // Established is entered from another state in exactly one way.
    assert_eq!(established_entries, 2);
}

#[test]
fn test_timers() {
    assert_eq!(negotiated_hold_time(90, 180), 90);
    assert_eq!(negotiated_hold_time(180, 90), 90);
    assert_eq!(negotiated_hold_time(0, 90), 0);
    assert_eq!(keepalive_interval(90), 30);
    assert_eq!(keepalive_interval(180), 60);
    assert_eq!(keepalive_interval(0), 0);
}

#[test]
fn test_collision_resolution() {
    assert!(collision_local_wins(0x0A000002, 0x0A000001));
    assert!(!collision_local_wins(0x0A000001, 0x0A000002));
    assert!(!collision_local_wins(0x0A000001, 0x0A000001));
}
