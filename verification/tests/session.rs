use discord_api::gateway::GatewayReceiveEvent;
use discord_api::session::{Phase, Session, SessionAction};
use discord_api::types::{GatewayEventType, Hello};
use discord_api::BotId;

fn fresh(phase: Phase) -> Session {
    let bot = BotId::new("tok".to_string(), 8704);
    let mut s = Session::new("bot:proc:node".to_string(), &bot, 3);
    s.phase = phase;
    s
}

#[test]
fn hello_while_awaiting_transitions_and_emits_two_frames() {
    let mut s = fresh(Phase::AwaitingHello);
    let acts = s.handle_gateway_event(GatewayReceiveEvent::Hello(Hello {
        heartbeat_interval: 41250,
    }));
    assert_eq!(s.phase, Phase::Identifying);
    assert_eq!(s.heartbeat_interval, 41250);
    // a wake-up at interval minus the 1000 ms head start, then exactly two
    // outbound frames: the heartbeat primer first, the identify second
    assert_eq!(acts.len(), 3);
    assert!(matches!(acts[0], SessionAction::ScheduleHeartbeat(40250)));
    assert!(matches!(acts[1], SessionAction::SendHeartbeat(None)));
    assert!(matches!(acts[2], SessionAction::SendIdentify));
}

#[test]
fn hello_with_tiny_interval_schedules_immediately() {
    let mut s = fresh(Phase::AwaitingHello);
    let acts = s.handle_gateway_event(GatewayReceiveEvent::Hello(Hello {
        heartbeat_interval: 999,
    }));
    assert!(matches!(acts[0], SessionAction::ScheduleHeartbeat(0)));
}

#[test]
fn hello_in_other_phases_is_ignored() {
    for phase in [Phase::Connecting, Phase::Identifying, Phase::Ready, Phase::Disconnected] {
        let mut s = fresh(phase);
        let acts = s.handle_gateway_event(GatewayReceiveEvent::Hello(Hello {
            heartbeat_interval: 41250,
        }));
        assert!(acts.is_empty());
        assert_eq!(s.phase, phase);
        assert_eq!(s.heartbeat_interval, 0);
    }
}

#[test]
fn ready_while_identifying_stores_token_and_forwards_once() {
    let mut s = fresh(Phase::Identifying);
    let acts = s.handle_gateway_event(GatewayReceiveEvent::Ready {
        session_id: "sess-1".to_string(),
        data: serde_json::Value::Null,
    });
    assert_eq!(s.phase, Phase::Ready);
    assert_eq!(s.session_id, "sess-1");
    assert_eq!(acts.len(), 1);
    match &acts[0] {
        SessionAction::Forward(GatewayReceiveEvent::Ready { session_id, .. }) => {
            assert_eq!(session_id, "sess-1");
        },
        _ => panic!("expected the ready event forwarded"),
    }
}

#[test]
fn reconnect_while_ready_sends_resume() {
    let mut s = fresh(Phase::Ready);
    let acts = s.handle_gateway_event(GatewayReceiveEvent::Reconnect);
    assert_eq!(s.phase, Phase::Ready);
    assert_eq!(acts.len(), 1);
    assert!(matches!(acts[0], SessionAction::SendResume));
}

#[test]
fn resumable_invalid_session_sends_resume() {
    let mut s = fresh(Phase::Ready);
    let acts = s.handle_gateway_event(GatewayReceiveEvent::InvalidSession(true));
    assert_eq!(s.phase, Phase::Ready);
    assert_eq!(acts.len(), 1);
    assert!(matches!(acts[0], SessionAction::SendResume));
}

#[test]
fn unresumable_invalid_session_disconnects_without_resume() {
    let mut s = fresh(Phase::Ready);
    let acts = s.handle_gateway_event(GatewayReceiveEvent::InvalidSession(false));
    assert_eq!(s.phase, Phase::Disconnected);
    assert!(acts.is_empty());
}

#[test]
fn other_events_forward_only_while_ready() {
    let mut s = fresh(Phase::Ready);
    let acts = s.handle_gateway_event(GatewayReceiveEvent::Dispatch(
        GatewayEventType::TypingStart,
        serde_json::Value::Null,
    ));
    assert_eq!(acts.len(), 1);
    assert!(matches!(
        acts[0],
        SessionAction::Forward(GatewayReceiveEvent::Dispatch(GatewayEventType::TypingStart, _))
    ));

    let mut s = fresh(Phase::Identifying);
    let acts = s.handle_gateway_event(GatewayReceiveEvent::Dispatch(
        GatewayEventType::TypingStart,
        serde_json::Value::Null,
    ));
    assert!(acts.is_empty());
}

#[test]
fn transport_open_starts_the_handshake() {
    let mut s = fresh(Phase::Connecting);
    s.on_transport_open();
    assert_eq!(s.phase, Phase::AwaitingHello);

    let mut s = fresh(Phase::Ready);
    s.on_transport_open();
    assert_eq!(s.phase, Phase::Ready);
}

#[test]
fn transport_closed_clears_negotiated_state() {
    let mut s = fresh(Phase::Ready);
    s.heartbeat_interval = 41250;
    s.last_seq = 99;
    s.session_id = "sess-1".to_string();
    s.on_transport_closed();
    assert_eq!(s.phase, Phase::Disconnected);
    assert_eq!(s.heartbeat_interval, 0);
    assert_eq!(s.last_seq, 0);
    assert_eq!(s.session_id, "");
    // the record itself survives with its identity and channel
    assert_eq!(s.token, "tok");
    assert_eq!(s.channel_id, 3);
}

#[test]
fn wake_sends_heartbeat_and_reschedules_while_alive() {
    for phase in [Phase::AwaitingHello, Phase::Identifying, Phase::Ready] {
        let mut s = fresh(phase);
        s.heartbeat_interval = 41250;
        s.last_seq = 17;
        let acts = s.on_wake();
        assert_eq!(acts.len(), 2);
        assert!(matches!(acts[0], SessionAction::SendHeartbeat(Some(17))));
        assert!(matches!(acts[1], SessionAction::ScheduleHeartbeat(41250)));
    }
}

#[test]
fn wake_is_a_no_op_when_dead() {
    for phase in [Phase::Connecting, Phase::Disconnected] {
        let s = fresh(phase);
        assert!(s.on_wake().is_empty());
    }
}
