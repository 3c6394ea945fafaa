use discord_api::gateway::GatewayReceiveEvent;
use discord_api::runner::{DiscordApiRequest, Runner, RunnerAction, RunnerInput};
use discord_api::send::GatewaySendEvent;
use discord_api::session::Phase;
use discord_api::BotId;

fn bot() -> BotId {
    BotId::new("tok".to_string(), 8704)
}

fn connect(runner: &mut Runner) -> u32 {
    let acts = runner.handle_input(RunnerInput::Request {
        source: "bot:proc:node".to_string(),
        request: DiscordApiRequest::Connect(bot()),
    });
    assert_eq!(acts.len(), 2);
    let channel = match acts[0] {
        RunnerAction::OpenTransport { channel } => channel,
        _ => panic!("expected an open-transport action"),
    };
    match &acts[1] {
        RunnerAction::Reply { target } => assert_eq!(target, "bot:proc:node"),
        _ => panic!("expected an acknowledgement"),
    }
    channel
}

fn feed(runner: &mut Runner, channel: u32, frame: &str) -> Vec<RunnerAction> {
    runner.handle_input(RunnerInput::FrameReceived {
        channel,
        bytes: frame.as_bytes().to_vec(),
    })
}

#[test]
fn end_to_end_handshake() {
    let mut runner = Runner::new(0);

    // Connect: a session is registered and the transport is asked to open
    let channel = connect(&mut runner);
    assert_eq!(channel, 0);

    // the transport reports the socket open
    let acts = runner.handle_input(RunnerInput::ChannelOpened { channel });
    assert!(acts.is_empty());
    assert_eq!(
        runner.registry.lookup_by_channel(channel).unwrap().phase,
        Phase::AwaitingHello
    );

    // hello: wake-up scheduled 1000 ms early, then two frames in order
    let acts = feed(&mut runner, channel, "{\"op\":10,\"d\":{\"heartbeat_interval\":41250}}");
    assert_eq!(acts.len(), 3);
    match &acts[0] {
        RunnerAction::SetTimer { delay_ms, bot: b } => {
            assert_eq!(*delay_ms, 40250);
            assert_eq!(b.token, "tok");
            assert_eq!(b.intents, 8704);
        },
        _ => panic!("expected the wake-up timer"),
    }
    match &acts[1] {
        RunnerAction::SendFrame { channel: ch, bytes } => {
            assert_eq!(*ch, channel);
            assert_eq!(bytes, "{\"op\":1,\"d\":null}".as_bytes());
        },
        _ => panic!("expected the heartbeat primer"),
    }
    match &acts[2] {
        RunnerAction::SendFrame { channel: ch, bytes } => {
            assert_eq!(*ch, channel);
            let v: serde_json::Value = serde_json::from_slice(bytes).unwrap();
            assert_eq!(v["op"].as_u64(), Some(2));
            assert_eq!(v["d"]["token"].as_str(), Some("tok"));
            assert_eq!(v["d"]["intents"].as_u64(), Some(8704));
            assert_eq!(v["d"]["properties"]["os"].as_str(), Some("nectar"));
        },
        _ => panic!("expected the identify frame"),
    }
    let s = runner.registry.lookup_by_channel(channel).unwrap();
    assert_eq!(s.phase, Phase::Identifying);
    assert_eq!(s.heartbeat_interval, 41250);

    // ready: phase Ready, token stored, exactly one forwarded event
    let acts = feed(
        &mut runner,
        channel,
        "{\"op\":0,\"t\":\"READY\",\"s\":1,\"d\":{\"session_id\":\"sess-1\"}}",
    );
    assert_eq!(acts.len(), 1);
    match &acts[0] {
        RunnerAction::ForwardEvent { target, event } => {
            assert_eq!(target, "bot:proc:node");
            assert!(matches!(event, GatewayReceiveEvent::Ready { .. }));
        },
        _ => panic!("expected the ready event forwarded"),
    }
    let s = runner.registry.lookup_by_channel(channel).unwrap();
    assert_eq!(s.phase, Phase::Ready);
    assert_eq!(s.session_id, "sess-1");
    assert_eq!(s.last_seq, 1);
}

fn ready_runner() -> (Runner, u32) {
    let mut runner = Runner::new(0);
    let channel = connect(&mut runner);
    runner.handle_input(RunnerInput::ChannelOpened { channel });
    feed(&mut runner, channel, "{\"op\":10,\"d\":{\"heartbeat_interval\":41250}}");
    feed(
        &mut runner,
        channel,
        "{\"op\":0,\"t\":\"READY\",\"s\":1,\"d\":{\"session_id\":\"sess-1\"}}",
    );
    (runner, channel)
}

#[test]
fn unknown_event_only_advances_the_sequence() {
    let (mut runner, channel) = ready_runner();
    let acts = feed(&mut runner, channel, "{\"op\":0,\"t\":\"FOO_BAR_BAZ\",\"s\":9,\"d\":{}}");
    assert!(acts.is_empty());
    let s = runner.registry.lookup_by_channel(channel).unwrap();
    assert_eq!(s.phase, Phase::Ready);
    assert_eq!(s.session_id, "sess-1");
    assert_eq!(s.heartbeat_interval, 41250);
    // the sequence side effect still applied
    assert_eq!(s.last_seq, 9);
}

#[test]
fn wrongly_shaped_event_is_dropped_not_forwarded() {
    let (mut runner, channel) = ready_runner();
    let acts = feed(&mut runner, channel, "{\"op\":0,\"t\":\"MESSAGE_CREATE\",\"s\":7,\"d\":5}");
    assert!(acts.is_empty());
    let s = runner.registry.lookup_by_channel(channel).unwrap();
    assert_eq!(s.phase, Phase::Ready);
    assert_eq!(s.last_seq, 7);
}

#[test]
fn sequence_tracks_the_last_frame_delivered() {
    let (mut runner, channel) = ready_runner();
    feed(&mut runner, channel, "{\"op\":0,\"t\":\"TYPING_START\",\"s\":4,\"d\":{}}");
    feed(&mut runner, channel, "{\"op\":11,\"s\":6,\"d\":null}");
    feed(&mut runner, channel, "{\"op\":0,\"t\":\"NO_SUCH\",\"s\":8,\"d\":{}}");
    assert_eq!(runner.registry.lookup_by_channel(channel).unwrap().last_seq, 8);
}

#[test]
fn reconnect_sends_a_resume_with_stored_state() {
    let (mut runner, channel) = ready_runner();
    feed(&mut runner, channel, "{\"op\":11,\"s\":12,\"d\":null}");
    let acts = feed(&mut runner, channel, "{\"op\":7,\"d\":null}");
    assert_eq!(acts.len(), 1);
    match &acts[0] {
        RunnerAction::SendFrame { channel: ch, bytes } => {
            assert_eq!(*ch, channel);
            assert_eq!(
                bytes,
                "{\"op\":6,\"d\":{\"token\":\"tok\",\"session_id\":\"sess-1\",\"seq\":12}}"
                    .as_bytes()
            );
        },
        _ => panic!("expected a resume frame"),
    }
}

#[test]
fn unresumable_invalid_session_disconnects_silently() {
    let (mut runner, channel) = ready_runner();
    let acts = feed(&mut runner, channel, "{\"op\":9,\"d\":false}");
    assert!(acts.is_empty());
    assert_eq!(
        runner.registry.lookup_by_channel(channel).unwrap().phase,
        Phase::Disconnected
    );
}

#[test]
fn resumable_invalid_session_resumes() {
    let (mut runner, channel) = ready_runner();
    let acts = feed(&mut runner, channel, "{\"op\":9,\"d\":true}");
    assert_eq!(acts.len(), 1);
    assert!(matches!(acts[0], RunnerAction::SendFrame { .. }));
    assert_eq!(runner.registry.lookup_by_channel(channel).unwrap().phase, Phase::Ready);
}

#[test]
fn wake_sends_heartbeat_and_reschedules() {
    let (mut runner, channel) = ready_runner();
    feed(&mut runner, channel, "{\"op\":11,\"s\":5,\"d\":null}");
    let acts = runner.handle_input(RunnerInput::HeartbeatWake { bot: bot() });
    assert_eq!(acts.len(), 2);
    match &acts[0] {
        RunnerAction::SendFrame { channel: ch, bytes } => {
            assert_eq!(*ch, channel);
            assert_eq!(bytes, "{\"op\":1,\"d\":5}".as_bytes());
        },
        _ => panic!("expected a heartbeat frame"),
    }
    match &acts[1] {
        RunnerAction::SetTimer { delay_ms, .. } => assert_eq!(*delay_ms, 41250),
        _ => panic!("expected the next wake-up scheduled"),
    }
}

#[test]
fn wake_after_disconnect_ends_the_chain() {
    let (mut runner, _) = ready_runner();
    runner.handle_input(RunnerInput::ChannelClosed { channel: 0 });
    let acts = runner.handle_input(RunnerInput::HeartbeatWake { bot: bot() });
    assert!(acts.is_empty());
}

#[test]
fn wake_for_an_unknown_identity_is_a_no_op() {
    let (runner, _) = ready_runner();
    let stranger = BotId::new("other".to_string(), 1);
    assert!(runner.handle_wake(&stranger).is_empty());
}

#[test]
fn channel_closed_clears_the_session() {
    let (mut runner, channel) = ready_runner();
    let acts = runner.handle_input(RunnerInput::ChannelClosed { channel });
    assert!(acts.is_empty());
    let s = runner.registry.lookup_by_channel(channel).unwrap();
    assert_eq!(s.phase, Phase::Disconnected);
    assert_eq!(s.heartbeat_interval, 0);
    assert_eq!(s.last_seq, 0);
    assert_eq!(s.session_id, "");
}

#[test]
fn disconnect_closes_the_channel_and_forgets_the_session() {
    let (mut runner, channel) = ready_runner();
    let acts = runner.handle_input(RunnerInput::Request {
        source: "bot:proc:node".to_string(),
        request: DiscordApiRequest::Disconnect(bot()),
    });
    assert_eq!(acts.len(), 1);
    assert!(matches!(acts[0], RunnerAction::CloseTransport { channel: ch } if ch == channel));
    assert!(runner.registry.lookup_by_identity(&bot()).is_none());
    assert!(runner.registry.lookup_by_channel(channel).is_none());
}

#[test]
fn http_calls_carry_the_credential_and_fixed_headers() {
    let (mut runner, _) = ready_runner();
    let acts = runner.handle_input(RunnerInput::Request {
        source: "bot:proc:node".to_string(),
        request: DiscordApiRequest::Http { bot: bot(), call: b"descriptor".to_vec() },
    });
    assert_eq!(acts.len(), 1);
    match &acts[0] {
        RunnerAction::HttpCall { target, headers, call } => {
            assert_eq!(target, "bot:proc:node");
            assert_eq!(call, b"descriptor");
            assert_eq!(headers.len(), 3);
            assert_eq!(headers[0].0, "Authorization");
            assert_eq!(headers[0].1, "Bot tok");
            assert_eq!(headers[1].0, "User-Agent");
            assert_eq!(headers[1].1, "DiscordBot (discord_api, 1.0)");
            assert_eq!(headers[2].0, "Content-Type");
            assert_eq!(headers[2].1, "application/json");
        },
        _ => panic!("expected an HTTP call"),
    }
}

#[test]
fn http_for_an_unknown_identity_is_a_no_op() {
    let (mut runner, _) = ready_runner();
    let stranger = BotId::new("other".to_string(), 1);
    let acts = runner.handle_input(RunnerInput::Request {
        source: "s".to_string(),
        request: DiscordApiRequest::Http { bot: stranger, call: vec![] },
    });
    assert!(acts.is_empty());
}

#[test]
fn caller_frames_go_out_on_the_session_channel() {
    let (mut runner, channel) = ready_runner();
    let acts = runner.handle_input(RunnerInput::Request {
        source: "bot:proc:node".to_string(),
        request: DiscordApiRequest::Gateway {
            bot: bot(),
            event: GatewaySendEvent::Heartbeat { seq: Some(2) },
        },
    });
    assert_eq!(acts.len(), 1);
    match &acts[0] {
        RunnerAction::SendFrame { channel: ch, bytes } => {
            assert_eq!(*ch, channel);
            assert_eq!(bytes, "{\"op\":1,\"d\":2}".as_bytes());
        },
        _ => panic!("expected the frame sent"),
    }
}

#[test]
fn frames_on_unknown_channels_are_dropped() {
    let (mut runner, _) = ready_runner();
    let acts = feed(&mut runner, 77, "{\"op\":11,\"d\":null}");
    assert!(acts.is_empty());
}

#[test]
fn second_connect_uses_a_fresh_channel() {
    let mut runner = Runner::new(0);
    let first = connect(&mut runner);
    let second = connect(&mut runner);
    assert_eq!(first, 0);
    assert_eq!(second, 1);
    assert!(runner.registry.lookup_by_channel(first).is_none());
    assert_eq!(runner.registry.lookup_by_identity(&bot()).unwrap().channel_id, second);
}
