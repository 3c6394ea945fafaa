use discord_api::gateway::{parse_envelope, parse_gateway_payload, DecodeError, GatewayReceiveEvent, PayloadKind};
use discord_api::send::{GatewayIdentifyProperties, GatewaySendEvent};
use discord_api::types::GatewayEventType;

fn heartbeat(seq: Option<u64>) -> Vec<u8> {
    GatewaySendEvent::Heartbeat { seq }.to_json_bytes()
}

#[test]
fn heartbeat_encodes_exactly() {
    assert_eq!(heartbeat(Some(5)), b"{\"op\":1,\"d\":5}".to_vec());
    assert_eq!(heartbeat(None), b"{\"op\":1,\"d\":null}".to_vec());
    assert_eq!(heartbeat(Some(0)), b"{\"op\":1,\"d\":0}".to_vec());
    assert_eq!(
        heartbeat(Some(u64::MAX)),
        b"{\"op\":1,\"d\":18446744073709551615}".to_vec()
    );
}

#[test]
fn heartbeat_round_trips_op_and_seq() {
    // encode with a sequence value, decode, and read both back
    let bytes = heartbeat(Some(41));
    let env = parse_envelope(&bytes).unwrap();
    assert_eq!(env.op, 1);
    assert_eq!(env.d.as_u64(), Some(41));
    let mut seq: u64 = 0;
    assert!(matches!(
        parse_gateway_payload(&bytes, &mut seq),
        Ok(GatewayReceiveEvent::Heartbeat)
    ));
}

#[test]
fn heartbeat_round_trips_absent_seq() {
    let bytes = heartbeat(None);
    let env = parse_envelope(&bytes).unwrap();
    assert_eq!(env.op, 1);
    assert!(env.d.is_null());
}

#[test]
fn resume_encodes_exactly() {
    let frame = GatewaySendEvent::Resume {
        token: "tok-1".to_string(),
        session_id: "sess-1".to_string(),
        seq: 312,
    };
    assert_eq!(
        frame.to_json_bytes(),
        b"{\"op\":6,\"d\":{\"token\":\"tok-1\",\"session_id\":\"sess-1\",\"seq\":312}}".to_vec()
    );
}

#[test]
fn identify_encodes_exactly() {
    let frame = GatewaySendEvent::Identify {
        token: "abc".to_string(),
        properties: GatewayIdentifyProperties {
            os: "linux".to_string(),
            browser: "b".to_string(),
            device: "d".to_string(),
        },
        compress: None,
        large_threshold: None,
        shard: None,
        presence: None,
        guild_subscriptions: None,
        intents: 8704,
    };
    let expected = "{\"op\":2,\"d\":{\"token\":\"abc\",\"properties\":{\"os\":\"linux\",\"browser\":\"b\",\"device\":\"d\"},\"compress\":false,\"large_threshold\":50,\"shard\":[0,1],\"presence\":null,\"guild_subscriptions\":null,\"intents\":8704}}";
    assert_eq!(frame.to_json_bytes(), expected.as_bytes().to_vec());
}

#[test]
fn identify_intents_above_u64_range() {
    let frame = GatewaySendEvent::Identify {
        token: "t".to_string(),
        properties: GatewayIdentifyProperties {
            os: "o".to_string(),
            browser: "b".to_string(),
            device: "d".to_string(),
        },
        compress: Some(true),
        large_threshold: Some(99),
        shard: Some([2, 4]),
        presence: None,
        guild_subscriptions: Some(false),
        intents: 340282366920938463463374607431768211455,
    };
    let expected = "{\"op\":2,\"d\":{\"token\":\"t\",\"properties\":{\"os\":\"o\",\"browser\":\"b\",\"device\":\"d\"},\"compress\":true,\"large_threshold\":99,\"shard\":[2,4],\"presence\":null,\"guild_subscriptions\":false,\"intents\":340282366920938463463374607431768211455}}";
    assert_eq!(frame.to_json_bytes(), expected.as_bytes().to_vec());
}

#[test]
fn string_content_is_escaped() {
    let frame = GatewaySendEvent::Resume {
        token: "a\"b\\c\nd".to_string(),
        session_id: "s".to_string(),
        seq: 1,
    };
    let bytes = frame.to_json_bytes();
    // the encoder must escape the quote, the backslash and the newline,
    // and serde_json must read the same content back
    let v: serde_json::Value = serde_json::from_slice(&bytes).unwrap();
    assert_eq!(v["d"]["token"].as_str(), Some("a\"b\\c\nd"));
    let text = String::from_utf8(bytes).unwrap();
    assert!(text.contains("a\\\"b\\\\c\\u000ad"));
}

#[test]
fn encoded_frames_parse_as_json() {
    let frame = GatewaySendEvent::UpdatePresence {
        since: Some(123),
        activities: None,
        status: "online".to_string(),
        afk: false,
    };
    let bytes = frame.to_json_bytes();
    let v: serde_json::Value = serde_json::from_slice(&bytes).unwrap();
    assert_eq!(v["op"].as_u64(), Some(3));
    assert_eq!(v["d"]["since"].as_u64(), Some(123));
    assert_eq!(v["d"]["status"].as_str(), Some("online"));
    assert_eq!(v["d"]["afk"].as_bool(), Some(false));
    assert!(v["d"]["activities"].is_null());
}

#[test]
fn presence_with_activities_encodes_each_member() {
    let activity = discord_api::send::GatewayActivity {
        name: "listening".to_string(),
        activity_type: 2,
        url: None,
        created_at: 1700000000,
        timestamps: Some(discord_api::send::GatewayActivityTimestamps {
            start: Some(10),
            end: None,
        }),
        application_id: None,
        details: None,
        state: None,
        emoji: None,
        party: None,
        assets: None,
        secrets: None,
        instance: Some(false),
        flags: None,
    };
    let frame = GatewaySendEvent::UpdatePresence {
        since: None,
        activities: Some(vec![activity]),
        status: "idle".to_string(),
        afk: true,
    };
    let bytes = frame.to_json_bytes();
    let v: serde_json::Value = serde_json::from_slice(&bytes).unwrap();
    assert_eq!(v["op"].as_u64(), Some(3));
    let acts = v["d"]["activities"].as_array().unwrap();
    assert_eq!(acts.len(), 1);
    assert_eq!(acts[0]["name"].as_str(), Some("listening"));
    assert_eq!(acts[0]["type"].as_u64(), Some(2));
    assert_eq!(acts[0]["timestamps"]["start"].as_u64(), Some(10));
    assert!(acts[0]["timestamps"]["end"].is_null());
    assert_eq!(acts[0]["instance"].as_bool(), Some(false));
    assert_eq!(v["d"]["afk"].as_bool(), Some(true));
}

#[test]
fn guild_members_request_encodes_string_array() {
    let frame = GatewaySendEvent::RequestGuildMembers {
        guild_id: "g1".to_string(),
        query: Some(String::new()),
        limit: 0,
        presences: None,
        user_ids: Some(vec!["u1".to_string(), "u2".to_string()]),
        nonce: "n".to_string(),
    };
    let expected = "{\"op\":8,\"d\":{\"guild_id\":\"g1\",\"query\":\"\",\"limit\":0,\"presences\":null,\"user_ids\":[\"u1\",\"u2\"],\"nonce\":\"n\"}}";
    assert_eq!(frame.to_json_bytes(), expected.as_bytes().to_vec());
}

#[test]
fn decode_hello() {
    let bytes = b"{\"op\":10,\"d\":{\"heartbeat_interval\":41250}}";
    let mut seq: u64 = 0;
    match parse_gateway_payload(bytes, &mut seq) {
        Ok(GatewayReceiveEvent::Hello(h)) => assert_eq!(h.heartbeat_interval, 41250),
        other => panic!("expected hello, got {:?}", other.is_ok()),
    }
    assert_eq!(seq, 0);
}

#[test]
fn decode_ready_and_update_seq() {
    let bytes =
        b"{\"op\":0,\"t\":\"READY\",\"s\":7,\"d\":{\"session_id\":\"sess-9\",\"v\":10}}";
    let mut seq: u64 = 0;
    match parse_gateway_payload(bytes, &mut seq) {
        Ok(GatewayReceiveEvent::Ready { session_id, data }) => {
            assert_eq!(session_id, "sess-9");
            assert_eq!(data["v"].as_u64(), Some(10));
        },
        _ => panic!("expected ready"),
    }
    assert_eq!(seq, 7);
}

#[test]
fn decode_control_codes() {
    let mut seq: u64 = 0;
    assert!(matches!(
        parse_gateway_payload(b"{\"op\":7,\"d\":null}", &mut seq),
        Ok(GatewayReceiveEvent::Reconnect)
    ));
    assert!(matches!(
        parse_gateway_payload(b"{\"op\":11,\"d\":null}", &mut seq),
        Ok(GatewayReceiveEvent::HeartbeatAck)
    ));
    assert!(matches!(
        parse_gateway_payload(b"{\"op\":9,\"d\":true}", &mut seq),
        Ok(GatewayReceiveEvent::InvalidSession(true))
    ));
    assert!(matches!(
        parse_gateway_payload(b"{\"op\":9,\"d\":false}", &mut seq),
        Ok(GatewayReceiveEvent::InvalidSession(false))
    ));
}

#[test]
fn decode_dispatch_event() {
    let bytes = b"{\"op\":0,\"t\":\"MESSAGE_CREATE\",\"s\":3,\"d\":{\"content\":\"hi\"}}";
    let mut seq: u64 = 0;
    match parse_gateway_payload(bytes, &mut seq) {
        Ok(GatewayReceiveEvent::Dispatch(kind, data)) => {
            assert_eq!(kind, GatewayEventType::MessageCreate);
            assert_eq!(data["content"].as_str(), Some("hi"));
        },
        _ => panic!("expected dispatch"),
    }
    assert_eq!(seq, 3);
}

#[test]
fn unknown_event_name_is_rejected() {
    let bytes = b"{\"op\":0,\"t\":\"FOO_BAR_BAZ\",\"s\":5,\"d\":{}}";
    let mut seq: u64 = 0;
    match parse_gateway_payload(bytes, &mut seq) {
        Err(DecodeError::UnknownEventType(name)) => assert_eq!(name, "FOO_BAR_BAZ"),
        _ => panic!("expected unknown event type"),
    }
    // the sequence side effect still applies to a rejected frame
    assert_eq!(seq, 5);
}

#[test]
fn missing_event_name_is_rejected_as_unknown() {
    let bytes = b"{\"op\":0,\"d\":{}}";
    let mut seq: u64 = 0;
    match parse_gateway_payload(bytes, &mut seq) {
        Err(DecodeError::UnknownEventType(name)) => assert_eq!(name, ""),
        _ => panic!("expected unknown event type"),
    }
}

#[test]
fn malformed_frames_are_rejected() {
    let mut seq: u64 = 10;
    let cases: [&[u8]; 6] = [
        b"not json at all",
        b"{\"d\":{}}",                      // no op
        b"{\"op\":1}",                      // no d
        b"{\"op\":300,\"d\":null}",         // op out of byte range
        b"{\"op\":1,\"s\":\"x\",\"d\":1}",  // non-numeric sequence
        b"{\"op\":0,\"t\":5,\"d\":{}}",     // non-string event name
    ];
    for bytes in cases {
        assert!(matches!(
            parse_gateway_payload(bytes, &mut seq),
            Err(DecodeError::Malformed)
        ));
        // a frame rejected as malformed never advances the counter
        assert_eq!(seq, 10);
    }
}

#[test]
fn payload_shape_mismatches() {
    let mut seq: u64 = 0;
    assert!(matches!(
        parse_gateway_payload(b"{\"op\":10,\"d\":{}}", &mut seq),
        Err(DecodeError::PayloadShapeMismatch(PayloadKind::Hello))
    ));
    assert!(matches!(
        parse_gateway_payload(b"{\"op\":9,\"d\":{}}", &mut seq),
        Err(DecodeError::PayloadShapeMismatch(PayloadKind::InvalidSession))
    ));
    assert!(matches!(
        parse_gateway_payload(b"{\"op\":0,\"t\":\"READY\",\"d\":{}}", &mut seq),
        Err(DecodeError::PayloadShapeMismatch(PayloadKind::Ready))
    ));
}

#[test]
fn dispatch_payload_must_be_an_object() {
    let mut seq: u64 = 0;
    match parse_gateway_payload(b"{\"op\":0,\"t\":\"MESSAGE_CREATE\",\"s\":2,\"d\":5}", &mut seq) {
        Err(DecodeError::PayloadShapeMismatch(PayloadKind::Event(k))) => {
            assert_eq!(k, GatewayEventType::MessageCreate);
        },
        _ => panic!("expected a payload shape mismatch"),
    }
    // the sequence side effect still applies to the rejected frame
    assert_eq!(seq, 2);
    assert!(matches!(
        parse_gateway_payload(b"{\"op\":0,\"t\":\"TYPING_START\",\"d\":null}", &mut seq),
        Err(DecodeError::PayloadShapeMismatch(PayloadKind::Event(GatewayEventType::TypingStart)))
    ));
    assert!(matches!(
        parse_gateway_payload(b"{\"op\":0,\"t\":\"GUILD_CREATE\",\"d\":[1,2]}", &mut seq),
        Err(DecodeError::PayloadShapeMismatch(PayloadKind::Event(GatewayEventType::GuildCreate)))
    ));
}

#[test]
fn null_sequence_and_name_count_as_absent() {
    let bytes = b"{\"op\":1,\"s\":null,\"t\":null,\"d\":null}";
    let env = parse_envelope(bytes).unwrap();
    assert_eq!(env.op, 1);
    assert!(env.s.is_none());
    assert!(env.t.is_none());
}

#[test]
fn last_sequence_number_wins() {
    // mixed op codes, decode failures included: the counter tracks the
    // last sequence number delivered
    let mut seq: u64 = 0;
    let frames: [&[u8]; 4] = [
        b"{\"op\":0,\"t\":\"TYPING_START\",\"s\":3,\"d\":{}}",
        b"{\"op\":11,\"s\":4,\"d\":null}",
        b"{\"op\":0,\"t\":\"NO_SUCH_EVENT\",\"s\":6,\"d\":{}}",
        b"{\"op\":0,\"t\":\"GUILD_CREATE\",\"s\":9,\"d\":{}}",
    ];
    for bytes in frames {
        let _ = parse_gateway_payload(bytes, &mut seq);
    }
    assert_eq!(seq, 9);
}

#[test]
fn event_type_from_str_ignores_case() {
    assert_eq!(
        GatewayEventType::from_str("MESSAGE_CREATE"),
        Some(GatewayEventType::MessageCreate)
    );
    assert_eq!(
        GatewayEventType::from_str("message_create"),
        Some(GatewayEventType::MessageCreate)
    );
    assert_eq!(
        GatewayEventType::from_str("Ready"),
        Some(GatewayEventType::Ready)
    );
    assert_eq!(
        GatewayEventType::from_str("guild_scheduled_event_user_remove"),
        Some(GatewayEventType::GuildScheduledEventUserRemove)
    );
    assert_eq!(GatewayEventType::from_str("FOO_BAR_BAZ"), None);
    assert_eq!(GatewayEventType::from_str(""), None);
    assert_eq!(GatewayEventType::from_str("RESUMED"), None);
}

#[test]
fn voice_state_update_encodes_exactly() {
    let frame = GatewaySendEvent::UpdateVoiceState {
        guild_id: "g9".to_string(),
        channel_id: None,
        self_mute: true,
        self_deaf: false,
    };
    let expected = "{\"op\":4,\"d\":{\"guild_id\":\"g9\",\"channel_id\":null,\"self_mute\":true,\"self_deaf\":false}}";
    assert_eq!(frame.to_json_bytes(), expected.as_bytes().to_vec());
}

#[test]
fn every_recognized_name_maps_to_its_kind() {
    let names: [(&str, GatewayEventType); 10] = [
        ("READY", GatewayEventType::Ready),
        ("APPLICATION_COMMAND_PERMISSIONS_UPDATE", GatewayEventType::ApplicationCommandPermissionsUpdate),
        ("AUTOMODERATION_ACTION_EXECUTION", GatewayEventType::AutoModerationActionExecution),
        ("CHANNEL_PINS_UPDATE", GatewayEventType::ChannelPinsUpdate),
        ("GUILD_AUDIT_LOG_ENTRY_CREATE", GatewayEventType::GuildAuditLogEntryCreate),
        ("GUILD_MEMBERS_CHUNK", GatewayEventType::GuildMembersChunk),
        ("MESSAGE_REACTION_REMOVE_EMOJI", GatewayEventType::MessageReactionRemoveEmoji),
        ("STAGE_INSTANCE_DELETE", GatewayEventType::StageInstanceDelete),
        ("VOICE_SERVER_UPDATE", GatewayEventType::VoiceServerUpdate),
        ("WEBHOOKS_UPDATE", GatewayEventType::WebhooksUpdate),
    ];
    for (name, kind) in names {
        assert_eq!(GatewayEventType::from_str(name), Some(kind));
    }
}
