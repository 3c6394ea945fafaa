use discord_api::registry::Registry;
use discord_api::session::Phase;
use discord_api::BotId;

fn bot(token: &str, intents: u128) -> BotId {
    BotId::new(token.to_string(), intents)
}

#[test]
fn insert_then_lookup_by_identity_and_channel_agree() {
    let mut reg = Registry::new(0);
    let id = bot("tok-a", 8704);
    let ch = reg.insert(&id, "caller:a".to_string());
    assert_eq!(ch, 0);

    let by_id = reg.lookup_by_identity(&id).expect("registered identity");
    assert_eq!(by_id.channel_id, ch);
    assert_eq!(by_id.parent, "caller:a");
    assert_eq!(by_id.phase, Phase::Connecting);
    assert_eq!(by_id.heartbeat_interval, 0);
    assert_eq!(by_id.last_seq, 0);
    assert_eq!(by_id.session_id, "");

    let by_ch = reg.lookup_by_channel(ch).expect("registered channel");
    assert_eq!(by_ch.token, "tok-a");
    assert_eq!(by_ch.intents, 8704);
}

#[test]
fn remove_deletes_both_mappings() {
    let mut reg = Registry::new(0);
    let id = bot("tok-a", 1);
    let ch = reg.insert(&id, "caller:a".to_string());
    reg.remove(&id);
    assert!(reg.lookup_by_identity(&id).is_none());
    assert!(reg.lookup_by_channel(ch).is_none());
}

#[test]
fn remove_leaves_other_sessions_alone() {
    let mut reg = Registry::new(0);
    let a = bot("tok-a", 1);
    let b = bot("tok-b", 2);
    let ch_a = reg.insert(&a, "caller:a".to_string());
    let ch_b = reg.insert(&b, "caller:b".to_string());
    reg.remove(&a);
    assert!(reg.lookup_by_identity(&a).is_none());
    assert!(reg.lookup_by_channel(ch_a).is_none());
    let s = reg.lookup_by_identity(&b).expect("other identity untouched");
    assert_eq!(s.channel_id, ch_b);
    assert_eq!(reg.lookup_by_channel(ch_b).expect("other channel untouched").token, "tok-b");
}

#[test]
fn channel_numbers_increase_and_are_not_reused() {
    let mut reg = Registry::new(5);
    let a = bot("tok-a", 1);
    let b = bot("tok-b", 2);
    assert_eq!(reg.insert(&a, "caller:a".to_string()), 5);
    assert_eq!(reg.insert(&b, "caller:b".to_string()), 6);
    reg.remove(&a);
    // a fresh registration never reuses a retired channel number
    let c = bot("tok-c", 3);
    assert_eq!(reg.insert(&c, "caller:c".to_string()), 7);
}

#[test]
fn reinsert_replaces_the_session_and_retires_the_old_channel() {
    let mut reg = Registry::new(0);
    let id = bot("tok-a", 1);
    let ch1 = reg.insert(&id, "caller:a".to_string());
    let ch2 = reg.insert(&id, "caller:b".to_string());
    assert_ne!(ch1, ch2);
    let s = reg.lookup_by_identity(&id).expect("still registered");
    assert_eq!(s.channel_id, ch2);
    assert_eq!(s.parent, "caller:b");
    assert!(reg.lookup_by_channel(ch1).is_none());
    assert_eq!(reg.lookup_by_channel(ch2).expect("new channel").token, "tok-a");
}

#[test]
fn identities_differ_by_token_or_intents() {
    let mut reg = Registry::new(0);
    let a = bot("tok", 1);
    let a2 = bot("tok", 2);
    let ch_a = reg.insert(&a, "caller:a".to_string());
    let ch_a2 = reg.insert(&a2, "caller:b".to_string());
    assert_ne!(ch_a, ch_a2);
    assert_eq!(reg.lookup_by_identity(&a).expect("first").channel_id, ch_a);
    assert_eq!(reg.lookup_by_identity(&a2).expect("second").channel_id, ch_a2);
}

#[test]
fn identity_equality_is_field_by_field() {
    let a = bot("tok", 1);
    assert!(a.same_identity(&a.duplicate()));
    assert!(!a.same_identity(&bot("tok", 2)));
    assert!(!a.same_identity(&bot("tok2", 1)));
}

#[test]
fn lookups_miss_on_unknown_keys() {
    let reg = Registry::new(0);
    assert!(reg.lookup_by_identity(&bot("nope", 0)).is_none());
    assert!(reg.lookup_by_channel(0).is_none());
}

fn stored(token: &str, intents: u128, channel: u32) -> discord_api::session::Session {
    discord_api::session::Session {
        parent: "caller:a".to_string(),
        token: token.to_string(),
        intents,
        phase: Phase::Disconnected,
        heartbeat_interval: 0,
        last_seq: 0,
        session_id: String::new(),
        channel_id: channel,
    }
}

#[test]
fn restore_rebuilds_a_consistent_registry() {
    let records = vec![stored("tok-a", 1, 4), stored("tok-b", 2, 9)];
    let mut reg = Registry::restore(records).expect("consistent records restore");
    assert_eq!(reg.lookup_by_channel(4).expect("first record").token, "tok-a");
    assert_eq!(reg.lookup_by_channel(9).expect("second record").token, "tok-b");
    // fresh numbers continue above the highest restored channel
    assert_eq!(reg.insert(&bot("tok-c", 3), "caller:c".to_string()), 10);
}

#[test]
fn restore_rejects_inconsistent_records() {
    assert!(Registry::restore(vec![stored("tok-a", 1, 4), stored("tok-a", 1, 5)]).is_none());
    assert!(Registry::restore(vec![stored("tok-a", 1, 4), stored("tok-b", 2, 4)]).is_none());
}

#[test]
fn restore_of_nothing_is_a_fresh_registry() {
    let reg = Registry::restore(Vec::new()).expect("empty set restores");
    assert_eq!(reg.next_channel, 0);
}
