//! The payload codec's outbound half: the control frames the client sends
//! (identify, resume, heartbeat, and the caller-driven guild-members,
//! voice-state and presence updates), encoded to wire bytes.
//!
//! Encoding is a pure function; [`wire_of`] states the exact byte sequence
//! each frame produces, and [`GatewaySendEvent::to_json_bytes`] is verified
//! to return it.  The spec functions thread the bytes written so far, so
//! each one reads as the sequence of appends the encoder performs.  Members
//! appear in declaration order, and an absent optional member is encoded as
//! JSON `null`, except where the protocol fixes a default (compression off,
//! large threshold 50, the single shard).

use vstd::prelude::*;

use crate::ascii::{dec_rep, push_decimal_u128, push_decimal_u64};
use crate::json_text::{
    bool_bytes, json_string, opt_bool_json, opt_string_json, opt_u64_json, push_bool,
    push_json_string, push_lit, push_opt_bool, push_opt_string, push_opt_u64,
};
use vstd::string::StringSliceAdditionalSpecFns;

verus! {

/// Client metadata sent with an identify frame.
pub struct GatewayIdentifyProperties {
    pub os: String,
    pub browser: String,
    pub device: String,
}

/// Start and end of an activity, in unix milliseconds.
pub struct GatewayActivityTimestamps {
    pub start: Option<u64>,
    pub end: Option<u64>,
}

/// The emoji of a custom-status activity.
pub struct GatewayActivityEmoji {
    pub name: String,
    pub id: Option<u64>,
    pub animated: Option<bool>,
}

/// The party an activity belongs to.
pub struct GatewayActivityParty {
    pub id: Option<String>,
    pub size: Option<[u64; 2]>,
}

/// Image and hover-text assets of an activity.
pub struct GatewayActivityAssets {
    pub large_image: Option<String>,
    pub large_text: Option<String>,
    pub small_image: Option<String>,
    pub small_text: Option<String>,
}

/// Join/spectate secrets of an activity.
pub struct GatewayActivitySecrets {
    pub join: Option<String>,
    pub spectate: Option<String>,
    pub match_: Option<String>,
}

/// One presence activity.
pub struct GatewayActivity {
    pub name: String,
    pub activity_type: u32,
    pub url: Option<String>,
    pub created_at: u64,
    pub timestamps: Option<GatewayActivityTimestamps>,
    pub application_id: Option<u64>,
    pub details: Option<String>,
    pub state: Option<String>,
    pub emoji: Option<GatewayActivityEmoji>,
    pub party: Option<GatewayActivityParty>,
    pub assets: Option<GatewayActivityAssets>,
    pub secrets: Option<GatewayActivitySecrets>,
    pub instance: Option<bool>,
    pub flags: Option<u64>,
}

/// A presence update sent by the client.
pub struct GatewayPresenceUpdate {
    pub since: Option<u64>,
    pub activities: Option<Vec<GatewayActivity>>,
    pub status: String,
    pub afk: bool,
}

/// One outbound control frame.
pub enum GatewaySendEvent {
    Identify {
        token: String,
        properties: GatewayIdentifyProperties,
        compress: Option<bool>,
        large_threshold: Option<u64>,
        shard: Option<[u64; 2]>,
        presence: Option<GatewayPresenceUpdate>,
        guild_subscriptions: Option<bool>,
        intents: u128,
    },
    Resume { token: String, session_id: String, seq: u64 },
    Heartbeat { seq: Option<u64> },
    RequestGuildMembers {
        guild_id: String,
        query: Option<String>,
        limit: u64,
        presences: Option<bool>,
        user_ids: Option<Vec<String>>,
        nonce: String,
    },
    UpdateVoiceState {
        guild_id: String,
        channel_id: Option<String>,
        self_mute: bool,
        self_deaf: bool,
    },
    UpdatePresence {
        since: Option<u64>,
        activities: Option<Vec<GatewayActivity>>,
        status: String,
        afk: bool,
    },
}

/// `pre` extended with the timestamps object.
pub open spec fn timestamps_app(pre: Seq<u8>, t: GatewayActivityTimestamps) -> Seq<u8> {
    pre + "{\"start\":".spec_bytes() + opt_u64_json(t.start) + ",\"end\":".spec_bytes()
        + opt_u64_json(t.end) + "}".spec_bytes()
}

/// `pre` extended with the emoji object.
pub open spec fn emoji_app(pre: Seq<u8>, e: GatewayActivityEmoji) -> Seq<u8> {
    pre + "{\"name\":".spec_bytes() + json_string(e.name@) + ",\"id\":".spec_bytes()
        + opt_u64_json(e.id) + ",\"animated\":".spec_bytes() + opt_bool_json(e.animated)
        + "}".spec_bytes()
}

/// `pre` extended with a two-element number array (a shard, a party size).
pub open spec fn pair_app(pre: Seq<u8>, a: u64, b: u64) -> Seq<u8> {
    pre + "[".spec_bytes() + dec_rep(a as nat) + ",".spec_bytes() + dec_rep(b as nat)
        + "]".spec_bytes()
}

/// `pre` extended with the party object.
pub open spec fn party_app(pre: Seq<u8>, p: GatewayActivityParty) -> Seq<u8> {
    let x = pre + "{\"id\":".spec_bytes() + opt_string_json(p.id) + ",\"size\":".spec_bytes();
    let x = match p.size {
        Some(sz) => pair_app(x, sz[0], sz[1]),
        None => x + "null".spec_bytes(),
    };
    x + "}".spec_bytes()
}

/// `pre` extended with the assets object.
pub open spec fn assets_app(pre: Seq<u8>, a: GatewayActivityAssets) -> Seq<u8> {
    pre + "{\"large_image\":".spec_bytes() + opt_string_json(a.large_image)
        + ",\"large_text\":".spec_bytes() + opt_string_json(a.large_text)
        + ",\"small_image\":".spec_bytes() + opt_string_json(a.small_image)
        + ",\"small_text\":".spec_bytes() + opt_string_json(a.small_text) + "}".spec_bytes()
}

/// `pre` extended with the secrets object.
pub open spec fn secrets_app(pre: Seq<u8>, s: GatewayActivitySecrets) -> Seq<u8> {
    pre + "{\"join\":".spec_bytes() + opt_string_json(s.join) + ",\"spectate\":".spec_bytes()
        + opt_string_json(s.spectate) + ",\"match_\":".spec_bytes() + opt_string_json(s.match_)
        + "}".spec_bytes()
}

/// `pre` extended with one activity object.
pub open spec fn activity_app(pre: Seq<u8>, a: GatewayActivity) -> Seq<u8> {
    let x = pre + "{\"name\":".spec_bytes() + json_string(a.name@) + ",\"type\":".spec_bytes()
        + dec_rep(a.activity_type as nat) + ",\"url\":".spec_bytes() + opt_string_json(a.url)
        + ",\"created_at\":".spec_bytes() + dec_rep(a.created_at as nat)
        + ",\"timestamps\":".spec_bytes();
    let x = match a.timestamps {
        Some(t) => timestamps_app(x, t),
        None => x + "null".spec_bytes(),
    };
    let x = x + ",\"application_id\":".spec_bytes() + opt_u64_json(a.application_id)
        + ",\"details\":".spec_bytes() + opt_string_json(a.details) + ",\"state\":".spec_bytes()
        + opt_string_json(a.state) + ",\"emoji\":".spec_bytes();
    let x = match a.emoji {
        Some(e) => emoji_app(x, e),
        None => x + "null".spec_bytes(),
    };
    let x = x + ",\"party\":".spec_bytes();
    let x = match a.party {
        Some(p) => party_app(x, p),
        None => x + "null".spec_bytes(),
    };
    let x = x + ",\"assets\":".spec_bytes();
    let x = match a.assets {
        Some(v) => assets_app(x, v),
        None => x + "null".spec_bytes(),
    };
    let x = x + ",\"secrets\":".spec_bytes();
    let x = match a.secrets {
        Some(v) => secrets_app(x, v),
        None => x + "null".spec_bytes(),
    };
    x + ",\"instance\":".spec_bytes() + opt_bool_json(a.instance) + ",\"flags\":".spec_bytes()
        + opt_u64_json(a.flags) + "}".spec_bytes()
}

/// `pre` extended with the comma-joined activity objects.
pub open spec fn acts_app(pre: Seq<u8>, s: Seq<GatewayActivity>) -> Seq<u8>
    decreases s.len(),
{
    if s.len() == 0 {
        pre
    } else if s.len() == 1 {
        activity_app(pre, s[0])
    } else {
        activity_app(acts_app(pre, s.drop_last()) + ",".spec_bytes(), s.last())
    }
}

/// `pre` extended with an activity array or `null`.
pub open spec fn opt_acts_app(pre: Seq<u8>, o: Option<Vec<GatewayActivity>>) -> Seq<u8> {
    match o {
        Some(v) => acts_app(pre + "[".spec_bytes(), v@) + "]".spec_bytes(),
        None => pre + "null".spec_bytes(),
    }
}

/// `pre` extended with the comma-joined strings.
pub open spec fn strings_app(pre: Seq<u8>, s: Seq<String>) -> Seq<u8>
    decreases s.len(),
{
    if s.len() == 0 {
        pre
    } else if s.len() == 1 {
        pre + json_string(s[0]@)
    } else {
        strings_app(pre, s.drop_last()) + ",".spec_bytes() + json_string(s.last()@)
    }
}

/// `pre` extended with a string array or `null`.
pub open spec fn opt_strings_app(pre: Seq<u8>, o: Option<Vec<String>>) -> Seq<u8> {
    match o {
        Some(v) => strings_app(pre + "[".spec_bytes(), v@) + "]".spec_bytes(),
        None => pre + "null".spec_bytes(),
    }
}

/// `pre` extended with the presence object.
pub open spec fn presence_app(pre: Seq<u8>, p: GatewayPresenceUpdate) -> Seq<u8> {
    let x = pre + "{\"since\":".spec_bytes() + opt_u64_json(p.since)
        + ",\"activities\":".spec_bytes();
    let x = opt_acts_app(x, p.activities);
    x + ",\"status\":".spec_bytes() + json_string(p.status@) + ",\"afk\":".spec_bytes()
        + bool_bytes(p.afk) + "}".spec_bytes()
}

/// `pre` extended with the whole wire frame for `ev`.
pub open spec fn wire_app(pre: Seq<u8>, ev: GatewaySendEvent) -> Seq<u8> {
    match ev {
        GatewaySendEvent::Identify {
            token,
            properties,
            compress,
            large_threshold,
            shard,
            presence,
            guild_subscriptions,
            intents,
        } => {
            let x = pre + "{\"op\":2,\"d\":{\"token\":".spec_bytes() + json_string(token@)
                + ",\"properties\":{\"os\":".spec_bytes() + json_string(properties.os@)
                + ",\"browser\":".spec_bytes() + json_string(properties.browser@)
                + ",\"device\":".spec_bytes() + json_string(properties.device@)
                + "},\"compress\":".spec_bytes() + bool_bytes(
                match compress {
                    Some(c) => c,
                    None => false,
                },
            ) + ",\"large_threshold\":".spec_bytes() + dec_rep(
                (match large_threshold {
                    Some(n) => n,
                    None => 50u64,
                }) as nat,
            ) + ",\"shard\":".spec_bytes();
            let x = match shard {
                Some(sz) => pair_app(x, sz[0], sz[1]),
                None => x + "[0,1]".spec_bytes(),
            };
            let x = x + ",\"presence\":".spec_bytes();
            let x = match presence {
                Some(p) => presence_app(x, p),
                None => x + "null".spec_bytes(),
            };
            x + ",\"guild_subscriptions\":".spec_bytes() + opt_bool_json(guild_subscriptions)
                + ",\"intents\":".spec_bytes() + dec_rep(intents as nat) + "}}".spec_bytes()
        },
        GatewaySendEvent::Resume { token, session_id, seq } => pre
            + "{\"op\":6,\"d\":{\"token\":".spec_bytes() + json_string(token@)
            + ",\"session_id\":".spec_bytes() + json_string(session_id@)
            + ",\"seq\":".spec_bytes() + dec_rep(seq as nat) + "}}".spec_bytes(),
        GatewaySendEvent::Heartbeat { seq } => pre + "{\"op\":1,\"d\":".spec_bytes()
            + opt_u64_json(seq) + "}".spec_bytes(),
        GatewaySendEvent::RequestGuildMembers {
            guild_id,
            query,
            limit,
            presences,
            user_ids,
            nonce,
        } => {
            let x = pre + "{\"op\":8,\"d\":{\"guild_id\":".spec_bytes() + json_string(guild_id@)
                + ",\"query\":".spec_bytes() + opt_string_json(query) + ",\"limit\":".spec_bytes()
                + dec_rep(limit as nat) + ",\"presences\":".spec_bytes() + opt_bool_json(presences)
                + ",\"user_ids\":".spec_bytes();
            let x = opt_strings_app(x, user_ids);
            x + ",\"nonce\":".spec_bytes() + json_string(nonce@) + "}}".spec_bytes()
        },
        GatewaySendEvent::UpdateVoiceState { guild_id, channel_id, self_mute, self_deaf } => pre
            + "{\"op\":4,\"d\":{\"guild_id\":".spec_bytes() + json_string(guild_id@)
            + ",\"channel_id\":".spec_bytes() + opt_string_json(channel_id)
            + ",\"self_mute\":".spec_bytes() + bool_bytes(self_mute)
            + ",\"self_deaf\":".spec_bytes() + bool_bytes(self_deaf) + "}}".spec_bytes(),
        GatewaySendEvent::UpdatePresence { since, activities, status, afk } => {
            let x = pre + "{\"op\":3,\"d\":{\"since\":".spec_bytes() + opt_u64_json(since)
                + ",\"activities\":".spec_bytes();
            let x = opt_acts_app(x, activities);
            x + ",\"status\":".spec_bytes() + json_string(status@) + ",\"afk\":".spec_bytes()
                + bool_bytes(afk) + "}}".spec_bytes()
        },
    }
}

/// The exact wire bytes of one outbound frame.
pub open spec fn wire_of(ev: GatewaySendEvent) -> Seq<u8> {
    wire_app(Seq::empty(), ev)
}

fn push_timestamps(out: &mut Vec<u8>, t: &GatewayActivityTimestamps)
    ensures
        final(out)@ == timestamps_app(old(out)@, *t),
{
    push_lit(out, "{\"start\":");
    push_opt_u64(out, &t.start);
    push_lit(out, ",\"end\":");
    push_opt_u64(out, &t.end);
    push_lit(out, "}");
}

fn push_emoji(out: &mut Vec<u8>, e: &GatewayActivityEmoji)
    ensures
        final(out)@ == emoji_app(old(out)@, *e),
{
    push_lit(out, "{\"name\":");
    push_json_string(out, e.name.as_str());
    push_lit(out, ",\"id\":");
    push_opt_u64(out, &e.id);
    push_lit(out, ",\"animated\":");
    push_opt_bool(out, &e.animated);
    push_lit(out, "}");
}

fn push_pair(out: &mut Vec<u8>, a: u64, b: u64)
    ensures
        final(out)@ == pair_app(old(out)@, a, b),
{
    push_lit(out, "[");
    push_decimal_u64(out, a);
    push_lit(out, ",");
    push_decimal_u64(out, b);
    push_lit(out, "]");
}

fn push_party(out: &mut Vec<u8>, p: &GatewayActivityParty)
    ensures
        final(out)@ == party_app(old(out)@, *p),
{
    push_lit(out, "{\"id\":");
    push_opt_string(out, &p.id);
    push_lit(out, ",\"size\":");
    match &p.size {
        Some(sz) => push_pair(out, sz[0], sz[1]),
        None => push_lit(out, "null"),
    }
    push_lit(out, "}");
}

fn push_assets(out: &mut Vec<u8>, a: &GatewayActivityAssets)
    ensures
        final(out)@ == assets_app(old(out)@, *a),
{
    push_lit(out, "{\"large_image\":");
    push_opt_string(out, &a.large_image);
    push_lit(out, ",\"large_text\":");
    push_opt_string(out, &a.large_text);
    push_lit(out, ",\"small_image\":");
    push_opt_string(out, &a.small_image);
    push_lit(out, ",\"small_text\":");
    push_opt_string(out, &a.small_text);
    push_lit(out, "}");
}

fn push_secrets(out: &mut Vec<u8>, s: &GatewayActivitySecrets)
    ensures
        final(out)@ == secrets_app(old(out)@, *s),
{
    push_lit(out, "{\"join\":");
    push_opt_string(out, &s.join);
    push_lit(out, ",\"spectate\":");
    push_opt_string(out, &s.spectate);
    push_lit(out, ",\"match_\":");
    push_opt_string(out, &s.match_);
    push_lit(out, "}");
}

fn push_activity(out: &mut Vec<u8>, a: &GatewayActivity)
    ensures
        final(out)@ == activity_app(old(out)@, *a),
{
    push_lit(out, "{\"name\":");
    push_json_string(out, a.name.as_str());
    push_lit(out, ",\"type\":");
    push_decimal_u64(out, a.activity_type as u64);
    push_lit(out, ",\"url\":");
    push_opt_string(out, &a.url);
    push_lit(out, ",\"created_at\":");
    push_decimal_u64(out, a.created_at);
    push_lit(out, ",\"timestamps\":");
    match &a.timestamps {
        Some(t) => push_timestamps(out, t),
        None => push_lit(out, "null"),
    }
    push_lit(out, ",\"application_id\":");
    push_opt_u64(out, &a.application_id);
    push_lit(out, ",\"details\":");
    push_opt_string(out, &a.details);
    push_lit(out, ",\"state\":");
    push_opt_string(out, &a.state);
    push_lit(out, ",\"emoji\":");
    match &a.emoji {
        Some(e) => push_emoji(out, e),
        None => push_lit(out, "null"),
    }
    push_lit(out, ",\"party\":");
    match &a.party {
        Some(p) => push_party(out, p),
        None => push_lit(out, "null"),
    }
    push_lit(out, ",\"assets\":");
    match &a.assets {
        Some(v) => push_assets(out, v),
        None => push_lit(out, "null"),
    }
    push_lit(out, ",\"secrets\":");
    match &a.secrets {
        Some(v) => push_secrets(out, v),
        None => push_lit(out, "null"),
    }
    push_lit(out, ",\"instance\":");
    push_opt_bool(out, &a.instance);
    push_lit(out, ",\"flags\":");
    push_opt_u64(out, &a.flags);
    push_lit(out, "}");
}

fn push_opt_acts(out: &mut Vec<u8>, o: &Option<Vec<GatewayActivity>>)
    ensures
        final(out)@ == opt_acts_app(old(out)@, *o),
{
    match o {
        None => push_lit(out, "null"),
        Some(v) => {
            push_lit(out, "[");
            let ghost pre = out@;
            let n = v.len();
            let mut i: usize = 0;
            while i < n
                invariant
                    n == v@.len(),
                    i <= n,
                    out@ == acts_app(pre, v@.take(i as int)),
                decreases n - i,
            {
                if i > 0 {
                    push_lit(out, ",");
                }
                push_activity(out, &v[i]);
                proof {
                    assert(v@.take(i as int + 1).drop_last() =~= v@.take(i as int));
                    assert(v@.take(i as int + 1).last() == v@[i as int]);
                }
                i += 1;
            }
            proof {
                assert(v@.take(n as int) =~= v@);
            }
            push_lit(out, "]");
        },
    }
}

fn push_opt_strings(out: &mut Vec<u8>, o: &Option<Vec<String>>)
    ensures
        final(out)@ == opt_strings_app(old(out)@, *o),
{
    match o {
        None => push_lit(out, "null"),
        Some(v) => {
            push_lit(out, "[");
            let ghost pre = out@;
            let n = v.len();
            let mut i: usize = 0;
            while i < n
                invariant
                    n == v@.len(),
                    i <= n,
                    out@ == strings_app(pre, v@.take(i as int)),
                decreases n - i,
            {
                if i > 0 {
                    push_lit(out, ",");
                }
                push_json_string(out, v[i].as_str());
                proof {
                    assert(v@.take(i as int + 1).drop_last() =~= v@.take(i as int));
                    assert(v@.take(i as int + 1).last() == v@[i as int]);
                }
                i += 1;
            }
            proof {
                assert(v@.take(n as int) =~= v@);
            }
            push_lit(out, "]");
        },
    }
}

fn push_presence(out: &mut Vec<u8>, p: &GatewayPresenceUpdate)
    ensures
        final(out)@ == presence_app(old(out)@, *p),
{
    push_lit(out, "{\"since\":");
    push_opt_u64(out, &p.since);
    push_lit(out, ",\"activities\":");
    push_opt_acts(out, &p.activities);
    push_lit(out, ",\"status\":");
    push_json_string(out, p.status.as_str());
    push_lit(out, ",\"afk\":");
    push_bool(out, p.afk);
    push_lit(out, "}");
}

impl GatewaySendEvent {
    /// Encodes this frame to its wire bytes, exactly [`wire_of`].
    pub fn to_json_bytes(&self) -> (r: Vec<u8>)
        ensures
            r@ == wire_of(*self),
    {
        let mut out: Vec<u8> = Vec::new();
        match self {
            GatewaySendEvent::Identify {
                token,
                properties,
                compress,
                large_threshold,
                shard,
                presence,
                guild_subscriptions,
                intents,
            } => {
                push_lit(&mut out, "{\"op\":2,\"d\":{\"token\":");
                push_json_string(&mut out, token.as_str());
                push_lit(&mut out, ",\"properties\":{\"os\":");
                push_json_string(&mut out, properties.os.as_str());
                push_lit(&mut out, ",\"browser\":");
                push_json_string(&mut out, properties.browser.as_str());
                push_lit(&mut out, ",\"device\":");
                push_json_string(&mut out, properties.device.as_str());
                push_lit(&mut out, "},\"compress\":");
                push_bool(&mut out, match compress {
                    Some(c) => *c,
                    None => false,
                });
                push_lit(&mut out, ",\"large_threshold\":");
                push_decimal_u64(&mut out, match large_threshold {
                    Some(n) => *n,
                    None => 50,
                });
                push_lit(&mut out, ",\"shard\":");
                match shard {
                    Some(sz) => push_pair(&mut out, sz[0], sz[1]),
                    None => push_lit(&mut out, "[0,1]"),
                }
                push_lit(&mut out, ",\"presence\":");
                match presence {
                    Some(p) => push_presence(&mut out, p),
                    None => push_lit(&mut out, "null"),
                }
                push_lit(&mut out, ",\"guild_subscriptions\":");
                push_opt_bool(&mut out, guild_subscriptions);
                push_lit(&mut out, ",\"intents\":");
                push_decimal_u128(&mut out, *intents);
                push_lit(&mut out, "}}");
            },
            GatewaySendEvent::Resume { token, session_id, seq } => {
                push_lit(&mut out, "{\"op\":6,\"d\":{\"token\":");
                push_json_string(&mut out, token.as_str());
                push_lit(&mut out, ",\"session_id\":");
                push_json_string(&mut out, session_id.as_str());
                push_lit(&mut out, ",\"seq\":");
                push_decimal_u64(&mut out, *seq);
                push_lit(&mut out, "}}");
            },
            GatewaySendEvent::Heartbeat { seq } => {
                push_lit(&mut out, "{\"op\":1,\"d\":");
                push_opt_u64(&mut out, seq);
                push_lit(&mut out, "}");
            },
            GatewaySendEvent::RequestGuildMembers {
                guild_id,
                query,
                limit,
                presences,
                user_ids,
                nonce,
            } => {
                push_lit(&mut out, "{\"op\":8,\"d\":{\"guild_id\":");
                push_json_string(&mut out, guild_id.as_str());
                push_lit(&mut out, ",\"query\":");
                push_opt_string(&mut out, query);
                push_lit(&mut out, ",\"limit\":");
                push_decimal_u64(&mut out, *limit);
                push_lit(&mut out, ",\"presences\":");
                push_opt_bool(&mut out, presences);
                push_lit(&mut out, ",\"user_ids\":");
                push_opt_strings(&mut out, user_ids);
                push_lit(&mut out, ",\"nonce\":");
                push_json_string(&mut out, nonce.as_str());
                push_lit(&mut out, "}}");
            },
            GatewaySendEvent::UpdateVoiceState { guild_id, channel_id, self_mute, self_deaf } => {
                push_lit(&mut out, "{\"op\":4,\"d\":{\"guild_id\":");
                push_json_string(&mut out, guild_id.as_str());
                push_lit(&mut out, ",\"channel_id\":");
                push_opt_string(&mut out, channel_id);
                push_lit(&mut out, ",\"self_mute\":");
                push_bool(&mut out, *self_mute);
                push_lit(&mut out, ",\"self_deaf\":");
                push_bool(&mut out, *self_deaf);
                push_lit(&mut out, "}}");
            },
            GatewaySendEvent::UpdatePresence { since, activities, status, afk } => {
                push_lit(&mut out, "{\"op\":3,\"d\":{\"since\":");
                push_opt_u64(&mut out, since);
                push_lit(&mut out, ",\"activities\":");
                push_opt_acts(&mut out, activities);
                push_lit(&mut out, ",\"status\":");
                push_json_string(&mut out, status.as_str());
                push_lit(&mut out, ",\"afk\":");
                push_bool(&mut out, *afk);
                push_lit(&mut out, "}}");
            },
        }
        out
    }
}

} // verus!
