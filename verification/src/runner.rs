//! The runner control loop's decision core.
//!
//! Every inbound item — a caller's control request, a transport event, or a
//! heartbeat wake-up — is dispatched to exactly one handler, which updates
//! the registry and returns the outward actions to perform (open or close a
//! transport channel, send a frame, set a timer, reply to or notify a
//! caller, issue an HTTP call).  The host performs the actions and feeds the
//! results back in as further inbound items; nothing here blocks, and no
//! inbound item is ever fatal.
//!
//! Each handler's effect is a named predicate (`connect_post` and friends),
//! so [`Runner::handle_input`] can promise, case by case, exactly what the
//! handler it routes to promises.

use vstd::prelude::*;

use crate::ascii::dec_rep;
use crate::gateway::{
    parse_gateway_payload, spec_decode, spec_seq_after_decode, GatewayReceiveEvent,
};
use crate::json_text::{bool_bytes, json_string, opt_bool_json};
use crate::registry::{identity_of, Registry};
use crate::send::{GatewayIdentifyProperties, GatewaySendEvent};
use crate::session::{
    spec_actions_for, spec_session_after, wake_actions, Phase, Session, SessionAction,
};
use crate::BotId;
use vstd::string::StringExecFns;
use vstd::string::StringSliceAdditionalSpecFns;

verus! {

/// A control request from a caller.
pub enum DiscordApiRequest {
    /// Register a session for this identity; the request's source becomes
    /// the owning caller.
    Connect(BotId),
    /// Tear the identity's session down and close its channel.
    Disconnect(BotId),
    /// Send one gateway frame on the identity's channel.
    Gateway { bot: BotId, event: GatewaySendEvent },
    /// Issue an HTTP call with the identity's credential; the call
    /// descriptor passes through opaquely and the response goes back to the
    /// request's source.
    Http { bot: BotId, call: Vec<u8> },
}

/// One inbound item for the control loop.
pub enum RunnerInput {
    /// A control request, with the address it came from.
    Request { source: String, request: DiscordApiRequest },
    /// The transport delivered a frame on a channel.
    FrameReceived { channel: u32, bytes: Vec<u8> },
    /// The transport reports a channel closed.
    ChannelClosed { channel: u32 },
    /// A deferred heartbeat wake-up fired, carrying the identity it was
    /// scheduled for.
    HeartbeatWake { bot: BotId },
    /// The transport confirmed a channel opened.
    ChannelOpened { channel: u32 },
}

/// One outward action for the host to perform.
pub enum RunnerAction {
    /// Open a duplex transport connection on this channel.
    OpenTransport { channel: u32 },
    /// Close this channel's transport connection.
    CloseTransport { channel: u32 },
    /// Send one frame on this channel.
    SendFrame { channel: u32, bytes: Vec<u8> },
    /// Arrange for a heartbeat wake-up for `bot` after `delay_ms`.
    SetTimer { delay_ms: u64, bot: BotId },
    /// Acknowledge a control request to its sender.
    Reply { target: String },
    /// Forward an event to the caller owning a session.
    ForwardEvent { target: String, event: GatewayReceiveEvent },
    /// Issue an HTTP call; the response is routed back to `target`.
    HttpCall { target: String, headers: Vec<(String, String)>, call: Vec<u8> },
}

/// The wire bytes of the identify frame the runner sends for a session:
/// fixed client metadata, no compression, default threshold and shard, no
/// presence, the session's credential and permission mask.
pub open spec fn identify_bytes(token: Seq<char>, intents: u128) -> Seq<u8> {
    Seq::<u8>::empty() + "{\"op\":2,\"d\":{\"token\":".spec_bytes() + json_string(token)
        + ",\"properties\":{\"os\":".spec_bytes() + json_string("nectar"@)
        + ",\"browser\":".spec_bytes() + json_string("nectar"@) + ",\"device\":".spec_bytes()
        + json_string("nectar"@) + "},\"compress\":".spec_bytes() + bool_bytes(false)
        + ",\"large_threshold\":".spec_bytes() + dec_rep(50) + ",\"shard\":".spec_bytes()
        + "[0,1]".spec_bytes() + ",\"presence\":".spec_bytes() + "null".spec_bytes()
        + ",\"guild_subscriptions\":".spec_bytes() + opt_bool_json(None)
        + ",\"intents\":".spec_bytes() + dec_rep(intents as nat) + "}}".spec_bytes()
}

/// How one state-machine instruction for session `s` reads as an outward
/// action: frames go out on the session's channel, built from the session's
/// stored fields; the timer context and the forward target are the
/// session's identity and owner.
pub open spec fn runner_action_for(s: Session, a: SessionAction, ra: RunnerAction) -> bool {
    match a {
        SessionAction::ScheduleHeartbeat(d) => ra == (RunnerAction::SetTimer {
            delay_ms: d,
            bot: BotId { token: s.token, intents: s.intents },
        }),
        SessionAction::SendHeartbeat(sq) => ra matches RunnerAction::SendFrame { channel, bytes }
            && channel == s.channel_id && bytes@ == crate::send::wire_of(
            GatewaySendEvent::Heartbeat { seq: sq },
        ),
        SessionAction::SendIdentify => ra matches RunnerAction::SendFrame { channel, bytes }
            && channel == s.channel_id && bytes@ == identify_bytes(s.token@, s.intents),
        SessionAction::SendResume => ra matches RunnerAction::SendFrame { channel, bytes }
            && channel == s.channel_id && bytes@ == crate::send::wire_of(
            GatewaySendEvent::Resume {
                token: s.token,
                session_id: s.session_id,
                seq: s.last_seq,
            },
        ),
        SessionAction::Forward(ev) => ra == (RunnerAction::ForwardEvent {
            target: s.parent,
            event: ev,
        }),
    }
}

/// What a Connect does: a session for `bot` owned by `source` is registered
/// exactly as [`Registry::insert`] states — fresh channel, phase
/// Connecting, negotiated state zeroed, a previous session for the same
/// identity replaced and its channel entry retired — and the host is asked
/// to open the new channel and acknowledge the request, in that order.
pub open spec fn connect_post(
    pre: Runner,
    post: Runner,
    source: String,
    bot: crate::BotIdView,
    r: Seq<RunnerAction>,
) -> bool {
    &&& post.wf()
    &&& post.registry.next_channel == pre.registry.next_channel + 1
    &&& (post.registry.spec_lookup_identity(bot) matches Some(s) && s.parent == source
        && s.token@ == bot.token && s.intents == bot.intents && s.phase == Phase::Connecting
        && s.heartbeat_interval == 0 && s.last_seq == 0 && s.session_id@ == Seq::<char>::empty()
        && s.channel_id == pre.registry.next_channel)
    &&& post.registry.spec_lookup_channel(pre.registry.next_channel)
        == post.registry.spec_lookup_identity(bot)
    &&& (forall|k: crate::BotIdView|
        k != bot ==> post.registry.spec_lookup_identity(k) == pre.registry.spec_lookup_identity(
            k,
        ))
    &&& (forall|ch: u32|
        ch != pre.registry.next_channel ==> post.registry.spec_lookup_channel(ch) == (
        match pre.registry.spec_lookup_channel(ch) {
            Some(s) => if identity_of(s) == bot {
                None::<Session>
            } else {
                Some(s)
            },
            None => None,
        }))
    &&& r == seq![
        RunnerAction::OpenTransport { channel: pre.registry.next_channel },
        RunnerAction::Reply { target: source },
    ]
}

/// What a Disconnect does: both registry entries for `bot` are gone, as
/// [`Registry::remove`] states, nothing else moved, and the host is asked
/// to close the session's channel when one was registered.
pub open spec fn disconnect_post(
    pre: Runner,
    post: Runner,
    bot: crate::BotIdView,
    r: Seq<RunnerAction>,
) -> bool {
    &&& post.wf()
    &&& post.registry.next_channel == pre.registry.next_channel
    &&& post.registry.spec_lookup_identity(bot) is None
    &&& (forall|k: crate::BotIdView|
        k != bot ==> post.registry.spec_lookup_identity(k) == pre.registry.spec_lookup_identity(
            k,
        ))
    &&& (forall|ch: u32|
        post.registry.spec_lookup_channel(ch) == (match pre.registry.spec_lookup_channel(ch) {
            Some(s) => if identity_of(s) == bot {
                None::<Session>
            } else {
                Some(s)
            },
            None => None,
        }))
    &&& r == (match pre.registry.spec_lookup_identity(bot) {
        Some(s) => seq![RunnerAction::CloseTransport { channel: s.channel_id }],
        None => Seq::<RunnerAction>::empty(),
    })
}

/// What a pass-through HTTP call does: for a registered identity, one HTTP
/// action carrying the opaque call descriptor, the session's credential as
/// a bearer-style authorization header and the two fixed identification
/// headers, with the response targeted back at the request's source; for an
/// unknown identity, nothing.
pub open spec fn http_post(
    runner: Runner,
    source: String,
    bot: crate::BotIdView,
    call: Vec<u8>,
    r: Seq<RunnerAction>,
) -> bool {
    &&& (runner.spec_lookup(bot) is None ==> r.len() == 0)
    &&& (runner.spec_lookup(bot) matches Some(s) ==> r.len() == 1 && (r[0] matches
        RunnerAction::HttpCall { target, headers, call: c } && target == source && c == call
        && headers@.len() == 3 && headers@[0].0@ == "Authorization"@ && headers@[0].1@ == "Bot "@
        + s.token@ && headers@[1].0@ == "User-Agent"@ && headers@[1].1@
        == "DiscordBot (discord_api, 1.0)"@ && headers@[2].0@ == "Content-Type"@
        && headers@[2].1@ == "application/json"@))
}

/// What a caller-driven gateway frame does: for a registered identity, the
/// encoded frame goes out on the session's channel; for an unknown
/// identity, nothing.
pub open spec fn gateway_send_post(
    runner: Runner,
    bot: crate::BotIdView,
    event: GatewaySendEvent,
    r: Seq<RunnerAction>,
) -> bool {
    &&& (runner.spec_lookup(bot) is None ==> r.len() == 0)
    &&& (runner.spec_lookup(bot) matches Some(s) ==> r.len() == 1 && (r[0] matches
        RunnerAction::SendFrame { channel, bytes } && channel == s.channel_id && bytes@
        == crate::send::wire_of(event)))
}

/// What a heartbeat wake-up does: for a live registered session, exactly
/// the instructions of [`wake_actions`], read as outward actions; for a
/// removed or disconnected session, nothing — the chain ends.
pub open spec fn wake_post(
    runner: Runner,
    bot: crate::BotIdView,
    r: Seq<RunnerAction>,
) -> bool {
    &&& (runner.spec_lookup(bot) is None ==> r.len() == 0)
    &&& (runner.spec_lookup(bot) matches Some(s) ==> r.len() == wake_actions(s).len() && (forall|
        i: int,
    |
        0 <= i < wake_actions(s).len() ==> runner_action_for(s, wake_actions(s)[i], r[i])))
}

/// What the transport's channel-opened confirmation does: the channel's
/// session, if any, takes the [`crate::session::spec_open_transition`]
/// step; everything else is untouched.
pub open spec fn channel_opened_post(pre: Runner, post: Runner, channel: u32) -> bool {
    &&& post.wf()
    &&& post.registry.next_channel == pre.registry.next_channel
    &&& post.registry.sessions@.len() == pre.registry.sessions@.len()
    &&& (pre.registry.spec_lookup_channel(channel) is None ==> post == pre)
    &&& (pre.registry.spec_lookup_channel(channel) matches Some(s0) ==> {
        &&& post.registry.spec_lookup_channel(channel) == Some(
            crate::session::spec_open_transition(s0),
        )
        &&& post.registry.spec_lookup_identity(identity_of(s0))
            == post.registry.spec_lookup_channel(channel)
        &&& (forall|k: crate::BotIdView|
            k != identity_of(s0) ==> post.registry.spec_lookup_identity(k)
                == pre.registry.spec_lookup_identity(k))
        &&& (forall|ch: u32|
            ch != channel ==> post.registry.spec_lookup_channel(ch)
                == pre.registry.spec_lookup_channel(ch))
    })
}

/// What the transport's channel-closed report does: the channel's session,
/// if any, becomes Disconnected with interval, counter and token cleared,
/// its identity and channel intact; everything else is untouched, and no
/// reconnection is initiated.
pub open spec fn channel_closed_post(pre: Runner, post: Runner, channel: u32) -> bool {
    &&& post.wf()
    &&& post.registry.next_channel == pre.registry.next_channel
    &&& post.registry.sessions@.len() == pre.registry.sessions@.len()
    &&& (pre.registry.spec_lookup_channel(channel) is None ==> post == pre)
    &&& (pre.registry.spec_lookup_channel(channel) matches Some(s0) ==> {
        &&& (post.registry.spec_lookup_channel(channel) matches Some(s1) && s1.phase
            == Phase::Disconnected && s1.heartbeat_interval == 0 && s1.last_seq == 0
            && s1.session_id@ == Seq::<char>::empty() && s1.parent == s0.parent && s1.token
            == s0.token && s1.intents == s0.intents && s1.channel_id == s0.channel_id)
        &&& post.registry.spec_lookup_identity(identity_of(s0))
            == post.registry.spec_lookup_channel(channel)
        &&& (forall|k: crate::BotIdView|
            k != identity_of(s0) ==> post.registry.spec_lookup_identity(k)
                == pre.registry.spec_lookup_identity(k))
        &&& (forall|ch: u32|
            ch != channel ==> post.registry.spec_lookup_channel(ch)
                == pre.registry.spec_lookup_channel(ch))
    })
}

/// What one inbound frame does to the channel's session and what comes
/// back: the counter moves by [`spec_seq_after_decode`]; when the frame
/// decodes ([`spec_decode`]), the session takes the
/// [`spec_session_after`] step for the decoded event and the actions are
/// exactly the [`spec_actions_for`] instructions read as outward actions;
/// when it is rejected, nothing is emitted and only the counter moved.
/// `ev` ranges over events whose mathematical value is the decoded one.
pub open spec fn frame_step_post(
    pre: Runner,
    post: Runner,
    channel: u32,
    bytes: Seq<u8>,
    r: Seq<RunnerAction>,
    s0: Session,
) -> bool {
    let s1 = (Session { last_seq: spec_seq_after_decode(bytes, s0.last_seq), ..s0 });
    &&& (forall|k: crate::BotIdView|
        k != identity_of(s0) ==> post.registry.spec_lookup_identity(k)
            == pre.registry.spec_lookup_identity(k))
    &&& (forall|ch: u32|
        ch != channel ==> post.registry.spec_lookup_channel(ch)
            == pre.registry.spec_lookup_channel(ch))
    &&& post.registry.spec_lookup_identity(identity_of(s0)) == post.registry.spec_lookup_channel(
        channel,
    )
    &&& match spec_decode(bytes) {
        Err(_) => post.registry.spec_lookup_channel(channel) == Some(s1) && r.len() == 0,
        Ok(evv) => exists|ev: GatewayReceiveEvent|
            #![auto]
            {
                &&& ev@ == evv
                &&& post.registry.spec_lookup_channel(channel) == Some(spec_session_after(s1, ev))
                &&& r.len() == spec_actions_for(s1, ev).len()
                &&& (forall|i: int|
                    0 <= i < r.len() ==> runner_action_for(
                        spec_session_after(s1, ev),
                        spec_actions_for(s1, ev)[i],
                        r[i],
                    ))
            },
    }
}

/// What a delivered frame does: a frame on an unregistered channel is
/// dropped without any change; a frame on a registered channel acts as
/// [`frame_step_post`] says.
pub open spec fn frame_post(
    pre: Runner,
    post: Runner,
    channel: u32,
    bytes: Seq<u8>,
    r: Seq<RunnerAction>,
) -> bool {
    &&& post.wf()
    &&& post.registry.next_channel == pre.registry.next_channel
    &&& post.registry.sessions@.len() == pre.registry.sessions@.len()
    &&& (pre.registry.spec_lookup_channel(channel) is None ==> post == pre && r.len() == 0)
    &&& (pre.registry.spec_lookup_channel(channel) matches Some(s0) ==> frame_step_post(
        pre,
        post,
        channel,
        bytes,
        r,
        s0,
    ))
}

/// Translates the state machine's instructions for `s` into outward
/// actions, one for one, as [`runner_action_for`] states.
fn session_actions_to_runner(s: &Session, acts: Vec<SessionAction>) -> (r: Vec<RunnerAction>)
    ensures
        r@.len() == acts@.len(),
        forall|i: int| 0 <= i < acts@.len() ==> runner_action_for(*s, acts@[i], #[trigger] r@[i]),
{
    let ghost all = acts@;
    let mut acts = acts;
    let n_total: usize = acts.len();
    let mut r: Vec<RunnerAction> = Vec::new();
    let mut j: usize = 0;
    while acts.len() > 0
        invariant
            n_total == all.len(),
            j + acts@.len() == all.len(),
            acts@ == all.skip(j as int),
            r@.len() == j,
            forall|i: int| 0 <= i < j ==> runner_action_for(*s, all[i], #[trigger] r@[i]),
        decreases acts@.len(),
    {
        let a = acts.remove(0);
        proof {
            assert(all.skip(j as int)[0] == all[j as int]);
            assert(all.skip(j as int).remove(0) =~= all.skip(j as int + 1));
        }
        let ra = match a {
            SessionAction::ScheduleHeartbeat(d) => RunnerAction::SetTimer {
                delay_ms: d,
                bot: BotId { token: s.token.clone(), intents: s.intents },
            },
            SessionAction::SendHeartbeat(sq) => {
                let frame = GatewaySendEvent::Heartbeat { seq: sq };
                RunnerAction::SendFrame { channel: s.channel_id, bytes: frame.to_json_bytes() }
            },
            SessionAction::SendIdentify => {
                let frame = GatewaySendEvent::Identify {
                    token: s.token.clone(),
                    properties: GatewayIdentifyProperties {
                        os: "nectar".to_owned(),
                        browser: "nectar".to_owned(),
                        device: "nectar".to_owned(),
                    },
                    compress: None,
                    large_threshold: None,
                    shard: None,
                    presence: None,
                    guild_subscriptions: None,
                    intents: s.intents,
                };
                RunnerAction::SendFrame { channel: s.channel_id, bytes: frame.to_json_bytes() }
            },
            SessionAction::SendResume => {
                let frame = GatewaySendEvent::Resume {
                    token: s.token.clone(),
                    session_id: s.session_id.clone(),
                    seq: s.last_seq,
                };
                RunnerAction::SendFrame { channel: s.channel_id, bytes: frame.to_json_bytes() }
            },
            SessionAction::Forward(ev) => RunnerAction::ForwardEvent {
                target: s.parent.clone(),
                event: ev,
            },
        };
        r.push(ra);
        j += 1;
    }
    proof {
        assert(all.skip(all.len() as int) =~= Seq::<SessionAction>::empty());
    }
    r
}

/// The three fixed headers of an outbound HTTP call: the bearer-style
/// credential and two identification headers.
fn auth_headers(token: &String) -> (r: Vec<(String, String)>)
    ensures
        r@.len() == 3,
        r@[0].0@ == "Authorization"@,
        r@[0].1@ == "Bot "@ + token@,
        r@[1].0@ == "User-Agent"@,
        r@[1].1@ == "DiscordBot (discord_api, 1.0)"@,
        r@[2].0@ == "Content-Type"@,
        r@[2].1@ == "application/json"@,
{
    let mut r: Vec<(String, String)> = Vec::new();
    let auth = "Bot ".to_owned().concat(token.as_str());
    r.push(("Authorization".to_owned(), auth));
    r.push(("User-Agent".to_owned(), "DiscordBot (discord_api, 1.0)".to_owned()));
    r.push(("Content-Type".to_owned(), "application/json".to_owned()));
    r
}

/// The runner: the one owned registry, threaded through every handler.
pub struct Runner {
    pub registry: Registry,
}

impl Runner {
    /// Well-formedness of the whole runner state.
    pub open spec fn wf(self) -> bool {
        self.registry.wf()
    }

    /// Shorthand for the registry's identity mapping.
    pub open spec fn spec_lookup(self, k: crate::BotIdView) -> Option<Session> {
        self.registry.spec_lookup_identity(k)
    }

    /// A fresh runner with no sessions, handing out channels from
    /// `first_channel`.
    pub fn new(first_channel: u32) -> (r: Runner)
        ensures
            r.wf(),
            r.registry.sessions@.len() == 0,
            r.registry.next_channel == first_channel,
    {
        Runner { registry: Registry::new(first_channel) }
    }

    /// Rebuilds a runner from previously persisted session records, exactly
    /// as [`Registry::restore`] states; inconsistent records restore
    /// nothing.
    pub fn restore(sessions: Vec<Session>) -> (r: Option<Runner>)
        ensures
            r is Some <==> crate::registry::restorable(sessions@),
            r matches Some(rn) ==> rn.wf() && rn.registry.sessions@ == sessions@,
    {
        match Registry::restore(sessions) {
            Some(registry) => Some(Runner { registry }),
            None => None,
        }
    }

    /// Connect: acts exactly as [`connect_post`] states.
    pub fn handle_connect(&mut self, source: String, bot: &BotId) -> (r: Vec<RunnerAction>)
        requires
            old(self).wf(),
            old(self).registry.next_channel < u32::MAX,
        ensures
            connect_post(*old(self), *final(self), source, bot@, r@),
    {
        let ch = self.registry.insert(bot, source.clone());
        let mut r: Vec<RunnerAction> = Vec::new();
        r.push(RunnerAction::OpenTransport { channel: ch });
        r.push(RunnerAction::Reply { target: source });
        proof {
            assert(r@ =~= seq![
                RunnerAction::OpenTransport { channel: old(self).registry.next_channel },
                RunnerAction::Reply { target: source },
            ]);
        }
        r
    }

    /// Disconnect: acts exactly as [`disconnect_post`] states.
    pub fn handle_disconnect(&mut self, bot: &BotId) -> (r: Vec<RunnerAction>)
        requires
            old(self).wf(),
        ensures
            disconnect_post(*old(self), *final(self), bot@, r@),
    {
        let mut r: Vec<RunnerAction> = Vec::new();
        match self.registry.find_identity(bot) {
            Some(i) => {
                let ch = self.registry.sessions[i].channel_id;
                r.push(RunnerAction::CloseTransport { channel: ch });
                proof {
                    assert(r@ =~= seq![RunnerAction::CloseTransport { channel: ch }]);
                }
            },
            None => {},
        }
        self.registry.remove(bot);
        r
    }

    /// Pass-through HTTP call: acts exactly as [`http_post`] states; the
    /// registry does not change.
    pub fn handle_http(&self, source: String, bot: &BotId, call: Vec<u8>) -> (r: Vec<RunnerAction>)
        ensures
            http_post(*self, source, bot@, call, r@),
    {
        let mut r: Vec<RunnerAction> = Vec::new();
        match self.registry.lookup_by_identity(bot) {
            Some(s) => {
                let headers = auth_headers(&s.token);
                r.push(RunnerAction::HttpCall { target: source, headers, call });
            },
            None => {},
        }
        r
    }

    /// Caller-driven gateway frame: acts exactly as [`gateway_send_post`]
    /// states; the registry does not change.
    pub fn handle_gateway_send(&self, bot: &BotId, event: GatewaySendEvent) -> (r: Vec<
        RunnerAction,
    >)
        ensures
            gateway_send_post(*self, bot@, event, r@),
    {
        let mut r: Vec<RunnerAction> = Vec::new();
        match self.registry.lookup_by_identity(bot) {
            Some(s) => {
                let bytes = event.to_json_bytes();
                r.push(RunnerAction::SendFrame { channel: s.channel_id, bytes });
            },
            None => {},
        }
        r
    }

    /// The transport confirmed a channel opened: acts exactly as
    /// [`channel_opened_post`] states.
    pub fn handle_channel_opened(&mut self, channel: u32)
        requires
            old(self).wf(),
        ensures
            channel_opened_post(*old(self), *final(self), channel),
    {
        let idx = match self.registry.find_channel(channel) {
            Some(i) => i,
            None => {
                return ;
            },
        };
        let ghost oldss = self.registry.sessions@;
        let s = &mut self.registry.sessions[idx];
        s.on_transport_open();
        proof {
            self.lemma_after_session_update(*old(self), oldss, idx as int);
        }
    }

    /// The transport reports a channel closed: acts exactly as
    /// [`channel_closed_post`] states.
    pub fn handle_channel_closed(&mut self, channel: u32)
        requires
            old(self).wf(),
        ensures
            channel_closed_post(*old(self), *final(self), channel),
    {
        let idx = match self.registry.find_channel(channel) {
            Some(i) => i,
            None => {
                return ;
            },
        };
        let ghost oldss = self.registry.sessions@;
        let s = &mut self.registry.sessions[idx];
        s.on_transport_closed();
        proof {
            self.lemma_after_session_update(*old(self), oldss, idx as int);
        }
    }

    /// The well-formedness and lookup bookkeeping common to every handler
    /// that steps one session in place: when the session at `idx` kept its
    /// identity and channel, the registry is still well formed, that
    /// channel and identity now answer with the new session, and every
    /// other entry is untouched.
    proof fn lemma_after_session_update(self, pre: Runner, oldss: Seq<Session>, idx: int)
        requires
            pre.wf(),
            pre.registry.sessions@ == oldss,
            self.registry.next_channel == pre.registry.next_channel,
            0 <= idx < oldss.len(),
            self.registry.sessions@ == oldss.update(
                idx,
                self.registry.sessions@[idx],
            ),
            identity_of(self.registry.sessions@[idx]) == identity_of(oldss[idx]),
            self.registry.sessions@[idx].channel_id == oldss[idx].channel_id,
        ensures
            self.wf(),
            self.registry.sessions@.len() == oldss.len(),
            self.registry.spec_lookup_channel(oldss[idx].channel_id) == Some(
                self.registry.sessions@[idx],
            ),
            self.registry.spec_lookup_identity(identity_of(oldss[idx])) == Some(
                self.registry.sessions@[idx],
            ),
            forall|k: crate::BotIdView|
                k != identity_of(oldss[idx]) ==> self.registry.spec_lookup_identity(k)
                    == pre.registry.spec_lookup_identity(k),
            forall|ch: u32|
                ch != oldss[idx].channel_id ==> self.registry.spec_lookup_channel(ch)
                    == pre.registry.spec_lookup_channel(ch),
    {
        let newss = self.registry.sessions@;
        let s2 = newss[idx];
        crate::registry::lemma_lookup_after_update(oldss, idx, s2);
        assert forall|a: int, b: int|
            0 <= a < b < newss.len() implies identity_of(newss[a]) != identity_of(newss[b]) by {
            assert(newss[a] == if a == idx {
                s2
            } else {
                oldss[a]
            });
            assert(newss[b] == if b == idx {
                s2
            } else {
                oldss[b]
            });
        }
        assert forall|a: int, b: int|
            0 <= a < b < newss.len() implies newss[a].channel_id != newss[b].channel_id by {
            assert(newss[a] == if a == idx {
                s2
            } else {
                oldss[a]
            });
            assert(newss[b] == if b == idx {
                s2
            } else {
                oldss[b]
            });
        }
        assert forall|j: int|
            0 <= j < newss.len() implies newss[j].channel_id < self.registry.next_channel by {
            assert(newss[j] == if j == idx {
                s2
            } else {
                oldss[j]
            });
        }
    }

    /// A frame arrived on a channel: acts exactly as [`frame_post`] states
    /// — the channel's session advances its counter, steps the state
    /// machine by the decoded event, and the resulting instructions come
    /// back as outward actions; rejected frames and unknown channels
    /// produce nothing.
    pub fn handle_frame(&mut self, channel: u32, bytes: &[u8]) -> (r: Vec<RunnerAction>)
        requires
            old(self).wf(),
        ensures
            frame_post(*old(self), *final(self), channel, bytes@, r@),
    {
        let idx = match self.registry.find_channel(channel) {
            Some(i) => i,
            None => {
                return Vec::new();
            },
        };
        let ghost oldss = self.registry.sessions@;
        let ghost s0 = oldss[idx as int];
        let s = &mut self.registry.sessions[idx];
        let parsed = parse_gateway_payload(bytes, &mut s.last_seq);
        let ghost s1 = *s;
        proof {
            assert(s1 == (Session {
                last_seq: spec_seq_after_decode(bytes@, s0.last_seq),
                ..s0
            }));
        }
        let r = match parsed {
            Ok(ev) => {
                let ghost ev0 = ev;
                let acts = s.handle_gateway_event(ev);
                proof {
                    assert(*s == spec_session_after(s1, ev0));
                }
                session_actions_to_runner(s, acts)
            },
            Err(_) => Vec::new(),
        };
        proof {
            let newss = self.registry.sessions@;
            let s2 = newss[idx as int];
            if parsed is Ok {
                crate::session::lemma_negotiated_state_changes(s1, parsed->Ok_0);
            }
            assert(identity_of(s2) == identity_of(s0));
            assert(s2.channel_id == s0.channel_id);
            self.lemma_after_session_update(*old(self), oldss, idx as int);
            match spec_decode(bytes@) {
                Err(_) => {
                    assert(parsed is Err);
                    assert(s2 == s1);
                },
                Ok(evv) => {
                    let ev0 = parsed->Ok_0;
                    assert(ev0@ == evv);
                    assert(s2 == spec_session_after(s1, ev0));
                    assert(r@.len() == spec_actions_for(s1, ev0).len());
                },
            }
        }
        r
    }

    /// A heartbeat wake-up fired for `bot`: acts exactly as [`wake_post`]
    /// states; the registry does not change.
    pub fn handle_wake(&self, bot: &BotId) -> (r: Vec<RunnerAction>)
        ensures
            wake_post(*self, bot@, r@),
    {
        match self.registry.lookup_by_identity(bot) {
            Some(s) => {
                let acts = s.on_wake();
                session_actions_to_runner(s, acts)
            },
            None => Vec::new(),
        }
    }

    /// Routes one inbound item to its handler, and promises per case
    /// exactly what that handler promises.  A Connect that would exhaust
    /// the channel-number space is dropped (no session is created); every
    /// other item goes to exactly one handler above.
    pub fn handle_input(&mut self, input: RunnerInput) -> (r: Vec<RunnerAction>)
        requires
            old(self).wf(),
        ensures
            final(self).wf(),
            final(self).registry.next_channel >= old(self).registry.next_channel,
            match input {
                RunnerInput::Request { source, request } => match request {
                    DiscordApiRequest::Connect(bot) => if old(self).registry.next_channel
                        < u32::MAX {
                        connect_post(*old(self), *final(self), source, bot@, r@)
                    } else {
                        *final(self) == *old(self) && r@.len() == 0
                    },
                    DiscordApiRequest::Disconnect(bot) => disconnect_post(
                        *old(self),
                        *final(self),
                        bot@,
                        r@,
                    ),
                    DiscordApiRequest::Gateway { bot, event } => *final(self) == *old(self)
                        && gateway_send_post(*old(self), bot@, event, r@),
                    DiscordApiRequest::Http { bot, call } => *final(self) == *old(self)
                        && http_post(*old(self), source, bot@, call, r@),
                },
                RunnerInput::FrameReceived { channel, bytes } => frame_post(
                    *old(self),
                    *final(self),
                    channel,
                    bytes@,
                    r@,
                ),
                RunnerInput::ChannelClosed { channel } => channel_closed_post(
                    *old(self),
                    *final(self),
                    channel,
                ) && r@.len() == 0,
                RunnerInput::ChannelOpened { channel } => channel_opened_post(
                    *old(self),
                    *final(self),
                    channel,
                ) && r@.len() == 0,
                RunnerInput::HeartbeatWake { bot } => *final(self) == *old(self) && wake_post(
                    *old(self),
                    bot@,
                    r@,
                ),
            },
    {
        match input {
            RunnerInput::Request { source, request } => match request {
                DiscordApiRequest::Connect(bot) => {
                    if self.registry.next_channel < u32::MAX {
                        self.handle_connect(source, &bot)
                    } else {
                        Vec::new()
                    }
                },
                DiscordApiRequest::Disconnect(bot) => self.handle_disconnect(&bot),
                DiscordApiRequest::Gateway { bot, event } => self.handle_gateway_send(&bot, event),
                DiscordApiRequest::Http { bot, call } => self.handle_http(source, &bot, call),
            },
            RunnerInput::FrameReceived { channel, bytes } => self.handle_frame(
                channel,
                bytes.as_slice(),
            ),
            RunnerInput::ChannelClosed { channel } => {
                self.handle_channel_closed(channel);
                Vec::new()
            },
            RunnerInput::ChannelOpened { channel } => {
                self.handle_channel_opened(channel);
                Vec::new()
            },
            RunnerInput::HeartbeatWake { bot } => self.handle_wake(&bot),
        }
    }
}

} // verus!
