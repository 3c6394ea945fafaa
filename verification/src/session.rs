//! The per-session protocol state machine.
//!
//! One [`Session`] tracks a logical session's connection phase, negotiated
//! heartbeat interval, last-seen sequence number, resumable session token,
//! owning caller address and transport channel.  Feeding it an interpreted
//! event yields the session's next value and the list of actions to perform
//! (frames to send, a wake-up to schedule, an event to forward); performing
//! them is the host's job, so every transition here is verified against the
//! spec functions below, which state the machine in full.

use vstd::prelude::*;

use crate::gateway::GatewayReceiveEvent;
use crate::BotId;

verus! {

/// Connection phase of one logical session.  The `Disconnected` phase is
/// terminal per connection attempt; the session record itself survives until
/// the owner disconnects explicitly.
#[derive(Clone, Copy, Debug, PartialEq, Eq, Structural)]
pub enum Phase {
    Connecting,
    AwaitingHello,
    Identifying,
    Ready,
    Disconnected,
}

/// One instruction handed back by the state machine.  The frame-sending
/// instructions name the frame to build; the runner encodes them with the
/// session's stored credential, token and counter.
pub enum SessionAction {
    /// Schedule a heartbeat wake-up after this many milliseconds.
    ScheduleHeartbeat(u64),
    /// Send a heartbeat frame carrying this sequence number.
    SendHeartbeat(Option<u64>),
    /// Send an identify frame built from the session's credential and
    /// permission mask.
    SendIdentify,
    /// Send a resume frame built from the session's credential, resumable
    /// token and last-seen sequence number.
    SendResume,
    /// Forward this event to the session's owning caller.
    Forward(GatewayReceiveEvent),
}

/// One logical session's record.
pub struct Session {
    /// Address of the caller that owns this session and receives its
    /// forwarded events.
    pub parent: String,
    /// Credential, copied from the identity at creation.
    pub token: String,
    /// Permission mask, copied from the identity at creation.
    pub intents: u128,
    /// Connection phase.
    pub phase: Phase,
    /// Negotiated heartbeat interval in milliseconds; 0 until negotiated.
    pub heartbeat_interval: u64,
    /// Last-seen sequence number; 0 until one is received.
    pub last_seq: u64,
    /// Resumable session token; empty until a handshake completes.
    pub session_id: String,
    /// Transport channel identifier, fixed at creation.
    pub channel_id: u32,
}

/// The wake-up delay negotiated by a hello: the interval less a fixed
/// 1000 ms head start (never below zero), to front-run the deadline.
pub open spec fn spec_hello_delay(interval: u64) -> u64 {
    if interval >= 1000 {
        (interval - 1000) as u64
    } else {
        0
    }
}

/// The session value after one interpreted event.  Transitions not listed
/// leave the session unchanged (such an event is ignored, or merely
/// forwarded).  No event transition touches the last-seen sequence number:
/// that counter is maintained by envelope interpretation alone.
pub open spec fn spec_session_after(s: Session, event: GatewayReceiveEvent) -> Session {
    match event {
        GatewayReceiveEvent::Hello(h) => if s.phase == Phase::AwaitingHello {
            Session { phase: Phase::Identifying, heartbeat_interval: h.heartbeat_interval, ..s }
        } else {
            s
        },
        GatewayReceiveEvent::Ready { session_id, data: _ } => if s.phase == Phase::Identifying {
            Session { phase: Phase::Ready, session_id, ..s }
        } else {
            s
        },
        GatewayReceiveEvent::InvalidSession(resumable) => if s.phase == Phase::Ready
            && !resumable {
            Session { phase: Phase::Disconnected, ..s }
        } else {
            s
        },
        _ => s,
    }
}

/// The actions one interpreted event produces:
/// - a hello while awaiting it schedules the first wake-up at the negotiated
///   interval less the head start, then sends a primer heartbeat (no sequence
///   number seen yet) followed by an identify, in that order;
/// - a ready while identifying forwards the ready event to the owner;
/// - a reconnect while ready sends a resume frame;
/// - an invalid-session while ready sends a resume frame only if resumable;
/// - any other event while ready is forwarded to the owner verbatim;
/// - everything else is ignored.
pub open spec fn spec_actions_for(s: Session, event: GatewayReceiveEvent) -> Seq<SessionAction> {
    match event {
        GatewayReceiveEvent::Hello(h) => if s.phase == Phase::AwaitingHello {
            seq![
                SessionAction::ScheduleHeartbeat(spec_hello_delay(h.heartbeat_interval)),
                SessionAction::SendHeartbeat(None),
                SessionAction::SendIdentify,
            ]
        } else {
            Seq::empty()
        },
        GatewayReceiveEvent::Ready { session_id, data } => if s.phase == Phase::Identifying {
            seq![SessionAction::Forward(GatewayReceiveEvent::Ready { session_id, data })]
        } else {
            Seq::empty()
        },
        GatewayReceiveEvent::Reconnect => if s.phase == Phase::Ready {
            seq![SessionAction::SendResume]
        } else {
            Seq::empty()
        },
        GatewayReceiveEvent::InvalidSession(resumable) => if s.phase == Phase::Ready && resumable {
            seq![SessionAction::SendResume]
        } else {
            Seq::empty()
        },
        _ => if s.phase == Phase::Ready {
            seq![SessionAction::Forward(event)]
        } else {
            Seq::empty()
        },
    }
}

/// Negotiated-state law: an event transition never touches the last-seen
/// sequence counter, the identity, the owner or the channel, and it sets
/// the heartbeat interval only on a hello while awaiting one and the
/// resumable token only on a ready while identifying — negotiated state is
/// written by the handshake alone (and cleared only by the
/// transport-closed signal, which is not an event transition).
pub proof fn lemma_negotiated_state_changes(s: Session, ev: GatewayReceiveEvent)
    ensures
        spec_session_after(s, ev).last_seq == s.last_seq,
        spec_session_after(s, ev).token == s.token,
        spec_session_after(s, ev).intents == s.intents,
        spec_session_after(s, ev).parent == s.parent,
        spec_session_after(s, ev).channel_id == s.channel_id,
        spec_session_after(s, ev).heartbeat_interval != s.heartbeat_interval ==> s.phase
            == Phase::AwaitingHello && ev matches GatewayReceiveEvent::Hello(_),
        spec_session_after(s, ev).session_id != s.session_id ==> s.phase == Phase::Identifying
            && ev matches GatewayReceiveEvent::Ready { .. },
{
}

/// The actions a heartbeat wake-up produces: for a session past Connecting
/// and not Disconnected, a heartbeat carrying the current last-seen sequence
/// number, then the next wake-up at the stored interval; otherwise nothing,
/// which ends the wake-up chain.
pub open spec fn wake_actions(s: Session) -> Seq<SessionAction> {
    if s.phase == Phase::AwaitingHello || s.phase == Phase::Identifying || s.phase
        == Phase::Ready {
        seq![
            SessionAction::SendHeartbeat(Some(s.last_seq)),
            SessionAction::ScheduleHeartbeat(s.heartbeat_interval),
        ]
    } else {
        Seq::empty()
    }
}

/// The phase step when the transport confirms the socket open: a connecting
/// session starts awaiting the hello; any other phase ignores the signal.
pub open spec fn spec_open_transition(s: Session) -> Session {
    if s.phase == Phase::Connecting {
        Session { phase: Phase::AwaitingHello, ..s }
    } else {
        s
    }
}

impl Session {
    /// A fresh session for `id`, owned by the caller at `parent`, bound to
    /// transport channel `channel_id`: phase Connecting, interval and counter
    /// zero, token empty.
    pub fn new(parent: String, id: &BotId, channel_id: u32) -> (r: Session)
        ensures
            r.parent == parent,
            r.token@ == id@.token,
            r.intents == id@.intents,
            r.phase == Phase::Connecting,
            r.heartbeat_interval == 0,
            r.last_seq == 0,
            r.session_id@ == Seq::<char>::empty(),
            r.channel_id == channel_id,
    {
        Session {
            parent,
            token: id.token.clone(),
            intents: id.intents,
            phase: Phase::Connecting,
            heartbeat_interval: 0,
            last_seq: 0,
            session_id: String::new(),
            channel_id,
        }
    }

    /// The transport confirmed the socket is open: a connecting session
    /// starts awaiting the hello.  No other field changes; in any other
    /// phase the signal is ignored.
    pub fn on_transport_open(&mut self)
        ensures
            *final(self) == spec_open_transition(*old(self)),
    {
        if self.phase == Phase::Connecting {
            self.phase = Phase::AwaitingHello;
        }
    }

    /// The transport channel closed: the session becomes Disconnected and
    /// the negotiated interval, the last-seen counter and the resumable
    /// token are cleared.  The record itself survives for a later
    /// reconnection; nothing is scheduled or sent.
    pub fn on_transport_closed(&mut self)
        ensures
            final(self).phase == Phase::Disconnected,
            final(self).heartbeat_interval == 0,
            final(self).last_seq == 0,
            final(self).session_id@ == Seq::<char>::empty(),
            final(self).parent == old(self).parent,
            final(self).token == old(self).token,
            final(self).intents == old(self).intents,
            final(self).channel_id == old(self).channel_id,
    {
        self.phase = Phase::Disconnected;
        self.heartbeat_interval = 0;
        self.last_seq = 0;
        self.session_id = String::new();
    }

    /// Feeds one interpreted event to the state machine.  The new session
    /// value is exactly [`spec_session_after`], the returned actions exactly
    /// [`spec_actions_for`].
    pub fn handle_gateway_event(&mut self, event: GatewayReceiveEvent) -> (r: Vec<SessionAction>)
        ensures
            *final(self) == spec_session_after(*old(self), event),
            r@ == spec_actions_for(*old(self), event),
    {
        let mut actions: Vec<SessionAction> = Vec::new();
        match event {
            GatewayReceiveEvent::Hello(h) => {
                if self.phase == Phase::AwaitingHello {
                    self.phase = Phase::Identifying;
                    self.heartbeat_interval = h.heartbeat_interval;
                    let delay = if h.heartbeat_interval >= 1000 {
                        h.heartbeat_interval - 1000
                    } else {
                        0
                    };
                    actions.push(SessionAction::ScheduleHeartbeat(delay));
                    actions.push(SessionAction::SendHeartbeat(None));
                    actions.push(SessionAction::SendIdentify);
                }
            },
            GatewayReceiveEvent::Ready { session_id, data } => {
                if self.phase == Phase::Identifying {
                    self.phase = Phase::Ready;
                    self.session_id = session_id.clone();
                    actions.push(
                        SessionAction::Forward(GatewayReceiveEvent::Ready { session_id, data }),
                    );
                }
            },
            GatewayReceiveEvent::Reconnect => {
                if self.phase == Phase::Ready {
                    actions.push(SessionAction::SendResume);
                }
            },
            GatewayReceiveEvent::InvalidSession(resumable) => {
                if self.phase == Phase::Ready {
                    if resumable {
                        actions.push(SessionAction::SendResume);
                    } else {
                        self.phase = Phase::Disconnected;
                    }
                }
            },
            _ => {
                if self.phase == Phase::Ready {
                    actions.push(SessionAction::Forward(event));
                }
            },
        }
        proof {
            assert(actions@ =~= spec_actions_for(*old(self), event));
        }
        actions
    }

    /// A heartbeat wake-up fired for this session.  If the session is past
    /// Connecting and not Disconnected, a heartbeat carrying the current
    /// last-seen sequence number is sent and the next wake-up is scheduled at
    /// the stored interval (rescheduling is unconditional: a failed send must
    /// not end the chain).  Otherwise nothing happens and the chain ends.
    pub fn on_wake(&self) -> (r: Vec<SessionAction>)
        ensures
            r@ == wake_actions(*self),
    {
        let mut actions: Vec<SessionAction> = Vec::new();
        if self.phase == Phase::AwaitingHello || self.phase == Phase::Identifying || self.phase
            == Phase::Ready {
            actions.push(SessionAction::SendHeartbeat(Some(self.last_seq)));
            actions.push(SessionAction::ScheduleHeartbeat(self.heartbeat_interval));
        }
        proof {
            if self.phase == Phase::AwaitingHello || self.phase == Phase::Identifying || self.phase
                == Phase::Ready {
                assert(actions@ =~= seq![
                    SessionAction::SendHeartbeat(Some(self.last_seq)),
                    SessionAction::ScheduleHeartbeat(self.heartbeat_interval),
                ]);
            } else {
                assert(actions@ =~= Seq::<SessionAction>::empty());
            }
        }
        actions
    }
}

} // verus!
