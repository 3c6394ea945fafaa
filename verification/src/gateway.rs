//! The payload codec's inbound half: raw transport frames are parsed into a
//! generic envelope (operation code, optional sequence number, optional event
//! name, opaque data), and the envelope is interpreted as one event of a
//! closed set.
//!
//! Parsing and peeking into the opaque data go through the trusted items of
//! [`crate::json`], whose results are pure functions of their arguments and
//! carry names (`spec_parse_json` and friends).  Everything from the bytes to
//! the delivered event is therefore pinned exactly: [`spec_decode`] states
//! the result of decoding any byte sequence, [`spec_seq_after_decode`] the
//! sequence-counter side effect, and [`spec_interpret`] the interpretation of
//! an envelope's plain parts.
//!
//! Payload shape is validated to the envelope's level: the three payloads the
//! state machine reads (hello interval, invalid-session flag, ready token)
//! must carry those members, and any other recognized event's data must at
//! least be a JSON object, as every recognized kind's payload is one.  Field-
//! by-field validation of the event catalogue is deliberately left to the
//! caller's typed decode: the core treats per-kind data as opaque and never
//! lets a bad frame be more than a dropped frame.

use vstd::prelude::*;

use crate::json::{
    json_field, parse_json, spec_as_bool, spec_as_str, spec_as_u64, spec_is_null, spec_is_object,
    spec_json_field, spec_parse_json,
};
use crate::types::{spec_kind_for, GatewayEventType, Hello};

verus! {

/// The minimal wire structure carried by every gateway frame: an operation
/// code, an optional sequence number, an optional event-type name, and the
/// per-event data, kept opaque.
pub struct Envelope {
    pub op: u8,
    pub s: Option<u64>,
    pub t: Option<String>,
    pub d: serde_json::Value,
}

/// Mathematical value of an [`Envelope`].
pub ghost struct EnvelopeView {
    pub op: u8,
    pub s: Option<u64>,
    pub t: Option<Seq<char>>,
    pub d: serde_json::Value,
}

impl View for Envelope {
    type V = EnvelopeView;

    open spec fn view(&self) -> EnvelopeView {
        EnvelopeView {
            op: self.op,
            s: self.s,
            t: match self.t {
                Some(t) => Some(t@),
                None => None,
            },
            d: self.d,
        }
    }
}

/// The payload shapes the interpreter checks; named by
/// [`DecodeError::PayloadShapeMismatch`] when the data does not fit.
#[derive(Clone, Copy, Debug, PartialEq, Eq, Structural)]
pub enum PayloadKind {
    /// The invalid-session payload: a boolean.
    InvalidSession,
    /// The hello payload: an object carrying the heartbeat interval.
    Hello,
    /// The ready payload: an object carrying the session token.
    Ready,
    /// Any other recognized event's payload: an object.
    Event(GatewayEventType),
}

/// Why an inbound frame was rejected.  A rejected frame is dropped by the
/// runner; no decode error is ever fatal.
#[derive(Debug)]
pub enum DecodeError {
    /// The bytes are not a well-formed envelope (not JSON, or the required
    /// operation-code / data members are missing or ill-typed).
    Malformed,
    /// The envelope's event name (carried here) is not a recognized kind.
    UnknownEventType(String),
    /// The data member does not have the shape the operation code or event
    /// kind requires.
    PayloadShapeMismatch(PayloadKind),
}

/// Mathematical value of a [`DecodeError`].
pub ghost enum DecodeErrorView {
    Malformed,
    UnknownEventType(Seq<char>),
    PayloadShapeMismatch(PayloadKind),
}

impl View for DecodeError {
    type V = DecodeErrorView;

    open spec fn view(&self) -> DecodeErrorView {
        match self {
            DecodeError::Malformed => DecodeErrorView::Malformed,
            DecodeError::UnknownEventType(name) => DecodeErrorView::UnknownEventType(name@),
            DecodeError::PayloadShapeMismatch(k) => DecodeErrorView::PayloadShapeMismatch(*k),
        }
    }
}

/// One event received from the gateway, after interpretation.
pub enum GatewayReceiveEvent {
    /// Handshake opener; carries the negotiated heartbeat interval.
    Hello(Hello),
    /// Handshake completion; carries the resumable session token and the full
    /// payload for forwarding to the owning caller.
    Ready { session_id: String, data: serde_json::Value },
    /// Acknowledgement of a resume.
    Resumed,
    /// The remote side asks the client to resume over a fresh connection.
    Reconnect,
    /// The session was invalidated; the flag says whether it may be resumed.
    InvalidSession(bool),
    /// The remote side asks for an immediate heartbeat.
    Heartbeat,
    /// Acknowledgement of a heartbeat.
    HeartbeatAck,
    /// Any other recognized event, with its payload kept opaque for
    /// forwarding.
    Dispatch(GatewayEventType, serde_json::Value),
}

/// Mathematical value of a [`GatewayReceiveEvent`].
pub ghost enum GatewayReceiveEventView {
    Hello(Hello),
    Ready { session_id: Seq<char>, data: serde_json::Value },
    Resumed,
    Reconnect,
    InvalidSession(bool),
    Heartbeat,
    HeartbeatAck,
    Dispatch(GatewayEventType, serde_json::Value),
}

impl View for GatewayReceiveEvent {
    type V = GatewayReceiveEventView;

    open spec fn view(&self) -> GatewayReceiveEventView {
        match self {
            GatewayReceiveEvent::Hello(h) => GatewayReceiveEventView::Hello(*h),
            GatewayReceiveEvent::Ready { session_id, data } => GatewayReceiveEventView::Ready {
                session_id: session_id@,
                data: *data,
            },
            GatewayReceiveEvent::Resumed => GatewayReceiveEventView::Resumed,
            GatewayReceiveEvent::Reconnect => GatewayReceiveEventView::Reconnect,
            GatewayReceiveEvent::InvalidSession(b) => GatewayReceiveEventView::InvalidSession(*b),
            GatewayReceiveEvent::Heartbeat => GatewayReceiveEventView::Heartbeat,
            GatewayReceiveEvent::HeartbeatAck => GatewayReceiveEventView::HeartbeatAck,
            GatewayReceiveEvent::Dispatch(k, d) => GatewayReceiveEventView::Dispatch(*k, *d),
        }
    }
}

/// The plain values the interpreter may need from an envelope's opaque data:
/// the data itself read as a boolean, the member a hello carries, the member
/// a ready carries, and whether the data is a JSON object.  Absent means the
/// data does not have that shape.
pub struct PayloadFields {
    pub resumable: Option<bool>,
    pub hello_interval: Option<u64>,
    pub session_id: Option<String>,
    pub d_is_object: bool,
}

/// Mathematical value of [`PayloadFields`].
pub ghost struct PayloadFieldsView {
    pub resumable: Option<bool>,
    pub hello_interval: Option<u64>,
    pub session_id: Option<Seq<char>>,
    pub d_is_object: bool,
}

impl View for PayloadFields {
    type V = PayloadFieldsView;

    open spec fn view(&self) -> PayloadFieldsView {
        PayloadFieldsView {
            resumable: self.resumable,
            hello_interval: self.hello_interval,
            session_id: match self.session_id {
                Some(s) => Some(s@),
                None => None,
            },
            d_is_object: self.d_is_object,
        }
    }
}

/// The projections of an opaque data value, over the trusted names.
pub open spec fn spec_payload_fields(d: serde_json::Value) -> PayloadFieldsView {
    PayloadFieldsView {
        resumable: spec_as_bool(d),
        hello_interval: match spec_json_field(d, "heartbeat_interval"@) {
            Some(v) => spec_as_u64(v),
            None => None,
        },
        session_id: match spec_json_field(d, "session_id"@) {
            Some(v) => spec_as_str(v),
            None => None,
        },
        d_is_object: spec_is_object(d),
    }
}

/// Reads the projections of [`PayloadFields`] out of an opaque data value,
/// exactly [`spec_payload_fields`].
pub fn read_payload_fields(d: &serde_json::Value) -> (r: PayloadFields)
    ensures
        r@ == spec_payload_fields(*d),
{
    let resumable = d.as_bool();
    let hello_interval = match json_field(d, "heartbeat_interval") {
        Some(v) => v.as_u64(),
        None => None,
    };
    let session_id = match json_field(d, "session_id") {
        Some(v) => match v.as_str() {
            Some(s) => Some(s.to_owned()),
            None => None,
        },
        None => None,
    };
    let d_is_object = d.is_object();
    PayloadFields { resumable, hello_interval, session_id, d_is_object }
}

/// The fixed operation codes the interpreter dispatches on; any other code
/// falls through to dispatch by event name.
pub const OP_HEARTBEAT: u8 = 1;

pub const OP_RECONNECT: u8 = 7;

pub const OP_INVALID_SESSION: u8 = 9;

pub const OP_HELLO: u8 = 10;

pub const OP_HEARTBEAT_ACK: u8 = 11;

/// What interpreting an envelope yields: dispatch is on the operation code
/// for the fixed control codes; any other code dispatches on the event name,
/// where an unrecognized name is an error and a recognized one carries the
/// opaque data through, provided the data is at least a JSON object (every
/// recognized kind's payload is one; deeper validation is the caller's typed
/// decode).  `t` is the envelope's event name (empty when the envelope
/// carried none), `f` the projections of its data.
pub open spec fn spec_interpret(
    op: u8,
    t: String,
    f: PayloadFields,
    d: serde_json::Value,
) -> Result<GatewayReceiveEvent, DecodeError> {
    if op == OP_HEARTBEAT {
        Ok(GatewayReceiveEvent::Heartbeat)
    } else if op == OP_RECONNECT {
        Ok(GatewayReceiveEvent::Reconnect)
    } else if op == OP_INVALID_SESSION {
        match f.resumable {
            Some(b) => Ok(GatewayReceiveEvent::InvalidSession(b)),
            None => Err(DecodeError::PayloadShapeMismatch(PayloadKind::InvalidSession)),
        }
    } else if op == OP_HELLO {
        match f.hello_interval {
            Some(i) => Ok(GatewayReceiveEvent::Hello(Hello { heartbeat_interval: i })),
            None => Err(DecodeError::PayloadShapeMismatch(PayloadKind::Hello)),
        }
    } else if op == OP_HEARTBEAT_ACK {
        Ok(GatewayReceiveEvent::HeartbeatAck)
    } else {
        match spec_kind_for(t@) {
            None => Err(DecodeError::UnknownEventType(t)),
            Some(k) => if k == GatewayEventType::Ready {
                match f.session_id {
                    Some(sid) => Ok(GatewayReceiveEvent::Ready { session_id: sid, data: d }),
                    None => Err(DecodeError::PayloadShapeMismatch(PayloadKind::Ready)),
                }
            } else if f.d_is_object {
                Ok(GatewayReceiveEvent::Dispatch(k, d))
            } else {
                Err(DecodeError::PayloadShapeMismatch(PayloadKind::Event(k)))
            },
        }
    }
}

/// [`spec_interpret`], stated over mathematical values: the name as a
/// character sequence and the projections by view.
pub open spec fn spec_interpret_view(
    op: u8,
    t: Seq<char>,
    f: PayloadFieldsView,
    d: serde_json::Value,
) -> Result<GatewayReceiveEventView, DecodeErrorView> {
    if op == OP_HEARTBEAT {
        Ok(GatewayReceiveEventView::Heartbeat)
    } else if op == OP_RECONNECT {
        Ok(GatewayReceiveEventView::Reconnect)
    } else if op == OP_INVALID_SESSION {
        match f.resumable {
            Some(b) => Ok(GatewayReceiveEventView::InvalidSession(b)),
            None => Err(DecodeErrorView::PayloadShapeMismatch(PayloadKind::InvalidSession)),
        }
    } else if op == OP_HELLO {
        match f.hello_interval {
            Some(i) => Ok(GatewayReceiveEventView::Hello(Hello { heartbeat_interval: i })),
            None => Err(DecodeErrorView::PayloadShapeMismatch(PayloadKind::Hello)),
        }
    } else if op == OP_HEARTBEAT_ACK {
        Ok(GatewayReceiveEventView::HeartbeatAck)
    } else {
        match spec_kind_for(t) {
            None => Err(DecodeErrorView::UnknownEventType(t)),
            Some(k) => if k == GatewayEventType::Ready {
                match f.session_id {
                    Some(sid) => Ok(GatewayReceiveEventView::Ready { session_id: sid, data: d }),
                    None => Err(DecodeErrorView::PayloadShapeMismatch(PayloadKind::Ready)),
                }
            } else if f.d_is_object {
                Ok(GatewayReceiveEventView::Dispatch(k, d))
            } else {
                Err(DecodeErrorView::PayloadShapeMismatch(PayloadKind::Event(k)))
            },
        }
    }
}

/// The two statements of interpretation agree: the view of the value-level
/// result is the view-level result.
pub proof fn lemma_interpret_view(op: u8, t: String, f: PayloadFields, d: serde_json::Value)
    ensures
        (match spec_interpret(op, t, f, d) {
            Ok(ev) => Ok::<GatewayReceiveEventView, DecodeErrorView>(ev@),
            Err(e) => Err::<GatewayReceiveEventView, DecodeErrorView>(e@),
        }) == spec_interpret_view(op, t@, f@, d),
{
}

/// The sequence counter after one envelope: a carried sequence number
/// overwrites the counter, an absent one leaves it.
pub open spec fn seq_step(s0: u64, s: Option<u64>) -> u64 {
    match s {
        Some(v) => v,
        None => s0,
    }
}

/// Interprets one envelope, given as its plain parts: operation code `op`,
/// sequence number `s`, event name `t` (empty when the envelope carried
/// none), data projections `f`, and the opaque data `d`.  The sequence side
/// effect is applied always, whatever the outcome; the result is exactly
/// [`spec_interpret`].
pub fn interpret(
    op: u8,
    s: Option<u64>,
    t: String,
    f: PayloadFields,
    d: serde_json::Value,
    last_seq: &mut u64,
) -> (r: Result<GatewayReceiveEvent, DecodeError>)
    ensures
        *final(last_seq) == seq_step(*old(last_seq), s),
        r == spec_interpret(op, t, f, d),
{
    match s {
        Some(v) => {
            *last_seq = v;
        },
        None => {},
    }
    if op == OP_HEARTBEAT {
        Ok(GatewayReceiveEvent::Heartbeat)
    } else if op == OP_RECONNECT {
        Ok(GatewayReceiveEvent::Reconnect)
    } else if op == OP_INVALID_SESSION {
        match f.resumable {
            Some(b) => Ok(GatewayReceiveEvent::InvalidSession(b)),
            None => Err(DecodeError::PayloadShapeMismatch(PayloadKind::InvalidSession)),
        }
    } else if op == OP_HELLO {
        match f.hello_interval {
            Some(i) => Ok(GatewayReceiveEvent::Hello(Hello { heartbeat_interval: i })),
            None => Err(DecodeError::PayloadShapeMismatch(PayloadKind::Hello)),
        }
    } else if op == OP_HEARTBEAT_ACK {
        Ok(GatewayReceiveEvent::HeartbeatAck)
    } else {
        match GatewayEventType::from_str(t.as_str()) {
            None => Err(DecodeError::UnknownEventType(t)),
            Some(k) => if k == GatewayEventType::Ready {
                match f.session_id {
                    Some(sid) => Ok(GatewayReceiveEvent::Ready { session_id: sid, data: d }),
                    None => Err(DecodeError::PayloadShapeMismatch(PayloadKind::Ready)),
                }
            } else if f.d_is_object {
                Ok(GatewayReceiveEvent::Dispatch(k, d))
            } else {
                Err(DecodeError::PayloadShapeMismatch(PayloadKind::Event(k)))
            },
        }
    }
}

/// The envelope a parsed JSON document describes, over the trusted names:
/// the operation-code and data members are required, sequence number and
/// event name optional with JSON null counting as absent; `Err` is the
/// malformed case.
pub open spec fn spec_envelope_of(root: serde_json::Value) -> Result<EnvelopeView, ()> {
    let op_n = match spec_json_field(root, "op"@) {
        Some(v) => spec_as_u64(v),
        None => None,
    };
    if op_n is None || op_n->0 > 255 {
        Err(())
    } else {
        let s_r: Result<Option<u64>, ()> = match spec_json_field(root, "s"@) {
            None => Ok(None),
            Some(v) => if spec_is_null(v) {
                Ok(None)
            } else {
                match spec_as_u64(v) {
                    Some(n) => Ok(Some(n)),
                    None => Err(()),
                }
            },
        };
        let t_r: Result<Option<Seq<char>>, ()> = match spec_json_field(root, "t"@) {
            None => Ok(None),
            Some(v) => if spec_is_null(v) {
                Ok(None)
            } else {
                match spec_as_str(v) {
                    Some(name) => Ok(Some(name)),
                    None => Err(()),
                }
            },
        };
        if s_r is Err || t_r is Err {
            Err(())
        } else {
            match spec_json_field(root, "d"@) {
                Some(d) => Ok(
                    EnvelopeView { op: (op_n->0) as u8, s: s_r->Ok_0, t: t_r->Ok_0, d },
                ),
                None => Err(()),
            }
        }
    }
}

/// The envelope any byte sequence parses to, or `Err` when the bytes are
/// not JSON or not the envelope shape.
pub open spec fn spec_parse_envelope(bytes: Seq<u8>) -> Result<EnvelopeView, ()> {
    match spec_parse_json(bytes) {
        Some(root) => spec_envelope_of(root),
        None => Err(()),
    }
}

/// What decoding raw frame bytes yields: the interpretation of the parsed
/// envelope, or the malformed error when no envelope parses.
pub open spec fn spec_decode(bytes: Seq<u8>) -> Result<GatewayReceiveEventView, DecodeErrorView> {
    match spec_parse_envelope(bytes) {
        Ok(env) => spec_interpret_view(
            env.op,
            match env.t {
                Some(t) => t,
                None => Seq::empty(),
            },
            spec_payload_fields(env.d),
            env.d,
        ),
        Err(_) => Err(DecodeErrorView::Malformed),
    }
}

/// The sequence counter after decoding one frame: a malformed envelope
/// leaves it, any envelope that parses applies its [`seq_step`] — even when
/// interpretation then rejects the frame.
pub open spec fn spec_seq_after_decode(bytes: Seq<u8>, s0: u64) -> u64 {
    match spec_parse_envelope(bytes) {
        Ok(env) => seq_step(s0, env.s),
        Err(_) => s0,
    }
}

/// The sequence counter after a run of envelopes, each applied with
/// [`seq_step`] in delivery order.
pub open spec fn seq_after(s0: u64, seqs: Seq<Option<u64>>) -> u64
    decreases seqs.len(),
{
    if seqs.len() == 0 {
        s0
    } else {
        seq_after(seq_step(s0, seqs[0]), seqs.drop_first())
    }
}

/// Sequence-tracking law: interpreting envelopes carrying sequence numbers
/// s1, ..., sn in delivery order leaves the last-seen counter at sn,
/// whatever their operation codes or event names were and whether or not
/// each one's typed body decoded.  (Each [`interpret`] call moves the
/// counter by [`seq_step`], unconditionally; this folds those steps.)
pub proof fn lemma_sequence_tracking(s0: u64, seqs: Seq<Option<u64>>)
    requires
        seqs.len() > 0,
        forall|i: int| 0 <= i < seqs.len() ==> seqs[i] is Some,
    ensures
        seq_after(s0, seqs) == seqs.last()->0,
    decreases seqs.len(),
{
    reveal_with_fuel(seq_after, 2);
    if seqs.len() == 1 {
        assert(seqs[0] is Some);
        assert(seqs.drop_first().len() == 0);
        assert(seq_after(s0, seqs) == seq_step(s0, seqs[0]));
        assert(seqs.last() == seqs[0]);
    } else {
        assert(forall|i: int|
            0 <= i < seqs.drop_first().len() ==> seqs.drop_first()[i] == seqs[i + 1]);
        lemma_sequence_tracking(seq_step(s0, seqs[0]), seqs.drop_first());
        assert(seqs.drop_first().last() == seqs.last());
    }
}

/// The counter after a run of raw frames, each applied with
/// [`spec_seq_after_decode`] in delivery order.
pub open spec fn seq_after_frames(s0: u64, frames: Seq<Seq<u8>>) -> u64
    decreases frames.len(),
{
    if frames.len() == 0 {
        s0
    } else {
        seq_after_frames(spec_seq_after_decode(frames[0], s0), frames.drop_first())
    }
}

/// The sequence-tracking law at the byte level: decoding frames whose
/// envelopes parse and carry sequence numbers s1, ..., sn, in delivery
/// order, leaves the counter at sn — whatever each frame's operation code
/// or name was and whether or not its interpretation succeeded.
pub proof fn lemma_frame_sequence_tracking(s0: u64, frames: Seq<Seq<u8>>)
    requires
        frames.len() > 0,
        forall|i: int|
            0 <= i < frames.len() ==> (#[trigger] spec_parse_envelope(frames[i]) matches Ok(env)
                && env.s is Some),
    ensures
        spec_parse_envelope(frames.last()) matches Ok(env) ==> seq_after_frames(s0, frames)
            == env.s->0,
    decreases frames.len(),
{
    reveal_with_fuel(seq_after_frames, 2);
    if frames.len() == 1 {
        assert(spec_parse_envelope(frames[0]) matches Ok(env) && env.s is Some);
        assert(frames.last() == frames[0]);
        assert(frames.drop_first().len() == 0);
    } else {
        assert(forall|i: int|
            0 <= i < frames.drop_first().len() ==> frames.drop_first()[i] == frames[i + 1]);
        lemma_frame_sequence_tracking(spec_seq_after_decode(frames[0], s0), frames.drop_first());
        assert(frames.drop_first().last() == frames.last());
    }
}

/// Parses raw frame bytes into an [`Envelope`], exactly
/// [`spec_parse_envelope`]: the envelope when the bytes describe one, and
/// the malformed error otherwise.
pub fn parse_envelope(bytes: &[u8]) -> (r: Result<Envelope, DecodeError>)
    ensures
        r matches Ok(env) ==> spec_parse_envelope(bytes@) == Ok::<EnvelopeView, ()>(env@),
        r matches Err(e) ==> spec_parse_envelope(bytes@) is Err && e matches DecodeError::Malformed,
{
    let root = match parse_json(bytes) {
        Some(v) => v,
        None => {
            return Err(DecodeError::Malformed);
        },
    };
    let op_u64 = match json_field(&root, "op") {
        Some(v) => match v.as_u64() {
            Some(n) => n,
            None => {
                return Err(DecodeError::Malformed);
            },
        },
        None => {
            return Err(DecodeError::Malformed);
        },
    };
    if op_u64 > 255 {
        return Err(DecodeError::Malformed);
    }
    let op = op_u64 as u8;
    let s = match json_field(&root, "s") {
        Some(v) => {
            if v.is_null() {
                None
            } else {
                match v.as_u64() {
                    Some(n) => Some(n),
                    None => {
                        return Err(DecodeError::Malformed);
                    },
                }
            }
        },
        None => None,
    };
    let t = match json_field(&root, "t") {
        Some(v) => {
            if v.is_null() {
                None
            } else {
                match v.as_str() {
                    Some(name) => Some(name.to_owned()),
                    None => {
                        return Err(DecodeError::Malformed);
                    },
                }
            }
        },
        None => None,
    };
    let d = match json_field(&root, "d") {
        Some(v) => v.clone(),
        None => {
            return Err(DecodeError::Malformed);
        },
    };
    let env = Envelope { op, s, t, d };
    proof {
        assert(spec_envelope_of(root) == Ok::<EnvelopeView, ()>(env@));
    }
    Ok(env)
}

/// Parses one raw frame and interprets it: the result is exactly
/// [`spec_decode`] of the bytes, and `seq` moves exactly by
/// [`spec_seq_after_decode`] — a malformed envelope leaves it, any envelope
/// that parses advances it, even when the frame is then rejected or ignored
/// (the counter's scope is the whole connection).
pub fn parse_gateway_payload(payload_bytes: &[u8], seq: &mut u64) -> (r: Result<
    GatewayReceiveEvent,
    DecodeError,
>)
    ensures
        r matches Ok(ev) ==> spec_decode(payload_bytes@) == Ok::<GatewayReceiveEventView, DecodeErrorView>(ev@),
        r matches Err(e) ==> spec_decode(payload_bytes@) == Err::<GatewayReceiveEventView, DecodeErrorView>(e@),
        *final(seq) == spec_seq_after_decode(payload_bytes@, *old(seq)),
{
    let env = match parse_envelope(payload_bytes) {
        Ok(env) => env,
        Err(e) => {
            return Err(e);
        },
    };
    let f = read_payload_fields(&env.d);
    let t = match env.t {
        Some(t) => t,
        None => String::new(),
    };
    proof {
        lemma_interpret_view(env.op, t, f, env.d);
    }
    interpret(env.op, env.s, t, f, env.d, seq)
}

} // verus!
