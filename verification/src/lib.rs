//! Client-side core of a real-time gateway protocol: a payload codec for the
//! wire envelopes, a registry that multiplexes logical sessions over transport
//! channels, the per-session handshake state machine, and the dispatcher that
//! routes inbound items to them.  All effects (socket opens, frame sends,
//! timers, replies to callers) are returned as action values, so the whole
//! protocol core is pure and verified; a thin host harness performs the
//! actions.

use vstd::prelude::*;

pub mod ascii;
pub mod gateway;
pub mod json;
pub mod json_text;
pub mod registry;
pub mod runner;
pub mod send;
pub mod session;
pub mod types;

verus! {

/// The identity of one logical session: a credential string paired with a
/// permission mask.  Two identities are equal exactly when both fields match.
pub struct BotId {
    pub token: String,
    pub intents: u128,
}

/// Mathematical value of a [`BotId`]: the credential as a character sequence
/// plus the permission mask.
pub ghost struct BotIdView {
    pub token: Seq<char>,
    pub intents: u128,
}

impl View for BotId {
    type V = BotIdView;

    open spec fn view(&self) -> BotIdView {
        BotIdView { token: self.token@, intents: self.intents }
    }
}

impl BotId {
    /// Makes an identity from a credential and a permission mask.
    pub fn new(token: String, intents: u128) -> (r: BotId)
        ensures
            r@ == (BotIdView { token: token@, intents }),
    {
        BotId { token, intents }
    }

    /// Field-by-field equality of two identities.
    pub fn same_identity(&self, other: &BotId) -> (r: bool)
        ensures
            r == (self@ == other@),
    {
        let eq = self.token == other.token && self.intents == other.intents;
        proof {
            if eq {
                assert(self@ == other@);
            }
        }
        eq
    }

    /// A copy of this identity.
    pub fn duplicate(&self) -> (r: BotId)
        ensures
            r@ == self@,
    {
        BotId { token: self.token.clone(), intents: self.intents }
    }
}

} // verus!
