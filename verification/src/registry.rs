//! The multi-session registry: one record per connected logical session,
//! reachable both by identity (credential + permission mask) and by the
//! transport channel the session rides on.
//!
//! The registry is a single owned value threaded through the runner.  Its two
//! mappings are kept in one sequence of sessions — a session carries both its
//! identity fields and its channel — so removing a session removes both
//! entries atomically by construction.  The well-formedness predicate [`
//! Registry::wf`] pins identities and channels unique, and every operation's
//! contract is stated over the two lookup functions below.

use vstd::prelude::*;

use crate::session::{Phase, Session};
use crate::{BotId, BotIdView};

verus! {

/// The identity a session record belongs to.
pub open spec fn identity_of(s: Session) -> BotIdView {
    BotIdView { token: s.token@, intents: s.intents }
}

/// The first session in `ss` registered for identity `k`.
pub open spec fn lookup_identity_in(ss: Seq<Session>, k: BotIdView) -> Option<Session>
    decreases ss.len(),
{
    if ss.len() == 0 {
        None
    } else if identity_of(ss[0]) == k {
        Some(ss[0])
    } else {
        lookup_identity_in(ss.drop_first(), k)
    }
}

/// The first session in `ss` bound to transport channel `ch`.
pub open spec fn lookup_channel_in(ss: Seq<Session>, ch: u32) -> Option<Session>
    decreases ss.len(),
{
    if ss.len() == 0 {
        None
    } else if ss[0].channel_id == ch {
        Some(ss[0])
    } else {
        lookup_channel_in(ss.drop_first(), ch)
    }
}

/// An identity lookup misses exactly when no session has that identity, and
/// a hit returns a session of that identity that is in the sequence.
pub proof fn lemma_lookup_identity_props(ss: Seq<Session>, k: BotIdView)
    ensures
        (lookup_identity_in(ss, k) is None) <==> (forall|i: int|
            0 <= i < ss.len() ==> identity_of(ss[i]) != k),
        lookup_identity_in(ss, k) matches Some(s) ==> identity_of(s) == k && (exists|i: int|
            0 <= i < ss.len() && ss[i] == s),
    decreases ss.len(),
{
    if ss.len() > 0 {
        lemma_lookup_identity_props(ss.drop_first(), k);
        assert(forall|i: int|
            0 <= i < ss.drop_first().len() ==> ss.drop_first()[i] == ss[i + 1]);
        if identity_of(ss[0]) == k {
            assert(!(forall|i: int| 0 <= i < ss.len() ==> identity_of(ss[i]) != k)) by {
                assert(identity_of(ss[0]) == k);
            }
        } else {
            if lookup_identity_in(ss, k) is None {
                assert forall|i: int| 0 <= i < ss.len() implies identity_of(ss[i]) != k by {
                    if i > 0 {
                        assert(ss.drop_first()[i - 1] == ss[i]);
                    }
                }
            }
            if lookup_identity_in(ss, k) is Some {
                let v = lookup_identity_in(ss, k)->0;
                let j = choose|j: int|
                    0 <= j < ss.drop_first().len() && ss.drop_first()[j] == v;
                assert(ss[j + 1] == v);
            }
        }
    }
}

/// A channel lookup misses exactly when no session rides that channel, and a
/// hit returns a session on that channel that is in the sequence.
pub proof fn lemma_lookup_channel_props(ss: Seq<Session>, ch: u32)
    ensures
        (lookup_channel_in(ss, ch) is None) <==> (forall|i: int|
            0 <= i < ss.len() ==> ss[i].channel_id != ch),
        lookup_channel_in(ss, ch) matches Some(s) ==> s.channel_id == ch && (exists|i: int|
            0 <= i < ss.len() && ss[i] == s),
    decreases ss.len(),
{
    if ss.len() > 0 {
        lemma_lookup_channel_props(ss.drop_first(), ch);
        assert(forall|i: int|
            0 <= i < ss.drop_first().len() ==> ss.drop_first()[i] == ss[i + 1]);
        if ss[0].channel_id == ch {
        } else {
            if lookup_channel_in(ss, ch) is None {
                assert forall|i: int| 0 <= i < ss.len() implies ss[i].channel_id != ch by {
                    if i > 0 {
                        assert(ss.drop_first()[i - 1] == ss[i]);
                    }
                }
            }
            if lookup_channel_in(ss, ch) is Some {
                let v = lookup_channel_in(ss, ch)->0;
                let j = choose|j: int|
                    0 <= j < ss.drop_first().len() && ss.drop_first()[j] == v;
                assert(ss[j + 1] == v);
            }
        }
    }
}

/// When every identity occurs at most once, a lookup hit is the unique
/// session at the hit's index, whatever index holds the identity.
pub proof fn lemma_lookup_identity_at(ss: Seq<Session>, i: int)
    requires
        0 <= i < ss.len(),
        forall|a: int, b: int|
            0 <= a < b < ss.len() ==> identity_of(ss[a]) != identity_of(ss[b]),
    ensures
        lookup_identity_in(ss, identity_of(ss[i])) == Some(ss[i]),
    decreases ss.len(),
{
    if i == 0 {
    } else {
        assert(identity_of(ss[0]) != identity_of(ss[i]));
        assert(forall|j: int|
            0 <= j < ss.drop_first().len() ==> ss.drop_first()[j] == ss[j + 1]);
        lemma_lookup_identity_at(ss.drop_first(), i - 1);
    }
}

/// The channel-side counterpart of [`lemma_lookup_identity_at`].
pub proof fn lemma_lookup_channel_at(ss: Seq<Session>, i: int)
    requires
        0 <= i < ss.len(),
        forall|a: int, b: int| 0 <= a < b < ss.len() ==> ss[a].channel_id != ss[b].channel_id,
    ensures
        lookup_channel_in(ss, ss[i].channel_id) == Some(ss[i]),
    decreases ss.len(),
{
    if i == 0 {
    } else {
        assert(ss[0].channel_id != ss[i].channel_id);
        assert(forall|j: int|
            0 <= j < ss.drop_first().len() ==> ss.drop_first()[j] == ss[j + 1]);
        lemma_lookup_channel_at(ss.drop_first(), i - 1);
    }
}

/// The registry proper: the session records plus the next channel number to
/// hand out.  Channel numbers are monotonically increasing and never reused
/// within a process lifetime.
pub struct Registry {
    pub sessions: Vec<Session>,
    pub next_channel: u32,
}

impl Registry {
    /// Well-formedness: identities unique, channels unique, and every
    /// handed-out channel below the next one.
    pub open spec fn wf(self) -> bool {
        &&& forall|a: int, b: int|
            0 <= a < b < self.sessions@.len() ==> identity_of(self.sessions@[a]) != identity_of(
                self.sessions@[b],
            )
        &&& forall|a: int, b: int|
            0 <= a < b < self.sessions@.len() ==> self.sessions@[a].channel_id
                != self.sessions@[b].channel_id
        &&& forall|i: int|
            0 <= i < self.sessions@.len() ==> self.sessions@[i].channel_id < self.next_channel
    }

    /// The identity mapping of this registry.
    pub open spec fn spec_lookup_identity(self, k: BotIdView) -> Option<Session> {
        lookup_identity_in(self.sessions@, k)
    }

    /// The channel mapping of this registry, resolved through to the session.
    pub open spec fn spec_lookup_channel(self, ch: u32) -> Option<Session> {
        lookup_channel_in(self.sessions@, ch)
    }

    /// An empty registry whose first handed-out channel will be `first_channel`.
    pub fn new(first_channel: u32) -> (r: Registry)
        ensures
            r.wf(),
            r.sessions@.len() == 0,
            r.next_channel == first_channel,
            forall|k: BotIdView| r.spec_lookup_identity(k) is None,
            forall|ch: u32| r.spec_lookup_channel(ch) is None,
    {
        Registry { sessions: Vec::new(), next_channel: first_channel }
    }

    /// The index of the session registered for `id`, if any.
    pub(crate) fn find_identity(&self, id: &BotId) -> (r: Option<usize>)
        ensures
            match r {
                Some(i) => i < self.sessions@.len() && identity_of(self.sessions@[i as int])
                    == id@ && self.spec_lookup_identity(id@) == Some(self.sessions@[i as int]),
                None => self.spec_lookup_identity(id@) is None,
            },
    {
        let n = self.sessions.len();
        let mut i: usize = 0;
        proof {
            assert(self.sessions@.skip(0) =~= self.sessions@);
        }
        while i < n
            invariant
                n == self.sessions@.len(),
                i <= n,
                lookup_identity_in(self.sessions@.skip(i as int), id@) == self.spec_lookup_identity(
                    id@,
                ),
            decreases n - i,
        {
            let s = &self.sessions[i];
            let ghost pre = self.sessions@.skip(i as int);
            proof {
                assert(pre[0] == self.sessions@[i as int]);
                assert(pre.drop_first() =~= self.sessions@.skip(i as int + 1));
            }
            if s.token == id.token && s.intents == id.intents {
                proof {
                    assert(identity_of(self.sessions@[i as int]) == id@);
                }
                return Some(i);
            }
            proof {
                assert(identity_of(self.sessions@[i as int]) != id@);
            }
            i += 1;
        }
        proof {
            assert(self.sessions@.skip(n as int) =~= Seq::<Session>::empty());
        }
        None
    }

    /// The index of the session riding channel `ch`, if any.
    pub(crate) fn find_channel(&self, ch: u32) -> (r: Option<usize>)
        ensures
            match r {
                Some(i) => i < self.sessions@.len() && self.sessions@[i as int].channel_id == ch
                    && self.spec_lookup_channel(ch) == Some(self.sessions@[i as int]),
                None => self.spec_lookup_channel(ch) is None,
            },
    {
        let n = self.sessions.len();
        let mut i: usize = 0;
        proof {
            assert(self.sessions@.skip(0) =~= self.sessions@);
        }
        while i < n
            invariant
                n == self.sessions@.len(),
                i <= n,
                lookup_channel_in(self.sessions@.skip(i as int), ch) == self.spec_lookup_channel(
                    ch,
                ),
            decreases n - i,
        {
            let s = &self.sessions[i];
            let ghost pre = self.sessions@.skip(i as int);
            proof {
                assert(pre[0] == self.sessions@[i as int]);
                assert(pre.drop_first() =~= self.sessions@.skip(i as int + 1));
            }
            if s.channel_id == ch {
                return Some(i);
            }
            i += 1;
        }
        proof {
            assert(self.sessions@.skip(n as int) =~= Seq::<Session>::empty());
        }
        None
    }

    /// Looks a session up by identity.
    pub fn lookup_by_identity(&self, id: &BotId) -> (r: Option<&Session>)
        ensures
            match r {
                Some(s) => self.spec_lookup_identity(id@) == Some(*s),
                None => self.spec_lookup_identity(id@) is None,
            },
    {
        match self.find_identity(id) {
            Some(i) => Some(&self.sessions[i]),
            None => None,
        }
    }

    /// Looks a session up by transport channel.
    pub fn lookup_by_channel(&self, ch: u32) -> (r: Option<&Session>)
        ensures
            match r {
                Some(s) => self.spec_lookup_channel(ch) == Some(*s),
                None => self.spec_lookup_channel(ch) is None,
            },
    {
        match self.find_channel(ch) {
            Some(i) => Some(&self.sessions[i]),
            None => None,
        }
    }

    /// Registers `id` with owning caller `parent`: assigns the next channel
    /// number, creates a fresh session in phase Connecting with interval,
    /// counter and token zeroed, and records both mappings.  Registering an
    /// identity that is already present replaces its session and retires the
    /// old channel entry with it — a repeated Connect starts over on a fresh
    /// channel rather than reusing the old one.
    pub fn insert(&mut self, id: &BotId, parent: String) -> (r: u32)
        requires
            old(self).wf(),
            old(self).next_channel < u32::MAX,
        ensures
            final(self).wf(),
            r == old(self).next_channel,
            final(self).next_channel == old(self).next_channel + 1,
            final(self).spec_lookup_identity(id@) matches Some(s) && s.parent == parent
                && s.token@ == id@.token && s.intents == id@.intents && s.phase
                == Phase::Connecting && s.heartbeat_interval == 0 && s.last_seq == 0
                && s.session_id@ == Seq::<char>::empty() && s.channel_id == r,
            final(self).spec_lookup_channel(r) == final(self).spec_lookup_identity(id@),
            forall|k: BotIdView|
                k != id@ ==> final(self).spec_lookup_identity(k) == old(
                    self,
                ).spec_lookup_identity(k),
            forall|ch: u32|
                ch != r ==> final(self).spec_lookup_channel(ch) == (match old(
                    self,
                ).spec_lookup_channel(ch) {
                    Some(s) => if identity_of(s) == id@ {
                        None::<Session>
                    } else {
                        Some(s)
                    },
                    None => None,
                }),
    {
        let r = self.next_channel;
        let ghost orig = *old(self);
        self.remove(id);
        let ghost mid = *self;
        let snew = Session::new(parent, id, r);
        proof {
            assert(identity_of(snew) == id@);
            lemma_lookup_identity_props(mid.sessions@, id@);
            lemma_lookup_channel_props(mid.sessions@, r);
            lemma_lookup_after_push(mid.sessions@, snew);
            assert(forall|j: int|
                0 <= j < mid.sessions@.len() ==> mid.sessions@[j].channel_id != r);
        }
        self.sessions.push(snew);
        self.next_channel = r + 1;
        proof {
            let fs = self.sessions@;
            assert(fs == mid.sessions@.push(snew));
            assert forall|a: int, b: int|
                0 <= a < b < fs.len() implies identity_of(fs[a]) != identity_of(fs[b]) by {
                if b == fs.len() - 1 {
                    assert(fs[a] == mid.sessions@[a]);
                    assert(fs[b] == snew);
                    assert(identity_of(mid.sessions@[a]) != id@);
                } else {
                    assert(fs[a] == mid.sessions@[a]);
                    assert(fs[b] == mid.sessions@[b]);
                }
            }
            assert forall|a: int, b: int|
                0 <= a < b < fs.len() implies fs[a].channel_id != fs[b].channel_id by {
                if b == fs.len() - 1 {
                    assert(fs[a] == mid.sessions@[a]);
                    assert(fs[b] == snew);
                } else {
                    assert(fs[a] == mid.sessions@[a]);
                    assert(fs[b] == mid.sessions@[b]);
                }
            }
            assert forall|j: int|
                0 <= j < fs.len() implies fs[j].channel_id < self.next_channel by {
                if j < fs.len() - 1 {
                    assert(fs[j] == mid.sessions@[j]);
                }
            }
            assert(lookup_channel_in(mid.sessions@, r) is None);
            assert(self.spec_lookup_identity(id@) == Some(snew));
            assert(self.spec_lookup_channel(r) == Some(snew));
            assert forall|k: BotIdView|
                k != id@ implies self.spec_lookup_identity(k) == orig.spec_lookup_identity(
                k,
            ) by {
                assert(lookup_identity_in(fs, k) == lookup_identity_in(mid.sessions@, k));
            }
            assert forall|ch: u32|
                ch != r implies self.spec_lookup_channel(ch) == (
                match orig.spec_lookup_channel(ch) {
                    Some(s) => if identity_of(s) == id@ {
                        None::<Session>
                    } else {
                        Some(s)
                    },
                    None => None,
                }) by {
                let after_remove = lookup_channel_in(mid.sessions@, ch);
                assert(mid.spec_lookup_channel(ch) == after_remove);
                assert(after_remove == (match orig.spec_lookup_channel(ch) {
                    Some(s) => if identity_of(s) == id@ {
                        None::<Session>
                    } else {
                        Some(s)
                    },
                    None => None,
                }));
                if after_remove is Some {
                    assert(lookup_channel_in(fs, ch) == after_remove);
                } else {
                    assert(lookup_channel_in(fs, ch) is None);
                }
            }
        }
        r
    }

    /// Removes the session registered for `id`, if any.  Identity entry and
    /// channel entry disappear together: afterwards neither lookup finds the
    /// session, and no other session is disturbed.
    pub fn remove(&mut self, id: &BotId)
        requires
            old(self).wf(),
        ensures
            final(self).wf(),
            final(self).next_channel == old(self).next_channel,
            final(self).spec_lookup_identity(id@) is None,
            forall|k: BotIdView|
                k != id@ ==> final(self).spec_lookup_identity(k) == old(self).spec_lookup_identity(
                    k,
                ),
            forall|ch: u32|
                final(self).spec_lookup_channel(ch) == (match old(self).spec_lookup_channel(ch) {
                    Some(s) => if identity_of(s) == id@ {
                        None
                    } else {
                        Some(s)
                    },
                    None => None,
                }),
            final(self).sessions@.len() == if old(self).spec_lookup_identity(id@) is Some {
                old(self).sessions@.len() - 1
            } else {
                old(self).sessions@.len() as int
            },
    {
        match self.find_identity(id) {
            Some(i) => {
                let ghost ss = self.sessions@;
                self.sessions.remove(i);
                proof {
                    ss.remove_ensures(i as int);
                    lemma_lookup_after_remove(ss, i as int);
                    assert forall|ch: u32|
                        self.spec_lookup_channel(ch) == (match lookup_channel_in(ss, ch) {
                            Some(s) => if identity_of(s) == id@ {
                                None::<Session>
                            } else {
                                Some(s)
                            },
                            None => None,
                        }) by {
                        lemma_lookup_channel_props(ss, ch);
                        if ch == ss[i as int].channel_id {
                            lemma_lookup_channel_at(ss, i as int);
                        } else {
                            if lookup_channel_in(ss, ch) is Some {
                                let s = lookup_channel_in(ss, ch)->0;
                                if identity_of(s) == id@ {
                                    let j = choose|j: int| 0 <= j < ss.len() && ss[j] == s;
                                    assert(identity_of(ss[j]) == identity_of(ss[i as int]));
                                    assert(j == i);
                                    assert(false);
                                }
                            }
                        }
                    }
                    assert forall|j: int|
                        0 <= j < self.sessions@.len() implies self.sessions@[j].channel_id
                        < self.next_channel by {
                        let j0 = if j < i as int { j } else { j + 1 };
                        assert(self.sessions@[j] == ss[j0]);
                    }
                }
            },
            None => {
                proof {
                    lemma_lookup_identity_props(self.sessions@, id@);
                    assert forall|ch: u32|
                        self.spec_lookup_channel(ch) == (
                        match old(self).spec_lookup_channel(ch) {
                            Some(s) => if identity_of(s) == id@ {
                                None::<Session>
                            } else {
                                Some(s)
                            },
                            None => None,
                        }) by {
                        lemma_lookup_channel_props(self.sessions@, ch);
                        if old(self).spec_lookup_channel(ch) is Some {
                            let s = lookup_channel_in(self.sessions@, ch)->0;
                            if identity_of(s) == id@ {
                                let j = choose|j: int|
                                    0 <= j < self.sessions@.len() && self.sessions@[j] == s;
                                lemma_lookup_identity_props(self.sessions@, id@);
                                assert(identity_of(self.sessions@[j]) == id@);
                                assert(false);
                            }
                        }
                    }
                }
            },
        }
    }
}

/// What removing index `i` does to both lookups, when identities and
/// channels are unique: the removed session's entries disappear and every
/// other entry is untouched.
pub proof fn lemma_lookup_after_remove(ss: Seq<Session>, i: int)
    requires
        0 <= i < ss.len(),
        forall|a: int, b: int|
            0 <= a < b < ss.len() ==> identity_of(ss[a]) != identity_of(ss[b]),
        forall|a: int, b: int| 0 <= a < b < ss.len() ==> ss[a].channel_id != ss[b].channel_id,
    ensures
        lookup_identity_in(ss.remove(i), identity_of(ss[i])) is None,
        forall|k: BotIdView|
            k != identity_of(ss[i]) ==> lookup_identity_in(ss.remove(i), k) == lookup_identity_in(
                ss,
                k,
            ),
        lookup_channel_in(ss.remove(i), ss[i].channel_id) is None,
        forall|ch: u32|
            ch != ss[i].channel_id ==> lookup_channel_in(ss.remove(i), ch) == lookup_channel_in(
                ss,
                ch,
            ),
        forall|a: int, b: int|
            0 <= a < b < ss.remove(i).len() ==> identity_of(ss.remove(i)[a]) != identity_of(
                ss.remove(i)[b],
            ),
        forall|a: int, b: int|
            0 <= a < b < ss.remove(i).len() ==> ss.remove(i)[a].channel_id != ss.remove(
                i,
            )[b].channel_id,
    decreases ss.len(),
{
    ss.remove_ensures(i);
    let rr = ss.remove(i);
    assert(forall|j: int| 0 <= j < ss.drop_first().len() ==> ss.drop_first()[j] == ss[j + 1]);
    assert forall|a: int, b: int|
        0 <= a < b < rr.len() implies identity_of(rr[a]) != identity_of(rr[b]) by {
        let a0 = if a < i { a } else { a + 1 };
        let b0 = if b < i { b } else { b + 1 };
        assert(rr[a] == ss[a0]);
        assert(rr[b] == ss[b0]);
    }
    assert forall|a: int, b: int|
        0 <= a < b < rr.len() implies rr[a].channel_id != rr[b].channel_id by {
        let a0 = if a < i { a } else { a + 1 };
        let b0 = if b < i { b } else { b + 1 };
        assert(rr[a] == ss[a0]);
        assert(rr[b] == ss[b0]);
    }
    if i == 0 {
        assert(rr =~= ss.drop_first());
        lemma_lookup_identity_props(rr, identity_of(ss[0]));
        assert forall|j: int| 0 <= j < rr.len() implies identity_of(rr[j]) != identity_of(
            ss[0],
        ) by {
            assert(rr[j] == ss[j + 1]);
        }
        lemma_lookup_channel_props(rr, ss[0].channel_id);
        assert forall|j: int| 0 <= j < rr.len() implies rr[j].channel_id != ss[0].channel_id by {
            assert(rr[j] == ss[j + 1]);
        }
    } else {
        assert(ss.drop_first().remove(i - 1) =~= rr.drop_first());
        lemma_lookup_after_remove(ss.drop_first(), i - 1);
        assert(rr[0] == ss[0]);
        assert(ss.drop_first()[i - 1] == ss[i]);
        assert(identity_of(ss[0]) != identity_of(ss[i]));
        assert(lookup_identity_in(rr, identity_of(ss[i])) == lookup_identity_in(
            rr.drop_first(),
            identity_of(ss[i]),
        ));
        assert(ss[0].channel_id != ss[i].channel_id);
        assert(lookup_channel_in(rr, ss[i].channel_id) == lookup_channel_in(
            rr.drop_first(),
            ss[i].channel_id,
        ));
        assert forall|k: BotIdView|
            k != identity_of(ss[i]) implies lookup_identity_in(rr, k) == lookup_identity_in(
            ss,
            k,
        ) by {
            if identity_of(ss[0]) != k {
                assert(lookup_identity_in(rr, k) == lookup_identity_in(rr.drop_first(), k));
                assert(lookup_identity_in(ss, k) == lookup_identity_in(ss.drop_first(), k));
            }
        }
        assert forall|ch: u32|
            ch != ss[i].channel_id implies lookup_channel_in(rr, ch) == lookup_channel_in(
            ss,
            ch,
        ) by {
            if ss[0].channel_id != ch {
                assert(lookup_channel_in(rr, ch) == lookup_channel_in(rr.drop_first(), ch));
                assert(lookup_channel_in(ss, ch) == lookup_channel_in(ss.drop_first(), ch));
            }
        }
    }
}

/// What appending a fresh session does to both lookups: entries already
/// present win (first match), the new session answers for its own identity
/// and channel, and nothing else appears.
pub proof fn lemma_lookup_after_push(ss: Seq<Session>, s: Session)
    ensures
        forall|k: BotIdView|
            #[trigger] lookup_identity_in(ss.push(s), k) == (if lookup_identity_in(ss, k)
                is Some {
                lookup_identity_in(ss, k)
            } else if identity_of(s) == k {
                Some(s)
            } else {
                None
            }),
        forall|ch: u32|
            #[trigger] lookup_channel_in(ss.push(s), ch) == (if lookup_channel_in(ss, ch)
                is Some {
                lookup_channel_in(ss, ch)
            } else if s.channel_id == ch {
                Some(s)
            } else {
                None
            }),
    decreases ss.len(),
{
    let ps = ss.push(s);
    if ss.len() == 0 {
        assert(ps[0] == s);
        assert(ps.drop_first() =~= Seq::<Session>::empty());
        assert forall|k: BotIdView|
            #[trigger] lookup_identity_in(ps, k) == (if lookup_identity_in(ss, k) is Some {
                lookup_identity_in(ss, k)
            } else if identity_of(s) == k {
                Some(s)
            } else {
                None
            }) by {
            assert(lookup_identity_in(ss, k) is None);
            if identity_of(s) != k {
                assert(lookup_identity_in(ps, k) == lookup_identity_in(ps.drop_first(), k));
            }
        }
        assert forall|ch: u32|
            #[trigger] lookup_channel_in(ps, ch) == (if lookup_channel_in(ss, ch) is Some {
                lookup_channel_in(ss, ch)
            } else if s.channel_id == ch {
                Some(s)
            } else {
                None
            }) by {
            assert(lookup_channel_in(ss, ch) is None);
            if s.channel_id != ch {
                assert(lookup_channel_in(ps, ch) == lookup_channel_in(ps.drop_first(), ch));
            }
        }
    } else {
        lemma_lookup_after_push(ss.drop_first(), s);
        assert(ps[0] == ss[0]);
        assert(ps.drop_first() =~= ss.drop_first().push(s));
        assert forall|k: BotIdView|
            #[trigger] lookup_identity_in(ps, k) == (if lookup_identity_in(ss, k) is Some {
                lookup_identity_in(ss, k)
            } else if identity_of(s) == k {
                Some(s)
            } else {
                None
            }) by {
            if identity_of(ss[0]) != k {
                assert(lookup_identity_in(ps, k) == lookup_identity_in(
                    ss.drop_first().push(s),
                    k,
                ));
                assert(lookup_identity_in(ss, k) == lookup_identity_in(ss.drop_first(), k));
            }
        }
        assert forall|ch: u32|
            #[trigger] lookup_channel_in(ps, ch) == (if lookup_channel_in(ss, ch) is Some {
                lookup_channel_in(ss, ch)
            } else if s.channel_id == ch {
                Some(s)
            } else {
                None
            }) by {
            if ss[0].channel_id != ch {
                assert(lookup_channel_in(ps, ch) == lookup_channel_in(
                    ss.drop_first().push(s),
                    ch,
                ));
                assert(lookup_channel_in(ss, ch) == lookup_channel_in(ss.drop_first(), ch));
            }
        }
    }
}


/// Registry invariant, as a law: in a well-formed registry every channel
/// entry is consistent with the identity mapping — the session a channel
/// resolves to rides that channel, and is exactly the session its own
/// identity resolves to.
pub proof fn lemma_channel_identity_consistent(r: Registry, ch: u32)
    requires
        r.wf(),
    ensures
        r.spec_lookup_channel(ch) matches Some(s) ==> s.channel_id == ch
            && r.spec_lookup_identity(identity_of(s)) == Some(s),
{
    lemma_lookup_channel_props(r.sessions@, ch);
    if r.spec_lookup_channel(ch) is Some {
        let s = lookup_channel_in(r.sessions@, ch)->0;
        let i = choose|i: int| 0 <= i < r.sessions@.len() && r.sessions@[i] == s;
        lemma_lookup_identity_at(r.sessions@, i);
    }
}

/// The identity-side counterpart of [`lemma_channel_identity_consistent`]:
/// the session an identity resolves to carries that identity, and is
/// exactly the session its channel resolves to.
pub proof fn lemma_identity_channel_consistent(r: Registry, k: BotIdView)
    requires
        r.wf(),
    ensures
        r.spec_lookup_identity(k) matches Some(s) ==> identity_of(s) == k
            && r.spec_lookup_channel(s.channel_id) == Some(s),
{
    lemma_lookup_identity_props(r.sessions@, k);
    if r.spec_lookup_identity(k) is Some {
        let s = lookup_identity_in(r.sessions@, k)->0;
        let i = choose|i: int| 0 <= i < r.sessions@.len() && r.sessions@[i] == s;
        lemma_lookup_channel_at(r.sessions@, i);
    }
}

/// What replacing index `i` by a session with the same identity and channel
/// does to both lookups: that identity and that channel now answer with the
/// new session, and every other entry is untouched.
pub proof fn lemma_lookup_after_update(ss: Seq<Session>, i: int, s2: Session)
    requires
        0 <= i < ss.len(),
        identity_of(s2) == identity_of(ss[i]),
        s2.channel_id == ss[i].channel_id,
        forall|a: int, b: int|
            0 <= a < b < ss.len() ==> identity_of(ss[a]) != identity_of(ss[b]),
        forall|a: int, b: int| 0 <= a < b < ss.len() ==> ss[a].channel_id != ss[b].channel_id,
    ensures
        forall|k: BotIdView|
            #[trigger] lookup_identity_in(ss.update(i, s2), k) == (if k == identity_of(ss[i]) {
                Some(s2)
            } else {
                lookup_identity_in(ss, k)
            }),
        forall|ch: u32|
            #[trigger] lookup_channel_in(ss.update(i, s2), ch) == (if ch == ss[i].channel_id {
                Some(s2)
            } else {
                lookup_channel_in(ss, ch)
            }),
    decreases ss.len(),
{
    let uu = ss.update(i, s2);
    assert(forall|j: int| 0 <= j < ss.len() && j != i ==> uu[j] == ss[j]);
    assert(uu[i] == s2);
    assert(forall|j: int| 0 <= j < ss.drop_first().len() ==> ss.drop_first()[j] == ss[j + 1]);
    if i == 0 {
        assert(uu.drop_first() =~= ss.drop_first());
        assert forall|k: BotIdView|
            #[trigger] lookup_identity_in(uu, k) == (if k == identity_of(ss[0]) {
                Some(s2)
            } else {
                lookup_identity_in(ss, k)
            }) by {
            if identity_of(ss[0]) != k {
                assert(lookup_identity_in(uu, k) == lookup_identity_in(uu.drop_first(), k));
                assert(lookup_identity_in(ss, k) == lookup_identity_in(ss.drop_first(), k));
            }
        }
        assert forall|ch: u32|
            #[trigger] lookup_channel_in(uu, ch) == (if ch == ss[0].channel_id {
                Some(s2)
            } else {
                lookup_channel_in(ss, ch)
            }) by {
            if ss[0].channel_id != ch {
                assert(lookup_channel_in(uu, ch) == lookup_channel_in(uu.drop_first(), ch));
                assert(lookup_channel_in(ss, ch) == lookup_channel_in(ss.drop_first(), ch));
            }
        }
    } else {
        lemma_lookup_after_update(ss.drop_first(), i - 1, s2);
        assert(uu[0] == ss[0]);
        assert(uu.drop_first() =~= ss.drop_first().update(i - 1, s2));
        assert(ss.drop_first()[i - 1] == ss[i]);
        assert(identity_of(ss[0]) != identity_of(ss[i]));
        assert(ss[0].channel_id != ss[i].channel_id);
        assert forall|k: BotIdView|
            #[trigger] lookup_identity_in(uu, k) == (if k == identity_of(ss[i]) {
                Some(s2)
            } else {
                lookup_identity_in(ss, k)
            }) by {
            if identity_of(ss[0]) != k {
                assert(lookup_identity_in(uu, k) == lookup_identity_in(uu.drop_first(), k));
                assert(lookup_identity_in(ss, k) == lookup_identity_in(ss.drop_first(), k));
            }
        }
        assert forall|ch: u32|
            #[trigger] lookup_channel_in(uu, ch) == (if ch == ss[i].channel_id {
                Some(s2)
            } else {
                lookup_channel_in(ss, ch)
            }) by {
            if ss[0].channel_id != ch {
                assert(lookup_channel_in(uu, ch) == lookup_channel_in(uu.drop_first(), ch));
                assert(lookup_channel_in(ss, ch) == lookup_channel_in(ss.drop_first(), ch));
            }
        }
    }
}


/// Whether a set of session records can form a registry: identities unique
/// and channels unique.
pub open spec fn restorable(ss: Seq<Session>) -> bool {
    &&& forall|a: int, b: int|
        0 <= a < b < ss.len() ==> identity_of(ss[a]) != identity_of(ss[b])
    &&& forall|a: int, b: int| 0 <= a < b < ss.len() ==> ss[a].channel_id != ss[b].channel_id
    &&& forall|i: int| 0 <= i < ss.len() ==> ss[i].channel_id < u32::MAX
}

/// The channel number a restored registry hands out next: one past the
/// highest restored channel, zero when nothing was restored.
pub open spec fn spec_next_channel(ss: Seq<Session>) -> int
    decreases ss.len(),
{
    if ss.len() == 0 {
        0
    } else {
        let rest = spec_next_channel(ss.drop_last());
        if ss.last().channel_id + 1 > rest {
            ss.last().channel_id + 1
        } else {
            rest
        }
    }
}

impl Registry {
    /// Rebuilds a registry from previously persisted session records.  The
    /// records restore exactly when they are consistent — no two for the
    /// same identity, no two on the same channel, and every channel number
    /// below the last one — and fresh channel numbers then continue above
    /// the highest restored one, so a number is never reused even across a
    /// restart.
    pub fn restore(sessions: Vec<Session>) -> (r: Option<Registry>)
        ensures
            r is Some <==> restorable(sessions@),
            r matches Some(reg) ==> reg.wf() && reg.sessions@ == sessions@ && reg.next_channel
                == spec_next_channel(sessions@),
    {
        let n = sessions.len();
        let mut next: u32 = 0;
        let mut i: usize = 0;
        proof {
            assert(sessions@.take(0) =~= Seq::<Session>::empty());
        }
        while i < n
            invariant
                i <= n,
                n == sessions@.len(),
                next == spec_next_channel(sessions@.take(i as int)),
                forall|k: int| 0 <= k < i ==> #[trigger] sessions@[k].channel_id < next,
                forall|k: int| 0 <= k < i ==> #[trigger] sessions@[k].channel_id < u32::MAX,
                forall|a: int, b: int|
                    0 <= a < b < i ==> identity_of(sessions@[a]) != identity_of(sessions@[b]),
                forall|a: int, b: int|
                    0 <= a < b < i ==> sessions@[a].channel_id != sessions@[b].channel_id,
            decreases n - i,
        {
            let mut j: usize = 0;
            while j < i
                invariant
                    j <= i,
                    i < n,
                    n == sessions@.len(),
                    forall|k: int|
                        0 <= k < j ==> identity_of(#[trigger] sessions@[k]) != identity_of(
                            sessions@[i as int],
                        ) && sessions@[k].channel_id != sessions@[i as int].channel_id,
                decreases i - j,
            {
                let dup_identity = sessions[j].token == sessions[i].token && sessions[j].intents
                    == sessions[i].intents;
                if dup_identity || sessions[j].channel_id == sessions[i].channel_id {
                    proof {
                        if dup_identity {
                            assert(identity_of(sessions@[j as int]) == identity_of(
                                sessions@[i as int],
                            ));
                        }
                        assert(!restorable(sessions@));
                    }
                    return None;
                }
                proof {
                    assert(identity_of(sessions@[j as int]) != identity_of(sessions@[i as int]));
                }
                j += 1;
            }
            let ch = sessions[i].channel_id;
            if ch == u32::MAX {
                proof {
                    assert(!restorable(sessions@));
                }
                return None;
            }
            if ch + 1 > next {
                next = ch + 1;
            }
            proof {
                assert(sessions@.take(i as int + 1).drop_last() =~= sessions@.take(i as int));
                assert(sessions@.take(i as int + 1).last() == sessions@[i as int]);
            }
            i += 1;
        }
        proof {
            assert(sessions@.take(n as int) =~= sessions@);
        }
        Some(Registry { sessions, next_channel: next })
    }
}

} // verus!
