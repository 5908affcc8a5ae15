//! Session registry: owns all active sessions, enforces duplicate-id
//! rejection and the exclusive-session rule, routes inbound messages, and
//! demotes stalled or idle sessions.
//!
//! Every operation takes the registry by `&mut`, so the check-then-act
//! sequences (duplicate check and insertion, exclusivity check and
//! insertion) are atomic by construction: no session can start between the
//! check and the insertion of its own entry.

use vstd::prelude::*;

use crate::consensus::sorted_unique;
use crate::errors::Error;
use crate::nodes::NodeRegistry;
use crate::session::Session;
use crate::session::SessionKind;
use crate::session::SessionMessage;
use crate::session::SessionState;
use crate::session::process_post;

verus! {

/// The message protocol version this engine speaks; payloads carrying any
/// other version are rejected before reaching a session.
pub const MESSAGE_VERSION: u64 = 1;

/// Owns the mapping from session id to active session.
pub struct SessionRegistry {
    /// The active sessions; ids are unique.
    pub sessions: Vec<Session>,
}

impl SessionRegistry {
    /// Well-formedness: unique session ids, every session well-formed.
    pub open spec fn wf(&self) -> bool {
        &&& forall|i: int, j: int|
            0 <= i < j < self.sessions@.len() ==> self.sessions@[i].id != self.sessions@[j].id
        &&& forall|i: int| 0 <= i < self.sessions@.len() ==> self.sessions@[i].wf()
    }

    /// An active session owns this id.
    pub open spec fn contains_session(&self, id: u64) -> bool {
        exists|i: int| 0 <= i < self.sessions@.len() && self.sessions@[i].id == id
    }

    /// The index of the active session owning this id.
    pub open spec fn index_of(&self, id: u64) -> int {
        choose|i: int| 0 <= i < self.sessions@.len() && self.sessions@[i].id == id
    }

    /// An exclusive session is currently active.
    pub open spec fn exclusive_active(&self) -> bool {
        exists|i: int| 0 <= i < self.sessions@.len() && self.sessions@[i].exclusive
    }

    /// Any session is currently active.
    pub open spec fn any_active(&self) -> bool {
        self.sessions@.len() > 0
    }

    /// An empty registry.
    pub fn new() -> (r: SessionRegistry)
        ensures
            r.wf(),
            r.sessions@ == Seq::<Session>::empty(),
    {
        SessionRegistry { sessions: Vec::new() }
    }

    /// Whether an active session owns this id.
    pub fn has_session(&self, id: u64) -> (r: bool)
        ensures
            r == self.contains_session(id),
    {
        let mut i: usize = 0;
        while i < self.sessions.len()
            invariant
                i <= self.sessions@.len(),
                forall|j: int| 0 <= j < i as int ==> self.sessions@[j].id != id,
            decreases self.sessions@.len() - i,
        {
            if self.sessions[i].id == id {
                return true;
            }
            i += 1;
        }
        false
    }

    /// The position of the session owning this id, if any.
    fn find_session(&self, id: u64) -> (r: Option<usize>)
        requires
            self.wf(),
        ensures
            r is Some <==> self.contains_session(id),
            r matches Some(i) ==> i < self.sessions@.len() && self.sessions@[i as int].id == id
                && i as int == self.index_of(id),
    {
        let mut i: usize = 0;
        while i < self.sessions.len()
            invariant
                self.wf(),
                i <= self.sessions@.len(),
                forall|j: int| 0 <= j < i as int ==> self.sessions@[j].id != id,
            decreases self.sessions@.len() - i,
        {
            if self.sessions[i].id == id {
                proof {
                    assert(self.contains_session(id));
                    let k = self.index_of(id);
                    if k != i as int {
                        if k < i as int {
                            assert(self.sessions@[k].id != self.sessions@[i as int].id);
                        } else {
                            assert(self.sessions@[i as int].id != self.sessions@[k].id);
                        }
                    }
                }
                return Some(i);
            }
            i += 1;
        }
        None
    }

    /// Whether an exclusive session is active.
    fn has_exclusive(&self) -> (r: bool)
        ensures
            r == self.exclusive_active(),
    {
        let mut i: usize = 0;
        while i < self.sessions.len()
            invariant
                i <= self.sessions@.len(),
                forall|j: int| 0 <= j < i as int ==> !self.sessions@[j].exclusive,
            decreases self.sessions@.len() - i,
        {
            if self.sessions[i].exclusive {
                return true;
            }
            i += 1;
        }
        false
    }

    /// Whether the session owning this id is in `Completing` state and of
    /// the server-key generation kind, if it exists at all.
    pub fn find_session_state(&self, id: u64) -> (r: Option<(bool, bool)>)
        requires
            self.wf(),
        ensures
            r is Some <==> self.contains_session(id),
            r matches Some(p) ==> {
                let s = self.sessions@[self.index_of(id)];
                p.0 == s.state is Completing && p.1 == s.kind is GenerateServerKey
            },
    {
        let found = self.find_session(id);
        match found {
            None => None,
            Some(i) => {
                let completing = match &self.sessions[i].state {
                    SessionState::Completing => true,
                    _ => false,
                };
                let generation = match &self.sessions[i].kind {
                    SessionKind::GenerateServerKey => true,
                    _ => false,
                };
                Some((completing, generation))
            },
        }
    }

    /// A reference to the state of the session owning this id, if any.
    pub fn session_state_ref(&self, id: u64) -> (r: Option<&SessionState>)
        requires
            self.wf(),
        ensures
            r is Some <==> self.contains_session(id),
            r matches Some(st) ==> st == self.sessions@[self.index_of(id)].state,
    {
        let found = self.find_session(id);
        match found {
            None => None,
            Some(i) => Some(&self.sessions[i].state),
        }
    }

    /// Starts a new session, enforcing (in this order) duplicate-id
    /// rejection, the threshold bound `0 <= threshold <= n - 1`, and the
    /// exclusivity rules. On any failure the registry is unchanged: no
    /// partial side effect is observable. On success the new session is
    /// appended in `Initial` state.
    pub fn start_session(
        &mut self,
        id: u64,
        kind: SessionKind,
        threshold: usize,
        participants: Vec<u64>,
        exclusive: bool,
        now: u64,
    ) -> (r: Result<(), Error>)
        requires
            old(self).wf(),
            sorted_unique(participants@),
        ensures
            final(self).wf(),
            start_post(
                *old(self),
                *final(self),
                id,
                kind,
                threshold,
                participants@,
                exclusive,
                now,
                r,
            ),
    {
        if self.has_session(id) {
            return Err(Error::DuplicateSessionId);
        }
        if participants.len() == 0 || threshold > participants.len() - 1 {
            return Err(Error::NotEnoughNodesForThreshold);
        }
        if self.has_exclusive() {
            return Err(Error::ExclusiveSessionActive);
        }
        if exclusive && self.sessions.len() > 0 {
            return Err(Error::HasActiveSessions);
        }
        let session = Session::new(id, kind, threshold, participants, exclusive, now);
        self.sessions.push(session);
        proof {
            assert(self.sessions@.drop_last() =~= old(self).sessions@);
            assert(self.sessions@[self.sessions@.len() - 1].id == id);
        }
        Ok(())
    }

    /// Starts the protocol for a session that is still `Initial` (or stuck
    /// in `AwaitingParticipants`): it enters the first consensus round if
    /// the quorum is achievable under current connectivity and otherwise
    /// waits for participants (see [`Session::advance`]). Fails with
    /// `NoActiveSessionWithId` iff the id is unknown and with
    /// `InvalidStateForRequest` iff the session has already advanced; on
    /// failure nothing changes.
    pub fn activate(&mut self, session_id: u64, reg: &NodeRegistry) -> (r: Result<(), Error>)
        requires
            old(self).wf(),
        ensures
            final(self).wf(),
            r == Err::<(), Error>(Error::NoActiveSessionWithId) <==> !old(self).contains_session(
                session_id,
            ),
            r == Err::<(), Error>(Error::InvalidStateForRequest) <==> (old(self).contains_session(
                session_id,
            ) && {
                let s = old(self).sessions@[old(self).index_of(session_id)];
                !(s.state is Initial || s.state is AwaitingParticipants)
            }),
            r is Err ==> *final(self) == *old(self),
            r is Ok <==> (old(self).contains_session(session_id) && {
                let s = old(self).sessions@[old(self).index_of(session_id)];
                s.state is Initial || s.state is AwaitingParticipants
            }),
            r is Ok ==> {
                let i = old(self).index_of(session_id);
                let s = old(self).sessions@[i];
                &&& final(self).sessions@ == old(self).sessions@.update(
                    i,
                    Session { state: final(self).sessions@[i].state, ..s },
                )
                &&& final(self).sessions@[i].state == (if s.tracker.contributions@.len()
                    + crate::consensus::achievable_count(
                    s.tracker.participants@,
                    s.tracker.contributions@.to_set(),
                    *reg,
                ) > s.tracker.threshold as int {
                    SessionState::ConsensusRound(1)
                } else {
                    SessionState::AwaitingParticipants
                })
            },
    {
        let found = self.find_session(session_id);
        match found {
            None => Err(Error::NoActiveSessionWithId),
            Some(i) => {
                let startable = match &self.sessions[i].state {
                    SessionState::Initial => true,
                    SessionState::AwaitingParticipants => true,
                    _ => false,
                };
                if !startable {
                    return Err(Error::InvalidStateForRequest);
                }
                let ghost olds = self.sessions@;
                let mut session = self.sessions.remove(i);
                session.advance(reg);
                self.sessions.insert(i, session);
                proof {
                    lemma_remove_insert_is_update(olds, i as int, self.sessions@[i as int]);
                    assert(self.sessions@ == olds.update(i as int, self.sessions@[i as int]));
                }
                Ok(())
            },
        }
    }

    /// Routes an inbound peer message to the session owning `session_id`:
    /// rejected with `NoActiveSessionWithId` if there is none and with
    /// `InvalidMessageVersion` if the payload's protocol version is
    /// unsupported, in both cases leaving the registry unchanged; otherwise
    /// exactly that session processes the message (see
    /// [`crate::session::process_post`]) and all other sessions are
    /// untouched.
    pub fn dispatch(
        &mut self,
        session_id: u64,
        msg: &SessionMessage,
        reg: &NodeRegistry,
        now: u64,
    ) -> (r: Result<(), Error>)
        requires
            old(self).wf(),
        ensures
            final(self).wf(),
            r == Err::<(), Error>(Error::NoActiveSessionWithId) <==> !old(self).contains_session(
                session_id,
            ),
            (old(self).contains_session(session_id) && msg.version != MESSAGE_VERSION) ==> (r
                == Err::<(), Error>(Error::InvalidMessageVersion) && *final(self) == *old(self)),
            !old(self).contains_session(session_id) ==> *final(self) == *old(self),
            (old(self).contains_session(session_id) && msg.version == MESSAGE_VERSION) ==> {
                let i = old(self).index_of(session_id);
                &&& r != Err::<(), Error>(Error::InvalidMessageVersion)
                &&& final(self).sessions@.len() == old(self).sessions@.len()
                &&& (forall|j: int|
                    0 <= j < old(self).sessions@.len() && j != i ==> final(self).sessions@[j]
                        == old(self).sessions@[j])
                &&& process_post(
                    old(self).sessions@[i],
                    final(self).sessions@[i],
                    *msg,
                    *reg,
                    now,
                    r,
                )
            },
    {
        let found = self.find_session(session_id);
        match found {
            None => Err(Error::NoActiveSessionWithId),
            Some(i) => {
                if msg.version != MESSAGE_VERSION {
                    return Err(Error::InvalidMessageVersion);
                }
                let ghost olds = self.sessions@;
                let mut session = self.sessions.remove(i);
                let r = session.process(msg, reg, now);
                self.sessions.insert(i, session);
                proof {
                    let news = self.sessions@;
                    lemma_remove_insert_is_update(olds, i as int, news[i as int]);
                    assert(news == olds.update(i as int, news[i as int]));
                    assert(news[i as int].id == olds[i as int].id);
                    assert forall|a: int, b: int|
                        0 <= a < b < news.len() implies news[a].id != news[b].id by {
                        assert(olds[a].id != olds[b].id);
                    }
                }
                r
            },
        }
    }

    /// Marks the session terminal and removes it from the active set,
    /// returning it so the caller can surface its outcome. Fails with
    /// `NoActiveSessionWithId`, leaving the registry unchanged, iff no
    /// active session owns the id; afterwards the id is free again.
    pub fn complete(&mut self, session_id: u64) -> (r: Result<Session, Error>)
        requires
            old(self).wf(),
        ensures
            final(self).wf(),
            r is Ok <==> old(self).contains_session(session_id),
            r is Err ==> r == Err::<Session, Error>(Error::NoActiveSessionWithId) && *final(self)
                == *old(self),
            r matches Ok(s) ==> {
                let i = old(self).index_of(session_id);
                &&& s == old(self).sessions@[i]
                &&& s.id == session_id
                &&& final(self).sessions@ == old(self).sessions@.remove(i)
                &&& !final(self).contains_session(session_id)
            },
    {
        let found = self.find_session(session_id);
        match found {
            None => Err(Error::NoActiveSessionWithId),
            Some(i) => {
                let ghost olds = self.sessions@;
                let session = self.sessions.remove(i);
                proof {
                    olds.remove_ensures(i as int);
                    assert forall|j: int|
                        0 <= j < self.sessions@.len() implies self.sessions@[j].id
                        != session_id by {
                        if j < i as int {
                            assert(self.sessions@[j] == olds[j]);
                        } else {
                            assert(self.sessions@[j] == olds[j + 1]);
                        }
                    }
                }
                Ok(session)
            },
        }
    }

    /// The periodic idle sweep: every session idle past the timeout (no
    /// accepted activity at or after `now - timeout`) is demoted to
    /// `Failed(ConsensusTemporaryUnreachable)`, the retry-safe kind;
    /// everything else is untouched.
    pub fn sweep_idle(&mut self, now: u64, timeout: u64)
        requires
            old(self).wf(),
        ensures
            final(self).wf(),
            final(self).sessions@.len() == old(self).sessions@.len(),
            forall|i: int|
                0 <= i < old(self).sessions@.len() ==> final(self).sessions@[i] == (if is_idle(
                    old(self).sessions@[i],
                    now,
                    timeout,
                ) && !(old(self).sessions@[i].state is Failed) {
                    Session {
                        state: SessionState::Failed(Error::ConsensusTemporaryUnreachable),
                        ..old(self).sessions@[i]
                    }
                } else {
                    old(self).sessions@[i]
                }),
    {
        let mut i: usize = 0;
        while i < self.sessions.len()
            invariant
                old(self).wf(),
                i <= self.sessions@.len(),
                self.sessions@.len() == old(self).sessions@.len(),
                forall|j: int|
                    i as int <= j < old(self).sessions@.len() ==> self.sessions@[j] == old(
                        self,
                    ).sessions@[j],
                forall|j: int|
                    0 <= j < i as int ==> self.sessions@[j] == (if is_idle(
                        old(self).sessions@[j],
                        now,
                        timeout,
                    ) && !(old(self).sessions@[j].state is Failed) {
                        Session {
                            state: SessionState::Failed(Error::ConsensusTemporaryUnreachable),
                            ..old(self).sessions@[j]
                        }
                    } else {
                        old(self).sessions@[j]
                    }),
            decreases self.sessions@.len() - i,
        {
            let idle = now >= timeout && now - timeout >= self.sessions[i].last_activity;
            if idle {
                let ghost olds = self.sessions@;
                let mut session = self.sessions.remove(i);
                session.mark_idle_failed();
                self.sessions.insert(i, session);
                proof {
                    lemma_remove_insert_is_update(olds, i as int, self.sessions@[i as int]);
                    assert(self.sessions@ == olds.update(i as int, self.sessions@[i as int]));
                }
            }
            i += 1;
        }
    }

    /// Demotes every session whose round has stalled past the per-round
    /// wait deadline to `Failed(ConsensusUnreachable)` (see
    /// [`Session::expire_round`]); everything else is untouched.
    pub fn expire_rounds(&mut self, now: u64, deadline: u64)
        requires
            old(self).wf(),
        ensures
            final(self).wf(),
            final(self).sessions@.len() == old(self).sessions@.len(),
            forall|i: int|
                0 <= i < old(self).sessions@.len() ==> final(self).sessions@[i] == (if (old(
                    self,
                ).sessions@[i].state is ConsensusRound || old(
                    self,
                ).sessions@[i].state is VersionCheck) && now >= deadline && now - deadline >= old(
                    self,
                ).sessions@[i].last_activity {
                    Session {
                        state: SessionState::Failed(Error::ConsensusUnreachable),
                        ..old(self).sessions@[i]
                    }
                } else {
                    old(self).sessions@[i]
                }),
    {
        let mut i: usize = 0;
        while i < self.sessions.len()
            invariant
                old(self).wf(),
                i <= self.sessions@.len(),
                self.sessions@.len() == old(self).sessions@.len(),
                forall|j: int|
                    i as int <= j < old(self).sessions@.len() ==> self.sessions@[j] == old(
                        self,
                    ).sessions@[j],
                forall|j: int|
                    0 <= j < i as int ==> self.sessions@[j] == (if (old(
                        self,
                    ).sessions@[j].state is ConsensusRound || old(
                        self,
                    ).sessions@[j].state is VersionCheck) && now >= deadline && now - deadline
                        >= old(self).sessions@[j].last_activity {
                        Session {
                            state: SessionState::Failed(Error::ConsensusUnreachable),
                            ..old(self).sessions@[j]
                        }
                    } else {
                        old(self).sessions@[j]
                    }),
            decreases self.sessions@.len() - i,
        {
            let ghost olds = self.sessions@;
            let mut session = self.sessions.remove(i);
            session.expire_round(now, deadline);
            self.sessions.insert(i, session);
            proof {
                lemma_remove_insert_is_update(olds, i as int, self.sessions@[i as int]);
                assert(self.sessions@ == olds.update(i as int, self.sessions@[i as int]));
            }
            i += 1;
        }
    }
}

/// Removing the element at `i` and inserting `x` back at `i` is the same as
/// updating position `i` to `x`.
pub(crate) proof fn lemma_remove_insert_is_update<T>(s: Seq<T>, i: int, x: T)
    requires
        0 <= i < s.len(),
    ensures
        s.remove(i).insert(i, x) == s.update(i, x),
{
    s.remove_ensures(i);
    s.remove(i).insert_ensures(i, x);
    assert(s.remove(i).insert(i, x) =~= s.update(i, x));
}

/// A session is idle at `now` under `timeout` when its last accepted
/// activity lies at least `timeout` ticks in the past.
pub open spec fn is_idle(s: Session, now: u64, timeout: u64) -> bool {
    now >= timeout && now - timeout >= s.last_activity
}

/// Exactly what [`SessionRegistry::start_session`] does: each failure kind
/// is reported if and only if it is the first of the checks (duplicate id,
/// threshold bound, exclusive session active, exclusive request with other
/// sessions active) to fail, and leaves the registry unchanged; on success
/// the new session is appended in `Initial` state with the given attributes.
pub open spec fn start_post(
    pre: SessionRegistry,
    post: SessionRegistry,
    id: u64,
    kind: SessionKind,
    threshold: usize,
    participants: Seq<u64>,
    exclusive: bool,
    now: u64,
    r: Result<(), Error>,
) -> bool {
    let dup = pre.contains_session(id);
    let threshold_ok = participants.len() > 0 && (threshold as int) < participants.len();
    &&& (r == Err::<(), Error>(Error::DuplicateSessionId) <==> dup)
    &&& (r == Err::<(), Error>(Error::NotEnoughNodesForThreshold) <==> (!dup && !threshold_ok))
    &&& (r == Err::<(), Error>(Error::ExclusiveSessionActive) <==> (!dup && threshold_ok
        && pre.exclusive_active()))
    &&& (r == Err::<(), Error>(Error::HasActiveSessions) <==> (!dup && threshold_ok
        && !pre.exclusive_active() && exclusive && pre.any_active()))
    &&& (r is Ok <==> (!dup && threshold_ok && !pre.exclusive_active() && !(exclusive
        && pre.any_active())))
    &&& (r is Err ==> post == pre)
    &&& (r is Ok ==> {
        let s = post.sessions@.last();
        &&& post.sessions@.len() == pre.sessions@.len() + 1
        &&& post.sessions@.drop_last() == pre.sessions@
        &&& s.id == id
        &&& s.kind == kind
        &&& s.exclusive == exclusive
        &&& s.tracker.threshold == threshold
        &&& s.tracker.participants@ == participants
        &&& s.tracker.contributions@ == Seq::<u64>::empty()
        &&& s.state == SessionState::Initial
        &&& s.round_value is None
        &&& s.seen@ == Seq::<crate::session::PeerRound>::empty()
        &&& s.version_votes@ == Seq::<crate::session::NodeVersion>::empty()
        &&& s.agreed_version is None
        &&& s.created_at == now
        &&& s.last_activity == now
        &&& post.contains_session(id)
    })
}

/// With no duplicate id and no exclusivity conflict in the way, starting a
/// session succeeds if and only if `0 <= threshold <= n - 1` for `n`
/// participants; otherwise it fails with the threshold-violation kind and
/// no session is inserted.
pub proof fn lemma_threshold_governs_start(
    pre: SessionRegistry,
    post: SessionRegistry,
    id: u64,
    kind: SessionKind,
    threshold: usize,
    participants: Seq<u64>,
    exclusive: bool,
    now: u64,
    r: Result<(), Error>,
)
    requires
        start_post(pre, post, id, kind, threshold, participants, exclusive, now, r),
        !pre.contains_session(id),
        !pre.exclusive_active(),
        !(exclusive && pre.any_active()),
    ensures
        r is Ok <==> (participants.len() > 0 && (threshold as int) <= participants.len() - 1),
        !(r is Ok) ==> r == Err::<(), Error>(Error::NotEnoughNodesForThreshold) && post == pre,
{
}

/// Starting two sessions with the same id one after the other: the first
/// succeeds, the second fails with the duplicate-id kind and changes
/// nothing. Starts are atomic check-then-insert (they take the registry by
/// `&mut`), so no interleaved state is observable between the two.
pub proof fn lemma_duplicate_id_rejected(
    s0: SessionRegistry,
    s1: SessionRegistry,
    s2: SessionRegistry,
    id: u64,
    kind1: SessionKind,
    kind2: SessionKind,
    threshold: usize,
    participants: Seq<u64>,
    now: u64,
    r2: Result<(), Error>,
)
    requires
        start_post(s0, s1, id, kind1, threshold, participants, false, now, Ok(())),
        start_post(s1, s2, id, kind2, threshold, participants, false, now, r2),
    ensures
        r2 == Err::<(), Error>(Error::DuplicateSessionId),
        s2 == s1,
{
}

/// Starting an exclusive session while any other session is active fails
/// with the exclusivity-conflict kind and changes nothing; once the active
/// session has terminated (and the registry is otherwise empty), the same
/// exclusive start succeeds.
pub proof fn lemma_exclusive_start_conflict(
    s0: SessionRegistry,
    s1: SessionRegistry,
    s2: SessionRegistry,
    s3: SessionRegistry,
    id: u64,
    kind: SessionKind,
    threshold: usize,
    participants: Seq<u64>,
    now: u64,
    r1: Result<(), Error>,
    r3: Result<(), Error>,
)
    requires
        s0.any_active(),
        !s0.contains_session(id),
        participants.len() > 0,
        (threshold as int) < participants.len(),
        start_post(s0, s1, id, kind, threshold, participants, true, now, r1),
        !s2.any_active(),
        start_post(s2, s3, id, kind, threshold, participants, true, now, r3),
    ensures
        r1 == Err::<(), Error>(Error::ExclusiveSessionActive) || r1 == Err::<(), Error>(
            Error::HasActiveSessions,
        ),
        !s0.exclusive_active() ==> r1 == Err::<(), Error>(Error::HasActiveSessions),
        s1 == s0,
        r3 is Ok,
{
    assert(!s2.contains_session(id));
    assert(!s2.exclusive_active());
}

} // verus!
