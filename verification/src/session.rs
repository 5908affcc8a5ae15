//! Session: one instance of a multi-round protocol execution, driven by
//! incoming peer messages.
//!
//! A session moves through `Initial`, `AwaitingParticipants`,
//! `ConsensusRound(_)`, for retrieval kinds `VersionCheck`, and finally
//! `Completing` or `Failed(_)`. It embeds a [`ConsensusTracker`] for the
//! current round, tracks the highest round number seen per peer for replay
//! protection, and for retrieval kinds collects key-version votes and
//! computes the canonical majority version.

use vstd::prelude::*;

use crate::consensus::ConsensusDecision;
use crate::consensus::ConsensusTracker;
use crate::consensus::achievable_count;
use crate::consensus::contains_id;
use crate::consensus::sorted_unique;
use crate::errors::Error;
use crate::nodes::NodeRegistry;

verus! {

/// The kind of multi-party operation a session runs.
pub enum SessionKind {
    /// Generate a new threshold-shared server key.
    GenerateServerKey,
    /// Retrieve (combine) an existing server key.
    RetrieveServerKey,
    /// Store a document key bound to a server key.
    StoreDocumentKey,
    /// Retrieve a document key.
    RetrieveDocumentKey,
    /// Reconcile divergent server-key versions after partial failures.
    NegotiateKeyVersion,
}

impl SessionKind {
    /// Retrieval kinds must agree on the key version generation produced on
    /// a quorum of nodes before completing.
    pub open spec fn needs_version_check(&self) -> bool {
        *self is RetrieveServerKey || *self is RetrieveDocumentKey
    }

    /// Executable form of [`SessionKind::needs_version_check`].
    pub fn requires_version_check(&self) -> (r: bool)
        ensures
            r == self.needs_version_check(),
    {
        match self {
            SessionKind::RetrieveServerKey => true,
            SessionKind::RetrieveDocumentKey => true,
            SessionKind::GenerateServerKey => false,
            SessionKind::StoreDocumentKey => false,
            SessionKind::NegotiateKeyVersion => false,
        }
    }
}

/// The session's current position in its lifecycle.
pub enum SessionState {
    /// Created, not yet started.
    Initial,
    /// Waiting until enough live participants exist for the quorum to be
    /// achievable at all.
    AwaitingParticipants,
    /// Collecting contributions for the given protocol round.
    ConsensusRound(u64),
    /// Quorum reached for a retrieval kind; reconciling the key version.
    VersionCheck,
    /// The protocol work is done; the result can be finalized and surfaced.
    Completing,
    /// Terminally failed with the given error.
    Failed(Error),
}

/// The payload of an inbound message.
pub enum MessageBody {
    /// A participant's share/vote for the current consensus round.
    Contribution(u64),
    /// A participant's key-version vote during the version check.
    VersionVote(u64),
    /// Ask the session to finalize: only valid once it is `Completing`.
    Finalize,
    /// An external requester polling for the session's result.
    Request,
}

impl MessageBody {
    /// Peer protocol messages consume a (session, peer, round) slot and are
    /// subject to replay protection; requester polls are not.
    pub open spec fn consumes_round(&self) -> bool {
        *self is Contribution || *self is VersionVote
    }
}

/// A versioned, peer-addressed inbound message.
pub struct SessionMessage {
    /// Sender node id.
    pub sender: u64,
    /// Protocol version of the payload.
    pub version: u64,
    /// Protocol round number the message belongs to.
    pub round: u64,
    /// The payload.
    pub body: MessageBody,
}

/// Highest round number consumed for one peer (replay protection).
pub struct PeerRound {
    /// Peer node id.
    pub peer: u64,
    /// Highest round number already consumed for this peer.
    pub round: u64,
}

/// One participant's key-version vote.
pub struct NodeVersion {
    /// Voter node id.
    pub node: u64,
    /// The key version it reports.
    pub version: u64,
}

/// A message round is acceptable for a peer iff it is strictly above every
/// round already consumed for that peer (no record means any round is new).
pub open spec fn replay_ok(seen: Seq<PeerRound>, peer: u64, round: u64) -> bool {
    forall|i: int| 0 <= i < seen.len() && seen[i].peer == peer ==> seen[i].round < round
}

/// How many of the votes are for version `v`.
pub open spec fn count_version(votes: Seq<NodeVersion>, v: u64) -> nat
    decreases votes.len(),
{
    if votes.len() == 0 {
        0
    } else {
        count_version(votes.drop_last(), v) + (if votes.last().version == v {
            1nat
        } else {
            0nat
        })
    }
}

/// The node has already cast a version vote.
pub open spec fn voted(votes: Seq<NodeVersion>, node: u64) -> bool {
    exists|i: int| 0 <= i < votes.len() && votes[i].node == node
}

/// `v` is the canonical majority version: it occurs among the votes, no
/// version has more votes, and among equally-voted versions it is the
/// lowest.
pub open spec fn is_best_version(votes: Seq<NodeVersion>, v: u64) -> bool {
    &&& (exists|i: int| 0 <= i < votes.len() && votes[i].version == v)
    &&& forall|i: int|
        0 <= i < votes.len() ==> (count_version(votes, #[trigger] votes[i].version)
            < count_version(votes, v) || (count_version(votes, votes[i].version) == count_version(
            votes,
            v,
        ) && v <= votes[i].version))
}

/// Some version has gathered at least `quorum` votes.
pub open spec fn version_quorum(votes: Seq<NodeVersion>, quorum: int) -> bool {
    exists|v: u64| count_version(votes, v) >= quorum
}

/// One instance of a multi-party protocol execution.
pub struct Session {
    /// Session id: unique across all currently active sessions.
    pub id: u64,
    /// The operation this session runs.
    pub kind: SessionKind,
    /// An exclusive session runs with no other session active cluster-wide.
    pub exclusive: bool,
    /// Per-round contribution accumulator (threshold and participants).
    pub tracker: ConsensusTracker,
    /// Lifecycle position.
    pub state: SessionState,
    /// The value valid contributions of the current round must match; fixed
    /// by the first contribution.
    pub round_value: Option<u64>,
    /// Highest round number consumed per peer (replay protection); at most
    /// one entry per peer.
    pub seen: Vec<PeerRound>,
    /// Key-version votes collected during `VersionCheck`; at most one entry
    /// per node.
    pub version_votes: Vec<NodeVersion>,
    /// The majority key version, once the version check has succeeded.
    pub agreed_version: Option<u64>,
    /// Creation timestamp.
    pub created_at: u64,
    /// Timestamp of the last accepted message (idle-sweep input).
    pub last_activity: u64,
}

impl Session {
    /// Well-formedness: a valid tracker, at most one replay record per peer
    /// and at most one version vote per node, every voter a participant.
    pub open spec fn wf(&self) -> bool {
        &&& self.tracker.wf()
        &&& forall|i: int, j: int|
            0 <= i < j < self.seen@.len() ==> self.seen@[i].peer != self.seen@[j].peer
        &&& forall|i: int, j: int|
            0 <= i < j < self.version_votes@.len() ==> self.version_votes@[i].node
                != self.version_votes@[j].node
        &&& forall|i: int|
            0 <= i < self.version_votes@.len() ==> self.tracker.participants@.contains(
                self.version_votes@[i].node,
            )
    }

    /// The node is a declared participant of this session.
    pub open spec fn participant(&self, node: u64) -> bool {
        self.tracker.participants@.contains(node)
    }

    /// The message arrived before the session can serve it: a timing issue,
    /// the caller should retry once the session has advanced.
    pub open spec fn msg_too_early(&self, body: MessageBody) -> bool {
        match body {
            MessageBody::Contribution(_) => self.state is Initial
                || self.state is AwaitingParticipants,
            MessageBody::VersionVote(_) => self.state is Initial
                || self.state is AwaitingParticipants || self.state is ConsensusRound,
            MessageBody::Request => self.state is Initial || self.state is AwaitingParticipants
                || self.state is ConsensusRound || self.state is VersionCheck,
            MessageBody::Finalize => false,
        }
    }

    /// The current state does not expect this message at all: a misbehavior
    /// signal, not a timing issue. (A contribution or version vote arriving
    /// after its phase has already decided is neither: it is an extra,
    /// discarded without effect.)
    pub open spec fn msg_invalid_state(&self, body: MessageBody) -> bool {
        match body {
            MessageBody::Contribution(_) => self.state is Failed,
            MessageBody::VersionVote(_) => self.state is Failed,
            MessageBody::Request => self.state is Failed,
            MessageBody::Finalize => !(self.state is Completing),
        }
    }

    /// The phase that consumes this message's round is still open: only then
    /// is the round number consumed (and replay-checked) at all.
    pub open spec fn msg_collecting(&self, body: MessageBody) -> bool {
        match body {
            MessageBody::Contribution(_) => self.state is ConsensusRound,
            MessageBody::VersionVote(_) => self.state is VersionCheck,
            MessageBody::Request => false,
            MessageBody::Finalize => false,
        }
    }

    /// A contribution value that contradicts the value fixed for the round
    /// (checked only while the round is still collecting; extras arriving
    /// after the decision are discarded unread).
    pub open spec fn msg_mismatched(&self, body: MessageBody) -> bool {
        match body {
            MessageBody::Contribution(v) => self.state is ConsensusRound && match self.round_value {
                Some(w) => w != v,
                None => false,
            },
            _ => false,
        }
    }

    /// Creates a session in `Initial` state with no contributions, no
    /// consumed rounds and no version votes.
    pub fn new(
        id: u64,
        kind: SessionKind,
        threshold: usize,
        participants: Vec<u64>,
        exclusive: bool,
        now: u64,
    ) -> (r: Session)
        requires
            sorted_unique(participants@),
            (threshold as int) < participants@.len(),
        ensures
            r.wf(),
            r.id == id,
            r.kind == kind,
            r.exclusive == exclusive,
            r.tracker.threshold == threshold,
            r.tracker.participants == participants,
            r.tracker.contributions@ == Seq::<u64>::empty(),
            r.state == SessionState::Initial,
            r.round_value is None,
            r.seen@ == Seq::<PeerRound>::empty(),
            r.version_votes@ == Seq::<NodeVersion>::empty(),
            r.agreed_version is None,
            r.created_at == now,
            r.last_activity == now,
    {
        Session {
            id,
            kind,
            exclusive,
            tracker: ConsensusTracker::new(threshold, participants),
            state: SessionState::Initial,
            round_value: None,
            seen: Vec::new(),
            version_votes: Vec::new(),
            agreed_version: None,
            created_at: now,
            last_activity: now,
        }
    }

    /// Consumes the message's round for the sender: rejected as a replay iff
    /// the round is at or below a round already consumed for that peer.
    /// Rounds of other peers are unaffected.
    pub fn note_round(&mut self, peer: u64, round: u64) -> (r: Result<(), Error>)
        requires
            old(self).wf(),
        ensures
            final(self).wf(),
            r is Ok <==> replay_ok(old(self).seen@, peer, round),
            r is Err ==> r == Err::<(), Error>(Error::ReplayProtection) && *final(self) == *old(
                self,
            ),
            final(self).id == old(self).id,
            final(self).kind == old(self).kind,
            final(self).exclusive == old(self).exclusive,
            final(self).tracker == old(self).tracker,
            final(self).state == old(self).state,
            final(self).round_value == old(self).round_value,
            final(self).version_votes == old(self).version_votes,
            final(self).agreed_version == old(self).agreed_version,
            final(self).created_at == old(self).created_at,
            final(self).last_activity == old(self).last_activity,
            r is Ok ==> !replay_ok(final(self).seen@, peer, round),
            r is Ok ==> forall|rd: u64|
                replay_ok(final(self).seen@, peer, rd) <==> rd > round,
            forall|p: u64, rd: u64|
                p != peer ==> (replay_ok(final(self).seen@, p, rd) <==> replay_ok(
                    old(self).seen@,
                    p,
                    rd,
                )),
    {
        let ghost olds = self.seen@;
        let mut i: usize = 0;
        while i < self.seen.len()
            invariant
                self == old(self),
                olds == self.seen@,
                old(self).wf(),
                i <= self.seen@.len(),
                forall|j: int| 0 <= j < i as int ==> self.seen@[j].peer != peer,
            decreases self.seen@.len() - i,
        {
            if self.seen[i].peer == peer {
                if round <= self.seen[i].round {
                    proof {
                        assert(olds[i as int].peer == peer && !(olds[i as int].round < round));
                        assert(!replay_ok(olds, peer, round));
                    }
                    return Err(Error::ReplayProtection);
                }
                let entry = PeerRound { peer, round };
                self.seen.set(i, entry);
                proof {
                    let news = self.seen@;
                    assert forall|j: int|
                        0 <= j < olds.len() && olds[j].peer == peer implies j == i as int by {
                        if j > i as int {
                            assert(olds[i as int].peer != olds[j].peer);
                        }
                    }
                    assert(replay_ok(olds, peer, round));
                    assert(news[i as int].peer == peer && news[i as int].round == round);
                    assert(forall|j: int|
                        0 <= j < news.len() && j != i as int ==> news[j] == olds[j]);
                    assert(forall|j: int|
                        0 <= j < news.len() && news[j].peer == peer ==> j == i as int);
                    assert forall|a: int, b: int|
                        0 <= a < b < news.len() implies news[a].peer != news[b].peer by {
                        assert(olds[a].peer != olds[b].peer);
                        assert(news[a].peer == olds[a].peer && news[b].peer == olds[b].peer);
                    }
                }
                return Ok(());
            }
            i += 1;
        }
        let entry = PeerRound { peer, round };
        self.seen.push(entry);
        proof {
            let news = self.seen@;
            assert(forall|j: int| 0 <= j < olds.len() ==> news[j] == olds[j]);
            assert(forall|j: int| 0 <= j < olds.len() ==> news[j].peer != peer);
            assert(news[olds.len() as int].peer == peer && news[olds.len() as int].round == round);
            assert(forall|j: int|
                0 <= j < news.len() && news[j].peer == peer ==> j == olds.len() as int);
        }
        Ok(())
    }

    /// Starts the session: from `Initial` or `AwaitingParticipants`, enters
    /// the first consensus round if the quorum is achievable under current
    /// connectivity, and otherwise (re-)enters `AwaitingParticipants`.
    pub fn advance(&mut self, reg: &NodeRegistry)
        requires
            old(self).wf(),
            old(self).state is Initial || old(self).state is AwaitingParticipants,
        ensures
            final(self).wf(),
            *final(self) == (Session {
                state: final(self).state,
                ..*old(self)
            }),
            final(self).state == (if old(self).tracker.contributions@.len() + achievable_count(
                old(self).tracker.participants@,
                old(self).tracker.contributions@.to_set(),
                *reg,
            ) > old(self).tracker.threshold as int {
                SessionState::ConsensusRound(1)
            } else {
                SessionState::AwaitingParticipants
            }),
    {
        let decision = self.tracker.decide(reg);
        match decision {
            ConsensusDecision::Unreachable => {
                self.state = SessionState::AwaitingParticipants;
            },
            _ => {
                self.state = SessionState::ConsensusRound(1);
            },
        }
    }

    /// Routes one inbound message through the session state machine.
    ///
    /// Checks run in this order, each condition reported if and only if it
    /// is the first to hold: unknown sender (`InvalidNodeForRequest`), too
    /// early for the current state (`TooEarlyForRequest`), not expected by
    /// the current state at all (`InvalidStateForRequest`), a contribution
    /// contradicting the round's fixed value (`InvalidMessage`), a consumed
    /// round number (`ReplayProtection`). An accepted contribution is
    /// recorded and the round decided: on quorum the session advances to
    /// `VersionCheck` (retrieval kinds) or `Completing`; if the quorum has
    /// become unreachable it fails with `ConsensusUnreachable`. An accepted
    /// version vote is recorded; when some version gathers a quorum of votes
    /// the session completes with the canonical majority version, and when
    /// all participants have voted without any version reaching quorum it
    /// fails with `ConsensusUnreachable`.
    pub fn process(&mut self, msg: &SessionMessage, reg: &NodeRegistry, now: u64) -> (r: Result<
        (),
        Error,
    >)
        requires
            old(self).wf(),
        ensures
            final(self).wf(),
            process_post(*old(self), *final(self), *msg, *reg, now, r),
    {
        if !contains_id(&self.tracker.participants, msg.sender) {
            return Err(Error::InvalidNodeForRequest);
        }
        let too_early = match (&msg.body, &self.state) {
            (MessageBody::Contribution(_), SessionState::Initial) => true,
            (MessageBody::Contribution(_), SessionState::AwaitingParticipants) => true,
            (MessageBody::VersionVote(_), SessionState::Initial) => true,
            (MessageBody::VersionVote(_), SessionState::AwaitingParticipants) => true,
            (MessageBody::VersionVote(_), SessionState::ConsensusRound(_)) => true,
            (MessageBody::Request, SessionState::Initial) => true,
            (MessageBody::Request, SessionState::AwaitingParticipants) => true,
            (MessageBody::Request, SessionState::ConsensusRound(_)) => true,
            (MessageBody::Request, SessionState::VersionCheck) => true,
            _ => false,
        };
        if too_early {
            return Err(Error::TooEarlyForRequest);
        }
        let invalid_state = match (&msg.body, &self.state) {
            (MessageBody::Contribution(_), SessionState::Failed(_)) => true,
            (MessageBody::VersionVote(_), SessionState::Failed(_)) => true,
            (MessageBody::Request, SessionState::Failed(_)) => true,
            (MessageBody::Finalize, SessionState::Completing) => false,
            (MessageBody::Finalize, _) => true,
            _ => false,
        };
        if invalid_state {
            return Err(Error::InvalidStateForRequest);
        }
        let in_round = match &self.state {
            SessionState::ConsensusRound(_) => true,
            _ => false,
        };
        let mismatched = in_round && match (&msg.body, &self.round_value) {
            (MessageBody::Contribution(v), Some(w)) => *v != *w,
            _ => false,
        };
        if mismatched {
            return Err(Error::InvalidMessage);
        }
        match &msg.body {
            MessageBody::Request => {
                self.last_activity = now;
                Ok(())
            },
            MessageBody::Finalize => {
                self.last_activity = now;
                Ok(())
            },
            MessageBody::Contribution(v) => {
                if !in_round {
                    return Ok(());
                }
                let value = *v;
                let r = self.note_round(msg.sender, msg.round);
                if r.is_err() {
                    return r;
                }
                self.last_activity = now;
                self.round_value = Some(value);
                if !self.tracker.has_contributed(msg.sender) {
                    self.tracker.insert_contribution(msg.sender);
                }
                proof {
                    assert(self.tracker.contributions@.to_set() =~= old(
                        self,
                    ).tracker.contributions@.to_set().insert(msg.sender));
                }
                let decision = self.tracker.decide(reg);
                match decision {
                    ConsensusDecision::Proceed(_) => {
                        if self.kind.requires_version_check() {
                            self.state = SessionState::VersionCheck;
                        } else {
                            self.state = SessionState::Completing;
                        }
                        Ok(())
                    },
                    ConsensusDecision::Wait => Ok(()),
                    ConsensusDecision::Unreachable => {
                        self.state = SessionState::Failed(Error::ConsensusUnreachable);
                        Err(Error::ConsensusUnreachable)
                    },
                }
            },
            MessageBody::VersionVote(ver) => {
                let in_version_check = match &self.state {
                    SessionState::VersionCheck => true,
                    _ => false,
                };
                if !in_version_check {
                    return Ok(());
                }
                let version = *ver;
                let r = self.note_round(msg.sender, msg.round);
                if r.is_err() {
                    return r;
                }
                self.last_activity = now;
                if !has_voted(&self.version_votes, msg.sender) {
                    let vote = NodeVersion { node: msg.sender, version };
                    self.version_votes.push(vote);
                }
                let n = self.tracker.participants.len();
                let quorum = self.tracker.threshold + 1;
                let best = best_version(&self.version_votes);
                match best {
                    Some((v, c)) => {
                        if c >= quorum {
                            self.agreed_version = Some(v);
                            self.state = SessionState::Completing;
                            proof {
                                assert(version_quorum(self.version_votes@, quorum as int)) by {
                                    assert(count_version(self.version_votes@, v) >= quorum as int);
                                }
                            }
                            Ok(())
                        } else {
                            proof {
                                let votes = self.version_votes@;
                                assert forall|w: u64|
                                    !(count_version(votes, w) >= quorum as int) by {
                                    lemma_count_version_pos(votes, w);
                                    if count_version(votes, w) > 0 {
                                        let k = choose|k: int|
                                            0 <= k < votes.len() && votes[k].version == w;
                                        assert(count_version(votes, votes[k].version)
                                            <= count_version(votes, v));
                                    }
                                }
                                assert(!version_quorum(votes, quorum as int));
                            }
                            if self.version_votes.len() == n {
                                self.state = SessionState::Failed(Error::ConsensusUnreachable);
                                Err(Error::ConsensusUnreachable)
                            } else {
                                Ok(())
                            }
                        }
                    },
                    None => {
                        proof {
                            assert(voted(self.version_votes@, msg.sender));
                            assert(false);
                        }
                        Ok(())
                    },
                }
            },
        }
    }

    /// Demotes a stalled round: once the per-round wait deadline has passed,
    /// a session still collecting contributions or version votes fails
    /// permanently with `ConsensusUnreachable`.
    pub fn expire_round(&mut self, now: u64, deadline: u64)
        requires
            old(self).wf(),
        ensures
            final(self).wf(),
            *final(self) == (Session {
                state: final(self).state,
                ..*old(self)
            }),
            final(self).state == (if (old(self).state is ConsensusRound || old(
                self,
            ).state is VersionCheck) && now >= deadline && now - deadline
                >= old(self).last_activity {
                SessionState::Failed(Error::ConsensusUnreachable)
            } else {
                old(self).state
            }),
    {
        let stalled = match &self.state {
            SessionState::ConsensusRound(_) => true,
            SessionState::VersionCheck => true,
            _ => false,
        };
        if stalled && now >= deadline && now - deadline >= self.last_activity {
            self.state = SessionState::Failed(Error::ConsensusUnreachable);
        }
    }

    /// Fails an idle session with the retry-safe temporary-unreachable kind
    /// (the periodic sweep's demotion for sessions idle past the timeout).
    pub fn mark_idle_failed(&mut self)
        requires
            old(self).wf(),
        ensures
            final(self).wf(),
            *final(self) == (Session {
                state: final(self).state,
                ..*old(self)
            }),
            final(self).state == (if old(self).state is Failed {
                old(self).state
            } else {
                SessionState::Failed(Error::ConsensusTemporaryUnreachable)
            }),
    {
        let failed = match &self.state {
            SessionState::Failed(_) => true,
            _ => false,
        };
        if !failed {
            self.state = SessionState::Failed(Error::ConsensusTemporaryUnreachable);
        }
    }
}

/// Exactly what [`Session::process`] does, as a relation between the session
/// before (`pre`) and after (`post`) routing `msg` with result `r`. The
/// checks run in order, each error reported if and only if it is the first
/// condition to hold; an accepted message leaves the session as
/// [`accepted_post`] describes, and any other rejection leaves it unchanged.
pub open spec fn process_post(
    pre: Session,
    post: Session,
    msg: SessionMessage,
    reg: NodeRegistry,
    now: u64,
    r: Result<(), Error>,
) -> bool {
    &&& post.id == pre.id
    &&& post.kind == pre.kind
    &&& post.exclusive == pre.exclusive
    &&& post.tracker.threshold == pre.tracker.threshold
    &&& post.tracker.participants == pre.tracker.participants
    &&& post.created_at == pre.created_at
    &&& (r is Ok || r == Err::<(), Error>(Error::InvalidNodeForRequest) || r == Err::<(), Error>(
        Error::TooEarlyForRequest,
    ) || r == Err::<(), Error>(Error::InvalidStateForRequest) || r == Err::<(), Error>(
        Error::InvalidMessage,
    ) || r == Err::<(), Error>(Error::ReplayProtection) || r == Err::<(), Error>(
        Error::ConsensusUnreachable,
    ))
    &&& (r == Err::<(), Error>(Error::InvalidNodeForRequest) <==> !pre.participant(msg.sender))
    &&& (r == Err::<(), Error>(Error::TooEarlyForRequest) <==> (pre.participant(msg.sender)
        && pre.msg_too_early(msg.body)))
    &&& (r == Err::<(), Error>(Error::InvalidStateForRequest) <==> (pre.participant(msg.sender)
        && !pre.msg_too_early(msg.body) && pre.msg_invalid_state(msg.body)))
    &&& (r == Err::<(), Error>(Error::InvalidMessage) <==> (pre.participant(msg.sender)
        && !pre.msg_too_early(msg.body) && !pre.msg_invalid_state(msg.body) && pre.msg_mismatched(
        msg.body,
    )))
    &&& (r == Err::<(), Error>(Error::ReplayProtection) <==> (pre.participant(msg.sender)
        && !pre.msg_too_early(msg.body) && !pre.msg_invalid_state(msg.body) && !pre.msg_mismatched(
        msg.body,
    ) && pre.msg_collecting(msg.body) && !replay_ok(pre.seen@, msg.sender, msg.round)))
    &&& ((r is Err && r != Err::<(), Error>(Error::ConsensusUnreachable)) ==> post == pre)
    &&& ((r is Ok || r == Err::<(), Error>(Error::ConsensusUnreachable)) ==> accepted_post(
        pre,
        post,
        msg,
        reg,
        now,
        r,
    ))
}

/// What holds of the session after an accepted message (or one that turned
/// the round permanently unreachable): replay bookkeeping advanced, the
/// contribution or vote recorded, and the state moved as the round decision
/// dictates.
pub open spec fn accepted_post(
    pre: Session,
    post: Session,
    msg: SessionMessage,
    reg: NodeRegistry,
    now: u64,
    r: Result<(), Error>,
) -> bool {
    match msg.body {
        MessageBody::Request => post == (Session { last_activity: now, ..pre })
            && r is Ok,
        MessageBody::Finalize => post == (Session { last_activity: now, ..pre })
            && r is Ok,
        MessageBody::Contribution(v) => if !(pre.state is ConsensusRound) {
            post == pre && r is Ok
        } else {
            let newlen = pre.tracker.contributions@.len() + (if pre.tracker.contributions@.contains(
                msg.sender,
            ) {
                0int
            } else {
                1int
            });
            let ach = achievable_count(
                pre.tracker.participants@,
                pre.tracker.contributions@.to_set().insert(msg.sender),
                reg,
            );
            &&& post.last_activity == now
            &&& post.round_value == Some(v)
            &&& post.version_votes == pre.version_votes
            &&& post.agreed_version == pre.agreed_version
            &&& post.tracker.contributions@.len() == newlen
            &&& (forall|x: u64|
                post.tracker.contributions@.contains(x) <==> (pre.tracker.contributions@.contains(
                    x,
                ) || x == msg.sender))
            &&& (forall|rd: u64| replay_ok(post.seen@, msg.sender, rd) <==> rd > msg.round)
            &&& (forall|p: u64, rd: u64|
                p != msg.sender ==> (replay_ok(post.seen@, p, rd) <==> replay_ok(pre.seen@, p, rd)))
            &&& (newlen > pre.tracker.threshold as int ==> (post.state == (
            if pre.kind.needs_version_check() {
                SessionState::VersionCheck
            } else {
                SessionState::Completing
            }) && r is Ok))
            &&& ((newlen <= pre.tracker.threshold as int && newlen + ach
                > pre.tracker.threshold as int) ==> (post.state == pre.state && r is Ok))
            &&& ((newlen + ach <= pre.tracker.threshold as int) ==> (post.state
                == SessionState::Failed(Error::ConsensusUnreachable) && r == Err::<(), Error>(
                Error::ConsensusUnreachable,
            )))
        },
        MessageBody::VersionVote(ver) => if !(pre.state is VersionCheck) {
            post == pre && r is Ok
        } else {
            let votes = post.version_votes@;
            &&& post.last_activity == now
            &&& post.round_value == pre.round_value
            &&& post.tracker == pre.tracker
            &&& (votes == if voted(pre.version_votes@, msg.sender) {
                pre.version_votes@
            } else {
                pre.version_votes@.push(NodeVersion { node: msg.sender, version: ver })
            })
            &&& (forall|rd: u64| replay_ok(post.seen@, msg.sender, rd) <==> rd > msg.round)
            &&& (forall|p: u64, rd: u64|
                p != msg.sender ==> (replay_ok(post.seen@, p, rd) <==> replay_ok(pre.seen@, p, rd)))
            &&& (version_quorum(votes, pre.tracker.threshold as int + 1) ==> (
            post.state is Completing && r is Ok && (post.agreed_version matches Some(av)
                && is_best_version(votes, av) && count_version(votes, av)
                > pre.tracker.threshold as int)))
            &&& (!version_quorum(votes, pre.tracker.threshold as int + 1) ==> (
            post.agreed_version == pre.agreed_version && (if votes.len()
                == pre.tracker.participants@.len() {
                post.state == SessionState::Failed(Error::ConsensusUnreachable) && r == Err::<
                    (),
                    Error,
                >(Error::ConsensusUnreachable)
            } else {
                post.state == pre.state && r is Ok
            })))
        },
    }
}

/// Whether the node has already cast a version vote.
fn has_voted(votes: &Vec<NodeVersion>, node: u64) -> (r: bool)
    ensures
        r == voted(votes@, node),
{
    let mut i: usize = 0;
    while i < votes.len()
        invariant
            i <= votes@.len(),
            forall|j: int| 0 <= j < i as int ==> votes@[j].node != node,
        decreases votes@.len() - i,
    {
        if votes[i].node == node {
            return true;
        }
        i += 1;
    }
    false
}

/// Counts the votes cast for version `v`.
fn count_version_in(votes: &Vec<NodeVersion>, v: u64) -> (r: usize)
    ensures
        r as int == count_version(votes@, v),
{
    let mut count: usize = 0;
    let mut i: usize = 0;
    while i < votes.len()
        invariant
            i <= votes@.len(),
            count <= i,
            count as int == count_version(votes@.subrange(0, i as int), v),
        decreases votes@.len() - i,
    {
        proof {
            let pre = votes@.subrange(0, i as int + 1);
            assert(pre.drop_last() == votes@.subrange(0, i as int));
            assert(pre.last() == votes@[i as int]);
        }
        if votes[i].version == v {
            count += 1;
        }
        i += 1;
    }
    proof {
        assert(votes@.subrange(0, votes@.len() as int) == votes@);
    }
    count
}

/// The canonical majority version among the votes, with its vote count: the
/// version with the most votes, the lowest such version on ties. `None` iff
/// there are no votes.
pub fn best_version(votes: &Vec<NodeVersion>) -> (r: Option<(u64, usize)>)
    ensures
        r is Some <==> votes@.len() > 0,
        r matches Some(p) ==> (p.1 as int == count_version(votes@, p.0) && is_best_version(
            votes@,
            p.0,
        )),
{
    if votes.len() == 0 {
        return None;
    }
    let mut best_v: u64 = votes[0].version;
    let mut best_c: usize = count_version_in(votes, best_v);
    let mut i: usize = 1;
    while i < votes.len()
        invariant
            1 <= i <= votes@.len(),
            votes@.len() > 0,
            exists|j: int| 0 <= j < votes@.len() && votes@[j].version == best_v,
            best_c as int == count_version(votes@, best_v),
            forall|j: int|
                0 <= j < i as int ==> (count_version(votes@, #[trigger] votes@[j].version)
                    < best_c as int || (count_version(votes@, votes@[j].version) == best_c as int
                    && best_v <= votes@[j].version)),
        decreases votes@.len() - i,
    {
        let cand = votes[i].version;
        let c = count_version_in(votes, cand);
        if c > best_c || (c == best_c && cand < best_v) {
            best_v = cand;
            best_c = c;
        }
        i += 1;
    }
    Some((best_v, best_c))
}

/// Replay protection: once a round-consuming message from a peer has been
/// accepted, resending the same (or any lower) round number for that peer
/// is rejected as a replay, while the incremented round number is accepted
/// again. Other peers' rounds are unaffected.
pub proof fn lemma_replay_protection(
    pre: Session,
    post: Session,
    msg: SessionMessage,
    reg: NodeRegistry,
    now: u64,
)
    requires
        msg.body.consumes_round(),
        msg.body is Contribution ==> pre.state is ConsensusRound,
        msg.body is VersionVote ==> pre.state is VersionCheck,
        accepted_post(pre, post, msg, reg, now, Ok(())),
    ensures
        !replay_ok(post.seen@, msg.sender, msg.round),
        msg.round < u64::MAX ==> replay_ok(post.seen@, msg.sender, (msg.round + 1) as u64),
        forall|p: u64, rd: u64|
            p != msg.sender ==> (replay_ok(post.seen@, p, rd) <==> replay_ok(pre.seen@, p, rd)),
{
}

/// A version with a positive count occurs among the votes.
proof fn lemma_count_version_pos(votes: Seq<NodeVersion>, v: u64)
    ensures
        count_version(votes, v) > 0 ==> exists|i: int|
            0 <= i < votes.len() && votes[i].version == v,
    decreases votes.len(),
{
    if votes.len() > 0 {
        lemma_count_version_pos(votes.drop_last(), v);
        if votes.last().version == v {
            assert(votes[votes.len() - 1].version == v);
        } else if count_version(votes.drop_last(), v) > 0 {
            let i = choose|i: int|
                0 <= i < votes.drop_last().len() && votes.drop_last()[i].version == v;
            assert(votes[i].version == v);
        }
    }
}

} // verus!
