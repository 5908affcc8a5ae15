//! Consensus tracker: per-round vote accumulation and reachability decision.
//!
//! Each protocol round collects at most one valid contribution per declared
//! participant. Given the contributions received so far, the threshold and
//! the current connectivity, the tracker decides one of: proceed with a
//! canonical quorum, keep waiting, or give up because the quorum can no
//! longer be reached even in the best case.

use vstd::prelude::*;

use crate::nodes::NodeRegistry;

verus! {

/// A sequence of ids in strictly increasing order (so without duplicates).
pub open spec fn sorted_unique(s: Seq<u64>) -> bool {
    forall|i: int, j: int| 0 <= i < j < s.len() ==> s[i] < s[j]
}

/// Whether every element of `s` is an element of `t`.
pub open spec fn subset_of(s: Seq<u64>, t: Seq<u64>) -> bool {
    forall|i: int| 0 <= i < s.len() ==> t.contains(s[i])
}

/// How many of the nodes in `participants` could still contribute to the
/// current round: connected and not among the `contributed` ids.
pub open spec fn achievable_count(
    participants: Seq<u64>,
    contributed: Set<u64>,
    reg: NodeRegistry,
) -> nat
    decreases participants.len(),
{
    if participants.len() == 0 {
        0
    } else {
        achievable_count(participants.drop_last(), contributed, reg) + (
        if reg.node_connected(participants.last()) && !contributed.contains(
            participants.last(),
        ) {
            1nat
        } else {
            0nat
        })
    }
}

/// The decision for the current round.
pub enum ConsensusDecision {
    /// Enough valid contributions: proceed with this canonical quorum of
    /// exactly `threshold + 1` contributors (the lowest node ids).
    Proceed(Vec<u64>),
    /// Not enough yet, but enough connected non-responded participants
    /// remain that the quorum is still achievable.
    Wait,
    /// Even in the best case the remaining live participants cannot bring
    /// the round to quorum: the session must fail permanently.
    Unreachable,
}

/// Accumulates the current round's valid contributions for one session.
pub struct ConsensusTracker {
    /// Minimum number of unavailable/corrupt participants tolerated; the
    /// quorum size is `threshold + 1`.
    pub threshold: usize,
    /// Declared participants, in strictly increasing id order.
    pub participants: Vec<u64>,
    /// Participants whose valid contribution for the current round has been
    /// received, in strictly increasing id order.
    pub contributions: Vec<u64>,
}

impl ConsensusTracker {
    /// Well-formedness: ordered unique participants and contributions, every
    /// contributor a declared participant, and a threshold within
    /// `[0, participants.len() - 1]`.
    pub open spec fn wf(&self) -> bool {
        &&& sorted_unique(self.participants@)
        &&& sorted_unique(self.contributions@)
        &&& subset_of(self.contributions@, self.participants@)
        &&& (self.threshold as int) < self.participants@.len()
    }

    /// Exactly what [`ConsensusTracker::decide`] returns, as a predicate on
    /// the result: `Proceed` holds the lowest `threshold + 1` contributor
    /// ids if and only if the quorum was reached; `Unreachable` if and only
    /// if the received and the still-achievable contributions together
    /// cannot reach the quorum; `Wait` otherwise.
    pub open spec fn decision_post(&self, reg: NodeRegistry, r: ConsensusDecision) -> bool {
        &&& (r is Proceed <==> self.contributions@.len() > self.threshold as int)
        &&& (match r {
            ConsensusDecision::Proceed(sel) => sel@ == self.contributions@.subrange(
                0,
                self.threshold as int + 1,
            ),
            _ => true,
        })
        &&& (r is Unreachable <==> self.contributions@.len() + achievable_count(
            self.participants@,
            self.contributions@.to_set(),
            reg,
        ) <= self.threshold as int)
        &&& (r is Wait <==> (self.contributions@.len() <= self.threshold as int
            && self.contributions@.len() + achievable_count(
            self.participants@,
            self.contributions@.to_set(),
            reg,
        ) > self.threshold as int))
    }

    /// Starts a fresh tracker for a round with no contributions yet.
    pub fn new(threshold: usize, participants: Vec<u64>) -> (r: ConsensusTracker)
        requires
            sorted_unique(participants@),
            (threshold as int) < participants@.len(),
        ensures
            r.wf(),
            r.threshold == threshold,
            r.participants == participants,
            r.contributions@ == Seq::<u64>::empty(),
    {
        ConsensusTracker { threshold, participants, contributions: Vec::new() }
    }

    /// Whether this participant's contribution has already been received.
    pub fn has_contributed(&self, node: u64) -> (r: bool)
        ensures
            r == self.contributions@.contains(node),
    {
        contains_id(&self.contributions, node)
    }

    /// Records a valid contribution from the node. Inserting a node twice,
    /// or one that is not a declared participant, is refused by `requires`:
    /// the session rejects such messages before they reach the tracker.
    pub fn insert_contribution(&mut self, node: u64)
        requires
            old(self).wf(),
            old(self).participants@.contains(node),
            !old(self).contributions@.contains(node),
        ensures
            final(self).wf(),
            final(self).threshold == old(self).threshold,
            final(self).participants == old(self).participants,
            final(self).contributions@.len() == old(self).contributions@.len() + 1,
            final(self).contributions@.contains(node),
            forall|x: u64|
                final(self).contributions@.contains(x) <==> (old(self).contributions@.contains(x)
                    || x == node),
    {
        let ghost oldc = self.contributions@;
        let i = lower_insert_pos(&self.contributions, node);
        self.contributions.insert(i, node);
        proof {
            let newc = self.contributions@;
            oldc.insert_ensures(i as int, node);
            assert forall|p: int, q: int| 0 <= p < q < newc.len() implies newc[p] < newc[q] by {
                if q < i as int {
                    assert(newc[p] == oldc[p] && newc[q] == oldc[q]);
                } else if p < i as int && q == i as int {
                    assert(newc[p] == oldc[p] && newc[q] == node);
                } else if p == i as int {
                    assert(newc[p] == node && newc[q] == oldc[q - 1]);
                } else if p < i as int {
                    assert(newc[p] == oldc[p] && newc[q] == oldc[q - 1]);
                } else {
                    assert(newc[p] == oldc[p - 1] && newc[q] == oldc[q - 1]);
                }
            }
            assert(forall|x: u64| oldc.contains(x) ==> newc.contains(x)) by {
                assert(forall|j: int|
                    0 <= j < oldc.len() ==> #[trigger] oldc[j] == (if j < i as int {
                        newc[j]
                    } else {
                        newc[j + 1]
                    }));
            }
            assert(forall|x: u64| newc.contains(x) ==> (oldc.contains(x) || x == node)) by {
                assert(forall|j: int|
                    0 <= j < newc.len() && j != i as int ==> #[trigger] newc[j] == (if j
                        < i as int {
                        oldc[j]
                    } else {
                        oldc[j - 1]
                    }));
            }
        }
    }

    /// Decides the current round: proceed with the canonical quorum (the
    /// lowest `threshold + 1` contributor ids), wait, or report the quorum
    /// permanently unreachable given current connectivity.
    pub fn decide(&self, reg: &NodeRegistry) -> (r: ConsensusDecision)
        requires
            self.wf(),
        ensures
            self.decision_post(*reg, r),
    {
        let n = self.participants.len();
        let quorum = self.threshold + 1;
        if self.contributions.len() >= quorum {
            let mut sel: Vec<u64> = Vec::new();
            let mut i: usize = 0;
            while i < quorum
                invariant
                    i <= quorum,
                    quorum <= self.contributions@.len(),
                    sel@ == self.contributions@.subrange(0, i as int),
                decreases quorum - i,
            {
                sel.push(self.contributions[i]);
                proof {
                    assert(sel@ == self.contributions@.subrange(0, i as int + 1));
                }
                i += 1;
            }
            ConsensusDecision::Proceed(sel)
        } else {
            let missing = quorum - self.contributions.len();
            let mut possible: usize = 0;
            let mut i: usize = 0;
            while i < n
                invariant
                    self.wf(),
                    n == self.participants@.len(),
                    i <= self.participants@.len(),
                    possible <= i,
                    possible == achievable_count(
                        self.participants@.subrange(0, i as int),
                        self.contributions@.to_set(),
                        *reg,
                    ),
                decreases self.participants@.len() - i,
            {
                let p = self.participants[i];
                let counts = reg.is_connected(p) && !contains_id(&self.contributions, p);
                proof {
                    let pre = self.participants@.subrange(0, i as int + 1);
                    assert(pre.drop_last() == self.participants@.subrange(0, i as int));
                    assert(pre.last() == self.participants@[i as int]);
                }
                if counts {
                    possible += 1;
                }
                i += 1;
            }
            proof {
                assert(self.participants@.subrange(0, self.participants@.len() as int)
                    == self.participants@);
            }
            if possible >= missing {
                ConsensusDecision::Wait
            } else {
                ConsensusDecision::Unreachable
            }
        }
    }
}

/// The position at which `x` must be inserted to keep `v` sorted: everything
/// before it is smaller, everything from it on is larger.
fn lower_insert_pos(v: &Vec<u64>, x: u64) -> (pos: usize)
    requires
        sorted_unique(v@),
        !v@.contains(x),
    ensures
        pos <= v@.len(),
        forall|j: int| 0 <= j < pos as int ==> v@[j] < x,
        forall|j: int| pos as int <= j < v@.len() ==> v@[j] > x,
{
    let mut i: usize = 0;
    while i < v.len()
        invariant
            sorted_unique(v@),
            !v@.contains(x),
            i <= v@.len(),
            forall|j: int| 0 <= j < i as int ==> v@[j] < x,
        decreases v@.len() - i,
    {
        if v[i] >= x {
            proof {
                assert(v@[i as int] != x) by {
                    assert(v@.contains(v@[i as int]));
                }
                assert forall|j: int| (i as int) <= j < v@.len() implies v@[j] > x by {
                    if j > i as int {
                        assert(v@[i as int] < v@[j]);
                    }
                }
            }
            return i;
        }
        i += 1;
    }
    i
}

/// Whether the id occurs in the vector.
pub fn contains_id(v: &Vec<u64>, x: u64) -> (r: bool)
    ensures
        r == v@.contains(x),
{
    let mut i: usize = 0;
    while i < v.len()
        invariant
            i <= v@.len(),
            forall|j: int| 0 <= j < i as int ==> v@[j] != x,
        decreases v@.len() - i,
    {
        if v[i] == x {
            return true;
        }
        i += 1;
    }
    false
}

/// Two decisions computed from the same tracker state and the same
/// connectivity snapshot are the same: in particular, when the quorum is
/// reached, repeated runs select the same canonical subset.
pub proof fn lemma_decision_deterministic(
    t: &ConsensusTracker,
    reg: &NodeRegistry,
    r1: ConsensusDecision,
    r2: ConsensusDecision,
)
    requires
        t.decision_post(*reg, r1),
        t.decision_post(*reg, r2),
    ensures
        r1 is Proceed <==> r2 is Proceed,
        r1 is Wait <==> r2 is Wait,
        r1 is Unreachable <==> r2 is Unreachable,
        (r1 is Proceed && r2 is Proceed) ==> r1->Proceed_0@ == r2->Proceed_0@,
{
}

/// When at least `threshold + 1` contributions are in, the decision is
/// `Proceed`, and the selected quorum is canonical: exactly the lowest
/// `threshold + 1` contributor ids.
pub proof fn lemma_quorum_proceeds(
    t: &ConsensusTracker,
    reg: &NodeRegistry,
    r: ConsensusDecision,
)
    requires
        t.decision_post(*reg, r),
        t.contributions@.len() > t.threshold as int,
    ensures
        r is Proceed,
        r matches ConsensusDecision::Proceed(sel) ==> sel@ == t.contributions@.subrange(
            0,
            t.threshold as int + 1,
        ),
{
}

/// A round the tracker reports permanently unreachable cannot reach quorum
/// even in the best case, and the error it fails the session with,
/// `ConsensusUnreachable`, is classified external: the engine never retries
/// it on its own.
pub proof fn lemma_unreachable_is_external(
    t: &ConsensusTracker,
    reg: &NodeRegistry,
    r: ConsensusDecision,
)
    requires
        t.decision_post(*reg, r),
        r is Unreachable,
    ensures
        t.contributions@.len() + achievable_count(
            t.participants@,
            t.contributions@.to_set(),
            *reg,
        ) <= t.threshold as int,
        crate::errors::classification_of(&crate::errors::Error::ConsensusUnreachable)
            == crate::errors::Classification::External,
        !crate::errors::Error::ConsensusUnreachable.is_internal(),
{
}

} // verus!
