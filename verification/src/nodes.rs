//! Node registry: cluster membership and per-node connectivity.
//!
//! Membership is configured at cluster startup and never changes for the
//! lifetime of the process; only the connectivity flag of each node is
//! mutated, on connect/disconnect events. Sessions read connectivity through
//! the registry and must tolerate it changing under them.

use vstd::prelude::*;

verus! {

/// A cluster member: its identifier and whether a live connection to it is
/// currently established.
pub struct Node {
    /// Node identifier (derived from the node's address/public key by the
    /// transport layer; opaque to the engine).
    pub id: u64,
    /// Live connectivity flag.
    pub connected: bool,
}

/// Tracks the configured cluster membership and each member's connectivity.
pub struct NodeRegistry {
    /// Entries in strictly increasing id order; one per configured node.
    pub nodes: Vec<Node>,
}

impl NodeRegistry {
    /// Well-formedness: node ids are strictly increasing (so unique).
    pub open spec fn wf(&self) -> bool {
        forall|i: int, j: int|
            0 <= i < j < self.nodes@.len() ==> self.nodes@[i].id < self.nodes@[j].id
    }

    /// The node with this id is a configured cluster member.
    pub open spec fn is_member(&self, id: u64) -> bool {
        exists|i: int| 0 <= i < self.nodes@.len() && self.nodes@[i].id == id
    }

    /// The node with this id is a member and currently connected.
    pub open spec fn node_connected(&self, id: u64) -> bool {
        exists|i: int|
            0 <= i < self.nodes@.len() && self.nodes@[i].id == id && self.nodes@[i].connected
    }

    /// Builds the registry from the configured member ids, all initially
    /// disconnected.
    pub fn new(ids: &Vec<u64>) -> (r: NodeRegistry)
        requires
            forall|i: int, j: int| 0 <= i < j < ids@.len() ==> ids@[i] < ids@[j],
        ensures
            r.wf(),
            r.nodes@.len() == ids@.len(),
            forall|i: int|
                0 <= i < ids@.len() ==> r.nodes@[i].id == ids@[i] && !r.nodes@[i].connected,
    {
        let mut nodes: Vec<Node> = Vec::new();
        let mut i: usize = 0;
        while i < ids.len()
            invariant
                i <= ids@.len(),
                nodes@.len() == i,
                forall|j: int, k: int| 0 <= j < k < ids@.len() ==> ids@[j] < ids@[k],
                forall|j: int|
                    0 <= j < i as int ==> nodes@[j].id == ids@[j] && !nodes@[j].connected,
            decreases ids@.len() - i,
        {
            nodes.push(Node { id: ids[i], connected: false });
            i += 1;
        }
        proof {
            assert forall|p: int, q: int|
                0 <= p < q < nodes@.len() implies nodes@[p].id < nodes@[q].id by {
                assert(nodes@[p].id == ids@[p]);
                assert(nodes@[q].id == ids@[q]);
            }
        }
        NodeRegistry { nodes }
    }

    /// Marks the node as connected. Membership and all other nodes are
    /// unchanged; an id outside the configured membership is ignored.
    pub fn connect(&mut self, id: u64)
        requires
            old(self).wf(),
        ensures
            final(self).wf(),
            final(self).nodes@.len() == old(self).nodes@.len(),
            forall|i: int|
                0 <= i < old(self).nodes@.len() ==> final(self).nodes@[i].id == old(
                    self,
                ).nodes@[i].id,
            forall|i: int|
                0 <= i < old(self).nodes@.len() ==> final(self).nodes@[i].connected == (old(
                    self,
                ).nodes@[i].connected || old(self).nodes@[i].id == id),
    {
        let mut i: usize = 0;
        while i < self.nodes.len()
            invariant
                old(self).wf(),
                i <= self.nodes@.len(),
                self.nodes@.len() == old(self).nodes@.len(),
                forall|j: int| 0 <= j < i as int ==> old(self).nodes@[j].id != id,
                forall|j: int| 0 <= j < self.nodes@.len() ==> self.nodes@[j] == old(self).nodes@[j],
            decreases self.nodes@.len() - i,
        {
            if self.nodes[i].id == id {
                let entry = Node { id, connected: true };
                self.nodes.set(i, entry);
                return ;
            }
            i += 1;
        }
    }

    /// Marks the node as disconnected. Membership and all other nodes are
    /// unchanged; an id outside the configured membership is ignored.
    pub fn disconnect(&mut self, id: u64)
        requires
            old(self).wf(),
        ensures
            final(self).wf(),
            final(self).nodes@.len() == old(self).nodes@.len(),
            forall|i: int|
                0 <= i < old(self).nodes@.len() ==> final(self).nodes@[i].id == old(
                    self,
                ).nodes@[i].id,
            forall|i: int|
                0 <= i < old(self).nodes@.len() ==> final(self).nodes@[i].connected == (old(
                    self,
                ).nodes@[i].connected && old(self).nodes@[i].id != id),
    {
        let mut i: usize = 0;
        while i < self.nodes.len()
            invariant
                old(self).wf(),
                i <= self.nodes@.len(),
                self.nodes@.len() == old(self).nodes@.len(),
                forall|j: int| 0 <= j < i as int ==> old(self).nodes@[j].id != id,
                forall|j: int| 0 <= j < self.nodes@.len() ==> self.nodes@[j] == old(self).nodes@[j],
            decreases self.nodes@.len() - i,
        {
            if self.nodes[i].id == id {
                let entry = Node { id, connected: false };
                self.nodes.set(i, entry);
                return ;
            }
            i += 1;
        }
    }

    /// Whether the node is a member and currently connected.
    pub fn is_connected(&self, id: u64) -> (r: bool)
        ensures
            r == self.node_connected(id),
    {
        let mut i: usize = 0;
        while i < self.nodes.len()
            invariant
                i <= self.nodes@.len(),
                forall|j: int|
                    0 <= j < i as int ==> !(self.nodes@[j].id == id && self.nodes@[j].connected),
            decreases self.nodes@.len() - i,
        {
            if self.nodes[i].id == id && self.nodes[i].connected {
                return true;
            }
            i += 1;
        }
        false
    }
}

} // verus!
