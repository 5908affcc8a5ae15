//! Transport-agnostic sharding client: the peer-to-peer status handshake
//! the cluster's node-to-node messaging substrate follows.
//!
//! A peer announces itself with a `Status` message; the client disconnects
//! peers speaking an unsupported protocol version or serving a different
//! shard, and answers acceptable peers with its own status. Outbound
//! messages are collected into a sink vector that the network service
//! drains; mapping them onto packets is [`into_action`].

use vstd::prelude::*;

verus! {

/// The protocol version this client speaks.
pub const PROTOCOL_VERSION: u64 = 1;

/// The packet id of a status message on the wire.
pub const STATUS_PACKET: u8 = 0;

/// The client's current chain head.
pub struct Head {
    /// Hash of the head block.
    pub hash: u64,
    /// Height of the head block.
    pub height: u64,
}

/// A peer-addressed message payload.
pub enum ShardPayload {
    /// A peer's announcement of its protocol version, shard and head.
    Status {
        /// Protocol version the peer speaks.
        protocol_version: u64,
        /// The shard the peer serves.
        shard_id: u64,
        /// The peer's head block hash.
        head_hash: u64,
        /// The peer's head block height.
        head_height: u64,
    },
    /// An instruction to drop the connection to the peer.
    Disconnect,
}

/// A peer-addressed message.
pub struct ShardMessage {
    /// The peer this message comes from or goes to.
    pub peer_id: u64,
    /// The payload.
    pub payload: ShardPayload,
}

/// The disconnect message for a peer.
pub fn disconnect_message(peer_id: u64) -> (r: ShardMessage)
    ensures
        r.peer_id == peer_id,
        r.payload is Disconnect,
{
    ShardMessage { peer_id, payload: ShardPayload::Disconnect }
}

/// What the network layer must do with an outbound message.
pub enum Action {
    /// Send the packet with this id and payload to the peer.
    Send(u64, u8, Vec<u8>),
    /// Disconnect the peer.
    Disconnect(u64),
}

/// The elements of `s` that are not `x`, in order.
pub open spec fn without_peer(s: Seq<u64>, x: u64) -> Seq<u64>
    decreases s.len(),
{
    if s.len() == 0 {
        Seq::empty()
    } else {
        without_peer(s.drop_last(), x) + (if s.last() == x {
            Seq::empty()
        } else {
            seq![s.last()]
        })
    }
}

/// Sharding client state: the shard it serves, the peers that completed the
/// status handshake, and its chain head.
pub struct Client {
    /// The shard this client serves.
    pub shard_id: u64,
    /// Peers that completed the handshake.
    pub peers: Vec<u64>,
    /// The current chain head.
    pub head: Head,
}

impl Client {
    /// A fresh client for the shard, with no peers and a zero head.
    pub fn new(shard_id: u64) -> (r: Client)
        ensures
            r.shard_id == shard_id,
            r.peers@ == Seq::<u64>::empty(),
            r.head.hash == 0 && r.head.height == 0,
    {
        Client { shard_id, peers: Vec::new(), head: Head { hash: 0, height: 0 } }
    }

    /// The status message announcing this client's version, shard and head
    /// to the peer.
    pub fn status_message(&self, peer_id: u64) -> (r: ShardMessage)
        ensures
            r == (ShardMessage {
                peer_id,
                payload: ShardPayload::Status {
                    protocol_version: PROTOCOL_VERSION,
                    shard_id: self.shard_id,
                    head_hash: self.head.hash,
                    head_height: self.head.height,
                },
            }),
    {
        ShardMessage {
            peer_id,
            payload: ShardPayload::Status {
                protocol_version: PROTOCOL_VERSION,
                shard_id: self.shard_id,
                head_hash: self.head.hash,
                head_height: self.head.height,
            },
        }
    }

    /// Handles one inbound message, pushing the replies into `sink`: a
    /// status with the wrong protocol version or a foreign shard is answered
    /// with a disconnect; an acceptable status registers the peer and is
    /// answered with this client's own status; anything else is ignored.
    pub fn message(&mut self, message: ShardMessage, sink: &mut Vec<ShardMessage>)
        ensures
            final(self).shard_id == old(self).shard_id,
            final(self).head == old(self).head,
            match message.payload {
                ShardPayload::Status { protocol_version, shard_id, .. } => {
                    if protocol_version != PROTOCOL_VERSION || shard_id != old(self).shard_id {
                        &&& final(self).peers == old(self).peers
                        &&& final(sink)@ == old(sink)@.push(
                            ShardMessage {
                                peer_id: message.peer_id,
                                payload: ShardPayload::Disconnect,
                            },
                        )
                    } else {
                        &&& final(self).peers@ == old(self).peers@.push(message.peer_id)
                        &&& final(sink)@ == old(sink)@.push(
                            old(self).status_message_spec(message.peer_id),
                        )
                    }
                },
                ShardPayload::Disconnect => {
                    &&& final(self).peers == old(self).peers
                    &&& final(sink)@ == old(sink)@
                },
            },
    {
        let peer_id = message.peer_id;
        match message.payload {
            ShardPayload::Status { protocol_version, shard_id, head_hash: _, head_height: _ } => {
                if protocol_version != PROTOCOL_VERSION {
                    sink.push(disconnect_message(peer_id));
                } else if shard_id != self.shard_id {
                    sink.push(disconnect_message(peer_id));
                } else {
                    self.peers.push(peer_id);
                    let reply = self.status_message(peer_id);
                    sink.push(reply);
                }
            },
            ShardPayload::Disconnect => {},
        }
    }

    /// The status message as a value, for contracts.
    pub open spec fn status_message_spec(&self, peer_id: u64) -> ShardMessage {
        ShardMessage {
            peer_id,
            payload: ShardPayload::Status {
                protocol_version: PROTOCOL_VERSION,
                shard_id: self.shard_id,
                head_hash: self.head.hash,
                head_height: self.head.height,
            },
        }
    }

    /// Periodic maintenance hook: the status handshake keeps no timers, so
    /// there is nothing to emit.
    pub fn maintaince(&self, sink: &mut Vec<ShardMessage>)
        ensures
            final(sink)@ == old(sink)@,
    {
    }

    /// The number of peers that completed the handshake.
    pub fn active_peers(&self) -> (r: usize)
        ensures
            r == self.peers@.len(),
    {
        self.peers.len()
    }

    /// Forgets a disconnected peer: removes every occurrence of its id,
    /// keeping the others in order.
    pub fn remove_peer(&mut self, peer: u64)
        ensures
            final(self).shard_id == old(self).shard_id,
            final(self).head == old(self).head,
            final(self).peers@ == without_peer(old(self).peers@, peer),
    {
        let mut kept: Vec<u64> = Vec::new();
        let mut i: usize = 0;
        while i < self.peers.len()
            invariant
                i <= self.peers@.len(),
                kept@ == without_peer(self.peers@.subrange(0, i as int), peer),
            decreases self.peers@.len() - i,
        {
            proof {
                let pre = self.peers@.subrange(0, i as int + 1);
                assert(pre.drop_last() == self.peers@.subrange(0, i as int));
                assert(pre.last() == self.peers@[i as int]);
            }
            if self.peers[i] != peer {
                kept.push(self.peers[i]);
                proof {
                    assert(kept@ =~= without_peer(self.peers@.subrange(0, i as int + 1), peer));
                }
            }
            i += 1;
        }
        proof {
            assert(self.peers@.subrange(0, self.peers@.len() as int) == self.peers@);
        }
        self.peers = kept;
    }
}

/// Maps an outbound message onto the network action that delivers it: a
/// status becomes a status packet to the peer, a disconnect instruction
/// disconnects the peer.
pub fn into_action(msg: ShardMessage) -> (r: Action)
    ensures
        match msg.payload {
            ShardPayload::Status { .. } => r matches Action::Send(p, id, payload) && p
                == msg.peer_id && id == STATUS_PACKET && payload@ == Seq::<u8>::empty(),
            ShardPayload::Disconnect => r == Action::Disconnect(msg.peer_id),
        },
{
    let peer_id = msg.peer_id;
    match msg.payload {
        ShardPayload::Status { protocol_version: _, shard_id: _, head_height: _, head_hash: _ } => {
            Action::Send(peer_id, STATUS_PACKET, Vec::new())
        },
        ShardPayload::Disconnect => Action::Disconnect(peer_id),
    }
}

/// Decodes an inbound packet into a message: only the status packet id is
/// understood (the payload decoding itself is the transport collaborator's
/// job; unknown packets are dropped by returning nothing).
pub fn read_packet(peer_id: u64, packet_id: u8) -> (r: Option<ShardMessage>)
    ensures
        r is Some <==> packet_id == STATUS_PACKET,
        r matches Some(m) ==> m.peer_id == peer_id && m.payload is Status,
{
    if packet_id == STATUS_PACKET {
        Some(
            ShardMessage {
                peer_id,
                payload: ShardPayload::Status {
                    protocol_version: 1,
                    shard_id: 1,
                    head_height: 1,
                    head_hash: 0,
                },
            },
        )
    } else {
        None
    }
}

} // verus!
