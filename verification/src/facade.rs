//! Cluster client façade: the boundary the external RPC layer uses to start
//! sessions and poll results.
//!
//! The façade owns the node registry, the session registry and the stores of
//! generated server keys and stored document keys. It translates external
//! requests into session-registry operations and surfaces every failure as
//! one kind of the error taxonomy. Access-control decisions and the actual
//! cryptography are collaborators: the façade takes their results as plain
//! values.

use vstd::prelude::*;

use crate::errors::Error;
use crate::nodes::NodeRegistry;
use crate::registry::SessionRegistry;
use crate::registry::start_post;
use crate::session::SessionKind;
use crate::session::SessionState;

verus! {

/// A cluster-generated server key: its public material and the versions it
/// has accumulated (the current one is the last).
pub struct ServerKeyRecord {
    /// Server key id.
    pub key_id: u64,
    /// Public key material (opaque to the engine: produced by the
    /// cryptography collaborator).
    pub public: u64,
    /// Version history, oldest first; never empty.
    pub versions: Vec<u64>,
}

/// A stored document key, bound to a server key and its storing requester.
pub struct DocumentKeyRecord {
    /// Document id.
    pub document_id: u64,
    /// The server key this document key was stored against.
    pub server_key_id: u64,
    /// The encrypted document key (opaque to the engine).
    pub encrypted: u64,
    /// The requester that stored it, for later authorization checks.
    pub requester: u64,
}

/// The boundary used by the RPC layer: starts sessions, completes them, and
/// serves key material.
pub struct ClusterClient {
    /// Cluster membership and connectivity.
    pub nodes: NodeRegistry,
    /// The active sessions.
    pub registry: SessionRegistry,
    /// Generated server keys; key ids unique.
    pub server_keys: Vec<ServerKeyRecord>,
    /// Stored document keys; document ids unique.
    pub document_keys: Vec<DocumentKeyRecord>,
}

impl ClusterClient {
    /// Well-formedness: both registries well-formed, unique key and
    /// document ids, every server key with at least one version.
    pub open spec fn wf(&self) -> bool {
        &&& self.nodes.wf()
        &&& self.registry.wf()
        &&& forall|i: int, j: int|
            0 <= i < j < self.server_keys@.len() ==> self.server_keys@[i].key_id
                != self.server_keys@[j].key_id
        &&& forall|i: int| 0 <= i < self.server_keys@.len() ==> self.server_keys@[i].versions@.len() > 0
        &&& forall|i: int, j: int|
            0 <= i < j < self.document_keys@.len() ==> self.document_keys@[i].document_id
                != self.document_keys@[j].document_id
    }

    /// A server key with this id has been generated.
    pub open spec fn has_server_key(&self, key_id: u64) -> bool {
        exists|i: int| 0 <= i < self.server_keys@.len() && self.server_keys@[i].key_id == key_id
    }

    /// The index of the server key record with this id.
    pub open spec fn server_key_index(&self, key_id: u64) -> int {
        choose|i: int| 0 <= i < self.server_keys@.len() && self.server_keys@[i].key_id == key_id
    }

    /// A document key with this id has been stored.
    pub open spec fn has_document_key(&self, document_id: u64) -> bool {
        exists|i: int|
            0 <= i < self.document_keys@.len() && self.document_keys@[i].document_id == document_id
    }

    /// The index of the document key record with this id.
    pub open spec fn document_key_index(&self, document_id: u64) -> int {
        choose|i: int|
            0 <= i < self.document_keys@.len() && self.document_keys@[i].document_id == document_id
    }

    /// Builds the façade for the configured cluster membership, with no
    /// active session and empty key stores.
    pub fn new(node_ids: &Vec<u64>) -> (r: ClusterClient)
        requires
            forall|i: int, j: int| 0 <= i < j < node_ids@.len() ==> node_ids@[i] < node_ids@[j],
        ensures
            r.wf(),
            r.nodes.nodes@.len() == node_ids@.len(),
            r.registry.sessions@.len() == 0,
            r.server_keys@.len() == 0,
            r.document_keys@.len() == 0,
    {
        ClusterClient {
            nodes: NodeRegistry::new(node_ids),
            registry: SessionRegistry::new(),
            server_keys: Vec::new(),
            document_keys: Vec::new(),
        }
    }

    /// The position of the server key record with this id, if any.
    fn find_server_key(&self, key_id: u64) -> (r: Option<usize>)
        requires
            self.wf(),
        ensures
            r is Some <==> self.has_server_key(key_id),
            r matches Some(i) ==> i < self.server_keys@.len()
                && self.server_keys@[i as int].key_id == key_id && i as int
                == self.server_key_index(key_id),
    {
        let mut i: usize = 0;
        while i < self.server_keys.len()
            invariant
                self.wf(),
                i <= self.server_keys@.len(),
                forall|j: int| 0 <= j < i as int ==> self.server_keys@[j].key_id != key_id,
            decreases self.server_keys@.len() - i,
        {
            if self.server_keys[i].key_id == key_id {
                proof {
                    assert(self.has_server_key(key_id));
                    let k = self.server_key_index(key_id);
                    if k < i as int {
                        assert(self.server_keys@[k].key_id != self.server_keys@[i as int].key_id);
                    } else if k > i as int {
                        assert(self.server_keys@[i as int].key_id != self.server_keys@[k].key_id);
                    }
                }
                return Some(i);
            }
            i += 1;
        }
        None
    }

    /// The position of the document key record with this id, if any.
    fn find_document_key(&self, document_id: u64) -> (r: Option<usize>)
        requires
            self.wf(),
        ensures
            r is Some <==> self.has_document_key(document_id),
            r matches Some(i) ==> i < self.document_keys@.len()
                && self.document_keys@[i as int].document_id == document_id && i as int
                == self.document_key_index(document_id),
    {
        let mut i: usize = 0;
        while i < self.document_keys.len()
            invariant
                self.wf(),
                i <= self.document_keys@.len(),
                forall|j: int| 0 <= j < i as int ==> self.document_keys@[j].document_id != document_id,
            decreases self.document_keys@.len() - i,
        {
            if self.document_keys[i].document_id == document_id {
                proof {
                    assert(self.has_document_key(document_id));
                    let k = self.document_key_index(document_id);
                    let di = i as int;
                    if k < di {
                        assert(self.document_keys@[k].document_id
                            != self.document_keys@[di].document_id);
                    } else if k > di {
                        assert(self.document_keys@[di].document_id
                            != self.document_keys@[k].document_id);
                    }
                }
                return Some(i);
            }
            i += 1;
        }
        None
    }

    /// The ids of all configured cluster nodes, in increasing order: the
    /// participant set of cluster-wide sessions.
    pub fn node_ids(&self) -> (r: Vec<u64>)
        requires
            self.nodes.wf(),
        ensures
            r@.len() == self.nodes.nodes@.len(),
            forall|i: int| 0 <= i < r@.len() ==> r@[i] == self.nodes.nodes@[i].id,
            forall|i: int, j: int| 0 <= i < j < r@.len() ==> r@[i] < r@[j],
    {
        let mut ids: Vec<u64> = Vec::new();
        let mut i: usize = 0;
        while i < self.nodes.nodes.len()
            invariant
                self.nodes.wf(),
                i <= self.nodes.nodes@.len(),
                ids@.len() == i,
                forall|j: int| 0 <= j < i as int ==> ids@[j] == self.nodes.nodes@[j].id,
            decreases self.nodes.nodes@.len() - i,
        {
            ids.push(self.nodes.nodes[i].id);
            i += 1;
        }
        ids
    }

    /// Starts a server-key generation session for this key id (the session
    /// id is the key id, so concurrent generations of one key collide on
    /// `DuplicateSessionId`). Fails with `ServerKeyAlreadyGenerated` if the
    /// key already exists; otherwise the session registry's start rules
    /// apply unchanged. No failure leaves any partial side effect.
    pub fn start_server_key_generation(&mut self, key_id: u64, threshold: usize, now: u64) -> (r:
        Result<u64, Error>)
        requires
            old(self).wf(),
        ensures
            final(self).wf(),
            final(self).nodes == old(self).nodes,
            final(self).server_keys == old(self).server_keys,
            final(self).document_keys == old(self).document_keys,
            r == Err::<u64, Error>(Error::ServerKeyAlreadyGenerated) <==> old(self).has_server_key(
                key_id,
            ),
            old(self).has_server_key(key_id) ==> final(self).registry == old(self).registry,
            r is Ok ==> r == Ok::<u64, Error>(key_id),
            !old(self).has_server_key(key_id) ==> start_post(
                old(self).registry,
                final(self).registry,
                key_id,
                SessionKind::GenerateServerKey,
                threshold,
                Seq::new(old(self).nodes.nodes@.len(), |i: int| old(self).nodes.nodes@[i].id),
                false,
                now,
                (if r is Ok {
                    Ok(())
                } else {
                    Err(r->Err_0)
                }),
            ),
    {
        if self.find_server_key(key_id).is_some() {
            return Err(Error::ServerKeyAlreadyGenerated);
        }
        let participants = self.node_ids();
        proof {
            assert(participants@ =~= Seq::new(
                self.nodes.nodes@.len(),
                |i: int| self.nodes.nodes@[i].id,
            ));
        }
        let started = self.registry.start_session(
            key_id,
            SessionKind::GenerateServerKey,
            threshold,
            participants,
            false,
            now,
        );
        match started {
            Ok(()) => Ok(key_id),
            Err(e) => {
                proof {
                    if e == Error::ServerKeyAlreadyGenerated {
                        assert(false);
                    }
                }
                Err(e)
            },
        }
    }

    /// Finalizes a completed generation session: the session must exist, be
    /// a generation session in `Completing` state, and its key id must still
    /// be free. On success the session is removed from the active set and
    /// the server key is stored with the given public material as its first
    /// version; on any failure nothing changes.
    pub fn complete_generation(&mut self, session_id: u64, public: u64, version: u64) -> (r:
        Result<(), Error>)
        requires
            old(self).wf(),
        ensures
            final(self).wf(),
            final(self).nodes == old(self).nodes,
            final(self).document_keys == old(self).document_keys,
            r == Err::<(), Error>(Error::NoActiveSessionWithId) <==> !old(
                self,
            ).registry.contains_session(session_id),
            r == Err::<(), Error>(Error::InvalidStateForRequest) <==> (old(
                self,
            ).registry.contains_session(session_id) && {
                let s = old(self).registry.sessions@[old(self).registry.index_of(session_id)];
                !(s.state is Completing && s.kind is GenerateServerKey)
            }),
            r == Err::<(), Error>(Error::ServerKeyAlreadyGenerated) <==> (old(
                self,
            ).registry.contains_session(session_id) && {
                let s = old(self).registry.sessions@[old(self).registry.index_of(session_id)];
                s.state is Completing && s.kind is GenerateServerKey && old(self).has_server_key(
                    session_id,
                )
            }),
            r is Err ==> *final(self) == *old(self),
            r is Ok <==> (old(self).registry.contains_session(session_id) && {
                let s = old(self).registry.sessions@[old(self).registry.index_of(session_id)];
                s.state is Completing && s.kind is GenerateServerKey && !old(self).has_server_key(
                    session_id,
                )
            }),
            r is Ok ==> {
                &&& final(self).registry.sessions@ == old(self).registry.sessions@.remove(
                    old(self).registry.index_of(session_id),
                )
                &&& !final(self).registry.contains_session(session_id)
                &&& final(self).server_keys@.len() == old(self).server_keys@.len() + 1
                &&& final(self).server_keys@.drop_last() == old(self).server_keys@
                &&& final(self).server_keys@.last().key_id == session_id
                &&& final(self).server_keys@.last().public == public
                &&& final(self).server_keys@.last().versions@ == seq![version]
                &&& final(self).has_server_key(session_id)
            },
    {
        let found = self.registry.find_session_state(session_id);
        match found {
            None => Err(Error::NoActiveSessionWithId),
            Some((completing, generation)) => {
                if !(completing && generation) {
                    return Err(Error::InvalidStateForRequest);
                }
                if self.find_server_key(session_id).is_some() {
                    return Err(Error::ServerKeyAlreadyGenerated);
                }
                let completed = self.registry.complete(session_id);
                match completed {
                    Err(e) => {
                        proof {
                            assert(false);
                        }
                        Err(e)
                    },
                    Ok(_) => {
                        let mut versions: Vec<u64> = Vec::new();
                        versions.push(version);
                        proof {
                            assert(versions@ =~= seq![version]);
                        }
                        let record = ServerKeyRecord { key_id: session_id, public, versions };
                        self.server_keys.push(record);
                        proof {
                            assert(self.server_keys@.drop_last() =~= old(self).server_keys@);
                            assert(self.server_keys@[self.server_keys@.len() - 1].key_id
                                == session_id);
                        }
                        Ok(())
                    },
                }
            },
        }
    }

    /// Records a reconciled key version for a generated server key: the
    /// outcome of a key-version negotiation (the majority version the
    /// session agreed on) is appended to the key's version history, making
    /// it the current version. Fails with `ServerKeyIsNotFound`, changing
    /// nothing, iff no such server key exists.
    pub fn record_server_key_version(&mut self, key_id: u64, version: u64) -> (r: Result<
        (),
        Error,
    >)
        requires
            old(self).wf(),
        ensures
            final(self).wf(),
            final(self).nodes == old(self).nodes,
            final(self).registry == old(self).registry,
            final(self).document_keys == old(self).document_keys,
            r is Ok <==> old(self).has_server_key(key_id),
            r is Err ==> r == Err::<(), Error>(Error::ServerKeyIsNotFound) && *final(self)
                == *old(self),
            r is Ok ==> {
                let i = old(self).server_key_index(key_id);
                let rec = old(self).server_keys@[i];
                &&& final(self).server_keys@ == old(self).server_keys@.update(
                    i,
                    ServerKeyRecord {
                        key_id: rec.key_id,
                        public: rec.public,
                        versions: final(self).server_keys@[i].versions,
                    },
                )
                &&& final(self).server_keys@[i].versions@ == rec.versions@.push(version)
            },
    {
        let found = self.find_server_key(key_id);
        match found {
            None => Err(Error::ServerKeyIsNotFound),
            Some(i) => {
                let ghost olds = self.server_keys@;
                let mut record = self.server_keys.remove(i);
                record.versions.push(version);
                self.server_keys.insert(i, record);
                proof {
                    crate::registry::lemma_remove_insert_is_update(
                        olds,
                        i as int,
                        self.server_keys@[i as int],
                    );
                    assert(self.server_keys@ == olds.update(
                        i as int,
                        self.server_keys@[i as int],
                    ));
                    assert forall|a: int, b: int|
                        0 <= a < b < self.server_keys@.len() implies self.server_keys@[a].key_id
                        != self.server_keys@[b].key_id by {
                        assert(olds[a].key_id != olds[b].key_id);
                    }
                }
                Ok(())
            },
        }
    }

    /// Serves the public material of a generated server key; fails with
    /// `ServerKeyIsNotFound` iff no generation for this key id has
    /// completed.
    pub fn retrieve_server_key(&self, key_id: u64) -> (r: Result<u64, Error>)
        requires
            self.wf(),
        ensures
            r is Ok <==> self.has_server_key(key_id),
            r matches Ok(public) ==> public == self.server_keys@[self.server_key_index(
                key_id,
            )].public,
            r is Err ==> r == Err::<u64, Error>(Error::ServerKeyIsNotFound),
    {
        let found = self.find_server_key(key_id);
        match found {
            Some(i) => Ok(self.server_keys[i].public),
            None => Err(Error::ServerKeyIsNotFound),
        }
    }

    /// Stores a document key against a generated server key. Fails with
    /// `DocumentKeyAlreadyStored` iff this document id is already taken, and
    /// with `ServerKeyIsNotFound` iff the server key does not exist; on any
    /// failure nothing changes.
    pub fn store_document_key(
        &mut self,
        document_id: u64,
        server_key_id: u64,
        encrypted: u64,
        requester: u64,
    ) -> (r: Result<(), Error>)
        requires
            old(self).wf(),
        ensures
            final(self).wf(),
            final(self).nodes == old(self).nodes,
            final(self).registry == old(self).registry,
            final(self).server_keys == old(self).server_keys,
            r == Err::<(), Error>(Error::DocumentKeyAlreadyStored) <==> old(self).has_document_key(
                document_id,
            ),
            r == Err::<(), Error>(Error::ServerKeyIsNotFound) <==> (!old(self).has_document_key(
                document_id,
            ) && !old(self).has_server_key(server_key_id)),
            r is Ok <==> (!old(self).has_document_key(document_id) && old(self).has_server_key(
                server_key_id,
            )),
            r is Err ==> *final(self) == *old(self),
            r is Ok ==> {
                &&& final(self).document_keys@.len() == old(self).document_keys@.len() + 1
                &&& final(self).document_keys@.drop_last() == old(self).document_keys@
                &&& final(self).document_keys@.last() == (DocumentKeyRecord {
                    document_id,
                    server_key_id,
                    encrypted,
                    requester,
                })
                &&& final(self).has_document_key(document_id)
            },
    {
        if self.find_document_key(document_id).is_some() {
            return Err(Error::DocumentKeyAlreadyStored);
        }
        if self.find_server_key(server_key_id).is_none() {
            return Err(Error::ServerKeyIsNotFound);
        }
        let record = DocumentKeyRecord { document_id, server_key_id, encrypted, requester };
        self.document_keys.push(record);
        proof {
            assert(self.document_keys@.drop_last() =~= old(self).document_keys@);
            assert(self.document_keys@[self.document_keys@.len() - 1].document_id == document_id);
        }
        Ok(())
    }

    /// Serves a stored document key. The access-control collaborator's
    /// verdict is handed in as `authorized`: a denial maps to `AccessDenied`
    /// before the store is even consulted; then `DocumentKeyIsNotFound` iff
    /// no such document key exists.
    pub fn retrieve_document_key(&self, document_id: u64, authorized: bool) -> (r: Result<
        u64,
        Error,
    >)
        requires
            self.wf(),
        ensures
            r == Err::<u64, Error>(Error::AccessDenied) <==> !authorized,
            r == Err::<u64, Error>(Error::DocumentKeyIsNotFound) <==> (authorized
                && !self.has_document_key(document_id)),
            r is Ok <==> (authorized && self.has_document_key(document_id)),
            r matches Ok(encrypted) ==> encrypted == self.document_keys@[self.document_key_index(
                document_id,
            )].encrypted,
    {
        if !authorized {
            return Err(Error::AccessDenied);
        }
        let found = self.find_document_key(document_id);
        match found {
            Some(i) => Ok(self.document_keys[i].encrypted),
            None => Err(Error::DocumentKeyIsNotFound),
        }
    }

    /// Reports the state of the active session owning this id; fails with
    /// `NoActiveSessionWithId` iff there is none.
    pub fn session_status(&self, session_id: u64) -> (r: Result<&SessionState, Error>)
        requires
            self.wf(),
        ensures
            r is Ok <==> self.registry.contains_session(session_id),
            r matches Ok(st) ==> st == self.registry.sessions@[self.registry.index_of(
                session_id,
            )].state,
            r is Err ==> r == Err::<&SessionState, Error>(Error::NoActiveSessionWithId),
    {
        let found = self.registry.session_state_ref(session_id);
        match found {
            Some(st) => Ok(st),
            None => Err(Error::NoActiveSessionWithId),
        }
    }
}

} // verus!
