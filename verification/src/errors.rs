//! Error taxonomy of the secret-store cluster.
//!
//! Every failure the engine can surface is one variant of [`Error`]. Each
//! variant has a fixed rendering (the serialization contract towards the RPC
//! layer) and a fixed classification: *internal* errors are the store's own
//! transient conditions and may succeed on retry, *external* errors are
//! caused by caller misuse or policy and must be rejected permanently.

use vstd::prelude::*;
use vstd::string::StringExecFns;

verus! {

/// Secret store error.
#[derive(Clone, Debug, PartialEq, Eq)]
pub enum Error {
    /// Invalid node address has been passed.
    InvalidNodeAddress,
    /// Invalid node id has been passed.
    InvalidNodeId,
    /// Session with the given id already exists.
    DuplicateSessionId,
    /// No active session with given id.
    NoActiveSessionWithId,
    /// Invalid threshold value has been passed.
    /// Threshold value must be in [0; n - 1], where n is a number of nodes
    /// participating in the encryption.
    NotEnoughNodesForThreshold,
    /// Current state of the session does not allow to proceed request.
    /// Reschedule this request for later processing.
    TooEarlyForRequest,
    /// Current state of the session does not allow to proceed request.
    /// This means that either there is some comm-failure or node is
    /// misbehaving/cheating.
    InvalidStateForRequest,
    /// Request cannot be sent/received from this node.
    InvalidNodeForRequest,
    /// Message or some data in the message was recognized as invalid.
    /// This means that node is misbehaving/cheating.
    InvalidMessage,
    /// Message version is not supported.
    InvalidMessageVersion,
    /// Message is invalid because of replay-attack protection.
    ReplayProtection,
    /// Connection to node, required for this session is not established.
    NodeDisconnected,
    /// Cryptographic error.
    EthKey(String),
    /// I/O error has occured.
    Io(String),
    /// Deserialization error has occured.
    Serde(String),
    /// Consensus is temporary unreachable.
    ConsensusTemporaryUnreachable,
    /// Consensus is unreachable.
    ConsensusUnreachable,
    /// Acl storage error.
    AccessDenied,
    /// Can't start session, because exclusive session is active.
    ExclusiveSessionActive,
    /// Can't start exclusive session, because there are other active sessions.
    HasActiveSessions,
    /// Insufficient requester data.
    InsufficientRequesterData(String),
    /// Upstream transport error.
    Hyper(String),
    /// Database-related error.
    Database(String),
    /// Internal error.
    Internal(String),
    /// Server key with this ID is already generated.
    ServerKeyAlreadyGenerated,
    /// Server key with this ID is not yet generated.
    ServerKeyIsNotFound,
    /// Server key version with this ID is not found.
    ServerKeyVersionIsNotFound,
    /// Document key with this ID is already stored.
    DocumentKeyAlreadyStored,
    /// Document key with this ID is not yet stored.
    DocumentKeyIsNotFound,
}

/// Whether an error is retry-safe (`Internal`) or a permanent rejection
/// (`External`).
#[derive(Clone, Copy, Debug, PartialEq, Eq, Structural)]
pub enum Classification {
    /// The store's own transient condition; the same request may succeed
    /// after a retry.
    Internal,
    /// Caused by caller misuse or policy; the request must be rejected.
    External,
}

impl Error {
    /// Is this an internal error? An internal error means that it is the
    /// store itself who is responsible for it (connectivity, timing,
    /// contention on shared sessions); when one occurs it is possible that
    /// the same request will succeed after retry. An external error is
    /// caused by misuse of the store (duplicated key generation, access
    /// denied, bad threshold) and the request is rejected outright.
    pub open spec fn is_internal(&self) -> bool {
        match *self {
            Error::InvalidNodeAddress => false,
            Error::InvalidNodeId => false,
            Error::DuplicateSessionId => true,
            Error::NoActiveSessionWithId => true,
            Error::NotEnoughNodesForThreshold => false,
            Error::TooEarlyForRequest => true,
            Error::InvalidStateForRequest => true,
            Error::InvalidNodeForRequest => true,
            Error::InvalidMessage => true,
            Error::InvalidMessageVersion => true,
            Error::ReplayProtection => true,
            Error::NodeDisconnected => true,
            Error::EthKey(_) => false,
            Error::Io(_) => false,
            Error::Serde(_) => false,
            Error::ConsensusTemporaryUnreachable => true,
            Error::ConsensusUnreachable => false,
            Error::AccessDenied => false,
            Error::ExclusiveSessionActive => true,
            Error::HasActiveSessions => true,
            Error::InsufficientRequesterData(_) => false,
            Error::Hyper(_) => false,
            Error::Database(_) => false,
            Error::Internal(_) => false,
            Error::ServerKeyAlreadyGenerated => false,
            Error::ServerKeyIsNotFound => false,
            Error::ServerKeyVersionIsNotFound => false,
            Error::DocumentKeyAlreadyStored => false,
            Error::DocumentKeyIsNotFound => false,
        }
    }

    /// Executable form of [`Error::is_internal`]: `true` exactly for the
    /// retry-safe kinds.
    pub fn is_internal_error(&self) -> (r: bool)
        ensures
            r == self.is_internal(),
    {
        match self {
            Error::InvalidNodeAddress => false,
            Error::InvalidNodeId => false,
            Error::DuplicateSessionId => true,
            Error::NoActiveSessionWithId => true,
            Error::NotEnoughNodesForThreshold => false,
            Error::TooEarlyForRequest => true,
            Error::InvalidStateForRequest => true,
            Error::InvalidNodeForRequest => true,
            Error::InvalidMessage => true,
            Error::InvalidMessageVersion => true,
            Error::ReplayProtection => true,
            Error::NodeDisconnected => true,
            Error::EthKey(_) => false,
            Error::Io(_) => false,
            Error::Serde(_) => false,
            Error::ConsensusTemporaryUnreachable => true,
            Error::ConsensusUnreachable => false,
            Error::AccessDenied => false,
            Error::ExclusiveSessionActive => true,
            Error::HasActiveSessions => true,
            Error::InsufficientRequesterData(_) => false,
            Error::Hyper(_) => false,
            Error::Database(_) => false,
            Error::Internal(_) => false,
            Error::ServerKeyAlreadyGenerated => false,
            Error::ServerKeyIsNotFound => false,
            Error::ServerKeyVersionIsNotFound => false,
            Error::DocumentKeyAlreadyStored => false,
            Error::DocumentKeyIsNotFound => false,
        }
    }

    /// The fixed, versioned rendering of each error kind: the serialization
    /// contract towards the RPC layer. Variants with a payload append the
    /// collaborator's original message.
    pub open spec fn message_view(&self) -> Seq<char> {
        match *self {
            Error::InvalidNodeAddress => "invalid node address has been passed"@,
            Error::InvalidNodeId => "invalid node id has been passed"@,
            Error::DuplicateSessionId => "session with the same id is already registered"@,
            Error::NoActiveSessionWithId => "no active session with given id"@,
            Error::NotEnoughNodesForThreshold => "not enough nodes for passed threshold"@,
            Error::TooEarlyForRequest => "session is not yet ready to process this request"@,
            Error::InvalidStateForRequest => "session is in invalid state for processing this request"@,
            Error::InvalidNodeForRequest => "invalid node for this request"@,
            Error::InvalidMessage => "invalid message is received"@,
            Error::InvalidMessageVersion => "unsupported message is received"@,
            Error::ReplayProtection => "replay message is received"@,
            Error::NodeDisconnected => "node required for this operation is currently disconnected"@,
            Error::EthKey(e) => "cryptographic error "@ + e@,
            Error::Io(msg) => "IO error: "@ + msg@,
            Error::Serde(msg) => "Serialization error: "@ + msg@,
            Error::ConsensusTemporaryUnreachable => "Consensus temporary unreachable"@,
            Error::ConsensusUnreachable => "Consensus unreachable"@,
            Error::AccessDenied => "Access dened"@,
            Error::ExclusiveSessionActive => "Exclusive session active"@,
            Error::HasActiveSessions => "Unable to start exclusive session"@,
            Error::InsufficientRequesterData(e) => "Insufficient requester data: "@ + e@,
            Error::Hyper(msg) => "Hyper error: "@ + msg@,
            Error::Database(msg) => "Database error: "@ + msg@,
            Error::Internal(msg) => "Internal error: "@ + msg@,
            Error::ServerKeyAlreadyGenerated => "Server key with this ID is already generated"@,
            Error::ServerKeyIsNotFound => "Server key with this ID is not found"@,
            Error::ServerKeyVersionIsNotFound => "Server key version with this ID is not found"@,
            Error::DocumentKeyAlreadyStored => "Document key with this ID is already stored"@,
            Error::DocumentKeyIsNotFound => "Document key with this ID is not found"@,
        }
    }

    /// Renders the error as its fixed message string.
    pub fn message(&self) -> (r: String)
        ensures
            r@ == self.message_view(),
    {
        match self {
            Error::InvalidNodeAddress => String::from_str("invalid node address has been passed"),
            Error::InvalidNodeId => String::from_str("invalid node id has been passed"),
            Error::DuplicateSessionId => String::from_str(
                "session with the same id is already registered",
            ),
            Error::NoActiveSessionWithId => String::from_str("no active session with given id"),
            Error::NotEnoughNodesForThreshold => String::from_str(
                "not enough nodes for passed threshold",
            ),
            Error::TooEarlyForRequest => String::from_str(
                "session is not yet ready to process this request",
            ),
            Error::InvalidStateForRequest => String::from_str(
                "session is in invalid state for processing this request",
            ),
            Error::InvalidNodeForRequest => String::from_str("invalid node for this request"),
            Error::InvalidMessage => String::from_str("invalid message is received"),
            Error::InvalidMessageVersion => String::from_str("unsupported message is received"),
            Error::ReplayProtection => String::from_str("replay message is received"),
            Error::NodeDisconnected => String::from_str(
                "node required for this operation is currently disconnected",
            ),
            Error::EthKey(e) => {
                let mut s = String::from_str("cryptographic error ");
                s.append(e.as_str());
                s
            },
            Error::Io(msg) => {
                let mut s = String::from_str("IO error: ");
                s.append(msg.as_str());
                s
            },
            Error::Serde(msg) => {
                let mut s = String::from_str("Serialization error: ");
                s.append(msg.as_str());
                s
            },
            Error::ConsensusTemporaryUnreachable => String::from_str(
                "Consensus temporary unreachable",
            ),
            Error::ConsensusUnreachable => String::from_str("Consensus unreachable"),
            Error::AccessDenied => String::from_str("Access dened"),
            Error::ExclusiveSessionActive => String::from_str("Exclusive session active"),
            Error::HasActiveSessions => String::from_str("Unable to start exclusive session"),
            Error::InsufficientRequesterData(e) => {
                let mut s = String::from_str("Insufficient requester data: ");
                s.append(e.as_str());
                s
            },
            Error::Hyper(msg) => {
                let mut s = String::from_str("Hyper error: ");
                s.append(msg.as_str());
                s
            },
            Error::Database(msg) => {
                let mut s = String::from_str("Database error: ");
                s.append(msg.as_str());
                s
            },
            Error::Internal(msg) => {
                let mut s = String::from_str("Internal error: ");
                s.append(msg.as_str());
                s
            },
            Error::ServerKeyAlreadyGenerated => String::from_str(
                "Server key with this ID is already generated",
            ),
            Error::ServerKeyIsNotFound => String::from_str(
                "Server key with this ID is not found",
            ),
            Error::ServerKeyVersionIsNotFound => String::from_str(
                "Server key version with this ID is not found",
            ),
            Error::DocumentKeyAlreadyStored => String::from_str(
                "Document key with this ID is already stored",
            ),
            Error::DocumentKeyIsNotFound => String::from_str(
                "Document key with this ID is not found",
            ),
        }
    }
}

/// Total classification of the error taxonomy: every kind is either
/// retry-safe (`Internal`) or a permanent rejection (`External`), with no
/// default arm to fall through.
pub open spec fn classification_of(e: &Error) -> Classification {
    if e.is_internal() {
        Classification::Internal
    } else {
        Classification::External
    }
}

/// Maps an error to its classification: the façade retries on `Internal`
/// and rejects outright on `External`.
pub fn classify(e: &Error) -> (r: Classification)
    ensures
        r == classification_of(e),
        (r == Classification::Internal) <==> e.is_internal(),
{
    if e.is_internal_error() {
        Classification::Internal
    } else {
        Classification::External
    }
}

/// What the request boundary does with a failed call.
#[derive(Clone, Copy, Debug, PartialEq, Eq, Structural)]
pub enum RetryDecision {
    /// Try the same request again after this many milliseconds.
    RetryAfterMs(u64),
    /// Reject the request permanently.
    Reject,
}

/// The backoff before the next attempt: 100 ms, doubled after each failed
/// attempt.
pub open spec fn retry_backoff_ms(attempts_so_far: u32) -> u64 {
    if attempts_so_far == 0 {
        100
    } else if attempts_so_far == 1 {
        200
    } else {
        400
    }
}

/// The explicit retry policy of the request boundary: an internal-classified
/// error is retried at most three times, with doubling backoff starting at
/// 100 ms; an external-classified error, or a failure after the third
/// attempt, is rejected outright.
pub fn retry_decision(e: &Error, attempts_so_far: u32) -> (r: RetryDecision)
    ensures
        r is RetryAfterMs <==> (e.is_internal() && attempts_so_far < 3),
        r is RetryAfterMs ==> r == RetryDecision::RetryAfterMs(retry_backoff_ms(
            attempts_so_far,
        )),
        r is Reject <==> (!e.is_internal() || attempts_so_far >= 3),
{
    if !e.is_internal_error() || attempts_so_far >= 3 {
        RetryDecision::Reject
    } else if attempts_so_far == 0 {
        RetryDecision::RetryAfterMs(100)
    } else if attempts_so_far == 1 {
        RetryDecision::RetryAfterMs(200)
    } else {
        RetryDecision::RetryAfterMs(400)
    }
}

} // verus!
