use secret_store::Error;
use secret_store::nodes::NodeRegistry;
use secret_store::registry::MESSAGE_VERSION;
use secret_store::registry::SessionRegistry;
use secret_store::session::MessageBody;
use secret_store::session::SessionKind;
use secret_store::session::SessionMessage;
use secret_store::session::SessionState;

fn connected_nodes() -> NodeRegistry {
    let mut reg = NodeRegistry::new(&vec![1, 2, 3, 4]);
    reg.connect(1);
    reg.connect(2);
    reg.connect(3);
    reg.connect(4);
    reg
}

fn contribution(sender: u64, round: u64, value: u64) -> SessionMessage {
    SessionMessage { sender, version: MESSAGE_VERSION, round, body: MessageBody::Contribution(value) }
}

#[test]
fn start_succeeds_exactly_for_thresholds_up_to_n_minus_one() {
    for t in 0..4usize {
        let mut registry = SessionRegistry::new();
        let r = registry.start_session(7, SessionKind::GenerateServerKey, t, vec![1, 2, 3, 4], false, 0);
        assert!(r.is_ok());
        assert_eq!(registry.sessions.len(), 1);
    }
    let mut registry = SessionRegistry::new();
    let r = registry.start_session(7, SessionKind::GenerateServerKey, 4, vec![1, 2, 3, 4], false, 0);
    assert!(matches!(r, Err(Error::NotEnoughNodesForThreshold)));
    assert_eq!(registry.sessions.len(), 0);
    let r = registry.start_session(7, SessionKind::GenerateServerKey, 0, vec![], false, 0);
    assert!(matches!(r, Err(Error::NotEnoughNodesForThreshold)));
    assert_eq!(registry.sessions.len(), 0);
}

#[test]
fn duplicate_session_id_is_rejected_atomically() {
    let mut registry = SessionRegistry::new();
    assert!(registry
        .start_session(9, SessionKind::GenerateServerKey, 1, vec![1, 2, 3, 4], false, 0)
        .is_ok());
    let r = registry.start_session(9, SessionKind::RetrieveServerKey, 1, vec![1, 2, 3, 4], false, 0);
    assert!(matches!(r, Err(Error::DuplicateSessionId)));
    assert_eq!(registry.sessions.len(), 1);
    assert!(matches!(registry.sessions[0].kind, SessionKind::GenerateServerKey));
}

#[test]
fn exclusive_start_conflicts_until_the_active_session_terminates() {
    let mut registry = SessionRegistry::new();
    assert!(registry
        .start_session(1, SessionKind::GenerateServerKey, 1, vec![1, 2, 3, 4], false, 0)
        .is_ok());
    let r = registry.start_session(2, SessionKind::NegotiateKeyVersion, 1, vec![1, 2, 3, 4], true, 0);
    assert!(matches!(r, Err(Error::HasActiveSessions)));
    assert_eq!(registry.sessions.len(), 1);
    assert!(registry.complete(1).is_ok());
    let r = registry.start_session(2, SessionKind::NegotiateKeyVersion, 1, vec![1, 2, 3, 4], true, 0);
    assert!(r.is_ok());
}

#[test]
fn nothing_starts_while_an_exclusive_session_is_active() {
    let mut registry = SessionRegistry::new();
    assert!(registry
        .start_session(1, SessionKind::NegotiateKeyVersion, 1, vec![1, 2, 3, 4], true, 0)
        .is_ok());
    let r = registry.start_session(2, SessionKind::GenerateServerKey, 1, vec![1, 2, 3, 4], false, 0);
    assert!(matches!(r, Err(Error::ExclusiveSessionActive)));
    assert_eq!(registry.sessions.len(), 1);
}

#[test]
fn dispatch_rejects_unknown_session_version_and_sender() {
    let nodes = connected_nodes();
    let mut registry = SessionRegistry::new();
    assert!(registry
        .start_session(5, SessionKind::GenerateServerKey, 1, vec![1, 2, 3, 4], false, 0)
        .is_ok());
    assert!(registry.activate(5, &nodes).is_ok());
    let r = registry.dispatch(6, &contribution(1, 1, 42), &nodes, 1);
    assert!(matches!(r, Err(Error::NoActiveSessionWithId)));
    let mut wrong_version = contribution(1, 1, 42);
    wrong_version.version = MESSAGE_VERSION + 1;
    let r = registry.dispatch(5, &wrong_version, &nodes, 1);
    assert!(matches!(r, Err(Error::InvalidMessageVersion)));
    let r = registry.dispatch(5, &contribution(77, 1, 42), &nodes, 1);
    assert!(matches!(r, Err(Error::InvalidNodeForRequest)));
}

#[test]
fn replayed_round_is_rejected_and_next_round_is_accepted() {
    let nodes = connected_nodes();
    let mut registry = SessionRegistry::new();
    assert!(registry
        .start_session(5, SessionKind::GenerateServerKey, 2, vec![1, 2, 3, 4], false, 0)
        .is_ok());
    assert!(registry.activate(5, &nodes).is_ok());
    assert!(registry.dispatch(5, &contribution(1, 1, 42), &nodes, 1).is_ok());
    let replay = registry.dispatch(5, &contribution(1, 1, 42), &nodes, 2);
    assert!(matches!(replay, Err(Error::ReplayProtection)));
    let lower = registry.dispatch(5, &contribution(1, 0, 42), &nodes, 3);
    assert!(matches!(lower, Err(Error::ReplayProtection)));
    let next = registry.dispatch(5, &contribution(1, 2, 42), &nodes, 4);
    assert!(next.is_ok());
    let other_peer = registry.dispatch(5, &contribution(2, 1, 42), &nodes, 5);
    assert!(other_peer.is_ok());
}

#[test]
fn mismatched_contribution_value_is_invalid() {
    let nodes = connected_nodes();
    let mut registry = SessionRegistry::new();
    assert!(registry
        .start_session(5, SessionKind::GenerateServerKey, 2, vec![1, 2, 3, 4], false, 0)
        .is_ok());
    assert!(registry.activate(5, &nodes).is_ok());
    assert!(registry.dispatch(5, &contribution(1, 1, 42), &nodes, 1).is_ok());
    let r = registry.dispatch(5, &contribution(2, 1, 43), &nodes, 2);
    assert!(matches!(r, Err(Error::InvalidMessage)));
}

#[test]
fn finalize_before_consensus_is_misbehavior_and_polls_are_too_early() {
    let nodes = connected_nodes();
    let mut registry = SessionRegistry::new();
    assert!(registry
        .start_session(5, SessionKind::GenerateServerKey, 1, vec![1, 2, 3, 4], false, 0)
        .is_ok());
    assert!(registry.activate(5, &nodes).is_ok());
    let finalize = SessionMessage {
        sender: 1,
        version: MESSAGE_VERSION,
        round: 1,
        body: MessageBody::Finalize,
    };
    assert!(matches!(
        registry.dispatch(5, &finalize, &nodes, 1),
        Err(Error::InvalidStateForRequest)
    ));
    let poll = SessionMessage {
        sender: 1,
        version: MESSAGE_VERSION,
        round: 1,
        body: MessageBody::Request,
    };
    assert!(matches!(registry.dispatch(5, &poll, &nodes, 1), Err(Error::TooEarlyForRequest)));
}

#[test]
fn contribution_before_activation_is_too_early() {
    let nodes = connected_nodes();
    let mut registry = SessionRegistry::new();
    assert!(registry
        .start_session(5, SessionKind::GenerateServerKey, 1, vec![1, 2, 3, 4], false, 0)
        .is_ok());
    let r = registry.dispatch(5, &contribution(1, 1, 42), &nodes, 1);
    assert!(matches!(r, Err(Error::TooEarlyForRequest)));
}

#[test]
fn session_awaits_participants_without_connectivity() {
    let nodes = NodeRegistry::new(&vec![1, 2, 3, 4]);
    let mut registry = SessionRegistry::new();
    assert!(registry
        .start_session(5, SessionKind::GenerateServerKey, 1, vec![1, 2, 3, 4], false, 0)
        .is_ok());
    assert!(registry.activate(5, &nodes).is_ok());
    assert!(matches!(registry.sessions[0].state, SessionState::AwaitingParticipants));
}

#[test]
fn idle_sweep_demotes_to_temporary_unreachable() {
    let nodes = connected_nodes();
    let mut registry = SessionRegistry::new();
    assert!(registry
        .start_session(5, SessionKind::GenerateServerKey, 1, vec![1, 2, 3, 4], false, 100)
        .is_ok());
    assert!(registry.activate(5, &nodes).is_ok());
    registry.sweep_idle(150, 100);
    assert!(matches!(registry.sessions[0].state, SessionState::ConsensusRound(1)));
    registry.sweep_idle(250, 100);
    assert!(matches!(
        registry.sessions[0].state,
        SessionState::Failed(Error::ConsensusTemporaryUnreachable)
    ));
}

#[test]
fn contribution_unreachable_when_rest_of_cluster_is_down() {
    let mut nodes = connected_nodes();
    let mut registry = SessionRegistry::new();
    assert!(registry
        .start_session(5, SessionKind::GenerateServerKey, 1, vec![1, 2, 3, 4], false, 0)
        .is_ok());
    assert!(registry.activate(5, &nodes).is_ok());
    nodes.disconnect(2);
    nodes.disconnect(3);
    nodes.disconnect(4);
    let r = registry.dispatch(5, &contribution(1, 1, 42), &nodes, 1);
    assert!(matches!(r, Err(Error::ConsensusUnreachable)));
    assert!(matches!(
        registry.sessions[0].state,
        SessionState::Failed(Error::ConsensusUnreachable)
    ));
}

#[test]
fn version_check_agrees_on_majority_version() {
    let nodes = connected_nodes();
    let mut registry = SessionRegistry::new();
    assert!(registry
        .start_session(8, SessionKind::RetrieveServerKey, 1, vec![1, 2, 3, 4], false, 0)
        .is_ok());
    assert!(registry.activate(8, &nodes).is_ok());
    assert!(registry.dispatch(8, &contribution(1, 1, 42), &nodes, 1).is_ok());
    assert!(registry.dispatch(8, &contribution(2, 1, 42), &nodes, 2).is_ok());
    assert!(matches!(registry.sessions[0].state, SessionState::VersionCheck));
    let vote1 = SessionMessage {
        sender: 1,
        version: MESSAGE_VERSION,
        round: 2,
        body: MessageBody::VersionVote(5),
    };
    assert!(registry.dispatch(8, &vote1, &nodes, 3).is_ok());
    assert!(matches!(registry.sessions[0].state, SessionState::VersionCheck));
    let vote2 = SessionMessage {
        sender: 3,
        version: MESSAGE_VERSION,
        round: 2,
        body: MessageBody::VersionVote(5),
    };
    assert!(registry.dispatch(8, &vote2, &nodes, 4).is_ok());
    assert!(matches!(registry.sessions[0].state, SessionState::Completing));
    assert_eq!(registry.sessions[0].agreed_version, Some(5));
}

#[test]
fn version_check_fails_when_all_voted_without_quorum() {
    let nodes = {
        let mut reg = NodeRegistry::new(&vec![1, 2, 3]);
        reg.connect(1);
        reg.connect(2);
        reg.connect(3);
        reg
    };
    let mut registry = SessionRegistry::new();
    assert!(registry
        .start_session(8, SessionKind::RetrieveServerKey, 1, vec![1, 2, 3], false, 0)
        .is_ok());
    assert!(registry.activate(8, &nodes).is_ok());
    assert!(registry.dispatch(8, &contribution(1, 1, 42), &nodes, 1).is_ok());
    assert!(registry.dispatch(8, &contribution(2, 1, 42), &nodes, 2).is_ok());
    let votes = [(1u64, 5u64), (2, 6), (3, 7)];
    let mut last = Ok(());
    for (sender, ver) in votes {
        let msg = SessionMessage {
            sender,
            version: MESSAGE_VERSION,
            round: 2,
            body: MessageBody::VersionVote(ver),
        };
        last = registry.dispatch(8, &msg, &nodes, 3);
    }
    assert!(matches!(last, Err(Error::ConsensusUnreachable)));
    assert!(matches!(
        registry.sessions[0].state,
        SessionState::Failed(Error::ConsensusUnreachable)
    ));
}
