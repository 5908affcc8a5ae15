use secret_store::Error;
use secret_store::facade::ClusterClient;
use secret_store::registry::MESSAGE_VERSION;
use secret_store::session::MessageBody;
use secret_store::session::SessionState;

fn cluster() -> ClusterClient {
    let mut cc = ClusterClient::new(&vec![1, 2, 3, 4]);
    cc.nodes.connect(1);
    cc.nodes.connect(2);
    cc.nodes.connect(3);
    cc.nodes.connect(4);
    cc
}

fn share(sender: u64, round: u64, value: u64) -> secret_store::session::SessionMessage {
    secret_store::session::SessionMessage {
        sender,
        version: MESSAGE_VERSION,
        round,
        body: MessageBody::Contribution(value),
    }
}

#[test]
fn generation_succeeds_with_three_of_four_responses() {
    let mut cc = cluster();
    assert!(cc.start_server_key_generation(100, 1, 10).is_ok());
    assert!(cc.registry.activate(100, &cc.nodes).is_ok());
    assert!(matches!(cc.session_status(100), Ok(SessionState::ConsensusRound(1))));
    assert!(cc.registry.dispatch(100, &share(1, 1, 42), &cc.nodes, 11).is_ok());
    assert!(cc.registry.dispatch(100, &share(2, 1, 42), &cc.nodes, 12).is_ok());
    assert!(cc.registry.dispatch(100, &share(3, 1, 42), &cc.nodes, 13).is_ok());
    assert!(matches!(cc.session_status(100), Ok(SessionState::Completing)));
    assert!(cc.complete_generation(100, 777, 1).is_ok());
    assert!(matches!(cc.session_status(100), Err(Error::NoActiveSessionWithId)));
    assert_eq!(cc.retrieve_server_key(100), Ok(777));
}

#[test]
fn lone_responder_waits_then_round_expires_unreachable() {
    let mut cc = cluster();
    assert!(cc.start_server_key_generation(100, 1, 10).is_ok());
    assert!(cc.registry.activate(100, &cc.nodes).is_ok());
    assert!(cc.registry.dispatch(100, &share(1, 1, 42), &cc.nodes, 11).is_ok());
    assert!(matches!(cc.session_status(100), Ok(SessionState::ConsensusRound(1))));
    cc.registry.expire_rounds(20, 100);
    assert!(matches!(cc.session_status(100), Ok(SessionState::ConsensusRound(1))));
    cc.registry.expire_rounds(500, 100);
    assert!(matches!(
        cc.session_status(100),
        Ok(SessionState::Failed(Error::ConsensusUnreachable))
    ));
    assert!(!Error::ConsensusUnreachable.is_internal_error());
}

#[test]
fn retrieval_before_generation_is_not_found_and_external() {
    let cc = cluster();
    let r = cc.retrieve_server_key(100);
    assert!(matches!(r, Err(Error::ServerKeyIsNotFound)));
    assert!(!Error::ServerKeyIsNotFound.is_internal_error());
}

#[test]
fn second_document_key_store_for_one_document_fails() {
    let mut cc = cluster();
    assert!(cc.start_server_key_generation(100, 0, 10).is_ok());
    assert!(cc.registry.activate(100, &cc.nodes).is_ok());
    assert!(cc.registry.dispatch(100, &share(1, 1, 42), &cc.nodes, 11).is_ok());
    assert!(cc.complete_generation(100, 777, 1).is_ok());
    assert!(cc.store_document_key(500, 100, 9001, 31).is_ok());
    let again = cc.store_document_key(500, 100, 9002, 31);
    assert!(matches!(again, Err(Error::DocumentKeyAlreadyStored)));
    assert_eq!(cc.document_keys.len(), 1);
}

#[test]
fn document_key_needs_an_existing_server_key() {
    let mut cc = cluster();
    let r = cc.store_document_key(500, 100, 9001, 31);
    assert!(matches!(r, Err(Error::ServerKeyIsNotFound)));
}

#[test]
fn document_key_retrieval_checks_authorization_then_existence() {
    let mut cc = cluster();
    assert!(cc.start_server_key_generation(100, 0, 10).is_ok());
    assert!(cc.registry.activate(100, &cc.nodes).is_ok());
    assert!(cc.registry.dispatch(100, &share(2, 1, 42), &cc.nodes, 11).is_ok());
    assert!(cc.complete_generation(100, 777, 1).is_ok());
    assert!(cc.store_document_key(500, 100, 9001, 31).is_ok());
    assert!(matches!(cc.retrieve_document_key(500, false), Err(Error::AccessDenied)));
    assert!(matches!(cc.retrieve_document_key(501, true), Err(Error::DocumentKeyIsNotFound)));
    assert_eq!(cc.retrieve_document_key(500, true), Ok(9001));
}

#[test]
fn generation_for_an_existing_key_is_rejected() {
    let mut cc = cluster();
    assert!(cc.start_server_key_generation(100, 0, 10).is_ok());
    assert!(cc.registry.activate(100, &cc.nodes).is_ok());
    assert!(cc.registry.dispatch(100, &share(1, 1, 42), &cc.nodes, 11).is_ok());
    assert!(cc.complete_generation(100, 777, 1).is_ok());
    let r = cc.start_server_key_generation(100, 1, 20);
    assert!(matches!(r, Err(Error::ServerKeyAlreadyGenerated)));
}

#[test]
fn completing_requires_a_completed_generation_session() {
    let mut cc = cluster();
    assert!(matches!(
        cc.complete_generation(100, 777, 1),
        Err(Error::NoActiveSessionWithId)
    ));
    assert!(cc.start_server_key_generation(100, 1, 10).is_ok());
    let early = cc.complete_generation(100, 777, 1);
    assert!(matches!(early, Err(Error::InvalidStateForRequest)));
    assert!(cc.retrieve_server_key(100).is_err());
}

#[test]
fn negotiated_versions_accumulate_as_history() {
    let mut cc = cluster();
    assert!(cc.start_server_key_generation(100, 0, 10).is_ok());
    assert!(cc.registry.activate(100, &cc.nodes).is_ok());
    assert!(cc.registry.dispatch(100, &share(1, 1, 42), &cc.nodes, 11).is_ok());
    assert!(cc.complete_generation(100, 777, 1).is_ok());
    assert_eq!(cc.server_keys[0].versions, vec![1]);
    assert!(cc.record_server_key_version(100, 2).is_ok());
    assert!(cc.record_server_key_version(100, 3).is_ok());
    assert_eq!(cc.server_keys[0].versions, vec![1, 2, 3]);
    assert_eq!(cc.retrieve_server_key(100), Ok(777));
    let missing = cc.record_server_key_version(200, 2);
    assert!(matches!(missing, Err(secret_store::Error::ServerKeyIsNotFound)));
}

#[test]
fn extra_share_after_quorum_is_discarded_without_effect() {
    let mut cc = cluster();
    assert!(cc.start_server_key_generation(100, 1, 10).is_ok());
    assert!(cc.registry.activate(100, &cc.nodes).is_ok());
    assert!(cc.registry.dispatch(100, &share(1, 1, 42), &cc.nodes, 11).is_ok());
    assert!(cc.registry.dispatch(100, &share(2, 1, 42), &cc.nodes, 12).is_ok());
    assert!(matches!(cc.session_status(100), Ok(SessionState::Completing)));
    let extra = cc.registry.dispatch(100, &share(4, 1, 42), &cc.nodes, 13);
    assert!(extra.is_ok());
    assert!(matches!(cc.session_status(100), Ok(SessionState::Completing)));
}
