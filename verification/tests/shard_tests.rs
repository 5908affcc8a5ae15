use secret_store::shard::Action;
use secret_store::shard::Client;
use secret_store::shard::PROTOCOL_VERSION;
use secret_store::shard::STATUS_PACKET;
use secret_store::shard::ShardMessage;
use secret_store::shard::ShardPayload;
use secret_store::shard::disconnect_message;
use secret_store::shard::into_action;
use secret_store::shard::read_packet;

fn status(peer_id: u64, protocol_version: u64, shard_id: u64) -> ShardMessage {
    ShardMessage {
        peer_id,
        payload: ShardPayload::Status { protocol_version, shard_id, head_hash: 7, head_height: 9 },
    }
}

#[test]
fn wrong_protocol_version_gets_a_disconnect() {
    let mut client = Client::new(3);
    let mut sink = Vec::new();
    client.message(status(11, PROTOCOL_VERSION + 1, 3), &mut sink);
    assert_eq!(client.active_peers(), 0);
    assert_eq!(sink.len(), 1);
    assert_eq!(sink[0].peer_id, 11);
    assert!(matches!(sink[0].payload, ShardPayload::Disconnect));
}

#[test]
fn foreign_shard_gets_a_disconnect() {
    let mut client = Client::new(3);
    let mut sink = Vec::new();
    client.message(status(11, PROTOCOL_VERSION, 4), &mut sink);
    assert_eq!(client.active_peers(), 0);
    assert_eq!(sink.len(), 1);
    assert!(matches!(sink[0].payload, ShardPayload::Disconnect));
}

#[test]
fn acceptable_status_registers_peer_and_replies_with_status() {
    let mut client = Client::new(3);
    let mut sink = Vec::new();
    client.message(status(11, PROTOCOL_VERSION, 3), &mut sink);
    assert_eq!(client.active_peers(), 1);
    assert_eq!(sink.len(), 1);
    assert_eq!(sink[0].peer_id, 11);
    match sink[0].payload {
        ShardPayload::Status { protocol_version, shard_id, head_hash, head_height } => {
            assert_eq!(protocol_version, PROTOCOL_VERSION);
            assert_eq!(shard_id, 3);
            assert_eq!(head_hash, 0);
            assert_eq!(head_height, 0);
        },
        _ => panic!("expected a status reply"),
    }
}

#[test]
fn disconnect_payload_is_ignored() {
    let mut client = Client::new(3);
    let mut sink = Vec::new();
    client.message(disconnect_message(11), &mut sink);
    assert_eq!(client.active_peers(), 0);
    assert!(sink.is_empty());
}

#[test]
fn remove_peer_drops_every_occurrence_in_order() {
    let mut client = Client::new(3);
    let mut sink = Vec::new();
    client.message(status(11, PROTOCOL_VERSION, 3), &mut sink);
    client.message(status(12, PROTOCOL_VERSION, 3), &mut sink);
    client.message(status(11, PROTOCOL_VERSION, 3), &mut sink);
    assert_eq!(client.active_peers(), 3);
    client.remove_peer(11);
    assert_eq!(client.active_peers(), 1);
    assert_eq!(client.peers, vec![12]);
}

#[test]
fn actions_map_status_to_packet_and_disconnect_to_drop() {
    match into_action(status(11, PROTOCOL_VERSION, 3)) {
        Action::Send(peer, packet, payload) => {
            assert_eq!(peer, 11);
            assert_eq!(packet, STATUS_PACKET);
            assert!(payload.is_empty());
        },
        _ => panic!("expected a send action"),
    }
    match into_action(disconnect_message(11)) {
        Action::Disconnect(peer) => assert_eq!(peer, 11),
        _ => panic!("expected a disconnect action"),
    }
}

#[test]
fn only_the_status_packet_is_understood() {
    let decoded = read_packet(11, STATUS_PACKET);
    assert!(decoded.is_some());
    let msg = decoded.unwrap();
    assert_eq!(msg.peer_id, 11);
    assert!(matches!(msg.payload, ShardPayload::Status { .. }));
    assert!(read_packet(11, 1).is_none());
}
