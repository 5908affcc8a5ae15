use secret_store::consensus::ConsensusDecision;
use secret_store::consensus::ConsensusTracker;
use secret_store::nodes::NodeRegistry;

fn four_nodes_all_connected() -> NodeRegistry {
    let mut reg = NodeRegistry::new(&vec![1, 2, 3, 4]);
    reg.connect(1);
    reg.connect(2);
    reg.connect(3);
    reg.connect(4);
    reg
}

#[test]
fn connectivity_flags() {
    let mut reg = NodeRegistry::new(&vec![1, 2, 3]);
    assert!(!reg.is_connected(1));
    reg.connect(1);
    reg.connect(3);
    assert!(reg.is_connected(1));
    assert!(!reg.is_connected(2));
    assert!(reg.is_connected(3));
    reg.disconnect(1);
    assert!(!reg.is_connected(1));
    assert!(!reg.is_connected(9));
}

#[test]
fn quorum_proceeds_with_canonical_lowest_subset() {
    let reg = four_nodes_all_connected();
    let mut tracker = ConsensusTracker::new(1, vec![1, 2, 3, 4]);
    tracker.insert_contribution(4);
    tracker.insert_contribution(2);
    tracker.insert_contribution(3);
    match tracker.decide(&reg) {
        ConsensusDecision::Proceed(sel) => assert_eq!(sel, vec![2, 3]),
        _ => panic!("expected a quorum"),
    }
}

#[test]
fn selection_is_deterministic_across_runs() {
    let reg = four_nodes_all_connected();
    let mut tracker = ConsensusTracker::new(2, vec![1, 2, 3, 4]);
    tracker.insert_contribution(3);
    tracker.insert_contribution(1);
    tracker.insert_contribution(4);
    let first = match tracker.decide(&reg) {
        ConsensusDecision::Proceed(sel) => sel,
        _ => panic!("expected a quorum"),
    };
    let second = match tracker.decide(&reg) {
        ConsensusDecision::Proceed(sel) => sel,
        _ => panic!("expected a quorum"),
    };
    assert_eq!(first, second);
    assert_eq!(first, vec![1, 3, 4]);
}

#[test]
fn waits_while_quorum_is_still_achievable() {
    let reg = four_nodes_all_connected();
    let mut tracker = ConsensusTracker::new(1, vec![1, 2, 3, 4]);
    tracker.insert_contribution(1);
    assert!(matches!(tracker.decide(&reg), ConsensusDecision::Wait));
}

#[test]
fn unreachable_once_too_many_nodes_disconnect() {
    let mut reg = four_nodes_all_connected();
    let mut tracker = ConsensusTracker::new(1, vec![1, 2, 3, 4]);
    tracker.insert_contribution(1);
    reg.disconnect(2);
    reg.disconnect(3);
    reg.disconnect(4);
    let decision = tracker.decide(&reg);
    assert!(matches!(decision, ConsensusDecision::Unreachable));
    assert!(!secret_store::Error::ConsensusUnreachable.is_internal_error());
}

#[test]
fn empty_round_with_no_connectivity_is_unreachable() {
    let reg = NodeRegistry::new(&vec![1, 2, 3, 4]);
    let tracker = ConsensusTracker::new(0, vec![1, 2, 3, 4]);
    assert!(matches!(tracker.decide(&reg), ConsensusDecision::Unreachable));
}

#[test]
fn duplicate_contribution_is_visible_before_insert() {
    let mut tracker = ConsensusTracker::new(1, vec![1, 2, 3]);
    assert!(!tracker.has_contributed(2));
    tracker.insert_contribution(2);
    assert!(tracker.has_contributed(2));
    assert!(!tracker.has_contributed(1));
}
