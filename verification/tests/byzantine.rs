use relay_core::byzantine::{
    audit_queried_commitment, plan_byzantine_check, resolve_byzantine_check, ByzantineError,
    ByzantineOutcome,
};
use relay_core::pipeline::consensus_message_for_header;
use relay_core::state::{ConsensusMessage, Header, StateMachineCommitment, StateMachineId};
use relay_core::words::{H256, U256};

fn local_id() -> StateMachineId {
    StateMachineId { state_id: 56, consensus_state_id: 7 }
}

fn root(last: u8) -> H256 {
    let mut bytes = vec![0u8; 32];
    bytes[31] = last;
    H256 { bytes }
}

fn header(height: u64, state_root: H256) -> Header {
    Header { number: U256::from_u64(height), state_root }
}

fn commitment(state_root: H256) -> StateMachineCommitment {
    StateMachineCommitment { state_root, timestamp: 1_700_000_000 }
}

#[test]
fn matching_roots_mean_no_freeze() {
    let msg = consensus_message_for_header(&header(1000, root(0xaa)), 7);
    let plan = plan_byzantine_check(local_id(), &msg).unwrap();
    assert_eq!(plan.height.height, 1000);
    assert_eq!(plan.height.id, local_id());
    let verdict = resolve_byzantine_check(&plan, &commitment(root(0xaa)));
    assert_eq!(verdict, ByzantineOutcome::NoFraud);
}

#[test]
fn differing_roots_demand_freeze() {
    let msg = consensus_message_for_header(&header(1000, root(0xaa)), 7);
    let plan = plan_byzantine_check(local_id(), &msg).unwrap();
    let verdict = resolve_byzantine_check(&plan, &commitment(root(0xbb)));
    assert_eq!(verdict, ByzantineOutcome::FreezeRequired(local_id()));
}

#[test]
fn single_bit_difference_still_triggers() {
    let msg = consensus_message_for_header(&header(1000, root(0b1000_0000)), 7);
    let plan = plan_byzantine_check(local_id(), &msg).unwrap();
    let verdict = resolve_byzantine_check(&plan, &commitment(root(0b1000_0001)));
    assert_eq!(verdict, ByzantineOutcome::FreezeRequired(local_id()));
    // A difference buried in the middle of the digest triggers just the same.
    let mut middle = vec![0u8; 32];
    middle[15] = 1;
    let verdict = resolve_byzantine_check(&plan, &commitment(H256 { bytes: middle }));
    assert_eq!(verdict, ByzantineOutcome::FreezeRequired(local_id()));
}

#[test]
fn missing_commitment_is_a_query_failure() {
    let msg = consensus_message_for_header(&header(2000, root(0xaa)), 7);
    let plan = plan_byzantine_check(local_id(), &msg).unwrap();
    let r = audit_queried_commitment(&plan, &None);
    assert_eq!(r, Err(ByzantineError::MissingCommitment));
}

#[test]
fn queried_commitment_is_audited() {
    let msg = consensus_message_for_header(&header(2000, root(0xaa)), 7);
    let plan = plan_byzantine_check(local_id(), &msg).unwrap();
    let r = audit_queried_commitment(&plan, &Some(commitment(root(0xaa))));
    assert_eq!(r, Ok(ByzantineOutcome::NoFraud));
    let r = audit_queried_commitment(&plan, &Some(commitment(root(0x01))));
    assert_eq!(r, Ok(ByzantineOutcome::FreezeRequired(local_id())));
}

#[test]
fn malformed_proof_is_a_hard_error() {
    let msg = ConsensusMessage { consensus_proof: vec![1, 2, 3], consensus_state_id: 7 };
    assert_eq!(plan_byzantine_check(local_id(), &msg), Err(ByzantineError::ProofDecode));
    let msg = ConsensusMessage { consensus_proof: vec![0; 65], consensus_state_id: 7 };
    assert_eq!(plan_byzantine_check(local_id(), &msg), Err(ByzantineError::ProofDecode));
}

#[test]
fn height_round_trips_within_64_bits() {
    for x in [0u64, 1, 1000, u64::MAX] {
        assert_eq!(U256::from_u64(x).try_to_u64(), Some(x));
    }
    let msg = consensus_message_for_header(&header(u64::MAX, root(2)), 7);
    let plan = plan_byzantine_check(local_id(), &msg).unwrap();
    assert_eq!(plan.height.height, u64::MAX);
}

#[test]
fn oversized_height_overflows_never_truncates() {
    let mut bytes = vec![0u8; 32];
    bytes[8] = 1; // value is exactly 2^64
    let number = U256 { bytes };
    assert_eq!(number.try_to_u64(), None);
    let h = Header { number, state_root: root(9) };
    let msg = consensus_message_for_header(&h, 7);
    assert_eq!(plan_byzantine_check(local_id(), &msg), Err(ByzantineError::HeightOverflow));
}
