use relay_core::codec::{decode_header, encode_header, HEADER_ENCODING_LEN};
use relay_core::pipeline::{
    consensus_message_for_header, filter_decode_notifications, initial_consensus_state,
    CHALLENGE_PERIOD_SECS, UNBONDING_PERIOD_SECS,
};
use relay_core::state::Header;
use relay_core::words::{H256, U256};

fn header(height: u64, last: u8) -> Header {
    let mut bytes = vec![0u8; 32];
    bytes[31] = last;
    Header { number: U256::from_u64(height), state_root: H256 { bytes } }
}

#[test]
fn header_encoding_round_trips() {
    let h = header(123_456, 0x7f);
    let raw = encode_header(&h);
    assert_eq!(raw.len(), HEADER_ENCODING_LEN);
    let back = decode_header(&raw).unwrap();
    assert_eq!(back, h);
}

#[test]
fn wrong_length_payloads_do_not_decode() {
    assert!(decode_header(&vec![]).is_none());
    assert!(decode_header(&vec![0u8; 63]).is_none());
    assert!(decode_header(&vec![0u8; 65]).is_none());
}

#[test]
fn bad_notification_is_dropped_stream_lives_on() {
    let good_one = encode_header(&header(10, 1));
    let good_two = encode_header(&header(11, 2));
    let raws = vec![vec![0u8; 5], good_one, vec![], good_two, vec![0u8; 100]];
    let hs = filter_decode_notifications(&raws);
    assert_eq!(hs, vec![header(10, 1), header(11, 2)]);
}

#[test]
fn all_bad_notifications_leave_nothing() {
    let raws = vec![vec![1, 2], vec![3]];
    assert!(filter_decode_notifications(&raws).is_empty());
}

#[test]
fn message_carries_the_encoded_header() {
    let h = header(42, 9);
    let m = consensus_message_for_header(&h, 5);
    assert_eq!(m.consensus_state_id, 5);
    assert_eq!(m.consensus_proof, encode_header(&h));
}

#[test]
fn bootstrap_record_holds_the_protocol_constants() {
    let r = initial_consensus_state(vec![1, 2, 3], 8, 9);
    assert_eq!(r.consensus_state, vec![1, 2, 3]);
    assert_eq!(r.consensus_client_id, 8);
    assert_eq!(r.consensus_state_id, 9);
    assert_eq!(r.unbonding_period, 60 * 60 * 60 * 27);
    assert_eq!(r.unbonding_period, UNBONDING_PERIOD_SECS);
    assert_eq!(r.challenge_period, 5 * 60);
    assert_eq!(r.challenge_period, CHALLENGE_PERIOD_SECS);
    assert!(r.state_machine_commitments.is_empty());
}
