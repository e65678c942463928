use relay_core::abi::{encode_host_params, EvmHostParamsAbi, ParamField};
use relay_core::params::{BoundedVec, EvmHostParam, EvmHostParamUpdate, MAX_LIST_LEN};
use relay_core::words::{H160, U256};

fn addr(last: u8) -> H160 {
    let mut bytes = vec![0u8; 20];
    bytes[19] = last;
    H160 { bytes }
}

fn base_record() -> EvmHostParam {
    EvmHostParam {
        default_timeout: 2,
        per_byte_fee: U256::from_u64(3),
        state_commitment_fee: U256::from_u64(4),
        fee_token: addr(0x11),
        admin: addr(0x22),
        handler: addr(0x33),
        host_manager: addr(0x44),
        uniswap_v2: addr(0x55),
        un_staking_period: 6,
        challenge_period: 7,
        consensus_client: addr(0x66),
        state_machines: BoundedVec::try_from_vec(vec![97u32]).unwrap(),
        fishermen: BoundedVec::new(),
        hyperbridge: BoundedVec::try_from_vec(vec![0xde, 0xad]).unwrap(),
    }
}

/// A 32-byte big-endian word holding a small number.
fn word(x: u64) -> Vec<u8> {
    let mut w = vec![0u8; 32];
    w[24..].copy_from_slice(&x.to_be_bytes());
    w
}

/// A 32-byte word holding an address, left-padded.
fn address_word(a: &H160) -> Vec<u8> {
    let mut w = vec![0u8; 12];
    w.extend_from_slice(&a.bytes);
    w
}

#[test]
fn empty_patch_is_a_noop() {
    let mut p = base_record();
    let before = p.clone();
    p.update(EvmHostParamUpdate::none());
    assert_eq!(p, before);
    // Byte for byte: the encodings agree too.
    let a = encode_host_params(p).unwrap();
    let b = encode_host_params(before).unwrap();
    assert_eq!(a, b);
}

#[test]
fn patch_replaces_exactly_the_present_fields() {
    let mut p = base_record();
    let mut patch = EvmHostParamUpdate::none();
    patch.per_byte_fee = Some(U256::from_u64(5));
    p.update(patch);
    assert_eq!(p.per_byte_fee, U256::from_u64(5));
    assert_eq!(p.admin, addr(0x22));
    assert_eq!(p.default_timeout, 2);
    let bytes = encode_host_params(p).unwrap();
    assert_eq!(bytes[0], 1u8);
    // The per-byte fee is the second head word, right after the discriminant.
    assert_eq!(&bytes[33..65], word(5).as_slice());
    // The admin word is untouched.
    assert_eq!(&bytes[1 + 4 * 32..1 + 5 * 32], address_word(&addr(0x22)).as_slice());
}

#[test]
fn disjoint_patches_land_in_either_order() {
    let mut one = base_record();
    let mut other = base_record();
    let mut fee = EvmHostParamUpdate::none();
    fee.per_byte_fee = Some(U256::from_u64(9));
    let mut who = EvmHostParamUpdate::none();
    who.admin = Some(addr(0x99));
    one.update(fee.clone());
    one.update(who.clone());
    other.update(who);
    other.update(fee);
    assert_eq!(one, other);
}

#[test]
fn encoding_is_the_documented_layout() {
    let p = base_record();
    let bytes = encode_host_params(p).unwrap();
    let mut expected = vec![1u8];
    expected.extend(word(2)); // defaultTimeout
    expected.extend(word(3)); // perByteFee
    expected.extend(word(4)); // stateCommitmentFee
    expected.extend(address_word(&addr(0x11))); // feeToken
    expected.extend(address_word(&addr(0x22))); // admin
    expected.extend(address_word(&addr(0x33))); // handler
    expected.extend(address_word(&addr(0x44))); // hostManager
    expected.extend(address_word(&addr(0x55))); // uniswapV2
    expected.extend(word(6)); // unStakingPeriod
    expected.extend(word(7)); // challengePeriod
    expected.extend(address_word(&addr(0x66))); // consensusClient
    expected.extend(word(448)); // offset of stateMachines
    expected.extend(word(448 + 32 + 32)); // offset of fishermen
    expected.extend(word(448 + 64 + 32)); // offset of hyperbridge
    expected.extend(word(1)); // stateMachines length
    expected.extend(word(97)); // the one state machine
    expected.extend(word(0)); // fishermen length
    expected.extend(word(2)); // hyperbridge length
    let mut tail = vec![0xde, 0xad];
    tail.resize(32, 0); // zero-padded to a whole word
    expected.extend(tail);
    assert_eq!(bytes, expected);
}

#[test]
fn lists_encode_at_the_bound() {
    let mut p = base_record();
    p.state_machines = BoundedVec::try_from_vec(vec![7u32; MAX_LIST_LEN]).unwrap();
    let bytes = encode_host_params(p).unwrap();
    // head + three tails: the state machine list fills a thousand words.
    assert_eq!(bytes.len(), 1 + 448 + (32 + 32 * MAX_LIST_LEN) + 32 + (32 + 32));
}

#[test]
fn one_entry_beyond_the_bound_is_unconstructible() {
    assert!(BoundedVec::try_from_vec(vec![7u32; MAX_LIST_LEN + 1]).is_err());
    let mut full = BoundedVec::try_from_vec(vec![7u32; MAX_LIST_LEN]).unwrap();
    assert_eq!(full.try_push(8), Err(8));
    assert_eq!(full.len(), MAX_LIST_LEN);
}

#[test]
fn malformed_fields_abort_the_encode_by_name() {
    let mut p = base_record();
    p.per_byte_fee = U256 { bytes: vec![0u8; 31] };
    assert_eq!(encode_host_params(p), Err(ParamField::PerByteFee));
    let mut p = base_record();
    p.admin = H160 { bytes: vec![0u8; 19] };
    assert_eq!(encode_host_params(p), Err(ParamField::Admin));
    let mut p = base_record();
    p.fishermen = BoundedVec::try_from_vec(vec![H160 { bytes: vec![0u8; 21] }]).unwrap();
    assert_eq!(encode_host_params(p), Err(ParamField::Fishermen));
}

#[test]
fn conversion_keeps_every_field() {
    let abi = EvmHostParamsAbi::try_from(base_record()).unwrap();
    assert_eq!(abi.default_timeout, U256::from_u64(2));
    assert_eq!(abi.per_byte_fee, U256::from_u64(3));
    assert_eq!(abi.un_staking_period, U256::from_u64(6));
    assert_eq!(abi.challenge_period, U256::from_u64(7));
    assert_eq!(abi.fee_token, addr(0x11));
    assert_eq!(abi.state_machines, vec![U256::from_u64(97)]);
    assert_eq!(abi.hyperbridge, vec![0xde, 0xad]);
}
