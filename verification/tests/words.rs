use relay_core::words::{eq_bytes, H160, H256, U256};

#[test]
fn words_hold_little_endian_bytes() {
    let w = U256::from_u128(0x0102_0304);
    assert_eq!(w.bytes[0], 4);
    assert_eq!(w.bytes[1], 3);
    assert_eq!(w.bytes[2], 2);
    assert_eq!(w.bytes[3], 1);
    assert!(w.bytes[4..].iter().all(|b| *b == 0));
}

#[test]
fn narrowing_is_exact_and_refuses_overflow() {
    assert_eq!(U256::from_u64(u64::MAX).try_to_u64(), Some(u64::MAX));
    assert_eq!(U256::from_u128(u64::MAX as u128 + 1).try_to_u64(), None);
    assert_eq!(U256::from_u128(u128::MAX).try_to_u64(), None);
    assert_eq!(U256::zero().try_to_u64(), Some(0));
}

#[test]
fn fixed_width_constructors_check_the_width() {
    assert!(U256::from_le_bytes(vec![0u8; 32]).is_some());
    assert!(U256::from_le_bytes(vec![0u8; 31]).is_none());
    assert!(H160::from_bytes(vec![0u8; 20]).is_some());
    assert!(H160::from_bytes(vec![0u8; 21]).is_none());
    assert!(H256::from_bytes(vec![0u8; 32]).is_some());
    assert!(H256::from_bytes(vec![0u8; 2]).is_none());
}

#[test]
fn byte_equality_is_exact() {
    assert!(eq_bytes(&vec![1, 2, 3], &vec![1, 2, 3]));
    assert!(!eq_bytes(&vec![1, 2, 3], &vec![1, 2, 4]));
    assert!(!eq_bytes(&vec![1, 2, 3], &vec![1, 2]));
    assert!(eq_bytes(&vec![], &vec![]));
}
