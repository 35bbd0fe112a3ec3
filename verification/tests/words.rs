use axon_vm::word::U256;

fn w(low: u128, high: u128) -> U256 {
    U256 { low, high }
}

#[test]
fn xor_and_or_are_bitwise() {
    let a = w(0b1100, 0xFF00_0000_0000_0000_0000_0000_0000_0000);
    let b = w(0b1010, 0x0FF0_0000_0000_0000_0000_0000_0000_0000);
    assert_eq!(a.xor(b), w(0b0110, 0xF0F0_0000_0000_0000_0000_0000_0000_0000));
    assert_eq!(a.and(b), w(0b1000, 0x0F00_0000_0000_0000_0000_0000_0000_0000));
    assert_eq!(a.or(b), w(0b1110, 0xFFF0_0000_0000_0000_0000_0000_0000_0000));
}

#[test]
fn shl_moves_bits_up_across_limbs() {
    let a = w(1, 0);
    assert_eq!(a.shl(0), a);
    assert_eq!(a.shl(1), w(2, 0));
    assert_eq!(a.shl(127), w(1 << 127, 0));
    assert_eq!(a.shl(128), w(0, 1));
    assert_eq!(a.shl(255), w(0, 1 << 127));
    let b = w(u128::MAX, 0);
    assert_eq!(b.shl(4), w(u128::MAX << 4, 0xF));
}

#[test]
fn shr_moves_bits_down_across_limbs() {
    let a = w(0, 1 << 127);
    assert_eq!(a.shr(0), a);
    assert_eq!(a.shr(127), w(0, 1));
    assert_eq!(a.shr(128), w(1 << 127, 0));
    assert_eq!(a.shr(255), w(1, 0));
    let b = w(0, u128::MAX);
    assert_eq!(b.shr(4), w(0xF << 124, u128::MAX >> 4));
}

#[test]
fn rotations_are_cyclic() {
    let a = w(1, 0);
    assert_eq!(a.rol(1), w(2, 0));
    assert_eq!(a.ror(1), w(0, 1 << 127));
    assert_eq!(a.rol(128), w(0, 1));
    let b = w(0x1234_5678_9ABC_DEF0, 0xFEDC_BA98_7654_3210);
    for k in [0u8, 1, 7, 64, 127, 128, 129, 200, 255] {
        assert_eq!(b.rol(k).ror(k), b);
        assert_eq!(b.ror(k).rol(k), b);
    }
    assert_eq!(b.rol(0), b);
    assert_eq!(b.shl(0), b);
}

#[test]
fn rotation_matches_double_shift() {
    let b = w(0x8000_0000_0000_0000_0000_0000_0000_0001, 1);
    let k = 3u8;
    let expected = b.shl(k).or(b.shr(253));
    assert_eq!(b.rol(k), expected);
}

#[test]
fn is_zero_checks_both_limbs() {
    assert!(U256::zero().is_zero());
    assert!(!w(1, 0).is_zero());
    assert!(!w(0, 1).is_zero());
    assert_eq!(U256::from_u64(7), w(7, 0));
}
