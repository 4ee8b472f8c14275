use rv32i_rs::utils::{bitvec_to_u32, u32_to_bitvec};

#[test]
fn test_u32_to_bitvec() {
    let mut one = vec![0; 32];
    one[0] = 1;

    let max_u8: Vec<u32> = [vec![1; 8], vec![0; 24]].concat();

    assert_eq!(u32_to_bitvec(0), vec![0; 32]);
    assert_eq!(u32_to_bitvec(1), one);
    assert_eq!(u32_to_bitvec(255), max_u8);
    assert_eq!(u32_to_bitvec(4294967295), vec![1; 32]);
}

#[test]
fn test_bitvec_to_u32() {
    assert_eq!(bitvec_to_u32(&[0; 32]), 0);
    assert_eq!(bitvec_to_u32(&[1]), 1);
    assert_eq!(bitvec_to_u32(&[1; 8]), 255);
    assert_eq!(bitvec_to_u32(&[1; 32]), 4294967295);
}

#[test]
fn bitvec_round_trip() {
    for w in [0u32, 1, 0x8000_0000, 0xdead_beef, 0x1234_5678] {
        assert_eq!(bitvec_to_u32(&u32_to_bitvec(w)), w);
    }
    assert_eq!(bitvec_to_u32(&[]), 0);
    assert_eq!(bitvec_to_u32(&[0, 1, 0, 1]), 10);
}
