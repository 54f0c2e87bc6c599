use smol_evm_rs::word::Word;

const MAX: u64 = u64::MAX;

#[test]
fn add_wraps_at_two_to_the_256() {
    assert_eq!(Word::max_value().wrapping_add(Word::from_u64(1)), Word::zero());
    assert_eq!(
        Word::max_value().wrapping_add(Word::max_value()),
        Word { l0: MAX - 1, l1: MAX, l2: MAX, l3: MAX }
    );
}

#[test]
fn add_carries_across_limbs() {
    let a = Word { l0: MAX, l1: MAX, l2: 0, l3: 0 };
    assert_eq!(a.wrapping_add(Word::from_u64(1)), Word { l0: 0, l1: 0, l2: 1, l3: 0 });
    assert_eq!(Word::from_u64(40).wrapping_add(Word::from_u64(2)), Word::from_u64(42));
}

#[test]
fn sub_wraps_below_zero() {
    assert_eq!(Word::zero().wrapping_sub(Word::from_u64(1)), Word::max_value());
    assert_eq!(
        Word::from_u64(2).wrapping_sub(Word::from_u64(5)),
        Word { l0: MAX - 2, l1: MAX, l2: MAX, l3: MAX }
    );
    assert_eq!(Word::from_u64(5).wrapping_sub(Word::from_u64(2)), Word::from_u64(3));
    let a = Word { l0: 0, l1: 0, l2: 1, l3: 0 };
    assert_eq!(a.wrapping_sub(Word::from_u64(1)), Word { l0: MAX, l1: MAX, l2: 0, l3: 0 });
}

#[test]
fn mul_by_zero_is_zero() {
    let values = [
        Word::zero(),
        Word::from_u64(1),
        Word::max_value(),
        Word { l0: 5, l1: 6, l2: 7, l3: 8 },
    ];
    for v in values {
        assert_eq!(v.wrapping_mul(Word::zero()), Word::zero());
        assert_eq!(Word::zero().wrapping_mul(v), Word::zero());
    }
}

#[test]
fn mul_keeps_the_low_256_bits() {
    // (2^128 + 1)^2 = 2^256 + 2^129 + 1
    let a = Word { l0: 1, l1: 0, l2: 1, l3: 0 };
    assert_eq!(a.wrapping_mul(a), Word { l0: 1, l1: 0, l2: 2, l3: 0 });
    // (2^256 - 1)^2 = 2^512 - 2^257 + 1
    assert_eq!(Word::max_value().wrapping_mul(Word::max_value()), Word::from_u64(1));
    // (2^64 - 1)^2 = 2^128 - 2^65 + 1
    assert_eq!(
        Word::from_u64(MAX).wrapping_mul(Word::from_u64(MAX)),
        Word { l0: 1, l1: MAX - 1, l2: 0, l3: 0 }
    );
    assert_eq!(Word::from_u64(6).wrapping_mul(Word::from_u64(7)), Word::from_u64(42));
    // 2^192 * 2^64 = 2^256
    let high = Word { l0: 0, l1: 0, l2: 0, l3: 1 };
    let shift = Word { l0: 0, l1: 1, l2: 0, l3: 0 };
    assert_eq!(high.wrapping_mul(shift), Word::zero());
    let x = Word { l0: 3, l1: 5, l2: 7, l3: 11 };
    assert_eq!(x.wrapping_mul(shift), Word { l0: 0, l1: 3, l2: 5, l3: 7 });
}

#[test]
fn conversions() {
    assert_eq!(Word::from_u64(7), Word { l0: 7, l1: 0, l2: 0, l3: 0 });
    assert_eq!(Word::from_usize(9), Word::from_u64(9));
    assert_eq!(Word::from_usize(9).to_usize(), Some(9));
    assert_eq!(Word::from_usize(usize::MAX).to_usize(), Some(usize::MAX));
    assert_eq!(Word { l0: 1, l1: 1, l2: 0, l3: 0 }.to_usize(), None);
    assert_eq!(Word::max_value().to_usize(), None);
    assert!(Word::zero().is_zero());
    assert!(!Word { l0: 0, l1: 0, l2: 0, l3: 1 }.is_zero());
    assert_eq!(Word::from_u64(0x1234).low_byte(), 0x34);
    assert_eq!(Word::max_value().low_byte(), 0xFF);
}

#[test]
fn shift_in_appends_a_byte() {
    assert_eq!(Word::from_u64(0x12).shift_in(0x34), Word::from_u64(0x1234));
    let a = Word { l0: 0xFF00000000000000, l1: 0, l2: 0, l3: 0x00FFFFFFFFFFFFFF };
    assert_eq!(
        a.shift_in(0xAB),
        Word { l0: 0xAB, l1: 0xFF, l2: 0, l3: 0xFFFFFFFFFFFFFF00 }
    );
}

#[test]
fn to_be_bytes_puts_the_high_byte_first() {
    let bytes = Word::from_u64(0x0102).to_be_bytes();
    assert_eq!(bytes.len(), 32);
    assert_eq!(&bytes[..30], &[0u8; 30][..]);
    assert_eq!(&bytes[30..], &[1u8, 2][..]);
    let high = Word { l0: 0, l1: 0, l2: 0, l3: 0xA000000000000000 }.to_be_bytes();
    assert_eq!(high[0], 0xA0);
    assert_eq!(&high[1..], &[0u8; 31][..]);
}
