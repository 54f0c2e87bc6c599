use bytes::Bytes;
use smol_evm_rs::calldata::{read_padded_byte, read_padded_word, Calldata};
use smol_evm_rs::word::Word;

#[test]
fn test_read_byte() {
    // Convert a hexadecimal string to bytes
    let hex_data = "01020304"; // Without the "0x" prefix
    let data = match hex::decode(hex_data) {
        Ok(bytes) => Bytes::from(bytes),
        Err(e) => panic!("Failed to decode hex: {}", e),
    };
    let calldata = Calldata::new(data);

    assert_eq!(calldata.read_byte(0), 0x01);
    assert_eq!(calldata.read_byte(1), 0x02);
    assert_eq!(calldata.read_byte(2), 0x03);

    // Offset is outside the data range
    assert_eq!(calldata.read_byte(10), 0);
}

#[test]
fn test_read_word() {
    // 32 hex digits (16 bytes): the upper half of the word read at offset 0
    let hex_data = "0123456789abcdef0123456789abcdef";
    let data = match hex::decode(&hex_data) {
        Ok(bytes) => Bytes::from(bytes),
        Err(e) => panic!("Failed to decode hex: {}", e),
    };
    let calldata = Calldata::new(data);

    let offset = 0;

    // The 16 bytes starting at the offset, followed by 16 bytes of padding
    let upper = u128::from_be_bytes(
        hex::decode(&hex_data[offset * 2..offset * 2 + 32])
            .unwrap()
            .try_into()
            .unwrap(),
    );
    let expected_word = Word { l3: (upper >> 64) as u64, l2: upper as u64, l1: 0, l0: 0 };

    let word = calldata.read_word(offset);

    assert_eq!(
        word, expected_word,
        "read_word did not return the expected value at offset {}",
        offset
    );
}

#[test]
fn read_word_of_a_full_word() {
    let mut data: Vec<u8> = Vec::new();
    for i in 0..40u8 {
        data.push(i + 1);
    }
    let calldata = Calldata::new(Bytes::from(data));
    assert_eq!(
        calldata.read_word(0),
        Word {
            l3: 0x0102030405060708,
            l2: 0x090a0b0c0d0e0f10,
            l1: 0x1112131415161718,
            l0: 0x191a1b1c1d1e1f20,
        }
    );
    assert_eq!(
        calldata.read_word(8),
        Word {
            l3: 0x090a0b0c0d0e0f10,
            l2: 0x1112131415161718,
            l1: 0x191a1b1c1d1e1f20,
            l0: 0x2122232425262728,
        }
    );
}

#[test]
fn read_word_near_the_end_is_zero_padded() {
    let mut data: Vec<u8> = Vec::new();
    for i in 0..40u8 {
        data.push(i + 1);
    }
    let calldata = Calldata::new(Bytes::from(data));
    // 31 bytes lie past the end
    assert_eq!(calldata.read_word(39), Word { l3: 0x2800000000000000, l2: 0, l1: 0, l0: 0 });
    // 9 bytes lie past the end
    assert_eq!(
        calldata.read_word(17),
        Word {
            l3: 0x1213141516171819,
            l2: 0x1a1b1c1d1e1f2021,
            l1: 0x2223242526272800,
            l0: 0,
        }
    );
    assert_eq!(calldata.read_word(40), Word::zero());
    assert_eq!(calldata.read_word(usize::MAX), Word::zero());
    assert_eq!(calldata.read_word(usize::MAX - 5), Word::zero());
}

#[test]
fn read_byte_past_the_end_is_zero() {
    let calldata = Calldata::new(Bytes::from(vec![9u8, 8, 7]));
    assert_eq!(calldata.read_byte(2), 7);
    assert_eq!(calldata.read_byte(3), 0);
    assert_eq!(calldata.read_byte(usize::MAX), 0);
    let empty = Calldata::new(Bytes::new());
    assert_eq!(empty.read_byte(0), 0);
    assert_eq!(empty.read_word(0), Word::zero());
}

#[test]
fn padded_reads_of_fewer_bytes() {
    let data = Bytes::from(vec![0xAAu8, 0xBB, 0xCC]);
    assert_eq!(read_padded_byte(&data, 1, 1), 0xCC);
    assert_eq!(read_padded_byte(&data, 1, 2), 0);
    assert_eq!(read_padded_byte(&data, usize::MAX, 2), 0);
    assert_eq!(read_padded_word(&data, 0, 0), Word::zero());
    assert_eq!(read_padded_word(&data, 0, 2), Word::from_u64(0xAABB));
    assert_eq!(read_padded_word(&data, 1, 3), Word::from_u64(0xBBCC00));
    assert_eq!(read_padded_word(&data, 5, 4), Word::zero());
}
