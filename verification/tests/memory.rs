use smol_evm_rs::memory::{Memory, MemoryError};
use smol_evm_rs::word::Word;

#[test]
fn new_memory_is_empty() {
    let memory = Memory::new();
    assert_eq!(memory.memory.len(), 0);
}

#[test]
fn store_in_memory() {
    let offset = 0;
    let value = 10;
    let mut memory = Memory::new();
    let _ = memory.store(offset, value);
    assert_eq!(memory.memory.len(), 32);

    memory.store(2, value).unwrap();
    assert_eq!(memory.memory.len(), 32);

    memory.store(15, value).unwrap();
    assert_eq!(memory.memory.len(), 32);

    // Offset 17 still lies in the first word
    memory.store(17, value).unwrap();
    assert_eq!(memory.memory.len(), 32);
}

#[test]
fn store_at_a_word_boundary() {
    let mut memory = Memory::new();
    memory.store(16, 10).unwrap();
    assert_eq!(memory.memory.len(), 32);
    memory.store(31, 10).unwrap();
    assert_eq!(memory.memory.len(), 32);
    // Activate 2nd word
    memory.store(32, 10).unwrap();
    assert_eq!(memory.memory.len(), 64);
}

#[test]
fn test_active_words() {
    let offset = 0;
    let value = 10;
    let mut memory = Memory::new();
    let _ = memory.store(offset, value);
    assert_eq!(memory.active_words(), 1);

    memory.store(2, value).unwrap();
    assert_eq!(memory.active_words(), 1);

    memory.store(15, value).unwrap();
    assert_eq!(memory.active_words(), 1);

    // Activate 2nd word
    memory.store(35, value).unwrap();
    assert_eq!(memory.active_words(), 2);

    // Activate 3rd word
    memory.store(65, value).unwrap();
    assert_eq!(memory.active_words(), 3);
}

#[test]
fn load_from_memory() {
    let offset = 0;
    let value = 10;
    let mut memory = Memory::new();
    let _ = memory.store(offset, value);
    let value = memory.load(offset);
    assert_eq!(value, 10);
}

#[test]
fn store_grows_to_whole_words() {
    for k in [0usize, 1, 31, 32, 33, 63, 64, 100, 1000] {
        let mut memory = Memory::new();
        memory.store(k, 1).unwrap();
        assert_eq!(memory.memory.len(), ((k + 1 + 31) / 32) * 32);
        for (i, byte) in memory.memory.iter().enumerate() {
            assert_eq!(*byte, if i == k { 1 } else { 0 });
        }
    }
}

#[test]
fn memory_never_shrinks() {
    let mut memory = Memory::new();
    let mut previous = 0;
    for k in [70usize, 3, 40, 200, 0, 199, 96] {
        memory.store(k, 9).unwrap();
        assert!(memory.memory.len() >= previous);
        assert_eq!(memory.memory.len() % 32, 0);
        previous = memory.memory.len();
    }
    assert_eq!(previous, 224);
    assert_eq!(memory.load(70), 9);
    assert_eq!(memory.load(71), 0);
}

#[test]
fn store_takes_every_byte_value() {
    let mut memory = Memory::new();
    assert_eq!(memory.store(0, 255), Ok(()));
    assert_eq!(memory.load(0), 255);
    assert_eq!(memory.store(1, 0), Ok(()));
    assert_eq!(memory.load(1), 0);
}

#[test]
fn store_refuses_a_value_above_one_byte() {
    let mut memory = Memory::new();
    assert_eq!(memory.store(5, 256), Err(MemoryError::InvalidMemoryValue(5, 256)));
    assert_eq!(memory.memory.len(), 0);
    assert_eq!(
        memory.store(0, usize::MAX),
        Err(MemoryError::InvalidMemoryValue(0, usize::MAX))
    );
}

#[test]
fn store_refuses_an_offset_past_the_limit() {
    let mut memory = Memory::new();
    assert_eq!(memory.store(usize::MAX, 1), Err(MemoryError::InvalidOffset(usize::MAX)));
    let limit = usize::MAX / 2 - 31;
    assert_eq!(memory.store(limit, 1), Err(MemoryError::InvalidOffset(limit)));
    assert_eq!(memory.memory.len(), 0);
}

#[test]
fn load_past_the_end_reads_zero_and_does_not_grow() {
    let mut memory = Memory::new();
    assert_eq!(memory.load(0), 0);
    assert_eq!(memory.load(1000), 0);
    assert_eq!(memory.memory.len(), 0);
    memory.store(3, 7).unwrap();
    assert_eq!(memory.load(32), 0);
    assert_eq!(memory.load(usize::MAX), 0);
    assert_eq!(memory.memory.len(), 32);
}

#[test]
fn load_range_returns_the_bytes_and_grows() {
    let mut memory = Memory::new();
    memory.store(30, 0xAA).unwrap();
    memory.store(31, 0xBB).unwrap();
    let bytes = memory.load_range(30, 4);
    assert_eq!(&bytes[..], &[0xAA, 0xBB, 0, 0]);
    assert_eq!(memory.memory.len(), 64);
    let none = memory.load_range(0, 0);
    assert_eq!(none.len(), 0);
    assert_eq!(memory.memory.len(), 64);
}

#[test]
fn load_range_of_length_zero_covers_its_offset() {
    let mut memory = Memory::new();
    let none = memory.load_range(40, 0);
    assert_eq!(none.len(), 0);
    assert_eq!(memory.memory.len(), 64);
}

#[test]
fn store_word_writes_big_endian() {
    let mut memory = Memory::new();
    let word = Word {
        l3: 0x0102030405060708,
        l2: 0x1112131415161718,
        l1: 0x2122232425262728,
        l0: 0x3132333435363738,
    };
    memory.store(1, 0xEE).unwrap();
    memory.store_word(2, word);
    assert_eq!(memory.memory.len(), 64);
    let expected: Vec<u8> = vec![
        0x01, 0x02, 0x03, 0x04, 0x05, 0x06, 0x07, 0x08, 0x11, 0x12, 0x13, 0x14, 0x15, 0x16, 0x17,
        0x18, 0x21, 0x22, 0x23, 0x24, 0x25, 0x26, 0x27, 0x28, 0x31, 0x32, 0x33, 0x34, 0x35, 0x36,
        0x37, 0x38,
    ];
    assert_eq!(&memory.memory[2..34], &expected[..]);
    assert_eq!(memory.memory[0], 0);
    assert_eq!(memory.memory[1], 0xEE);
    assert_eq!(&memory.memory[34..], &[0u8; 30][..]);
    assert_eq!(memory.active_words(), 2);
}

#[test]
fn check_range_tells_what_memory_can_cover() {
    let limit = usize::MAX / 2 - 31;
    assert_eq!(Memory::check_range(0, 0), Ok(()));
    assert_eq!(Memory::check_range(0, 32), Ok(()));
    assert_eq!(Memory::check_range(limit - 1, 1), Ok(()));
    assert_eq!(Memory::check_range(limit - 1, 0), Ok(()));
    assert_eq!(Memory::check_range(0, limit), Ok(()));
    assert_eq!(
        Memory::check_range(0, limit + 1),
        Err(MemoryError::InvalidMemoryAccess(0, limit + 1))
    );
    assert_eq!(Memory::check_range(limit, 0), Err(MemoryError::InvalidMemoryAccess(limit, 0)));
    assert_eq!(
        Memory::check_range(limit - 1, 2),
        Err(MemoryError::InvalidMemoryAccess(limit - 1, 2))
    );
    assert_eq!(
        Memory::check_range(usize::MAX, usize::MAX),
        Err(MemoryError::InvalidMemoryAccess(usize::MAX, usize::MAX))
    );
}
