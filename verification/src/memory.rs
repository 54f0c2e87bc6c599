//! Scratch memory: a byte sequence that grows in whole 32-byte words.

use crate::buffer::{bytes_mut_freeze, bytes_mut_new, bytes_mut_put_u8, bytes_mut_seq, bytes_seq};
use crate::word::{be_value, byte_or_zero, Word};
use bytes::{Bytes, BytesMut};
use vstd::prelude::*;

verus! {

/// The number of bytes in one memory word.
pub const WORD_BYTES: usize = 32;

/// Why a memory operation was refused.
#[derive(Clone, Copy, Debug, PartialEq, Eq, Structural)]
pub enum MemoryError {
    /// The range of `.1` bytes at offset `.0` reaches past what the machine
    /// can address.
    InvalidMemoryAccess(usize, usize),
    /// The value `.1`, to be stored at offset `.0`, is no single byte.
    InvalidMemoryValue(usize, usize),
    /// The offset lies past what the machine can address.
    InvalidOffset(usize),
}

/// Memory as a plain byte vector. Its length is a multiple of 32 and never
/// decreases; bytes that were never written are zero.
#[derive(Debug)]
pub struct Memory {
    pub memory: Vec<u8>,
}

impl View for Memory {
    type V = Seq<u8>;

    open spec fn view(&self) -> Seq<u8> {
        self.memory@
    }
}

/// One past the largest byte offset that memory can hold: the largest
/// allocation, rounded down to whole words.
pub open spec fn memory_limit() -> int {
    (usize::MAX / 2) - 31
}

/// The length of a memory of length `len` once it covers byte offset `k`:
/// the larger of its own word count and `ceil((k + 1) / 32)`, in bytes.
pub open spec fn expanded_len(len: int, k: int) -> int {
    if len / 32 >= (k + 32) / 32 {
        (len / 32) * 32
    } else {
        ((k + 32) / 32) * 32
    }
}

/// A memory once it covers byte offset `k`: unchanged where it is long
/// enough, else extended with zero bytes to `expanded_len`.
pub open spec fn expanded(mem: Seq<u8>, k: int) -> Seq<u8> {
    if k < mem.len() {
        mem
    } else {
        mem + Seq::new((expanded_len(mem.len() as int, k) - mem.len()) as nat, |i: int| 0u8)
    }
}

/// The last byte offset that an access to `length` bytes at `offset` covers.
/// An access of length 0 still covers its offset.
pub open spec fn last_covered(offset: int, length: int) -> int {
    if length == 0 {
        offset
    } else {
        offset + length - 1
    }
}

impl Memory {
    /// The length is a whole number of words, within what can be addressed.
    pub open spec fn wf(&self) -> bool {
        self@.len() % 32 == 0 && self@.len() <= memory_limit() + 31
    }

    /// An empty memory.
    pub fn new() -> (m: Memory)
        ensures
            m@ == Seq::<u8>::empty(),
            m.wf(),
    {
        Self { memory: Vec::new() }
    }

    /// Whether memory can grow to cover `length` bytes at `offset`: the test
    /// to make before `load_range` and, with length 32, before `store_word`.
    pub fn check_range(offset: usize, length: usize) -> (r: Result<(), MemoryError>)
        ensures
            last_covered(offset as int, length as int) < memory_limit() ==> r == Ok::<
                (),
                MemoryError,
            >(()),
            last_covered(offset as int, length as int) >= memory_limit() ==> r == Err::<
                (),
                MemoryError,
            >(MemoryError::InvalidMemoryAccess(offset, length)),
    {
        let limit: usize = usize::MAX / 2 - 31;
        if offset >= limit || length > limit || (length > 0 && offset + length - 1 >= limit) {
            Err(MemoryError::InvalidMemoryAccess(offset, length))
        } else {
            Ok(())
        }
    }

    /// Writes one byte at `offset`, growing memory to cover it. A value above
    /// 255 is refused, and so is an offset that cannot be addressed.
    pub fn store(&mut self, offset: usize, value: usize) -> (r: Result<(), MemoryError>)
        requires
            old(self).wf(),
        ensures
            final(self).wf(),
            value > 255 ==> r == Err::<(), MemoryError>(
                MemoryError::InvalidMemoryValue(offset, value),
            ) && final(self)@ == old(self)@,
            value <= 255 && offset >= memory_limit() ==> r == Err::<(), MemoryError>(
                MemoryError::InvalidOffset(offset),
            ) && final(self)@ == old(self)@,
            value <= 255 && offset < memory_limit() ==> r == Ok::<(), MemoryError>(())
                && final(self)@ == expanded(old(self)@, offset as int).update(
                offset as int,
                value as u8,
            ),
    {
        if value > 255 {
            return Err(MemoryError::InvalidMemoryValue(offset, value));
        }
        if offset >= usize::MAX / 2 - 31 {
            return Err(MemoryError::InvalidOffset(offset));
        }
        self.expand_if_needed(offset);
        self.memory[offset] = value as u8;
        Ok(())
    }

    /// The byte at `offset`, or 0 past the end. Memory does not grow.
    pub fn load(&mut self, offset: usize) -> (r: usize)
        ensures
            final(self)@ == old(self)@,
            r == byte_or_zero(old(self)@, offset as int),
    {
        if offset >= self.memory.len() {
            return 0;
        }
        self.memory[offset] as usize
    }

    /// The `length` bytes from `offset` on, after memory grew to cover them.
    pub fn load_range(&mut self, offset: usize, length: usize) -> (r: Bytes)
        requires
            old(self).wf(),
            last_covered(offset as int, length as int) < memory_limit(),
        ensures
            final(self).wf(),
            final(self)@ == expanded(old(self)@, last_covered(offset as int, length as int)),
            bytes_seq(r) == final(self)@.subrange(offset as int, offset + length),
    {
        if length == 0 {
            self.expand_if_needed(offset);
        } else {
            self.expand_if_needed(offset + length - 1);
        }
        let mut bytes: BytesMut = bytes_mut_new();
        let mut i: usize = 0;
        while i < length
            invariant
                i <= length,
                offset + length <= self.memory@.len(),
                self.memory@.len() <= usize::MAX / 2,
                bytes_mut_seq(bytes) == self.memory@.subrange(offset as int, offset + i),
            decreases length - i,
        {
            let byte: u8 = self.memory[offset + i];
            bytes_mut_put_u8(&mut bytes, byte);
            i += 1;
            assert(bytes_mut_seq(bytes) =~= self.memory@.subrange(offset as int, offset + i));
        }
        bytes_mut_freeze(bytes)
    }

    /// Writes the 32 bytes of `value`, most significant first, from `offset`
    /// on, after memory grew to cover them. The bytes written are the only 32
    /// that spell the value (`lemma_be_value_injective`).
    pub fn store_word(&mut self, offset: usize, value: Word)
        requires
            old(self).wf(),
            last_covered(offset as int, 32) < memory_limit(),
        ensures
            final(self).wf(),
            final(self)@.len() == expanded_len(old(self)@.len() as int, offset + 31),
            forall|i: int|
                0 <= i < final(self)@.len() && !(offset <= i < offset + 32) ==> final(self)@[i]
                    == byte_or_zero(old(self)@, i),
            be_value(final(self)@.subrange(offset as int, offset + 32)) == value@,
    {
        let ghost initial = self.memory@;
        self.expand_if_needed(offset + 31);
        let bytes: Vec<u8> = value.to_be_bytes();
        let ghost before = self.memory@;
        assert forall|j: int| 0 <= j < before.len() implies before[j] == byte_or_zero(
            initial,
            j,
        ) by {}
        let mut i: usize = 0;
        while i < 32
            invariant
                i <= 32,
                bytes@.len() == 32,
                offset + 32 <= self.memory@.len(),
                offset + 32 <= usize::MAX,
                self.memory@.len() == before.len(),
                forall|j: int| 0 <= j < i ==> self.memory@[offset + j] == bytes@[j],
                forall|j: int|
                    0 <= j < before.len() && !(offset <= j < offset + i) ==> self.memory@[j]
                        == before[j],
            decreases 32 - i,
        {
            self.memory[offset + i] = bytes[i];
            i += 1;
        }
        assert(self.memory@.subrange(offset as int, offset + 32) =~= bytes@);
    }

    /// The number of 32-byte words that memory holds.
    pub fn active_words(&self) -> (r: usize)
        ensures
            r == self@.len() / 32,
    {
        self.memory.len() / WORD_BYTES
    }

    /// Grows memory by whole zero words until it covers byte `offset`.
    fn expand_if_needed(&mut self, offset: usize)
        requires
            old(self).wf(),
            offset < memory_limit(),
        ensures
            final(self).wf(),
            final(self)@ == expanded(old(self)@, offset as int),
            offset < final(self)@.len() <= usize::MAX / 2,
    {
        if offset < self.memory.len() {
            return;
        }
        let target: usize = (offset / WORD_BYTES + 1) * WORD_BYTES;
        let ghost before = self.memory@;
        while self.memory.len() < target
            invariant
                target % 32 == 0,
                self.memory@.len() <= target,
                before.len() <= self.memory@.len(),
                self.memory@.subrange(0, before.len() as int) == before,
                forall|j: int| before.len() <= j < self.memory@.len() ==> self.memory@[j] == 0,
            decreases target - self.memory@.len(),
        {
            self.memory.push(0);
            assert(self.memory@.subrange(0, before.len() as int) =~= before);
        }
        assert(self.memory@ =~= expanded(before, offset as int));
    }
}

/// Growth after a one-byte store: a store at offset `k` into an empty memory
/// leaves `ceil((k + 1) / 32) * 32` bytes, and a store into any memory leaves
/// at least as many bytes as before, the old ones where they were and every
/// added one zero, but for the byte stored.
pub proof fn lemma_store_growth(mem: Seq<u8>, k: int, value: u8)
    requires
        mem.len() % 32 == 0,
        0 <= k,
    ensures
        expanded(Seq::<u8>::empty(), k).len() == ((k + 1 + 31) / 32) * 32,
        expanded(mem, k).update(k, value).len() == expanded_len(mem.len() as int, k),
        expanded_len(mem.len() as int, k) >= mem.len(),
        expanded_len(mem.len() as int, k) > k,
        expanded_len(mem.len() as int, k) % 32 == 0,
        forall|i: int| 0 <= i < mem.len() && i != k ==> expanded(mem, k).update(k, value)[i] == mem[i],
        forall|i: int|
            mem.len() <= i < expanded_len(mem.len() as int, k) && i != k ==> expanded(
                mem,
                k,
            ).update(k, value)[i] == 0,
        expanded(mem, k).update(k, value)[k] == value,
{
}

} // verus!
