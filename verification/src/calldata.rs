//! The input buffer: immutable bytes, read with zero padding past the end.

use crate::buffer::{bytes_get, bytes_len, bytes_seq};
use crate::word::{
    be_value, byte_or_zero, lemma_be_value_bound, lemma_be_value_push, lemma_pow256_monotonic,
    lemma_pow256_values, lemma_trailing_zeros, padded, pow256, Word,
};
use bytes::Bytes;
use vstd::prelude::*;

verus! {

/// An immutable byte buffer.
#[derive(Debug)]
pub struct Calldata {
    pub data: Bytes,
}

impl View for Calldata {
    type V = Seq<u8>;

    open spec fn view(&self) -> Seq<u8> {
        bytes_seq(self.data)
    }
}

/// The byte of `data` at `offset + i`, or 0 where that lies past the end.
pub fn read_padded_byte(data: &Bytes, offset: usize, i: usize) -> (r: u8)
    ensures
        r == byte_or_zero(bytes_seq(*data), offset + i),
{
    let len: usize = bytes_len(data);
    if i <= usize::MAX - offset && offset + i < len {
        bytes_get(data, offset + i)
    } else {
        0
    }
}

/// The big-endian number that the `n` bytes of `data` from `offset` on spell,
/// with 0 for every byte past the end.
pub fn read_padded_word(data: &Bytes, offset: usize, n: usize) -> (r: Word)
    requires
        n <= 32,
    ensures
        r@ == be_value(padded(bytes_seq(*data), offset as int, n as nat)),
{
    let mut acc: Word = Word::zero();
    let mut i: usize = 0;
    while i < n
        invariant
            i <= n <= 32,
            acc@ == be_value(padded(bytes_seq(*data), offset as int, i as nat)),
        decreases n - i,
    {
        let byte: u8 = read_padded_byte(data, offset, i);
        proof {
            let sofar = padded(bytes_seq(*data), offset as int, i as nat);
            lemma_be_value_bound(sofar);
            lemma_pow256_monotonic(i as nat, 31);
            lemma_pow256_values();
            lemma_be_value_push(sofar, byte);
            assert(sofar.push(byte) =~= padded(bytes_seq(*data), offset as int, (i + 1) as nat));
        }
        acc = acc.shift_in(byte);
        i += 1;
    }
    acc
}

impl Calldata {
    /// A buffer that holds `data`.
    pub fn new(data: Bytes) -> (c: Calldata)
        ensures
            c@ == bytes_seq(data),
            c.data == data,
    {
        Self { data }
    }

    /// The byte at `offset`, or 0 past the end.
    pub fn read_byte(&self, offset: usize) -> (r: u8)
        ensures
            r == byte_or_zero(self@, offset as int),
    {
        read_padded_byte(&self.data, offset, 0)
    }

    /// The 32 bytes from `offset` on as a big-endian word, with 0 for every
    /// byte past the end.
    pub fn read_word(&self, offset: usize) -> (r: Word)
        ensures
            r@ == be_value(padded(self@, offset as int, 32)),
    {
        read_padded_word(&self.data, offset, 32)
    }
}

/// A word read where the last `k` of its 32 bytes lie past the end of the
/// buffer has zeros in its `k` low-order bytes: its value is what the bytes
/// before them spell, times 256^k, and so a multiple of 256^k.
pub proof fn lemma_read_word_zero_padded(data: Seq<u8>, offset: int, k: nat)
    requires
        0 <= offset,
        k <= 32,
        offset + 32 - k >= data.len(),
    ensures
        be_value(padded(data, offset, 32)) == be_value(padded(data, offset, (32 - k) as nat))
            * pow256(k),
        be_value(padded(data, offset, 32)) % pow256(k) == 0,
{
    assert(padded(data, offset, 32).take(32 - k) =~= padded(data, offset, (32 - k) as nat));
    lemma_trailing_zeros(padded(data, offset, 32), k);
}

} // verus!
