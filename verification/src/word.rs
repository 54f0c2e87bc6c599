//! The machine word: an unsigned 256-bit integer with arithmetic modulo 2^256.

use vstd::prelude::*;

verus! {

/// 2^64, the weight of the second limb.
pub open spec fn two_64() -> int {
    0x1_0000_0000_0000_0000int
}

/// 2^128, the weight of the third limb.
pub open spec fn two_128() -> int {
    0x1_0000_0000_0000_0000_0000_0000_0000_0000int
}

/// 2^192, the weight of the fourth limb.
pub open spec fn two_192() -> int {
    0x1_0000_0000_0000_0000_0000_0000_0000_0000_0000_0000_0000_0000int
}

/// 2^248: a word below this bound has a zero top byte.
pub open spec fn two_248() -> int {
    0x100_0000_0000_0000_0000_0000_0000_0000_0000_0000_0000_0000_0000_0000_0000_0000int
}

/// 2^256, the modulus of all word arithmetic.
pub open spec fn modulus() -> int {
    0x1_0000_0000_0000_0000_0000_0000_0000_0000_0000_0000_0000_0000_0000_0000_0000_0000int
}

/// The sum of two word values, reduced modulo 2^256.
pub open spec fn add_mod(a: nat, b: nat) -> nat {
    (((a + b) as int) % modulus()) as nat
}

/// The difference of two word values, reduced modulo 2^256.
pub open spec fn sub_mod(a: nat, b: nat) -> nat {
    ((a - b) % modulus()) as nat
}

/// The product of two word values, reduced modulo 2^256.
pub open spec fn mul_mod(a: nat, b: nat) -> nat {
    (((a * b) as int) % modulus()) as nat
}

/// The product of any value and 0 is 0, whichever side the 0 stands on.
pub proof fn lemma_mul_by_zero(a: nat)
    ensures
        mul_mod(a, 0) == 0,
        mul_mod(0, a) == 0,
{
    assert(a * 0 == 0) by (nonlinear_arith);
    assert(0 * a == 0) by (nonlinear_arith);
}

/// 256 to the power `n`.
pub open spec fn pow256(n: nat) -> nat
    decreases n,
{
    if n == 0 {
        1
    } else {
        256 * pow256((n - 1) as nat)
    }
}

/// The number that a byte string spells in big-endian order: the first byte
/// is the most significant. The empty string spells 0.
pub open spec fn be_value(bytes: Seq<u8>) -> nat
    decreases bytes.len(),
{
    if bytes.len() == 0 {
        0
    } else {
        be_value(bytes.drop_last()) * 256 + bytes.last() as nat
    }
}

/// The byte at `offset` of a byte string, or 0 outside it.
pub open spec fn byte_or_zero(bytes: Seq<u8>, offset: int) -> u8 {
    if 0 <= offset < bytes.len() {
        bytes[offset]
    } else {
        0
    }
}

/// The `n` bytes of `bytes` from `start` on, with 0 for every position past
/// the end.
pub open spec fn padded(bytes: Seq<u8>, start: int, n: nat) -> Seq<u8> {
    Seq::new(n, |i: int| byte_or_zero(bytes, start + i))
}

/// A byte string whose last `k` bytes are zero spells its other bytes times
/// 256^k, so the number is a multiple of 256^k.
pub proof fn lemma_trailing_zeros(bytes: Seq<u8>, k: nat)
    requires
        k <= bytes.len(),
        forall|i: int| bytes.len() - k <= i < bytes.len() ==> bytes[i] == 0,
    ensures
        be_value(bytes) == be_value(bytes.take(bytes.len() - k)) * pow256(k),
        be_value(bytes) % pow256(k) == 0,
    decreases k,
{
    let head = bytes.take(bytes.len() - k);
    if k == 0 {
        assert(head =~= bytes);
    } else {
        let shorter = bytes.drop_last();
        lemma_trailing_zeros(shorter, (k - 1) as nat);
        assert(shorter.take(shorter.len() - (k - 1)) =~= head);
        let x = be_value(head);
        let p = pow256((k - 1) as nat);
        assert((x * p) * 256 == x * (256 * p)) by (nonlinear_arith);
    }
    lemma_pow256_positive(k);
    vstd::arithmetic::div_mod::lemma_mod_multiples_basic(
        be_value(head) as int,
        pow256(k) as int,
    );
}

/// Powers of 256 are positive.
pub proof fn lemma_pow256_positive(n: nat)
    ensures
        pow256(n) > 0,
    decreases n,
{
    if n > 0 {
        lemma_pow256_positive((n - 1) as nat);
    }
}

/// A big-endian byte string of length `n` spells a number below 256^n.
pub proof fn lemma_be_value_bound(bytes: Seq<u8>)
    ensures
        be_value(bytes) < pow256(bytes.len()),
    decreases bytes.len(),
{
    if bytes.len() > 0 {
        lemma_be_value_bound(bytes.drop_last());
    }
}

/// Two byte strings of one length that spell the same number are equal.
pub proof fn lemma_be_value_injective(a: Seq<u8>, b: Seq<u8>)
    requires
        a.len() == b.len(),
        be_value(a) == be_value(b),
    ensures
        a == b,
    decreases a.len(),
{
    if a.len() > 0 {
        lemma_be_value_injective(a.drop_last(), b.drop_last());
        assert(a =~= a.drop_last().push(a.last()));
        assert(b =~= b.drop_last().push(b.last()));
    } else {
        assert(a =~= b);
    }
}

/// Appending one byte multiplies the spelled number by 256 and adds the byte.
pub proof fn lemma_be_value_push(bytes: Seq<u8>, b: u8)
    ensures
        be_value(bytes.push(b)) == be_value(bytes) * 256 + b,
{
    assert(bytes.push(b).drop_last() =~= bytes);
}

/// Powers of 256 grow with the exponent.
pub proof fn lemma_pow256_monotonic(m: nat, n: nat)
    requires
        m <= n,
    ensures
        pow256(m) <= pow256(n),
    decreases n,
{
    if m < n {
        lemma_pow256_monotonic(m, (n - 1) as nat);
    }
}

/// The powers of 256 that the limb layout uses.
pub proof fn lemma_pow256_values()
    ensures
        pow256(8) == two_64(),
        pow256(31) == two_248(),
        pow256(32) == modulus(),
{
    reveal_with_fuel(pow256, 9);
    assert(pow256(8) == two_64());
    assert(pow256(16) == two_64() * pow256(8));
    assert(pow256(24) == two_64() * pow256(16));
    assert(pow256(31) == 0x1_00_0000_0000_0000int * pow256(24));
    assert(pow256(32) == 256 * pow256(31));
}

/// 2^64 as an executable value: one more than the largest limb.
pub const LIMB_BASE: u128 = 0x1_0000_0000_0000_0000;

/// An unsigned 256-bit integer, held as four 64-bit limbs, least significant
/// first. Every combination of limbs is a value, and two words are equal
/// exactly when their values are.
#[derive(Clone, Copy, Debug, PartialEq, Eq, Structural)]
pub struct Word {
    pub l0: u64,
    pub l1: u64,
    pub l2: u64,
    pub l3: u64,
}

impl View for Word {
    type V = nat;

    open spec fn view(&self) -> nat {
        (self.l0 + self.l1 * two_64() + self.l2 * two_128() + self.l3 * two_192()) as nat
    }
}

/// Product of two limbs, widened so that it cannot overflow.
fn limb_product(a: u64, b: u64) -> (p: u128)
    ensures
        p == a * b,
{
    assert(a * b <= 0xffff_ffff_ffff_ffff * 0xffff_ffff_ffff_ffff) by (nonlinear_arith)
        requires
            0 <= a <= 0xffff_ffff_ffff_ffff,
            0 <= b <= 0xffff_ffff_ffff_ffff,
    ;
    (a as u128) * (b as u128)
}

/// Sum of two limbs and a carry bit: the low limb and the carry out.
fn add_limbs(a: u64, b: u64, carry: u64) -> (r: (u64, u64))
    requires
        carry <= 1,
    ensures
        a + b + carry == r.0 + r.1 * two_64(),
        r.1 <= 1,
{
    let s: u128 = a as u128 + b as u128 + carry as u128;
    if s >= LIMB_BASE {
        ((s - LIMB_BASE) as u64, 1)
    } else {
        (s as u64, 0)
    }
}

/// Difference of two limbs less a borrow bit: the low limb and the borrow out.
fn sub_limbs(a: u64, b: u64, borrow: u64) -> (r: (u64, u64))
    requires
        borrow <= 1,
    ensures
        a - b - borrow == r.0 - r.1 * two_64(),
        r.1 <= 1,
{
    let s: u128 = LIMB_BASE + a as u128 - b as u128 - borrow as u128;
    if s >= LIMB_BASE {
        ((s - LIMB_BASE) as u64, 0)
    } else {
        (s as u64, 1)
    }
}

/// A limb moved up by one byte, with a byte shifted in at the bottom: the new
/// limb and the byte shifted out at the top.
fn shift_limb(limb: u64, low: u8) -> (r: (u64, u8))
    ensures
        limb * 256 + low == r.0 + r.1 * two_64(),
{
    let wide: u128 = (limb as u128) * 256 + low as u128;
    ((wide % LIMB_BASE) as u64, (wide / LIMB_BASE) as u8)
}

/// Appends the eight bytes of a limb, most significant first.
fn push_limb_be(out: &mut Vec<u8>, limb: u64)
    ensures
        final(out)@.len() == old(out)@.len() + 8,
        be_value(final(out)@) == be_value(old(out)@) * two_64() + limb,
{
    let b7: u8 = (limb >> 56) as u8;
    let b6: u8 = ((limb >> 48) & 0xff) as u8;
    let b5: u8 = ((limb >> 40) & 0xff) as u8;
    let b4: u8 = ((limb >> 32) & 0xff) as u8;
    let b3: u8 = ((limb >> 24) & 0xff) as u8;
    let b2: u8 = ((limb >> 16) & 0xff) as u8;
    let b1: u8 = ((limb >> 8) & 0xff) as u8;
    let b0: u8 = (limb & 0xff) as u8;
    proof {
        assert(limb >> 56 <= 0xff && (limb >> 48) & 0xff <= 0xff && (limb >> 40) & 0xff <= 0xff
            && (limb >> 32) & 0xff <= 0xff && (limb >> 24) & 0xff <= 0xff && (limb >> 16) & 0xff
            <= 0xff && (limb >> 8) & 0xff <= 0xff && limb & 0xff <= 0xff) by (bit_vector);
        assert(limb == (limb >> 56) * 0x100_0000_0000_0000 + ((limb >> 48) & 0xff)
            * 0x1_0000_0000_0000 + ((limb >> 40) & 0xff) * 0x100_0000_0000 + ((limb >> 32)
            & 0xff) * 0x1_0000_0000 + ((limb >> 24) & 0xff) * 0x100_0000 + ((limb >> 16) & 0xff)
            * 0x1_0000 + ((limb >> 8) & 0xff) * 0x100 + (limb & 0xff)) by (bit_vector);
        let s0 = out@;
        lemma_be_value_push(s0, b7);
        lemma_be_value_push(s0.push(b7), b6);
        lemma_be_value_push(s0.push(b7).push(b6), b5);
        lemma_be_value_push(s0.push(b7).push(b6).push(b5), b4);
        lemma_be_value_push(s0.push(b7).push(b6).push(b5).push(b4), b3);
        lemma_be_value_push(s0.push(b7).push(b6).push(b5).push(b4).push(b3), b2);
        lemma_be_value_push(s0.push(b7).push(b6).push(b5).push(b4).push(b3).push(b2), b1);
        lemma_be_value_push(
            s0.push(b7).push(b6).push(b5).push(b4).push(b3).push(b2).push(b1),
            b0,
        );
    }
    out.push(b7);
    out.push(b6);
    out.push(b5);
    out.push(b4);
    out.push(b3);
    out.push(b2);
    out.push(b1);
    out.push(b0);
}

/// A value that differs from a canonical residue by a multiple of 2^256
/// reduces to that residue.
proof fn lemma_reduce(x: int, r: int, k: int)
    requires
        x == r + modulus() * k,
        0 <= r < modulus(),
    ensures
        x % modulus() == r,
{
    vstd::arithmetic::div_mod::lemma_fundamental_div_mod_converse(x, modulus(), k, r);
}

proof fn lemma_distribute(x: int, y0: int, y1: int, y2: int, y3: int)
    ensures
        x * (y0 + y1 + y2 + y3) == x * y0 + x * y1 + x * y2 + x * y3,
        (y0 + y1 + y2 + y3) * x == x * y0 + x * y1 + x * y2 + x * y3,
{
    assert(x * (y0 + y1 + y2 + y3) == x * y0 + x * y1 + x * y2 + x * y3) by (nonlinear_arith);
    assert((y0 + y1 + y2 + y3) * x == x * (y0 + y1 + y2 + y3)) by (nonlinear_arith);
}

proof fn lemma_scaled_product(a: int, s: int, b: int, t: int)
    ensures
        (b * t) * (a * s) == (a * b) * (s * t),
{
    assert((b * t) * (a * s) == (a * b) * (s * t)) by (nonlinear_arith);
}

/// One row of the schoolbook product: a scaled limb times a four-limb number.
proof fn lemma_product_row(y: int, t: int, a0: int, a1: int, a2: int, a3: int)
    ensures
        (y * t) * (a0 + a1 * two_64() + a2 * two_128() + a3 * two_192())
            == (a0 * y) * t + (a1 * y) * (two_64() * t) + (a2 * y) * (two_128() * t)
                + (a3 * y) * (two_192() * t),
{
    lemma_distribute(y * t, a0, a1 * two_64(), a2 * two_128(), a3 * two_192());
    lemma_scaled_product(a0, 1, y, t);
    lemma_scaled_product(a1, two_64(), y, t);
    lemma_scaled_product(a2, two_128(), y, t);
    lemma_scaled_product(a3, two_192(), y, t);
    assert(a0 * 1 == a0);
    assert(1 * t == t);
}

/// The product of two four-limb numbers splits into the partial products
/// below 2^256 and a multiple of 2^256.
proof fn lemma_product_split(
    a0: int, a1: int, a2: int, a3: int,
    b0: int, b1: int, b2: int, b3: int,
)
    ensures
        (a0 + a1 * two_64() + a2 * two_128() + a3 * two_192())
            * (b0 + b1 * two_64() + b2 * two_128() + b3 * two_192())
        == a0 * b0
            + (a0 * b1 + a1 * b0) * two_64()
            + (a0 * b2 + a1 * b1 + a2 * b0) * two_128()
            + (a0 * b3 + a1 * b2 + a2 * b1 + a3 * b0) * two_192()
            + modulus() * (a1 * b3 + a2 * b2 + a3 * b1
                + (a2 * b3 + a3 * b2) * two_64()
                + (a3 * b3) * two_128()),
{
    let a = a0 + a1 * two_64() + a2 * two_128() + a3 * two_192();
    lemma_distribute(a, b0, b1 * two_64(), b2 * two_128(), b3 * two_192());
    lemma_product_row(b0, 1, a0, a1, a2, a3);
    lemma_product_row(b1, two_64(), a0, a1, a2, a3);
    lemma_product_row(b2, two_128(), a0, a1, a2, a3);
    lemma_product_row(b3, two_192(), a0, a1, a2, a3);
    let r0 = a * b0;
    let r1 = a * (b1 * two_64());
    let r2 = a * (b2 * two_128());
    let r3 = a * (b3 * two_192());
    assert(a * (b0 + b1 * two_64() + b2 * two_128() + b3 * two_192()) == r0 + r1 + r2 + r3);
    assert(r0 == a0 * b0 + (a1 * b0) * two_64() + (a2 * b0) * two_128() + (a3 * b0) * two_192())
        by {
        assert(b0 * 1 == b0);
        assert(a * b0 == b0 * a) by (nonlinear_arith);
    }
    assert(r1 == (a0 * b1) * two_64() + (a1 * b1) * two_128() + (a2 * b1) * two_192() + (a3 * b1)
        * modulus()) by {
        assert(a * (b1 * two_64()) == (b1 * two_64()) * a) by (nonlinear_arith);
    }
    assert(r2 == (a0 * b2) * two_128() + (a1 * b2) * two_192() + (a2 * b2) * modulus() + (a3
        * b2) * (modulus() * two_64())) by {
        assert(a * (b2 * two_128()) == (b2 * two_128()) * a) by (nonlinear_arith);
    }
    assert(r3 == (a0 * b3) * two_192() + (a1 * b3) * modulus() + (a2 * b3) * (modulus()
        * two_64()) + (a3 * b3) * (modulus() * two_128())) by {
        assert(a * (b3 * two_192()) == (b3 * two_192()) * a) by (nonlinear_arith);
    }
    let b = b0 + b1 * two_64() + b2 * two_128() + b3 * two_192();
    let (q00, q10, q20, q30) = (a0 * b0, a1 * b0, a2 * b0, a3 * b0);
    let (q01, q11, q21, q31) = (a0 * b1, a1 * b1, a2 * b1, a3 * b1);
    let (q02, q12, q22, q32) = (a0 * b2, a1 * b2, a2 * b2, a3 * b2);
    let (q03, q13, q23, q33) = (a0 * b3, a1 * b3, a2 * b3, a3 * b3);
    assert(a * b == q00 + (q01 + q10) * two_64() + (q02 + q11 + q20) * two_128() + (q03 + q12
        + q21 + q30) * two_192() + modulus() * (q13 + q22 + q31 + (q23 + q32) * two_64() + q33
        * two_128())) by (nonlinear_arith)
        requires
            a * b == r0 + r1 + r2 + r3,
            r0 == q00 + q10 * two_64() + q20 * two_128() + q30 * two_192(),
            r1 == q01 * two_64() + q11 * two_128() + q21 * two_192() + q31 * modulus(),
            r2 == q02 * two_128() + q12 * two_192() + q22 * modulus() + q32 * (modulus()
                * two_64()),
            r3 == q03 * two_192() + q13 * modulus() + q23 * (modulus() * two_64()) + q33 * (
            modulus() * two_128()),
    ;
}

impl Word {
    /// The word whose value is `n` modulo 2^256.
    pub open spec fn from_nat(n: nat) -> Word {
        Word {
            l0: ((n as int) % two_64()) as u64,
            l1: (((n as int) / two_64()) % two_64()) as u64,
            l2: (((n as int) / two_128()) % two_64()) as u64,
            l3: (((n as int) / two_192()) % two_64()) as u64,
        }
    }

    /// The word of a value below 2^256 has that value.
    pub proof fn lemma_view_of_from_nat(n: nat)
        requires
            n < modulus(),
        ensures
            Word::from_nat(n)@ == n,
    {
        let x = n as int;
        let q1 = x / two_64();
        let q2 = x / two_128();
        let q3 = x / two_192();
        vstd::arithmetic::div_mod::lemma_fundamental_div_mod(x, two_64());
        vstd::arithmetic::div_mod::lemma_fundamental_div_mod(q1, two_64());
        vstd::arithmetic::div_mod::lemma_fundamental_div_mod(q2, two_64());
        vstd::arithmetic::div_mod::lemma_div_denominator(x, two_64(), two_64());
        vstd::arithmetic::div_mod::lemma_div_denominator(x, two_128(), two_64());
        assert(two_64() * two_64() == two_128());
        assert(two_128() * two_64() == two_192());
        assert(q1 / two_64() == q2);
        assert(q2 / two_64() == q3);
        assert(x == two_64() * q1 + x % two_64());
        assert(q1 == two_64() * q2 + q1 % two_64());
        assert(q2 == two_64() * q3 + q2 % two_64());
        assert(0 <= q3 < two_64());
        vstd::arithmetic::div_mod::lemma_small_mod(q3 as nat, two_64() as nat);
    }

    /// A word is the word of its value: two words with one value are equal.
    pub proof fn lemma_from_nat_of_view(self)
        ensures
            Word::from_nat(self@) == self,
    {
        let x = self@ as int;
        vstd::arithmetic::div_mod::lemma_fundamental_div_mod_converse(
            x,
            two_64(),
            self.l1 + self.l2 * two_64() + self.l3 * two_128(),
            self.l0 as int,
        );
        vstd::arithmetic::div_mod::lemma_fundamental_div_mod_converse(
            x / two_64(),
            two_64(),
            self.l2 + self.l3 * two_64(),
            self.l1 as int,
        );
        vstd::arithmetic::div_mod::lemma_fundamental_div_mod_converse(
            x,
            two_128(),
            self.l2 + self.l3 * two_64(),
            self.l0 + self.l1 * two_64(),
        );
        vstd::arithmetic::div_mod::lemma_fundamental_div_mod_converse(
            x / two_128(),
            two_64(),
            self.l3 as int,
            self.l2 as int,
        );
        vstd::arithmetic::div_mod::lemma_fundamental_div_mod_converse(
            x,
            two_192(),
            self.l3 as int,
            self.l0 + self.l1 * two_64() + self.l2 * two_128(),
        );
        vstd::arithmetic::div_mod::lemma_small_mod(self.l3 as nat, two_64() as nat);
    }

    /// The word 0.
    pub fn zero() -> (r: Word)
        ensures
            r@ == 0,
    {
        Word { l0: 0, l1: 0, l2: 0, l3: 0 }
    }

    /// The largest word, 2^256 - 1.
    pub fn max_value() -> (r: Word)
        ensures
            r@ == modulus() - 1,
    {
        Word {
            l0: 0xffff_ffff_ffff_ffff,
            l1: 0xffff_ffff_ffff_ffff,
            l2: 0xffff_ffff_ffff_ffff,
            l3: 0xffff_ffff_ffff_ffff,
        }
    }

    /// The word with the value of `x`.
    pub fn from_u64(x: u64) -> (r: Word)
        ensures
            r@ == x,
    {
        Word { l0: x, l1: 0, l2: 0, l3: 0 }
    }

    /// The word with the value of `x`.
    pub fn from_usize(x: usize) -> (r: Word)
        ensures
            r@ == x,
    {
        Word { l0: x as u64, l1: 0, l2: 0, l3: 0 }
    }

    /// Whether the word is 0.
    pub fn is_zero(&self) -> (r: bool)
        ensures
            r == (self@ == 0),
    {
        self.l0 == 0 && self.l1 == 0 && self.l2 == 0 && self.l3 == 0
    }

    /// The value as a `usize`, where it fits.
    pub fn to_usize(&self) -> (r: Option<usize>)
        ensures
            self@ <= usize::MAX ==> r == Some(self@ as usize),
            self@ > usize::MAX ==> r is None,
    {
        if self.l1 == 0 && self.l2 == 0 && self.l3 == 0 && self.l0 <= usize::MAX as u64 {
            Some(self.l0 as usize)
        } else {
            None
        }
    }

    /// The least significant byte: the value modulo 256.
    pub fn low_byte(&self) -> (r: u8)
        ensures
            r == self@ % 256,
    {
        (self.l0 % 256) as u8
    }

    /// The word moved up by one byte, with `low` as its new lowest byte.
    /// The top byte must be zero, so that nothing is lost.
    pub fn shift_in(self, low: u8) -> (r: Word)
        requires
            self@ < two_248(),
        ensures
            r@ == self@ * 256 + low,
    {
        let (r0, c0) = shift_limb(self.l0, low);
        let (r1, c1) = shift_limb(self.l1, c0);
        let (r2, c2) = shift_limb(self.l2, c1);
        let (r3, c3) = shift_limb(self.l3, c2);
        assert(c3 == 0);
        Word { l0: r0, l1: r1, l2: r2, l3: r3 }
    }

    /// The 32 bytes of the word, most significant first.
    pub fn to_be_bytes(&self) -> (r: Vec<u8>)
        ensures
            r@.len() == 32,
            be_value(r@) == self@,
    {
        let mut out: Vec<u8> = Vec::new();
        push_limb_be(&mut out, self.l3);
        push_limb_be(&mut out, self.l2);
        push_limb_be(&mut out, self.l1);
        push_limb_be(&mut out, self.l0);
        out
    }

    /// Addition modulo 2^256.
    pub fn wrapping_add(self, rhs: Word) -> (r: Word)
        ensures
            r@ == add_mod(self@, rhs@),
    {
        let (r0, c0) = add_limbs(self.l0, rhs.l0, 0);
        let (r1, c1) = add_limbs(self.l1, rhs.l1, c0);
        let (r2, c2) = add_limbs(self.l2, rhs.l2, c1);
        let (r3, c3) = add_limbs(self.l3, rhs.l3, c2);
        let r = Word { l0: r0, l1: r1, l2: r2, l3: r3 };
        proof {
            assert(self@ + rhs@ == r@ + modulus() * c3);
            lemma_reduce((self@ + rhs@) as int, r@ as int, c3 as int);
        }
        r
    }

    /// Subtraction modulo 2^256: `self - rhs`.
    pub fn wrapping_sub(self, rhs: Word) -> (r: Word)
        ensures
            r@ == sub_mod(self@, rhs@),
    {
        let (r0, c0) = sub_limbs(self.l0, rhs.l0, 0);
        let (r1, c1) = sub_limbs(self.l1, rhs.l1, c0);
        let (r2, c2) = sub_limbs(self.l2, rhs.l2, c1);
        let (r3, c3) = sub_limbs(self.l3, rhs.l3, c2);
        let r = Word { l0: r0, l1: r1, l2: r2, l3: r3 };
        proof {
            assert(self@ - rhs@ == r@ + modulus() * (-c3));
            lemma_reduce(self@ - rhs@, r@ as int, -(c3 as int));
        }
        r
    }

    /// Multiplication modulo 2^256.
    pub fn wrapping_mul(self, rhs: Word) -> (r: Word)
        ensures
            r@ == mul_mod(self@, rhs@),
    {
        let p00: u128 = limb_product(self.l0, rhs.l0);
        let p01: u128 = limb_product(self.l0, rhs.l1);
        let p10: u128 = limb_product(self.l1, rhs.l0);
        let p02: u128 = limb_product(self.l0, rhs.l2);
        let p11: u128 = limb_product(self.l1, rhs.l1);
        let p20: u128 = limb_product(self.l2, rhs.l0);
        let p03: u128 = limb_product(self.l0, rhs.l3);
        let p12: u128 = limb_product(self.l1, rhs.l2);
        let p21: u128 = limb_product(self.l2, rhs.l1);
        let p30: u128 = limb_product(self.l3, rhs.l0);
        let c1: u128 = p00 / LIMB_BASE + p01 % LIMB_BASE + p10 % LIMB_BASE;
        let c2: u128 = c1 / LIMB_BASE + p01 / LIMB_BASE + p10 / LIMB_BASE + p02 % LIMB_BASE
            + p11 % LIMB_BASE + p20 % LIMB_BASE;
        let c3: u128 = c2 / LIMB_BASE + p02 / LIMB_BASE + p11 / LIMB_BASE + p20 / LIMB_BASE
            + p03 % LIMB_BASE + p12 % LIMB_BASE + p21 % LIMB_BASE + p30 % LIMB_BASE;
        let r = Word {
            l0: (p00 % LIMB_BASE) as u64,
            l1: (c1 % LIMB_BASE) as u64,
            l2: (c2 % LIMB_BASE) as u64,
            l3: (c3 % LIMB_BASE) as u64,
        };
        proof {
            let dropped: int = c3 / LIMB_BASE + p03 / LIMB_BASE + p12 / LIMB_BASE
                + p21 / LIMB_BASE + p30 / LIMB_BASE;
            let low: int = p00 + (p01 + p10) * two_64() + (p02 + p11 + p20) * two_128()
                + (p03 + p12 + p21 + p30) * two_192();
            assert(low == r@ + modulus() * dropped);
            let high: int = self.l1 * rhs.l3 + self.l2 * rhs.l2 + self.l3 * rhs.l1
                + (self.l2 * rhs.l3 + self.l3 * rhs.l2) * two_64()
                + (self.l3 * rhs.l3) * two_128();
            lemma_product_split(
                self.l0 as int, self.l1 as int, self.l2 as int, self.l3 as int,
                rhs.l0 as int, rhs.l1 as int, rhs.l2 as int, rhs.l3 as int,
            );
            assert(self@ * rhs@ == low + modulus() * high);
            assert(high >= 0) by (nonlinear_arith)
                requires
                    high == self.l1 * rhs.l3 + self.l2 * rhs.l2 + self.l3 * rhs.l1
                        + (self.l2 * rhs.l3 + self.l3 * rhs.l2) * two_64()
                        + (self.l3 * rhs.l3) * two_128(),
            ;
            let k: int = dropped + high;
            assert(self@ * rhs@ == r@ + modulus() * k);
            assert(k >= 0);
            lemma_reduce((self@ * rhs@) as int, r@ as int, k);
        }
        r
    }
}

} // verus!
