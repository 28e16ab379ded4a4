//! Conversion between integer sample representations.
//!
//! Every integer sample is modelled by its *level*: the value in offset binary,
//! where 0 is the most negative sample the width can hold. For an unsigned
//! sample the level is its value; for a signed one it is the value plus half
//! the range. Converting between representations rescales the level: widening
//! shifts it into the high bits, narrowing drops the low bits.
use vstd::arithmetic::div_mod::{lemma_div_denominator, lemma_fundamental_div_mod, lemma_small_mod};
use vstd::prelude::*;

verus! {

/// `2^k` for the bit distances that occur between sample widths.
pub open spec fn weight(k: int) -> int {
    if k == 0 {
        1
    } else if k == 8 {
        0x100
    } else if k == 16 {
        0x1_0000
    } else if k == 24 {
        0x100_0000
    } else if k == 32 {
        0x1_0000_0000
    } else {
        0
    }
}

/// A level of width `from` expressed at width `to`: shifted left when widening,
/// shifted right (truncating) when narrowing.
pub open spec fn rescale(level: int, from: int, to: int) -> int {
    if from <= to {
        level * weight(to - from)
    } else {
        level / weight(from - to)
    }
}

/// The two's complement bit pattern of `v` in a word of `bits` bits.
pub open spec fn twos_code(v: int, bits: int) -> int {
    if v < 0 {
        v + weight(bits)
    } else {
        v
    }
}

/// The level of a signed value of width `bits`: its value plus half the range.
pub open spec fn signed_level(v: int, bits: int) -> int {
    v + weight(bits) / 2
}

/// `256^i`, the weight of the `i`-th least significant byte.
pub open spec fn byte_weight(i: int) -> int {
    weight(8 * i)
}

/// The `n` low bytes of `code`, least significant first.
pub open spec fn le_bytes(code: int, n: int) -> Seq<u8> {
    Seq::new(n as nat, |i: int| ((code / byte_weight(i)) % 256) as u8)
}

/// The `n` low bytes of `code`, most significant first.
pub open spec fn be_bytes(code: int, n: int) -> Seq<u8> {
    Seq::new(n as nat, |i: int| ((code / byte_weight(n - 1 - i)) % 256) as u8)
}

/// The number whose little-endian bytes are `s`.
pub open spec fn le_value(s: Seq<u8>) -> int
    decreases s.len(),
{
    if s.len() == 0 {
        0
    } else {
        le_value(s.drop_last()) + s.last() * byte_weight(s.len() - 1)
    }
}

/// The number whose big-endian bytes are `s`.
pub open spec fn be_value(s: Seq<u8>) -> int
    decreases s.len(),
{
    if s.len() == 0 {
        0
    } else {
        be_value(s.drop_last()) * 256 + s.last()
    }
}

/// `s` with the bytes from `at` on replaced by `w`.
pub open spec fn splice(s: Seq<u8>, at: int, w: Seq<u8>) -> Seq<u8> {
    s.subrange(0, at) + w + s.subrange(at + w.len(), s.len() as int)
}

/// An unsigned 24-bit sample, held in the low three bytes of a `u32`.
#[allow(non_camel_case_types)]
#[derive(Copy, Clone, Debug, PartialEq, Eq, Structural, PartialOrd, Ord, Default)]
pub struct u24(pub u32);

/// A signed 24-bit sample, held in an `i32`.
#[allow(non_camel_case_types)]
#[derive(Copy, Clone, Debug, PartialEq, Eq, Structural, PartialOrd, Ord, Default)]
pub struct i24(pub i32);

impl u24 {
    /// The value lies in `[0, 2^24 - 1]`.
    pub open spec fn wf(self) -> bool {
        self.0 < 0x100_0000
    }

    pub fn min_value() -> (r: u32)
        ensures
            r == 0,
    {
        0x0000_0000
    }

    pub fn max_value() -> (r: u32)
        ensures
            r == 0xFF_FFFF,
    {
        0x00FF_FFFF
    }
}

impl i24 {
    /// The value lies in `[-2^23, 2^23 - 1]`.
    pub open spec fn wf(self) -> bool {
        -0x80_0000 <= self.0 < 0x80_0000
    }

    pub fn min_value() -> (r: i32)
        ensures
            r == -0x80_0000,
    {
        -0x0080_0000
    }

    pub fn max_value() -> (r: i32)
        ensures
            r == 0x7F_FFFF,
    {
        0x007F_FFFF
    }
}

// Sign flips between the two representations of one width.

fn flip_u8(v: u8) -> (r: i8)
    ensures
        signed_level(r as int, 8) == v,
{
    ((v as i16) - 0x80) as i8
}

fn flip_i8(v: i8) -> (r: u8)
    ensures
        r == signed_level(v as int, 8),
{
    ((v as i16) + 0x80) as u8
}

fn flip_u16(v: u16) -> (r: i16)
    ensures
        signed_level(r as int, 16) == v,
{
    ((v as i32) - 0x8000) as i16
}

fn flip_i16(v: i16) -> (r: u16)
    ensures
        r == signed_level(v as int, 16),
{
    ((v as i32) + 0x8000) as u16
}

fn flip_u24(v: u24) -> (r: i24)
    requires
        v.wf(),
    ensures
        r.wf(),
        signed_level(r.0 as int, 24) == v.0,
{
    i24(((v.0 as i64) - 0x80_0000) as i32)
}

fn flip_i24(v: i24) -> (r: u24)
    requires
        v.wf(),
    ensures
        r.wf(),
        r.0 == signed_level(v.0 as int, 24),
{
    u24(((v.0 as i64) + 0x80_0000) as u32)
}

fn flip_u32(v: u32) -> (r: i32)
    ensures
        signed_level(r as int, 32) == v,
{
    ((v as i64) - 0x8000_0000) as i32
}

fn flip_i32(v: i32) -> (r: u32)
    ensures
        r == signed_level(v as int, 32),
{
    ((v as i64) + 0x8000_0000) as u32
}

/// The byte of `r` at position `i` when `r` is laid out as `low`, then `b`, then `rest`.
proof fn lemma_digit(r: int, i: int, low: int, b: int, rest: int)
    requires
        0 <= i <= 3,
        0 <= low < byte_weight(i),
        0 <= b < 256,
        0 <= rest,
        r == low + byte_weight(i) * (b + 256 * rest),
    ensures
        (r / byte_weight(i)) % 256 == b,
{
    vstd::arithmetic::div_mod::lemma_fundamental_div_mod_converse(r, byte_weight(i), b + 256 * rest, low);
    vstd::arithmetic::div_mod::lemma_fundamental_div_mod_converse(b + 256 * rest, 256, rest, b);
}

proof fn lemma_bytes2(b0: u8, b1: u8)
    ensures
        le_bytes(b0 + 0x100 * b1, 2) == seq![b0, b1],
        be_bytes(b0 * 0x100 + b1, 2) == seq![b0, b1],
{
    assert(byte_weight(0) == 1 && byte_weight(1) == 0x100 && byte_weight(2) == 0x1_0000
        && byte_weight(3) == 0x100_0000);
    lemma_digit(b0 + 0x100 * b1, 0, 0, b0 as int, b1 as int);
    lemma_digit(b0 + 0x100 * b1, 1, b0 as int, b1 as int, 0);
    lemma_digit(b1 + 0x100 * b0, 0, 0, b1 as int, b0 as int);
    lemma_digit(b1 + 0x100 * b0, 1, b1 as int, b0 as int, 0);
    assert(le_bytes(b0 + 0x100 * b1, 2) =~= seq![b0, b1]);
    assert(be_bytes(b0 * 0x100 + b1, 2) =~= seq![b0, b1]);
}

proof fn lemma_bytes3(b0: u8, b1: u8, b2: u8)
    ensures
        le_bytes(b0 + 0x100 * b1 + 0x1_0000 * b2, 3) == seq![b0, b1, b2],
        be_bytes(b0 * 0x1_0000 + b1 * 0x100 + b2, 3) == seq![b0, b1, b2],
{
    assert(byte_weight(0) == 1 && byte_weight(1) == 0x100 && byte_weight(2) == 0x1_0000
        && byte_weight(3) == 0x100_0000);
    let r = b0 + 0x100 * b1 + 0x1_0000 * b2;
    lemma_digit(r, 0, 0, b0 as int, b1 + 0x100 * b2);
    lemma_digit(r, 1, b0 as int, b1 as int, b2 as int);
    lemma_digit(r, 2, b0 + 0x100 * b1, b2 as int, 0);
    assert(le_bytes(r, 3) =~= seq![b0, b1, b2]);
    let q = b2 + 0x100 * b1 + 0x1_0000 * b0;
    lemma_digit(q, 0, 0, b2 as int, b1 + 0x100 * b0);
    lemma_digit(q, 1, b2 as int, b1 as int, b0 as int);
    lemma_digit(q, 2, b2 + 0x100 * b1, b0 as int, 0);
    assert(be_bytes(b0 * 0x1_0000 + b1 * 0x100 + b2, 3) =~= seq![b0, b1, b2]);
}

proof fn lemma_bytes4(b0: u8, b1: u8, b2: u8, b3: u8)
    ensures
        le_bytes(b0 + 0x100 * b1 + 0x1_0000 * b2 + 0x100_0000 * b3, 4) == seq![b0, b1, b2, b3],
        be_bytes(b0 * 0x100_0000 + b1 * 0x1_0000 + b2 * 0x100 + b3, 4) == seq![b0, b1, b2, b3],
{
    assert(byte_weight(0) == 1 && byte_weight(1) == 0x100 && byte_weight(2) == 0x1_0000
        && byte_weight(3) == 0x100_0000);
    let r = b0 + 0x100 * b1 + 0x1_0000 * b2 + 0x100_0000 * b3;
    lemma_digit(r, 0, 0, b0 as int, b1 + 0x100 * b2 + 0x1_0000 * b3);
    lemma_digit(r, 1, b0 as int, b1 as int, b2 + 0x100 * b3);
    assert(b0 + 0x100 * b1 + 0x1_0000 * b2 + 0x100_0000 * b3
        == (b0 + 0x100 * b1) + 0x1_0000 * (b2 + 256 * b3)) by (nonlinear_arith);
    lemma_digit(r, 2, b0 + 0x100 * b1, b2 as int, b3 as int);
    lemma_digit(r, 3, b0 + 0x100 * b1 + 0x1_0000 * b2, b3 as int, 0);
    assert(le_bytes(r, 4) =~= seq![b0, b1, b2, b3]);
    let q = b3 + 0x100 * b2 + 0x1_0000 * b1 + 0x100_0000 * b0;
    lemma_digit(q, 0, 0, b3 as int, b2 + 0x100 * b1 + 0x1_0000 * b0);
    lemma_digit(q, 1, b3 as int, b2 as int, b1 + 0x100 * b0);
    assert(b3 + 0x100 * b2 + 0x1_0000 * b1 + 0x100_0000 * b0
        == (b3 + 0x100 * b2) + 0x1_0000 * (b1 + 256 * b0)) by (nonlinear_arith);
    lemma_digit(q, 2, b3 + 0x100 * b2, b1 as int, b0 as int);
    lemma_digit(q, 3, b3 + 0x100 * b2 + 0x1_0000 * b1, b0 as int, 0);
    assert(be_bytes(b0 * 0x100_0000 + b1 * 0x1_0000 + b2 * 0x100 + b3, 4) =~= seq![b0, b1, b2, b3]);
}

proof fn lemma_values(b0: u8, b1: u8, b2: u8, b3: u8)
    ensures
        le_value(seq![b0]) == b0,
        be_value(seq![b0]) == b0,
        le_value(seq![b0, b1]) == b0 + 0x100 * b1,
        be_value(seq![b0, b1]) == b0 * 0x100 + b1,
        le_value(seq![b0, b1, b2]) == b0 + 0x100 * b1 + 0x1_0000 * b2,
        be_value(seq![b0, b1, b2]) == b0 * 0x1_0000 + b1 * 0x100 + b2,
        le_value(seq![b0, b1, b2, b3]) == b0 + 0x100 * b1 + 0x1_0000 * b2 + 0x100_0000 * b3,
        be_value(seq![b0, b1, b2, b3]) == b0 * 0x100_0000 + b1 * 0x1_0000 + b2 * 0x100 + b3,
{
    assert(byte_weight(0) == 1 && byte_weight(1) == 0x100 && byte_weight(2) == 0x1_0000
        && byte_weight(3) == 0x100_0000);
    assert(seq![b0].drop_last() =~= Seq::<u8>::empty());
    assert(seq![b0, b1].drop_last() =~= seq![b0]);
    assert(seq![b0, b1, b2].drop_last() =~= seq![b0, b1]);
    assert(seq![b0, b1, b2, b3].drop_last() =~= seq![b0, b1, b2]);
    reveal_with_fuel(le_value, 5);
    reveal_with_fuel(be_value, 5);
}

/// The `n` low bytes of a number below `256^n` determine it: reading back what
/// `le_bytes` and `be_bytes` lay out gives the number.
pub proof fn lemma_bytes_round_trip(c: int, n: int)
    requires
        1 <= n <= 4,
        0 <= c < byte_weight(n),
    ensures
        le_value(le_bytes(c, n)) == c,
        be_value(be_bytes(c, n)) == c,
{
    assert(byte_weight(0) == 1 && byte_weight(1) == 0x100 && byte_weight(2) == 0x1_0000
        && byte_weight(3) == 0x100_0000 && byte_weight(4) == 0x1_0000_0000);
    let q1 = c / 0x100;
    let q2 = c / 0x1_0000;
    let q3 = c / 0x100_0000;
    lemma_fundamental_div_mod(c, 0x100);
    lemma_fundamental_div_mod(q1, 0x100);
    lemma_fundamental_div_mod(q2, 0x100);
    lemma_div_denominator(c, 0x100, 0x100);
    lemma_div_denominator(c, 0x1_0000, 0x100);
    assert(q1 / 0x100 == q2);
    assert(q2 / 0x100 == q3);
    let b0 = (c % 0x100) as u8;
    let b1 = (q1 % 0x100) as u8;
    let b2 = (q2 % 0x100) as u8;
    let b3 = (q3 % 0x100) as u8;
    lemma_values(b0, b1, b2, b3);
    if n == 1 {
        lemma_small_mod(c as nat, 0x100);
        assert(le_bytes(c, 1) =~= seq![b0]);
        assert(be_bytes(c, 1) =~= seq![b0]);
    } else if n == 2 {
        assert(q1 < 0x100);
        lemma_small_mod(q1 as nat, 0x100);
        assert(le_bytes(c, 2) =~= seq![b0, b1]);
        assert(be_bytes(c, 2) =~= seq![b1, b0]);
        lemma_values(b1, b0, 0, 0);
    } else if n == 3 {
        assert(q2 < 0x100);
        lemma_small_mod(q2 as nat, 0x100);
        assert(le_bytes(c, 3) =~= seq![b0, b1, b2]);
        assert(be_bytes(c, 3) =~= seq![b2, b1, b0]);
        lemma_values(b2, b1, b0, 0);
    } else {
        assert(q3 < 0x100);
        lemma_small_mod(q3 as nat, 0x100);
        assert(le_bytes(c, 4) =~= seq![b0, b1, b2, b3]);
        assert(be_bytes(c, 4) =~= seq![b3, b2, b1, b0]);
        lemma_values(b3, b2, b1, b0);
    }
}

// Fixed-width byte access. A 24-bit word takes exactly three bytes.

fn read_le2(bytes: &[u8], at: usize) -> (r: u16)
    requires
        at + 2 <= bytes@.len(),
    ensures
        r == le_value(bytes@.subrange(at as int, at + 2)),
        le_bytes(r as int, 2) == bytes@.subrange(at as int, at + 2),
{
    let b0: u8 = bytes[at];
    let b1: u8 = bytes[at + 1];
    let r = (b0 as u16) + (b1 as u16) * 0x100;
    proof {
        lemma_values(b0, b1, 0, 0);
        lemma_bytes2(b0, b1);
    }
    assert(bytes@.subrange(at as int, at + 2) =~= seq![b0, b1]);
    r
}

fn read_be2(bytes: &[u8], at: usize) -> (r: u16)
    requires
        at + 2 <= bytes@.len(),
    ensures
        r == be_value(bytes@.subrange(at as int, at + 2)),
        be_bytes(r as int, 2) == bytes@.subrange(at as int, at + 2),
{
    let b0: u8 = bytes[at];
    let b1: u8 = bytes[at + 1];
    let r = (b0 as u16) * 0x100 + (b1 as u16);
    proof {
        lemma_values(b0, b1, 0, 0);
        lemma_bytes2(b0, b1);
    }
    assert(bytes@.subrange(at as int, at + 2) =~= seq![b0, b1]);
    r
}

fn read_le3(bytes: &[u8], at: usize) -> (r: u32)
    requires
        at + 3 <= bytes@.len(),
    ensures
        r == le_value(bytes@.subrange(at as int, at + 3)),
        r < 0x100_0000,
        le_bytes(r as int, 3) == bytes@.subrange(at as int, at + 3),
{
    let b0: u8 = bytes[at];
    let b1: u8 = bytes[at + 1];
    let b2: u8 = bytes[at + 2];
    let r = (b0 as u32) + (b1 as u32) * 0x100 + (b2 as u32) * 0x1_0000;
    proof {
        lemma_values(b0, b1, b2, 0);
        lemma_bytes3(b0, b1, b2);
    }
    assert(bytes@.subrange(at as int, at + 3) =~= seq![b0, b1, b2]);
    r
}

fn read_be3(bytes: &[u8], at: usize) -> (r: u32)
    requires
        at + 3 <= bytes@.len(),
    ensures
        r == be_value(bytes@.subrange(at as int, at + 3)),
        r < 0x100_0000,
        be_bytes(r as int, 3) == bytes@.subrange(at as int, at + 3),
{
    let b0: u8 = bytes[at];
    let b1: u8 = bytes[at + 1];
    let b2: u8 = bytes[at + 2];
    let r = (b0 as u32) * 0x1_0000 + (b1 as u32) * 0x100 + (b2 as u32);
    proof {
        lemma_values(b0, b1, b2, 0);
        lemma_bytes3(b0, b1, b2);
    }
    assert(bytes@.subrange(at as int, at + 3) =~= seq![b0, b1, b2]);
    r
}

fn read_le4(bytes: &[u8], at: usize) -> (r: u32)
    requires
        at + 4 <= bytes@.len(),
    ensures
        r == le_value(bytes@.subrange(at as int, at + 4)),
        le_bytes(r as int, 4) == bytes@.subrange(at as int, at + 4),
{
    let b0: u8 = bytes[at];
    let b1: u8 = bytes[at + 1];
    let b2: u8 = bytes[at + 2];
    let b3: u8 = bytes[at + 3];
    let r = (b0 as u32) + (b1 as u32) * 0x100 + (b2 as u32) * 0x1_0000 + (b3 as u32) * 0x100_0000;
    proof {
        lemma_values(b0, b1, b2, b3);
        lemma_bytes4(b0, b1, b2, b3);
    }
    assert(bytes@.subrange(at as int, at + 4) =~= seq![b0, b1, b2, b3]);
    r
}

fn read_be4(bytes: &[u8], at: usize) -> (r: u32)
    requires
        at + 4 <= bytes@.len(),
    ensures
        r == be_value(bytes@.subrange(at as int, at + 4)),
        be_bytes(r as int, 4) == bytes@.subrange(at as int, at + 4),
{
    let b0: u8 = bytes[at];
    let b1: u8 = bytes[at + 1];
    let b2: u8 = bytes[at + 2];
    let b3: u8 = bytes[at + 3];
    let r = (b0 as u32) * 0x100_0000 + (b1 as u32) * 0x1_0000 + (b2 as u32) * 0x100 + (b3 as u32);
    proof {
        lemma_values(b0, b1, b2, b3);
        lemma_bytes4(b0, b1, b2, b3);
    }
    assert(bytes@.subrange(at as int, at + 4) =~= seq![b0, b1, b2, b3]);
    r
}

fn write_le2(bytes: &mut Vec<u8>, at: usize, code: u16)
    requires
        at + 2 <= old(bytes)@.len(),
    ensures
        final(bytes)@ == splice(old(bytes)@, at as int, le_bytes(code as int, 2)),
{
    let len = bytes.len();
    assert(at + 1 < len);
    bytes[at] = (code % 0x100) as u8;
    bytes[at + 1] = (code / 0x100) as u8;
    assert(bytes@ =~= splice(old(bytes)@, at as int, le_bytes(code as int, 2)));
}

fn write_be2(bytes: &mut Vec<u8>, at: usize, code: u16)
    requires
        at + 2 <= old(bytes)@.len(),
    ensures
        final(bytes)@ == splice(old(bytes)@, at as int, be_bytes(code as int, 2)),
{
    let len = bytes.len();
    assert(at + 1 < len);
    bytes[at] = (code / 0x100) as u8;
    bytes[at + 1] = (code % 0x100) as u8;
    assert(bytes@ =~= splice(old(bytes)@, at as int, be_bytes(code as int, 2)));
}

fn write_le3(bytes: &mut Vec<u8>, at: usize, code: u32)
    requires
        at + 3 <= old(bytes)@.len(),
    ensures
        final(bytes)@ == splice(old(bytes)@, at as int, le_bytes(code as int, 3)),
{
    let len = bytes.len();
    assert(at + 1 < len);
    bytes[at] = (code % 0x100) as u8;
    bytes[at + 1] = ((code / 0x100) % 0x100) as u8;
    bytes[at + 2] = ((code / 0x1_0000) % 0x100) as u8;
    assert(bytes@ =~= splice(old(bytes)@, at as int, le_bytes(code as int, 3)));
}

fn write_be3(bytes: &mut Vec<u8>, at: usize, code: u32)
    requires
        at + 3 <= old(bytes)@.len(),
    ensures
        final(bytes)@ == splice(old(bytes)@, at as int, be_bytes(code as int, 3)),
{
    let len = bytes.len();
    assert(at + 1 < len);
    bytes[at] = ((code / 0x1_0000) % 0x100) as u8;
    bytes[at + 1] = ((code / 0x100) % 0x100) as u8;
    bytes[at + 2] = (code % 0x100) as u8;
    assert(bytes@ =~= splice(old(bytes)@, at as int, be_bytes(code as int, 3)));
}

fn write_le4(bytes: &mut Vec<u8>, at: usize, code: u32)
    requires
        at + 4 <= old(bytes)@.len(),
    ensures
        final(bytes)@ == splice(old(bytes)@, at as int, le_bytes(code as int, 4)),
{
    let len = bytes.len();
    assert(at + 1 < len);
    bytes[at] = (code % 0x100) as u8;
    bytes[at + 1] = ((code / 0x100) % 0x100) as u8;
    bytes[at + 2] = ((code / 0x1_0000) % 0x100) as u8;
    bytes[at + 3] = (code / 0x100_0000) as u8;
    assert(bytes@ =~= splice(old(bytes)@, at as int, le_bytes(code as int, 4)));
}

fn write_be4(bytes: &mut Vec<u8>, at: usize, code: u32)
    requires
        at + 4 <= old(bytes)@.len(),
    ensures
        final(bytes)@ == splice(old(bytes)@, at as int, be_bytes(code as int, 4)),
{
    let len = bytes.len();
    assert(at + 1 < len);
    bytes[at] = (code / 0x100_0000) as u8;
    bytes[at + 1] = ((code / 0x1_0000) % 0x100) as u8;
    bytes[at + 2] = ((code / 0x100) % 0x100) as u8;
    bytes[at + 3] = (code % 0x100) as u8;
    assert(bytes@ =~= splice(old(bytes)@, at as int, be_bytes(code as int, 4)));
}

proof fn lemma_bytes1(b0: u8)
    ensures
        le_bytes(b0 as int, 1) == seq![b0],
        be_bytes(b0 as int, 1) == seq![b0],
{
    assert(le_bytes(b0 as int, 1) =~= seq![b0]);
    assert(be_bytes(b0 as int, 1) =~= seq![b0]);
}

fn read_1(bytes: &[u8], at: usize) -> (r: u8)
    requires
        at + 1 <= bytes@.len(),
    ensures
        r == le_value(bytes@.subrange(at as int, at + 1)),
        r == be_value(bytes@.subrange(at as int, at + 1)),
        le_bytes(r as int, 1) == bytes@.subrange(at as int, at + 1),
        be_bytes(r as int, 1) == bytes@.subrange(at as int, at + 1),
{
    let r = bytes[at];
    proof {
        lemma_values(r, 0, 0, 0);
        lemma_bytes1(r);
    }
    assert(bytes@.subrange(at as int, at + 1) =~= seq![r]);
    r
}

fn write_1(bytes: &mut Vec<u8>, at: usize, code: u8)
    requires
        at + 1 <= old(bytes)@.len(),
    ensures
        final(bytes)@ == splice(old(bytes)@, at as int, le_bytes(code as int, 1)),
        final(bytes)@ == splice(old(bytes)@, at as int, be_bytes(code as int, 1)),
{
    bytes[at] = code;
    proof {
        lemma_bytes1(code);
    }
    assert(bytes@ =~= splice(old(bytes)@, at as int, seq![code]));
}

// Two's complement bit patterns of the signed widths.

fn encode_i8(v: i8) -> (r: u8)
    ensures
        r == twos_code(v as int, 8),
{
    if v < 0 {
        ((v as i16) + 0x100) as u8
    } else {
        v as u8
    }
}

fn decode_i8(c: u8) -> (r: i8)
    ensures
        twos_code(r as int, 8) == c,
{
    if c >= 0x80 {
        ((c as i16) - 0x100) as i8
    } else {
        c as i8
    }
}

fn encode_i16(v: i16) -> (r: u16)
    ensures
        r == twos_code(v as int, 16),
{
    if v < 0 {
        ((v as i32) + 0x1_0000) as u16
    } else {
        v as u16
    }
}

fn decode_i16(c: u16) -> (r: i16)
    ensures
        twos_code(r as int, 16) == c,
{
    if c >= 0x8000 {
        ((c as i32) - 0x1_0000) as i16
    } else {
        c as i16
    }
}

fn encode_i24(v: i24) -> (r: u32)
    requires
        v.wf(),
    ensures
        r == twos_code(v.0 as int, 24),
        r < 0x100_0000,
{
    if v.0 < 0 {
        (v.0 + 0x100_0000) as u32
    } else {
        v.0 as u32
    }
}

fn decode_i24(c: u32) -> (r: i24)
    requires
        c < 0x100_0000,
    ensures
        r.wf(),
        twos_code(r.0 as int, 24) == c,
{
    if c >= 0x80_0000 {
        i24((c as i32) - 0x100_0000)
    } else {
        i24(c as i32)
    }
}

fn encode_i32(v: i32) -> (r: u32)
    ensures
        r == twos_code(v as int, 32),
{
    if v < 0 {
        ((v as i64) + 0x1_0000_0000) as u32
    } else {
        v as u32
    }
}

fn decode_i32(c: u32) -> (r: i32)
    ensures
        twos_code(r as int, 32) == c,
{
    if c >= 0x8000_0000 {
        ((c as i64) - 0x1_0000_0000) as i32
    } else {
        c as i32
    }
}

// Conversions between each pair of distinct representations.

fn u8_to_u16(v: u8) -> (r: u16)
    ensures
        r as int == rescale(v as int, 8, 16),
{
    (v as u16) * 0x100
}

fn u8_to_u24(v: u8) -> (r: u24)
    ensures
        r.wf(),
        r.0 as int == rescale(v as int, 8, 24),
{
    u24((v as u32) * 0x1_0000)
}

fn u8_to_u32(v: u8) -> (r: u32)
    ensures
        r as int == rescale(v as int, 8, 32),
{
    (v as u32) * 0x100_0000
}

fn u8_to_i8(v: u8) -> (r: i8)
    ensures
        signed_level(r as int, 8) == rescale(v as int, 8, 8),
{
    flip_u8(v)
}

fn u8_to_i16(v: u8) -> (r: i16)
    ensures
        signed_level(r as int, 16) == rescale(v as int, 8, 16),
{
    flip_u16(u8_to_u16(v))
}

fn u8_to_i24(v: u8) -> (r: i24)
    ensures
        r.wf(),
        signed_level(r.0 as int, 24) == rescale(v as int, 8, 24),
{
    flip_u24(u8_to_u24(v))
}

fn u8_to_i32(v: u8) -> (r: i32)
    ensures
        signed_level(r as int, 32) == rescale(v as int, 8, 32),
{
    flip_u32(u8_to_u32(v))
}

fn u16_to_u8(v: u16) -> (r: u8)
    ensures
        r as int == rescale(v as int, 16, 8),
{
    (v / 0x100) as u8
}

fn u16_to_u24(v: u16) -> (r: u24)
    ensures
        r.wf(),
        r.0 as int == rescale(v as int, 16, 24),
{
    u24((v as u32) * 0x100)
}

fn u16_to_u32(v: u16) -> (r: u32)
    ensures
        r as int == rescale(v as int, 16, 32),
{
    (v as u32) * 0x1_0000
}

fn u16_to_i8(v: u16) -> (r: i8)
    ensures
        signed_level(r as int, 8) == rescale(v as int, 16, 8),
{
    flip_u8(u16_to_u8(v))
}

fn u16_to_i16(v: u16) -> (r: i16)
    ensures
        signed_level(r as int, 16) == rescale(v as int, 16, 16),
{
    flip_u16(v)
}

fn u16_to_i24(v: u16) -> (r: i24)
    ensures
        r.wf(),
        signed_level(r.0 as int, 24) == rescale(v as int, 16, 24),
{
    flip_u24(u16_to_u24(v))
}

fn u16_to_i32(v: u16) -> (r: i32)
    ensures
        signed_level(r as int, 32) == rescale(v as int, 16, 32),
{
    flip_u32(u16_to_u32(v))
}

fn u24_to_u8(v: u24) -> (r: u8)
    requires
        v.wf(),
    ensures
        r as int == rescale(v.0 as int, 24, 8),
{
    (v.0 / 0x1_0000) as u8
}

fn u24_to_u16(v: u24) -> (r: u16)
    requires
        v.wf(),
    ensures
        r as int == rescale(v.0 as int, 24, 16),
{
    (v.0 / 0x100) as u16
}

fn u24_to_u32(v: u24) -> (r: u32)
    requires
        v.wf(),
    ensures
        r as int == rescale(v.0 as int, 24, 32),
{
    (v.0 as u32) * 0x100
}

fn u24_to_i8(v: u24) -> (r: i8)
    requires
        v.wf(),
    ensures
        signed_level(r as int, 8) == rescale(v.0 as int, 24, 8),
{
    flip_u8(u24_to_u8(v))
}

fn u24_to_i16(v: u24) -> (r: i16)
    requires
        v.wf(),
    ensures
        signed_level(r as int, 16) == rescale(v.0 as int, 24, 16),
{
    flip_u16(u24_to_u16(v))
}

fn u24_to_i24(v: u24) -> (r: i24)
    requires
        v.wf(),
    ensures
        r.wf(),
        signed_level(r.0 as int, 24) == rescale(v.0 as int, 24, 24),
{
    flip_u24(v)
}

fn u24_to_i32(v: u24) -> (r: i32)
    requires
        v.wf(),
    ensures
        signed_level(r as int, 32) == rescale(v.0 as int, 24, 32),
{
    flip_u32(u24_to_u32(v))
}

fn u32_to_u8(v: u32) -> (r: u8)
    ensures
        r as int == rescale(v as int, 32, 8),
{
    (v / 0x100_0000) as u8
}

fn u32_to_u16(v: u32) -> (r: u16)
    ensures
        r as int == rescale(v as int, 32, 16),
{
    (v / 0x1_0000) as u16
}

fn u32_to_u24(v: u32) -> (r: u24)
    ensures
        r.wf(),
        r.0 as int == rescale(v as int, 32, 24),
{
    u24((v / 0x100) as u32)
}

fn u32_to_i8(v: u32) -> (r: i8)
    ensures
        signed_level(r as int, 8) == rescale(v as int, 32, 8),
{
    flip_u8(u32_to_u8(v))
}

fn u32_to_i16(v: u32) -> (r: i16)
    ensures
        signed_level(r as int, 16) == rescale(v as int, 32, 16),
{
    flip_u16(u32_to_u16(v))
}

fn u32_to_i24(v: u32) -> (r: i24)
    ensures
        r.wf(),
        signed_level(r.0 as int, 24) == rescale(v as int, 32, 24),
{
    flip_u24(u32_to_u24(v))
}

fn u32_to_i32(v: u32) -> (r: i32)
    ensures
        signed_level(r as int, 32) == rescale(v as int, 32, 32),
{
    flip_u32(v)
}

fn i8_to_u8(v: i8) -> (r: u8)
    ensures
        r as int == rescale(signed_level(v as int, 8), 8, 8),
{
    flip_i8(v)
}

fn i8_to_u16(v: i8) -> (r: u16)
    ensures
        r as int == rescale(signed_level(v as int, 8), 8, 16),
{
    u8_to_u16(flip_i8(v))
}

fn i8_to_u24(v: i8) -> (r: u24)
    ensures
        r.wf(),
        r.0 as int == rescale(signed_level(v as int, 8), 8, 24),
{
    u8_to_u24(flip_i8(v))
}

fn i8_to_u32(v: i8) -> (r: u32)
    ensures
        r as int == rescale(signed_level(v as int, 8), 8, 32),
{
    u8_to_u32(flip_i8(v))
}

fn i8_to_i16(v: i8) -> (r: i16)
    ensures
        signed_level(r as int, 16) == rescale(signed_level(v as int, 8), 8, 16),
{
    flip_u16(i8_to_u16(v))
}

fn i8_to_i24(v: i8) -> (r: i24)
    ensures
        r.wf(),
        signed_level(r.0 as int, 24) == rescale(signed_level(v as int, 8), 8, 24),
{
    flip_u24(i8_to_u24(v))
}

fn i8_to_i32(v: i8) -> (r: i32)
    ensures
        signed_level(r as int, 32) == rescale(signed_level(v as int, 8), 8, 32),
{
    flip_u32(i8_to_u32(v))
}

fn i16_to_u8(v: i16) -> (r: u8)
    ensures
        r as int == rescale(signed_level(v as int, 16), 16, 8),
{
    u16_to_u8(flip_i16(v))
}

fn i16_to_u16(v: i16) -> (r: u16)
    ensures
        r as int == rescale(signed_level(v as int, 16), 16, 16),
{
    flip_i16(v)
}

fn i16_to_u24(v: i16) -> (r: u24)
    ensures
        r.wf(),
        r.0 as int == rescale(signed_level(v as int, 16), 16, 24),
{
    u16_to_u24(flip_i16(v))
}

fn i16_to_u32(v: i16) -> (r: u32)
    ensures
        r as int == rescale(signed_level(v as int, 16), 16, 32),
{
    u16_to_u32(flip_i16(v))
}

fn i16_to_i8(v: i16) -> (r: i8)
    ensures
        signed_level(r as int, 8) == rescale(signed_level(v as int, 16), 16, 8),
{
    flip_u8(i16_to_u8(v))
}

fn i16_to_i24(v: i16) -> (r: i24)
    ensures
        r.wf(),
        signed_level(r.0 as int, 24) == rescale(signed_level(v as int, 16), 16, 24),
{
    flip_u24(i16_to_u24(v))
}

fn i16_to_i32(v: i16) -> (r: i32)
    ensures
        signed_level(r as int, 32) == rescale(signed_level(v as int, 16), 16, 32),
{
    flip_u32(i16_to_u32(v))
}

fn i24_to_u8(v: i24) -> (r: u8)
    requires
        v.wf(),
    ensures
        r as int == rescale(signed_level(v.0 as int, 24), 24, 8),
{
    u24_to_u8(flip_i24(v))
}

fn i24_to_u16(v: i24) -> (r: u16)
    requires
        v.wf(),
    ensures
        r as int == rescale(signed_level(v.0 as int, 24), 24, 16),
{
    u24_to_u16(flip_i24(v))
}

fn i24_to_u24(v: i24) -> (r: u24)
    requires
        v.wf(),
    ensures
        r.wf(),
        r.0 as int == rescale(signed_level(v.0 as int, 24), 24, 24),
{
    flip_i24(v)
}

fn i24_to_u32(v: i24) -> (r: u32)
    requires
        v.wf(),
    ensures
        r as int == rescale(signed_level(v.0 as int, 24), 24, 32),
{
    u24_to_u32(flip_i24(v))
}

fn i24_to_i8(v: i24) -> (r: i8)
    requires
        v.wf(),
    ensures
        signed_level(r as int, 8) == rescale(signed_level(v.0 as int, 24), 24, 8),
{
    flip_u8(i24_to_u8(v))
}

fn i24_to_i16(v: i24) -> (r: i16)
    requires
        v.wf(),
    ensures
        signed_level(r as int, 16) == rescale(signed_level(v.0 as int, 24), 24, 16),
{
    flip_u16(i24_to_u16(v))
}

fn i24_to_i32(v: i24) -> (r: i32)
    requires
        v.wf(),
    ensures
        signed_level(r as int, 32) == rescale(signed_level(v.0 as int, 24), 24, 32),
{
    flip_u32(i24_to_u32(v))
}

fn i32_to_u8(v: i32) -> (r: u8)
    ensures
        r as int == rescale(signed_level(v as int, 32), 32, 8),
{
    u32_to_u8(flip_i32(v))
}

fn i32_to_u16(v: i32) -> (r: u16)
    ensures
        r as int == rescale(signed_level(v as int, 32), 32, 16),
{
    u32_to_u16(flip_i32(v))
}

fn i32_to_u24(v: i32) -> (r: u24)
    ensures
        r.wf(),
        r.0 as int == rescale(signed_level(v as int, 32), 32, 24),
{
    u32_to_u24(flip_i32(v))
}

fn i32_to_u32(v: i32) -> (r: u32)
    ensures
        r as int == rescale(signed_level(v as int, 32), 32, 32),
{
    flip_i32(v)
}

fn i32_to_i8(v: i32) -> (r: i8)
    ensures
        signed_level(r as int, 8) == rescale(signed_level(v as int, 32), 32, 8),
{
    flip_u8(i32_to_u8(v))
}

fn i32_to_i16(v: i32) -> (r: i16)
    ensures
        signed_level(r as int, 16) == rescale(signed_level(v as int, 32), 32, 16),
{
    flip_u16(i32_to_u16(v))
}

fn i32_to_i24(v: i32) -> (r: i24)
    ensures
        r.wf(),
        signed_level(r.0 as int, 24) == rescale(signed_level(v as int, 32), 32, 24),
{
    flip_u24(i32_to_u24(v))
}


/// Conversion between the integer sample representations, and their raw
/// little- and big-endian encodings.
///
/// The full range of every representation is used, so `u8::from_i8(-128)` is 0:
/// converting between signed and unsigned of one width adds half the range,
/// and converting to a wider representation moves the value into the high bits.
/// Both are lossless; narrowing keeps the high bits.
pub trait Sample: Sized + Copy {
    /// Number of significant bits: 8, 16, 24 or 32.
    spec fn bits() -> int;

    /// Number of bytes of the raw encoding; a 24-bit sample takes three.
    spec fn size() -> int;

    /// The value lies in the representation's domain.
    spec fn wf(self) -> bool;

    /// The sample in offset binary: 0 is the most negative level.
    spec fn level(self) -> int;

    /// The bit pattern of the raw encoding (two's complement for signed samples).
    spec fn code(self) -> int;

    /// A valid sample has a level and a code of `bits()` bits.
    proof fn lemma_ranges(self)
        requires
            self.wf(),
        ensures
            Self::bits() == 8 * Self::size(),
            1 <= Self::size() <= 4,
            0 <= self.level() < weight(Self::bits()),
            0 <= self.code() < weight(Self::bits()),
    ;

    /// The level determines a valid sample.
    proof fn lemma_level_injective(self, other: Self)
        requires
            self.wf(),
            other.wf(),
            self.level() == other.level(),
        ensures
            self == other,
    ;

    /// The code determines a valid sample.
    proof fn lemma_code_injective(self, other: Self)
        requires
            self.wf(),
            other.wf(),
            self.code() == other.code(),
        ensures
            self == other,
    ;

    /// Converts from a `u8` sample.
    fn from_u8(v: u8) -> (r: Self)
        ensures
            r.wf(),
            r.level() == rescale(v as int, 8, Self::bits()),
    ;

    /// Converts from a `u16` sample.
    fn from_u16(v: u16) -> (r: Self)
        ensures
            r.wf(),
            r.level() == rescale(v as int, 16, Self::bits()),
    ;

    /// Converts from a `u24` sample.
    fn from_u24(v: u24) -> (r: Self)
        requires
            v.wf(),
        ensures
            r.wf(),
            r.level() == rescale(v.0 as int, 24, Self::bits()),
    ;

    /// Converts from a `u32` sample.
    fn from_u32(v: u32) -> (r: Self)
        ensures
            r.wf(),
            r.level() == rescale(v as int, 32, Self::bits()),
    ;

    /// Converts from a `i8` sample.
    fn from_i8(v: i8) -> (r: Self)
        ensures
            r.wf(),
            r.level() == rescale(signed_level(v as int, 8), 8, Self::bits()),
    ;

    /// Converts from a `i16` sample.
    fn from_i16(v: i16) -> (r: Self)
        ensures
            r.wf(),
            r.level() == rescale(signed_level(v as int, 16), 16, Self::bits()),
    ;

    /// Converts from a `i24` sample.
    fn from_i24(v: i24) -> (r: Self)
        requires
            v.wf(),
        ensures
            r.wf(),
            r.level() == rescale(signed_level(v.0 as int, 24), 24, Self::bits()),
    ;

    /// Converts from a `i32` sample.
    fn from_i32(v: i32) -> (r: Self)
        ensures
            r.wf(),
            r.level() == rescale(signed_level(v as int, 32), 32, Self::bits()),
    ;

    /// Converts to a `u8` sample; the inverse of `from_u8`.
    fn to_u8(v: Self) -> (r: u8)
        requires
            v.wf(),
        ensures
            r as int == rescale(v.level(), Self::bits(), 8),
    ;

    /// Converts to a `u16` sample; the inverse of `from_u16`.
    fn to_u16(v: Self) -> (r: u16)
        requires
            v.wf(),
        ensures
            r as int == rescale(v.level(), Self::bits(), 16),
    ;

    /// Converts to a `u24` sample; the inverse of `from_u24`.
    fn to_u24(v: Self) -> (r: u24)
        requires
            v.wf(),
        ensures
            r.wf(),
            r.0 as int == rescale(v.level(), Self::bits(), 24),
    ;

    /// Converts to a `u32` sample; the inverse of `from_u32`.
    fn to_u32(v: Self) -> (r: u32)
        requires
            v.wf(),
        ensures
            r as int == rescale(v.level(), Self::bits(), 32),
    ;

    /// Converts to a `i8` sample; the inverse of `from_i8`.
    fn to_i8(v: Self) -> (r: i8)
        requires
            v.wf(),
        ensures
            signed_level(r as int, 8) == rescale(v.level(), Self::bits(), 8),
    ;

    /// Converts to a `i16` sample; the inverse of `from_i16`.
    fn to_i16(v: Self) -> (r: i16)
        requires
            v.wf(),
        ensures
            signed_level(r as int, 16) == rescale(v.level(), Self::bits(), 16),
    ;

    /// Converts to a `i24` sample; the inverse of `from_i24`.
    fn to_i24(v: Self) -> (r: i24)
        requires
            v.wf(),
        ensures
            r.wf(),
            signed_level(r.0 as int, 24) == rescale(v.level(), Self::bits(), 24),
    ;

    /// Converts to a `i32` sample; the inverse of `from_i32`.
    fn to_i32(v: Self) -> (r: i32)
        requires
            v.wf(),
        ensures
            signed_level(r as int, 32) == rescale(v.level(), Self::bits(), 32),
    ;

    /// Reads a sample from its little-endian encoding at `bytes[at..]`.
    fn from_raw_le(bytes: &[u8], at: usize) -> (r: Self)
        requires
            at + Self::size() <= bytes@.len(),
        ensures
            r.wf(),
            le_bytes(r.code(), Self::size()) == bytes@.subrange(at as int, at + Self::size()),
            r.code() == le_value(bytes@.subrange(at as int, at + Self::size())),
    ;

    /// Reads a sample from its big-endian encoding at `bytes[at..]`.
    fn from_raw_be(bytes: &[u8], at: usize) -> (r: Self)
        requires
            at + Self::size() <= bytes@.len(),
        ensures
            r.wf(),
            be_bytes(r.code(), Self::size()) == bytes@.subrange(at as int, at + Self::size()),
            r.code() == be_value(bytes@.subrange(at as int, at + Self::size())),
    ;

    /// Writes the little-endian encoding of `v` to `bytes[at..]`.
    fn to_raw_le(v: Self, bytes: &mut Vec<u8>, at: usize)
        requires
            v.wf(),
            at + Self::size() <= old(bytes)@.len(),
        ensures
            final(bytes)@ == splice(old(bytes)@, at as int, le_bytes(v.code(), Self::size())),
    ;

    /// Writes the big-endian encoding of `v` to `bytes[at..]`.
    fn to_raw_be(v: Self, bytes: &mut Vec<u8>, at: usize)
        requires
            v.wf(),
            at + Self::size() <= old(bytes)@.len(),
        ensures
            final(bytes)@ == splice(old(bytes)@, at as int, be_bytes(v.code(), Self::size())),
    ;
}

/// Widening a sample and narrowing the result back to the first
/// representation gives the sample back, for every pair of widths: `b` is `a`
/// converted to the wider (or equally wide) `B`, and `c` is `b` converted back.
pub proof fn lemma_widen_narrow_lossless<A: Sample, B: Sample>(a: A, b: B, c: A)
    requires
        A::bits() <= B::bits(),
        a.wf(),
        b.wf(),
        c.wf(),
        b.level() == rescale(a.level(), A::bits(), B::bits()),
        c.level() == rescale(b.level(), B::bits(), A::bits()),
    ensures
        c == a,
{
    a.lemma_ranges();
    b.lemma_ranges();
    let d = B::bits() - A::bits();
    assert(weight(d) > 0);
    vstd::arithmetic::div_mod::lemma_div_by_multiple(a.level(), weight(d));
    a.lemma_level_injective(c);
}

/// Converting a sample to the representation of the other signedness and the
/// same width, then back, gives the sample back: the sign flip is a bijection.
pub proof fn lemma_sign_flip_lossless<A: Sample, B: Sample>(a: A, b: B, c: A)
    requires
        A::bits() == B::bits(),
        a.wf(),
        b.wf(),
        c.wf(),
        b.level() == rescale(a.level(), A::bits(), B::bits()),
        c.level() == rescale(b.level(), B::bits(), A::bits()),
    ensures
        c == a,
{
    lemma_widen_narrow_lossless(a, b, c);
}

impl Sample for u8 {
    open spec fn bits() -> int {
        8
    }

    open spec fn size() -> int {
        1
    }

    open spec fn wf(self) -> bool {
        true
    }

    open spec fn level(self) -> int {
        self as int
    }

    open spec fn code(self) -> int {
        self as int
    }

    proof fn lemma_ranges(self) {
    }

    proof fn lemma_level_injective(self, other: Self) {
    }

    proof fn lemma_code_injective(self, other: Self) {
    }

    fn from_u8(v: u8) -> (r: Self) {
        v
    }

    fn from_u16(v: u16) -> (r: Self) {
        u16_to_u8(v)
    }

    fn from_u24(v: u24) -> (r: Self) {
        u24_to_u8(v)
    }

    fn from_u32(v: u32) -> (r: Self) {
        u32_to_u8(v)
    }

    fn from_i8(v: i8) -> (r: Self) {
        i8_to_u8(v)
    }

    fn from_i16(v: i16) -> (r: Self) {
        i16_to_u8(v)
    }

    fn from_i24(v: i24) -> (r: Self) {
        i24_to_u8(v)
    }

    fn from_i32(v: i32) -> (r: Self) {
        i32_to_u8(v)
    }

    fn to_u8(v: Self) -> (r: u8) {
        v
    }

    fn to_u16(v: Self) -> (r: u16) {
        u8_to_u16(v)
    }

    fn to_u24(v: Self) -> (r: u24) {
        u8_to_u24(v)
    }

    fn to_u32(v: Self) -> (r: u32) {
        u8_to_u32(v)
    }

    fn to_i8(v: Self) -> (r: i8) {
        u8_to_i8(v)
    }

    fn to_i16(v: Self) -> (r: i16) {
        u8_to_i16(v)
    }

    fn to_i24(v: Self) -> (r: i24) {
        u8_to_i24(v)
    }

    fn to_i32(v: Self) -> (r: i32) {
        u8_to_i32(v)
    }

    fn from_raw_le(bytes: &[u8], at: usize) -> (r: Self) {
        read_1(bytes, at)
    }

    fn from_raw_be(bytes: &[u8], at: usize) -> (r: Self) {
        read_1(bytes, at)
    }

    fn to_raw_le(v: Self, bytes: &mut Vec<u8>, at: usize) {
        write_1(bytes, at, v);
    }

    fn to_raw_be(v: Self, bytes: &mut Vec<u8>, at: usize) {
        write_1(bytes, at, v);
    }
}

impl Sample for u16 {
    open spec fn bits() -> int {
        16
    }

    open spec fn size() -> int {
        2
    }

    open spec fn wf(self) -> bool {
        true
    }

    open spec fn level(self) -> int {
        self as int
    }

    open spec fn code(self) -> int {
        self as int
    }

    proof fn lemma_ranges(self) {
    }

    proof fn lemma_level_injective(self, other: Self) {
    }

    proof fn lemma_code_injective(self, other: Self) {
    }

    fn from_u8(v: u8) -> (r: Self) {
        u8_to_u16(v)
    }

    fn from_u16(v: u16) -> (r: Self) {
        v
    }

    fn from_u24(v: u24) -> (r: Self) {
        u24_to_u16(v)
    }

    fn from_u32(v: u32) -> (r: Self) {
        u32_to_u16(v)
    }

    fn from_i8(v: i8) -> (r: Self) {
        i8_to_u16(v)
    }

    fn from_i16(v: i16) -> (r: Self) {
        i16_to_u16(v)
    }

    fn from_i24(v: i24) -> (r: Self) {
        i24_to_u16(v)
    }

    fn from_i32(v: i32) -> (r: Self) {
        i32_to_u16(v)
    }

    fn to_u8(v: Self) -> (r: u8) {
        u16_to_u8(v)
    }

    fn to_u16(v: Self) -> (r: u16) {
        v
    }

    fn to_u24(v: Self) -> (r: u24) {
        u16_to_u24(v)
    }

    fn to_u32(v: Self) -> (r: u32) {
        u16_to_u32(v)
    }

    fn to_i8(v: Self) -> (r: i8) {
        u16_to_i8(v)
    }

    fn to_i16(v: Self) -> (r: i16) {
        u16_to_i16(v)
    }

    fn to_i24(v: Self) -> (r: i24) {
        u16_to_i24(v)
    }

    fn to_i32(v: Self) -> (r: i32) {
        u16_to_i32(v)
    }

    fn from_raw_le(bytes: &[u8], at: usize) -> (r: Self) {
        read_le2(bytes, at)
    }

    fn from_raw_be(bytes: &[u8], at: usize) -> (r: Self) {
        read_be2(bytes, at)
    }

    fn to_raw_le(v: Self, bytes: &mut Vec<u8>, at: usize) {
        write_le2(bytes, at, v);
    }

    fn to_raw_be(v: Self, bytes: &mut Vec<u8>, at: usize) {
        write_be2(bytes, at, v);
    }
}

impl Sample for u24 {
    open spec fn bits() -> int {
        24
    }

    open spec fn size() -> int {
        3
    }

    open spec fn wf(self) -> bool {
        self.0 < 0x100_0000
    }

    open spec fn level(self) -> int {
        self.0 as int
    }

    open spec fn code(self) -> int {
        self.0 as int
    }

    proof fn lemma_ranges(self) {
    }

    proof fn lemma_level_injective(self, other: Self) {
    }

    proof fn lemma_code_injective(self, other: Self) {
    }

    fn from_u8(v: u8) -> (r: Self) {
        u8_to_u24(v)
    }

    fn from_u16(v: u16) -> (r: Self) {
        u16_to_u24(v)
    }

    fn from_u24(v: u24) -> (r: Self) {
        v
    }

    fn from_u32(v: u32) -> (r: Self) {
        u32_to_u24(v)
    }

    fn from_i8(v: i8) -> (r: Self) {
        i8_to_u24(v)
    }

    fn from_i16(v: i16) -> (r: Self) {
        i16_to_u24(v)
    }

    fn from_i24(v: i24) -> (r: Self) {
        i24_to_u24(v)
    }

    fn from_i32(v: i32) -> (r: Self) {
        i32_to_u24(v)
    }

    fn to_u8(v: Self) -> (r: u8) {
        u24_to_u8(v)
    }

    fn to_u16(v: Self) -> (r: u16) {
        u24_to_u16(v)
    }

    fn to_u24(v: Self) -> (r: u24) {
        v
    }

    fn to_u32(v: Self) -> (r: u32) {
        u24_to_u32(v)
    }

    fn to_i8(v: Self) -> (r: i8) {
        u24_to_i8(v)
    }

    fn to_i16(v: Self) -> (r: i16) {
        u24_to_i16(v)
    }

    fn to_i24(v: Self) -> (r: i24) {
        u24_to_i24(v)
    }

    fn to_i32(v: Self) -> (r: i32) {
        u24_to_i32(v)
    }

    fn from_raw_le(bytes: &[u8], at: usize) -> (r: Self) {
        u24(read_le3(bytes, at))
    }

    fn from_raw_be(bytes: &[u8], at: usize) -> (r: Self) {
        u24(read_be3(bytes, at))
    }

    fn to_raw_le(v: Self, bytes: &mut Vec<u8>, at: usize) {
        write_le3(bytes, at, v.0);
    }

    fn to_raw_be(v: Self, bytes: &mut Vec<u8>, at: usize) {
        write_be3(bytes, at, v.0);
    }
}

impl Sample for u32 {
    open spec fn bits() -> int {
        32
    }

    open spec fn size() -> int {
        4
    }

    open spec fn wf(self) -> bool {
        true
    }

    open spec fn level(self) -> int {
        self as int
    }

    open spec fn code(self) -> int {
        self as int
    }

    proof fn lemma_ranges(self) {
    }

    proof fn lemma_level_injective(self, other: Self) {
    }

    proof fn lemma_code_injective(self, other: Self) {
    }

    fn from_u8(v: u8) -> (r: Self) {
        u8_to_u32(v)
    }

    fn from_u16(v: u16) -> (r: Self) {
        u16_to_u32(v)
    }

    fn from_u24(v: u24) -> (r: Self) {
        u24_to_u32(v)
    }

    fn from_u32(v: u32) -> (r: Self) {
        v
    }

    fn from_i8(v: i8) -> (r: Self) {
        i8_to_u32(v)
    }

    fn from_i16(v: i16) -> (r: Self) {
        i16_to_u32(v)
    }

    fn from_i24(v: i24) -> (r: Self) {
        i24_to_u32(v)
    }

    fn from_i32(v: i32) -> (r: Self) {
        i32_to_u32(v)
    }

    fn to_u8(v: Self) -> (r: u8) {
        u32_to_u8(v)
    }

    fn to_u16(v: Self) -> (r: u16) {
        u32_to_u16(v)
    }

    fn to_u24(v: Self) -> (r: u24) {
        u32_to_u24(v)
    }

    fn to_u32(v: Self) -> (r: u32) {
        v
    }

    fn to_i8(v: Self) -> (r: i8) {
        u32_to_i8(v)
    }

    fn to_i16(v: Self) -> (r: i16) {
        u32_to_i16(v)
    }

    fn to_i24(v: Self) -> (r: i24) {
        u32_to_i24(v)
    }

    fn to_i32(v: Self) -> (r: i32) {
        u32_to_i32(v)
    }

    fn from_raw_le(bytes: &[u8], at: usize) -> (r: Self) {
        read_le4(bytes, at)
    }

    fn from_raw_be(bytes: &[u8], at: usize) -> (r: Self) {
        read_be4(bytes, at)
    }

    fn to_raw_le(v: Self, bytes: &mut Vec<u8>, at: usize) {
        write_le4(bytes, at, v);
    }

    fn to_raw_be(v: Self, bytes: &mut Vec<u8>, at: usize) {
        write_be4(bytes, at, v);
    }
}

impl Sample for i8 {
    open spec fn bits() -> int {
        8
    }

    open spec fn size() -> int {
        1
    }

    open spec fn wf(self) -> bool {
        true
    }

    open spec fn level(self) -> int {
        signed_level(self as int, 8)
    }

    open spec fn code(self) -> int {
        twos_code(self as int, 8)
    }

    proof fn lemma_ranges(self) {
    }

    proof fn lemma_level_injective(self, other: Self) {
    }

    proof fn lemma_code_injective(self, other: Self) {
    }

    fn from_u8(v: u8) -> (r: Self) {
        u8_to_i8(v)
    }

    fn from_u16(v: u16) -> (r: Self) {
        u16_to_i8(v)
    }

    fn from_u24(v: u24) -> (r: Self) {
        u24_to_i8(v)
    }

    fn from_u32(v: u32) -> (r: Self) {
        u32_to_i8(v)
    }

    fn from_i8(v: i8) -> (r: Self) {
        v
    }

    fn from_i16(v: i16) -> (r: Self) {
        i16_to_i8(v)
    }

    fn from_i24(v: i24) -> (r: Self) {
        i24_to_i8(v)
    }

    fn from_i32(v: i32) -> (r: Self) {
        i32_to_i8(v)
    }

    fn to_u8(v: Self) -> (r: u8) {
        i8_to_u8(v)
    }

    fn to_u16(v: Self) -> (r: u16) {
        i8_to_u16(v)
    }

    fn to_u24(v: Self) -> (r: u24) {
        i8_to_u24(v)
    }

    fn to_u32(v: Self) -> (r: u32) {
        i8_to_u32(v)
    }

    fn to_i8(v: Self) -> (r: i8) {
        v
    }

    fn to_i16(v: Self) -> (r: i16) {
        i8_to_i16(v)
    }

    fn to_i24(v: Self) -> (r: i24) {
        i8_to_i24(v)
    }

    fn to_i32(v: Self) -> (r: i32) {
        i8_to_i32(v)
    }

    fn from_raw_le(bytes: &[u8], at: usize) -> (r: Self) {
        decode_i8(read_1(bytes, at))
    }

    fn from_raw_be(bytes: &[u8], at: usize) -> (r: Self) {
        decode_i8(read_1(bytes, at))
    }

    fn to_raw_le(v: Self, bytes: &mut Vec<u8>, at: usize) {
        write_1(bytes, at, encode_i8(v));
    }

    fn to_raw_be(v: Self, bytes: &mut Vec<u8>, at: usize) {
        write_1(bytes, at, encode_i8(v));
    }
}

impl Sample for i16 {
    open spec fn bits() -> int {
        16
    }

    open spec fn size() -> int {
        2
    }

    open spec fn wf(self) -> bool {
        true
    }

    open spec fn level(self) -> int {
        signed_level(self as int, 16)
    }

    open spec fn code(self) -> int {
        twos_code(self as int, 16)
    }

    proof fn lemma_ranges(self) {
    }

    proof fn lemma_level_injective(self, other: Self) {
    }

    proof fn lemma_code_injective(self, other: Self) {
    }

    fn from_u8(v: u8) -> (r: Self) {
        u8_to_i16(v)
    }

    fn from_u16(v: u16) -> (r: Self) {
        u16_to_i16(v)
    }

    fn from_u24(v: u24) -> (r: Self) {
        u24_to_i16(v)
    }

    fn from_u32(v: u32) -> (r: Self) {
        u32_to_i16(v)
    }

    fn from_i8(v: i8) -> (r: Self) {
        i8_to_i16(v)
    }

    fn from_i16(v: i16) -> (r: Self) {
        v
    }

    fn from_i24(v: i24) -> (r: Self) {
        i24_to_i16(v)
    }

    fn from_i32(v: i32) -> (r: Self) {
        i32_to_i16(v)
    }

    fn to_u8(v: Self) -> (r: u8) {
        i16_to_u8(v)
    }

    fn to_u16(v: Self) -> (r: u16) {
        i16_to_u16(v)
    }

    fn to_u24(v: Self) -> (r: u24) {
        i16_to_u24(v)
    }

    fn to_u32(v: Self) -> (r: u32) {
        i16_to_u32(v)
    }

    fn to_i8(v: Self) -> (r: i8) {
        i16_to_i8(v)
    }

    fn to_i16(v: Self) -> (r: i16) {
        v
    }

    fn to_i24(v: Self) -> (r: i24) {
        i16_to_i24(v)
    }

    fn to_i32(v: Self) -> (r: i32) {
        i16_to_i32(v)
    }

    fn from_raw_le(bytes: &[u8], at: usize) -> (r: Self) {
        decode_i16(read_le2(bytes, at))
    }

    fn from_raw_be(bytes: &[u8], at: usize) -> (r: Self) {
        decode_i16(read_be2(bytes, at))
    }

    fn to_raw_le(v: Self, bytes: &mut Vec<u8>, at: usize) {
        write_le2(bytes, at, encode_i16(v));
    }

    fn to_raw_be(v: Self, bytes: &mut Vec<u8>, at: usize) {
        write_be2(bytes, at, encode_i16(v));
    }
}

impl Sample for i24 {
    open spec fn bits() -> int {
        24
    }

    open spec fn size() -> int {
        3
    }

    open spec fn wf(self) -> bool {
        -0x80_0000 <= self.0 < 0x80_0000
    }

    open spec fn level(self) -> int {
        signed_level(self.0 as int, 24)
    }

    open spec fn code(self) -> int {
        twos_code(self.0 as int, 24)
    }

    proof fn lemma_ranges(self) {
    }

    proof fn lemma_level_injective(self, other: Self) {
    }

    proof fn lemma_code_injective(self, other: Self) {
    }

    fn from_u8(v: u8) -> (r: Self) {
        u8_to_i24(v)
    }

    fn from_u16(v: u16) -> (r: Self) {
        u16_to_i24(v)
    }

    fn from_u24(v: u24) -> (r: Self) {
        u24_to_i24(v)
    }

    fn from_u32(v: u32) -> (r: Self) {
        u32_to_i24(v)
    }

    fn from_i8(v: i8) -> (r: Self) {
        i8_to_i24(v)
    }

    fn from_i16(v: i16) -> (r: Self) {
        i16_to_i24(v)
    }

    fn from_i24(v: i24) -> (r: Self) {
        v
    }

    fn from_i32(v: i32) -> (r: Self) {
        i32_to_i24(v)
    }

    fn to_u8(v: Self) -> (r: u8) {
        i24_to_u8(v)
    }

    fn to_u16(v: Self) -> (r: u16) {
        i24_to_u16(v)
    }

    fn to_u24(v: Self) -> (r: u24) {
        i24_to_u24(v)
    }

    fn to_u32(v: Self) -> (r: u32) {
        i24_to_u32(v)
    }

    fn to_i8(v: Self) -> (r: i8) {
        i24_to_i8(v)
    }

    fn to_i16(v: Self) -> (r: i16) {
        i24_to_i16(v)
    }

    fn to_i24(v: Self) -> (r: i24) {
        v
    }

    fn to_i32(v: Self) -> (r: i32) {
        i24_to_i32(v)
    }

    fn from_raw_le(bytes: &[u8], at: usize) -> (r: Self) {
        decode_i24(read_le3(bytes, at))
    }

    fn from_raw_be(bytes: &[u8], at: usize) -> (r: Self) {
        decode_i24(read_be3(bytes, at))
    }

    fn to_raw_le(v: Self, bytes: &mut Vec<u8>, at: usize) {
        write_le3(bytes, at, encode_i24(v));
    }

    fn to_raw_be(v: Self, bytes: &mut Vec<u8>, at: usize) {
        write_be3(bytes, at, encode_i24(v));
    }
}

impl Sample for i32 {
    open spec fn bits() -> int {
        32
    }

    open spec fn size() -> int {
        4
    }

    open spec fn wf(self) -> bool {
        true
    }

    open spec fn level(self) -> int {
        signed_level(self as int, 32)
    }

    open spec fn code(self) -> int {
        twos_code(self as int, 32)
    }

    proof fn lemma_ranges(self) {
    }

    proof fn lemma_level_injective(self, other: Self) {
    }

    proof fn lemma_code_injective(self, other: Self) {
    }

    fn from_u8(v: u8) -> (r: Self) {
        u8_to_i32(v)
    }

    fn from_u16(v: u16) -> (r: Self) {
        u16_to_i32(v)
    }

    fn from_u24(v: u24) -> (r: Self) {
        u24_to_i32(v)
    }

    fn from_u32(v: u32) -> (r: Self) {
        u32_to_i32(v)
    }

    fn from_i8(v: i8) -> (r: Self) {
        i8_to_i32(v)
    }

    fn from_i16(v: i16) -> (r: Self) {
        i16_to_i32(v)
    }

    fn from_i24(v: i24) -> (r: Self) {
        i24_to_i32(v)
    }

    fn from_i32(v: i32) -> (r: Self) {
        v
    }

    fn to_u8(v: Self) -> (r: u8) {
        i32_to_u8(v)
    }

    fn to_u16(v: Self) -> (r: u16) {
        i32_to_u16(v)
    }

    fn to_u24(v: Self) -> (r: u24) {
        i32_to_u24(v)
    }

    fn to_u32(v: Self) -> (r: u32) {
        i32_to_u32(v)
    }

    fn to_i8(v: Self) -> (r: i8) {
        i32_to_i8(v)
    }

    fn to_i16(v: Self) -> (r: i16) {
        i32_to_i16(v)
    }

    fn to_i24(v: Self) -> (r: i24) {
        i32_to_i24(v)
    }

    fn to_i32(v: Self) -> (r: i32) {
        v
    }

    fn from_raw_le(bytes: &[u8], at: usize) -> (r: Self) {
        decode_i32(read_le4(bytes, at))
    }

    fn from_raw_be(bytes: &[u8], at: usize) -> (r: Self) {
        decode_i32(read_be4(bytes, at))
    }

    fn to_raw_le(v: Self, bytes: &mut Vec<u8>, at: usize) {
        write_le4(bytes, at, encode_i32(v));
    }

    fn to_raw_be(v: Self, bytes: &mut Vec<u8>, at: usize) {
        write_be4(bytes, at, encode_i32(v));
    }
}

} // verus!
