//! Little-endian byte layouts of the integers and keys that records hold.
use vstd::prelude::*;

verus! {

/// Little-endian bytes of a `u16`.
pub open spec fn le_u16_bytes(v: u16) -> Seq<u8> {
    seq![v as u8, (v >> 8u16) as u8]
}

/// The `u16` whose little-endian bytes start `b`.
pub open spec fn le_u16_value(b: Seq<u8>) -> u16 {
    (b[0] as u16) | ((b[1] as u16) << 8u16)
}

/// Little-endian bytes of a `u32`.
pub open spec fn le_u32_bytes(v: u32) -> Seq<u8> {
    seq![v as u8, (v >> 8u32) as u8, (v >> 16u32) as u8, (v >> 24u32) as u8]
}

/// The `u32` whose little-endian bytes start `b`.
pub open spec fn le_u32_value(b: Seq<u8>) -> u32 {
    (b[0] as u32) | ((b[1] as u32) << 8u32) | ((b[2] as u32) << 16u32) | ((b[3] as u32)
        << 24u32)
}

/// Little-endian bytes of a `u64`.
pub open spec fn le_u64_bytes(v: u64) -> Seq<u8> {
    seq![
        v as u8,
        (v >> 8u64) as u8,
        (v >> 16u64) as u8,
        (v >> 24u64) as u8,
        (v >> 32u64) as u8,
        (v >> 40u64) as u8,
        (v >> 48u64) as u8,
        (v >> 56u64) as u8,
    ]
}

/// The `u64` whose little-endian bytes start `b`.
pub open spec fn le_u64_value(b: Seq<u8>) -> u64 {
    (b[0] as u64) | ((b[1] as u64) << 8u64) | ((b[2] as u64) << 16u64) | ((b[3] as u64)
        << 24u64) | ((b[4] as u64) << 32u64) | ((b[5] as u64) << 40u64) | ((b[6] as u64)
        << 48u64) | ((b[7] as u64) << 56u64)
}

/// Little-endian bytes of a `u128`: its low word, then its high word.
pub open spec fn le_u128_bytes(v: u128) -> Seq<u8> {
    le_u64_bytes(v as u64) + le_u64_bytes((v >> 64u128) as u64)
}

/// The `u128` whose little-endian bytes start `b`.
pub open spec fn le_u128_value(b: Seq<u8>) -> u128 {
    (le_u64_value(b) as u128) | ((le_u64_value(b.subrange(8, 16)) as u128) << 64u128)
}

pub proof fn lemma_u16_round_trip(v: u16)
    ensures
        le_u16_value(le_u16_bytes(v)) == v,
{
    assert(((v as u8) as u16) | ((((v >> 8u16) as u8) as u16) << 8u16) == v) by (bit_vector);
}

pub proof fn lemma_u32_round_trip(v: u32)
    ensures
        le_u32_value(le_u32_bytes(v)) == v,
{
    assert(((v as u8) as u32) | ((((v >> 8u32) as u8) as u32) << 8u32) | ((((v >> 16u32) as u8)
        as u32) << 16u32) | ((((v >> 24u32) as u8) as u32) << 24u32) == v) by (bit_vector);
}

pub proof fn lemma_u64_round_trip(v: u64)
    ensures
        le_u64_value(le_u64_bytes(v)) == v,
{
    assert(((v as u8) as u64) | ((((v >> 8u64) as u8) as u64) << 8u64) | ((((v >> 16u64) as u8)
        as u64) << 16u64) | ((((v >> 24u64) as u8) as u64) << 24u64) | ((((v >> 32u64) as u8)
        as u64) << 32u64) | ((((v >> 40u64) as u8) as u64) << 40u64) | ((((v >> 48u64) as u8)
        as u64) << 48u64) | ((((v >> 56u64) as u8) as u64) << 56u64) == v) by (bit_vector);
}

pub proof fn lemma_u128_round_trip(v: u128)
    ensures
        le_u128_value(le_u128_bytes(v)) == v,
{
    let lo = v as u64;
    let hi = (v >> 64u128) as u64;
    lemma_u64_round_trip(lo);
    lemma_u64_round_trip(hi);
    let b = le_u128_bytes(v);
    assert(b.subrange(0, 8) =~= le_u64_bytes(lo));
    assert(b.subrange(8, 16) =~= le_u64_bytes(hi));
    assert(le_u64_value(b) == le_u64_value(b.subrange(0, 8)));
    assert(((v as u64) as u128) | ((((v >> 64u128) as u64) as u128) << 64u128) == v)
        by (bit_vector);
}

/// Appends the little-endian bytes of `v`.
pub fn push_u16(out: &mut Vec<u8>, v: u16)
    ensures
        final(out)@ == old(out)@ + le_u16_bytes(v),
{
    out.push(v as u8);
    out.push((v >> 8u16) as u8);
    assert(final(out)@ =~= old(out)@ + le_u16_bytes(v));
}

/// Appends the little-endian bytes of `v`.
pub fn push_u32(out: &mut Vec<u8>, v: u32)
    ensures
        final(out)@ == old(out)@ + le_u32_bytes(v),
{
    out.push(v as u8);
    out.push((v >> 8u32) as u8);
    out.push((v >> 16u32) as u8);
    out.push((v >> 24u32) as u8);
    assert(final(out)@ =~= old(out)@ + le_u32_bytes(v));
}

/// Appends the little-endian bytes of `v`.
pub fn push_u64(out: &mut Vec<u8>, v: u64)
    ensures
        final(out)@ == old(out)@ + le_u64_bytes(v),
{
    out.push(v as u8);
    out.push((v >> 8u64) as u8);
    out.push((v >> 16u64) as u8);
    out.push((v >> 24u64) as u8);
    out.push((v >> 32u64) as u8);
    out.push((v >> 40u64) as u8);
    out.push((v >> 48u64) as u8);
    out.push((v >> 56u64) as u8);
    assert(final(out)@ =~= old(out)@ + le_u64_bytes(v));
}

/// Appends the little-endian bytes of `v`.
pub fn push_u128(out: &mut Vec<u8>, v: u128)
    ensures
        final(out)@ == old(out)@ + le_u128_bytes(v),
{
    push_u64(out, v as u64);
    push_u64(out, (v >> 64u128) as u64);
    assert(final(out)@ =~= old(out)@ + le_u128_bytes(v));
}

/// Reads the `u16` stored little-endian at `off`.
pub fn read_u16(b: &[u8], off: usize) -> (r: u16)
    requires
        off + 2 <= b@.len(),
    ensures
        r == le_u16_value(b@.subrange(off as int, off + 2)),
{
    (b[off] as u16) | ((b[off + 1] as u16) << 8u16)
}

/// Reads the `u32` stored little-endian at `off`.
pub fn read_u32(b: &[u8], off: usize) -> (r: u32)
    requires
        off + 4 <= b@.len(),
    ensures
        r == le_u32_value(b@.subrange(off as int, off + 4)),
{
    (b[off] as u32) | ((b[off + 1] as u32) << 8u32) | ((b[off + 2] as u32) << 16u32) | ((b[off
        + 3] as u32) << 24u32)
}

/// Reads the `u64` stored little-endian at `off`.
pub fn read_u64(b: &[u8], off: usize) -> (r: u64)
    requires
        off + 8 <= b@.len(),
    ensures
        r == le_u64_value(b@.subrange(off as int, off + 8)),
{
    (b[off] as u64) | ((b[off + 1] as u64) << 8u64) | ((b[off + 2] as u64) << 16u64) | ((b[off
        + 3] as u64) << 24u64) | ((b[off + 4] as u64) << 32u64) | ((b[off + 5] as u64) << 40u64)
        | ((b[off + 6] as u64) << 48u64) | ((b[off + 7] as u64) << 56u64)
}

/// Reads the `u128` stored little-endian at `off`.
pub fn read_u128(b: &[u8], off: usize) -> (r: u128)
    requires
        off + 16 <= b@.len(),
    ensures
        r == le_u128_value(b@.subrange(off as int, off + 16)),
{
    let len: usize = b.len();
    assert(off + 8 < len);
    let lo = read_u64(b, off);
    let hi = read_u64(b, off + 8);
    let s = Ghost(b@.subrange(off as int, off + 16));
    assert(s@.subrange(8, 16) =~= b@.subrange(off + 8, off + 16));
    assert(s@.subrange(0, 8) =~= b@.subrange(off as int, off + 8));
    assert(le_u64_value(s@) == le_u64_value(s@.subrange(0, 8)));
    (lo as u128) | ((hi as u128) << 64u128)
}

/// A 32-byte party identifier, held as four little-endian words.
#[derive(Clone, Copy, Debug, PartialEq, Eq, Structural)]
pub struct Key {
    pub w0: u64,
    pub w1: u64,
    pub w2: u64,
    pub w3: u64,
}

/// The 32 bytes of a key.
pub open spec fn key_bytes(k: Key) -> Seq<u8> {
    le_u64_bytes(k.w0) + le_u64_bytes(k.w1) + le_u64_bytes(k.w2) + le_u64_bytes(k.w3)
}

/// The key whose 32 bytes start `b`.
pub open spec fn key_value(b: Seq<u8>) -> Key {
    Key {
        w0: le_u64_value(b.subrange(0, 8)),
        w1: le_u64_value(b.subrange(8, 16)),
        w2: le_u64_value(b.subrange(16, 24)),
        w3: le_u64_value(b.subrange(24, 32)),
    }
}

pub proof fn lemma_key_round_trip(k: Key)
    ensures
        key_value(key_bytes(k)) == k,
{
    let b = key_bytes(k);
    assert(b.subrange(0, 8) =~= le_u64_bytes(k.w0));
    assert(b.subrange(8, 16) =~= le_u64_bytes(k.w1));
    assert(b.subrange(16, 24) =~= le_u64_bytes(k.w2));
    assert(b.subrange(24, 32) =~= le_u64_bytes(k.w3));
    lemma_u64_round_trip(k.w0);
    lemma_u64_round_trip(k.w1);
    lemma_u64_round_trip(k.w2);
    lemma_u64_round_trip(k.w3);
}

/// Appends the 32 bytes of `k`.
pub fn push_key(out: &mut Vec<u8>, k: Key)
    ensures
        final(out)@ == old(out)@ + key_bytes(k),
{
    push_u64(out, k.w0);
    push_u64(out, k.w1);
    push_u64(out, k.w2);
    push_u64(out, k.w3);
    assert(final(out)@ =~= old(out)@ + key_bytes(k));
}

/// Reads the key stored at `off`.
pub fn read_key(b: &[u8], off: usize) -> (r: Key)
    requires
        off + 32 <= b@.len(),
    ensures
        r == key_value(b@.subrange(off as int, off + 32)),
{
    let len: usize = b.len();
    assert(off + 24 < len);
    let s = Ghost(b@.subrange(off as int, off + 32));
    assert(s@.subrange(0, 8) =~= b@.subrange(off as int, off + 8));
    assert(s@.subrange(8, 16) =~= b@.subrange(off + 8, off + 16));
    assert(s@.subrange(16, 24) =~= b@.subrange(off + 16, off + 24));
    assert(s@.subrange(24, 32) =~= b@.subrange(off + 24, off + 32));
    Key {
        w0: read_u64(b, off),
        w1: read_u64(b, off + 8),
        w2: read_u64(b, off + 16),
        w3: read_u64(b, off + 24),
    }
}

impl Key {
    /// The key of 32 bytes; `None` for a slice of another length.
    pub fn from_bytes(b: &[u8]) -> (r: Option<Key>)
        ensures
            b@.len() == 32 ==> r == Some(key_value(b@)),
            b@.len() != 32 ==> r is None,
    {
        if b.len() != 32 {
            return None;
        }
        let k = read_key(b, 0);
        assert(b@.subrange(0, 32) =~= b@);
        Some(k)
    }

    /// The 32 bytes of the key.
    pub fn to_bytes(&self) -> (r: Vec<u8>)
        ensures
            r@ == key_bytes(*self),
    {
        let mut out: Vec<u8> = Vec::new();
        push_key(&mut out, *self);
        assert(out@ =~= key_bytes(*self));
        out
    }
}

} // verus!
