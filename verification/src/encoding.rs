use vstd::prelude::*;

verus! {

// Little-endian byte images, as the account storage format writes
// multi-byte integers.
pub open spec fn spec_le2(x: u16) -> Seq<u8> {
    seq![(x % 0x100) as u8, (x / 0x100) as u8]
}

pub open spec fn spec_le4(x: u32) -> Seq<u8> {
    seq![
        (x % 0x100) as u8,
        (x / 0x100 % 0x100) as u8,
        (x / 0x10000 % 0x100) as u8,
        (x / 0x1000000) as u8,
    ]
}

pub open spec fn spec_le8(x: u64) -> Seq<u8> {
    spec_le4((x % 0x100000000) as u32) + spec_le4((x / 0x100000000) as u32)
}

// Big-endian byte images, as the signed off-chain quote payload writes
// multi-byte integers.
pub open spec fn spec_be4(x: u32) -> Seq<u8> {
    seq![
        (x / 0x1000000) as u8,
        (x / 0x10000 % 0x100) as u8,
        (x / 0x100 % 0x100) as u8,
        (x % 0x100) as u8,
    ]
}

pub open spec fn spec_be8(x: u64) -> Seq<u8> {
    spec_be4((x / 0x100000000) as u32) + spec_be4((x % 0x100000000) as u32)
}

// Values read back from byte images.
pub open spec fn spec_le2_val(s: Seq<u8>) -> u16 {
    (s[0] + s[1] * 0x100) as u16
}

pub open spec fn spec_le4_val(s: Seq<u8>) -> u32 {
    (s[0] + s[1] * 0x100 + s[2] * 0x10000 + s[3] * 0x1000000) as u32
}

pub open spec fn spec_le8_val(s: Seq<u8>) -> u64 {
    (spec_le4_val(s.subrange(0, 4)) + spec_le4_val(s.subrange(4, 8)) * 0x100000000) as u64
}

pub proof fn lemma_le2_roundtrip(x: u16)
    ensures
        spec_le2_val(spec_le2(x)) == x,
{
    assert(x % 0x100 + (x / 0x100) * 0x100 == x) by (bit_vector);
    assert(x / 0x100 < 0x100) by (bit_vector);
}

pub proof fn lemma_le4_roundtrip(x: u32)
    ensures
        spec_le4_val(spec_le4(x)) == x,
{
    assert(x % 0x100 + (x / 0x100 % 0x100) * 0x100 + (x / 0x10000 % 0x100) * 0x10000
        + (x / 0x1000000) * 0x1000000 == x) by (bit_vector);
    assert(x / 0x1000000 < 0x100) by (bit_vector);
}

pub proof fn lemma_le8_roundtrip(x: u64)
    ensures
        spec_le8_val(spec_le8(x)) == x,
{
    let lo = (x % 0x100000000) as u32;
    let hi = (x / 0x100000000) as u32;
    lemma_le4_roundtrip(lo);
    lemma_le4_roundtrip(hi);
    assert(spec_le8(x).subrange(0, 4) =~= spec_le4(lo));
    assert(spec_le8(x).subrange(4, 8) =~= spec_le4(hi));
    assert(x % 0x100000000 + (x / 0x100000000) * 0x100000000 == x) by (bit_vector);
    assert(x / 0x100000000 < 0x100000000) by (bit_vector);
}

pub open spec fn spec_be4_val(s: Seq<u8>) -> u32 {
    (s[3] + s[2] * 0x100 + s[1] * 0x10000 + s[0] * 0x1000000) as u32
}

pub open spec fn spec_be8_val(s: Seq<u8>) -> u64 {
    (spec_be4_val(s.subrange(4, 8)) + spec_be4_val(s.subrange(0, 4)) * 0x100000000) as u64
}

pub proof fn lemma_be4_roundtrip(x: u32)
    ensures
        spec_be4_val(spec_be4(x)) == x,
{
    assert(x % 0x100 + (x / 0x100 % 0x100) * 0x100 + (x / 0x10000 % 0x100) * 0x10000
        + (x / 0x1000000) * 0x1000000 == x) by (bit_vector);
    assert(x / 0x1000000 < 0x100) by (bit_vector);
}

pub proof fn lemma_be8_roundtrip(x: u64)
    ensures
        spec_be8_val(spec_be8(x)) == x,
{
    let lo = (x % 0x100000000) as u32;
    let hi = (x / 0x100000000) as u32;
    lemma_be4_roundtrip(lo);
    lemma_be4_roundtrip(hi);
    assert(spec_be8(x).subrange(0, 4) =~= spec_be4(hi));
    assert(spec_be8(x).subrange(4, 8) =~= spec_be4(lo));
    assert(x % 0x100000000 + (x / 0x100000000) * 0x100000000 == x) by (bit_vector);
    assert(x / 0x100000000 < 0x100000000) by (bit_vector);
}

/// A four-byte big-endian image determines its value.
pub proof fn lemma_be4_injective(x: u32, y: u32)
    ensures
        spec_be4(x) == spec_be4(y) ==> x == y,
{
    if spec_be4(x) == spec_be4(y) {
        lemma_be4_roundtrip(x);
        lemma_be4_roundtrip(y);
    }
}

/// An eight-byte big-endian image determines its value.
pub proof fn lemma_be8_injective(x: u64, y: u64)
    ensures
        spec_be8(x) == spec_be8(y) ==> x == y,
{
    if spec_be8(x) == spec_be8(y) {
        lemma_be8_roundtrip(x);
        lemma_be8_roundtrip(y);
    }
}

// Executable writers, appending to a byte vector.
pub fn push_le2(out: &mut Vec<u8>, x: u16)
    ensures
        final(out)@ == old(out)@ + spec_le2(x),
{
    out.push((x % 0x100) as u8);
    out.push((x / 0x100) as u8);
    proof {
        assert(out@ =~= old(out)@ + spec_le2(x));
    }
}

pub fn push_le4(out: &mut Vec<u8>, x: u32)
    ensures
        final(out)@ == old(out)@ + spec_le4(x),
{
    out.push((x % 0x100) as u8);
    out.push((x / 0x100 % 0x100) as u8);
    out.push((x / 0x10000 % 0x100) as u8);
    out.push((x / 0x1000000) as u8);
    proof {
        assert(out@ =~= old(out)@ + spec_le4(x));
    }
}

pub fn push_le8(out: &mut Vec<u8>, x: u64)
    ensures
        final(out)@ == old(out)@ + spec_le8(x),
{
    push_le4(out, (x % 0x100000000) as u32);
    push_le4(out, (x / 0x100000000) as u32);
    proof {
        assert(out@ =~= old(out)@ + spec_le8(x));
    }
}

pub fn push_be4(out: &mut Vec<u8>, x: u32)
    ensures
        final(out)@ == old(out)@ + spec_be4(x),
{
    out.push((x / 0x1000000) as u8);
    out.push((x / 0x10000 % 0x100) as u8);
    out.push((x / 0x100 % 0x100) as u8);
    out.push((x % 0x100) as u8);
    proof {
        assert(out@ =~= old(out)@ + spec_be4(x));
    }
}

pub fn push_be8(out: &mut Vec<u8>, x: u64)
    ensures
        final(out)@ == old(out)@ + spec_be8(x),
{
    push_be4(out, (x / 0x100000000) as u32);
    push_be4(out, (x % 0x100000000) as u32);
    proof {
        assert(out@ =~= old(out)@ + spec_be8(x));
    }
}

// Executable readers over a byte slice, little-endian only (the storage
// format is little-endian; the quote payload is only ever written).
pub fn read_le2(bytes: &[u8], offset: usize) -> (x: u16)
    requires
        offset + 2 <= bytes@.len(),
    ensures
        x == spec_le2_val(bytes@.subrange(offset as int, offset as int + 2)),
{
    let b0 = bytes[offset];
    let b1 = bytes[offset + 1];
    (b0 as u16) + (b1 as u16) * 0x100
}

pub fn read_le4(bytes: &[u8], offset: usize) -> (x: u32)
    requires
        offset + 4 <= bytes@.len(),
    ensures
        x == spec_le4_val(bytes@.subrange(offset as int, offset as int + 4)),
{
    let b0 = bytes[offset];
    let b1 = bytes[offset + 1];
    let b2 = bytes[offset + 2];
    let b3 = bytes[offset + 3];
    (b0 as u32) + (b1 as u32) * 0x100 + (b2 as u32) * 0x10000 + (b3 as u32) * 0x1000000
}

pub fn read_le8(bytes: &[u8], offset: usize) -> (x: u64)
    requires
        offset + 8 <= bytes@.len(),
    ensures
        x == spec_le8_val(bytes@.subrange(offset as int, offset as int + 8)),
{
    let len: usize = bytes.len();
    proof {
        assert(offset + 8 <= len);
    }
    let lo = read_le4(bytes, offset);
    let hi = read_le4(bytes, offset + 4);
    proof {
        let s = bytes@.subrange(offset as int, offset as int + 8);
        assert(bytes@.subrange(offset as int, offset as int + 4) =~= s.subrange(0, 4));
        assert(bytes@.subrange(offset as int + 4, offset as int + 8) =~= s.subrange(4, 8));
    }
    (lo as u64) + (hi as u64) * 0x100000000
}

} // verus!
