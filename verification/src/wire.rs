//! Big-endian integer encoding shared by the handshake, framing and EPMD codecs.
use vstd::prelude::*;

verus! {

/// Big-endian bytes of a 16-bit value.
pub open spec fn be16(v: u16) -> Seq<u8> {
    seq![((v >> 8u16) & 0xff) as u8, (v & 0xff) as u8]
}

/// Big-endian bytes of a 32-bit value.
pub open spec fn be32(v: u32) -> Seq<u8> {
    seq![
        ((v >> 24u32) & 0xff) as u8,
        ((v >> 16u32) & 0xff) as u8,
        ((v >> 8u32) & 0xff) as u8,
        (v & 0xff) as u8,
    ]
}

/// Big-endian bytes of a 64-bit value.
pub open spec fn be64(v: u64) -> Seq<u8> {
    seq![
        ((v >> 56u64) & 0xff) as u8,
        ((v >> 48u64) & 0xff) as u8,
        ((v >> 40u64) & 0xff) as u8,
        ((v >> 32u64) & 0xff) as u8,
        ((v >> 24u64) & 0xff) as u8,
        ((v >> 16u64) & 0xff) as u8,
        ((v >> 8u64) & 0xff) as u8,
        (v & 0xff) as u8,
    ]
}

/// The 16-bit value whose big-endian bytes start at `i`.
pub open spec fn read16(s: Seq<u8>, i: int) -> u16 {
    ((s[i] as u16) << 8u16) | (s[i + 1] as u16)
}

/// The 32-bit value whose big-endian bytes start at `i`.
pub open spec fn read32(s: Seq<u8>, i: int) -> u32 {
    ((s[i] as u32) << 24u32) | ((s[i + 1] as u32) << 16u32) | ((s[i + 2] as u32) << 8u32) | (s[i
        + 3] as u32)
}

/// The 64-bit value whose big-endian bytes start at `i`.
pub open spec fn read64(s: Seq<u8>, i: int) -> u64 {
    ((read32(s, i) as u64) << 32u64) | (read32(s, i + 4) as u64)
}

pub proof fn lemma_read16_be16(v: u16, s: Seq<u8>, i: int)
    requires
        0 <= i,
        i + 2 <= s.len(),
        s.subrange(i, i + 2) == be16(v),
    ensures
        read16(s, i) == v,
{
    assert(s[i] == be16(v)[0]);
    assert(s[i + 1] == be16(v)[1]);
    let b0 = s[i];
    let b1 = s[i + 1];
    assert(b0 == ((v >> 8u16) & 0xff) as u8 && b1 == (v & 0xff) as u8 ==> ((b0 as u16) << 8u16) | (
    b1 as u16) == v) by (bit_vector);
}

pub proof fn lemma_read32_be32(v: u32, s: Seq<u8>, i: int)
    requires
        0 <= i,
        i + 4 <= s.len(),
        s.subrange(i, i + 4) == be32(v),
    ensures
        read32(s, i) == v,
{
    assert(s[i] == be32(v)[0]);
    assert(s[i + 1] == be32(v)[1]);
    assert(s[i + 2] == be32(v)[2]);
    assert(s[i + 3] == be32(v)[3]);
    let b0 = s[i];
    let b1 = s[i + 1];
    let b2 = s[i + 2];
    let b3 = s[i + 3];
    assert(b0 == ((v >> 24u32) & 0xff) as u8 && b1 == ((v >> 16u32) & 0xff) as u8 && b2 == ((v
        >> 8u32) & 0xff) as u8 && b3 == (v & 0xff) as u8 ==> ((b0 as u32) << 24u32) | ((b1 as u32)
        << 16u32) | ((b2 as u32) << 8u32) | (b3 as u32) == v) by (bit_vector);
}

pub proof fn lemma_be64_halves(v: u64)
    ensures
        be64(v) == be32((v >> 32u64) as u32) + be32(v as u32),
        v == (((v >> 32u64) as u32 as u64) << 32u64) | (v as u32 as u64),
{
    let hi = (v >> 32u64) as u32;
    let lo = v as u32;
    assert(((v >> 56u64) & 0xff) as u8 == ((hi >> 24u32) & 0xff) as u8) by (bit_vector)
        requires
            hi == (v >> 32u64) as u32,
    ;
    assert(((v >> 48u64) & 0xff) as u8 == ((hi >> 16u32) & 0xff) as u8) by (bit_vector)
        requires
            hi == (v >> 32u64) as u32,
    ;
    assert(((v >> 40u64) & 0xff) as u8 == ((hi >> 8u32) & 0xff) as u8) by (bit_vector)
        requires
            hi == (v >> 32u64) as u32,
    ;
    assert(((v >> 32u64) & 0xff) as u8 == (hi & 0xff) as u8) by (bit_vector)
        requires
            hi == (v >> 32u64) as u32,
    ;
    assert(((v >> 24u64) & 0xff) as u8 == ((lo >> 24u32) & 0xff) as u8) by (bit_vector)
        requires
            lo == v as u32,
    ;
    assert(((v >> 16u64) & 0xff) as u8 == ((lo >> 16u32) & 0xff) as u8) by (bit_vector)
        requires
            lo == v as u32,
    ;
    assert(((v >> 8u64) & 0xff) as u8 == ((lo >> 8u32) & 0xff) as u8) by (bit_vector)
        requires
            lo == v as u32,
    ;
    assert((v & 0xff) as u8 == (lo & 0xff) as u8) by (bit_vector)
        requires
            lo == v as u32,
    ;
    assert(be64(v) =~= be32(hi) + be32(lo));
    assert(v == (((v >> 32u64) as u32 as u64) << 32u64) | (v as u32 as u64)) by (bit_vector);
}

pub proof fn lemma_read64_be64(v: u64, s: Seq<u8>, i: int)
    requires
        0 <= i,
        i + 8 <= s.len(),
        s.subrange(i, i + 8) == be64(v),
    ensures
        read64(s, i) == v,
{
    lemma_be64_halves(v);
    let hi = (v >> 32u64) as u32;
    let lo = v as u32;
    assert(s.subrange(i, i + 4) =~= s.subrange(i, i + 8).subrange(0, 4));
    assert(s.subrange(i + 4, i + 8) =~= s.subrange(i, i + 8).subrange(4, 8));
    assert((be32(hi) + be32(lo)).subrange(0, 4) =~= be32(hi));
    assert((be32(hi) + be32(lo)).subrange(4, 8) =~= be32(lo));
    lemma_read32_be32(hi, s, i);
    lemma_read32_be32(lo, s, i + 4);
}

/// Appends the big-endian bytes of `v`.
pub fn put_u16(buf: &mut Vec<u8>, v: u16)
    ensures
        final(buf)@ == old(buf)@ + be16(v),
{
    buf.push(((v >> 8u16) & 0xff) as u8);
    buf.push((v & 0xff) as u8);
    assert(buf@ =~= old(buf)@ + be16(v));
}

/// Appends the big-endian bytes of `v`.
pub fn put_u32(buf: &mut Vec<u8>, v: u32)
    ensures
        final(buf)@ == old(buf)@ + be32(v),
{
    buf.push(((v >> 24u32) & 0xff) as u8);
    buf.push(((v >> 16u32) & 0xff) as u8);
    buf.push(((v >> 8u32) & 0xff) as u8);
    buf.push((v & 0xff) as u8);
    assert(buf@ =~= old(buf)@ + be32(v));
}

/// Appends the big-endian bytes of `v`.
pub fn put_u64(buf: &mut Vec<u8>, v: u64)
    ensures
        final(buf)@ == old(buf)@ + be64(v),
{
    buf.push(((v >> 56u64) & 0xff) as u8);
    buf.push(((v >> 48u64) & 0xff) as u8);
    buf.push(((v >> 40u64) & 0xff) as u8);
    buf.push(((v >> 32u64) & 0xff) as u8);
    buf.push(((v >> 24u64) & 0xff) as u8);
    buf.push(((v >> 16u64) & 0xff) as u8);
    buf.push(((v >> 8u64) & 0xff) as u8);
    buf.push((v & 0xff) as u8);
    assert(buf@ =~= old(buf)@ + be64(v));
}

/// Appends all of `data`.
pub fn put_slice(buf: &mut Vec<u8>, data: &[u8])
    ensures
        final(buf)@ == old(buf)@ + data@,
{
    let mut i: usize = 0;
    while i < data.len()
        invariant
            i <= data@.len(),
            buf@ == old(buf)@ + data@.subrange(0, i as int),
        decreases data@.len() - i,
    {
        buf.push(data[i]);
        i = i + 1;
        assert(buf@ =~= old(buf)@ + data@.subrange(0, i as int));
    }
    assert(data@.subrange(0, i as int) =~= data@);
}

/// Reads the big-endian 16-bit value at `pos`.
pub fn get_u16(data: &[u8], pos: usize) -> (r: u16)
    requires
        pos + 2 <= data@.len(),
    ensures
        r == read16(data@, pos as int),
{
    ((data[pos] as u16) << 8u16) | (data[pos + 1] as u16)
}

/// Reads the big-endian 32-bit value at `pos`.
pub fn get_u32(data: &[u8], pos: usize) -> (r: u32)
    requires
        pos + 4 <= data@.len(),
    ensures
        r == read32(data@, pos as int),
{
    ((data[pos] as u32) << 24u32) | ((data[pos + 1] as u32) << 16u32) | ((data[pos + 2] as u32)
        << 8u32) | (data[pos + 3] as u32)
}

/// Reads the big-endian 64-bit value at `pos`.
pub fn get_u64(data: &[u8], pos: usize) -> (r: u64)
    requires
        pos + 8 <= data@.len(),
    ensures
        r == read64(data@, pos as int),
{
    let _len = data.len();
    let hi = get_u32(data, pos);
    let lo = get_u32(data, pos + 4);
    ((hi as u64) << 32u64) | (lo as u64)
}

/// A copy of `data[start..end]`.
pub fn copy_range(data: &[u8], start: usize, end: usize) -> (r: Vec<u8>)
    requires
        start <= end <= data@.len(),
    ensures
        r@ == data@.subrange(start as int, end as int),
{
    let mut out: Vec<u8> = Vec::new();
    let mut i: usize = start;
    while i < end
        invariant
            start <= i <= end,
            end <= data@.len(),
            out@ == data@.subrange(start as int, i as int),
        decreases end - i,
    {
        out.push(data[i]);
        i = i + 1;
        assert(out@ =~= data@.subrange(start as int, i as int));
    }
    out
}

} // verus!
