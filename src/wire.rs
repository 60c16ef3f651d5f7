use vstd::prelude::*;

verus! {

/// The eight little-endian bytes of `x`.
pub open spec fn le_bytes(x: u64) -> Seq<u8> {
    seq![
        (x & 0xff) as u8,
        ((x >> 8u64) & 0xff) as u8,
        ((x >> 16u64) & 0xff) as u8,
        ((x >> 24u64) & 0xff) as u8,
        ((x >> 32u64) & 0xff) as u8,
        ((x >> 40u64) & 0xff) as u8,
        ((x >> 48u64) & 0xff) as u8,
        ((x >> 56u64) & 0xff) as u8,
    ]
}

/// The integer whose little-endian bytes are the first eight of `b`.
pub open spec fn from_le_bytes(b: Seq<u8>) -> u64
    recommends
        b.len() >= 8,
{
    (b[0] as u64) | ((b[1] as u64) << 8u64) | ((b[2] as u64) << 16u64) | ((b[3] as u64)
        << 24u64) | ((b[4] as u64) << 32u64) | ((b[5] as u64) << 40u64) | ((b[6] as u64)
        << 48u64) | ((b[7] as u64) << 56u64)
}

/// Length of the selector at the head of a payload.
pub const SELECTOR_LEN: usize = 8;

/// A payload: the selector, then the value's own bytes.
pub open spec fn payload(selector: u64, value: Seq<u8>) -> Seq<u8> {
    le_bytes(selector) + value
}

/// A payload split into selector and value bytes, or `None` where it is too
/// short to hold a selector.
pub open spec fn split_payload(p: Seq<u8>) -> Option<(u64, Seq<u8>)> {
    if p.len() < 8 {
        None
    } else {
        Some((from_le_bytes(p), p.subrange(8, p.len() as int)))
    }
}

proof fn lemma_bits_round_trip(x: u64)
    ensures
        ((x & 0xff) as u8 as u64) | ((((x >> 8u64) & 0xff) as u8 as u64) << 8u64) | ((((x
            >> 16u64) & 0xff) as u8 as u64) << 16u64) | ((((x >> 24u64) & 0xff) as u8 as u64)
            << 24u64) | ((((x >> 32u64) & 0xff) as u8 as u64) << 32u64) | ((((x >> 40u64)
            & 0xff) as u8 as u64) << 40u64) | ((((x >> 48u64) & 0xff) as u8 as u64) << 48u64)
            | ((((x >> 56u64) & 0xff) as u8 as u64) << 56u64) == x,
{
    assert(((x & 0xff) as u8 as u64) | ((((x >> 8u64) & 0xff) as u8 as u64) << 8u64) | ((((x
        >> 16u64) & 0xff) as u8 as u64) << 16u64) | ((((x >> 24u64) & 0xff) as u8 as u64)
        << 24u64) | ((((x >> 32u64) & 0xff) as u8 as u64) << 32u64) | ((((x >> 40u64) & 0xff)
        as u8 as u64) << 40u64) | ((((x >> 48u64) & 0xff) as u8 as u64) << 48u64) | ((((x
        >> 56u64) & 0xff) as u8 as u64) << 56u64) == x) by (bit_vector);
}

/// Reading back the bytes of an integer gives the integer, also with more bytes after them.
pub proof fn lemma_le_round_trip(x: u64, rest: Seq<u8>)
    ensures
        from_le_bytes(le_bytes(x)) == x,
        from_le_bytes(le_bytes(x) + rest) == x,
        le_bytes(x).len() == 8,
{
    lemma_bits_round_trip(x);
    let b = le_bytes(x) + rest;
    assert(b[0] == le_bytes(x)[0] && b[1] == le_bytes(x)[1] && b[2] == le_bytes(x)[2]
        && b[3] == le_bytes(x)[3] && b[4] == le_bytes(x)[4] && b[5] == le_bytes(x)[5] && b[6]
        == le_bytes(x)[6] && b[7] == le_bytes(x)[7]);
}

proof fn lemma_bits_of_bytes(b0: u8, b1: u8, b2: u8, b3: u8, b4: u8, b5: u8, b6: u8, b7: u8, x: u64)
    by (bit_vector)
    requires
        x == (b0 as u64) | ((b1 as u64) << 8u64) | ((b2 as u64) << 16u64) | ((b3 as u64)
            << 24u64) | ((b4 as u64) << 32u64) | ((b5 as u64) << 40u64) | ((b6 as u64)
            << 48u64) | ((b7 as u64) << 56u64),
    ensures
        ((x & 0xff) as u8) == b0,
        (((x >> 8u64) & 0xff) as u8) == b1,
        (((x >> 16u64) & 0xff) as u8) == b2,
        (((x >> 24u64) & 0xff) as u8) == b3,
        (((x >> 32u64) & 0xff) as u8) == b4,
        (((x >> 40u64) & 0xff) as u8) == b5,
        (((x >> 48u64) & 0xff) as u8) == b6,
        (((x >> 56u64) & 0xff) as u8) == b7,
{
}

/// Writing back the integer read from eight bytes gives those bytes.
pub proof fn lemma_bytes_round_trip(b: Seq<u8>)
    requires
        b.len() >= 8,
    ensures
        le_bytes(from_le_bytes(b)) == b.subrange(0, 8),
{
    let x = from_le_bytes(b);
    lemma_bits_of_bytes(b[0], b[1], b[2], b[3], b[4], b[5], b[6], b[7], x);
    assert(le_bytes(x) =~= b.subrange(0, 8));
}

/// Splitting a payload gives back its selector and value bytes.
pub proof fn lemma_split_payload(selector: u64, value: Seq<u8>)
    ensures
        split_payload(payload(selector, value)) == Some((selector, value)),
{
    lemma_le_round_trip(selector, value);
    let p = payload(selector, value);
    assert(p.subrange(8, p.len() as int) =~= value);
}

/// Appends the little-endian bytes of `x` to `out`.
pub fn write_u64(x: u64, out: &mut Vec<u8>)
    ensures
        final(out)@ == old(out)@ + le_bytes(x),
{
    out.push((x & 0xff) as u8);
    out.push(((x >> 8u64) & 0xff) as u8);
    out.push(((x >> 16u64) & 0xff) as u8);
    out.push(((x >> 24u64) & 0xff) as u8);
    out.push(((x >> 32u64) & 0xff) as u8);
    out.push(((x >> 40u64) & 0xff) as u8);
    out.push(((x >> 48u64) & 0xff) as u8);
    out.push(((x >> 56u64) & 0xff) as u8);
    assert(final(out)@ =~= old(out)@ + le_bytes(x));
}

/// The payload holding `selector`, then `value`.
pub fn frame(selector: u64, value: &[u8]) -> (r: Vec<u8>)
    ensures
        r@ == payload(selector, value@),
{
    let mut out: Vec<u8> = Vec::new();
    write_u64(selector, &mut out);
    let mut i: usize = 0;
    while i < value.len()
        invariant
            i <= value@.len(),
            out@ == le_bytes(selector) + value@.subrange(0, i as int),
        decreases value@.len() - i,
    {
        out.push(value[i]);
        i = i + 1;
        assert(value@.subrange(0, i as int) =~= value@.subrange(0, i - 1 as int).push(
            value@[i - 1],
        ));
    }
    assert(value@.subrange(0, i as int) =~= value@);
    out
}

/// Reads the integer held little-endian in the first eight bytes of `b`.
pub fn read_u64(b: &[u8]) -> (r: u64)
    requires
        b@.len() >= 8,
    ensures
        r == from_le_bytes(b@),
{
    (b[0] as u64) | ((b[1] as u64) << 8u64) | ((b[2] as u64) << 16u64) | ((b[3] as u64)
        << 24u64) | ((b[4] as u64) << 32u64) | ((b[5] as u64) << 40u64) | ((b[6] as u64)
        << 48u64) | ((b[7] as u64) << 56u64)
}

} // verus!
