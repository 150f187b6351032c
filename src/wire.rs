//! Little-endian fixed-width integers, the byte form used by the record layout,
//! the instruction payload and the address seeds.
use vstd::prelude::*;

verus! {

/// The eight little-endian bytes of `x`.
pub open spec fn le_u64(x: u64) -> Seq<u8> {
    seq![
        x as u8,
        (x >> 8u64) as u8,
        (x >> 16u64) as u8,
        (x >> 24u64) as u8,
        (x >> 32u64) as u8,
        (x >> 40u64) as u8,
        (x >> 48u64) as u8,
        (x >> 56u64) as u8,
    ]
}

/// The eight little-endian bytes of `x` in two's complement.
pub open spec fn le_i64(x: i64) -> Seq<u8> {
    le_u64(x as u64)
}

pub fn u64_to_le(x: u64) -> (r: Vec<u8>)
    ensures
        r@ == le_u64(x),
{
    let mut r: Vec<u8> = Vec::new();
    r.push(x as u8);
    r.push((x >> 8u64) as u8);
    r.push((x >> 16u64) as u8);
    r.push((x >> 24u64) as u8);
    r.push((x >> 32u64) as u8);
    r.push((x >> 40u64) as u8);
    r.push((x >> 48u64) as u8);
    r.push((x >> 56u64) as u8);
    assert(r@ =~= le_u64(x));
    r
}

pub fn i64_to_le(x: i64) -> (r: Vec<u8>)
    ensures
        r@ == le_i64(x),
{
    u64_to_le(x as u64)
}

/// Appends the bytes of `src` to `out`.
pub fn append_bytes(out: &mut Vec<u8>, src: &[u8])
    ensures
        final(out)@ == old(out)@ + src@,
{
    let mut i: usize = 0;
    while i < src.len()
        invariant
            0 <= i <= src@.len(),
            out@ == old(out)@ + src@.subrange(0, i as int),
        decreases src@.len() - i,
    {
        out.push(src[i]);
        i = i + 1;
        assert(out@ =~= old(out)@ + src@.subrange(0, i as int));
    }
    assert(src@.subrange(0, src@.len() as int) =~= src@);
}

proof fn lemma_le_u64_bytes(b0: u8, b1: u8, b2: u8, b3: u8, b4: u8, b5: u8, b6: u8, b7: u8, x: u64)
    requires
        x == (b0 as u64) | ((b1 as u64) << 8u64) | ((b2 as u64) << 16u64) | ((b3 as u64) << 24u64)
            | ((b4 as u64) << 32u64) | ((b5 as u64) << 40u64) | ((b6 as u64) << 48u64) | ((
        b7 as u64) << 56u64),
    ensures
        x as u8 == b0,
        (x >> 8u64) as u8 == b1,
        (x >> 16u64) as u8 == b2,
        (x >> 24u64) as u8 == b3,
        (x >> 32u64) as u8 == b4,
        (x >> 40u64) as u8 == b5,
        (x >> 48u64) as u8 == b6,
        (x >> 56u64) as u8 == b7,
{
    assert(x as u8 == b0) by (bit_vector)
        requires
            x == (b0 as u64) | ((b1 as u64) << 8u64) | ((b2 as u64) << 16u64) | ((b3 as u64)
                << 24u64) | ((b4 as u64) << 32u64) | ((b5 as u64) << 40u64) | ((b6 as u64)
                << 48u64) | ((b7 as u64) << 56u64),
    ;
    assert((x >> 8u64) as u8 == b1 && (x >> 16u64) as u8 == b2 && (x >> 24u64) as u8 == b3
        && (x >> 32u64) as u8 == b4) by (bit_vector)
        requires
            x == (b0 as u64) | ((b1 as u64) << 8u64) | ((b2 as u64) << 16u64) | ((b3 as u64)
                << 24u64) | ((b4 as u64) << 32u64) | ((b5 as u64) << 40u64) | ((b6 as u64)
                << 48u64) | ((b7 as u64) << 56u64),
    ;
    assert((x >> 40u64) as u8 == b5 && (x >> 48u64) as u8 == b6 && (x >> 56u64) as u8 == b7)
        by (bit_vector)
        requires
            x == (b0 as u64) | ((b1 as u64) << 8u64) | ((b2 as u64) << 16u64) | ((b3 as u64)
                << 24u64) | ((b4 as u64) << 32u64) | ((b5 as u64) << 40u64) | ((b6 as u64)
                << 48u64) | ((b7 as u64) << 56u64),
    ;
}

/// Two integers with the same bytes are the same integer.
pub proof fn lemma_le_u64_injective(x: u64, y: u64)
    requires
        le_u64(x) == le_u64(y),
    ensures
        x == y,
{
    assert(le_u64(x)[0] == le_u64(y)[0]);
    assert(le_u64(x)[1] == le_u64(y)[1]);
    assert(le_u64(x)[2] == le_u64(y)[2]);
    assert(le_u64(x)[3] == le_u64(y)[3]);
    assert(le_u64(x)[4] == le_u64(y)[4]);
    assert(le_u64(x)[5] == le_u64(y)[5]);
    assert(le_u64(x)[6] == le_u64(y)[6]);
    assert(le_u64(x)[7] == le_u64(y)[7]);
    assert(x == y) by (bit_vector)
        requires
            x as u8 == y as u8,
            (x >> 8u64) as u8 == (y >> 8u64) as u8,
            (x >> 16u64) as u8 == (y >> 16u64) as u8,
            (x >> 24u64) as u8 == (y >> 24u64) as u8,
            (x >> 32u64) as u8 == (y >> 32u64) as u8,
            (x >> 40u64) as u8 == (y >> 40u64) as u8,
            (x >> 48u64) as u8 == (y >> 48u64) as u8,
            (x >> 56u64) as u8 == (y >> 56u64) as u8,
    ;
}

pub proof fn lemma_le_i64_injective(x: i64, y: i64)
    requires
        le_i64(x) == le_i64(y),
    ensures
        x == y,
{
    lemma_le_u64_injective(x as u64, y as u64);
    assert(x == y) by (bit_vector)
        requires
            x as u64 == y as u64,
    ;
}

/// Reads the little-endian integer at `data[at..at + 8]`.
pub fn read_u64_le(data: &[u8], at: usize) -> (r: u64)
    requires
        at + 8 <= data@.len(),
    ensures
        le_u64(r) == data@.subrange(at as int, at + 8),
{
    let b0 = data[at];
    let b1 = data[at + 1];
    let b2 = data[at + 2];
    let b3 = data[at + 3];
    let b4 = data[at + 4];
    let b5 = data[at + 5];
    let b6 = data[at + 6];
    let b7 = data[at + 7];
    let x: u64 = (b0 as u64) | ((b1 as u64) << 8u64) | ((b2 as u64) << 16u64) | ((b3 as u64)
        << 24u64) | ((b4 as u64) << 32u64) | ((b5 as u64) << 40u64) | ((b6 as u64) << 48u64)
        | ((b7 as u64) << 56u64);
    proof {
        lemma_le_u64_bytes(b0, b1, b2, b3, b4, b5, b6, b7, x);
    }
    assert(le_u64(x) =~= data@.subrange(at as int, at + 8));
    x
}

/// Reads the little-endian two's complement integer at `data[at..at + 8]`.
pub fn read_i64_le(data: &[u8], at: usize) -> (r: i64)
    requires
        at + 8 <= data@.len(),
    ensures
        le_i64(r) == data@.subrange(at as int, at + 8),
{
    let u = read_u64_le(data, at);
    let r = u as i64;
    assert(r as u64 == u) by (bit_vector)
        requires
            r == u as i64,
    ;
    r
}

} // verus!
