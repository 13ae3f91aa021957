//! Big-endian integers of two, four and six bytes, read from and written to
//! byte sequences.
use vstd::prelude::*;

verus! {

/// The 16-bit big-endian integer at `xs[o..o + 2]`.
pub open spec fn be16(xs: Seq<u8>, o: int) -> u16 {
    (xs[o] as int * 0x100 + xs[o + 1] as int) as u16
}

/// The 32-bit big-endian integer at `xs[o..o + 4]`.
pub open spec fn be32(xs: Seq<u8>, o: int) -> u32 {
    (xs[o] as int * 0x100_0000 + xs[o + 1] as int * 0x1_0000 + xs[o + 2] as int * 0x100 + xs[o
        + 3] as int) as u32
}

/// The 48-bit big-endian integer at `xs[o..o + 6]`.
pub open spec fn be48(xs: Seq<u8>, o: int) -> u64 {
    (xs[o] as int * 0x100_0000_0000 + xs[o + 1] as int * 0x1_0000_0000 + xs[o + 2] as int
        * 0x100_0000 + xs[o + 3] as int * 0x1_0000 + xs[o + 4] as int * 0x100 + xs[o + 5] as int) as u64
}

/// Byte `i` of `x`, counted from the least significant one.
pub open spec fn byte_at(x: int, i: nat) -> u8 {
    ((x / pow256(i)) % 0x100) as u8
}

/// 256 to the power `i`, for the six powers that the formats use.
pub open spec fn pow256(i: nat) -> int {
    if i == 0 {
        1
    } else if i == 1 {
        0x100
    } else if i == 2 {
        0x1_0000
    } else if i == 3 {
        0x100_0000
    } else if i == 4 {
        0x1_0000_0000
    } else {
        0x100_0000_0000
    }
}

/// The two bytes of `x`, most significant first.
pub open spec fn bytes_of_u16(x: u16) -> Seq<u8> {
    seq![byte_at(x as int, 1), byte_at(x as int, 0)]
}

/// The four bytes of `x`, most significant first.
pub open spec fn bytes_of_u32(x: u32) -> Seq<u8> {
    seq![byte_at(x as int, 3), byte_at(x as int, 2), byte_at(x as int, 1), byte_at(x as int, 0)]
}

/// The low six bytes of `x`, most significant first.
pub open spec fn bytes_of_u48(x: u64) -> Seq<u8> {
    seq![
        byte_at(x as int, 5),
        byte_at(x as int, 4),
        byte_at(x as int, 3),
        byte_at(x as int, 2),
        byte_at(x as int, 1),
        byte_at(x as int, 0),
    ]
}

pub fn read_2bytes(xs: &Vec<u8>, offset: usize) -> (r: u16)
    requires
        offset + 2 <= xs.len(),
    ensures
        r == be16(xs@, offset as int),
{
    let a: u8 = xs[offset];
    let b: u8 = xs[offset + 1];
    assert(((a as u16) << 8 | (b as u16)) == (a as u16) * 0x100 + (b as u16)) by (bit_vector);
    (a as u16) << 8 | (b as u16)
}

pub fn read_4bytes(xs: &Vec<u8>, offset: usize) -> (r: u32)
    requires
        offset + 4 <= xs.len(),
    ensures
        r == be32(xs@, offset as int),
{
    let a: u8 = xs[offset];
    let b: u8 = xs[offset + 1];
    let c: u8 = xs[offset + 2];
    let d: u8 = xs[offset + 3];
    assert(((a as u32) << 24 | (b as u32) << 16 | (c as u32) << 8 | (d as u32)) == (a as u32)
        * 0x100_0000 + (b as u32) * 0x1_0000 + (c as u32) * 0x100 + (d as u32)) by (bit_vector);
    (a as u32) << 24 | (b as u32) << 16 | (c as u32) << 8 | (d as u32)
}

pub fn read_6bytes(xs: &Vec<u8>, offset: usize) -> (r: u64)
    requires
        offset + 6 <= xs.len(),
    ensures
        r == be48(xs@, offset as int),
        r < 0x1_0000_0000_0000,
{
    let a: u8 = xs[offset];
    let b: u8 = xs[offset + 1];
    let c: u8 = xs[offset + 2];
    let d: u8 = xs[offset + 3];
    let e: u8 = xs[offset + 4];
    let f: u8 = xs[offset + 5];
    assert(((a as u64) << 40 | (b as u64) << 32 | (c as u64) << 24 | (d as u64) << 16 | (e as u64)
        << 8 | (f as u64)) == (a as u64) * 0x100_0000_0000 + (b as u64) * 0x1_0000_0000 + (c as u64)
        * 0x100_0000 + (d as u64) * 0x1_0000 + (e as u64) * 0x100 + (f as u64)) by (bit_vector);
    (a as u64) << 40 | (b as u64) << 32 | (c as u64) << 24 | (d as u64) << 16 | (e as u64) << 8 | (
    f as u64)
}

pub fn split_2bytes(x: u16) -> (r: [u8; 2])
    ensures
        r@ == bytes_of_u16(x),
{
    assert((x >> 8) == x / 0x100 && (x >> 8) < 0x100 && (x & 0xFF) == x % 0x100) by (bit_vector);
    let r: [u8; 2] = [(x >> 8) as u8, (x & 0xFF) as u8];
    assert(r@ =~= bytes_of_u16(x));
    r
}

pub fn split_4bytes(x: u32) -> (r: [u8; 4])
    ensures
        r@ == bytes_of_u32(x),
{
    assert((x >> 24) == x / 0x100_0000 && (x >> 24) < 0x100 && ((x >> 16) & 0xFF) == (x / 0x1_0000)
        % 0x100 && ((x >> 8) & 0xFF) == (x / 0x100) % 0x100 && (x & 0xFF) == x % 0x100)
        by (bit_vector);
    let r: [u8; 4] = [
        (x >> 24) as u8,
        ((x >> 16) & 0xFF) as u8,
        ((x >> 8) & 0xFF) as u8,
        (x & 0xFF) as u8,
    ];
    assert(r@ =~= bytes_of_u32(x));
    r
}

pub fn split_6bytes(x: u64) -> (r: [u8; 6])
    ensures
        r@ == bytes_of_u48(x),
{
    assert(((x >> 40) & 0xFF) == (x / 0x100_0000_0000) % 0x100 && ((x >> 32) & 0xFF) == (x
        / 0x1_0000_0000) % 0x100 && ((x >> 24) & 0xFF) == (x / 0x100_0000) % 0x100 && ((x >> 16)
        & 0xFF) == (x / 0x1_0000) % 0x100 && ((x >> 8) & 0xFF) == (x / 0x100) % 0x100 && (x & 0xFF)
        == x % 0x100) by (bit_vector);
    let r: [u8; 6] = [
        ((x >> 40) & 0xFF) as u8,
        ((x >> 32) & 0xFF) as u8,
        ((x >> 24) & 0xFF) as u8,
        ((x >> 16) & 0xFF) as u8,
        ((x >> 8) & 0xFF) as u8,
        (x & 0xFF) as u8,
    ];
    assert(r@ =~= bytes_of_u48(x));
    r
}

/// A copy of `xs[from..to]`.
pub fn copy_range(xs: &Vec<u8>, from: usize, to: usize) -> (r: Vec<u8>)
    requires
        from <= to <= xs.len(),
    ensures
        r@ == xs@.subrange(from as int, to as int),
{
    let mut r: Vec<u8> = Vec::new();
    let mut i: usize = from;
    while i < to
        invariant
            from <= i <= to <= xs.len(),
            r@ == xs@.subrange(from as int, i as int),
        decreases to - i,
    {
        r.push(xs[i]);
        i = i + 1;
        assert(r@ =~= xs@.subrange(from as int, i as int));
    }
    r
}

/// Appends a copy of `ys` to `xs`.
pub fn append_bytes(xs: &mut Vec<u8>, ys: &Vec<u8>)
    ensures
        final(xs)@ == old(xs)@ + ys@,
{
    let mut i: usize = 0;
    while i < ys.len()
        invariant
            i <= ys.len(),
            xs@ == old(xs)@ + ys@.subrange(0, i as int),
        decreases ys.len() - i,
    {
        xs.push(ys[i]);
        i = i + 1;
        assert(xs@ =~= old(xs)@ + ys@.subrange(0, i as int));
    }
    assert(ys@.subrange(0, ys.len() as int) =~= ys@);
}

/// Appends the two bytes of `x`, most significant first.
pub fn append_u16(xs: &mut Vec<u8>, x: u16)
    ensures
        final(xs)@ == old(xs)@ + bytes_of_u16(x),
{
    let b = split_2bytes(x);
    xs.push(b[0]);
    xs.push(b[1]);
    assert(xs@ =~= old(xs)@ + bytes_of_u16(x));
}

/// Appends the four bytes of `x`, most significant first.
pub fn append_u32(xs: &mut Vec<u8>, x: u32)
    ensures
        final(xs)@ == old(xs)@ + bytes_of_u32(x),
{
    let b = split_4bytes(x);
    xs.push(b[0]);
    xs.push(b[1]);
    xs.push(b[2]);
    xs.push(b[3]);
    assert(xs@ =~= old(xs)@ + bytes_of_u32(x));
}

/// Reading back two written bytes gives the integer that was written.
pub proof fn lemma_be16_of_bytes(x: u16)
    ensures
        bytes_of_u16(x).len() == 2,
        be16(bytes_of_u16(x), 0) == x,
{
}

/// Reading back four written bytes gives the integer that was written.
pub proof fn lemma_be32_of_bytes(x: u32)
    ensures
        bytes_of_u32(x).len() == 4,
        be32(bytes_of_u32(x), 0) == x,
{
    assert(((x / 0x100_0000) % 0x100) * 0x100_0000 + ((x / 0x1_0000) % 0x100) * 0x1_0000 + ((x
        / 0x100) % 0x100) * 0x100 + (x % 0x100) == x) by (bit_vector);
}

/// Reading back six written bytes gives the low 48 bits of the integer that
/// was written.
pub proof fn lemma_be48_of_bytes(x: u64)
    ensures
        bytes_of_u48(x).len() == 6,
        be48(bytes_of_u48(x), 0) == x % 0x1_0000_0000_0000,
{
    assert(((x / 0x100_0000_0000) % 0x100) * 0x100_0000_0000 + ((x / 0x1_0000_0000) % 0x100)
        * 0x1_0000_0000 + ((x / 0x100_0000) % 0x100) * 0x100_0000 + ((x / 0x1_0000) % 0x100)
        * 0x1_0000 + ((x / 0x100) % 0x100) * 0x100 + (x % 0x100) == x % 0x1_0000_0000_0000)
        by (bit_vector);
}

proof fn lemma_unpack32(a: u32, b: u32, c: u32, d: u32)
    by (bit_vector)
    requires
        a < 0x100,
        b < 0x100,
        c < 0x100,
        d < 0x100,
    ensures
        ({
            let v = a * 0x100_0000 + b * 0x1_0000 + c * 0x100 + d;
            &&& (v / 0x100_0000) % 0x100 == a
            &&& (v / 0x1_0000) % 0x100 == b
            &&& (v / 0x100) % 0x100 == c
            &&& v % 0x100 == d
        }),
{
}

proof fn lemma_unpack48(a: u64, b: u64, c: u64, d: u64, e: u64, f: u64)
    by (bit_vector)
    requires
        a < 0x100,
        b < 0x100,
        c < 0x100,
        d < 0x100,
        e < 0x100,
        f < 0x100,
    ensures
        ({
            let v = a * 0x100_0000_0000 + b * 0x1_0000_0000 + c * 0x100_0000 + d * 0x1_0000 + e
                * 0x100 + f;
            &&& v < 0x1_0000_0000_0000
            &&& (v / 0x100_0000_0000) % 0x100 == a
            &&& (v / 0x1_0000_0000) % 0x100 == b
            &&& (v / 0x100_0000) % 0x100 == c
            &&& (v / 0x1_0000) % 0x100 == d
            &&& (v / 0x100) % 0x100 == e
            &&& v % 0x100 == f
        }),
{
}

/// Writing an integer that was read from two bytes gives those two bytes.
pub proof fn lemma_bytes_of_be16(xs: Seq<u8>, o: int)
    requires
        0 <= o,
        o + 2 <= xs.len(),
    ensures
        bytes_of_u16(be16(xs, o)) == xs.subrange(o, o + 2),
{
    assert(bytes_of_u16(be16(xs, o)) =~= xs.subrange(o, o + 2));
}

/// Writing an integer that was read from four bytes gives those four bytes.
pub proof fn lemma_bytes_of_be32(xs: Seq<u8>, o: int)
    requires
        0 <= o,
        o + 4 <= xs.len(),
    ensures
        bytes_of_u32(be32(xs, o)) == xs.subrange(o, o + 4),
{
    lemma_unpack32(xs[o] as u32, xs[o + 1] as u32, xs[o + 2] as u32, xs[o + 3] as u32);
    assert(bytes_of_u32(be32(xs, o)) =~= xs.subrange(o, o + 4));
}

/// Six bytes read as an integer stay below 2^48, and writing that integer
/// gives the six bytes.
pub proof fn lemma_bytes_of_be48(xs: Seq<u8>, o: int)
    requires
        0 <= o,
        o + 6 <= xs.len(),
    ensures
        be48(xs, o) < 0x1_0000_0000_0000,
        bytes_of_u48(be48(xs, o)) == xs.subrange(o, o + 6),
{
    lemma_unpack48(
        xs[o] as u64,
        xs[o + 1] as u64,
        xs[o + 2] as u64,
        xs[o + 3] as u64,
        xs[o + 4] as u64,
        xs[o + 5] as u64,
    );
    assert(bytes_of_u48(be48(xs, o)) =~= xs.subrange(o, o + 6));
}

} // verus!
