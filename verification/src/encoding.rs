//! Fixed-width byte packing. Block numbers and nonces enter the hash as
//! big-endian fixed-width byte strings; a digest's leading bytes are read
//! back as a little-endian 64-bit value. The exact byte order on both sides
//! is a cross-implementation contract, so it is spelled out here.

use vstd::prelude::*;

verus! {

broadcast use vstd::seq::group_seq_axioms;

/// The 8 bytes of a 64-bit value in big-endian order: the most significant
/// byte first.
pub open spec fn be_bytes_u64(x: u64) -> Seq<u8> {
    seq![
        (x as int / 0x100000000000000 % 0x100) as u8,
        (x as int / 0x1000000000000 % 0x100) as u8,
        (x as int / 0x10000000000 % 0x100) as u8,
        (x as int / 0x100000000 % 0x100) as u8,
        (x as int / 0x1000000 % 0x100) as u8,
        (x as int / 0x10000 % 0x100) as u8,
        (x as int / 0x100 % 0x100) as u8,
        (x as int % 0x100) as u8,
    ]
}

/// The 4 bytes of a 32-bit value in big-endian order.
pub open spec fn be_bytes_u32(x: u32) -> Seq<u8> {
    seq![
        (x as int / 0x1000000 % 0x100) as u8,
        (x as int / 0x10000 % 0x100) as u8,
        (x as int / 0x100 % 0x100) as u8,
        (x as int % 0x100) as u8,
    ]
}

/// The value read from the first 8 bytes of a sequence with byte `i` placed
/// at bit position `i * 8`: a little-endian reassembly, regardless of how
/// the bytes were produced.
pub open spec fn le_u64_of(bytes: Seq<u8>) -> int
    recommends
        bytes.len() >= 8,
{
    bytes[0] + bytes[1] * 0x100 + bytes[2] * 0x10000 + bytes[3] * 0x1000000 + bytes[4]
        * 0x100000000 + bytes[5] * 0x10000000000 + bytes[6] * 0x1000000000000 + bytes[7]
        * 0x100000000000000
}

/// Packs a 64-bit value as big-endian bytes.
pub fn u64_to_be_bytes(x: u64) -> (r: Vec<u8>)
    ensures
        r@ == be_bytes_u64(x),
{
    let mut r: Vec<u8> = Vec::new();
    r.push((x / 0x100000000000000 % 0x100) as u8);
    r.push((x / 0x1000000000000 % 0x100) as u8);
    r.push((x / 0x10000000000 % 0x100) as u8);
    r.push((x / 0x100000000 % 0x100) as u8);
    r.push((x / 0x1000000 % 0x100) as u8);
    r.push((x / 0x10000 % 0x100) as u8);
    r.push((x / 0x100 % 0x100) as u8);
    r.push((x % 0x100) as u8);
    proof {
        assert(r@ =~= be_bytes_u64(x));
    }
    r
}

/// Packs a 32-bit value as big-endian bytes.
pub fn u32_to_be_bytes(x: u32) -> (r: Vec<u8>)
    ensures
        r@ == be_bytes_u32(x),
{
    let mut r: Vec<u8> = Vec::new();
    r.push((x / 0x1000000 % 0x100) as u8);
    r.push((x / 0x10000 % 0x100) as u8);
    r.push((x / 0x100 % 0x100) as u8);
    r.push((x % 0x100) as u8);
    proof {
        assert(r@ =~= be_bytes_u32(x));
    }
    r
}

/// Big-endian packing loses nothing: two 64-bit values with the same bytes
/// are the same value.
pub proof fn lemma_be_bytes_u64_injective(x: u64, y: u64)
    requires
        be_bytes_u64(x) == be_bytes_u64(y),
    ensures
        x == y,
{
    assert(be_bytes_u64(x)[0] == be_bytes_u64(y)[0]);
    assert(be_bytes_u64(x)[1] == be_bytes_u64(y)[1]);
    assert(be_bytes_u64(x)[2] == be_bytes_u64(y)[2]);
    assert(be_bytes_u64(x)[3] == be_bytes_u64(y)[3]);
    assert(be_bytes_u64(x)[4] == be_bytes_u64(y)[4]);
    assert(be_bytes_u64(x)[5] == be_bytes_u64(y)[5]);
    assert(be_bytes_u64(x)[6] == be_bytes_u64(y)[6]);
    assert(be_bytes_u64(x)[7] == be_bytes_u64(y)[7]);
    assert((x / 0x100000000000000 % 0x100 == y / 0x100000000000000 % 0x100 && x
        / 0x1000000000000 % 0x100 == y / 0x1000000000000 % 0x100 && x / 0x10000000000 % 0x100 == y
        / 0x10000000000 % 0x100 && x / 0x100000000 % 0x100 == y / 0x100000000 % 0x100 && x
        / 0x1000000 % 0x100 == y / 0x1000000 % 0x100 && x / 0x10000 % 0x100 == y / 0x10000 % 0x100
        && x / 0x100 % 0x100 == y / 0x100 % 0x100 && x % 0x100 == y % 0x100) ==> x == y)
        by (bit_vector);
}

/// Big-endian packing loses nothing: two 32-bit values with the same bytes
/// are the same value.
pub proof fn lemma_be_bytes_u32_injective(x: u32, y: u32)
    requires
        be_bytes_u32(x) == be_bytes_u32(y),
    ensures
        x == y,
{
    assert(be_bytes_u32(x)[0] == be_bytes_u32(y)[0]);
    assert(be_bytes_u32(x)[1] == be_bytes_u32(y)[1]);
    assert(be_bytes_u32(x)[2] == be_bytes_u32(y)[2]);
    assert(be_bytes_u32(x)[3] == be_bytes_u32(y)[3]);
    assert((x / 0x1000000 % 0x100 == y / 0x1000000 % 0x100 && x / 0x10000 % 0x100 == y / 0x10000
        % 0x100 && x / 0x100 % 0x100 == y / 0x100 % 0x100 && x % 0x100 == y % 0x100) ==> x == y)
        by (bit_vector);
}

/// Two equal concatenations split equally once one side's lengths match:
/// since the total lengths agree, matching prefix lengths and matching
/// suffix lengths come to the same thing.
pub proof fn lemma_concat_split(x1: Seq<u8>, y1: Seq<u8>, x2: Seq<u8>, y2: Seq<u8>)
    requires
        x1 + y1 == x2 + y2,
        x1.len() == x2.len() || y1.len() == y2.len(),
    ensures
        x1 == x2,
        y1 == y2,
{
    assert((x1 + y1).len() == x1.len() + y1.len());
    assert((x2 + y2).len() == x2.len() + y2.len());
    assert((x1 + y1).len() == (x2 + y2).len());
    assert(x1.len() + y1.len() == x2.len() + y2.len());
    assert(x1.len() == x2.len());
    assert forall|i: int| 0 <= i < x1.len() implies x1[i] == x2[i] by {
        assert((x1 + y1)[i] == x1[i]);
        assert((x2 + y2)[i] == x2[i]);
    }
    assert(x1 =~= x2);
    assert forall|i: int| 0 <= i < y1.len() implies y1[i] == y2[i] by {
        assert((x1 + y1)[x1.len() + i] == y1[i]);
        assert((x2 + y2)[x2.len() + i] == y2[i]);
    }
    assert(y1 =~= y2);
}

} // verus!
