//! Four-byte OpenType tags and their 32-bit big-endian packing.

use vstd::prelude::*;

verus! {

/// The number that a four-byte tag packs to: the first byte is the most
/// significant one.
pub open spec fn tag_value(t: Seq<u8>) -> int
    recommends
        t.len() == 4,
{
    t[0] as int * 0x100_0000 + t[1] as int * 0x1_0000 + t[2] as int * 0x100 + t[3] as int
}

/// The four bytes that a 32-bit number unpacks to, most significant first.
pub open spec fn tag_bytes(v: u32) -> Seq<u8> {
    seq![
        (v as int / 0x100_0000) as u8,
        (v as int / 0x1_0000 % 0x100) as u8,
        (v as int / 0x100 % 0x100) as u8,
        (v as int % 0x100) as u8,
    ]
}

/// Packs a four-byte tag into its 32-bit code.
pub fn compose_tag(t: [u8; 4]) -> (code: u32)
    ensures
        code as int == tag_value(t@),
        tag_bytes(code) == t@,
{
    let b0: u32 = t[0] as u32;
    let b1: u32 = t[1] as u32;
    let b2: u32 = t[2] as u32;
    let b3: u32 = t[3] as u32;
    assert((b0 << 24) + (b1 << 16) + (b2 << 8) + b3 == b0 * 0x100_0000 + b1 * 0x1_0000 + b2 * 0x100
        + b3 && b0 * 0x100_0000 + b1 * 0x1_0000 + b2 * 0x100 + b3 <= 0xffff_ffff) by (bit_vector)
        requires
            b0 < 256,
            b1 < 256,
            b2 < 256,
            b3 < 256,
    ;
    let code: u32 = (b0 << 24) + (b1 << 16) + (b2 << 8) + b3;
    proof {
        lemma_bytes_of_value(t@);
    }
    code
}

/// Unpacks a 32-bit code into its four-byte tag.
pub fn decompose_tag(t: u32) -> (bytes: [u8; 4])
    ensures
        bytes@ == tag_bytes(t),
        tag_value(bytes@) == t as int,
{
    let b0: u8 = ((t >> 24) & 0xff) as u8;
    let b1: u8 = ((t >> 16) & 0xff) as u8;
    let b2: u8 = ((t >> 8) & 0xff) as u8;
    let b3: u8 = (t & 0xff) as u8;
    assert(((t >> 24) & 0xff) == t / 0x100_0000 && ((t >> 16) & 0xff) == t / 0x1_0000 % 0x100 && ((t
        >> 8) & 0xff) == t / 0x100 % 0x100 && (t & 0xff) == t % 0x100) by (bit_vector);
    let bytes: [u8; 4] = [b0, b1, b2, b3];
    proof {
        assert(bytes@ =~= tag_bytes(t));
        lemma_value_of_bytes(t);
    }
    bytes
}

/// Unpacking the code of a four-byte tag gives the tag back.
pub proof fn lemma_bytes_of_value(t: Seq<u8>)
    requires
        t.len() == 4,
    ensures
        0 <= tag_value(t) <= u32::MAX,
        tag_bytes(tag_value(t) as u32) == t,
{
    let b0 = t[0] as u32;
    let b1 = t[1] as u32;
    let b2 = t[2] as u32;
    let b3 = t[3] as u32;
    assert({
        let v = (b0 * 0x100_0000 + b1 * 0x1_0000 + b2 * 0x100 + b3) as u32;
        &&& b0 * 0x100_0000 + b1 * 0x1_0000 + b2 * 0x100 + b3 <= 0xffff_ffff
        &&& v / 0x100_0000 == b0
        &&& v / 0x1_0000 % 0x100 == b1
        &&& v / 0x100 % 0x100 == b2
        &&& v % 0x100 == b3
    }) by (bit_vector)
        requires
            b0 < 256,
            b1 < 256,
            b2 < 256,
            b3 < 256,
    ;
    assert(tag_bytes(tag_value(t) as u32) =~= t);
}

/// Packing the bytes of a 32-bit code gives the code back.
pub proof fn lemma_value_of_bytes(v: u32)
    ensures
        tag_bytes(v).len() == 4,
        tag_value(tag_bytes(v)) == v as int,
{
    assert((v / 0x100_0000) * 0x100_0000 + (v / 0x1_0000 % 0x100) * 0x1_0000 + (v / 0x100 % 0x100)
        * 0x100 + v % 0x100 == v && v / 0x100_0000 < 256) by (bit_vector);
}

} // verus!
