//! Little-endian encoding of the signed 32-bit integers that make up a packet
//! header, built on the unsigned conversions that vstd provides by going
//! through the two's-complement image of the value.

use vstd::bytes::*;
use vstd::prelude::*;

verus! {

/// The four-byte little-endian encoding of a signed 32-bit integer.
pub open spec fn spec_i32_to_le_bytes(x: i32) -> Seq<u8> {
    spec_u32_to_le_bytes(x as u32)
}

/// The signed 32-bit integer encoded by four little-endian bytes.
pub open spec fn spec_i32_from_le_bytes(s: Seq<u8>) -> i32 {
    spec_u32_from_le_bytes(s) as i32
}

/// Encoding a signed 32-bit integer and decoding the bytes again yields the
/// integer, and decoding any four bytes and encoding the result yields the
/// bytes: the two's-complement image loses nothing.
pub proof fn lemma_i32_le_bytes_round_trip()
    ensures
        forall|x: i32|
            {
                &&& #[trigger] spec_i32_to_le_bytes(x).len() == 4
                &&& spec_i32_from_le_bytes(spec_i32_to_le_bytes(x)) == x
            },
        forall|s: Seq<u8>|
            s.len() == 4 ==> #[trigger] spec_i32_to_le_bytes(spec_i32_from_le_bytes(s)) == s,
{
    lemma_auto_spec_u32_to_from_le_bytes();
    assert forall|x: i32|
        {
            &&& #[trigger] spec_i32_to_le_bytes(x).len() == 4
            &&& spec_i32_from_le_bytes(spec_i32_to_le_bytes(x)) == x
        } by {
        lemma_auto_spec_u32_to_from_le_bytes();
        let u = x as u32;
        assert(spec_u32_to_le_bytes(u).len() == 4);
        assert(spec_u32_from_le_bytes(spec_u32_to_le_bytes(u)) == u);
        assert((x as u32) as i32 == x) by (bit_vector);
    }
    assert forall|s: Seq<u8>| s.len() == 4 implies #[trigger] spec_i32_to_le_bytes(
        spec_i32_from_le_bytes(s),
    ) == s by {
        lemma_auto_spec_u32_to_from_le_bytes();
        let u = spec_u32_from_le_bytes(s);
        assert(spec_u32_to_le_bytes(spec_u32_from_le_bytes(s)) == s);
        assert((u as i32) as u32 == u) by (bit_vector);
    }
}

/// Writes a signed 32-bit integer as four little-endian bytes.
pub fn i32_to_le_bytes(x: i32) -> (s: Vec<u8>)
    ensures
        s@ == spec_i32_to_le_bytes(x),
        s@.len() == 4,
{
    u32_to_le_bytes(#[verifier::truncate] (x as u32))
}

/// Reads a signed 32-bit integer from four little-endian bytes.
pub fn i32_from_le_bytes(s: &[u8]) -> (x: i32)
    requires
        s@.len() == 4,
    ensures
        x == spec_i32_from_le_bytes(s@),
{
    let u = u32_from_le_bytes(s);
    #[verifier::truncate] (u as i32)
}

} // verus!
