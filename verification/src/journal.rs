//! Encoding and decoding of the journal: the byte sequence the guest
//! computation commits as its public output.
//!
//! The guest commits a single 64-bit product; the engine lays the committed
//! words out in memory order, so the journal is exactly the eight
//! little-endian bytes of the product. Decoding accepts exactly that shape:
//! one 64-bit value and no trailing bytes.

use vstd::bytes::{spec_u64_to_le_bytes, spec_u64_from_le_bytes, u64_to_le_bytes, u64_from_le_bytes};
use vstd::bytes::lemma_auto_spec_u64_to_from_le_bytes;
use vstd::prelude::*;

verus! {

/// A failure to decode a journal back into a typed output.
#[derive(Clone, Copy, Debug, PartialEq, Eq, Structural)]
pub enum DecodeError {
    /// The journal does not hold exactly one 64-bit value.
    BadLength,
}

/// The number of bytes a well-formed journal holds: one 64-bit value.
pub open spec fn spec_journal_len() -> int {
    8
}

/// The journal committed for a product `p`: its eight little-endian bytes.
pub open spec fn spec_journal_bytes(p: u64) -> Seq<u8> {
    spec_u64_to_le_bytes(p)
}

/// What decoding a journal yields: the 64-bit value its eight little-endian
/// bytes spell, or a length fault for any other byte count.
pub open spec fn spec_decode_journal(bytes: Seq<u8>) -> Result<u64, DecodeError> {
    if bytes.len() == spec_journal_len() {
        Ok(spec_u64_from_le_bytes(bytes))
    } else {
        Err(DecodeError::BadLength)
    }
}

/// Encodes a committed product as journal bytes.
pub fn encode_journal(p: u64) -> (r: Vec<u8>)
    ensures
        r@ == spec_journal_bytes(p),
        r@.len() == spec_journal_len(),
{
    proof {
        lemma_auto_spec_u64_to_from_le_bytes();
    }
    u64_to_le_bytes(p)
}

/// Decodes a journal as a single 64-bit unsigned integer; fails if the
/// byte length does not match that encoding.
pub fn decode_journal(bytes: &Vec<u8>) -> (r: Result<u64, DecodeError>)
    ensures
        r == spec_decode_journal(bytes@),
{
    if bytes.len() == 8 {
        Ok(u64_from_le_bytes(bytes.as_slice()))
    } else {
        Err(DecodeError::BadLength)
    }
}

/// Journal round trip: the journal committed for a product decodes back to
/// exactly that product.
pub proof fn lemma_journal_round_trip(p: u64)
    ensures
        spec_decode_journal(spec_journal_bytes(p)) == Ok::<u64, DecodeError>(p),
{
    lemma_auto_spec_u64_to_from_le_bytes();
}

} // verus!
