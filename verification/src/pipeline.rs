//! End-to-end statements about the proving pipeline model: what one run
//! produces for a given pair of private factors, and which parts of the
//! artifact are determined by the factors and program image alone.

use crate::artifact::spec_artifact_fields;
use crate::guest::{spec_guest_multiply, spec_guest_journal, GuestError};
use crate::journal::{spec_decode_journal, DecodeError};
use vstd::bytes::lemma_auto_spec_u64_to_from_le_bytes;
use vstd::prelude::*;

verus! {

/// For non-trivial factors whose product fits in 64 bits, the pipeline
/// succeeds: the guest commits a journal and the output decoder yields
/// exactly the product `a * b`.
pub proof fn lemma_pipeline_multiplies(a: u64, b: u64)
    requires
        a > 1,
        b > 1,
        a * b <= u64::MAX,
    ensures
        spec_guest_multiply(a, b) == Ok::<u64, GuestError>((a * b) as u64),
        spec_guest_journal(a, b) is Ok,
        spec_decode_journal(spec_guest_journal(a, b)->Ok_0) == Ok::<u64, DecodeError>(
            (a * b) as u64,
        ),
{
    lemma_auto_spec_u64_to_from_le_bytes();
}

/// When either factor equals 1, the guest rejects the input with a
/// trivial-factor fault and commits no journal.
pub proof fn lemma_trivial_factor_rejected(a: u64, b: u64)
    requires
        a == 1 || b == 1,
    ensures
        spec_guest_multiply(a, b) == Err::<u64, GuestError>(GuestError::TrivialFactor),
        spec_guest_journal(a, b) == Err::<Seq<u8>, GuestError>(GuestError::TrivialFactor),
{
}

/// When the product overflows 64 bits, the guest aborts with an overflow
/// fault and commits no journal.
pub proof fn lemma_overflow_rejected(a: u64, b: u64)
    requires
        a * b > u64::MAX,
    ensures
        spec_guest_multiply(a, b) == Err::<u64, GuestError>(GuestError::Overflow),
        spec_guest_journal(a, b) == Err::<Seq<u8>, GuestError>(GuestError::Overflow),
{
    assert(a != 1 && b != 1) by {
        if a == 1 {
            assert(a * b == b);
        }
        if b == 1 {
            assert(a * b == a);
        }
    }
}

/// Determinism: two proving runs with identical factors and an identical
/// program image commit the identical journal and carry the identical
/// `outputs` and `image_id` artifact fields, whatever proof bytes the
/// engine happens to produce in each run; and both decode to the product.
pub proof fn lemma_proving_determinism(
    a: u64,
    b: u64,
    image: Seq<u32>,
    proof1: Seq<u8>,
    proof2: Seq<u8>,
)
    requires
        spec_guest_journal(a, b) is Ok,
    ensures
        ({
            let j = spec_guest_journal(a, b)->Ok_0;
            let run1 = spec_artifact_fields(proof1, j, image);
            let run2 = spec_artifact_fields(proof2, j, image);
            &&& run1.1 == run2.1
            &&& run1.2 == run2.2
            &&& spec_decode_journal(j) == Ok::<u64, DecodeError>(spec_guest_multiply(a, b)->Ok_0)
        }),
{
    lemma_auto_spec_u64_to_from_le_bytes();
}

} // verus!
