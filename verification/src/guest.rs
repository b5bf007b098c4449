//! The guest computation: the program proved by the zero-knowledge engine.
//!
//! It reads two private 64-bit factors, rejects trivial multiplications
//! (either factor equal to 1), computes the product with checked
//! multiplication, and commits the product as the sole public output.
//! The entry function returns an explicit result instead of aborting, with
//! a distinct error kind per validation failure.

use crate::journal::{spec_journal_bytes, spec_journal_len, encode_journal};
use vstd::prelude::*;

verus! {

/// A validation failure inside the guest computation.
#[derive(Clone, Copy, Debug, PartialEq, Eq, Structural)]
pub enum GuestError {
    /// One of the factors equals 1: trivial multiplications are rejected.
    TrivialFactor,
    /// The product does not fit in 64 unsigned bits.
    Overflow,
}

/// What the guest computation decides for a pair of private factors:
/// a trivial-factor fault if either factor is 1, an overflow fault if the
/// product exceeds `u64::MAX`, and otherwise the product itself.
pub open spec fn spec_guest_multiply(a: u64, b: u64) -> Result<u64, GuestError> {
    if a == 1 || b == 1 {
        Err(GuestError::TrivialFactor)
    } else if a * b > u64::MAX {
        Err(GuestError::Overflow)
    } else {
        Ok((a * b) as u64)
    }
}

/// The guest computation's validated multiplication.
pub fn guest_multiply(a: u64, b: u64) -> (r: Result<u64, GuestError>)
    ensures
        r == spec_guest_multiply(a, b),
{
    if a == 1 || b == 1 {
        return Err(GuestError::TrivialFactor);
    }
    match a.checked_mul(b) {
        Some(p) => Ok(p),
        None => Err(GuestError::Overflow),
    }
}

/// The journal a successful guest run commits for `(a, b)`, or the fault
/// that aborts the run.
pub open spec fn spec_guest_journal(a: u64, b: u64) -> Result<Seq<u8>, GuestError> {
    match spec_guest_multiply(a, b) {
        Ok(p) => Ok(spec_journal_bytes(p)),
        Err(e) => Err(e),
    }
}

/// The guest computation's designated entry function: reads the two
/// factors, validates and multiplies them, and commits the product as the
/// journal. Both reads happen before any validation, since the engine's
/// execution trace is built incrementally from reads.
pub fn guest_entry(a: u64, b: u64) -> (r: Result<Vec<u8>, GuestError>)
    ensures
        r matches Ok(j) ==> spec_guest_journal(a, b) == Ok::<Seq<u8>, GuestError>(j@) && j@.len()
            == spec_journal_len(),
        r matches Err(e) ==> spec_guest_journal(a, b) == Err::<Seq<u8>, GuestError>(e),
{
    let product = match guest_multiply(a, b) {
        Ok(p) => p,
        Err(e) => {
            return Err(e);
        },
    };
    Ok(encode_journal(product))
}

} // verus!
