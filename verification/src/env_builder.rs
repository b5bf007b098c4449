//! Host-side construction of the guest's private input sequence.
//!
//! The proving engine consumes inputs as an ordered, immutable sequence of
//! 32-bit words. Each 64-bit factor is encoded as its low word followed by
//! its high word, and factor A's words precede factor B's, matching the
//! guest's read order exactly.

use vstd::prelude::*;

verus! {

/// The low 32-bit word of a 64-bit value.
pub open spec fn spec_lo_word(v: u64) -> u32 {
    (v & 0xFFFF_FFFF) as u32
}

/// The high 32-bit word of a 64-bit value.
pub open spec fn spec_hi_word(v: u64) -> u32 {
    (v >> 32) as u32
}

/// The exact word sequence the guest reads for factors `a` and `b`:
/// `a`'s words first, each factor as low word then high word.
pub open spec fn spec_input_words(a: u64, b: u64) -> Seq<u32> {
    seq![spec_lo_word(a), spec_hi_word(a), spec_lo_word(b), spec_hi_word(b)]
}

/// An immutable private input sequence, ready to be handed to the engine.
pub struct InputSequence {
    words: Vec<u32>,
}

impl View for InputSequence {
    type V = Seq<u32>;

    closed spec fn view(&self) -> Seq<u32> {
        self.words@
    }
}

impl InputSequence {
    /// The encoded words, in the order the guest reads them.
    pub fn words(&self) -> (r: &Vec<u32>)
        ensures
            r@ == self@,
    {
        &self.words
    }
}

/// Splits a 64-bit value into its low and high 32-bit words.
fn split_words(v: u64) -> (r: (u32, u32))
    ensures
        r.0 == spec_lo_word(v),
        r.1 == spec_hi_word(v),
{
    proof {
        assert(v & 0xFFFF_FFFF < 0x1_0000_0000) by (bit_vector);
        assert(v >> 32 < 0x1_0000_0000) by (bit_vector);
    }
    ((v & 0xFFFF_FFFF) as u32, (v >> 32) as u32)
}

/// Builds the private input sequence for one proving run: factor `a` is
/// written before factor `b`, each as its low word then its high word.
pub fn create_execution_env(a: u64, b: u64) -> (r: InputSequence)
    ensures
        r@ == spec_input_words(a, b),
{
    let (a_lo, a_hi) = split_words(a);
    let (b_lo, b_hi) = split_words(b);
    let mut words: Vec<u32> = Vec::new();
    words.push(a_lo);
    words.push(a_hi);
    words.push(b_lo);
    words.push(b_hi);
    proof {
        assert(words@ =~= spec_input_words(a, b));
    }
    InputSequence { words }
}

} // verus!
