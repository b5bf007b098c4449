//! Serialization of one proving run's receipt into a transportable artifact.
//!
//! A receipt couples an opaque proof byte string with the journal the guest
//! committed. The serializer renders three independent `0x`-prefixed
//! lowercase hex fields — `proof`, `outputs` and `image_id` — so a
//! downstream verifier can reconstruct the (proof, public output, program
//! identity) triple without re-running the guest. Each 32-bit image-id word
//! is byte-order-normalized (laid out as its little-endian bytes) before
//! hex rendering, which downstream verifiers match on exactly.

use crate::hexstr::{spec_hex_field, hex_field};
use crate::journal::{spec_decode_journal, decode_journal, DecodeError};
use vstd::bytes::{spec_u32_to_le_bytes, u32_to_le_bytes};
use vstd::prelude::*;

verus! {

/// The proof artifact of one proving run, as it comes back from the engine:
/// the serialized bytes of the opaque proof component, and the journal
/// bytes the guest committed as public output.
pub struct Receipt {
    /// Serialized proof component; never inspected, only re-encoded.
    pub proof: Vec<u8>,
    /// The committed public-output bytes.
    pub journal: Vec<u8>,
}

/// The number of 32-bit words in an image id.
pub open spec fn spec_image_id_words() -> int {
    8
}

/// The deterministic identifier of the guest program image: a fixed-size
/// array of 32-bit words.
pub struct ImageId {
    words: Vec<u32>,
}

impl View for ImageId {
    type V = Seq<u32>;

    closed spec fn view(&self) -> Seq<u32> {
        self.words@
    }
}

impl ImageId {
    /// A well-formed image id holds exactly its fixed number of words.
    pub open spec fn wf(&self) -> bool {
        self@.len() == spec_image_id_words()
    }

    /// Wraps the digest words of a guest program image; fails on any other
    /// word count.
    pub fn new(words: Vec<u32>) -> (r: Option<ImageId>)
        ensures
            r is Some <==> words@.len() == spec_image_id_words(),
            r is Some ==> r->0@ == words@ && r->0.wf(),
    {
        if words.len() == 8 {
            Some(ImageId { words })
        } else {
            None
        }
    }

    /// The identifier's words in order.
    pub fn words(&self) -> (r: &Vec<u32>)
        ensures
            r@ == self@,
    {
        &self.words
    }
}

/// The byte-order normalization applied to image-id words before hex
/// rendering: each word laid out as its little-endian bytes, words in order.
pub open spec fn spec_words_le_bytes(words: Seq<u32>) -> Seq<u8>
    decreases words.len(),
{
    if words.len() == 0 {
        Seq::empty()
    } else {
        spec_words_le_bytes(words.drop_last()) + spec_u32_to_le_bytes(words.last())
    }
}

/// Lays image-id words out as bytes, each word in little-endian byte order.
pub fn words_le_bytes(words: &Vec<u32>) -> (r: Vec<u8>)
    ensures
        r@ == spec_words_le_bytes(words@),
        r@.len() == 4 * words@.len(),
{
    let mut out: Vec<u8> = Vec::new();
    let mut i: usize = 0;
    while i < words.len()
        invariant
            i <= words@.len(),
            out@ == spec_words_le_bytes(words@.take(i as int)),
            out@.len() == 4 * i,
        decreases words@.len() - i,
    {
        let mut word_bytes = u32_to_le_bytes(words[i]);
        out.append(&mut word_bytes);
        proof {
            assert(words@.take(i + 1).drop_last() =~= words@.take(i as int));
            assert(words@.take(i + 1).last() == words@[i as int]);
        }
        i = i + 1;
    }
    proof {
        assert(words@.take(words@.len() as int) =~= words@);
    }
    out
}

/// The serialized artifact: three independent `0x`-prefixed lowercase hex
/// fields, assembled into one structured record for a downstream verifier.
pub struct ProofArtifact {
    /// Hex rendering of the serialized proof component.
    pub proof: String,
    /// Hex rendering of the committed journal bytes.
    pub outputs: String,
    /// Fixed-width hex rendering of the byte-order-normalized image id.
    pub image_id: String,
}

/// The `image_id` field for a given word sequence.
pub open spec fn spec_image_id_field(words: Seq<u32>) -> Seq<char> {
    spec_hex_field(spec_words_le_bytes(words))
}

/// The three artifact fields — `proof`, `outputs`, `image_id` — that one
/// run's proof bytes, journal bytes and image-id words serialize to.
pub open spec fn spec_artifact_fields(proof: Seq<u8>, journal: Seq<u8>, image: Seq<u32>) -> (
    Seq<char>,
    Seq<char>,
    Seq<char>,
) {
    (spec_hex_field(proof), spec_hex_field(journal), spec_image_id_field(image))
}

/// Extracts the three transportable fields of a receipt: the proof bytes
/// and journal bytes each as a `0x`-prefixed lowercase hex string, and the
/// expected image id as a fixed-width hex digest of its normalized words.
pub fn extract_serialized_data(receipt: &Receipt, image_id: &ImageId) -> (r: ProofArtifact)
    requires
        image_id.wf(),
    ensures
        r.proof@ == spec_hex_field(receipt.proof@),
        r.outputs@ == spec_hex_field(receipt.journal@),
        r.image_id@ == spec_image_id_field(image_id@),
        r.image_id@.len() == 66,
{
    let proof = hex_field(&receipt.proof);
    let outputs = hex_field(&receipt.journal);
    let id_bytes = words_le_bytes(image_id.words());
    let image_id_field = hex_field(&id_bytes);
    ProofArtifact { proof, outputs, image_id: image_id_field }
}

/// Decodes a receipt's committed public output as a single 64-bit value.
pub fn decode_output(receipt: &Receipt) -> (r: Result<u64, DecodeError>)
    ensures
        r == spec_decode_journal(receipt.journal@),
{
    decode_journal(&receipt.journal)
}

} // verus!
