//! The transport-safe text encoding of raw image bytes, an outside
//! collaborator treated as an opaque byte-to-text encoder.

use vstd::prelude::*;

verus! {

/// The text that the standard padded base64 encoding produces for the
/// given bytes: a function of the bytes alone, named rather than spelled
/// out.
pub uninterp spec fn base64_of(bytes: Seq<u8>) -> Seq<char>;

/// Relies on base64's `Engine::encode` with the padded `STANDARD` engine:
/// the output depends on the input bytes alone and is four characters for
/// every three input bytes, rounded up to whole four-character blocks.
/// `encode` panics only when that output length overflows `usize`, which
/// the precondition rules out.
#[verifier::external_body]
pub(crate) fn base64_encode(bytes: &Vec<u8>) -> (r: String)
    requires
        4 * ((bytes@.len() + 2) / 3) <= usize::MAX,
    ensures
        r@ == base64_of(bytes@),
        r@.len() == 4 * ((bytes@.len() + 2) / 3),
{
    base64::Engine::encode(&base64::engine::general_purpose::STANDARD, bytes)
}

} // verus!
