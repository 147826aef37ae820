//! Text that carries bytes: Base64 in requests, program output in responses.

use vstd::prelude::*;
use vstd::utf8::{decode_utf8, valid_utf8};

verus! {

/// The bytes that `s` carries in standard padded Base64, or the decoder's
/// complaint, as `base64::engine::general_purpose::STANDARD` decodes it.
pub uninterp spec fn base64_decoded(s: Seq<char>) -> Result<Seq<u8>, Seq<char>>;

/// `decode` of `base64::engine::general_purpose::STANDARD` on the text's bytes,
/// the error given as its `Display` text. Both depend on the text alone.
#[verifier::external_body]
pub(crate) fn decode_base64(s: &str) -> (r: Result<Vec<u8>, String>)
    ensures
        match r {
            Ok(bytes) => base64_decoded(s@) == Ok::<Seq<u8>, Seq<char>>(bytes@),
            Err(e) => base64_decoded(s@) == Err::<Seq<u8>, Seq<char>>(e@),
        },
{
    base64::Engine::decode(&base64::engine::general_purpose::STANDARD, s.as_bytes())
        .map_err(|e| e.to_string())
}

/// `bytes` as text, with a replacement character for each piece that is not
/// UTF-8, as `String::from_utf8_lossy` replaces them.
pub uninterp spec fn utf8_lossy(bytes: Seq<u8>) -> Seq<char>;

/// `String::from_utf8_lossy`: the text depends on the bytes alone, and is what
/// the bytes encode where they are UTF-8.
#[verifier::external_body]
pub(crate) fn lossy_text(bytes: &[u8]) -> (r: String)
    ensures
        r@ == utf8_lossy(bytes@),
        valid_utf8(bytes@) ==> r@ == decode_utf8(bytes@),
{
    String::from_utf8_lossy(bytes).into_owned()
}

} // verus!
