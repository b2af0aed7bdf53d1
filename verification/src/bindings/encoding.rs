use base64::engine::general_purpose::URL_SAFE_NO_PAD;
use base64::Engine;
use vstd::prelude::*;

verus! {

/// The characters of the URL-safe base64 alphabet.
pub open spec fn is_base64url_char(c: char) -> bool {
    ||| 'A' <= c <= 'Z'
    ||| 'a' <= c <= 'z'
    ||| '0' <= c <= '9'
    ||| c == '-'
    ||| c == '_'
}

/// Whether a text is written in the URL-safe base64 alphabet alone.
pub open spec fn is_base64url_text(text: Seq<char>) -> bool {
    forall|i: int| 0 <= i < text.len() ==> is_base64url_char(#[trigger] text[i])
}

/// The unpadded URL-safe base64 encoding of `data`.
pub uninterp spec fn base64url(data: Seq<u8>) -> Seq<char>;

/// The bytes that `text` stands for in unpadded URL-safe base64, if any.
pub uninterp spec fn base64url_decoded(text: Seq<char>) -> Option<Seq<u8>>;

/// The longest input whose encoded length still fits in `usize`.
pub open spec fn max_encodable_len() -> int {
    usize::MAX / 4 * 3
}

/// `Engine::encode` on `URL_SAFE_NO_PAD`: the encoding of `data`, which uses
/// the URL-safe alphabet alone and decodes to `data` again. The call panics
/// when the encoded length overflows `usize`, which the precondition rules out.
#[verifier::external_body]
pub(crate) fn base64url_encode(data: &[u8]) -> (text: String)
    requires
        data@.len() <= max_encodable_len(),
    ensures
        text@ == base64url(data@),
        is_base64url_text(text@),
        base64url_decoded(text@) == Some(data@),
{
    URL_SAFE_NO_PAD.encode(data)
}

/// `Engine::decode` on `URL_SAFE_NO_PAD`: the bytes that `text` encodes, or
/// `None` where the engine rejects the text.
#[verifier::external_body]
pub(crate) fn base64url_decode(text: &str) -> (data: Option<Vec<u8>>)
    ensures
        match data {
            Some(bytes) => base64url_decoded(text@) == Some(bytes@),
            None => base64url_decoded(text@) is None,
        },
{
    URL_SAFE_NO_PAD.decode(text).ok()
}

} // verus!
