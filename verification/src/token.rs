//! The session token: three segments joined by dots. The first is a fixed
//! header that names HMAC-SHA256, the second the payload in URL-safe base64,
//! the third the signature over the first two.

use vstd::prelude::*;
use vstd::string::*;
use vstd::utf8::*;

use crate::bindings::encoding::base64url;
use crate::bindings::encoding::base64url_decode;
use crate::bindings::encoding::base64url_decoded;
use crate::bindings::encoding::base64url_encode;
use crate::bindings::encoding::is_base64url_text;
use crate::bindings::encoding::max_encodable_len;
use crate::bindings::signing::hs256_signature;
use crate::bindings::signing::sign_hs256;
use crate::bindings::signing::verify_hs256;
use crate::errors::AppError;
use crate::errors::AppErrorView;
use crate::errors::AuthError;

verus! {

/// The header segment of every token: `{"typ":"JWT","alg":"HS256"}` in
/// URL-safe base64.
pub const TOKEN_HEADER: &'static str = "eyJ0eXAiOiJKV1QiLCJhbGciOiJIUzI1NiJ9";

/// The message of the failure to issue a token.
pub const ENCODE_FAILURE: &'static str = "Failed to encode a json web token";

/// The header segment as a text.
pub open spec fn token_header() -> Seq<char> {
    TOKEN_HEADER@
}

/// A single dot, the separator of segments.
pub open spec fn dot() -> Seq<char> {
    seq!['.']
}

/// The pieces of a text that lie between its dots, in order. A text without
/// a dot is one piece; every dot starts another, which may be empty.
pub open spec fn segments(text: Seq<char>) -> Seq<Seq<char>>
    decreases text.len(),
{
    if text.len() == 0 {
        seq![Seq::<char>::empty()]
    } else {
        let before = segments(text.drop_last());
        if text.last() == '.' {
            before.push(Seq::<char>::empty())
        } else {
            before.drop_last().push(before.last().push(text.last()))
        }
    }
}

/// What is signed: the header, a dot, and the payload's encoding.
pub open spec fn signing_input(payload: Seq<u8>) -> Seq<char> {
    token_header() + dot() + base64url(payload)
}

/// The token that carries `payload` under `secret`.
pub open spec fn token_for(payload: Seq<u8>, secret: Seq<u8>) -> Seq<char> {
    signing_input(payload) + dot() + hs256_signature(encode_utf8(signing_input(payload)), secret)
}

/// The payload that `token` carries under `secret`, if the token is
/// acceptable: ASCII, of exactly three segments, the first the fixed header,
/// the third the signature of the first two, the second valid base64.
pub open spec fn token_payload(token: Seq<char>, secret: Seq<u8>) -> Option<Seq<u8>> {
    let parts = segments(token);
    if is_ascii_chars(token) && parts.len() == 3 && parts[0] == token_header() && parts[2]
        == hs256_signature(encode_utf8(parts[0] + dot() + parts[1]), secret) {
        base64url_decoded(parts[1])
    } else {
        None
    }
}

/// A text without a dot is its own single segment.
proof fn lemma_segments_of_dotless(text: Seq<char>)
    requires
        !text.contains('.'),
    ensures
        segments(text) == seq![text],
    decreases text.len(),
{
    if text.len() == 0 {
        assert(text == Seq::<char>::empty());
    } else {
        let shorter = text.drop_last();
        assert forall|i: int| 0 <= i < shorter.len() implies shorter[i] != '.' by {
            assert(text.contains(text[i]));
        }
        lemma_segments_of_dotless(shorter);
        assert(text.contains(text.last()));
        assert(shorter.push(text.last()) == text);
        assert(seq![shorter].drop_last().push(shorter.push(text.last())) == seq![text]);
    }
}

/// Appending a dot and a text without dots appends that text as a segment.
proof fn lemma_segments_append(front: Seq<char>, piece: Seq<char>)
    requires
        !piece.contains('.'),
    ensures
        segments(front + dot() + piece) == segments(front).push(piece),
    decreases piece.len(),
{
    let text = front + dot() + piece;
    if piece.len() == 0 {
        assert(text.drop_last() == front);
        assert(piece == Seq::<char>::empty());
    } else {
        let shorter = piece.drop_last();
        assert forall|i: int| 0 <= i < shorter.len() implies shorter[i] != '.' by {
            assert(piece.contains(piece[i]));
        }
        lemma_segments_append(front, shorter);
        assert(text.drop_last() == front + dot() + shorter);
        assert(piece.contains(piece.last()));
        assert(text.last() == piece.last());
        assert(shorter.push(piece.last()) == piece);
        let before = segments(front).push(shorter);
        assert(before.drop_last() == segments(front));
        assert(before.last() == shorter);
    }
}

/// A text in the base64 alphabet is ASCII and holds no dot.
proof fn lemma_base64url_text(text: Seq<char>)
    requires
        is_base64url_text(text),
    ensures
        is_ascii_chars(text),
        !text.contains('.'),
{
    assert forall|i: int| 0 <= i < text.len() implies '\0' <= #[trigger] text[i] <= '\u{7f}' by {
        assert(crate::bindings::encoding::is_base64url_char(text[i]));
    }
    if text.contains('.') {
        let i = choose|i: int| 0 <= i < text.len() && text[i] == '.';
        assert(crate::bindings::encoding::is_base64url_char(text[i]));
    }
}

/// The fixed header is in the base64 alphabet.
proof fn lemma_header_text()
    ensures
        is_base64url_text(token_header()),
{
    reveal_strlit("eyJ0eXAiOiJKV1QiLCJhbGciOiJIUzI1NiJ9");
}

/// The header, a body and a signature, joined by dots, split into exactly
/// those three segments again, provided body and signature hold no dot.
pub proof fn lemma_framed_segments(body: Seq<char>, signature: Seq<char>)
    requires
        !body.contains('.'),
        !signature.contains('.'),
    ensures
        segments(token_header() + dot() + body + dot() + signature) == seq![
            token_header(),
            body,
            signature,
        ],
{
    lemma_header_text();
    lemma_base64url_text(token_header());
    lemma_segments_of_dotless(token_header());
    lemma_segments_append(token_header(), body);
    lemma_segments_append(token_header() + dot() + body, signature);
}

/// The token for a payload decodes to that payload, given what the encoder
/// and the signer promise of their results.
proof fn lemma_issued_token_decodes(payload: Seq<u8>, secret: Seq<u8>)
    requires
        is_base64url_text(base64url(payload)),
        base64url_decoded(base64url(payload)) == Some(payload),
        is_base64url_text(hs256_signature(encode_utf8(signing_input(payload)), secret)),
    ensures
        token_payload(token_for(payload, secret), secret) == Some(payload),
{
    let body = base64url(payload);
    let signature = hs256_signature(encode_utf8(signing_input(payload)), secret);
    let token = token_for(payload, secret);
    lemma_header_text();
    lemma_base64url_text(token_header());
    lemma_base64url_text(body);
    lemma_base64url_text(signature);
    lemma_framed_segments(body, signature);
    assert(is_ascii_chars(token)) by {
        assert forall|i: int| 0 <= i < token.len() implies '\0' <= #[trigger] token[i]
            <= '\u{7f}' by {
            let h = token_header().len() as int;
            let b = body.len() as int;
            if i < h {
                assert(token[i] == token_header()[i]);
            } else if i == h {
            } else if i < h + 1 + b {
                assert(token[i] == body[i - h - 1]);
            } else if i == h + 1 + b {
            } else {
                assert(token[i] == signature[i - h - b - 2]);
            }
        }
    }
}

/// Issues the token that carries `payload`, signed with `secret`. It fails
/// only for a payload too long to encode; every token it issues decodes to
/// the payload again under the same secret.
pub fn issue_token(payload: &[u8], secret: &[u8]) -> (issued: Result<String, AppError>)
    ensures
        payload@.len() <= max_encodable_len() ==> issued is Ok,
        issued matches Ok(token) ==> token@ == token_for(payload@, secret@),
        issued matches Ok(token) ==> token_payload(token@, secret@) == Some(payload@),
        issued matches Err(e) ==> e@ == AppErrorView::UnexpectedError(ENCODE_FAILURE@),
{
    if payload.len() > usize::MAX / 4 * 3 {
        return Err(AppError::UnexpectedError(String::from_str(ENCODE_FAILURE)));
    }
    proof {
        reveal_strlit(".");
        lemma_header_text();
    }
    let body = base64url_encode(payload);
    let mut message = String::from_str(TOKEN_HEADER);
    message.append(".");
    message.append(body.as_str());
    assert(message@ == signing_input(payload@));
    match sign_hs256(message.as_str().as_bytes(), secret) {
        Ok(signature) => {
            let mut token = message;
            token.append(".");
            token.append(signature.as_str());
            proof {
                assert(token@ == token_for(payload@, secret@));
                lemma_issued_token_decodes(payload@, secret@);
            }
            Ok(token)
        },
        Err(_) => Err(AppError::UnexpectedError(String::from_str(ENCODE_FAILURE))),
    }
}

/// Whether two texts are the same.
fn same_text(a: &str, b: &str) -> (same: bool)
    ensures
        same == (a@ == b@),
{
    a.to_owned() == b.to_owned()
}

/// Reads the payload out of `token` after checking its shape, header and
/// signature under `secret`. Every defect gives the same error.
pub fn decode_token(token: &str, secret: &[u8]) -> (decoded: Result<Vec<u8>, AuthError>)
    ensures
        match token_payload(token@, secret@) {
            Some(payload) => decoded matches Ok(bytes) && bytes@ == payload,
            None => decoded == Err::<Vec<u8>, AuthError>(AuthError::InvalidCredentials),
        },
{
    if !token.is_ascii() {
        return Err(AuthError::InvalidCredentials);
    }
    let n: usize = token.unicode_len();
    let mut dots: usize = 0;
    let mut first: usize = 0;
    let mut second: usize = 0;
    let mut start: usize = 0;
    let mut i: usize = 0;
    assert(token@.take(0) == Seq::<char>::empty());
    assert(token@.subrange(0, 0) == Seq::<char>::empty());
    while i < n
        invariant
            i <= n,
            n == token@.len(),
            is_ascii(token),
            dots <= i,
            start <= i,
            segments(token@.take(i as int)).len() == dots + 1,
            segments(token@.take(i as int)).last() == token@.subrange(start as int, i as int),
            dots >= 1 ==> first < i && token@[first as int] == '.' && segments(
                token@.take(i as int),
            )[0] == token@.subrange(0, first as int),
            dots >= 2 ==> first < second < i && token@[second as int] == '.' && segments(
                token@.take(i as int),
            )[1] == token@.subrange(first + 1, second as int),
            dots == 0 ==> start == 0,
            dots == 1 ==> start == first + 1,
            dots == 2 ==> start == second + 1,
        decreases n - i,
    {
        let byte: u8 = token.get_ascii(i);
        proof {
            let shorter = token@.take(i as int);
            let longer = token@.take(i + 1);
            assert(longer.drop_last() == shorter);
            assert(longer.last() == token@[i as int]);
            assert(token@.subrange(start as int, i as int).push(token@[i as int])
                == token@.subrange(start as int, i + 1));
            assert(token@.subrange(i + 1, i + 1) == Seq::<char>::empty());
            assert('\0' <= token@[i as int] <= '\u{7f}');
            assert((byte == 46u8) == (token@[i as int] == '.'));
        }
        if byte == 46u8 {
            if dots == 0 {
                first = i;
            } else if dots == 1 {
                second = i;
            }
            dots = dots + 1;
            start = i + 1;
        }
        i = i + 1;
    }
    assert(token@.take(n as int) == token@);
    if dots != 2 {
        return Err(AuthError::InvalidCredentials);
    }
    let header = token.substring_ascii(0, first);
    let body = token.substring_ascii(first + 1, second);
    let signature = token.substring_ascii(second + 1, n);
    let message = token.substring_ascii(0, second);
    proof {
        reveal_strlit(".");
        lemma_header_text();
        assert(message@ == header@ + dot() + body@);
    }
    if !same_text(header, TOKEN_HEADER) {
        return Err(AuthError::InvalidCredentials);
    }
    match verify_hs256(signature, message.as_bytes(), secret) {
        Ok(true) => {},
        _ => {
            return Err(AuthError::InvalidCredentials);
        },
    }
    match base64url_decode(body) {
        Some(bytes) => Ok(bytes),
        None => Err(AuthError::InvalidCredentials),
    }
}

} // verus!
