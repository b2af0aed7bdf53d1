use jsonwebtoken::errors::Error;
use jsonwebtoken::Algorithm;
use jsonwebtoken::DecodingKey;
use jsonwebtoken::EncodingKey;
use vstd::prelude::*;

use crate::bindings::encoding::is_base64url_text;

verus! {

/// `jsonwebtoken::errors::Error`: why signing or verifying failed.
#[verifier::external_type_specification]
#[verifier::external_body]
pub struct ExSigningError(Error);

/// The HMAC-SHA256 tag of `message` under `secret`, in unpadded URL-safe
/// base64.
pub uninterp spec fn hs256_signature(message: Seq<u8>, secret: Seq<u8>) -> Seq<char>;

/// `jsonwebtoken::crypto::sign` with `Algorithm::HS256` and a key made by
/// `EncodingKey::from_secret`: for this algorithm the call always succeeds
/// and returns the tag of `message`, base64-encoded.
#[verifier::external_body]
pub(crate) fn sign_hs256(message: &[u8], secret: &[u8]) -> (signed: Result<String, Error>)
    ensures
        signed is Ok,
        signed matches Ok(signature) ==> signature@ == hs256_signature(message@, secret@),
        signed matches Ok(signature) ==> is_base64url_text(signature@),
{
    jsonwebtoken::crypto::sign(message, &EncodingKey::from_secret(secret), Algorithm::HS256)
}

/// `jsonwebtoken::crypto::verify` with `Algorithm::HS256` and a key made by
/// `DecodingKey::from_secret`: the call signs `message` again and reports
/// whether `signature` is that very text.
#[verifier::external_body]
pub(crate) fn verify_hs256(signature: &str, message: &[u8], secret: &[u8]) -> (verified: Result<
    bool,
    Error,
>)
    ensures
        verified is Ok,
        verified matches Ok(valid) ==> valid == (signature@ == hs256_signature(message@, secret@)),
{
    jsonwebtoken::crypto::verify(
        signature,
        message,
        &DecodingKey::from_secret(secret),
        Algorithm::HS256,
    )
}

} // verus!
