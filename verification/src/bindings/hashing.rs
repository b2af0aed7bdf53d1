use argon2::password_hash::Error;
use argon2::Argon2;
use argon2::PasswordHash;
use argon2::PasswordVerifier;
use vstd::prelude::*;

verus! {

/// `password_hash::PasswordHash`: a password hash parsed from a PHC string,
/// borrowing from that string.
#[verifier::external_type_specification]
#[verifier::external_body]
pub struct ExPasswordHash<'a>(PasswordHash<'a>);

/// `password_hash::Error`: why parsing or verifying a password hash failed.
#[verifier::external_type_specification]
#[verifier::external_body]
pub struct ExPasswordHashError(Error);

/// Whether `text` parses as a password hash in the PHC string format.
pub uninterp spec fn is_phc_string(text: Seq<char>) -> bool;

/// The PHC string that a parsed password hash was read from.
pub uninterp spec fn phc_text(hash: PasswordHash<'_>) -> Seq<char>;

/// Whether Argon2, run on `password` with the algorithm, version, parameters
/// and salt that the PHC string `hash` names, yields the output in `hash`.
pub uninterp spec fn argon2_accepts(password: Seq<u8>, hash: Seq<char>) -> bool;

/// `PasswordHash::new`: parses a PHC string. Whether it succeeds depends on
/// the text alone; the parsed hash stands for the text it was read from.
#[verifier::external_body]
pub(crate) fn parse_password_hash<'a>(text: &'a str) -> (parsed: Result<PasswordHash<'a>, Error>)
    ensures
        parsed is Ok <==> is_phc_string(text@),
        parsed matches Ok(hash) ==> phc_text(hash) == text@,
{
    PasswordHash::new(text)
}

/// `<Argon2 as PasswordVerifier>::verify_password` on `Argon2::default()`:
/// recomputes the hash of `password` under what `hash` names and compares.
/// It returns `Ok` exactly when the two outputs agree, and an error for a
/// mismatch as for a hash that Argon2 cannot recompute. The call takes the
/// time and the memory that the hash names.
#[verifier::external_body]
pub(crate) fn argon2_verify(password: &[u8], hash: &PasswordHash<'_>) -> (outcome: Result<(), Error>)
    ensures
        outcome is Ok <==> argon2_accepts(password@, phc_text(*hash)),
{
    Argon2::default().verify_password(password, hash)
}

} // verus!
