//! Turning a username and password into the id of a verified user.
//!
//! A password is always verified against some hash: the stored one where the
//! username is known, a fixed one where it is not. The outcome of the lookup
//! is looked at only after the verification, so that the work done does not
//! tell a known username from an unknown one.

use std::sync::Arc;
use uuid::Uuid;
use vstd::prelude::*;
use vstd::string::*;
use vstd::utf8::encode_utf8;

use crate::bindings::hashing::argon2_accepts;
use crate::bindings::hashing::argon2_verify;
use crate::bindings::hashing::is_phc_string;
use crate::bindings::hashing::parse_password_hash;
use crate::bindings::secrets::SecretString;
use crate::errors::AppError;
use crate::errors::AppErrorView;
use crate::errors::AuthError;
use crate::models::credentials::Credentials;
use crate::repositories::i_user_repository::IUserRespository;
use crate::repositories::i_user_repository::StoredCredentials;

verus! {

/// The hash that a password is verified against when the username is not
/// known. No password is meant to match it.
pub const DUMMY_PASSWORD_HASH: &'static str =
    "$argon2id$v=19$m=15000,t=2,p=1$gZiV/M1gPc22ElAH/Jh1Hw$CWOrkoo7oJBQ/iyh7uJ0LO2aLEfrHwTWllSAxT0zRno";

/// The message of the failure to read a stored hash.
pub const HASH_FAILURE: &'static str = "Failed to parse hash in PHC string format";

/// Why a password was not verified.
#[derive(Debug, Clone, Copy, PartialEq, Eq, Structural)]
pub enum VerificationError {
    /// The expected hash is not a hash in the PHC string format.
    MalformedHash,
    /// The password does not give the expected hash.
    Mismatch,
}

/// The result of verifying `candidate` against `expected_hash`.
pub open spec fn verification_of(candidate: Seq<char>, expected_hash: Seq<char>) -> Result<
    (),
    VerificationError,
> {
    if !is_phc_string(expected_hash) {
        Err(VerificationError::MalformedHash)
    } else if argon2_accepts(encode_utf8(candidate), expected_hash) {
        Ok(())
    } else {
        Err(VerificationError::Mismatch)
    }
}

/// The id that a lookup found, if any.
pub open spec fn found_id(stored: Option<(Uuid, SecretString)>) -> Option<Uuid> {
    match stored {
        Some((id, _)) => Some(id),
        None => None,
    }
}

/// The hash to verify against: the stored one, or the fixed one where the
/// username is not known.
pub open spec fn expected_hash(stored: Option<(Uuid, SecretString)>) -> Seq<char> {
    match stored {
        Some((_, hash)) => hash@,
        None => DUMMY_PASSWORD_HASH@,
    }
}

/// What a validation ends in once the password has been verified. An unknown
/// username is rejected whatever the verification said, and in the same way
/// as a wrong password.
pub open spec fn credential_outcome(
    user_id: Option<Uuid>,
    verification: Result<(), VerificationError>,
) -> Result<Uuid, AppErrorView> {
    match user_id {
        None => Err(AppErrorView::Auth(AuthError::InvalidCredentials)),
        Some(id) => match verification {
            Ok(_) => Ok(id),
            Err(VerificationError::Mismatch) => Err(
                AppErrorView::Auth(AuthError::InvalidCredentials),
            ),
            Err(VerificationError::MalformedHash) => Err(
                AppErrorView::UnexpectedError(HASH_FAILURE@),
            ),
        },
    }
}

/// What validating `password` ends in, given what the lookup of the username
/// returned.
pub open spec fn validation_of(lookup: StoredCredentials, password: Seq<char>) -> Result<
    Uuid,
    AppErrorView,
> {
    match lookup {
        Err(message) => Err(AppErrorView::UnexpectedError(message@)),
        Ok(stored) => credential_outcome(
            found_id(stored),
            verification_of(password, expected_hash(stored)),
        ),
    }
}

/// Whether `result` is what `expected` describes, an error compared by its view.
pub open spec fn is_outcome(result: Result<Uuid, AppError>, expected: Result<Uuid, AppErrorView>) -> bool {
    match (result, expected) {
        (Ok(a), Ok(b)) => a == b,
        (Err(e), Err(v)) => e@ == v,
        _ => false,
    }
}

/// What is to be verified for one login attempt: always exactly one hash,
/// beside the id that the lookup found, if any.
pub struct VerificationPlan {
    pub user_id: Option<Uuid>,
    pub expected_password_hash: SecretString,
}

/// Verifies a candidate password against an expected hash in the PHC string
/// format.
pub fn verify_password_hash(
    expected_password_hash: SecretString,
    password_candidate: SecretString,
) -> (verified: Result<(), VerificationError>)
    ensures
        verified == verification_of(password_candidate@, expected_password_hash@),
{
    let hash_text = expected_password_hash.expose();
    let parsed = match parse_password_hash(hash_text.as_str()) {
        Ok(parsed) => parsed,
        Err(_) => {
            return Err(VerificationError::MalformedHash);
        },
    };
    match argon2_verify(password_candidate.expose().as_str().as_bytes(), &parsed) {
        Ok(_) => Ok(()),
        Err(_) => Err(VerificationError::Mismatch),
    }
}

/// Decides what to verify after the lookup of a username: the stored hash
/// where there is one, the fixed hash where the username is not known. Only
/// a failure of the storage ends the attempt here.
pub fn plan_verification(lookup: StoredCredentials) -> (plan: Result<VerificationPlan, AppError>)
    ensures
        match lookup {
            Ok(stored) => plan matches Ok(p) && p.user_id == found_id(stored)
                && p.expected_password_hash@ == expected_hash(stored),
            Err(message) => plan matches Err(e) && e@ == AppErrorView::UnexpectedError(message@),
        },
{
    match lookup {
        Err(message) => Err(AppError::UnexpectedError(message)),
        Ok(Some((id, hash))) => Ok(VerificationPlan { user_id: Some(id), expected_password_hash: hash }),
        Ok(None) => Ok(
            VerificationPlan {
                user_id: None,
                expected_password_hash: SecretString::new(String::from_str(DUMMY_PASSWORD_HASH)),
            },
        ),
    }
}

/// Decides the result of a login attempt from the id that the lookup found
/// and the outcome of the verification.
pub fn conclude_validation(user_id: Option<Uuid>, verification: Result<(), VerificationError>) -> (result:
    Result<Uuid, AppError>)
    ensures
        is_outcome(result, credential_outcome(user_id, verification)),
{
    match user_id {
        None => Err(AppError::Auth(AuthError::InvalidCredentials)),
        Some(id) => match verification {
            Ok(_) => Ok(id),
            Err(VerificationError::Mismatch) => Err(AppError::Auth(AuthError::InvalidCredentials)),
            Err(VerificationError::MalformedHash) => Err(
                AppError::UnexpectedError(String::from_str(HASH_FAILURE)),
            ),
        },
    }
}

/// Validates credentials against what the lookup of their username returned.
pub fn validate_lookup(credentials: Credentials, lookup: StoredCredentials) -> (result: Result<
    Uuid,
    AppError,
>)
    ensures
        is_outcome(result, validation_of(lookup, credentials.password@)),
{
    let plan = match plan_verification(lookup) {
        Ok(plan) => plan,
        Err(e) => {
            return Err(e);
        },
    };
    let verification = verify_password_hash(plan.expected_password_hash, credentials.password);
    conclude_validation(plan.user_id, verification)
}

/// Validates credentials against a store: looks the username up and then
/// decides as [`validate_lookup`] does. Nothing is known of what the store
/// returns, so the result is stated for whatever it was.
pub fn validate_credentials(
    credentials: Credentials,
    user_repository: Arc<dyn IUserRespository>,
) -> (result:
    Result<Uuid, AppError>)
    ensures
        exists|lookup: StoredCredentials| #[trigger]
            is_outcome(result, validation_of(lookup, credentials.password@)),
{
    let lookup = user_repository.get_store_credentials(credentials.username.as_str());
    let ghost returned = lookup;
    let result = validate_lookup(credentials, lookup);
    assert(is_outcome(result, validation_of(returned, credentials.password@)));
    result
}

/// An unknown username is rejected as invalid credentials, whatever the
/// password and whatever its verification against the fixed hash gave.
pub proof fn lemma_unknown_username_rejected(password: Seq<char>)
    ensures
        validation_of(Ok(None), password) == Err::<Uuid, AppErrorView>(
            AppErrorView::Auth(AuthError::InvalidCredentials),
        ),
{
}

/// A known username with a password that its stored hash does not accept is
/// rejected as invalid credentials: the very error of an unknown username.
/// The stored hash has to be a hash in the PHC string format.
pub proof fn lemma_wrong_password_rejected(id: Uuid, hash: SecretString, password: Seq<char>)
    requires
        is_phc_string(hash@),
        !argon2_accepts(encode_utf8(password), hash@),
    ensures
        validation_of(Ok(Some((id, hash))), password) == Err::<Uuid, AppErrorView>(
            AppErrorView::Auth(AuthError::InvalidCredentials),
        ),
        validation_of(Ok(Some((id, hash))), password) == validation_of(Ok(None), password),
{
}

} // verus!
