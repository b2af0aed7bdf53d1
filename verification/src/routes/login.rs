//! What a login issues: the claims of a session token.

use uuid::Uuid;
use vstd::prelude::*;
use vstd::string::StringExecFns;

use crate::bindings::clock::current_timestamp;
use crate::bindings::ids::uuid_text;
use crate::bindings::ids::uuid_to_string;
use crate::errors::AppError;
use crate::errors::AppErrorView;
use crate::models::login::Claims;
use crate::models::login::ClaimsView;
use crate::token::ENCODE_FAILURE;

verus! {

/// How long a session lasts: fifteen days, in seconds.
pub const SESSION_TTL: usize = 1_296_000;

/// The claims issued at `issued_at` for `ttl` seconds.
pub open spec fn issued_claims(
    subject: Seq<char>,
    roles: Seq<Seq<char>>,
    permissions: Seq<Seq<char>>,
    issued_at: nat,
    ttl: nat,
) -> ClaimsView {
    ClaimsView { sub: subject, exp: issued_at + ttl, permissions, roles }
}

/// The time of a timestamp as the claims count it: seconds since the epoch,
/// a time before the epoch counted as the epoch itself and one beyond the
/// range of `usize` as its largest value.
pub open spec fn seconds_of(timestamp: i64) -> nat {
    if timestamp < 0 {
        0
    } else if timestamp > usize::MAX {
        usize::MAX as nat
    } else {
        timestamp as nat
    }
}

/// Converts a timestamp to the seconds that claims count in.
pub fn unix_seconds(timestamp: i64) -> (seconds: usize)
    ensures
        seconds == seconds_of(timestamp),
{
    if timestamp < 0 {
        0
    } else if timestamp as u64 > usize::MAX as u64 {
        usize::MAX
    } else {
        timestamp as usize
    }
}

/// Builds the claims of a token issued at `issued_at` that expires `ttl`
/// seconds later. There are none if that time cannot be represented.
pub fn issue_claims(
    subject: String,
    roles: Vec<String>,
    permissions: Vec<String>,
    issued_at: usize,
    ttl: usize,
) -> (claims: Option<Claims>)
    ensures
        claims is Some <==> issued_at + ttl <= usize::MAX,
        claims matches Some(c) ==> c@ == issued_claims(
            subject@,
            roles.deep_view(),
            permissions.deep_view(),
            issued_at as nat,
            ttl as nat,
        ),
{
    match issued_at.checked_add(ttl) {
        Some(exp) => Some(Claims { sub: subject, exp, permissions, roles }),
        None => None,
    }
}

/// The claims that a login at `issued_at` gives the user `user_id`: the
/// id's text as subject, no role, no permission, and a session's lifetime.
pub fn login_claims(user_id: &Uuid, issued_at: usize) -> (claims: Option<Claims>)
    ensures
        claims is Some <==> issued_at + SESSION_TTL <= usize::MAX,
        claims matches Some(c) ==> c@ == issued_claims(
            uuid_text(*user_id),
            Seq::empty(),
            Seq::empty(),
            issued_at as nat,
            SESSION_TTL as nat,
        ),
{
    let roles: Vec<String> = Vec::new();
    let permissions: Vec<String> = Vec::new();
    assert(roles.deep_view() == Seq::<Seq<char>>::empty());
    assert(permissions.deep_view() == Seq::<Seq<char>>::empty());
    issue_claims(uuid_to_string(user_id), roles, permissions, issued_at, SESSION_TTL)
}

/// The claims that a login at this moment gives the user `user_id`. The
/// moment is read from the system clock, so the claims are stated for
/// whatever time it showed; there are none, and the login fails, only if
/// their expiry cannot be represented.
pub fn login_claims_now(user_id: &Uuid) -> (claims: Result<Claims, AppError>)
    ensures
        claims matches Ok(c) ==> exists|issued_at: nat| #[trigger]
            issued_claims(uuid_text(*user_id), Seq::empty(), Seq::empty(), issued_at, SESSION_TTL as nat)
                == c@,
        claims matches Err(e) ==> e@ == AppErrorView::UnexpectedError(ENCODE_FAILURE@),
{
    let issued_at = unix_seconds(current_timestamp());
    match login_claims(user_id, issued_at) {
        Some(c) => {
            assert(issued_claims(
                uuid_text(*user_id),
                Seq::empty(),
                Seq::empty(),
                issued_at as nat,
                SESSION_TTL as nat,
            ) == c@);
            Ok(c)
        },
        None => Err(AppError::UnexpectedError(String::from_str(ENCODE_FAILURE))),
    }
}

} // verus!
