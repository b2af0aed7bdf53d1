//! The decisions taken on every request to a protected route, each failing
//! closed: the token is read from the header and checked, its claims must
//! not have expired, and they must satisfy what the route requires.

use std::sync::Arc;
use vstd::prelude::*;

use crate::bindings::clock::current_timestamp;
use crate::errors::AuthError;
use crate::models::login::AuthenticatedUser;
use crate::models::login::Claims;
use crate::models::login::ClaimsView;
use crate::models::permission::Permission;
use crate::models::permission::PermissionView;
use crate::routes::login::issued_claims;
use crate::routes::login::unix_seconds;
use crate::token::decode_token;
use crate::token::token_payload;

verus! {

/// Whether a claim set satisfies a required permission: a role must be among
/// the claimed roles, every individual permission must be among the claimed
/// permissions, and the empty requirement is always met.
pub open spec fn permission_granted(claims: ClaimsView, required: PermissionView) -> bool {
    match required {
        PermissionView::Role(role) => claims.roles.contains(role),
        PermissionView::IndividualPermission(permissions) => forall|p: Seq<char>|
            permissions.contains(p) ==> #[trigger] claims.permissions.contains(p),
        PermissionView::Empty => true,
    }
}

/// Whether `item` occurs in `list`.
fn contains_string(list: &Vec<String>, item: &String) -> (found: bool)
    ensures
        found == list.deep_view().contains(item@),
{
    let mut i: usize = 0;
    while i < list.len()
        invariant
            i <= list.len(),
            forall|k: int| 0 <= k < i ==> list.deep_view()[k] != item@,
        decreases list.len() - i,
    {
        if list[i] == *item {
            assert(list.deep_view()[i as int] == item@);
            return true;
        }
        i += 1;
    }
    false
}

/// Decides whether `claims` satisfy `require_permission`.
pub fn validate_permissions(claims: &Claims, require_permission: Arc<Permission>) -> (granted: bool)
    ensures
        granted == permission_granted(claims@, require_permission@),
{
    match &*require_permission {
        Permission::Role(require_role) => contains_string(&claims.roles, require_role),
        Permission::IndividualPermission(permissions) => {
            let mut j: usize = 0;
            while j < permissions.len()
                invariant
                    j <= permissions.len(),
                    require_permission@ == PermissionView::IndividualPermission(
                        permissions.deep_view(),
                    ),
                    forall|k: int|
                        0 <= k < j ==> claims.permissions.deep_view().contains(
                            #[trigger] permissions.deep_view()[k],
                        ),
                decreases permissions.len() - j,
            {
                assert(permissions.deep_view()[j as int] == permissions[j as int]@);
                if !contains_string(&claims.permissions, &permissions[j]) {
                    assert(permissions.deep_view().contains(permissions[j as int]@));
                    assert(!claims@.permissions.contains(permissions[j as int]@));
                    return false;
                }
                j += 1;
            }
            true
        },
        Permission::Empty => true,
    }
}

/// The payload carried by the token in the authorization header, if there
/// is a header and its value is an acceptable token under `secret`.
pub open spec fn header_payload(auth_header: Option<&str>, secret: Seq<u8>) -> Option<Seq<u8>> {
    match auth_header {
        Some(token) => token_payload(token@, secret),
        None => None,
    }
}

/// What a request is granted once its token has been read: the subject of
/// the claims, or the first check that failed. Claims that could not be
/// read are invalid credentials; expired claims are rejected as expired
/// whatever the route requires; claims in force that lack the required
/// permission are forbidden.
pub open spec fn authorization_of(
    claims: Option<ClaimsView>,
    now: nat,
    required: PermissionView,
) -> Result<Seq<char>, AuthError> {
    match claims {
        None => Err(AuthError::InvalidCredentials),
        Some(claims) => if claims.exp < now {
            Err(AuthError::ExpiredCredentials)
        } else if !permission_granted(claims, required) {
            Err(AuthError::Forbidden)
        } else {
            Ok(claims.sub)
        },
    }
}

/// The view of claims that may be missing.
pub open spec fn view_of(claims: Option<Claims>) -> Option<ClaimsView> {
    match claims {
        Some(c) => Some(c@),
        None => None,
    }
}

/// Reads the payload of the token in the authorization header. The value
/// of the header is the token itself, with no scheme in front of it. A
/// missing header is rejected like an unacceptable token.
pub fn read_token(auth_header: Option<&str>, secret: &[u8]) -> (payload: Result<Vec<u8>, AuthError>)
    ensures
        match header_payload(auth_header, secret@) {
            Some(bytes) => payload matches Ok(read) && read@ == bytes,
            None => payload == Err::<Vec<u8>, AuthError>(AuthError::InvalidCredentials),
        },
{
    match auth_header {
        Some(token) => decode_token(token, secret),
        None => Err(AuthError::InvalidCredentials),
    }
}

/// Decides at time `now` whether the bearer of `claims` may pass a route
/// that requires `require_permission`, and as whom. `claims` is `None`
/// where the payload of the token could not be read as claims.
pub fn authorize(claims: Option<Claims>, now: usize, require_permission: Arc<Permission>) -> (admitted:
    Result<AuthenticatedUser, AuthError>)
    ensures
        match authorization_of(view_of(claims), now as nat, require_permission@) {
            Ok(subject) => admitted matches Ok(user) && user.user_id@ == subject,
            Err(e) => admitted == Err::<AuthenticatedUser, AuthError>(e),
        },
{
    let claims = match claims {
        Some(claims) => claims,
        None => {
            return Err(AuthError::InvalidCredentials);
        },
    };
    if claims.exp < now {
        return Err(AuthError::ExpiredCredentials);
    }
    if !validate_permissions(&claims, require_permission) {
        return Err(AuthError::Forbidden);
    }
    Ok(AuthenticatedUser { user_id: claims.sub })
}

/// Decides as [`authorize`] does, at the time that the system clock shows.
/// The result is stated for whatever time that was.
pub fn authorize_now(claims: Option<Claims>, require_permission: Arc<Permission>) -> (admitted: Result<
    AuthenticatedUser,
    AuthError,
>)
    ensures
        exists|now: nat|
            match #[trigger] authorization_of(view_of(claims), now, require_permission@) {
                Ok(subject) => admitted matches Ok(user) && user.user_id@ == subject,
                Err(e) => admitted == Err::<AuthenticatedUser, AuthError>(e),
            },
{
    let now = unix_seconds(current_timestamp());
    let ghost offered = view_of(claims);
    let ghost required = require_permission@;
    let admitted = authorize(claims, now, require_permission);
    assert(authorization_of(offered, now as nat, required) is Ok || authorization_of(
        offered,
        now as nat,
        required,
    ) is Err);
    admitted
}

/// The empty requirement is met by every claim set.
pub proof fn lemma_empty_is_granted(claims: ClaimsView)
    ensures
        permission_granted(claims, PermissionView::Empty),
{
}

/// A required role is met exactly by the claim sets that hold it as a role.
pub proof fn lemma_role_granted_iff_held(claims: ClaimsView, role: Seq<char>)
    ensures
        permission_granted(claims, PermissionView::Role(role)) == claims.roles.contains(role),
{
}

/// A single required permission is met exactly by the claim sets that hold
/// it as a permission.
pub proof fn lemma_single_permission_granted_iff_held(claims: ClaimsView, permission: Seq<char>)
    ensures
        permission_granted(claims, PermissionView::IndividualPermission(seq![permission]))
            == claims.permissions.contains(permission),
{
    let required = seq![permission];
    if claims.permissions.contains(permission) {
        assert forall|p: Seq<char>| required.contains(p) implies claims.permissions.contains(
            p,
        ) by {
            let i = choose|i: int| 0 <= i < required.len() && required[i] == p;
            assert(required[i] == permission);
        }
    } else {
        assert(required[0] == permission);
        assert(required.contains(permission));
    }
}

/// Required permissions are conjunctive: two lists together are met exactly
/// when each of them is met.
pub proof fn lemma_permissions_are_conjunctive(
    claims: ClaimsView,
    first: Seq<Seq<char>>,
    second: Seq<Seq<char>>,
)
    ensures
        permission_granted(claims, PermissionView::IndividualPermission(first + second)) == (
        permission_granted(claims, PermissionView::IndividualPermission(first))
            && permission_granted(claims, PermissionView::IndividualPermission(second))),
{
    let both = first + second;
    if permission_granted(claims, PermissionView::IndividualPermission(both)) {
        assert forall|p: Seq<char>| first.contains(p) implies claims.permissions.contains(p) by {
            let i = choose|i: int| 0 <= i < first.len() && first[i] == p;
            assert(both[i] == p);
            assert(both.contains(p));
        }
        assert forall|p: Seq<char>| second.contains(p) implies claims.permissions.contains(p) by {
            let i = choose|i: int| 0 <= i < second.len() && second[i] == p;
            assert(both[first.len() + i] == p);
            assert(both.contains(p));
        }
    }
    if permission_granted(claims, PermissionView::IndividualPermission(first))
        && permission_granted(claims, PermissionView::IndividualPermission(second)) {
        assert forall|p: Seq<char>| both.contains(p) implies claims.permissions.contains(p) by {
            let i = choose|i: int| 0 <= i < both.len() && both[i] == p;
            if i < first.len() {
                assert(first[i] == p);
                assert(first.contains(p));
            } else {
                assert(second[i - first.len()] == p);
                assert(second.contains(p));
            }
        }
    }
}

/// Expired claims are rejected as expired whatever the route requires.
pub proof fn lemma_expired_whatever_required(claims: ClaimsView, now: nat, required: PermissionView)
    requires
        claims.exp < now,
    ensures
        authorization_of(Some(claims), now, required) == Err::<Seq<char>, AuthError>(
            AuthError::ExpiredCredentials,
        ),
{
}

/// Claims issued at `issued_at` for `ttl` seconds are in force from the
/// moment of issue up to their expiry, and are rejected as expired at every
/// later time, whatever the route requires.
pub proof fn lemma_issued_claims_expire(
    subject: Seq<char>,
    roles: Seq<Seq<char>>,
    permissions: Seq<Seq<char>>,
    issued_at: nat,
    ttl: nat,
    now: nat,
    required: PermissionView,
)
    ensures
        ({
            let claims = issued_claims(subject, roles, permissions, issued_at, ttl);
            &&& now > issued_at + ttl ==> authorization_of(Some(claims), now, required) == Err::<
                Seq<char>,
                AuthError,
            >(AuthError::ExpiredCredentials)
            &&& issued_at <= now <= issued_at + ttl ==> authorization_of(Some(claims), now, required)
                != Err::<Seq<char>, AuthError>(AuthError::ExpiredCredentials)
            &&& issued_at <= now <= issued_at + ttl ==> authorization_of(
                Some(claims),
                now,
                PermissionView::Empty,
            ) == Ok::<Seq<char>, AuthError>(subject)
        }),
{
}

} // verus!
