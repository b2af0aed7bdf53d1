use std::sync::Arc;

use devices_backend::errors::AuthError;
use devices_backend::middlewares::authentication_layer::authorize;
use devices_backend::middlewares::authentication_layer::authorize_now;
use devices_backend::middlewares::authentication_layer::read_token;
use devices_backend::models::login::Claims;
use devices_backend::models::permission::Permission;
use devices_backend::routes::login::issue_claims;
use devices_backend::routes::login::login_claims;
use devices_backend::routes::login::login_claims_now;
use devices_backend::routes::login::unix_seconds;
use devices_backend::routes::login::SESSION_TTL;
use devices_backend::token::issue_token;
use uuid::Uuid;

const SECRET: &[u8] = b"shared-secret";

fn to_json(claims: &Claims) -> Vec<u8> {
    let list = |items: &Vec<String>| {
        serde_json::Value::Array(items.iter().map(|s| serde_json::Value::from(s.as_str())).collect())
    };
    let mut map = serde_json::Map::new();
    map.insert("sub".to_string(), serde_json::Value::from(claims.sub.as_str()));
    map.insert("exp".to_string(), serde_json::Value::from(claims.exp as u64));
    map.insert("permissions".to_string(), list(&claims.permissions));
    map.insert("roles".to_string(), list(&claims.roles));
    serde_json::to_vec(&serde_json::Value::Object(map)).unwrap()
}

fn from_json(payload: &[u8]) -> Option<Claims> {
    let value: serde_json::Value = serde_json::from_slice(payload).ok()?;
    let list = |value: &serde_json::Value| -> Option<Vec<String>> {
        value.as_array()?.iter().map(|s| s.as_str().map(String::from)).collect()
    };
    Some(Claims {
        sub: value.get("sub")?.as_str()?.to_string(),
        exp: value.get("exp")?.as_u64()? as usize,
        permissions: list(value.get("permissions")?)?,
        roles: list(value.get("roles")?)?,
    })
}

fn names(items: &[&str]) -> Vec<String> {
    items.iter().map(|s| s.to_string()).collect()
}

#[test]
fn expiry_is_issue_time_plus_lifetime() {
    let claims =
        issue_claims("subject".to_string(), names(&["admin"]), names(&["read:devices"]), 1_000, 60)
            .unwrap();
    assert_eq!(claims.sub, "subject");
    assert_eq!(claims.exp, 1_060);
    assert_eq!(claims.roles, names(&["admin"]));
    assert_eq!(claims.permissions, names(&["read:devices"]));
}

#[test]
fn expiry_beyond_the_range_gives_no_claims() {
    assert!(issue_claims("s".to_string(), vec![], vec![], usize::MAX, 1).is_none());
    assert!(issue_claims("s".to_string(), vec![], vec![], usize::MAX - 1, 2).is_none());
    assert_eq!(issue_claims("s".to_string(), vec![], vec![], usize::MAX - 1, 1).unwrap().exp, usize::MAX);
    assert_eq!(issue_claims("s".to_string(), vec![], vec![], 0, 0).unwrap().exp, 0);
}

#[test]
fn login_claims_last_fifteen_days() {
    assert_eq!(SESSION_TTL, 15 * 24 * 60 * 60);
    let id = Uuid::from_u128(0x0123_4567_89ab_cdef_0123_4567_89ab_cdef);
    let claims = login_claims(&id, 1_700_000_000).unwrap();
    assert_eq!(claims.sub, "01234567-89ab-cdef-0123-456789abcdef");
    assert_eq!(claims.sub, id.to_string());
    assert_eq!(claims.exp, 1_701_296_000);
    assert!(claims.roles.is_empty());
    assert!(claims.permissions.is_empty());
    assert!(login_claims(&id, usize::MAX - SESSION_TTL + 1).is_none());
}

#[test]
fn login_claims_now_expire_in_the_future() {
    let id = Uuid::new_v4();
    let before = unix_seconds(chrono::Utc::now().timestamp());
    let claims = login_claims_now(&id).unwrap();
    let after = unix_seconds(chrono::Utc::now().timestamp());
    assert_eq!(claims.sub, id.to_string());
    assert!(before + SESSION_TTL <= claims.exp && claims.exp <= after + SESSION_TTL);
}

#[test]
fn timestamps_are_counted_from_the_epoch() {
    assert_eq!(unix_seconds(0), 0);
    assert_eq!(unix_seconds(1_700_000_000), 1_700_000_000);
    assert_eq!(unix_seconds(-1), 0);
    assert_eq!(unix_seconds(i64::MIN), 0);
    assert_eq!(unix_seconds(i64::MAX) as u128, (i64::MAX as u128).min(usize::MAX as u128));
}

#[test]
fn missing_header_is_invalid_credentials() {
    assert_eq!(read_token(None, SECRET), Err(AuthError::InvalidCredentials));
}

#[test]
fn header_value_is_the_token_itself() {
    let token = issue_token(b"payload", SECRET).unwrap();
    assert_eq!(read_token(Some(&token), SECRET), Ok(b"payload".to_vec()));
    assert_eq!(read_token(Some("garbage"), SECRET), Err(AuthError::InvalidCredentials));
    assert_eq!(read_token(Some(&token), b"other"), Err(AuthError::InvalidCredentials));
}

#[test]
fn unreadable_claims_are_invalid_credentials() {
    assert_eq!(
        authorize(None, 0, Arc::new(Permission::Empty)).unwrap_err(),
        AuthError::InvalidCredentials
    );
}

#[test]
fn claims_in_force_are_admitted_as_their_subject() {
    let claims = issue_claims("the-user".to_string(), vec![], vec![], 100, 50).unwrap();
    let user = authorize(Some(claims), 100, Arc::new(Permission::Empty)).unwrap();
    assert_eq!(user.user_id, "the-user");
}

#[test]
fn claims_expire_after_their_lifetime() {
    for (now, expired) in [(100, false), (149, false), (150, false), (151, true), (10_000, true)] {
        let claims = issue_claims("the-user".to_string(), vec![], vec![], 100, 50).unwrap();
        let admitted = authorize(Some(claims), now, Arc::new(Permission::Empty));
        if expired {
            assert_eq!(admitted.unwrap_err(), AuthError::ExpiredCredentials);
        } else {
            assert_eq!(admitted.unwrap().user_id, "the-user");
        }
    }
}

#[test]
fn expired_claims_are_expired_whatever_is_required() {
    let requirements = || {
        vec![
            Permission::Empty,
            Permission::Role("admin".to_string()),
            Permission::Role("missing".to_string()),
            Permission::IndividualPermission(names(&["read:devices"])),
            Permission::IndividualPermission(names(&["missing"])),
        ]
    };
    for required in requirements() {
        let claims =
            issue_claims("u".to_string(), names(&["admin"]), names(&["read:devices"]), 0, 10)
                .unwrap();
        assert_eq!(
            authorize(Some(claims), 11, Arc::new(required)).unwrap_err(),
            AuthError::ExpiredCredentials
        );
    }
}

#[test]
fn missing_permission_is_forbidden() {
    let fresh = || issue_claims("u".to_string(), names(&["user"]), names(&["read:devices"]), 0, 10).unwrap();
    assert_eq!(
        authorize(Some(fresh()), 5, Arc::new(Permission::Role("admin".to_string()))).unwrap_err(),
        AuthError::Forbidden
    );
    assert_eq!(
        authorize(
            Some(fresh()),
            5,
            Arc::new(Permission::IndividualPermission(names(&["read:devices", "create:device"])))
        )
        .unwrap_err(),
        AuthError::Forbidden
    );
    assert_eq!(
        authorize(Some(fresh()), 5, Arc::new(Permission::Role("user".to_string())))
            .unwrap()
            .user_id,
        "u"
    );
    assert_eq!(
        authorize(
            Some(fresh()),
            5,
            Arc::new(Permission::IndividualPermission(names(&["read:devices"])))
        )
        .unwrap()
        .user_id,
        "u"
    );
}

#[test]
fn clock_decides_for_authorize_now() {
    let long_ago = issue_claims("u".to_string(), vec![], vec![], 0, 10).unwrap();
    assert_eq!(
        authorize_now(Some(long_ago), Arc::new(Permission::Empty)).unwrap_err(),
        AuthError::ExpiredCredentials
    );
    let fresh = login_claims_now(&Uuid::from_u128(5)).unwrap();
    assert_eq!(
        authorize_now(Some(fresh), Arc::new(Permission::Empty)).unwrap().user_id,
        Uuid::from_u128(5).to_string()
    );
    assert_eq!(
        authorize_now(None, Arc::new(Permission::Empty)).unwrap_err(),
        AuthError::InvalidCredentials
    );
}

#[test]
fn claims_survive_the_way_through_a_token() {
    let issued =
        issue_claims("subject".to_string(), names(&["a", "b"]), names(&["p:q", "r"]), 1_000, 500)
            .unwrap();
    let token = issue_token(&to_json(&issued), SECRET).unwrap();
    let decoded = from_json(&read_token(Some(&token), SECRET).unwrap()).unwrap();
    assert_eq!(decoded.sub, "subject");
    assert_eq!(decoded.exp, 1_500);
    assert_eq!(decoded.roles, names(&["a", "b"]));
    assert_eq!(decoded.permissions, names(&["p:q", "r"]));
}

#[test]
fn token_is_valid_at_issue_and_expired_after_its_lifetime() {
    let issued_at = 2_000_000_000;
    let claims = login_claims(&Uuid::from_u128(11), issued_at).unwrap();
    let token = issue_token(&to_json(&claims), SECRET).unwrap();
    assert!(!token.is_empty());
    for (now, expired) in
        [(issued_at, false), (issued_at + SESSION_TTL, false), (issued_at + SESSION_TTL + 1, true)]
    {
        let claims = from_json(&read_token(Some(&token), SECRET).unwrap());
        let admitted = authorize(claims, now, Arc::new(Permission::Empty));
        if expired {
            assert_eq!(admitted.unwrap_err(), AuthError::ExpiredCredentials);
        } else {
            assert_eq!(admitted.unwrap().user_id, Uuid::from_u128(11).to_string());
        }
    }
}

#[test]
fn well_signed_payload_without_claims_is_invalid_credentials() {
    let token = issue_token(b"{\"sub\":1}", SECRET).unwrap();
    let claims = from_json(&read_token(Some(&token), SECRET).unwrap());
    assert!(claims.is_none());
    assert_eq!(
        authorize(claims, 0, Arc::new(Permission::Empty)).unwrap_err(),
        AuthError::InvalidCredentials
    );
}
