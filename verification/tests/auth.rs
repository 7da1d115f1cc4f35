use kadedb_services::auth::authorize_bearer_header;
use kadedb_services::auth::authorize_claims;
use kadedb_services::auth::role_allows;
use kadedb_services::auth::role_from_claims;
use kadedb_services::auth::AuthConfig;
use kadedb_services::auth::AuthError;
use kadedb_services::auth::Claims;
use kadedb_services::auth::Permission;
use kadedb_services::auth::Role;

fn enabled(secret: &str) -> AuthConfig {
    AuthConfig { enabled: true, jwt_secret: Some(secret.to_string()) }
}

fn claims(role: Option<&str>) -> Claims {
    Claims { sub: Some("alice".to_string()), role: role.map(str::to_string), exp: None, iat: None }
}

fn payload(role: Option<serde_json::Value>) -> serde_json::Value {
    let mut object = serde_json::Map::new();
    object.insert("sub".to_string(), serde_json::Value::from("alice"));
    object.insert("exp".to_string(), serde_json::Value::from(4102444800u64));
    if let Some(role) = role {
        object.insert("role".to_string(), role);
    }
    serde_json::Value::Object(object)
}

fn sign(payload: &serde_json::Value, secret: &str) -> String {
    jsonwebtoken::encode(
        &jsonwebtoken::Header::default(),
        payload,
        &jsonwebtoken::EncodingKey::from_secret(secret.as_bytes()),
    )
    .expect("a token")
}

fn bearer(role: &str, secret: &str) -> String {
    format!("Bearer {}", sign(&payload(Some(serde_json::Value::from(role))), secret))
}

#[test]
fn role_allows_follows_the_table() {
    assert!(role_allows(Role::Admin, Permission::Read));
    assert!(role_allows(Role::Admin, Permission::Write));
    assert!(role_allows(Role::Write, Permission::Read));
    assert!(role_allows(Role::Write, Permission::Write));
    assert!(role_allows(Role::Read, Permission::Read));
    assert!(!role_allows(Role::Read, Permission::Write));
}

#[test]
fn role_from_claims_knows_three_roles() {
    assert!(matches!(role_from_claims(&claims(Some("read"))), Ok(Role::Read)));
    assert!(matches!(role_from_claims(&claims(Some("write"))), Ok(Role::Write)));
    assert!(matches!(role_from_claims(&claims(Some("admin"))), Ok(Role::Admin)));
}

#[test]
fn role_from_claims_rejects_other_spellings() {
    assert!(matches!(role_from_claims(&claims(Some("Admin"))), Err(AuthError::UnknownRole)));
    assert!(matches!(role_from_claims(&claims(Some(""))), Err(AuthError::UnknownRole)));
    assert!(matches!(role_from_claims(&claims(Some("reader"))), Err(AuthError::UnknownRole)));
}

#[test]
fn role_from_claims_needs_a_role() {
    assert!(matches!(role_from_claims(&claims(None)), Err(AuthError::MissingRole)));
}

#[test]
fn authorize_claims_checks_the_permission() {
    assert!(matches!(
        authorize_claims(&claims(Some("read")), Permission::Read),
        Ok(Some(Role::Read))
    ));
    assert!(matches!(
        authorize_claims(&claims(Some("read")), Permission::Write),
        Err(AuthError::Forbidden)
    ));
    assert!(matches!(
        authorize_claims(&claims(Some("write")), Permission::Write),
        Ok(Some(Role::Write))
    ));
    assert!(matches!(authorize_claims(&claims(None), Permission::Read), Err(AuthError::MissingRole)));
    assert!(matches!(
        authorize_claims(&claims(Some("root")), Permission::Read),
        Err(AuthError::UnknownRole)
    ));
}

#[test]
fn disabled_authorization_lets_everything_pass() {
    let cfg = AuthConfig { enabled: false, jwt_secret: None };
    assert!(matches!(authorize_bearer_header(&cfg, None, Permission::Write), Ok(None)));
    assert!(matches!(authorize_bearer_header(&cfg, Some("garbage"), Permission::Read), Ok(None)));
}

#[test]
fn missing_secret_or_header_is_missing_authorization() {
    let no_secret = AuthConfig { enabled: true, jwt_secret: None };
    let header = bearer("admin", "secret");
    assert!(matches!(
        authorize_bearer_header(&no_secret, Some(&header), Permission::Read),
        Err(AuthError::MissingAuthorization)
    ));
    assert!(matches!(
        authorize_bearer_header(&enabled("secret"), None, Permission::Read),
        Err(AuthError::MissingAuthorization)
    ));
}

#[test]
fn other_schemes_are_rejected() {
    let token = sign(&payload(Some(serde_json::Value::from("admin"))), "secret");
    for header in [format!("Basic {token}"), format!("bearer {token}"), format!("Bearer{token}"), token] {
        assert!(matches!(
            authorize_bearer_header(&enabled("secret"), Some(&header), Permission::Read),
            Err(AuthError::InvalidAuthorizationScheme)
        ));
    }
}

#[test]
fn valid_token_gives_its_role() {
    let cfg = enabled("secret");
    assert!(matches!(
        authorize_bearer_header(&cfg, Some(&bearer("read", "secret")), Permission::Read),
        Ok(Some(Role::Read))
    ));
    assert!(matches!(
        authorize_bearer_header(&cfg, Some(&bearer("write", "secret")), Permission::Write),
        Ok(Some(Role::Write))
    ));
    assert!(matches!(
        authorize_bearer_header(&cfg, Some(&bearer("admin", "secret")), Permission::Write),
        Ok(Some(Role::Admin))
    ));
}

#[test]
fn reader_may_not_write() {
    assert!(matches!(
        authorize_bearer_header(
            &enabled("secret"),
            Some(&bearer("read", "secret")),
            Permission::Write
        ),
        Err(AuthError::Forbidden)
    ));
}

#[test]
fn token_signed_with_another_secret_is_a_jwt_error() {
    assert!(matches!(
        authorize_bearer_header(&enabled("secret"), Some(&bearer("admin", "other")), Permission::Read),
        Err(AuthError::Jwt(_))
    ));
}

#[test]
fn malformed_token_is_a_jwt_error() {
    for header in ["Bearer ", "Bearer abc", "Bearer a.b.c", "Bearer Bearer x"] {
        assert!(matches!(
            authorize_bearer_header(&enabled("secret"), Some(header), Permission::Read),
            Err(AuthError::Jwt(_))
        ));
    }
}

#[test]
fn token_without_role_is_missing_role() {
    let header = format!("Bearer {}", sign(&payload(None), "secret"));
    assert!(matches!(
        authorize_bearer_header(&enabled("secret"), Some(&header), Permission::Read),
        Err(AuthError::MissingRole)
    ));
    let null = format!("Bearer {}", sign(&payload(Some(serde_json::Value::Null)), "secret"));
    assert!(matches!(
        authorize_bearer_header(&enabled("secret"), Some(&null), Permission::Read),
        Err(AuthError::MissingRole)
    ));
}

#[test]
fn token_with_unknown_role_is_unknown_role() {
    assert!(matches!(
        authorize_bearer_header(&enabled("secret"), Some(&bearer("root", "secret")), Permission::Read),
        Err(AuthError::UnknownRole)
    ));
}

#[test]
fn token_with_a_role_of_the_wrong_type_is_a_jwt_error() {
    let header = format!("Bearer {}", sign(&payload(Some(serde_json::Value::from(7))), "secret"));
    assert!(matches!(
        authorize_bearer_header(&enabled("secret"), Some(&header), Permission::Read),
        Err(AuthError::Jwt(_))
    ));
}

#[test]
fn expired_token_still_passes() {
    let mut object = serde_json::Map::new();
    object.insert("role".to_string(), serde_json::Value::from("read"));
    object.insert("exp".to_string(), serde_json::Value::from(1u64));
    let header = format!("Bearer {}", sign(&serde_json::Value::Object(object), "secret"));
    assert!(matches!(
        authorize_bearer_header(&enabled("secret"), Some(&header), Permission::Read),
        Ok(Some(Role::Read))
    ));
}

#[test]
fn config_switch_reads_one_and_true() {
    for on in ["1", "true", "TRUE", "True", "tRuE"] {
        assert!(AuthConfig::from_vars(Some(on), None).enabled);
    }
    for off in ["0", "", "yes", "on", "11", "true ", " true", "tru", "trues", "t\u{212a}ue"] {
        assert!(!AuthConfig::from_vars(Some(off), None).enabled);
    }
    assert!(!AuthConfig::from_vars(None, Some("s".to_string())).enabled);
}

#[test]
fn config_keeps_the_secret() {
    let cfg = AuthConfig::from_vars(Some("1"), Some("secret".to_string()));
    assert_eq!(cfg.jwt_secret.as_deref(), Some("secret"));
    assert_eq!(AuthConfig::from_vars(Some("1"), None).jwt_secret, None);
}

#[test]
fn auth_error_messages_name_the_failure() {
    assert_eq!(AuthError::MissingAuthorization.message(), "missing authorization");
    assert_eq!(AuthError::InvalidAuthorizationScheme.message(), "invalid authorization scheme");
    assert_eq!(AuthError::MissingRole.message(), "missing role claim");
    assert_eq!(AuthError::UnknownRole.message(), "unknown role");
    assert_eq!(AuthError::Forbidden.message(), "forbidden");
    let rejected = authorize_bearer_header(&enabled("secret"), Some("Bearer x"), Permission::Read);
    assert_eq!(rejected.expect_err("a rejected token").message(), "jwt error");
}
