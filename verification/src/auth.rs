//! Who may do what: roles, permissions, and the check of a bearer token.

use vstd::prelude::*;
use vstd::string::StringExecFns;
use vstd::string::StringSliceAdditionalSpecFns;
use vstd::utf8::encode_utf8;

use crate::text::text_equals;

verus! {

/// What a caller is.
#[derive(Debug, Clone, Copy, PartialEq, Eq, Structural)]
pub enum Role {
    Read,
    Write,
    Admin,
}

/// What an endpoint asks of its caller.
#[derive(Debug, Clone, Copy, PartialEq, Eq, Structural)]
pub enum Permission {
    Read,
    Write,
}

/// The error type of the JWT library; nothing is known of its contents.
#[verifier::external_type_specification]
#[verifier::external_body]
pub struct ExJwtError(jsonwebtoken::errors::Error);

/// Why a request was not authorized.
#[derive(Debug)]
pub enum AuthError {
    /// No authorization header, or no secret to check one against.
    MissingAuthorization,
    /// The header does not carry a bearer token.
    InvalidAuthorizationScheme,
    /// The token was rejected.
    Jwt(jsonwebtoken::errors::Error),
    /// The token names no role.
    MissingRole,
    /// The token names a role that does not exist.
    UnknownRole,
    /// The role does not allow what the endpoint asks.
    Forbidden,
}

impl AuthError {
    /// The text that describes this error.
    pub open spec fn spec_message(self) -> Seq<char> {
        match self {
            AuthError::MissingAuthorization => "missing authorization"@,
            AuthError::InvalidAuthorizationScheme => "invalid authorization scheme"@,
            AuthError::Jwt(_) => "jwt error"@,
            AuthError::MissingRole => "missing role claim"@,
            AuthError::UnknownRole => "unknown role"@,
            AuthError::Forbidden => "forbidden"@,
        }
    }

    /// Renders the error as text.
    pub fn message(&self) -> (text: String)
        ensures
            text@ == self.spec_message(),
    {
        match self {
            AuthError::MissingAuthorization => String::from_str("missing authorization"),
            AuthError::InvalidAuthorizationScheme => String::from_str(
                "invalid authorization scheme",
            ),
            AuthError::Jwt(_) => String::from_str("jwt error"),
            AuthError::MissingRole => String::from_str("missing role claim"),
            AuthError::UnknownRole => String::from_str("unknown role"),
            AuthError::Forbidden => String::from_str("forbidden"),
        }
    }
}

/// Whether tokens are checked, and against which secret.
#[derive(Debug, Clone)]
pub struct AuthConfig {
    pub enabled: bool,
    pub jwt_secret: Option<String>,
}

/// The lower-case form of an ASCII letter; any other byte as it is.
pub open spec fn ascii_lower(byte: u8) -> u8 {
    if 65 <= byte <= 90 {
        (byte + 32) as u8
    } else {
        byte
    }
}

/// Whether `bytes` spell a switch that is on: `1`, or `true` in any mix of
/// upper and lower case.
pub open spec fn spells_enabled(bytes: Seq<u8>) -> bool {
    ||| bytes =~= seq![49u8]
    ||| {
        &&& bytes.len() == 4
        &&& ascii_lower(bytes[0]) == 116
        &&& ascii_lower(bytes[1]) == 114
        &&& ascii_lower(bytes[2]) == 117
        &&& ascii_lower(bytes[3]) == 101
    }
}

fn to_ascii_lower(byte: u8) -> (lower: u8)
    ensures
        lower == ascii_lower(byte),
{
    if 65 <= byte && byte <= 90 {
        byte + 32
    } else {
        byte
    }
}

impl AuthConfig {
    /// The configuration that two settings give: the switch, which is on
    /// where it is set to `1` or to `true` in any case and off otherwise,
    /// and the secret.
    pub fn from_vars(enabled: Option<&str>, jwt_secret: Option<String>) -> (cfg: AuthConfig)
        ensures
            cfg.jwt_secret == jwt_secret,
            cfg.enabled == match enabled {
                Some(value) => spells_enabled(value.spec_bytes()),
                None => false,
            },
    {
        let on = match enabled {
            Some(value) => {
                let bytes = value.as_bytes();
                if bytes.len() == 1 {
                    bytes[0] == 49
                } else if bytes.len() == 4 {
                    to_ascii_lower(bytes[0]) == 116 && to_ascii_lower(bytes[1]) == 114
                        && to_ascii_lower(bytes[2]) == 117 && to_ascii_lower(bytes[3]) == 101
                } else {
                    false
                }
            },
            None => false,
        };
        AuthConfig { enabled: on, jwt_secret }
    }
}

/// The claims of a token that this library reads.
#[derive(Debug)]
pub struct Claims {
    pub sub: Option<String>,
    pub role: Option<String>,
    pub exp: Option<u64>,
    pub iat: Option<u64>,
}

/// [`Claims`] in specifications.
pub struct ClaimsView {
    pub sub: Option<Seq<char>>,
    pub role: Option<Seq<char>>,
    pub exp: Option<u64>,
    pub iat: Option<u64>,
}

impl View for Claims {
    type V = ClaimsView;

    open spec fn view(&self) -> ClaimsView {
        ClaimsView {
            sub: self.sub.deep_view(),
            role: self.role.deep_view(),
            exp: self.exp,
            iat: self.iat,
        }
    }
}

/// The role that claims name.
pub open spec fn spec_role_from_claims(claims: ClaimsView) -> Result<Role, AuthError> {
    match claims.role {
        None => Err(AuthError::MissingRole),
        Some(role) => if role == "read"@ {
            Ok(Role::Read)
        } else if role == "write"@ {
            Ok(Role::Write)
        } else if role == "admin"@ {
            Ok(Role::Admin)
        } else {
            Err(AuthError::UnknownRole)
        },
    }
}

/// Whether `role` allows `permission`: an admin may do everything, a writer
/// may read and write, a reader may only read.
pub open spec fn spec_role_allows(role: Role, permission: Permission) -> bool {
    match (role, permission) {
        (Role::Read, Permission::Write) => false,
        _ => true,
    }
}

/// What claims give their bearer against what an endpoint requires.
pub open spec fn spec_authorize_claims(claims: ClaimsView, required: Permission) -> Result<
    Option<Role>,
    AuthError,
> {
    match spec_role_from_claims(claims) {
        Err(error) => Err(error),
        Ok(role) => if spec_role_allows(role, required) {
            Ok(Some(role))
        } else {
            Err(AuthError::Forbidden)
        },
    }
}

/// The role that the claims name: `read`, `write` or `admin`, spelled so.
pub fn role_from_claims(claims: &Claims) -> (role: Result<Role, AuthError>)
    ensures
        role == spec_role_from_claims(claims@),
{
    match &claims.role {
        None => Err(AuthError::MissingRole),
        Some(role) => {
            if text_equals(role.as_str(), "read") {
                Ok(Role::Read)
            } else if text_equals(role.as_str(), "write") {
                Ok(Role::Write)
            } else if text_equals(role.as_str(), "admin") {
                Ok(Role::Admin)
            } else {
                Err(AuthError::UnknownRole)
            }
        },
    }
}

/// Whether `role` allows `permission`.
pub fn role_allows(role: Role, permission: Permission) -> (allowed: bool)
    ensures
        allowed == spec_role_allows(role, permission),
{
    match (role, permission) {
        (Role::Admin, _) => true,
        (Role::Write, Permission::Read) => true,
        (Role::Write, Permission::Write) => true,
        (Role::Read, Permission::Read) => true,
        (Role::Read, Permission::Write) => false,
    }
}

/// Roles are ordered by what they allow: whatever a reader may do a writer
/// may do, and whatever a writer may do an admin may do; and whoever may
/// write may read.
pub proof fn lemma_roles_grow(permission: Permission)
    ensures
        spec_role_allows(Role::Read, permission) ==> spec_role_allows(Role::Write, permission),
        spec_role_allows(Role::Write, permission) ==> spec_role_allows(Role::Admin, permission),
        forall|role: Role|
            spec_role_allows(role, Permission::Write) ==> spec_role_allows(role, Permission::Read),
{
}

/// Decides on decoded claims: the role that they name, where it allows what
/// is required.
pub fn authorize_claims(claims: &Claims, required: Permission) -> (outcome: Result<
    Option<Role>,
    AuthError,
>)
    ensures
        outcome == spec_authorize_claims(claims@, required),
{
    match role_from_claims(claims) {
        Err(error) => Err(error),
        Ok(role) => {
            if role_allows(role, required) {
                Ok(Some(role))
            } else {
                Err(AuthError::Forbidden)
            }
        },
    }
}

/// The claims of the token `token`, signed with `secret`: what the JWT
/// library decodes with HS256 and no check of expiry, or nothing where it
/// rejects the token.
pub uninterp spec fn jwt_claims(token: Seq<char>, secret: Seq<u8>) -> Option<ClaimsView>;

/// Trusted: `jsonwebtoken::decode`, with a validation that allows HS256
/// alone and does not look at the clock, followed by
/// `serde_json::from_value` on the four claims that [`Claims`] holds. A
/// claim that is missing or null is absent; one of another type than its
/// field makes the token fail. Both are functions of the token and the
/// secret alone, and [`jwt_claims`] is the name of what they give.
#[verifier::external_body]
fn decode_claims(token: &str, secret: &[u8]) -> (decoded: Result<
    Claims,
    jsonwebtoken::errors::Error,
>)
    ensures
        decoded is Ok <==> jwt_claims(token@, secret@) is Some,
        decoded is Ok ==> decoded->Ok_0@ == jwt_claims(token@, secret@)->0,
{
    let mut validation = jsonwebtoken::Validation::new(jsonwebtoken::Algorithm::HS256);
    validation.validate_exp = false;
    let key = jsonwebtoken::DecodingKey::from_secret(secret);
    let payload = jsonwebtoken::decode::<serde_json::Value>(token, &key, &validation)?.claims;
    Ok(
        Claims {
            sub: serde_json::from_value(payload["sub"].clone())?,
            role: serde_json::from_value(payload["role"].clone())?,
            exp: serde_json::from_value(payload["exp"].clone())?,
            iat: serde_json::from_value(payload["iat"].clone())?,
        },
    )
}

/// Trusted: `str::strip_prefix` of the standard library with a string as
/// the pattern. It returns the rest of `text` where `text` starts with
/// `prefix`, and nothing where it does not.
#[verifier::external_body]
fn strip_prefix<'a>(text: &'a str, prefix: &str) -> (rest: Option<&'a str>)
    ensures
        rest is Some <==> prefix@.is_prefix_of(text@),
        rest is Some ==> rest->0@ == text@.skip(prefix@.len() as int),
{
    text.strip_prefix(prefix)
}

/// What stands between a request and the decoding of its token: nothing to
/// check where authorization is off; else the secret and the token, or the
/// reason why there is none.
pub open spec fn spec_bearer_token(cfg: &AuthConfig, header: Option<&str>) -> Result<
    Option<(Seq<u8>, Seq<char>)>,
    AuthError,
> {
    if !cfg.enabled {
        Ok(None)
    } else if cfg.jwt_secret is None || header is None {
        Err(AuthError::MissingAuthorization)
    } else if !"Bearer "@.is_prefix_of(header->0@) {
        Err(AuthError::InvalidAuthorizationScheme)
    } else {
        Ok(
            Some(
                (encode_utf8(cfg.jwt_secret->0@), header->0@.skip("Bearer "@.len() as int)),
            ),
        )
    }
}

/// Authorizes a request by its `Authorization` header.
///
/// With authorization off, every request passes and has no role. With it
/// on, the request needs a secret to be configured and a header of the form
/// `Bearer <token>`; the token must be accepted by the JWT library, name a
/// known role, and that role must allow `required`.
pub fn authorize_bearer_header(
    cfg: &AuthConfig,
    authorization_header: Option<&str>,
    required: Permission,
) -> (outcome: Result<Option<Role>, AuthError>)
    ensures
        match spec_bearer_token(cfg, authorization_header) {
            Err(error) => outcome == Err::<Option<Role>, AuthError>(error),
            Ok(None) => outcome == Ok::<Option<Role>, AuthError>(None),
            Ok(Some((secret, token))) => match jwt_claims(token, secret) {
                Some(claims) => outcome == spec_authorize_claims(claims, required),
                None => outcome matches Err(AuthError::Jwt(_)),
            },
        },
{
    if !cfg.enabled {
        return Ok(None);
    }
    let secret = match &cfg.jwt_secret {
        Some(secret) => secret.as_str(),
        None => {
            return Err(AuthError::MissingAuthorization);
        },
    };
    let header = match authorization_header {
        Some(header) => header,
        None => {
            return Err(AuthError::MissingAuthorization);
        },
    };
    let token = match strip_prefix(header, "Bearer ") {
        Some(token) => token,
        None => {
            return Err(AuthError::InvalidAuthorizationScheme);
        },
    };
    match decode_claims(token, secret.as_bytes()) {
        Ok(claims) => authorize_claims(&claims, required),
        Err(error) => Err(AuthError::Jwt(error)),
    }
}

} // verus!
