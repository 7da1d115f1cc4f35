//! What the streaming query service answers, apart from the transport.

use vstd::prelude::*;
use vstd::string::StringExecFns;

use crate::auth::authorize_bearer_header;
use crate::auth::jwt_claims;
use crate::auth::spec_authorize_claims;
use crate::auth::spec_bearer_token;
use crate::auth::AuthConfig;
use crate::auth::AuthError;
use crate::auth::Permission;

verus! {

/// The status codes that the service answers a rejected call with.
#[derive(Debug, Clone, Copy, PartialEq, Eq, Structural)]
pub enum StatusCode {
    PermissionDenied,
    Unauthenticated,
}

/// The status of a rejected call: its code and its message.
#[derive(Debug)]
pub struct Status {
    pub code: StatusCode,
    pub message: String,
}

/// The code that answers a failed authorization.
pub open spec fn spec_status_code(err: AuthError) -> StatusCode {
    match err {
        AuthError::Forbidden => StatusCode::PermissionDenied,
        _ => StatusCode::Unauthenticated,
    }
}

/// The message that goes with a code.
pub open spec fn spec_status_message(code: StatusCode) -> Seq<char> {
    match code {
        StatusCode::PermissionDenied => "forbidden"@,
        StatusCode::Unauthenticated => "unauthenticated"@,
    }
}

/// The status that answers a failed authorization: permission denied where
/// the role does not suffice, unauthenticated in every other case.
pub fn map_auth_error(err: &AuthError) -> (status: Status)
    ensures
        status.code == spec_status_code(*err),
        status.message@ == spec_status_message(status.code),
{
    match err {
        AuthError::Forbidden => Status {
            code: StatusCode::PermissionDenied,
            message: String::from_str("forbidden"),
        },
        _ => Status {
            code: StatusCode::Unauthenticated,
            message: String::from_str("unauthenticated"),
        },
    }
}

/// Decides whether a call may reach the service, which asks for the
/// permission to read: nothing where it may, and else the status to answer
/// with.
pub fn intercept(cfg: &AuthConfig, header: Option<&str>) -> (rejected: Option<Status>)
    ensures
        match spec_bearer_token(cfg, header) {
            Err(error) => rejected is Some && rejected->0.code == spec_status_code(error),
            Ok(None) => rejected is None,
            Ok(Some((secret, token))) => match jwt_claims(token, secret) {
                Some(claims) => match spec_authorize_claims(claims, Permission::Read) {
                    Ok(_) => rejected is None,
                    Err(error) => rejected is Some && rejected->0.code == spec_status_code(error),
                },
                None => rejected is Some && rejected->0.code == StatusCode::Unauthenticated,
            },
        },
        rejected is Some ==> rejected->0.message@ == spec_status_message(rejected->0.code),
{
    if !cfg.enabled {
        return None;
    }
    match authorize_bearer_header(cfg, header, Permission::Read) {
        Ok(_) => None,
        Err(error) => Some(map_auth_error(&error)),
    }
}

/// The JSON text of an object with two members, the first a string and the
/// second a number, as the JSON library writes it.
pub uninterp spec fn json_object_text(
    text_key: Seq<char>,
    text: Seq<char>,
    number_key: Seq<char>,
    number: u64,
) -> Seq<char>;

/// Trusted: the `Display` of `serde_json::Value`, on an object that holds
/// the string `text` under `text_key` and the number `number` under
/// `number_key`. What it writes depends on these four alone, and
/// [`json_object_text`] is its name.
#[verifier::external_body]
fn json_object(text_key: &str, text: &str, number_key: &str, number: u64) -> (json: String)
    ensures
        json@ == json_object_text(text_key@, text@, number_key@, number),
{
    let mut object = serde_json::Map::new();
    object.insert(text_key.to_string(), serde_json::Value::from(text));
    object.insert(number_key.to_string(), serde_json::Value::from(number));
    serde_json::Value::Object(object).to_string()
}

/// How many rows the service streams for a query.
pub const ROWS_PER_QUERY: u64 = 3;

/// The row that the service streams as number `row` for `query`.
pub open spec fn spec_echo_row(query: Seq<char>, row: u64) -> Seq<char> {
    json_object_text("echo"@, query, "row"@, row)
}

/// The streaming query service.
#[derive(Debug, Default)]
pub struct QueryServiceImpl;

impl QueryServiceImpl {
    /// The rows that the service streams for `query`, in order: three JSON
    /// objects that echo the query and number the rows from one.
    pub fn query(&self, query: &str) -> (rows: Vec<String>)
        ensures
            rows@.len() == ROWS_PER_QUERY,
            forall|i: int|
                0 <= i < rows@.len() ==> (#[trigger] rows@[i])@ == spec_echo_row(
                    query@,
                    (i + 1) as u64,
                ),
    {
        let mut rows: Vec<String> = Vec::new();
        let mut row: u64 = 1;
        while row <= ROWS_PER_QUERY
            invariant
                1 <= row <= ROWS_PER_QUERY + 1,
                rows@.len() == row - 1,
                forall|i: int|
                    0 <= i < rows@.len() ==> (#[trigger] rows@[i])@ == spec_echo_row(
                        query@,
                        (i + 1) as u64,
                    ),
            decreases ROWS_PER_QUERY + 1 - row,
        {
            rows.push(json_object("echo", query, "row", row));
            row += 1;
        }
        rows
    }
}

} // verus!
