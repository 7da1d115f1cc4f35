//! What the REST endpoints answer, apart from the transport.

use vstd::prelude::*;
use vstd::string::StringExecFns;

use crate::auth::authorize_bearer_header;
use crate::auth::jwt_claims;
use crate::auth::spec_authorize_claims;
use crate::auth::spec_bearer_token;
use crate::auth::AuthConfig;
use crate::auth::AuthError;
use crate::auth::Permission;

verus! {

/// The status of a request that was served.
pub const STATUS_OK: u16 = 200;

/// The status of a request without valid credentials.
pub const STATUS_UNAUTHORIZED: u16 = 401;

/// The status of a request whose role does not allow it.
pub const STATUS_FORBIDDEN: u16 = 403;

/// The endpoints of the REST service.
#[derive(Debug, Clone, Copy, PartialEq, Eq, Structural)]
pub enum Endpoint {
    /// `GET /health`
    Health,
    /// `POST /query`
    Query,
    /// `POST /tables`
    Tables,
}

impl Endpoint {
    /// What the endpoint asks of its caller: nothing for the health check,
    /// reading for a query, writing for a new table.
    pub open spec fn spec_permission(self) -> Option<Permission> {
        match self {
            Endpoint::Health => None,
            Endpoint::Query => Some(Permission::Read),
            Endpoint::Tables => Some(Permission::Write),
        }
    }

    /// What the endpoint asks of its caller.
    pub fn permission(self) -> (required: Option<Permission>)
        ensures
            required == self.spec_permission(),
    {
        match self {
            Endpoint::Health => None,
            Endpoint::Query => Some(Permission::Read),
            Endpoint::Tables => Some(Permission::Write),
        }
    }
}

/// The status that answers a failed authorization.
pub open spec fn spec_map_auth_error(err: AuthError) -> u16 {
    match err {
        AuthError::Forbidden => STATUS_FORBIDDEN,
        _ => STATUS_UNAUTHORIZED,
    }
}

/// The status that answers a failed authorization: forbidden where the role
/// does not suffice, unauthorized in every other case.
pub fn map_auth_error(err: &AuthError) -> (status: u16)
    ensures
        status == spec_map_auth_error(*err),
{
    match err {
        AuthError::Forbidden => STATUS_FORBIDDEN,
        _ => STATUS_UNAUTHORIZED,
    }
}

/// Decides whether a request may reach its handler: nothing where it may,
/// and else the status to answer with.
pub fn auth_middleware(cfg: &AuthConfig, header: Option<&str>, required: Permission) -> (rejected:
    Option<u16>)
    ensures
        match spec_bearer_token(cfg, header) {
            Err(error) => rejected == Some(spec_map_auth_error(error)),
            Ok(None) => rejected is None,
            Ok(Some((secret, token))) => match jwt_claims(token, secret) {
                Some(claims) => match spec_authorize_claims(claims, required) {
                    Ok(_) => rejected is None,
                    Err(error) => rejected == Some(spec_map_auth_error(error)),
                },
                None => rejected == Some(STATUS_UNAUTHORIZED),
            },
        },
{
    match authorize_bearer_header(cfg, header, required) {
        Ok(_) => None,
        Err(error) => Some(map_auth_error(&error)),
    }
}

/// The body of the health check.
#[derive(Debug)]
pub struct HealthResponse {
    pub status: String,
}

/// Answers the health check.
pub fn health() -> (response: HealthResponse)
    ensures
        response.status@ == "ok"@,
{
    HealthResponse { status: String::from_str("ok") }
}

/// The body of a query request.
#[derive(Debug)]
pub struct QueryRequest {
    pub query: String,
}

/// The body that answers a query.
#[derive(Debug)]
pub struct QueryResponse {
    pub ok: bool,
    pub echoed_query: String,
}

/// Answers a query: with success, and the query as it came.
pub fn query(req: QueryRequest) -> (response: (u16, QueryResponse))
    ensures
        response.0 == STATUS_OK,
        response.1.ok,
        response.1.echoed_query == req.query,
{
    (STATUS_OK, QueryResponse { ok: true, echoed_query: req.query })
}

/// One column of a table to create.
#[derive(Debug)]
pub struct ColumnDef {
    pub name: String,
    pub column_type: String,
    pub nullable: Option<bool>,
}

/// The body of a request to create a table.
#[derive(Debug)]
pub struct CreateTableRequest {
    pub name: String,
    pub columns: Vec<ColumnDef>,
}

/// One column of a created table.
#[derive(Debug)]
pub struct ColumnSummary {
    pub name: String,
    pub column_type: String,
    pub nullable: bool,
}

/// The body that answers a request to create a table.
#[derive(Debug)]
pub struct CreateTableResponse {
    pub ok: bool,
    pub table: String,
    pub column_count: usize,
    pub columns: Vec<ColumnSummary>,
}

/// A column as its table reports it: nullable unless it says otherwise.
pub open spec fn spec_summarize(column: ColumnDef) -> ColumnSummary {
    ColumnSummary {
        name: column.name,
        column_type: column.column_type,
        nullable: match column.nullable {
            Some(nullable) => nullable,
            None => true,
        },
    }
}

/// Answers a request to create a table: with success, the name of the
/// table, and its columns in the order given, each nullable unless it says
/// otherwise.
pub fn create_table(req: CreateTableRequest) -> (response: (u16, CreateTableResponse))
    ensures
        response.0 == STATUS_OK,
        response.1.ok,
        response.1.table == req.name,
        response.1.column_count == req.columns@.len(),
        response.1.columns@ == req.columns@.map_values(|column: ColumnDef| spec_summarize(column)),
{
    let CreateTableRequest { name, columns: defs } = req;
    let mut columns: Vec<ColumnSummary> = Vec::new();
    let mut i: usize = 0;
    while i < defs.len()
        invariant
            i <= defs@.len(),
            columns@.len() == i,
            forall|j: int| 0 <= j < i ==> #[trigger] columns@[j] == spec_summarize(defs@[j]),
        decreases defs@.len() - i,
    {
        let def = &defs[i];
        let nullable = match def.nullable {
            Some(nullable) => nullable,
            None => true,
        };
        columns.push(
            ColumnSummary { name: def.name.clone(), column_type: def.column_type.clone(), nullable },
        );
        i += 1;
    }
    assert(columns@ =~= defs@.map_values(|column: ColumnDef| spec_summarize(column)));
    let column_count = columns.len();
    (STATUS_OK, CreateTableResponse { ok: true, table: name, column_count, columns })
}

} // verus!
