//! Verified core of the KadeDB service layer: the protocol for driving a
//! native storage engine through opaque handles, and the authorization rules
//! of the network-facing services.

pub mod api;
pub mod auth;
pub mod bridge;
pub mod cursor;
pub mod drain;
pub mod error;
pub mod grpc;
pub mod ledger;
pub mod native;
pub mod result_set;
pub mod storage;
pub mod text;
