//! The native handle contract as plain values: each operation that the
//! engine offers, and what it answers.
//!
//! Nothing here touches the engine. A driver outside this library performs a
//! [`NativeCall`] and hands back the [`NativeReply`].

use vstd::prelude::*;

use crate::text::cell_bytes;

verus! {

/// One operation of the native handle contract. Handles are addresses; zero
/// is the null handle.
#[derive(Debug, Clone, PartialEq, Eq)]
pub enum NativeCall {
    /// Create a storage resource.
    CreateStorage,
    /// Release a storage resource, which must not be used afterwards.
    DestroyStorage { storage: usize },
    /// Run a query; `query` holds its bytes without the terminator.
    ExecuteQuery { storage: usize, query: Vec<u8> },
    /// Move a result to its next row.
    NextRow { result: usize },
    /// Ask a result for its number of columns.
    ColumnCount { result: usize },
    /// Ask a result for one column of its current row.
    GetString { result: usize, column: i32 },
    /// Release a result.
    DestroyResult { result: usize },
}

/// What the native side answers to a [`NativeCall`].
#[derive(Debug, Clone, PartialEq, Eq)]
pub enum NativeReply {
    /// The handle that create or execute returned; zero is null.
    Handle(usize),
    /// A destroy call returned.
    Released,
    /// What next-row returned; nonzero means that a row is available.
    Flag(i32),
    /// What column-count returned; it may be negative.
    Count(i32),
    /// What get-string returned: the bytes before the terminator, or null.
    Text(Option<Vec<u8>>),
}

/// A [`NativeCall`] in specifications.
pub enum CallView {
    CreateStorage,
    DestroyStorage { storage: usize },
    ExecuteQuery { storage: usize, query: Seq<u8> },
    NextRow { result: usize },
    ColumnCount { result: usize },
    GetString { result: usize, column: i32 },
    DestroyResult { result: usize },
}

/// A [`NativeReply`] in specifications.
pub enum ReplyView {
    Handle(usize),
    Released,
    Flag(i32),
    Count(i32),
    Text(Option<Seq<u8>>),
}

impl View for NativeCall {
    type V = CallView;

    open spec fn view(&self) -> CallView {
        match *self {
            NativeCall::CreateStorage => CallView::CreateStorage,
            NativeCall::DestroyStorage { storage } => CallView::DestroyStorage { storage },
            NativeCall::ExecuteQuery { storage, query } => CallView::ExecuteQuery {
                storage,
                query: query@,
            },
            NativeCall::NextRow { result } => CallView::NextRow { result },
            NativeCall::ColumnCount { result } => CallView::ColumnCount { result },
            NativeCall::GetString { result, column } => CallView::GetString { result, column },
            NativeCall::DestroyResult { result } => CallView::DestroyResult { result },
        }
    }
}

impl View for NativeReply {
    type V = ReplyView;

    open spec fn view(&self) -> ReplyView {
        match *self {
            NativeReply::Handle(raw) => ReplyView::Handle(raw),
            NativeReply::Released => ReplyView::Released,
            NativeReply::Flag(flag) => ReplyView::Flag(flag),
            NativeReply::Count(count) => ReplyView::Count(count),
            NativeReply::Text(cell) => ReplyView::Text(cell_bytes(cell)),
        }
    }
}

impl CallView {
    /// The storage that this call uses, if it uses one.
    pub open spec fn storage_used(self) -> Option<usize> {
        match self {
            CallView::DestroyStorage { storage } => Some(storage),
            CallView::ExecuteQuery { storage, .. } => Some(storage),
            _ => None,
        }
    }

    /// The result that this call uses, if it uses one.
    pub open spec fn result_used(self) -> Option<usize> {
        match self {
            CallView::NextRow { result } => Some(result),
            CallView::ColumnCount { result } => Some(result),
            CallView::GetString { result, .. } => Some(result),
            CallView::DestroyResult { result } => Some(result),
            _ => None,
        }
    }
}

} // verus!
