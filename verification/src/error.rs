//! Failures of the native bridge.

use vstd::prelude::*;
use vstd::string::StringExecFns;

verus! {

/// What can go wrong between a caller and the native storage engine.
#[derive(Debug, Clone, Copy, PartialEq, Eq, Structural)]
pub enum FfiError {
    /// The native create call returned a null handle.
    CreateStorageFailed,
    /// The native execute call returned a null result.
    ExecuteQueryFailed,
    /// Column bytes that are not valid UTF-8.
    InvalidText,
    /// The blocking worker ended before it delivered a result.
    WorkerFailed,
}

impl FfiError {
    /// The text that describes this failure.
    pub open spec fn spec_message(self) -> Seq<char> {
        match self {
            FfiError::CreateStorageFailed => "failed to create storage"@,
            FfiError::ExecuteQueryFailed => "query returned null result set"@,
            FfiError::InvalidText => "invalid utf8"@,
            FfiError::WorkerFailed => "blocking worker failed"@,
        }
    }

    /// Renders the failure as text.
    pub fn message(&self) -> (text: String)
        ensures
            text@ == self.spec_message(),
    {
        match self {
            FfiError::CreateStorageFailed => String::from_str("failed to create storage"),
            FfiError::ExecuteQueryFailed => String::from_str("query returned null result set"),
            FfiError::InvalidText => String::from_str("invalid utf8"),
            FfiError::WorkerFailed => String::from_str("blocking worker failed"),
        }
    }
}

} // verus!
