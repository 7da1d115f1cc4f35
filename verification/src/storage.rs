//! The handle of one native storage resource.

use vstd::prelude::*;
use vstd::string::StringSliceAdditionalSpecFns;
use vstd::utf8::encode_utf8;

use crate::bridge::Bridge;
use crate::bridge::BridgeView;
use crate::error::FfiError;
use crate::native::CallView;
use crate::native::NativeCall;
use crate::text::has_terminator;
use crate::text::query_bytes;

verus! {

/// The address of a native storage resource as a plain number, fit to cross
/// a thread boundary. It owns nothing: whoever holds it must not release the
/// resource.
#[derive(Debug, Clone, Copy, PartialEq, Eq, Structural)]
pub struct StorageRaw(pub usize);

/// The owner of one native storage resource. Its handle is never null.
pub struct Storage {
    raw: usize,
}

impl Storage {
    #[verifier::type_invariant]
    spec fn inv(self) -> bool {
        self.raw != 0
    }

    /// The address of the native resource.
    pub closed spec fn addr(&self) -> usize {
        self.raw
    }

    /// Takes what the native create call returned: a storage handle where it
    /// is not null, and no handle at all where it is.
    pub fn new(raw: usize) -> (storage: Result<Storage, FfiError>)
        ensures
            raw == 0 ==> storage == Err::<Storage, FfiError>(FfiError::CreateStorageFailed),
            raw != 0 ==> storage is Ok && storage->Ok_0.addr() == raw,
    {
        if raw == 0 {
            Err(FfiError::CreateStorageFailed)
        } else {
            Ok(Storage { raw })
        }
    }

    /// The token that stands for this storage on another thread.
    pub fn token(&self) -> (token: StorageRaw)
        ensures
            token.0 == self.addr(),
            token.0 != 0,
    {
        proof {
            use_type_invariant(self);
        }
        StorageRaw(self.raw)
    }

    /// The native call that runs `query` on this storage. What it returns is
    /// taken by [`crate::cursor::Cursor::new`].
    ///
    /// The query must not hold the terminator byte.
    pub fn execute_query(&self, query: &str) -> (call: NativeCall)
        requires
            !has_terminator(query.spec_bytes()),
        ensures
            call@ == (CallView::ExecuteQuery {
                storage: self.addr(),
                query: query.spec_bytes(),
            }),
            self.addr() != 0,
    {
        proof {
            use_type_invariant(self);
        }
        NativeCall::ExecuteQuery { storage: self.raw, query: query_bytes(query) }
    }

    /// Requests a bridged run of `query`, which hands back the materialized
    /// rows and never a live cursor.
    pub fn execute_query_rows_as_strings(&self, query: String) -> (bridge: Bridge)
        ensures
            bridge@ == (BridgeView::Requested {
                storage: self.addr(),
                query: encode_utf8(query@),
            }),
            self.addr() != 0,
    {
        Bridge::request(self.token(), query.as_str())
    }

    /// Gives the handle up and yields the call that releases the native
    /// resource. No cursor and no bridged call of this storage may be
    /// outstanding.
    pub fn destroy(self) -> (call: NativeCall)
        ensures
            call@ == (CallView::DestroyStorage { storage: self.addr() }),
            self.addr() != 0,
    {
        proof {
            use_type_invariant(&self);
        }
        NativeCall::DestroyStorage { storage: self.raw }
    }
}

} // verus!
