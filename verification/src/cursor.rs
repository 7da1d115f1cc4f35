//! The cursor over one live native result: its handle and the progress of
//! its drain.

use vstd::prelude::*;

use crate::drain::Drain;
use crate::drain::DrainPhase;
use crate::drain::DrainRequest;
use crate::drain::DrainView;
use crate::error::FfiError;
use crate::native::CallView;
use crate::native::NativeCall;
use crate::native::NativeReply;
use crate::native::ReplyView;

verus! {

/// The native call that performs `request` on the result `raw`.
pub open spec fn spec_cursor_call(raw: usize, request: DrainRequest) -> CallView {
    match request {
        DrainRequest::ColumnCount => CallView::ColumnCount { result: raw },
        DrainRequest::NextRow => CallView::NextRow { result: raw },
        DrainRequest::GetString { column } => CallView::GetString { result: raw, column },
    }
}

/// The native call that performs `request` on the result `raw`.
pub fn cursor_call(raw: usize, request: DrainRequest) -> (call: NativeCall)
    ensures
        call@ == spec_cursor_call(raw, request),
{
    match request {
        DrainRequest::ColumnCount => NativeCall::ColumnCount { result: raw },
        DrainRequest::NextRow => NativeCall::NextRow { result: raw },
        DrainRequest::GetString { column } => NativeCall::GetString { result: raw, column },
    }
}

/// A [`Cursor`] in specifications.
pub struct CursorView {
    /// The handle of the native result; never null.
    pub raw: usize,
    pub drain: DrainView,
}

impl CursorView {
    /// The cursor over a result that was just returned.
    pub open spec fn start(raw: usize) -> CursorView {
        CursorView { raw, drain: DrainView::start() }
    }

    /// The call that the cursor asks for next; none once it is drained.
    pub open spec fn pending(self) -> Option<CallView> {
        match self.drain.pending() {
            Some(request) => Some(spec_cursor_call(self.raw, request)),
            None => None,
        }
    }

    /// The cursor after one answer.
    pub open spec fn step(self, reply: ReplyView) -> CursorView {
        CursorView { drain: self.drain.step(reply), ..self }
    }

    /// The call that releases the result.
    pub open spec fn release(self) -> CallView {
        CallView::DestroyResult { result: self.raw }
    }
}

/// The cursor over one live native result. It is made from the handle that
/// execute returned, and gives the handle up only in [`Cursor::close`].
pub struct Cursor {
    raw: usize,
    drain: Drain,
}

impl View for Cursor {
    type V = CursorView;

    closed spec fn view(&self) -> CursorView {
        CursorView { raw: self.raw, drain: self.drain@ }
    }
}

impl Cursor {
    #[verifier::type_invariant]
    spec fn inv(self) -> bool {
        self.raw != 0 && self.drain@.wf()
    }

    /// Takes what the native execute call returned. A null handle means that
    /// the engine rejected the query.
    pub fn new(raw: usize) -> (cursor: Result<Cursor, FfiError>)
        ensures
            raw == 0 ==> cursor == Err::<Cursor, FfiError>(FfiError::ExecuteQueryFailed),
            raw != 0 ==> cursor is Ok && cursor->Ok_0@ == CursorView::start(raw),
    {
        if raw == 0 {
            Err(FfiError::ExecuteQueryFailed)
        } else {
            Ok(Cursor { raw, drain: Drain::new() })
        }
    }

    /// The handle of the native result.
    pub fn raw(&self) -> (raw: usize)
        ensures
            raw == self@.raw,
            raw != 0,
    {
        proof {
            use_type_invariant(self);
        }
        self.raw
    }

    /// Whether every row has been read.
    pub fn is_drained(&self) -> (drained: bool)
        ensures
            drained == (self@.drain.phase == DrainPhase::Finished),
            self@.drain.wf(),
    {
        self.drain.is_finished()
    }

    /// The call to perform next on the native result; none once the cursor
    /// is drained.
    pub fn pending(&self) -> (call: Option<NativeCall>)
        ensures
            call is Some <==> self@.pending() is Some,
            call is Some ==> call->0@ == self@.pending()->0,
            self@.drain.wf(),
    {
        match self.drain.pending() {
            Some(request) => Some(cursor_call(self.raw, request)),
            None => None,
        }
    }

    /// Takes the answer to the pending call.
    pub fn accept(self, reply: NativeReply) -> (next: Cursor)
        ensures
            next@ == self@.step(reply@),
            next@.drain.wf(),
    {
        proof {
            use_type_invariant(&self);
        }
        let Cursor { raw, drain } = self;
        Cursor { raw, drain: drain.accept(reply) }
    }

    /// Gives the cursor up: the call that releases the native result, and
    /// the rows read so far. However much was read, this is the one release.
    pub fn close(self) -> (end: (NativeCall, Vec<Vec<String>>))
        ensures
            end.0@ == self@.release(),
            end.1.deep_view() == self@.drain.rows,
    {
        let Cursor { raw, drain } = self;
        (NativeCall::DestroyResult { result: raw }, drain.into_rows())
    }
}

} // verus!
