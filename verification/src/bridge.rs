//! The blocking bridge: one query, moved off the scheduler onto a blocking
//! worker, run there to the end, and delivered as rows.
//!
//! The bridge is a state machine. A driver performs each [`BridgeAction`] and
//! reports back with a [`BridgeEvent`]; the bridge itself neither blocks nor
//! calls the engine. Once dispatched, a run cannot be interrupted: a caller
//! that stops waiting does not stop the native call.

use vstd::prelude::*;
use vstd::slice::slice_to_vec;
use vstd::string::StringSliceAdditionalSpecFns;

use crate::cursor::Cursor;
use crate::cursor::CursorView;
use crate::drain::lemma_step_keeps_wf;
use crate::drain::DrainPhase;
use crate::drain::DrainView;
use crate::error::FfiError;
use crate::native::CallView;
use crate::native::NativeCall;
use crate::native::NativeReply;
use crate::native::ReplyView;
use crate::result_set::drain_run;
use crate::result_set::lemma_drain_run_renders;
use crate::result_set::render;
use crate::result_set::steps_left;
use crate::result_set::ResultSetView;
use crate::storage::StorageRaw;
use crate::text::bytes_contain_terminator;
use crate::text::has_terminator;
use crate::text::query_bytes;

verus! {

/// What happened to a bridged run since the last action.
#[derive(Debug, Clone, PartialEq, Eq)]
pub enum BridgeEvent {
    /// The run was handed to the blocking pool.
    Dispatched,
    /// A worker picked the run up.
    Started,
    /// The native side answered the last call.
    Native(NativeReply),
    /// The worker ended abnormally, or was cancelled.
    WorkerLost,
}

/// What the driver of a bridged run has to do next.
#[derive(Debug, Clone, PartialEq, Eq)]
pub enum BridgeAction {
    /// Hand the run to the blocking pool.
    Dispatch,
    /// Start working on the run, on a blocking worker.
    Start,
    /// Perform this native call, on the worker.
    Call(NativeCall),
    /// Deliver the outcome to the caller.
    Deliver,
}

/// A [`BridgeEvent`] in specifications.
pub enum EventView {
    Dispatched,
    Started,
    Native(ReplyView),
    WorkerLost,
}

/// A [`BridgeAction`] in specifications.
pub enum ActionView {
    Dispatch,
    Start,
    Call(CallView),
    Deliver,
}

impl View for BridgeEvent {
    type V = EventView;

    open spec fn view(&self) -> EventView {
        match *self {
            BridgeEvent::Dispatched => EventView::Dispatched,
            BridgeEvent::Started => EventView::Started,
            BridgeEvent::Native(reply) => EventView::Native(reply@),
            BridgeEvent::WorkerLost => EventView::WorkerLost,
        }
    }
}

impl View for BridgeAction {
    type V = ActionView;

    open spec fn view(&self) -> ActionView {
        match *self {
            BridgeAction::Dispatch => ActionView::Dispatch,
            BridgeAction::Start => ActionView::Start,
            BridgeAction::Call(call) => ActionView::Call(call@),
            BridgeAction::Deliver => ActionView::Deliver,
        }
    }
}

/// One bridged run of a query.
pub enum Bridge {
    /// The caller asked for the run.
    Requested { storage: StorageRaw, query: Vec<u8> },
    /// The run waits in the blocking pool.
    Dispatched { storage: StorageRaw, query: Vec<u8> },
    /// The worker runs the native query call.
    Executing { storage: StorageRaw, query: Vec<u8> },
    /// The worker drains the result and releases it.
    Materializing { storage: StorageRaw, cursor: Cursor },
    /// The rows are ready for the caller.
    Completed { rows: Vec<Vec<String>> },
    /// The run ended without rows.
    Failed { error: FfiError },
}

/// A [`Bridge`] in specifications.
pub enum BridgeView {
    Requested { storage: usize, query: Seq<u8> },
    Dispatched { storage: usize, query: Seq<u8> },
    Executing { storage: usize, query: Seq<u8> },
    Materializing { storage: usize, cursor: CursorView },
    Completed { rows: Seq<Seq<Seq<char>>> },
    Failed { error: FfiError },
}

impl View for Bridge {
    type V = BridgeView;

    open spec fn view(&self) -> BridgeView {
        match *self {
            Bridge::Requested { storage, query } => BridgeView::Requested {
                storage: storage.0,
                query: query@,
            },
            Bridge::Dispatched { storage, query } => BridgeView::Dispatched {
                storage: storage.0,
                query: query@,
            },
            Bridge::Executing { storage, query } => BridgeView::Executing {
                storage: storage.0,
                query: query@,
            },
            Bridge::Materializing { storage, cursor } => BridgeView::Materializing {
                storage: storage.0,
                cursor: cursor@,
            },
            Bridge::Completed { rows } => BridgeView::Completed { rows: rows.deep_view() },
            Bridge::Failed { error } => BridgeView::Failed { error },
        }
    }
}

impl BridgeView {
    /// Whether the run has ended.
    pub open spec fn is_terminal(self) -> bool {
        self is Completed || self is Failed
    }

    /// What the driver has to do next.
    pub open spec fn action(self) -> ActionView {
        match self {
            BridgeView::Requested { .. } => ActionView::Dispatch,
            BridgeView::Dispatched { .. } => ActionView::Start,
            BridgeView::Executing { storage, query } => ActionView::Call(
                CallView::ExecuteQuery { storage, query },
            ),
            BridgeView::Materializing { cursor, .. } => match cursor.pending() {
                Some(call) => ActionView::Call(call),
                None => ActionView::Call(cursor.release()),
            },
            BridgeView::Completed { .. } => ActionView::Deliver,
            BridgeView::Failed { .. } => ActionView::Deliver,
        }
    }

    /// The run after one event. An event that the state does not wait for
    /// changes nothing.
    pub open spec fn step(self, event: EventView) -> BridgeView {
        match (self, event) {
            (BridgeView::Requested { storage, query }, EventView::Dispatched) => {
                BridgeView::Dispatched { storage, query }
            },
            (BridgeView::Dispatched { storage, query }, EventView::Started) => {
                if has_terminator(query) {
                    BridgeView::Failed { error: FfiError::WorkerFailed }
                } else {
                    BridgeView::Executing { storage, query }
                }
            },
            (BridgeView::Executing { storage, .. }, EventView::Native(ReplyView::Handle(raw))) => {
                if raw == 0 {
                    BridgeView::Failed { error: FfiError::ExecuteQueryFailed }
                } else {
                    BridgeView::Materializing { storage, cursor: CursorView::start(raw) }
                }
            },
            (BridgeView::Materializing { storage, cursor }, EventView::Native(reply)) => {
                if cursor.drain.phase != DrainPhase::Finished {
                    BridgeView::Materializing { storage, cursor: cursor.step(reply) }
                } else if reply is Released {
                    BridgeView::Completed { rows: cursor.drain.rows }
                } else {
                    self
                }
            },
            (BridgeView::Dispatched { .. }, EventView::WorkerLost) => BridgeView::Failed {
                error: FfiError::WorkerFailed,
            },
            (BridgeView::Executing { .. }, EventView::WorkerLost) => BridgeView::Failed {
                error: FfiError::WorkerFailed,
            },
            (BridgeView::Materializing { .. }, EventView::WorkerLost) => BridgeView::Failed {
                error: FfiError::WorkerFailed,
            },
            _ => self,
        }
    }

    /// What the caller receives: nothing before the run has ended.
    pub open spec fn outcome(self) -> Option<Result<Seq<Seq<Seq<char>>>, FfiError>> {
        match self {
            BridgeView::Completed { rows } => Some(Ok(rows)),
            BridgeView::Failed { error } => Some(Err(error)),
            _ => None,
        }
    }
}

/// The drain of a run that is materializing.
pub open spec fn drain_of(bridge: BridgeView) -> DrainView {
    match bridge {
        BridgeView::Materializing { cursor, .. } => cursor.drain,
        _ => DrainView { phase: DrainPhase::Finished, ..DrainView::start() },
    }
}

/// A run that is materializing, taken to its end on a native result: each
/// call of the drain is answered by the result, and the release of the
/// drained result is confirmed.
pub open spec fn materialize(bridge: BridgeView, native: ResultSetView) -> BridgeView
    decreases
            (if drain_of(bridge).phase == DrainPhase::Counting {
                1int
            } else {
                0int
            }),
            native.rows.len() - native.consumed,
            steps_left(drain_of(bridge)),
    when native.wf() && drain_of(bridge).wf()
{
    match bridge {
        BridgeView::Materializing { cursor, .. } => match cursor.drain.pending() {
            Some(request) => {
                let (reply, next) = native.answer(request);
                materialize(bridge.step(EventView::Native(reply)), next)
            },
            None => bridge.step(EventView::Native(ReplyView::Released)),
        },
        _ => bridge,
    }
}

/// A materializing run completes with the rows that its drain ends with.
proof fn lemma_materialize_follows_drain(storage: usize, cursor: CursorView, native: ResultSetView)
    requires
        native.wf(),
        cursor.drain.wf(),
    ensures
        materialize(BridgeView::Materializing { storage, cursor }, native) == (
        BridgeView::Completed { rows: drain_run(native, cursor.drain).1.rows }),
    decreases
            (if cursor.drain.phase == DrainPhase::Counting {
                1int
            } else {
                0int
            }),
            native.rows.len() - native.consumed,
            steps_left(cursor.drain),
{
    if cursor.drain.pending() is Some {
        let (reply, next) = native.answer(cursor.drain.pending()->0);
        lemma_step_keeps_wf(cursor.drain, reply);
        lemma_materialize_follows_drain(storage, cursor.step(reply), next);
    }
}

/// A bridged run delivers what the sync form materializes. For a query
/// without the terminator byte, whose native call returns a result that is
/// not null: once dispatched and started, the run completes with every row
/// of the result from its cursor on, each with one value per column and an
/// absent value as the empty string.
pub proof fn lemma_bridge_delivers_rendered_rows(
    storage: usize,
    query: Seq<u8>,
    raw: usize,
    native: ResultSetView,
)
    requires
        !has_terminator(query),
        raw != 0,
        native.wf(),
    ensures
        materialize(
            (BridgeView::Requested { storage, query }).step(EventView::Dispatched).step(
                EventView::Started,
            ).step(EventView::Native(ReplyView::Handle(raw))),
            native,
        ) == (BridgeView::Completed { rows: render(native.columns, native.pending_rows()) }),
{
    lemma_materialize_follows_drain(storage, CursorView::start(raw), native);
    lemma_drain_run_renders(native);
}

/// A bridged run fails as the sync form does, and on its own account: with
/// `WorkerFailed` where the query holds the terminator byte or the worker
/// is lost, with `ExecuteQueryFailed` where the native call returns null.
pub proof fn lemma_bridge_failures(storage: usize, query: Seq<u8>)
    ensures
        ({
            let started = (BridgeView::Requested { storage, query }).step(
                EventView::Dispatched,
            ).step(EventView::Started);
            &&& has_terminator(query) ==> started == (BridgeView::Failed {
                error: FfiError::WorkerFailed,
            })
            &&& !has_terminator(query) ==> started.step(
                EventView::Native(ReplyView::Handle(0)),
            ) == (BridgeView::Failed { error: FfiError::ExecuteQueryFailed })
            &&& !has_terminator(query) ==> started.step(EventView::WorkerLost) == (
            BridgeView::Failed { error: FfiError::WorkerFailed })
        }),
{
}

/// What a caller receives, in specifications.
pub open spec fn outcome_view(outcome: Result<Vec<Vec<String>>, FfiError>) -> Result<
    Seq<Seq<Seq<char>>>,
    FfiError,
> {
    match outcome {
        Ok(rows) => Ok(rows.deep_view()),
        Err(error) => Err(error),
    }
}

impl Bridge {
    /// A run of `query` against the storage behind `storage`, as requested
    /// by a caller. The token is only ever used, never released.
    pub fn request(storage: StorageRaw, query: &str) -> (bridge: Bridge)
        ensures
            bridge@ == (BridgeView::Requested { storage: storage.0, query: query.spec_bytes() }),
    {
        Bridge::Requested { storage, query: query_bytes(query) }
    }

    /// Whether the run has ended.
    pub fn is_terminal(&self) -> (terminal: bool)
        ensures
            terminal == self@.is_terminal(),
    {
        match self {
            Bridge::Completed { .. } => true,
            Bridge::Failed { .. } => true,
            _ => false,
        }
    }

    /// What the driver has to do next. The bridge never asks for a storage
    /// to be created or released.
    pub fn action(&self) -> (action: BridgeAction)
        ensures
            action@ == self@.action(),
            !(action@ matches ActionView::Call(CallView::DestroyStorage { .. })),
            !(action@ matches ActionView::Call(CallView::CreateStorage)),
    {
        match self {
            Bridge::Requested { .. } => BridgeAction::Dispatch,
            Bridge::Dispatched { .. } => BridgeAction::Start,
            Bridge::Executing { storage, query } => BridgeAction::Call(
                NativeCall::ExecuteQuery { storage: storage.0, query: slice_to_vec(query.as_slice()) },
            ),
            Bridge::Materializing { cursor, .. } => match cursor.pending() {
                Some(call) => BridgeAction::Call(call),
                None => BridgeAction::Call(NativeCall::DestroyResult { result: cursor.raw() }),
            },
            Bridge::Completed { .. } => BridgeAction::Deliver,
            Bridge::Failed { .. } => BridgeAction::Deliver,
        }
    }

    /// Takes one event.
    ///
    /// A query that holds the terminator byte fails on the worker before any
    /// native call. A null result fails the run with `ExecuteQueryFailed`. A
    /// lost worker fails it with `WorkerFailed`, whatever it was doing. The
    /// run completes when the drained result has been released.
    pub fn step(self, event: BridgeEvent) -> (next: Bridge)
        ensures
            next@ == self@.step(event@),
    {
        match (self, event) {
            (Bridge::Requested { storage, query }, BridgeEvent::Dispatched) => {
                Bridge::Dispatched { storage, query }
            },
            (Bridge::Dispatched { storage, query }, BridgeEvent::Started) => {
                if bytes_contain_terminator(query.as_slice()) {
                    Bridge::Failed { error: FfiError::WorkerFailed }
                } else {
                    Bridge::Executing { storage, query }
                }
            },
            (Bridge::Executing { storage, query }, BridgeEvent::Native(NativeReply::Handle(raw))) => {
                match Cursor::new(raw) {
                    Ok(cursor) => Bridge::Materializing { storage, cursor },
                    Err(error) => Bridge::Failed { error },
                }
            },
            (Bridge::Materializing { storage, cursor }, BridgeEvent::Native(reply)) => {
                if !cursor.is_drained() {
                    Bridge::Materializing { storage, cursor: cursor.accept(reply) }
                } else {
                    match reply {
                        NativeReply::Released => {
                            let end = cursor.close();
                            Bridge::Completed { rows: end.1 }
                        },
                        _ => Bridge::Materializing { storage, cursor },
                    }
                }
            },
            (Bridge::Dispatched { .. }, BridgeEvent::WorkerLost) => Bridge::Failed {
                error: FfiError::WorkerFailed,
            },
            (Bridge::Executing { .. }, BridgeEvent::WorkerLost) => Bridge::Failed {
                error: FfiError::WorkerFailed,
            },
            (Bridge::Materializing { .. }, BridgeEvent::WorkerLost) => Bridge::Failed {
                error: FfiError::WorkerFailed,
            },
            (bridge, _) => bridge,
        }
    }

    /// What the caller receives; nothing before the run has ended.
    pub fn into_outcome(self) -> (outcome: Option<Result<Vec<Vec<String>>, FfiError>>)
        ensures
            outcome is Some <==> self@.is_terminal(),
            outcome is Some ==> Some(outcome_view(outcome->0)) == self@.outcome(),
    {
        match self {
            Bridge::Completed { rows } => Some(Ok(rows)),
            Bridge::Failed { error } => Some(Err(error)),
            _ => None,
        }
    }

    /// What the caller receives from the blocking pool: the outcome of the
    /// run that the worker handed back, or `WorkerFailed` where the worker
    /// handed back nothing or an unfinished run.
    pub fn join(returned: Option<Bridge>) -> (outcome: Result<Vec<Vec<String>>, FfiError>)
        ensures
            match returned {
                Some(bridge) => match bridge@.outcome() {
                    Some(ended) => outcome_view(outcome) == ended,
                    None => outcome == Err::<Vec<Vec<String>>, FfiError>(FfiError::WorkerFailed),
                },
                None => outcome == Err::<Vec<Vec<String>>, FfiError>(FfiError::WorkerFailed),
            },
    {
        match returned {
            Some(bridge) => match bridge.into_outcome() {
                Some(outcome) => outcome,
                None => Err(FfiError::WorkerFailed),
            },
            None => Err(FfiError::WorkerFailed),
        }
    }
}

} // verus!
