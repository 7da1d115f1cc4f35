//! The lifecycle of native resources, as a ledger of the calls made.
//!
//! A storage is released exactly once, never while a result of it is live,
//! and nothing is used after its release. The [`Ledger`] watches a sequence
//! of native calls and records the first breach of these rules. The runs
//! that this library drives are shown to keep them.

use std::collections::HashMap;
use vstd::prelude::*;

use crate::bridge::BridgeView;
use crate::bridge::EventView;
use crate::drain::lemma_step_keeps_wf;
use crate::native::CallView;
use crate::native::NativeCall;
use crate::native::NativeReply;
use crate::native::ReplyView;

verus! {

broadcast use vstd::std_specs::hash::group_hash_axioms;

/// A count one higher, as far as the machine can count.
pub open spec fn spec_bump(count: usize) -> usize {
    if count < usize::MAX {
        (count + 1) as usize
    } else {
        count
    }
}

/// A [`Ledger`] in specifications.
pub struct LedgerView {
    /// The live storages, each with the number of its live results.
    pub storages: Map<usize, usize>,
    /// The live results, each with the storage that returned it.
    pub results: Map<usize, usize>,
    /// Whether a call has broken the lifecycle rules.
    pub faulted: bool,
}

impl LedgerView {
    /// The ledger before any call.
    pub open spec fn empty() -> LedgerView {
        LedgerView { storages: Map::empty(), results: Map::empty(), faulted: false }
    }

    /// Whether `result` is live and its storage is too.
    pub open spec fn usable(self, result: usize) -> bool {
        self.results.contains_key(result) && self.storages.contains_key(self.results[result])
    }

    /// Whether `call` keeps the lifecycle rules in this state.
    pub open spec fn admits(self, call: CallView) -> bool {
        match call {
            CallView::CreateStorage => true,
            CallView::DestroyStorage { storage } => self.storages.contains_key(storage)
                && self.storages[storage] == 0,
            CallView::ExecuteQuery { storage, .. } => self.storages.contains_key(storage),
            CallView::NextRow { result } => self.usable(result),
            CallView::ColumnCount { result } => self.usable(result),
            CallView::GetString { result, .. } => self.usable(result),
            CallView::DestroyResult { result } => self.usable(result),
        }
    }

    /// Whether `reply` is of the kind that answers `call`, and names no
    /// handle that is live already.
    pub open spec fn expects(self, call: CallView, reply: ReplyView) -> bool {
        match (call, reply) {
            (CallView::CreateStorage, ReplyView::Handle(raw)) => !self.storages.contains_key(raw),
            (CallView::ExecuteQuery { .. }, ReplyView::Handle(raw)) => !self.results.contains_key(
                raw,
            ),
            (CallView::DestroyStorage { .. }, ReplyView::Released) => true,
            (CallView::DestroyResult { .. }, ReplyView::Released) => true,
            (CallView::NextRow { .. }, ReplyView::Flag(_)) => true,
            (CallView::ColumnCount { .. }, ReplyView::Count(_)) => true,
            (CallView::GetString { .. }, ReplyView::Text(_)) => true,
            _ => false,
        }
    }

    /// The ledger with a breach recorded.
    pub open spec fn fault(self) -> LedgerView {
        LedgerView { faulted: true, ..self }
    }

    /// The ledger after `call` was made and answered with `reply`.
    pub open spec fn observe(self, call: CallView, reply: ReplyView) -> LedgerView {
        match call {
            CallView::CreateStorage => match reply {
                ReplyView::Handle(raw) => if raw == 0 {
                    self
                } else if self.storages.contains_key(raw) {
                    self.fault()
                } else {
                    LedgerView { storages: self.storages.insert(raw, 0), ..self }
                },
                _ => self,
            },
            CallView::DestroyStorage { storage } => if !self.storages.contains_key(storage) {
                self.fault()
            } else {
                LedgerView {
                    storages: self.storages.remove(storage),
                    faulted: self.faulted || self.storages[storage] != 0,
                    ..self
                }
            },
            CallView::ExecuteQuery { storage, .. } => if !self.storages.contains_key(storage) {
                self.fault()
            } else {
                match reply {
                    ReplyView::Handle(raw) => if raw == 0 {
                        self
                    } else if self.results.contains_key(raw) {
                        self.fault()
                    } else {
                        LedgerView {
                            storages: self.storages.insert(
                                storage,
                                spec_bump(self.storages[storage]),
                            ),
                            results: self.results.insert(raw, storage),
                            ..self
                        }
                    },
                    _ => self,
                }
            },
            CallView::NextRow { result } => if self.usable(result) {
                self
            } else {
                self.fault()
            },
            CallView::ColumnCount { result } => if self.usable(result) {
                self
            } else {
                self.fault()
            },
            CallView::GetString { result, .. } => if self.usable(result) {
                self
            } else {
                self.fault()
            },
            CallView::DestroyResult { result } => if !self.results.contains_key(result) {
                self.fault()
            } else {
                let storage = self.results[result];
                if !self.storages.contains_key(storage) {
                    LedgerView { results: self.results.remove(result), faulted: true, ..self }
                } else {
                    let live = self.storages[storage];
                    LedgerView {
                        storages: self.storages.insert(
                            storage,
                            if live > 0 {
                                (live - 1) as usize
                            } else {
                                live
                            },
                        ),
                        results: self.results.remove(result),
                        ..self
                    }
                }
            },
        }
    }

    /// Whether a bridged run stands well with the ledger: no breach so far,
    /// the storage of the run is live, and so is the result that it drains.
    pub open spec fn tracks(self, bridge: BridgeView) -> bool {
        &&& !self.faulted
        &&& match bridge {
            BridgeView::Requested { storage, .. } => self.storages.contains_key(storage),
            BridgeView::Dispatched { storage, .. } => self.storages.contains_key(storage),
            BridgeView::Executing { storage, .. } => self.storages.contains_key(storage),
            BridgeView::Materializing { storage, cursor } => {
                &&& self.storages.contains_key(storage)
                &&& self.results.contains_pair(cursor.raw, storage)
                &&& cursor.drain.wf()
            },
            BridgeView::Completed { .. } => true,
            BridgeView::Failed { .. } => true,
        }
    }
}

/// A breach stays on record: no later call clears it.
pub proof fn lemma_fault_is_kept(ledger: LedgerView, call: CallView, reply: ReplyView)
    requires
        ledger.faulted,
    ensures
        ledger.observe(call, reply).faulted,
{
}

/// A call is a breach exactly when the ledger does not admit it, provided
/// that the native side answers in kind and hands out no live handle.
pub proof fn lemma_breach_iff_not_admitted(ledger: LedgerView, call: CallView, reply: ReplyView)
    requires
        !ledger.faulted,
        ledger.expects(call, reply),
    ensures
        ledger.observe(call, reply).faulted <==> !ledger.admits(call),
{
}

/// A storage is released exactly once, and nothing uses it afterwards:
/// after its release, which the ledger admits only while no result of the
/// storage is live, every call that names the storage is a breach, a second
/// release included.
pub proof fn lemma_release_ends_use(
    ledger: LedgerView,
    storage: usize,
    later: CallView,
    reply: ReplyView,
)
    requires
        ledger.storages.contains_key(storage),
        later.storage_used() == Some(storage),
    ensures
        ({
            let released = ledger.observe(CallView::DestroyStorage { storage }, ReplyView::Released);
            &&& !released.storages.contains_key(storage)
            &&& released.faulted == (ledger.faulted || ledger.storages[storage] != 0)
            &&& released.observe(later, reply).faulted
        }),
{
}

/// Every native call of a bridged run keeps the lifecycle rules, as long as
/// the storage of the run stays live: the ledger admits the call, the run
/// keeps standing well with the ledger, the storage is never released by
/// it, and the result that the run opened is released when it completes.
pub proof fn lemma_bridge_keeps_rules(ledger: LedgerView, bridge: BridgeView, reply: ReplyView)
    requires
        ledger.tracks(bridge),
        bridge.action() is Call,
        ledger.expects(bridge.action()->Call_0, reply),
    ensures
        ({
            let call = bridge.action()->Call_0;
            let after = ledger.observe(call, reply);
            let next = bridge.step(EventView::Native(reply));
            &&& ledger.admits(call)
            &&& after.tracks(next)
            &&& after.storages.dom() == ledger.storages.dom()
            &&& next is Completed ==> after.results == ledger.results.remove(
                bridge->Materializing_cursor.raw,
            )
        }),
{
    match bridge {
        BridgeView::Materializing { storage, cursor } => {
            lemma_step_keeps_wf(cursor.drain, reply);
        },
        _ => {},
    }
}

/// A watcher of native calls that records breaches of the lifecycle rules.
pub struct Ledger {
    storages: HashMap<usize, usize>,
    results: HashMap<usize, usize>,
    faulted: bool,
}

impl View for Ledger {
    type V = LedgerView;

    closed spec fn view(&self) -> LedgerView {
        LedgerView { storages: self.storages@, results: self.results@, faulted: self.faulted }
    }
}

impl Ledger {
    /// A ledger that has seen no call.
    pub fn new() -> (ledger: Ledger)
        ensures
            ledger@ == LedgerView::empty(),
    {
        Ledger { storages: HashMap::new(), results: HashMap::new(), faulted: false }
    }

    /// Whether a call has broken the lifecycle rules.
    pub fn is_faulted(&self) -> (faulted: bool)
        ensures
            faulted == self@.faulted,
    {
        self.faulted
    }

    /// Whether `storage` is live.
    pub fn holds_storage(&self, storage: usize) -> (live: bool)
        ensures
            live == self@.storages.contains_key(storage),
    {
        self.storages.contains_key(&storage)
    }

    /// Whether `result` is live.
    pub fn holds_result(&self, result: usize) -> (live: bool)
        ensures
            live == self@.results.contains_key(result),
    {
        self.results.contains_key(&result)
    }

    /// Whether nothing is live: every storage and every result that was
    /// handed out has been released.
    pub fn is_settled(&self) -> (settled: bool)
        ensures
            settled == (self@.storages.dom().len() == 0 && self@.results.dom().len() == 0),
    {
        self.storages.len() == 0 && self.results.len() == 0
    }

    /// Whether `result` is live and its storage is too.
    fn is_usable(&self, result: usize) -> (usable: bool)
        ensures
            usable == self@.usable(result),
    {
        match self.results.get(&result) {
            Some(storage) => self.storages.contains_key(storage),
            None => false,
        }
    }

    /// Records that `call` was made and answered with `reply`.
    pub fn observe(&mut self, call: &NativeCall, reply: &NativeReply)
        ensures
            final(self)@ == old(self)@.observe(call@, reply@),
    {
        match call {
            NativeCall::CreateStorage => match reply {
                NativeReply::Handle(raw) => {
                    if *raw != 0 {
                        if self.storages.contains_key(raw) {
                            self.faulted = true;
                        } else {
                            self.storages.insert(*raw, 0);
                        }
                    }
                },
                _ => {},
            },
            NativeCall::DestroyStorage { storage } => {
                match self.storages.remove(storage) {
                    Some(live) => {
                        if live != 0 {
                            self.faulted = true;
                        }
                    },
                    None => {
                        self.faulted = true;
                    },
                }
            },
            NativeCall::ExecuteQuery { storage, .. } => {
                let live = match self.storages.get(storage) {
                    Some(live) => Some(*live),
                    None => None,
                };
                match live {
                    None => {
                        self.faulted = true;
                    },
                    Some(live) => match reply {
                        NativeReply::Handle(raw) => {
                            if *raw != 0 {
                                if self.results.contains_key(raw) {
                                    self.faulted = true;
                                } else {
                                    let more = if live < usize::MAX {
                                        live + 1
                                    } else {
                                        live
                                    };
                                    self.storages.insert(*storage, more);
                                    self.results.insert(*raw, *storage);
                                }
                            }
                        },
                        _ => {},
                    },
                }
            },
            NativeCall::NextRow { result } => {
                if !self.is_usable(*result) {
                    self.faulted = true;
                }
            },
            NativeCall::ColumnCount { result } => {
                if !self.is_usable(*result) {
                    self.faulted = true;
                }
            },
            NativeCall::GetString { result, .. } => {
                if !self.is_usable(*result) {
                    self.faulted = true;
                }
            },
            NativeCall::DestroyResult { result } => {
                match self.results.remove(result) {
                    None => {
                        self.faulted = true;
                    },
                    Some(storage) => {
                        let live = match self.storages.get(&storage) {
                            Some(live) => Some(*live),
                            None => None,
                        };
                        match live {
                            None => {
                                self.faulted = true;
                            },
                            Some(live) => {
                                let fewer = if live > 0 {
                                    live - 1
                                } else {
                                    live
                                };
                                self.storages.insert(storage, fewer);
                            },
                        }
                    },
                }
            },
        }
        assert(self@.storages =~= old(self)@.observe(call@, reply@).storages);
        assert(self@.results =~= old(self)@.observe(call@, reply@).results);
    }
}

} // verus!
