use kadedb_services::bridge::Bridge;
use kadedb_services::bridge::BridgeAction;
use kadedb_services::bridge::BridgeEvent;
use kadedb_services::error::FfiError;
use kadedb_services::ledger::Ledger;
use kadedb_services::native::NativeCall;
use kadedb_services::native::NativeReply;
use kadedb_services::result_set::ResultSet;
use kadedb_services::storage::Storage;
use kadedb_services::storage::StorageRaw;

/// A native side in memory: it answers a query with three rows that carry
/// the query's own text, keeps a ledger of every call, and hands out
/// handles by counting.
struct Engine {
    ledger: Ledger,
    next_handle: usize,
    results: Vec<(usize, ResultSet)>,
    create_fails: bool,
}

impl Engine {
    fn new() -> Engine {
        Engine { ledger: Ledger::new(), next_handle: 1, results: Vec::new(), create_fails: false }
    }

    fn fresh(&mut self) -> usize {
        let handle = self.next_handle;
        self.next_handle += 1;
        handle
    }

    fn result(&mut self, handle: usize) -> Option<&mut ResultSet> {
        self.results.iter_mut().find(|(h, _)| *h == handle).map(|(_, set)| set)
    }

    fn perform(&mut self, call: &NativeCall) -> NativeReply {
        let reply = match call {
            NativeCall::CreateStorage => {
                if self.create_fails {
                    NativeReply::Handle(0)
                } else {
                    NativeReply::Handle(self.fresh())
                }
            }
            NativeCall::DestroyStorage { .. } => NativeReply::Released,
            NativeCall::ExecuteQuery { query, .. } => {
                if query.starts_with(b"FAIL") {
                    NativeReply::Handle(0)
                } else {
                    let text = String::from_utf8(query.clone()).expect("utf8 query");
                    let rows = (1..=3)
                        .map(|n| vec![Some(format!("{text}#{n}").into_bytes()), None])
                        .collect();
                    let handle = self.fresh();
                    self.results.push((handle, ResultSet::new(2, rows)));
                    NativeReply::Handle(handle)
                }
            }
            NativeCall::NextRow { result } => {
                NativeReply::Flag(self.result(*result).map_or(0, |set| set.next_row() as i32))
            }
            NativeCall::ColumnCount { result } => {
                NativeReply::Count(self.result(*result).map_or(-1, |set| set.column_count()))
            }
            NativeCall::GetString { result, column } => {
                NativeReply::Text(self.result(*result).and_then(|set| set.get_bytes(*column)))
            }
            NativeCall::DestroyResult { result } => {
                self.results.retain(|(h, _)| h != result);
                NativeReply::Released
            }
        };
        self.ledger.observe(call, &reply);
        reply
    }
}

fn advance(engine: &mut Engine, bridge: Bridge) -> Bridge {
    match bridge.action() {
        BridgeAction::Dispatch => bridge.step(BridgeEvent::Dispatched),
        BridgeAction::Start => bridge.step(BridgeEvent::Started),
        BridgeAction::Call(call) => {
            let reply = engine.perform(&call);
            bridge.step(BridgeEvent::Native(reply))
        }
        BridgeAction::Deliver => bridge,
    }
}

fn run(engine: &mut Engine, mut bridge: Bridge) -> Result<Vec<Vec<String>>, FfiError> {
    while !bridge.is_terminal() {
        bridge = advance(engine, bridge);
    }
    Bridge::join(Some(bridge))
}

fn expected(query: &str) -> Vec<Vec<String>> {
    (1..=3).map(|n| vec![format!("{query}#{n}"), String::new()]).collect()
}

fn create(engine: &mut Engine) -> Result<Storage, FfiError> {
    match engine.perform(&NativeCall::CreateStorage) {
        NativeReply::Handle(raw) => Storage::new(raw),
        _ => unreachable!(),
    }
}

#[test]
fn create_storage_fails_when_native_create_returns_null() {
    let mut engine = Engine::new();
    engine.create_fails = true;
    assert_eq!(create(&mut engine).err(), Some(FfiError::CreateStorageFailed));
    assert!(!engine.ledger.is_faulted());
    assert!(engine.ledger.is_settled());
}

#[test]
fn bridged_run_delivers_the_materialized_rows() {
    let mut engine = Engine::new();
    let storage = create(&mut engine).expect("storage");
    let bridge = storage.execute_query_rows_as_strings("SELECT 1".to_string());
    assert_eq!(run(&mut engine, bridge), Ok(expected("SELECT 1")));
    assert!(engine.results.is_empty());
}

#[test]
fn bridge_walks_through_its_states() {
    let bridge = Bridge::request(StorageRaw(9), "q");
    assert_eq!(bridge.action(), BridgeAction::Dispatch);
    let bridge = bridge.step(BridgeEvent::Dispatched);
    assert_eq!(bridge.action(), BridgeAction::Start);
    let bridge = bridge.step(BridgeEvent::Started);
    assert_eq!(
        bridge.action(),
        BridgeAction::Call(NativeCall::ExecuteQuery { storage: 9, query: b"q".to_vec() })
    );
    let bridge = bridge.step(BridgeEvent::Native(NativeReply::Handle(5)));
    assert_eq!(bridge.action(), BridgeAction::Call(NativeCall::ColumnCount { result: 5 }));
    let bridge = bridge.step(BridgeEvent::Native(NativeReply::Count(0)));
    assert_eq!(bridge.action(), BridgeAction::Call(NativeCall::NextRow { result: 5 }));
    let bridge = bridge.step(BridgeEvent::Native(NativeReply::Flag(0)));
    assert_eq!(bridge.action(), BridgeAction::Call(NativeCall::DestroyResult { result: 5 }));
    assert!(!bridge.is_terminal());
    let bridge = bridge.step(BridgeEvent::Native(NativeReply::Flag(1)));
    assert_eq!(bridge.action(), BridgeAction::Call(NativeCall::DestroyResult { result: 5 }));
    let bridge = bridge.step(BridgeEvent::Native(NativeReply::Released));
    assert_eq!(bridge.action(), BridgeAction::Deliver);
    assert_eq!(bridge.into_outcome(), Some(Ok(vec![])));
}

#[test]
fn bridge_ignores_events_it_does_not_wait_for() {
    let bridge = Bridge::request(StorageRaw(9), "q");
    let bridge = bridge.step(BridgeEvent::Started);
    let bridge = bridge.step(BridgeEvent::WorkerLost);
    let bridge = bridge.step(BridgeEvent::Native(NativeReply::Handle(3)));
    assert_eq!(bridge.action(), BridgeAction::Dispatch);
    assert_eq!(bridge.into_outcome(), None);
}

#[test]
fn null_result_fails_the_bridged_run() {
    let mut engine = Engine::new();
    let storage = create(&mut engine).expect("storage");
    let bridge = storage.execute_query_rows_as_strings("FAIL now".to_string());
    assert_eq!(run(&mut engine, bridge), Err(FfiError::ExecuteQueryFailed));
    let bridge = storage.execute_query_rows_as_strings("again".to_string());
    assert_eq!(run(&mut engine, bridge), Ok(expected("again")));
}

#[test]
fn query_with_terminator_fails_before_the_native_boundary() {
    let bridge = Bridge::request(StorageRaw(9), "a\0b")
        .step(BridgeEvent::Dispatched)
        .step(BridgeEvent::Started);
    assert_eq!(bridge.action(), BridgeAction::Deliver);
    assert_eq!(bridge.into_outcome(), Some(Err(FfiError::WorkerFailed)));
}

#[test]
fn lost_worker_is_worker_failed() {
    let dispatched = Bridge::request(StorageRaw(9), "q").step(BridgeEvent::Dispatched);
    assert_eq!(
        dispatched.step(BridgeEvent::WorkerLost).into_outcome(),
        Some(Err(FfiError::WorkerFailed))
    );
    let executing = Bridge::request(StorageRaw(9), "q")
        .step(BridgeEvent::Dispatched)
        .step(BridgeEvent::Started);
    assert_eq!(
        executing.step(BridgeEvent::WorkerLost).into_outcome(),
        Some(Err(FfiError::WorkerFailed))
    );
    let materializing = Bridge::request(StorageRaw(9), "q")
        .step(BridgeEvent::Dispatched)
        .step(BridgeEvent::Started)
        .step(BridgeEvent::Native(NativeReply::Handle(4)));
    assert_eq!(
        materializing.step(BridgeEvent::WorkerLost).into_outcome(),
        Some(Err(FfiError::WorkerFailed))
    );
}

#[test]
fn join_without_a_run_is_worker_failed() {
    assert_eq!(Bridge::join(None), Err(FfiError::WorkerFailed));
    assert_eq!(
        Bridge::join(Some(Bridge::request(StorageRaw(9), "q"))),
        Err(FfiError::WorkerFailed)
    );
}

#[test]
fn ended_run_stays_as_it_is() {
    let done = Bridge::Completed { rows: vec![vec!["a".to_string()]] };
    let done = done.step(BridgeEvent::WorkerLost).step(BridgeEvent::Started);
    assert_eq!(done.into_outcome(), Some(Ok(vec![vec!["a".to_string()]])));
    let failed = Bridge::Failed { error: FfiError::ExecuteQueryFailed };
    let failed = failed.step(BridgeEvent::WorkerLost);
    assert_eq!(failed.into_outcome(), Some(Err(FfiError::ExecuteQueryFailed)));
}

#[test]
fn fifty_interleaved_runs_keep_their_rows_apart() {
    let mut engine = Engine::new();
    let storage = create(&mut engine).expect("storage");
    let mut runs: Vec<Option<Bridge>> = (0..50)
        .map(|n| Some(storage.execute_query_rows_as_strings(format!("query {n}"))))
        .collect();
    let mut live = runs.len();
    while live > 0 {
        live = 0;
        for slot in runs.iter_mut() {
            let bridge = slot.take().expect("run");
            let bridge = if bridge.is_terminal() { bridge } else { advance(&mut engine, bridge) };
            if !bridge.is_terminal() {
                live += 1;
            }
            *slot = Some(bridge);
        }
    }
    for (n, slot) in runs.into_iter().enumerate() {
        assert_eq!(Bridge::join(slot), Ok(expected(&format!("query {n}"))));
    }
    engine.perform(&storage.destroy());
    assert!(!engine.ledger.is_faulted());
    assert!(engine.ledger.is_settled());
}

#[test]
fn storage_is_released_once_after_its_last_use() {
    let mut engine = Engine::new();
    let storage = create(&mut engine).expect("storage");
    let raw = storage.token().0;
    assert!(engine.ledger.holds_storage(raw));
    let bridge = storage.execute_query_rows_as_strings("q".to_string());
    assert_eq!(run(&mut engine, bridge), Ok(expected("q")));
    engine.perform(&storage.destroy());
    assert!(!engine.ledger.holds_storage(raw));
    assert!(!engine.ledger.is_faulted());
    assert!(engine.ledger.is_settled());
}

#[test]
fn destroy_after_the_run_upholds_the_precondition() {
    let mut engine = Engine::new();
    let storage = create(&mut engine).expect("storage");
    let mut bridge = storage.execute_query_rows_as_strings("q".to_string());
    while !bridge.is_terminal() {
        bridge = advance(&mut engine, bridge);
        assert!(!engine.ledger.is_faulted());
    }
    engine.perform(&storage.destroy());
    assert!(!engine.ledger.is_faulted());
}

#[test]
fn destroy_during_a_run_is_detected() {
    let mut engine = Engine::new();
    let storage = create(&mut engine).expect("storage");
    let mut bridge = storage.execute_query_rows_as_strings("q".to_string());
    for _ in 0..4 {
        bridge = advance(&mut engine, bridge);
    }
    assert!(!bridge.is_terminal());
    engine.perform(&storage.destroy());
    assert!(engine.ledger.is_faulted());
}

#[test]
fn use_after_destroy_is_detected() {
    let mut engine = Engine::new();
    let storage = create(&mut engine).expect("storage");
    let token = storage.token();
    engine.perform(&storage.destroy());
    assert!(!engine.ledger.is_faulted());
    let bridge = Bridge::request(token, "late");
    let _ = run(&mut engine, bridge);
    assert!(engine.ledger.is_faulted());
}

#[test]
fn double_release_is_detected() {
    let mut ledger = Ledger::new();
    ledger.observe(&NativeCall::CreateStorage, &NativeReply::Handle(3));
    ledger.observe(&NativeCall::DestroyStorage { storage: 3 }, &NativeReply::Released);
    assert!(!ledger.is_faulted());
    ledger.observe(&NativeCall::DestroyStorage { storage: 3 }, &NativeReply::Released);
    assert!(ledger.is_faulted());
}

#[test]
fn unreleased_result_leaves_the_ledger_unsettled() {
    let mut ledger = Ledger::new();
    ledger.observe(&NativeCall::CreateStorage, &NativeReply::Handle(3));
    ledger.observe(
        &NativeCall::ExecuteQuery { storage: 3, query: b"q".to_vec() },
        &NativeReply::Handle(8),
    );
    assert!(ledger.holds_result(8));
    assert!(!ledger.is_settled());
    ledger.observe(&NativeCall::NextRow { result: 8 }, &NativeReply::Flag(0));
    ledger.observe(&NativeCall::DestroyResult { result: 8 }, &NativeReply::Released);
    assert!(!ledger.holds_result(8));
    ledger.observe(&NativeCall::GetString { result: 8, column: 0 }, &NativeReply::Text(None));
    assert!(ledger.is_faulted());
}
