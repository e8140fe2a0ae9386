use commit2_worker::storage::calltracker::{mark_done, Call, CallState, ManyBytes, WorkerCallTracker};
use commit2_worker::storage::datastore::{
    delete_outcome, engine_outcome, entries_from_pairs, key_text_less, presence_outcome, put_outcome, read_outcome,
    size_outcome, DataStoreError, Datastore, Entry, Key, MemDatastore, Query, Read, Write,
};
use commit2_worker::storage::statestore::{StateStore, StateStoreError};
use commit2_worker::storage::storiface::{CallID, SectorId};
use commit2_worker::storage::worker_local::ReturnType;

fn decode_u8(v: &Vec<u8>) -> Result<u8, String> {
    v.first().copied().ok_or_else(|| "empty".to_string())
}

#[test]
fn begin_then_end_restores_the_store() {
    let mut st = StateStore::new(MemDatastore::new());
    st.begin("a", vec![1, 2]).unwrap();
    assert_eq!(st.has("a").unwrap(), true);
    assert_eq!(st.get("a").get(decode_u8).unwrap(), 1);
    st.get("a").end().unwrap();
    assert_eq!(st.has("a").unwrap(), false);
    assert_eq!(st.list(decode_u8).unwrap(), Vec::<u8>::new());
}

#[test]
fn begin_twice_is_refused() {
    let mut st = StateStore::new(MemDatastore::new());
    st.begin("a", vec![1]).unwrap();
    match st.begin("a", vec![2]) {
        Err(StateStoreError::AlreadyTracking(k)) => assert_eq!(k, "a"),
        other => panic!("unexpected {:?}", other),
    }
    assert_eq!(st.ds.get(&Key("a".into())).unwrap(), vec![1]);
    assert_eq!(StateStoreError::AlreadyTracking("a".to_string()).to_string(), "already tracking state for a");
}

#[test]
fn ending_an_untracked_state_is_refused() {
    let mut st = StateStore::new(MemDatastore::new());
    match st.get("missing").end() {
        Err(StateStoreError::NoState(k)) => assert_eq!(k, "missing"),
        other => panic!("unexpected {:?}", other),
    }
    assert_eq!(StateStoreError::NoState("x".to_string()).to_string(), "No state for x");
}

#[test]
fn reading_a_missing_state_is_a_redaction() {
    let mut st = StateStore::new(MemDatastore::new());
    match st.get("k").get(decode_u8) {
        Err(StateStoreError::Store(DataStoreError::Redaction(k))) => assert_eq!(k, "k"),
        other => panic!("unexpected {:?}", other),
    }
    assert_eq!(
        DataStoreError::Redaction("k".to_string()).to_string(),
        "the data for key `k` is not available"
    );
}

#[test]
fn mutate_replaces_the_state() {
    let mut st = StateStore::new(MemDatastore::new());
    st.begin("n", vec![5]).unwrap();
    st.get("n").mutate(decode_u8, |x: u8| x + 1, |x: &u8| Ok(vec![*x])).unwrap();
    assert_eq!(st.ds.get(&Key("n".into())).unwrap(), vec![6]);
    assert_eq!(st.get("n").get(decode_u8).unwrap(), 6);
    assert!(matches!(
        st.get("missing").mutate(decode_u8, |x: u8| x, |x: &u8| Ok(vec![*x])),
        Err(StateStoreError::Store(DataStoreError::Redaction(_)))
    ));
    assert!(matches!(
        st.get("n").mutate(decode_u8, |x: u8| x, |_: &u8| Err("no".to_string())),
        Err(StateStoreError::Codec(m)) if m == "no"
    ));
    assert_eq!(st.get("n").get(decode_u8).unwrap(), 6);
}

#[test]
fn begun_state_reads_back() {
    let mut st = StateStore::new(MemDatastore::new());
    assert_eq!(st.has("s").unwrap(), false);
    st.begin("s", vec![3]).unwrap();
    assert_eq!(st.has("s").unwrap(), true);
    assert_eq!(st.get("s").get(decode_u8).unwrap(), 3);
    st.begin("t", vec![]).unwrap();
    assert!(matches!(st.get("t").get(decode_u8), Err(StateStoreError::Codec(m)) if m == "empty"));
    st.get("s").end().unwrap();
    assert_eq!(st.has("s").unwrap(), false);
}

#[test]
fn list_decodes_every_state() {
    let mut st = StateStore::new(MemDatastore::new());
    st.begin("a", vec![1]).unwrap();
    st.begin("b", vec![2]).unwrap();
    st.begin("0", vec![7]).unwrap();
    assert_eq!(st.list(decode_u8).unwrap(), vec![7, 1, 2]);
    st.begin("c", vec![]).unwrap();
    assert!(matches!(st.list(decode_u8), Err(StateStoreError::Codec(_))));
}

#[test]
fn datastore_outcomes_map_errors() {
    assert!(matches!(read_outcome(&Key("k".into()), Err("io".into())), Err(DataStoreError::ReadError(m)) if m == "io"));
    assert!(matches!(presence_outcome(Ok(Some(3))), Ok(true)));
    assert!(matches!(presence_outcome(Ok(None)), Ok(false)));
    assert!(matches!(size_outcome(Ok(None)), Ok(0)));
    assert!(matches!(size_outcome(Ok(Some(9))), Ok(9)));
    assert!(matches!(delete_outcome(Err("x".into())), Err(DataStoreError::ReadError(_))));
    assert!(matches!(engine_outcome(Err("x".into())), Err(DataStoreError::Unknown(_))));
    assert_eq!(DataStoreError::Disconnect("x".into()).to_string(), "data store disconnected");
    assert_eq!(DataStoreError::ReadError("x".into()).to_string(), "failed to read data");
    assert_eq!(DataStoreError::WriteError("x".into()).to_string(), "failed to write data");
    assert_eq!(DataStoreError::Unknown("x".into()).to_string(), "unknown data store error");
    assert_eq!(Key("abc".into()).to_string(), "abc");
}

#[test]
fn entries_from_pairs_builds_entries() {
    let e = entries_from_pairs(vec![Ok((b"key".to_vec(), vec![1, 2, 3])), Err("bad".into()), Ok((vec![0xff], vec![]))]);
    match &e[0] {
        Ok(Entry { key, value, expiration, size }) => {
            assert_eq!(key.0, "key");
            assert_eq!(value, &vec![1, 2, 3]);
            assert_eq!(*expiration, 0);
            assert_eq!(*size, 3);
        }
        _ => panic!(),
    }
    assert!(matches!(&e[1], Err(m) if m == "bad"));
    assert!(matches!(&e[2], Ok(en) if en.key.0.is_empty()));
    let q = Query::all();
    assert_eq!(q.prefix, "");
    assert_eq!(q.limit, 0);
}

fn encode_call(c: &Call) -> Result<Vec<u8>, String> {
    let mut v = vec![if c.state == CallState::CallStarted { 0 } else { 1 }];
    v.extend_from_slice(&c.id.sector.miner.to_le_bytes());
    v.extend_from_slice(&c.id.sector.number.to_le_bytes());
    v.extend_from_slice(&c.id.id.to_le_bytes());
    v.extend_from_slice(&c.result.0);
    Ok(v)
}

fn decode_call(v: &Vec<u8>) -> Result<Call, String> {
    if v.len() < 33 {
        return Err("short".into());
    }
    let miner = u64::from_le_bytes(v[1..9].try_into().unwrap());
    let number = u64::from_le_bytes(v[9..17].try_into().unwrap());
    let id = u128::from_le_bytes(v[17..33].try_into().unwrap());
    Ok(Call {
        id: CallID { sector: SectorId { miner, number }, id },
        return_type: ReturnType::SealCommit2,
        state: if v[0] == 0 { CallState::CallStarted } else { CallState::CallDone },
        result: ManyBytes(v[33..].to_vec()),
    })
}

#[test]
fn call_tracker_follows_a_call() {
    let mut ct = WorkerCallTracker::new(StateStore::new(MemDatastore::new()));
    let ci = CallID { sector: SectorId { miner: 1, number: 2 }, id: 3 };
    ct.on_start(ci, ReturnType::SealCommit2, encode_call).unwrap();
    let key = ci.to_string();
    assert_eq!(key, "1-2-00000000-0000-0000-0000-000000000003");
    assert_eq!(ct.st.ds.get(&Key(key.clone())).unwrap()[0], 0);
    assert!(ct.on_start(ci, ReturnType::SealCommit2, encode_call).is_err());
    ct.on_done(ci, vec![9, 9], decode_call, encode_call).unwrap();
    let stored = ct.st.ds.get(&Key(key.clone())).unwrap();
    assert_eq!(stored.len(), 33 + 2);
    assert_eq!(stored[0], 1);
    assert_eq!(&stored[33..], &[9, 9]);
    ct.on_returned(ci).unwrap();
    assert_eq!(ct.st.ds.has(&Key(key)).unwrap(), false);
    assert!(ct.on_returned(ci).is_err());
}

#[test]
fn mark_done_sets_state_and_result() {
    let c = Call {
        id: CallID { sector: SectorId { miner: 1, number: 2 }, id: 3 },
        return_type: ReturnType::AddPiece,
        state: CallState::CallStarted,
        result: ManyBytes(vec![]),
    };
    let d = mark_done(c, vec![7]);
    assert_eq!(d.state, CallState::CallDone);
    assert_eq!(d.result.0, vec![7]);
    assert_eq!(d.return_type, ReturnType::AddPiece);
}

#[test]
fn mem_datastore_puts_gets_and_deletes() {
    let mut ds = MemDatastore::new();
    let k = Key("x".into());
    assert!(matches!(ds.get(&k), Err(DataStoreError::Redaction(_))));
    assert_eq!(ds.get_size(&k).unwrap(), 0);
    ds.put(&k, &vec![1, 2, 3]).unwrap();
    assert_eq!(ds.get(&k).unwrap(), vec![1, 2, 3]);
    assert_eq!(ds.get_size(&k).unwrap(), 3);
    ds.put(&k, &vec![4]).unwrap();
    assert_eq!(ds.get(&k).unwrap(), vec![4]);
    ds.put(&Key("xy".into()), &vec![5]).unwrap();
    ds.put(&Key("z".into()), &vec![6]).unwrap();
    let mut q = Query::all();
    q.prefix = "x".into();
    let res = ds.query(q).unwrap();
    let keys: Vec<String> = res.to_vec().iter().map(|e| e.as_ref().unwrap().key.0.clone()).collect();
    assert_eq!(keys, vec!["x".to_string(), "xy".to_string()]);
    assert_eq!(res.query().prefix, "x");
    assert!(res.to_vec().iter().all(|e| e.as_ref().unwrap().expiration == 0));
    ds.delete(&k).unwrap();
    assert_eq!(ds.has(&k).unwrap(), false);
    assert_eq!(ds.has(&Key("xy".into())).unwrap(), true);
    ds.delete(&k).unwrap();
    ds.sync(Key(String::new())).unwrap();
    ds.close().unwrap();
    assert!(matches!(put_outcome(Err("disk full".into())), Err(DataStoreError::WriteError(m)) if m == "disk full"));
}

#[test]
fn mem_datastore_lists_in_key_order() {
    let mut ds = MemDatastore::new();
    for k in ["b", "a", "ab", "B", "\u{e9}"] {
        ds.put(&Key(k.into()), &vec![1]).unwrap();
    }
    let res = ds.query(Query::all()).unwrap();
    let keys: Vec<String> = res.to_vec().iter().map(|e| e.as_ref().unwrap().key.0.clone()).collect();
    assert_eq!(keys, vec!["B", "a", "ab", "b", "\u{e9}"]);
    let mut sorted = keys.clone();
    sorted.sort();
    assert_eq!(keys, sorted);
}

#[test]
fn key_text_order() {
    assert!(key_text_less("a", "b"));
    assert!(key_text_less("a", "ab"));
    assert!(!key_text_less("ab", "a"));
    assert!(!key_text_less("a", "a"));
    assert!(key_text_less("", "a"));
    assert!(key_text_less("Z", "a"));
    assert!(key_text_less("z", "\u{e9}"));
}
