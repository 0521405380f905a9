use evermemos_rs::cassette::{
    batch_step, cassette_file_path, merge_batch, select_keys, BatchStep, CassetteMode, Step,
};
use evermemos_rs::table::KeyTable;

const KEY: &str = "llm:system:You are helpful|user:Say hi|t=0.3";

fn served<V: Clone>(t: &KeyTable<V>, mode: CassetteMode, key: &str) -> Option<V> {
    match t.serve(&mode, key) {
        Step::Cached(v) => Some(v.clone()),
        _ => None,
    }
}

#[test]
fn llm_record_then_replay() {
    let mut store: KeyTable<String> = KeyTable::new();
    let step = store.serve(&CassetteMode::Record, KEY);
    assert!(matches!(step, Step::Fetch { record: true }));
    let r1 = "hello cassette".to_string();
    store.record(&CassetteMode::Record, KEY.to_string(), r1.clone());
    assert_eq!(r1, "hello cassette");

    let replay = KeyTable::from_pairs(store.pairs().clone());
    let r2 = served(&replay, CassetteMode::Replay, KEY).unwrap_or("SHOULD NOT BE CALLED".into());
    assert_eq!(r2, "hello cassette");
}

#[test]
fn llm_replay_miss_returns_error() {
    let store: KeyTable<String> = KeyTable::new();
    let step = store.serve(&CassetteMode::Replay, KEY);
    assert!(matches!(step, Step::Fail));
    assert!(served(&store, CassetteMode::Replay, KEY).is_none());
}

#[test]
fn llm_auto_falls_through_and_records() {
    let mut store: KeyTable<String> = KeyTable::new();
    assert!(matches!(store.serve(&CassetteMode::Auto, KEY), Step::Fetch { record: true }));
    store.record(&CassetteMode::Auto, KEY.to_string(), "auto response".to_string());
    assert_eq!(store.len(), 1);
    let r2 = served(&store, CassetteMode::Auto, KEY).unwrap();
    assert_eq!(r2, "auto response");
}

#[test]
fn vectorizer_record_then_replay() {
    let mut store: KeyTable<Vec<f32>> = KeyTable::new();
    store.record(&CassetteMode::Record, "hello world".to_string(), vec![0.1, 0.2, 0.3]);
    assert!(store.contains_key("hello world"));
    assert_eq!(served(&store, CassetteMode::Replay, "hello world").unwrap(), vec![0.1, 0.2, 0.3]);
}

#[test]
fn embed_batch_partial_cache() {
    let mut store: KeyTable<Vec<f32>> = KeyTable::new();
    store.insert("cached".into(), vec![1.0, 2.0]);
    let texts: Vec<String> = vec!["cached".into(), "new_text".into()];
    let (found, missing) = store.batch_lookup(&CassetteMode::Auto, &texts);
    assert_eq!(missing, vec![1]);
    assert_eq!(select_keys(&texts, &missing), vec!["new_text".to_string()]);
    let cached: Vec<Option<Vec<f32>>> = found.into_iter().map(|o| o.cloned()).collect();
    let fetched = vec![vec![9.0, 9.0]];
    let merged = merge_batch(cached, &missing, fetched.clone());
    assert_eq!(merged[0], Some(vec![1.0, 2.0]));
    assert_eq!(merged[1], Some(vec![9.0, 9.0]));
    store.record_batch(&CassetteMode::Auto, &texts, &missing, fetched);
    assert_eq!(store.get("new_text"), Some(&vec![9.0, 9.0]));
    assert_eq!(store.len(), 2);
}

#[test]
fn reranker_record_then_replay() {
    let mut store: KeyTable<Vec<f32>> = KeyTable::new();
    store.record(&CassetteMode::Record, "rerank:query|doc a|doc b".into(), vec![0.9, 0.9]);
    assert_eq!(store.len(), 1);
}

#[test]
fn off_and_replay_never_record() {
    let mut store: KeyTable<String> = KeyTable::new();
    assert!(matches!(store.serve(&CassetteMode::Off, KEY), Step::Fetch { record: false }));
    store.record(&CassetteMode::Off, KEY.into(), "x".into());
    store.record(&CassetteMode::Replay, KEY.into(), "y".into());
    assert_eq!(store.len(), 0);
    let mut batch_store: KeyTable<String> = KeyTable::new();
    batch_store.record_batch(&CassetteMode::Replay, &vec![KEY.to_string()], &vec![0], vec!["z".into()]);
    assert_eq!(batch_store.len(), 0);
}

#[test]
fn recording_replaces_an_entry() {
    let mut store: KeyTable<String> = KeyTable::new();
    store.record(&CassetteMode::Record, KEY.into(), "old".into());
    store.record(&CassetteMode::Record, KEY.into(), "new".into());
    assert_eq!(store.len(), 1);
    assert_eq!(store.get(KEY), Some(&"new".to_string()));
}

#[test]
fn mode_names_are_case_insensitive() {
    assert_eq!(CassetteMode::from_name("RECORD"), CassetteMode::Record);
    assert_eq!(CassetteMode::from_name("Replay"), CassetteMode::Replay);
    assert_eq!(CassetteMode::from_name("auto"), CassetteMode::Auto);
    assert_eq!(CassetteMode::from_name("bogus"), CassetteMode::Off);
    assert!(!CassetteMode::Off.is_active());
    assert!(CassetteMode::Replay.is_active());
    assert!(CassetteMode::Auto.is_recording());
    assert!(!CassetteMode::Replay.is_recording());
}

#[test]
fn table_remove_and_take() {
    let mut t: KeyTable<u64> = KeyTable::new();
    t.insert("a".into(), 1);
    t.insert("b".into(), 2);
    assert_eq!(t.take("a"), Some(1));
    assert_eq!(t.take("a"), None);
    t.remove("b");
    assert_eq!(t.len(), 0);
}

#[test]
fn batch_steps() {
    assert!(matches!(batch_step(&CassetteMode::Replay, 0), BatchStep::Served));
    assert!(matches!(batch_step(&CassetteMode::Replay, 2), BatchStep::Fail));
    assert!(matches!(batch_step(&CassetteMode::Auto, 1), BatchStep::Fetch { record: true }));
    assert!(matches!(batch_step(&CassetteMode::Off, 1), BatchStep::Fetch { record: false }));
}

#[test]
fn cassette_path_default() {
    assert_eq!(cassette_file_path(None), "cassette/llm_cassette.json");
    assert_eq!(cassette_file_path(Some("x.json".into())), "x.json");
}

#[test]
fn record_mode_always_calls_the_provider() {
    let mut store: KeyTable<String> = KeyTable::new();
    store.record(&CassetteMode::Record, KEY.into(), "old".into());
    assert!(matches!(store.serve(&CassetteMode::Record, KEY), Step::Fetch { record: true }));
    store.record(&CassetteMode::Record, KEY.into(), "new".into());
    assert_eq!(store.get(KEY), Some(&"new".to_string()));
    assert!(matches!(store.serve(&CassetteMode::Off, KEY), Step::Fetch { record: false }));
    assert_eq!(served(&store, CassetteMode::Replay, KEY), Some("new".to_string()));
}

#[test]
fn record_mode_batches_fetch_every_text() {
    let mut store: KeyTable<Vec<f32>> = KeyTable::new();
    store.insert("cached".into(), vec![1.0]);
    let texts: Vec<String> = vec!["cached".into(), "new_text".into()];
    let (found, missing) = store.batch_lookup(&CassetteMode::Record, &texts);
    assert!(found.iter().all(|f| f.is_none()));
    assert_eq!(missing, vec![0, 1]);
    let (_, lookup_missing) = store.lookup_batch(&texts);
    assert_eq!(lookup_missing, vec![1]);
}
