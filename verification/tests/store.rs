use autoshell::store::{document_of, write_result, ReadOutcome, ResourceStore, WriteOutcome};

#[test]
fn fresh_store_reads_empty_document() {
    let settings = ResourceStore::new();
    let profiles = ResourceStore::new();
    assert_eq!(settings.get(), "{}");
    assert_eq!(profiles.get(), "{}");
}

#[test]
fn get_is_idempotent() {
    let mut store = ResourceStore::new();
    assert_eq!(store.get(), store.get());
    store.set("{\"volume\":3}".to_string());
    let first = store.get();
    let second = store.get();
    assert_eq!(first, second);
    assert_eq!(first, "{\"volume\":3}");
}

#[test]
fn set_then_get_round_trips_any_text() {
    let mut store = ResourceStore::new();
    store.set("{}".to_string());
    assert_eq!(store.get(), "{}");
    store.set("not even json".to_string());
    assert_eq!(store.get(), "not even json");
    store.set("".to_string());
    assert_eq!(store.get(), "");
}

#[test]
fn theme_scenario_survives_restart() {
    let mut store = ResourceStore::new();
    store.set("{\"theme\":\"dark\"}".to_string());
    assert_eq!(store.get(), "{\"theme\":\"dark\"}");
    // A new instance over the same backing file: the write is still there.
    let restarted = ResourceStore::attach(ReadOutcome::Present("{\"theme\":\"dark\"}".to_string()));
    assert_eq!(restarted.get(), "{\"theme\":\"dark\"}");
}

#[test]
fn missing_file_reads_empty() {
    let store = ResourceStore::attach(ReadOutcome::Missing);
    assert_eq!(store.get(), "{}");
}

#[test]
fn unreadable_file_falls_back_to_empty() {
    let store = ResourceStore::attach(ReadOutcome::Unreadable);
    assert_eq!(store.get(), "{}");
}

#[test]
fn document_of_each_outcome() {
    assert_eq!(document_of(&ReadOutcome::Present("{\"a\":1}".to_string())), "{\"a\":1}");
    assert_eq!(document_of(&ReadOutcome::Missing), "{}");
    assert_eq!(document_of(&ReadOutcome::Unreadable), "{}");
}

#[test]
fn completed_write_is_acknowledged() {
    assert!(write_result(WriteOutcome::Done).is_ok());
}

#[test]
fn failed_write_is_surfaced() {
    let err = write_result(WriteOutcome::Failed("disk full".to_string())).unwrap_err();
    assert_eq!(err.cause, "disk full");
}
