use zar::history::{HistoryEntry, HistoryStore, TomlHistoryStore};
use zar::source::{LocationPath, SourceKind, SourceRef};

#[test]
fn records_and_restores_last_path() {
    let mut store = TomlHistoryStore::new();
    let source = SourceRef::SavedSsh { id: "prod".to_string() };
    store.record(&source, "Prod", &LocationPath::Remote("/var/www".to_string()));
    assert_eq!(store.last_path_for(&source), Some(LocationPath::Remote("/var/www".to_string())));
}

#[test]
fn history_is_capped_and_latest_first() {
    let mut store = TomlHistoryStore::new();
    for index in 0..55 {
        store.record(
            &SourceRef::InlineLocal { path: format!("/tmp/{index}"), label: format!("Tmp {index}") },
            &format!("Tmp {index}"),
            &LocationPath::Local(format!("/tmp/{index}")),
        );
    }
    assert_eq!(store.entries().len(), 50);
    assert_eq!(store.entries()[0].label, "Tmp 54");
}

#[test]
fn recording_a_source_again_moves_it_first() {
    let mut store = TomlHistoryStore::new();
    let a = SourceRef::SavedFtp { id: "a".to_string() };
    let b = SourceRef::SavedFtp { id: "b".to_string() };
    store.record_at(&a, "A", &LocationPath::Remote("/one".to_string()), 10);
    store.record_at(&b, "B", &LocationPath::Remote("/two".to_string()), 11);
    store.record_at(&a, "A", &LocationPath::Remote("/three".to_string()), 12);
    assert_eq!(store.entries().len(), 2);
    assert_eq!(store.entries()[0].source_key, "ftp:a");
    assert_eq!(store.entries()[0].last_used_at, 12);
    assert_eq!(store.entries()[0].source_kind, SourceKind::Ftp);
    assert_eq!(store.last_path_for(&a), Some(LocationPath::Remote("/three".to_string())));
    assert_eq!(store.last_path_for(&SourceRef::SavedFtp { id: "c".to_string() }), None);
}

#[test]
fn loaded_history_is_sorted_newest_first() {
    let entry = |key: &str, at: u64| HistoryEntry {
        source_kind: SourceKind::Local,
        source_key: key.to_string(),
        label: key.to_string(),
        last_path: LocationPath::Local("/".to_string()),
        last_used_at: at,
    };
    let store = TomlHistoryStore::from_entries(vec![entry("a", 1), entry("b", 3), entry("c", 2), entry("d", 3)]);
    let keys: Vec<String> = store.entries().iter().map(|e| e.source_key.clone()).collect();
    assert_eq!(keys, vec!["b", "d", "c", "a"]);
}
