use abide_vfs::clock::Timestamp;
use abide_vfs::error::VfsError;
use abide_vfs::store::{ContentStore, VirtualFile};

fn record(id: &str, content: &str) -> VirtualFile {
    VirtualFile {
        id: id.to_string(),
        name: format!("{}.txt", id),
        content: content.to_string(),
        language: None,
        created_at: Timestamp { secs: 1, nanos: 0 },
        modified_at: Timestamp { secs: 1, nanos: 0 },
    }
}

#[test]
fn empty_store_holds_nothing() {
    let store = ContentStore::new();
    assert!(store.get("a").is_none());
    assert!(!store.contains("a"));
}

#[test]
fn put_then_get() {
    let mut store = ContentStore::new();
    store.put(record("a", "one"));
    store.put(record("b", "two"));
    assert_eq!(store.get("a").unwrap().content, "one");
    assert_eq!(store.get("b").unwrap().content, "two");
    assert!(store.contains("a"));
    assert!(!store.contains("c"));
}

#[test]
fn put_under_the_same_identifier_replaces() {
    let mut store = ContentStore::new();
    store.put(record("a", "one"));
    store.put(record("b", "two"));
    store.put(record("a", "three"));
    assert_eq!(store.get("a").unwrap().content, "three");
    assert_eq!(store.remove("a"), Ok(()));
    assert!(store.get("a").is_none());
    assert_eq!(store.get("b").unwrap().content, "two");
}

#[test]
fn update_replaces_content_and_time_only() {
    let mut store = ContentStore::new();
    store.put(record("a", "one"));
    let later = Timestamp { secs: 2, nanos: 7 };
    assert_eq!(store.update("a", "changed".to_string(), later), Ok(()));
    let file = store.get("a").unwrap();
    assert_eq!(file.content, "changed");
    assert_eq!(file.modified_at, later);
    assert_eq!(file.created_at, Timestamp { secs: 1, nanos: 0 });
    assert_eq!(file.name, "a.txt");
    assert_eq!(file.id, "a");
}

#[test]
fn update_of_a_missing_record_is_not_found() {
    let mut store = ContentStore::new();
    store.put(record("a", "one"));
    let r = store.update("b", "x".to_string(), Timestamp { secs: 2, nanos: 0 });
    assert_eq!(r, Err(VfsError::NotFound));
    assert_eq!(store.get("a").unwrap().content, "one");
}

#[test]
fn remove_takes_out_one_record() {
    let mut store = ContentStore::new();
    store.put(record("a", "one"));
    store.put(record("b", "two"));
    store.put(record("c", "three"));
    assert_eq!(store.remove("b"), Ok(()));
    assert!(!store.contains("b"));
    assert_eq!(store.get("a").unwrap().content, "one");
    assert_eq!(store.get("c").unwrap().content, "three");
    assert_eq!(store.remove("b"), Err(VfsError::NotFound));
}

#[test]
fn record_clone_is_equal_field_by_field() {
    let mut source = record("a", "one");
    source.language = Some("rust".to_string());
    let copy = source.clone();
    assert_eq!(copy.id, source.id);
    assert_eq!(copy.name, source.name);
    assert_eq!(copy.content, source.content);
    assert_eq!(copy.language, source.language);
    assert_eq!(copy.created_at, source.created_at);
    assert_eq!(copy.modified_at, source.modified_at);
}
