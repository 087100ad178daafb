use eventcore::offset_store::{InMemoryOffsetStore, OffsetStoreError, ProjectionOffsetStore};
use eventcore::offsets::{CannotSourceError, Message, Offset, Source, TimestampOffset};

fn record(name: &str, key: &str, offset: &str) -> ProjectionOffsetStore {
    ProjectionOffsetStore {
        projection_name: String::from(name),
        projection_key: String::from(key),
        current_offset: String::from(offset),
        manifest: None,
        mergeable: false,
        last_updated: 0,
    }
}

#[test]
fn test_offset_store_insert_update_read() {
    let mut store = InMemoryOffsetStore::new();
    store.insert_record(record("proj", "0-255", "100")).unwrap();
    store.update_record("proj", "0-255", "150").unwrap();
    let read = store.read_record("proj", "0-255").unwrap().unwrap();
    assert_eq!(read.current_offset, "150");
    assert_eq!(read.projection_name, "proj");
    assert_eq!(read.projection_key, "0-255");
}

#[test]
fn test_offset_store_update_nonexistent_creates_nothing() {
    let mut store = InMemoryOffsetStore::new();
    store.insert_record(record("proj", "0-255", "100")).unwrap();
    store.update_record("proj", "256-511", "7").unwrap();
    assert_eq!(store.read_record("proj", "256-511").unwrap(), None);
    // The existing record is untouched.
    let read = store.read_record("proj", "0-255").unwrap().unwrap();
    assert_eq!(read.current_offset, "100");
}

#[test]
fn test_offset_store_insert_duplicate_fails() {
    let mut store = InMemoryOffsetStore::new();
    store.insert_record(record("proj", "0-255", "100")).unwrap();
    let duplicate = store.insert_record(record("proj", "0-255", "999"));
    assert!(matches!(
        duplicate,
        Err(OffsetStoreError::AlreadyExists { error_code: 400, .. })
    ));
    let read = store.read_record("proj", "0-255").unwrap().unwrap();
    assert_eq!(read.current_offset, "100");
}

#[test]
fn test_offset_store_keys_are_composite() {
    let mut store = InMemoryOffsetStore::new();
    store.insert_record(record("proj-a", "k", "1")).unwrap();
    store.insert_record(record("proj-b", "k", "2")).unwrap();
    store.update_record("proj-b", "k", "22").unwrap();
    assert_eq!(
        store.read_record("proj-a", "k").unwrap().unwrap().current_offset,
        "1"
    );
    assert_eq!(
        store.read_record("proj-b", "k").unwrap().unwrap().current_offset,
        "22"
    );
    assert_eq!(store.read_record("proj-a", "other").unwrap(), None);
}

#[test]
fn test_offset_store_read_keeps_all_fields() {
    let mut store = InMemoryOffsetStore::new();
    store
        .insert_record(ProjectionOffsetStore {
            projection_name: String::from("proj"),
            projection_key: String::from("512-767"),
            current_offset: String::from("42"),
            manifest: Some(String::from("v2")),
            mergeable: true,
            last_updated: 123456,
        })
        .unwrap();
    let read = store.read_record("proj", "512-767").unwrap().unwrap();
    assert_eq!(read.manifest, Some(String::from("v2")));
    assert!(read.mergeable);
    assert_eq!(read.last_updated, 123456);
}

#[test]
fn test_timestamp_offsets_compare_by_timestamp_only() {
    let early = TimestampOffset { timestamp: 100, seq_nr: 9 };
    let late = TimestampOffset { timestamp: 200, seq_nr: 1 };
    let tied = TimestampOffset { timestamp: 100, seq_nr: 1 };
    assert_eq!(early.partial_cmp(&late), Some(std::cmp::Ordering::Less));
    assert_eq!(late.partial_cmp(&early), Some(std::cmp::Ordering::Greater));
    assert_eq!(early.partial_cmp(&tied), Some(std::cmp::Ordering::Equal));
    assert!(early < late);
}

#[test]
fn test_offset_variants_hold_their_positions() {
    let seq = Offset::Sequence(17);
    let ts = Offset::Timestamp(TimestampOffset { timestamp: 5, seq_nr: 2 });
    assert_eq!(seq, Offset::Sequence(17));
    assert_ne!(seq, ts);
    assert!(Offset::Sequence(17) < Offset::Sequence(18));
    assert!(
        Offset::Timestamp(TimestampOffset { timestamp: 5, seq_nr: 2 })
            < Offset::Timestamp(TimestampOffset { timestamp: 6, seq_nr: 1 })
    );
}

#[test]
fn test_source_from_str() {
    assert_eq!(Source::from_str("").unwrap(), Source::Regular);
    assert_eq!(Source::from_str("BT").unwrap(), Source::Backtrack);
    assert_eq!(Source::from_str("PS").unwrap(), Source::PubSub);
    assert_eq!(Source::from_str("XX"), Err(CannotSourceError));
}

#[test]
fn test_message_addresses_an_entity() {
    let message = Message::new(String::from("entity-9"), 42u64);
    assert_eq!(message.entity_id, "entity-9");
    assert_eq!(message.command, 42);
}
