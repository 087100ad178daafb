use eventcore::slicing::PersistenceId;
use eventcore::slicing::slice_ranges;

#[test]
fn test_slice_for_persistence_id() {
    assert_eq!(
        PersistenceId::new(
            String::from("some-entity-type"),
            String::from("some-entity-id")
        )
        .slice(),
        451
    );
}

#[test]
fn test_parse_for_persistence_id() {
    assert_eq!(
        PersistenceId::from_str("some-entity-type|some-entity-id").unwrap(),
        PersistenceId::new(
            String::from("some-entity-type"),
            String::from("some-entity-id")
        )
    );
}

#[test]
fn test_slice_ranges() {
    assert_eq!(slice_ranges(4), vec![0..256, 256..512, 512..768, 768..1024]);
}

#[test]
fn test_slice_ranges_single_range_covers_everything() {
    assert_eq!(slice_ranges(1), vec![0..1024]);
}

#[test]
fn test_slice_ranges_each_slice_its_own_range() {
    let ranges = slice_ranges(1024);
    assert_eq!(ranges.len(), 1024);
    for (k, range) in ranges.iter().enumerate() {
        assert_eq!(*range, (k as u32)..(k as u32 + 1));
    }
}

#[test]
fn test_jdk_string_hash_known_value() {
    let pid = PersistenceId::new(
        String::from("some-entity-type"),
        String::from("some-entity-id"),
    );
    assert_eq!(pid.jdk_string_hash(), -1217401283);
}

#[test]
fn test_slice_is_deterministic() {
    let first = PersistenceId::new(String::from("account"), String::from("a-17")).slice();
    let second = PersistenceId::new(String::from("account"), String::from("a-17")).slice();
    assert_eq!(first, second);
    assert!(first < 1024);
}

#[test]
fn test_slice_of_empty_entity_type() {
    let pid = PersistenceId::new(String::from(""), String::from("x"));
    assert_eq!(pid.jdk_string_hash(), 3964);
    assert_eq!(pid.slice(), 892);
}

#[test]
fn test_slice_of_supplementary_plane_characters() {
    // The grinning-face character contributes its two UTF-16 surrogate code
    // units to the hash.
    let pid = PersistenceId::new(String::from("emoji-type"), String::from("\u{1F600}-id"));
    assert_eq!(pid.jdk_string_hash(), 2099336810);
    assert_eq!(pid.slice(), 618);
}

#[test]
fn test_to_string_round_trip() {
    let pid = PersistenceId::new(
        String::from("some-entity-type"),
        String::from("some-entity-id"),
    );
    let rendered = pid.to_string();
    assert_eq!(rendered, "some-entity-type|some-entity-id");
    let parsed = PersistenceId::from_str(&rendered).unwrap();
    assert_eq!(parsed, pid);
}

#[test]
fn test_parse_without_separator_yields_empty_type() {
    let parsed = PersistenceId::from_str("bare-id").unwrap();
    assert_eq!(parsed.entity_type, "");
    assert_eq!(parsed.entity_id, "bare-id");
}

#[test]
fn test_parse_splits_at_first_separator() {
    let parsed = PersistenceId::from_str("a|b|c").unwrap();
    assert_eq!(parsed.entity_type, "a");
    assert_eq!(parsed.entity_id, "b|c");
}

#[test]
fn test_hash_is_over_the_canonical_string() {
    // The hash covers type, separator, then id: identities with the same
    // canonical string hash alike, and parsing the canonical form always
    // splits at the first separator.
    let first = PersistenceId::new(String::from("a"), String::from("b|c"));
    let second = PersistenceId::new(String::from("a|b"), String::from("c"));
    assert_eq!(first.to_string(), second.to_string());
    assert_eq!(first.jdk_string_hash(), second.jdk_string_hash());
    let reparsed = PersistenceId::from_str(&second.to_string()).unwrap();
    assert_eq!(reparsed, first);
}
