use abyssal::error::Error;
use abyssal::types::str_uuid::Uuid;

#[test]
fn new_uuids_are_canonical_and_differ() {
    let first = Uuid::new();
    let second = Uuid::new();
    assert_ne!(first, second);
    let text = first.to_string();
    assert_eq!(text.len(), 36);
    assert_eq!(text, text.to_lowercase());
    assert_eq!(text.chars().filter(|c| *c == '-').count(), 4);
    assert_eq!(text.chars().nth(14), Some('4'));
    assert_eq!(Uuid::from_str(&text).unwrap(), first);
}

#[test]
fn from_str_gives_the_canonical_form() {
    let canonical = "550e8400-e29b-41d4-a716-446655440000";
    assert_eq!(Uuid::from_str(canonical).unwrap().to_string(), canonical);
    assert_eq!(
        Uuid::from_str("550E8400-E29B-41D4-A716-446655440000").unwrap().to_string(),
        canonical
    );
    assert_eq!(Uuid::from_str("550e8400e29b41d4a716446655440000").unwrap().to_string(), canonical);
    assert_eq!(
        Uuid::from_str("urn:uuid:550e8400-e29b-41d4-a716-446655440000").unwrap().to_string(),
        canonical
    );
    assert_eq!(
        Uuid::from_str("{550e8400-e29b-41d4-a716-446655440000}").unwrap().to_string(),
        canonical
    );
}

#[test]
fn from_str_rejects_what_is_no_uuid() {
    for text in ["", "token", "550e8400-e29b-41d4-a716", "550e8400-e29b-41d4-a716-44665544000g"] {
        match Uuid::from_str(text) {
            Err(Error::InvalidUuid(rejected)) => assert_eq!(rejected, text),
            other => panic!("expected an invalid uuid, got {:?}", other),
        }
    }
}

#[test]
fn uuids_compare_by_their_text() {
    let a = Uuid("a".to_string());
    let b = Uuid("b".to_string());
    assert_eq!(a, a.clone());
    assert_ne!(a, b);
    assert!(a < b);
}
