use paste_share::errors::ServiceError;
use paste_share::handlers::show_paste;
use paste_share::pastes::PasteStore;

#[test]
fn list_by_owner_returns_creation_order() {
    let mut pastes = PasteStore::new();
    pastes.insert("alice".to_string(), "id1".to_string(), "one".to_string(), 1);
    pastes.insert("bob".to_string(), "id2".to_string(), "two".to_string(), 2);
    pastes.insert("alice".to_string(), "id3".to_string(), "three".to_string(), 3);

    let listed = pastes.list_by_owner(&"alice".to_string());
    assert_eq!(listed.len(), 2);
    assert_eq!(listed[0].id, "id1");
    assert_eq!(listed[0].text, "one");
    assert_eq!(listed[0].created_at, 1);
    assert_eq!(listed[1].id, "id3");
    assert_eq!(listed[1].text, "three");
}

#[test]
fn list_for_unknown_owner_is_empty() {
    let pastes = PasteStore::new();
    assert_eq!(pastes.list_by_owner(&"nobody".to_string()).len(), 0);
}

#[test]
fn get_by_id_returns_the_matching_paste_and_no_other() {
    let mut pastes = PasteStore::new();
    pastes.insert("alice".to_string(), "id1".to_string(), "one".to_string(), 1);
    pastes.insert("bob".to_string(), "id2".to_string(), "two".to_string(), 2);

    let e1 = pastes.get_by_id(&"id1".to_string()).expect("id1 stored");
    assert_eq!(e1.0, "alice");
    assert_eq!(e1.1.text, "one");
    let e2 = pastes.get_by_id(&"id2".to_string()).expect("id2 stored");
    assert_eq!(e2.0, "bob");
    assert_eq!(e2.1.text, "two");
    assert!(pastes.get_by_id(&"id9".to_string()).is_none());
}

#[test]
fn contains_id_sees_every_owner() {
    let mut pastes = PasteStore::new();
    pastes.insert("alice".to_string(), "id1".to_string(), "one".to_string(), 1);
    assert!(pastes.contains_id(&"id1".to_string()));
    assert!(!pastes.contains_id(&"id2".to_string()));
}

#[test]
fn show_paste_unknown_id_is_not_found() {
    let pastes = PasteStore::new();
    assert_eq!(
        show_paste(&pastes, &"missing".to_string()).err(),
        Some(ServiceError::PasteNotFound)
    );
}
