use voda_core::memory::{InMemoryStore, Memory, MemoryError};
use voda_core::message::{HistoryMessage, MessageRole, MessageType};

fn msg(id: u128, owner: u128, content: &str) -> HistoryMessage {
    HistoryMessage {
        id,
        role: MessageRole::User,
        content_type: MessageType::Text,
        owner,
        character_id: 1,
        content: content.to_string(),
        created_at: id as i64,
    }
}

fn ids(v: &[HistoryMessage]) -> Vec<u128> {
    v.iter().map(|m| m.id).collect()
}

fn filled() -> InMemoryStore {
    let mut s = InMemoryStore::new();
    s.initialize().unwrap();
    s.add_messages(&[msg(1, 10, "a"), msg(2, 20, "b"), msg(3, 10, "c")]).unwrap();
    s.add_messages(&[msg(4, 10, "a"), msg(5, 10, "e")]).unwrap();
    s
}

#[test]
fn get_one_finds_by_id() {
    let s = filled();
    assert_eq!(s.get_one(3).unwrap().content, "c");
    assert!(s.get_one(99).is_none());
}

#[test]
fn add_with_duplicate_id_is_a_conflict() {
    let mut s = filled();
    assert_eq!(s.add_messages(&[msg(6, 10, "x"), msg(2, 10, "y")]), Err(MemoryError::ConflictError));
    assert_eq!(s.add_messages(&[msg(7, 10, "x"), msg(7, 10, "y")]), Err(MemoryError::ConflictError));
    assert!(s.get_one(6).is_none());
    assert!(s.get_one(7).is_none());
    assert_eq!(ids(&s.get_all(10, 100, 0)), vec![5, 4, 3, 1]);
}

#[test]
fn get_all_pages_newest_first() {
    let s = filled();
    assert_eq!(ids(&s.get_all(10, 2, 0)), vec![5, 4]);
    assert_eq!(ids(&s.get_all(10, 2, 2)), vec![3, 1]);
    assert_eq!(ids(&s.get_all(10, 2, 4)), Vec::<u128>::new());
    assert_eq!(ids(&s.get_all(10, 0, 0)), Vec::<u128>::new());
    assert_eq!(ids(&s.get_all(20, 10, 0)), vec![2]);
    assert_eq!(ids(&s.get_all(10, u64::MAX, u64::MAX)), Vec::<u128>::new());
    assert_eq!(ids(&s.get_all(10, u64::MAX, 1)), vec![4, 3, 1]);
}

#[test]
fn search_matches_text_newest_first() {
    let s = filled();
    let found = s.search(&msg(100, 0, "a"), 10, 0).unwrap();
    assert_eq!(ids(&found), vec![4, 1]);
    let found = s.search(&msg(100, 0, "a"), 1, 1).unwrap();
    assert_eq!(ids(&found), vec![1]);
    assert!(s.search(&msg(100, 0, "zzz"), 10, 0).unwrap().is_empty());
}

#[test]
fn update_replaces_by_id_or_changes_nothing() {
    let mut s = filled();
    assert_eq!(s.update(&[msg(2, 20, "B"), msg(99, 20, "nope")]), Err(MemoryError::NotFound));
    assert_eq!(s.get_one(2).unwrap().content, "b");
    assert_eq!(s.update(&[msg(2, 20, "B"), msg(5, 10, "E"), msg(2, 20, "B2")]), Ok(()));
    assert_eq!(s.get_one(2).unwrap().content, "B2");
    assert_eq!(s.get_one(5).unwrap().content, "E");
    assert_eq!(ids(&s.get_all(10, 10, 0)), vec![5, 4, 3, 1]);
}

#[test]
fn delete_and_reset_remove_messages() {
    let mut s = filled();
    assert_eq!(s.delete(&[3, 99]), Ok(()));
    assert!(s.get_one(3).is_none());
    assert_eq!(ids(&s.get_all(10, 10, 0)), vec![5, 4, 1]);
    assert_eq!(s.reset(10), Ok(()));
    assert!(s.get_all(10, 10, 0).is_empty());
    assert_eq!(ids(&s.get_all(20, 10, 0)), vec![2]);
}
