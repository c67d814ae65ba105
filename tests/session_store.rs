use olly::SessionStore;

#[test]
fn new_store_has_no_sessions() {
    let store = SessionStore::new();
    assert!(store.get_session("").is_none());
    assert!(!store.contains("anything"));
}

#[test]
fn created_session_is_found_empty() {
    let mut store = SessionStore::new();
    let id = store.create_session();
    assert_eq!(id.len(), 36);
    assert_eq!(store.get_session(&id), Some(&String::new()));
}

#[test]
fn created_sessions_have_distinct_ids() {
    let mut store = SessionStore::new();
    let a = store.create_session();
    let b = store.create_session();
    assert_ne!(a, b);
    assert!(store.contains(&a));
    assert!(store.contains(&b));
}

#[test]
fn taken_candidate_id_is_extended() {
    let mut store = SessionStore::new();
    assert_eq!(store.register_fresh_session("abc".to_string()), "abc");
    assert_eq!(store.register_fresh_session("abc".to_string()), "abc-");
    assert_eq!(store.register_fresh_session("abc".to_string()), "abc--");
    assert_eq!(store.register_fresh_session("x".to_string()), "x");
}

#[test]
fn appended_turns_are_kept_in_order() {
    let mut store = SessionStore::new();
    let id = store.create_session();
    store.append_to_session(&id, "one", "1");
    store.append_to_session(&id, "two", "2");
    store.append_to_session(&id, "three", "3");
    assert_eq!(
        store.get_session(&id).unwrap(),
        "\nUser: one\nAI: 1\nUser: two\nAI: 2\nUser: three\nAI: 3"
    );
}

#[test]
fn append_to_unknown_session_changes_nothing() {
    let mut store = SessionStore::new();
    let id = store.register_fresh_session("known".to_string());
    store.append_to_session(&id, "hi", "hello");
    store.append_to_session("missing", "lost", "gone");
    assert!(store.get_session("missing").is_none());
    assert_eq!(store.get_session("known").unwrap(), "\nUser: hi\nAI: hello");
}

#[test]
fn appends_touch_only_their_session() {
    let mut store = SessionStore::new();
    store.register_fresh_session("a".to_string());
    store.register_fresh_session("b".to_string());
    store.append_to_session("a", "x", "y");
    assert_eq!(store.get_session("a").unwrap(), "\nUser: x\nAI: y");
    assert_eq!(store.get_session("b").unwrap(), "");
}

#[test]
fn empty_candidate_id_is_made_non_empty() {
    let mut store = SessionStore::new();
    assert_eq!(store.register_fresh_session(String::new()), "-");
    assert_eq!(store.register_fresh_session(String::new()), "--");
    assert!(store.get_session("").is_none());
}
