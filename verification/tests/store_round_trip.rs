use announcer::IdStore;

#[test]
fn round_trip_keeps_ids_in_append_order() {
    let mut store = IdStore::new();
    store.append_and_persist("first".to_string());
    store.append_and_persist("second".to_string());
    let contents = store.append_and_persist("third".to_string());
    let reloaded = IdStore::load(&contents);
    assert_eq!(reloaded.ids(), &vec![
        "first".to_string(),
        "second".to_string(),
        "third".to_string(),
    ]);
}

#[test]
fn contents_hold_one_id_per_line() {
    let mut store = IdStore::new();
    store.append_and_persist("a1".to_string());
    let contents = store.append_and_persist("b2".to_string());
    assert_eq!(contents, "a1\nb2\n");
}

#[test]
fn load_skips_empty_lines() {
    let store = IdStore::load("alpha\n\n\nbeta\n");
    assert_eq!(store.ids(), &vec!["alpha".to_string(), "beta".to_string()]);
}

#[test]
fn load_of_empty_text_is_empty() {
    let store = IdStore::load("");
    assert!(store.ids().is_empty());
}

#[test]
fn contains_tells_members_apart() {
    let mut store = IdStore::new();
    store.append_and_persist("seen".to_string());
    assert!(store.contains(&"seen".to_string()));
    assert!(!store.contains(&"unseen".to_string()));
}
