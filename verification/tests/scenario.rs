use announcer::{is_open, step, IdStore, Outcome};

const LISTING: &str = r#"{"data":{"children":[
    {"data":{"id":"a","title":"title a","selftext":"body a","score":5}},
    {"data":{"id":"b","title":"title b","selftext":"body b","score":9}}
]}}"#;

#[test]
fn open_space_announces_the_best_fresh_post() {
    assert!(is_open(r#"{"state":"open"}"#));
    let mut store = IdStore::new();
    let outcome = step(LISTING, &mut store);
    match outcome {
        Outcome::Announce { post, contents, speech } => {
            assert_eq!(post.id, "b");
            assert_eq!(post.title, "title b");
            assert_eq!(post.selftext, "body b");
            assert_eq!(post.score, 9);
            assert_eq!(contents, "b\n");
            assert_eq!(speech, "title b\n\nbody b");
        },
        other => panic!("expected an announcement, got {:?}", other),
    }
    assert!(store.contains(&"b".to_string()));
    assert!(!store.contains(&"a".to_string()));
}

#[test]
fn already_announced_post_is_skipped() {
    let mut store = IdStore::load("b\n");
    let outcome = step(LISTING, &mut store);
    assert!(matches!(outcome, Outcome::AlreadyAnnounced));
    assert_eq!(store.ids(), &vec!["b".to_string()]);
    assert_eq!(store.contents(), "b\n");
}

#[test]
fn empty_listing_gives_no_candidates() {
    let mut store = IdStore::new();
    let outcome = step(r#"{"data":{"children":[]}}"#, &mut store);
    assert!(matches!(outcome, Outcome::NoCandidates));
    assert!(store.ids().is_empty());
}

#[test]
fn unreadable_listing_changes_nothing() {
    let mut store = IdStore::load("kept\n");
    let outcome = step("###", &mut store);
    assert!(matches!(outcome, Outcome::ListingUnreadable));
    assert_eq!(store.contents(), "kept\n");
}
