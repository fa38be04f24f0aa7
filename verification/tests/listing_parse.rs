use announcer::fetch_candidates;

#[test]
fn malformed_child_is_skipped() {
    let body = r#"{"data":{"children":[
        {"data":{"id":"good","title":"a title","selftext":"a body","score":3}},
        {"data":{"id":"bad","title":"no score","selftext":"still no score"}}
    ]}}"#;
    let posts = fetch_candidates(body).unwrap();
    assert_eq!(posts.len(), 1);
    assert_eq!(posts[0].id, "good");
    assert_eq!(posts[0].title, "a title");
    assert_eq!(posts[0].selftext, "a body");
    assert_eq!(posts[0].score, 3);
}

#[test]
fn wrongly_typed_fields_skip_the_child() {
    let body = r#"{"data":{"children":[
        {"data":{"id":7,"title":"t","selftext":"s","score":1}},
        {"data":{"id":"x","title":"t","selftext":"s","score":"high"}},
        {"data":{"id":"ok","title":"t","selftext":"s","score":-2}}
    ]}}"#;
    let posts = fetch_candidates(body).unwrap();
    assert_eq!(posts.len(), 1);
    assert_eq!(posts[0].id, "ok");
    assert_eq!(posts[0].score, -2);
}

#[test]
fn listing_without_children_is_empty() {
    let posts = fetch_candidates(r#"{"data":{}}"#).unwrap();
    assert!(posts.is_empty());
    let posts = fetch_candidates(r#"{"unrelated":true}"#).unwrap();
    assert!(posts.is_empty());
}

#[test]
fn malformed_listing_is_an_error() {
    assert!(fetch_candidates("{{{").is_err());
    assert!(fetch_candidates("").is_err());
}

#[test]
fn children_keep_document_order() {
    let body = r#"{"data":{"children":[
        {"data":{"id":"one","title":"t1","selftext":"s1","score":1}},
        {"data":{"id":"two","title":"t2","selftext":"s2","score":2}}
    ]}}"#;
    let posts = fetch_candidates(body).unwrap();
    assert_eq!(posts.len(), 2);
    assert_eq!(posts[0].id, "one");
    assert_eq!(posts[1].id, "two");
}
