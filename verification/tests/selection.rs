use announcer::{select_highest, NoCandidatesError, Post};

fn post(id: &str, score: i64) -> Post {
    Post {
        id: id.to_string(),
        title: format!("title of {}", id),
        selftext: format!("body of {}", id),
        score,
    }
}

#[test]
fn highest_of_distinct_scores() {
    let posts = vec![post("a", 3), post("b", 11), post("c", 7)];
    let best = select_highest(&posts).unwrap();
    assert_eq!(best.id, "b");
    assert_eq!(best.score, 11);
}

#[test]
fn highest_is_first_on_ties() {
    let posts = vec![post("early", 9), post("late", 9), post("low", 2)];
    let best = select_highest(&posts).unwrap();
    assert_eq!(best.id, "early");
}

#[test]
fn highest_of_single_candidate() {
    let posts = vec![post("only", -4)];
    let best = select_highest(&posts).unwrap();
    assert_eq!(best.id, "only");
}

#[test]
fn no_candidates_is_an_error() {
    let posts: Vec<Post> = Vec::new();
    assert_eq!(select_highest(&posts).unwrap_err(), NoCandidatesError);
}

#[test]
fn extreme_scores_are_handled() {
    let posts = vec![post("low", i64::MIN), post("high", i64::MAX), post("mid", 0)];
    let best = select_highest(&posts).unwrap();
    assert_eq!(best.id, "high");
    assert_eq!(best.score, i64::MAX);
}
