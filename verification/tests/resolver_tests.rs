use focus_hide::resolver::{resolve, QueryOutcome, Resolution};

#[test]
fn first_word_of_reply_is_the_active_window() {
    let q = QueryOutcome::Reply(Some(vec![10, 99, 3]));
    assert_eq!(resolve(&q), Resolution::Active(10));
}

#[test]
fn single_word_reply_resolves_to_it() {
    let q = QueryOutcome::Reply(Some(vec![42]));
    assert_eq!(resolve(&q), Resolution::Active(42));
}

#[test]
fn empty_reply_is_not_found() {
    let q = QueryOutcome::Reply(Some(vec![]));
    assert_eq!(resolve(&q), Resolution::NotFound);
}

#[test]
fn wrongly_formatted_reply_is_not_found() {
    let q = QueryOutcome::Reply(None);
    assert_eq!(resolve(&q), Resolution::NotFound);
}

#[test]
fn failed_query_is_a_fault() {
    assert_eq!(resolve(&QueryOutcome::Fault), Resolution::Fault);
}
