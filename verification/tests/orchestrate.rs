use promg::orchestrate::{live_response, pair_queries, reload_interval_secs};
use promg::prometheus::Error;

fn strings(items: &[&str]) -> Vec<String> {
    items.iter().map(|s| s.to_string()).collect()
}

#[test]
fn two_titles_pair_with_two_queries_in_order() {
    let pairs =
        pair_queries(&strings(&["t1", "t2"]), &strings(&["q1", "q2"]), 0, 100, 10).unwrap();
    assert_eq!(pairs.len(), 2);
    assert_eq!(pairs[0].0, "t1");
    assert_eq!(pairs[0].1.query, "q1");
    assert_eq!(pairs[1].0, "t2");
    assert_eq!(pairs[1].1.query, "q2");
    assert_eq!(pairs[0].1.start, 0);
    assert_eq!(pairs[0].1.end, 100);
    assert_eq!(pairs[0].1.step, 10);
}

#[test]
fn missing_titles_fall_back_to_the_query_text() {
    let pairs = pair_queries(&vec![], &strings(&["up"]), 0, 1, 1).unwrap();
    assert_eq!(pairs.len(), 1);
    assert_eq!(pairs[0].0, "up");
}

#[test]
fn title_count_mismatch_is_rejected() {
    let r = pair_queries(&strings(&["only"]), &strings(&["q1", "q2"]), 0, 1, 1);
    assert_eq!(r, Err(Error::TitleCountMismatch { titles: 1, queries: 2 }));
}

#[test]
fn no_queries_and_no_titles_give_no_pairs() {
    let pairs = pair_queries(&vec![], &vec![], 0, 1, 1).unwrap();
    assert!(pairs.is_empty());
}

#[test]
fn live_page_concatenates_fragments_in_order() {
    let outcomes = vec![Ok("<svg a>".to_owned()), Ok("<svg b>".to_owned())];
    let (status, body) = live_response(&outcomes);
    assert_eq!(status, 200);
    assert_eq!(body, "<svg a><svg b>");
}

#[test]
fn any_failed_fetch_gives_a_plain_internal_error() {
    let outcomes = vec![
        Ok("<svg a>".to_owned()),
        Err(Error::Transport("connection refused".to_owned())),
    ];
    let (status, body) = live_response(&outcomes);
    assert_eq!(status, 500);
    assert_eq!(body, "Something went wrong");
}

#[test]
fn empty_outcome_list_gives_an_empty_page() {
    let (status, body) = live_response(&vec![]);
    assert_eq!(status, 200);
    assert_eq!(body, "");
}

#[test]
fn reload_interval_is_half_the_step() {
    assert_eq!(reload_interval_secs(60), 30);
    assert_eq!(reload_interval_secs(1), 0);
}
