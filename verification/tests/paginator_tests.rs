use rit::{classify_input, has_more, InputOutcome, PagerState, Paginator};

#[test]
fn three_pages_take_three_fetches() {
    // Page script [c1, c2, None]: one fetch per page, done after the last.
    let mut pager = Paginator::new(None);
    assert_eq!(pager.state, PagerState::Fetching);

    pager.on_page(Some("c1".to_string()));
    assert_eq!(pager.state, PagerState::AwaitingInput);
    assert_eq!(pager.on_input("\n"), InputOutcome::Continue);
    assert_eq!(pager.state, PagerState::Fetching);
    assert_eq!(pager.cursor.as_deref(), Some("c1"));

    pager.on_page(Some("c2".to_string()));
    assert_eq!(pager.on_input(""), InputOutcome::Continue);
    assert_eq!(pager.cursor.as_deref(), Some("c2"));

    pager.on_page(None);
    assert_eq!(pager.state, PagerState::Done);
    assert_eq!(pager.fetches, 3);
}

#[test]
fn quitting_after_the_first_page_stops_at_one_fetch() {
    // A three-page sequence cut short: "q" after page one means exactly one
    // fetch happened and no further fetch is asked for.
    let mut pager = Paginator::new(None);
    pager.on_page(Some("c1".to_string()));
    assert_eq!(pager.state, PagerState::AwaitingInput);
    assert_eq!(pager.on_input("q\n"), InputOutcome::Quit);
    assert_eq!(pager.state, PagerState::Done);
    assert_eq!(pager.fetches, 1);
}

#[test]
fn invalid_input_also_stops_paging() {
    let mut pager = Paginator::new(None);
    pager.on_page(Some("c1".to_string()));
    assert_eq!(pager.on_input("continue please"), InputOutcome::Invalid);
    assert_eq!(pager.state, PagerState::Done);
    assert_eq!(pager.fetches, 1);
}

#[test]
fn empty_string_cursor_means_no_more_pages() {
    // Some list endpoints answer an empty string instead of no cursor; both
    // read as "done".
    let mut pager = Paginator::new(None);
    pager.on_page(Some(String::new()));
    assert_eq!(pager.state, PagerState::Done);
    assert_eq!(pager.fetches, 1);

    assert!(!has_more(&None));
    assert!(!has_more(&Some(String::new())));
    assert!(has_more(&Some("c".to_string())));
}

#[test]
fn a_failed_fetch_aborts_the_run() {
    let mut pager = Paginator::new(Some("start".to_string()));
    assert_eq!(pager.cursor.as_deref(), Some("start"));
    pager.on_failure();
    assert_eq!(pager.state, PagerState::Done);
    assert_eq!(pager.fetches, 1);
}

#[test]
fn operator_lines_classify_by_their_trimmed_text() {
    assert_eq!(classify_input(""), InputOutcome::Continue);
    assert_eq!(classify_input("\n"), InputOutcome::Continue);
    assert_eq!(classify_input("  \t \r\n"), InputOutcome::Continue);
    assert_eq!(classify_input("q"), InputOutcome::Quit);
    assert_eq!(classify_input("q\n"), InputOutcome::Quit);
    assert_eq!(classify_input("  q  "), InputOutcome::Quit);
    assert_eq!(classify_input("quit"), InputOutcome::Invalid);
    assert_eq!(classify_input("Q"), InputOutcome::Invalid);
    assert_eq!(classify_input("x y"), InputOutcome::Invalid);
}
