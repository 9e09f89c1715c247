//! The multi-page aggregator: page planning, per-page specifications,
//! the credential policy, and the merge of partial results.

use rustemon::ErrorKind;
use rustemon::MAX_PAGE_SIZE;
use rustemon::Many;
use rustemon::MultiRequester;
use rustemon::Requester;

#[test]
fn plan_covers_every_page_from_one() {
    assert_eq!(MultiRequester::plan_pages(5), vec![1, 2, 3, 4, 5]);
    assert_eq!(MultiRequester::plan_pages(1), vec![1]);
}

#[test]
fn plan_of_zero_pages_is_empty() {
    assert_eq!(MultiRequester::plan_pages(0), Vec::<u16>::new());
}

#[test]
fn page_options_vary_only_the_page_number() {
    let options = MultiRequester::page_options(4);
    assert_eq!(options.page, 4);
    assert_eq!(options.page_size, MAX_PAGE_SIZE);
    assert_eq!(options.q, "");
    assert_eq!(options.order_by, "");
    assert_eq!(options.select, "");
}

#[test]
fn page_requester_asks_the_right_url() {
    let requester = MultiRequester::page_requester("cards", 9);
    assert_eq!(requester.build_url(), "cards?query=&page=9&pageSize=250&orderBy=&select=");
}

#[test]
fn merge_keeps_successes_and_drops_failures() {
    let pages: Vec<Option<Vec<u32>>> = vec![
        Some(vec![1, 2, 3]),
        None,
        Some(vec![4, 5, 6]),
        None,
        Some(vec![7, 8, 9]),
    ];
    let merged = MultiRequester::merge_pages(pages);
    assert_eq!(merged.len(), 9);
    assert_eq!(merged, vec![1, 2, 3, 4, 5, 6, 7, 8, 9]);
}

#[test]
fn merge_keeps_completion_order() {
    let pages: Vec<Option<Vec<&str>>> = vec![Some(vec!["late"]), Some(vec!["early"])];
    assert_eq!(MultiRequester::merge_pages(pages), vec!["late", "early"]);
}

#[test]
fn merge_of_no_pages_is_empty() {
    let pages: Vec<Option<Vec<u32>>> = Vec::new();
    assert_eq!(MultiRequester::merge_pages(pages), Vec::<u32>::new());
    let one: Vec<Option<Vec<u32>>> = vec![Some(vec![10])];
    assert_eq!(MultiRequester::merge_pages(one), vec![10]);
}

#[test]
fn merge_of_only_failures_is_empty() {
    let pages: Vec<Option<Vec<u32>>> = vec![None, None, None];
    assert_eq!(MultiRequester::merge_pages(pages), Vec::<u32>::new());
}

#[test]
fn missing_required_credential_fails_before_any_call() {
    let requester = Requester::new("cards");
    let err = requester.prepare(None, true).unwrap_err();
    assert_eq!(err.kind, ErrorKind::Configuration);
    assert_eq!(err.message, "Configuration error: missing API key");
    assert_eq!(err.code, None);
}

#[test]
fn absent_credential_is_allowed_when_not_required() {
    let requester = Requester::new("cards");
    let prepared = requester.prepare(None, false).unwrap();
    assert_eq!(prepared.api_key, None);
    let headers = prepared.headers();
    assert_eq!(headers.len(), 2);
    assert_eq!(headers[0], ("Content-Type".to_string(), "application/json".to_string()));
    assert_eq!(headers[1], ("Accept".to_string(), "application/json".to_string()));
}

#[test]
fn present_credential_becomes_the_key_header() {
    let requester = Requester::new("cards");
    let prepared = requester.prepare(Some("SECRET-REDACTED".to_string()), true).unwrap();
    let headers = prepared.headers();
    assert_eq!(headers.len(), 3);
    assert_eq!(headers[2], ("X-Api-Key".to_string(), "SECRET-REDACTED".to_string()));
}

#[test]
fn consistent_envelope_counts_its_records() {
    let envelope = Many::<u32> { data: vec![7, 8], page: 1, page_size: 250, count: 2, total_count: 12 };
    assert!(envelope.is_consistent());
    let short = Many::<u32> { data: vec![7], page: 1, page_size: 250, count: 2, total_count: 12 };
    assert!(!short.is_consistent());
}
