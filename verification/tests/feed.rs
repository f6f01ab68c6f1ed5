use everyday_rewards_receipts::client::{
    ActivityFeedIterator, EverydayRewardsError, FeedItem, FeedResponse, ValueWithSource,
};
use everyday_rewards_receipts::models::{
    RewardsActivityFeedGroup, RewardsActivityFeedResponse, RtlRewardsActivity,
    RtlRewardsActivityFeed,
};

fn page(group_ids: &[&str], next: Option<&str>) -> FeedResponse {
    let groups = group_ids
        .iter()
        .map(|id| RewardsActivityFeedGroup {
            id: id.to_string(),
            title: format!("title of {}", id),
            items: None,
        })
        .collect();
    Ok(ValueWithSource {
        value: RewardsActivityFeedResponse {
            rtl_rewards_activity_feed: RtlRewardsActivityFeed {
                list: RtlRewardsActivity { groups, next_page_token: next.map(str::to_string) },
            },
        },
        source: "{}".to_string(),
    })
}

fn failure(message: &str) -> FeedResponse {
    Err(EverydayRewardsError::NetworkError(message.to_string()))
}

/// Pulls the stream dry against a fetcher that answers with `responses` in
/// turn. Gives the cursors asked for, the items yielded and the answers
/// that were never asked for.
fn drain(responses: Vec<FeedResponse>) -> (Vec<String>, Vec<FeedItem>, usize) {
    let mut stream = ActivityFeedIterator::create();
    let mut asked = Vec::new();
    let mut yielded = Vec::new();
    let mut rest = responses.into_iter();
    loop {
        let cursor = match stream.page_token() {
            Some(cursor) => cursor.clone(),
            None => break,
        };
        let response = match rest.next() {
            Some(response) => response,
            None => break,
        };
        asked.push(cursor);
        match stream.next(response) {
            Some(item) => yielded.push(item),
            None => panic!("an active stream yields on every pull"),
        }
    }
    (asked, yielded, rest.count())
}

fn first_group(item: &FeedItem) -> String {
    match item {
        Ok(list) => list.groups[0].id.clone(),
        Err(error) => panic!("expected a page, got {:?}", error),
    }
}

#[test]
fn fresh_stream_asks_for_the_first_page() {
    let stream = ActivityFeedIterator::create();
    assert_eq!(stream.page_token().map(String::as_str), Some("FIRST_PAGE"));
}

#[test]
fn stream_yields_pages_in_order_and_stops_at_the_last() {
    let (asked, yielded, unused) = drain(vec![
        page(&["A"], Some("page-2")),
        page(&["B"], Some("page-3")),
        page(&["C"], None),
        page(&["never"], Some("page-5")),
    ]);
    assert_eq!(asked, vec!["FIRST_PAGE", "page-2", "page-3"]);
    assert_eq!(yielded.len(), 3);
    assert_eq!(first_group(&yielded[0]), "A");
    assert_eq!(first_group(&yielded[1]), "B");
    assert_eq!(first_group(&yielded[2]), "C");
    assert_eq!(unused, 1);
}

#[test]
fn page_is_yielded_as_it_came() {
    let mut stream = ActivityFeedIterator::create();
    match stream.next(page(&["A", "B"], Some("page-2"))) {
        Some(Ok(list)) => {
            assert_eq!(list.groups.len(), 2);
            assert_eq!(list.groups[0].id, "A");
            assert_eq!(list.groups[0].title, "title of A");
            assert_eq!(list.groups[1].id, "B");
            assert_eq!(list.next_page_token.as_deref(), Some("page-2"));
        }
        other => panic!("expected a page, got {:?}", other),
    }
    assert_eq!(stream.page_token().map(String::as_str), Some("page-2"));
}

#[test]
fn single_page_without_cursor_exhausts_the_stream() {
    let (asked, yielded, unused) = drain(vec![page(&["only"], None)]);
    assert_eq!(asked, vec!["FIRST_PAGE"]);
    assert_eq!(yielded.len(), 1);
    assert_eq!(first_group(&yielded[0]), "only");
    assert_eq!(unused, 0);
}

#[test]
fn failure_on_third_page_is_yielded_once_and_ends_the_stream() {
    let (asked, yielded, unused) = drain(vec![
        page(&["A"], Some("page-2")),
        page(&["B"], Some("page-3")),
        failure("connection reset"),
        page(&["never"], None),
    ]);
    assert_eq!(asked, vec!["FIRST_PAGE", "page-2", "page-3"]);
    assert_eq!(yielded.len(), 3);
    assert_eq!(first_group(&yielded[0]), "A");
    assert_eq!(first_group(&yielded[1]), "B");
    match &yielded[2] {
        Err(EverydayRewardsError::NetworkError(message)) => assert_eq!(message, "connection reset"),
        other => panic!("expected the failure, got {:?}", other),
    }
    assert_eq!(unused, 1);
}

#[test]
fn failure_on_first_page_yields_only_the_failure() {
    let (asked, yielded, unused) = drain(vec![failure("dns"), page(&["never"], None)]);
    assert_eq!(asked, vec!["FIRST_PAGE"]);
    assert_eq!(yielded.len(), 1);
    assert!(matches!(&yielded[0], Err(EverydayRewardsError::NetworkError(message)) if message == "dns"));
    assert_eq!(unused, 1);
}

#[test]
fn exhausted_stream_yields_nothing_more() {
    let mut stream = ActivityFeedIterator::create();
    assert!(stream.next(page(&["A"], None)).is_some());
    assert!(stream.page_token().is_none());
    assert!(stream.next(page(&["B"], Some("page-2"))).is_none());
    assert!(stream.page_token().is_none());
    assert!(stream.next(failure("late")).is_none());
    assert!(stream.page_token().is_none());
}

#[test]
fn stream_stays_exhausted_after_a_failure() {
    let mut stream = ActivityFeedIterator::create();
    assert!(matches!(stream.next(failure("boom")), Some(Err(_))));
    assert!(stream.page_token().is_none());
    assert!(stream.next(page(&["A"], Some("page-2"))).is_none());
    assert!(stream.page_token().is_none());
}

#[test]
fn cursor_is_passed_on_untouched() {
    let odd = " FIRST_PAGE\t\"quoted\" \u{e9}\n";
    let (asked, yielded, _) = drain(vec![page(&["A"], Some(odd)), page(&["B"], None)]);
    assert_eq!(asked, vec!["FIRST_PAGE", odd]);
    assert_eq!(yielded.len(), 2);
}

#[test]
fn empty_cursor_is_still_a_cursor() {
    let (asked, yielded, unused) = drain(vec![page(&["A"], Some("")), page(&["B"], None)]);
    assert_eq!(asked, vec!["FIRST_PAGE", ""]);
    assert_eq!(yielded.len(), 2);
    assert_eq!(unused, 0);
}

#[test]
fn parse_error_from_the_fetcher_is_yielded_as_it_is() {
    let mut stream = ActivityFeedIterator::create();
    let cause = "expected value at line 1 column 1".to_string();
    match stream.next(Err(EverydayRewardsError::ParseError(cause))) {
        Some(Err(EverydayRewardsError::ParseError(cause))) => {
            assert_eq!(cause, "expected value at line 1 column 1")
        }
        other => panic!("expected the parse error, got {:?}", other),
    }
    assert!(stream.page_token().is_none());
}

#[test]
fn api_error_from_the_fetcher_keeps_its_list() {
    let mut stream = ActivityFeedIterator::create();
    let errors = vec![everyday_rewards_receipts::models::ApiError {
        code: "AUTH".to_string(),
        message: "bad token".to_string(),
        status: 401,
    }];
    match stream.next(Err(EverydayRewardsError::ApiError(errors))) {
        Some(Err(EverydayRewardsError::ApiError(errors))) => {
            assert_eq!(errors.len(), 1);
            assert_eq!(errors[0].status, 401);
        }
        other => panic!("expected the api error, got {:?}", other),
    }
    assert!(stream.page_token().is_none());
}
