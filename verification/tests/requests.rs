use everyday_rewards_receipts::client::{
    feed_query, ApiRequest, EverydayRewardsClient, API_VERSION, API_VERSION_VALUE, AUTHORIZATION,
    CLIENT_ID, DETAILS_URL, DOWNLOAD_URL, FEED_QUERY_HEAD, FEED_QUERY_TAIL, FEED_URL, FIRST_PAGE,
    JSON_CONTENT_TYPE, USER_AGENT, USER_AGENT_VALUE, WEB_CLIENT_ID,
};

#[test]
fn client_sends_the_four_identifying_headers() {
    assert!(EverydayRewardsClient::accepts("secret-token"));
    let client = EverydayRewardsClient::create("secret-token");
    let headers = client.headers();
    assert_eq!(headers.len(), 4);
    assert_eq!(headers[0].name, "authorization");
    assert_eq!(headers[0].value, "Bearer secret-token");
    assert_eq!(headers[1].name, "client_id");
    assert_eq!(headers[1].value, "8h41mMOiDULmlLT28xKSv5ITpp3XBRvH");
    assert_eq!(headers[2].name, "api-version");
    assert_eq!(headers[2].value, "2");
    assert_eq!(headers[3].name, "user-agent");
    assert_eq!(headers[3].value, USER_AGENT_VALUE);
    assert_eq!(AUTHORIZATION, "authorization");
    assert_eq!(CLIENT_ID, "client_id");
    assert_eq!(API_VERSION, "api-version");
    assert_eq!(USER_AGENT, "user-agent");
    assert_eq!(API_VERSION_VALUE, "2");
    assert_eq!(WEB_CLIENT_ID.len(), 32);
}

#[test]
fn every_default_header_can_be_sent() {
    let client = EverydayRewardsClient::create("abc.def-ghi");
    for header in client.headers() {
        let parsed = reqwest::header::HeaderValue::from_str(&header.value);
        assert!(parsed.is_ok(), "{}", header.name);
        let name = reqwest::header::HeaderName::from_bytes(header.name.as_bytes());
        assert!(name.is_ok(), "{}", header.name);
    }
}

#[test]
fn tokens_of_visible_text_and_tabs_are_accepted() {
    assert!(EverydayRewardsClient::accepts(""));
    assert!(EverydayRewardsClient::accepts("abc.DEF-123_~"));
    assert!(EverydayRewardsClient::accepts("a b"));
    assert!(EverydayRewardsClient::accepts("tab\tok"));
    assert!(EverydayRewardsClient::accepts("caf\u{e9}"));
    assert!(EverydayRewardsClient::accepts("\u{80}"));
}

#[test]
fn tokens_with_control_characters_are_refused() {
    assert!(!EverydayRewardsClient::accepts("abc\ndef"));
    assert!(!EverydayRewardsClient::accepts("\r"));
    assert!(!EverydayRewardsClient::accepts("\u{0}"));
    assert!(!EverydayRewardsClient::accepts("\u{1f}"));
    assert!(!EverydayRewardsClient::accepts("abc\u{7f}"));
}

#[test]
fn accepted_tokens_are_those_that_parse_as_header_values() {
    for token in ["", "abc", "a\tb", "a\nb", "x\u{7f}", "\u{1}", "\u{e9}", "\u{10348}"] {
        let header = format!("Bearer {}", token);
        let parsed = reqwest::header::HeaderValue::from_str(&header);
        assert_eq!(EverydayRewardsClient::accepts(token), parsed.is_ok(), "{:?}", token);
    }
}

#[test]
fn feed_query_puts_the_cursor_in_the_document() {
    let query = feed_query("page-2");
    assert_eq!(query, format!("{}page-2{}", FEED_QUERY_HEAD, FEED_QUERY_TAIL));
    assert!(query.contains("rtlRewardsActivityFeed(pageToken: \"page-2\")"));
    assert!(query.contains("nextPageToken"));
    assert!(query.contains("receiptId"));
    assert!(!query.contains("FIRST_PAGE"));
}

#[test]
fn feed_query_keeps_the_cursor_verbatim() {
    let cursor = "a\"b\\c FIRST_PAGE \u{e9}";
    let query = feed_query(cursor);
    assert_eq!(query, format!("{}{}{}", FEED_QUERY_HEAD, cursor, FEED_QUERY_TAIL));
}

#[test]
fn first_feed_request_asks_for_the_first_page() {
    let client = EverydayRewardsClient::create("t");
    let request = client.rewards_activity_feed(None);
    assert_eq!(request.url, "https://apigee-prod.api-wr.com/wx/v1/bff/graphql");
    assert_eq!(request.url, FEED_URL);
    assert_eq!(request.content_type, "application/json;charset=UTF-8");
    let expected = serde_json::Value::Object(
        std::iter::once((
            "query".to_string(),
            serde_json::Value::String(feed_query(FIRST_PAGE)),
        ))
        .collect(),
    );
    let sent: serde_json::Value = serde_json::from_str(&request.body).unwrap();
    assert_eq!(sent, expected);
    assert!(request.body.starts_with(
        "{\"query\":\"query RewardsActivityFeed {\\n  rtlRewardsActivityFeed(pageToken: \\\"FIRST_PAGE\\\") {\\n"
    ));
    assert!(request.body.ends_with("}\\n\"}"));
    let same = client.rewards_activity_feed(Some("FIRST_PAGE"));
    assert_eq!(same.body, request.body);
}

#[test]
fn later_feed_request_carries_the_cursor() {
    let client = EverydayRewardsClient::create("t");
    let request = client.rewards_activity_feed(Some("page-2"));
    assert_eq!(request.url, FEED_URL);
    assert!(request.body.starts_with(
        "{\"query\":\"query RewardsActivityFeed {\\n  rtlRewardsActivityFeed(pageToken: \\\"page-2\\\") {\\n"
    ));
    let sent: serde_json::Value = serde_json::from_str(&request.body).unwrap();
    assert_eq!(sent.get("query").and_then(|query| query.as_str()), Some(feed_query("page-2").as_str()));
}

#[test]
fn details_request_names_the_receipt() {
    let client = EverydayRewardsClient::create("t");
    let request = client.transaction_details("R1");
    assert_eq!(
        request.url,
        "https://api.woolworthsrewards.com.au/wx/v1/rewards/member/ereceipts/transactions/details"
    );
    assert_eq!(request.url, DETAILS_URL);
    assert_eq!(request.content_type, JSON_CONTENT_TYPE);
    assert_eq!(request.body, r#"{"receiptKey":"R1"}"#);
}

#[test]
fn details_request_escapes_the_receipt_key() {
    let client = EverydayRewardsClient::create("t");
    let request = client.transaction_details("a\"b\\c\nd\u{1}\u{e9}");
    assert_eq!(request.body, "{\"receiptKey\":\"a\\\"b\\\\c\\nd\\u0001\u{e9}\"}");
}

#[test]
fn download_request_names_the_url() {
    let client = EverydayRewardsClient::create("t");
    let request = client.download_receipt("http://x/rcpt");
    assert_eq!(
        request.url,
        "https://api.woolworthsrewards.com.au/wx/v1/rewards/member/ereceipts/transactions/details/download"
    );
    assert_eq!(request.url, DOWNLOAD_URL);
    assert_eq!(request.content_type, "application/json;charset=UTF-8");
    assert_eq!(request.body, r#"{"downloadUrl":"http://x/rcpt"}"#);
}

#[test]
fn post_json_keeps_url_and_body() {
    let request = ApiRequest::post_json("http://h/p", "{\"a\":1}".to_string());
    assert_eq!(request.url, "http://h/p");
    assert_eq!(request.content_type, JSON_CONTENT_TYPE);
    assert_eq!(request.body, "{\"a\":1}");
}
