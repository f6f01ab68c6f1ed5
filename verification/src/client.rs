//! The client side of the rewards API, without the transport: the requests
//! to send, the judgement of the envelopes that come back, and the cursor
//! that walks the activity feed.

use vstd::prelude::*;
use vstd::string::StringExecFns;
use crate::models::{
    ApiError, ApiErrorView, ApiResponse, RewardsActivityFeedResponse, RtlRewardsActivity,
};
use crate::wire::{is_header_text, json_object, json_object_text, parses_as_header_value};

verus! {

/// A decoded payload together with the text it was decoded from.
#[derive(Debug)]
pub struct ValueWithSource<T> {
    pub value: T,
    pub source: String,
}

pub struct ValueWithSourceView<V> {
    pub value: V,
    pub source: Seq<char>,
}

impl<T: DeepView> DeepView for ValueWithSource<T> {
    type V = ValueWithSourceView<T::V>;

    open spec fn deep_view(&self) -> ValueWithSourceView<T::V> {
        ValueWithSourceView { value: self.value.deep_view(), source: self.source@ }
    }
}

impl<T> AsRef<T> for ValueWithSource<T> {
    /// The decoded payload.
    fn as_ref(&self) -> (value: &T)
        ensures
            *value == self.value,
    {
        &self.value
    }
}

/// What can go wrong between a request and its decoded answer. The network,
/// parse and I/O failures carry the message of the failure that caused them.
#[derive(Debug)]
pub enum EverydayRewardsError {
    ApiError(Vec<ApiError>),
    NetworkError(String),
    ParseError(String),
    IoError(String),
    UnknownError(String),
}

pub enum EverydayRewardsErrorView {
    ApiError(Seq<ApiErrorView>),
    NetworkError(Seq<char>),
    ParseError(Seq<char>),
    IoError(Seq<char>),
    UnknownError(Seq<char>),
}

impl DeepView for EverydayRewardsError {
    type V = EverydayRewardsErrorView;

    open spec fn deep_view(&self) -> EverydayRewardsErrorView {
        match self {
            EverydayRewardsError::ApiError(errors) => EverydayRewardsErrorView::ApiError(
                errors.deep_view(),
            ),
            EverydayRewardsError::NetworkError(cause) => EverydayRewardsErrorView::NetworkError(
                cause@,
            ),
            EverydayRewardsError::ParseError(cause) => EverydayRewardsErrorView::ParseError(cause@),
            EverydayRewardsError::IoError(cause) => EverydayRewardsErrorView::IoError(cause@),
            EverydayRewardsError::UnknownError(body) => EverydayRewardsErrorView::UnknownError(
                body@,
            ),
        }
    }
}

/// The message of the error for an envelope that holds neither a payload nor
/// errors: a fixed prefix, then the body as it was received.
pub open spec fn unknown_response(text: Seq<char>) -> Seq<char> {
    "Unknown response: "@ + text
}

impl ApiResponse {
    /// Judges a decoded envelope, of which `text` is the body as received.
    /// An error list, when there is one, wins and is handed on whole. Else the
    /// payload text is the result. An envelope with neither is an unknown
    /// error that carries the body.
    pub fn into_result(self, text: &str) -> (result: Result<String, EverydayRewardsError>)
        ensures
            self.errors matches Some(errors) ==> result == Err::<String, EverydayRewardsError>(
                EverydayRewardsError::ApiError(errors),
            ),
            self.errors is None ==> match self.data {
                Some(data) => result == Ok::<String, EverydayRewardsError>(data),
                None => result matches Err(EverydayRewardsError::UnknownError(body))
                    && body@ == unknown_response(text@),
            },
    {
        match self.errors {
            Some(errors) => Err(EverydayRewardsError::ApiError(errors)),
            None => match self.data {
                Some(data) => Ok(data),
                None => {
                    let mut body = String::from_str("Unknown response: ");
                    body.append(text);
                    Err(EverydayRewardsError::UnknownError(body))
                },
            },
        }
    }
}


/// The cursor that asks for the first page of the feed.
pub const FIRST_PAGE: &'static str = "FIRST_PAGE";

/// The endpoint that answers feed page requests.
pub const FEED_URL: &'static str = "https://apigee-prod.api-wr.com/wx/v1/bff/graphql";

/// The endpoint that answers receipt detail requests.
pub const DETAILS_URL: &'static str =
    "https://api.woolworthsrewards.com.au/wx/v1/rewards/member/ereceipts/transactions/details";

/// The endpoint that hands out the stored receipt itself.
pub const DOWNLOAD_URL: &'static str =
    "https://api.woolworthsrewards.com.au/wx/v1/rewards/member/ereceipts/transactions/details/download";

/// The content type of every request body.
pub const JSON_CONTENT_TYPE: &'static str = "application/json;charset=UTF-8";

/// The feed document up to the cursor.
pub const FEED_QUERY_HEAD: &'static str =
    "query RewardsActivityFeed {\n  rtlRewardsActivityFeed(pageToken: \"";

/// The feed document after the cursor.
pub const FEED_QUERY_TAIL: &'static str = "\") {\
    \n    list {\
    \n      groups {\
    \n        ... on RewardsActivityFeedGroup {\
    \n          id\
    \n          title\
    \n          items {\
    \n            id\
    \n            receipt {\
    \n              receiptId\
    \n            }\
    \n          }\
    \n        }\
    \n      }\
    \n      nextPageToken\
    \n    }\
    \n  }\
    \n}\n";

/// The feed document that asks for the page behind `page_token`.
pub open spec fn feed_query_text(page_token: Seq<char>) -> Seq<char> {
    FEED_QUERY_HEAD@ + page_token + FEED_QUERY_TAIL@
}

/// Writes the feed document for one page. The cursor is put in as it is.
pub fn feed_query(page_token: &str) -> (query: String)
    ensures
        query@ == feed_query_text(page_token@),
{
    let mut query = String::from_str(FEED_QUERY_HEAD);
    query.append(page_token);
    query.append(FEED_QUERY_TAIL);
    query
}


/// The name of the header that carries the credential.
pub const AUTHORIZATION: &'static str = "authorization";

/// The name of the header that identifies the calling application.
pub const CLIENT_ID: &'static str = "client_id";

/// The identity under which the calls are made.
pub const WEB_CLIENT_ID: &'static str = "8h41mMOiDULmlLT28xKSv5ITpp3XBRvH";

/// The name of the header that selects the API version.
pub const API_VERSION: &'static str = "api-version";

/// The API version that the requests are written for.
pub const API_VERSION_VALUE: &'static str = "2";

/// The name of the header that describes the calling program.
pub const USER_AGENT: &'static str = "user-agent";

/// How the calling program describes itself.
pub const USER_AGENT_VALUE: &'static str =
    "Everyday Rewards Receipts Downloader by Thomas Fowler (https://github.com/T-Fowl/everyday-rewards-receipts)";

/// One header of a request.
#[derive(Debug)]
pub struct Header {
    pub name: String,
    pub value: String,
}

pub struct HeaderView {
    pub name: Seq<char>,
    pub value: Seq<char>,
}

impl DeepView for Header {
    type V = HeaderView;

    open spec fn deep_view(&self) -> HeaderView {
        HeaderView { name: self.name@, value: self.value@ }
    }
}

/// A request for the transport to post: where to, and the JSON text to send.
#[derive(Debug)]
pub struct ApiRequest {
    pub url: String,
    pub content_type: String,
    pub body: String,
}

pub struct ApiRequestView {
    pub url: Seq<char>,
    pub content_type: Seq<char>,
    pub body: Seq<char>,
}

impl DeepView for ApiRequest {
    type V = ApiRequestView;

    open spec fn deep_view(&self) -> ApiRequestView {
        ApiRequestView { url: self.url@, content_type: self.content_type@, body: self.body@ }
    }
}

impl ApiRequest {
    /// The request that posts the JSON text `body` to `url`.
    pub fn post_json(url: &str, body: String) -> (request: ApiRequest)
        ensures
            request.deep_view() == (ApiRequestView {
                url: url@,
                content_type: JSON_CONTENT_TYPE@,
                body: body@,
            }),
    {
        ApiRequest {
            url: String::from_str(url),
            content_type: String::from_str(JSON_CONTENT_TYPE),
            body,
        }
    }
}

/// The value of the authorization header for the credential `token`.
pub open spec fn bearer(token: Seq<char>) -> Seq<char> {
    "Bearer "@ + token
}

/// The headers that go with every request made for the credential `token`.
pub open spec fn default_headers(token: Seq<char>) -> Seq<HeaderView> {
    seq![
        HeaderView { name: AUTHORIZATION@, value: bearer(token) },
        HeaderView { name: CLIENT_ID@, value: WEB_CLIENT_ID@ },
        HeaderView { name: API_VERSION@, value: API_VERSION_VALUE@ },
        HeaderView { name: USER_AGENT@, value: USER_AGENT_VALUE@ },
    ]
}

/// The cursor that a page request carries: the one given, or the first page.
pub open spec fn cursor_or_first(page_token: Option<Seq<char>>) -> Seq<char> {
    match page_token {
        Some(token) => token,
        None => FIRST_PAGE@,
    }
}

/// The request for the feed page behind `page_token`.
pub open spec fn feed_request(page_token: Option<Seq<char>>) -> ApiRequestView {
    ApiRequestView {
        url: FEED_URL@,
        content_type: JSON_CONTENT_TYPE@,
        body: json_object_text("query"@, feed_query_text(cursor_or_first(page_token))),
    }
}

/// The request for the details of the receipt `receipt_key`.
pub open spec fn details_request(receipt_key: Seq<char>) -> ApiRequestView {
    ApiRequestView {
        url: DETAILS_URL@,
        content_type: JSON_CONTENT_TYPE@,
        body: json_object_text("receiptKey"@, receipt_key),
    }
}

/// The request for the stored receipt behind `download_url`.
pub open spec fn download_request(download_url: Seq<char>) -> ApiRequestView {
    ApiRequestView {
        url: DOWNLOAD_URL@,
        content_type: JSON_CONTENT_TYPE@,
        body: json_object_text("downloadUrl"@, download_url),
    }
}

/// The rewards API as seen by one member: the headers that identify the
/// member on every call, and the requests that the API answers.
#[derive(Debug)]
pub struct EverydayRewardsClient {
    headers: Vec<Header>,
}

impl View for EverydayRewardsClient {
    type V = Seq<HeaderView>;

    closed spec fn view(&self) -> Seq<HeaderView> {
        self.headers.deep_view()
    }
}

fn header(name: &str, value: String) -> (header: Header)
    ensures
        header.deep_view() == (HeaderView { name: name@, value: value@ }),
{
    Header { name: String::from_str(name), value }
}

impl EverydayRewardsClient {
    /// Whether `token` can be a credential: whether the authorization header
    /// made of it can be sent.
    pub fn accepts(token: &str) -> (accepted: bool)
        ensures
            accepted == is_header_text(bearer(token@)),
    {
        let mut value = String::from_str("Bearer ");
        value.append(token);
        parses_as_header_value(value.as_str())
    }

    /// The client of the member whose credential is `token`.
    pub fn create(token: &str) -> (client: EverydayRewardsClient)
        requires
            is_header_text(bearer(token@)),
        ensures
            client@ == default_headers(token@),
    {
        let mut authorization = String::from_str("Bearer ");
        authorization.append(token);
        let mut headers: Vec<Header> = Vec::new();
        headers.push(header(AUTHORIZATION, authorization));
        headers.push(header(CLIENT_ID, String::from_str(WEB_CLIENT_ID)));
        headers.push(header(API_VERSION, String::from_str(API_VERSION_VALUE)));
        headers.push(header(USER_AGENT, String::from_str(USER_AGENT_VALUE)));
        assert(headers.deep_view() =~= default_headers(token@));
        EverydayRewardsClient { headers }
    }

    /// The headers to send with every request of this client.
    pub fn headers(&self) -> (headers: &Vec<Header>)
        ensures
            headers.deep_view() == self@,
    {
        &self.headers
    }

    /// The request for one page of the activity feed: the page behind
    /// `page_token`, or the first page where there is no cursor yet.
    pub fn rewards_activity_feed(&self, page_token: Option<&str>) -> (request: ApiRequest)
        ensures
            request.deep_view() == feed_request(page_token.deep_view()),
    {
        let cursor = match page_token {
            Some(token) => token,
            None => FIRST_PAGE,
        };
        let query = feed_query(cursor);
        ApiRequest::post_json(FEED_URL, json_object("query", query.as_str()))
    }

    /// The request for the details of one receipt.
    pub fn transaction_details(&self, receipt_key: &str) -> (request: ApiRequest)
        ensures
            request.deep_view() == details_request(receipt_key@),
    {
        ApiRequest::post_json(DETAILS_URL, json_object("receiptKey", receipt_key))
    }

    /// The request for the stored receipt that `download_url` points to.
    pub fn download_receipt(&self, download_url: &str) -> (request: ApiRequest)
        ensures
            request.deep_view() == download_request(download_url@),
    {
        ApiRequest::post_json(DOWNLOAD_URL, json_object("downloadUrl", download_url))
    }
}

/// Every header of a client whose credential can be sent can be sent.
pub proof fn lemma_default_headers_can_be_sent(token: Seq<char>)
    requires
        is_header_text(bearer(token)),
    ensures
        forall|i: int|
            0 <= i < default_headers(token).len() ==> is_header_text(
                #[trigger] default_headers(token)[i].value,
            ),
{
    reveal_strlit("8h41mMOiDULmlLT28xKSv5ITpp3XBRvH");
    reveal_strlit("2");
    reveal_strlit(
        "Everyday Rewards Receipts Downloader by Thomas Fowler (https://github.com/T-Fowl/everyday-rewards-receipts)",
    );
    assert(is_header_text(WEB_CLIENT_ID@));
    assert(is_header_text(API_VERSION_VALUE@));
    assert(is_header_text(USER_AGENT_VALUE@));
}

/// What a fetcher hands back for one page request.
pub type FeedResponse = Result<ValueWithSource<RewardsActivityFeedResponse>, EverydayRewardsError>;

/// What the activity stream yields on one pull.
pub type FeedItem = Result<RtlRewardsActivity, EverydayRewardsError>;

/// What the stream yields for an answer of the fetcher: the page in it, or
/// the failure.
pub open spec fn feed_item(response: FeedResponse) -> FeedItem {
    match response {
        Ok(page) => Ok(page.value.rtl_rewards_activity_feed.list),
        Err(error) => Err(error),
    }
}

/// The cursor that an answer of the fetcher leaves the stream with: that of
/// the next page, or none after the last page and after a failure.
pub open spec fn feed_cursor(response: FeedResponse) -> Option<Seq<char>> {
    match response {
        Ok(page) => page.value.rtl_rewards_activity_feed.list.next_page_token.deep_view(),
        Err(_) => None,
    }
}

/// The activity stream: the cursor of the page to ask for next, or none once
/// the stream is exhausted. The stream itself fetches nothing. Its driver
/// asks for the page behind `page_token` and hands the answer to `next`.
#[derive(Debug)]
pub struct ActivityFeedIterator {
    page: Option<String>,
}

impl View for ActivityFeedIterator {
    type V = Option<Seq<char>>;

    closed spec fn view(&self) -> Option<Seq<char>> {
        self.page.deep_view()
    }
}

impl ActivityFeedIterator {
    /// A stream that starts at the first page.
    pub fn create() -> (stream: ActivityFeedIterator)
        ensures
            stream@ == Some(FIRST_PAGE@),
    {
        ActivityFeedIterator { page: Some(String::from_str(FIRST_PAGE)) }
    }

    /// The cursor of the page to fetch next, or none when the stream is
    /// exhausted.
    pub fn page_token(&self) -> (cursor: Option<&String>)
        ensures
            cursor.deep_view() == self@,
    {
        self.page.as_ref()
    }

    /// Takes the fetcher's answer to the request for the page behind
    /// `page_token` and yields what the stream has for it. An exhausted
    /// stream yields nothing and stays exhausted. A failure is yielded once
    /// and exhausts the stream. A page is yielded as it came and leaves the
    /// stream at the cursor that the page names.
    pub fn next(&mut self, response: FeedResponse) -> (item: Option<FeedItem>)
        ensures
            old(self)@ is None ==> item is None && final(self)@ is None,
            old(self)@ is Some ==> item == Some(feed_item(response)) && final(self)@
                == feed_cursor(response),
    {
        if self.page.is_none() {
            return None;
        }
        match response {
            Err(error) => {
                self.page = None;
                Some(Err(error))
            },
            Ok(page) => {
                let list = page.value.rtl_rewards_activity_feed.list;
                self.page = match &list.next_page_token {
                    Some(token) => Some(token.clone()),
                    None => None,
                };
                Some(Ok(list))
            },
        }
    }
}

/// What a stream in state `cursor` yields, pull by pull, while a fetcher
/// answers its requests with `responses` in turn. Answers that are left when
/// the stream is exhausted are never asked for.
pub open spec fn feed_items(cursor: Option<Seq<char>>, responses: Seq<FeedResponse>) -> Seq<
    FeedItem,
>
    decreases responses.len(),
{
    if cursor is None || responses.len() == 0 {
        Seq::empty()
    } else {
        seq![feed_item(responses[0])] + feed_items(
            feed_cursor(responses[0]),
            responses.drop_first(),
        )
    }
}

/// The cursors that a stream in state `cursor` asks the fetcher for while
/// the fetcher answers with `responses` in turn.
pub open spec fn feed_requests(cursor: Option<Seq<char>>, responses: Seq<FeedResponse>) -> Seq<
    Seq<char>,
>
    decreases responses.len(),
{
    if cursor is None || responses.len() == 0 {
        Seq::empty()
    } else {
        seq![cursor->0] + feed_requests(feed_cursor(responses[0]), responses.drop_first())
    }
}

/// The state of a stream that started in state `cursor`, after the fetcher
/// has answered with `responses` in turn.
pub open spec fn feed_state(cursor: Option<Seq<char>>, responses: Seq<FeedResponse>) -> Option<
    Seq<char>,
>
    decreases responses.len(),
{
    if cursor is None || responses.len() == 0 {
        cursor
    } else {
        feed_state(feed_cursor(responses[0]), responses.drop_first())
    }
}

/// The cursor of the request that gets the answer `responses[i]`, where no
/// earlier answer has exhausted the stream: the stream's own cursor for the
/// first request, and after that the cursor that the page before names.
pub open spec fn feed_request_at(cursor: Seq<char>, responses: Seq<FeedResponse>, i: int) -> Seq<
    char,
> {
    if i == 0 {
        cursor
    } else {
        feed_cursor(responses[i - 1])->0
    }
}

/// A stream yields one item for each answer up to and with the first answer
/// that leaves no cursor, in the order of the answers, and asks for each
/// page by the cursor that the page before named.
pub proof fn lemma_feed_runs_to_first_stop(
    cursor: Seq<char>,
    responses: Seq<FeedResponse>,
    stop: int,
)
    requires
        0 <= stop < responses.len(),
        feed_cursor(responses[stop]) is None,
        forall|i: int| 0 <= i < stop ==> feed_cursor(#[trigger] responses[i]) is Some,
    ensures
        feed_items(Some(cursor), responses) == Seq::new(
            (stop + 1) as nat,
            |i: int| feed_item(responses[i]),
        ),
        feed_requests(Some(cursor), responses) == Seq::new(
            (stop + 1) as nat,
            |i: int| feed_request_at(cursor, responses, i),
        ),
        feed_state(Some(cursor), responses) is None,
    decreases stop,
{
    let rest = responses.drop_first();
    if stop == 0 {
        assert(feed_items(None, rest) == Seq::<FeedItem>::empty());
        assert(feed_requests(None, rest) == Seq::<Seq<char>>::empty());
        assert(feed_state(None, rest) is None);
        assert(feed_items(Some(cursor), responses) =~= Seq::new(
            1,
            |i: int| feed_item(responses[i]),
        ));
        assert(feed_requests(Some(cursor), responses) =~= Seq::new(
            1,
            |i: int| feed_request_at(cursor, responses, i),
        ));
    } else {
        let next = feed_cursor(responses[0])->0;
        assert forall|i: int| 0 <= i < stop - 1 implies feed_cursor(#[trigger] rest[i]) is Some by {
            assert(rest[i] == responses[i + 1]);
        }
        lemma_feed_runs_to_first_stop(next, rest, stop - 1);
        assert(feed_items(Some(cursor), responses) =~= Seq::new(
            (stop + 1) as nat,
            |i: int| feed_item(responses[i]),
        ));
        assert(feed_requests(Some(cursor), responses) =~= Seq::new(
            (stop + 1) as nat,
            |i: int| feed_request_at(cursor, responses, i),
        ));
    }
}

/// While no answer leaves the stream without a cursor, the stream yields one
/// item for each answer, in order, and is still active.
pub proof fn lemma_feed_runs_while_cursor(cursor: Seq<char>, responses: Seq<FeedResponse>)
    requires
        forall|i: int| 0 <= i < responses.len() ==> feed_cursor(#[trigger] responses[i]) is Some,
    ensures
        feed_items(Some(cursor), responses) == Seq::new(
            responses.len(),
            |i: int| feed_item(responses[i]),
        ),
        feed_requests(Some(cursor), responses) == Seq::new(
            responses.len(),
            |i: int| feed_request_at(cursor, responses, i),
        ),
        feed_state(Some(cursor), responses) is Some,
    decreases responses.len(),
{
    if responses.len() > 0 {
        let rest = responses.drop_first();
        let next = feed_cursor(responses[0])->0;
        assert forall|i: int| 0 <= i < rest.len() implies feed_cursor(#[trigger] rest[i]) is Some by {
            assert(rest[i] == responses[i + 1]);
        }
        lemma_feed_runs_while_cursor(next, rest);
    }
    assert(feed_items(Some(cursor), responses) =~= Seq::new(
        responses.len(),
        |i: int| feed_item(responses[i]),
    ));
    assert(feed_requests(Some(cursor), responses) =~= Seq::new(
        responses.len(),
        |i: int| feed_request_at(cursor, responses, i),
    ));
}

/// Where every answer is a page, the stream yields the pages in the order in
/// which the fetcher produced them, up to and with the first page that names
/// no next page, and nothing after it: no page is missing, added or repeated.
pub proof fn lemma_pages_come_in_order(responses: Seq<FeedResponse>, last: int)
    requires
        0 <= last < responses.len(),
        forall|i: int| 0 <= i < responses.len() ==> #[trigger] responses[i] is Ok,
        feed_cursor(responses[last]) is None,
        forall|i: int| 0 <= i < last ==> feed_cursor(#[trigger] responses[i]) is Some,
    ensures
        feed_items(Some(FIRST_PAGE@), responses).len() == last + 1,
        forall|i: int|
            0 <= i <= last ==> #[trigger] feed_items(Some(FIRST_PAGE@), responses)[i] == Ok::<
                RtlRewardsActivity,
                EverydayRewardsError,
            >(responses[i]->Ok_0.value.rtl_rewards_activity_feed.list),
        feed_state(Some(FIRST_PAGE@), responses) is None,
{
    lemma_feed_runs_to_first_stop(FIRST_PAGE@, responses, last);
}

/// Where the fetcher fails on the request with index `failed`, after pages
/// that each name a next page, the stream yields those pages, then the
/// failure once, and nothing after it, whatever the fetcher would have said.
pub proof fn lemma_failure_is_yielded_once(responses: Seq<FeedResponse>, failed: int)
    requires
        0 <= failed < responses.len(),
        responses[failed] is Err,
        forall|i: int|
            0 <= i < failed ==> (#[trigger] responses[i]) is Ok && feed_cursor(responses[i]) is Some,
    ensures
        feed_items(Some(FIRST_PAGE@), responses).len() == failed + 1,
        forall|i: int|
            0 <= i < failed ==> #[trigger] feed_items(Some(FIRST_PAGE@), responses)[i] == Ok::<
                RtlRewardsActivity,
                EverydayRewardsError,
            >(responses[i]->Ok_0.value.rtl_rewards_activity_feed.list),
        feed_items(Some(FIRST_PAGE@), responses)[failed] == Err::<
            RtlRewardsActivity,
            EverydayRewardsError,
        >(responses[failed]->Err_0),
        feed_state(Some(FIRST_PAGE@), responses) is None,
{
    lemma_feed_runs_to_first_stop(FIRST_PAGE@, responses, failed);
}

} // verus!
