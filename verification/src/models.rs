//! The wire data of the rewards backend, and the mathematical view of each type.

use vstd::prelude::*;

verus! {

/// One entry of the error list that the backend puts in an envelope.
#[derive(Debug)]
pub struct ApiError {
    pub code: String,
    pub message: String,
    pub status: i32,
}

pub struct ApiErrorView {
    pub code: Seq<char>,
    pub message: Seq<char>,
    pub status: i32,
}

impl DeepView for ApiError {
    type V = ApiErrorView;

    open spec fn deep_view(&self) -> ApiErrorView {
        ApiErrorView { code: self.code@, message: self.message@, status: self.status }
    }
}

/// The envelope around every answer of the backend. The payload under `data`
/// is kept as the text that was received, undecoded.
#[derive(Debug)]
pub struct ApiResponse {
    pub data: Option<String>,
    pub errors: Option<Vec<ApiError>>,
}

pub struct ApiResponseView {
    pub data: Option<Seq<char>>,
    pub errors: Option<Seq<ApiErrorView>>,
}

impl DeepView for ApiResponse {
    type V = ApiResponseView;

    open spec fn deep_view(&self) -> ApiResponseView {
        ApiResponseView { data: self.data.deep_view(), errors: self.errors.deep_view() }
    }
}

/// The reference from a feed item to its receipt.
#[derive(Debug)]
pub struct ItemReceipt {
    pub receipt_id: String,
}

pub struct ItemReceiptView {
    pub receipt_id: Seq<char>,
}

impl DeepView for ItemReceipt {
    type V = ItemReceiptView;

    open spec fn deep_view(&self) -> ItemReceiptView {
        ItemReceiptView { receipt_id: self.receipt_id@ }
    }
}

/// One activity of the feed. An item without a receipt has nothing to mirror.
#[derive(Debug)]
pub struct Item {
    pub id: String,
    pub receipt: Option<ItemReceipt>,
}

pub struct ItemView {
    pub id: Seq<char>,
    pub receipt: Option<ItemReceiptView>,
}

impl DeepView for Item {
    type V = ItemView;

    open spec fn deep_view(&self) -> ItemView {
        ItemView { id: self.id@, receipt: self.receipt.deep_view() }
    }
}

/// A group of activities. Its `id` names the directory that holds its receipts.
#[derive(Debug)]
pub struct RewardsActivityFeedGroup {
    pub id: String,
    pub title: String,
    pub items: Option<Vec<Item>>,
}

pub struct RewardsActivityFeedGroupView {
    pub id: Seq<char>,
    pub title: Seq<char>,
    pub items: Option<Seq<ItemView>>,
}

impl DeepView for RewardsActivityFeedGroup {
    type V = RewardsActivityFeedGroupView;

    open spec fn deep_view(&self) -> RewardsActivityFeedGroupView {
        RewardsActivityFeedGroupView {
            id: self.id@,
            title: self.title@,
            items: self.items.deep_view(),
        }
    }
}

/// One page of the feed, with the cursor of the page after it, if there is one.
#[derive(Debug)]
pub struct RtlRewardsActivity {
    pub groups: Vec<RewardsActivityFeedGroup>,
    pub next_page_token: Option<String>,
}

pub struct RtlRewardsActivityView {
    pub groups: Seq<RewardsActivityFeedGroupView>,
    pub next_page_token: Option<Seq<char>>,
}

impl DeepView for RtlRewardsActivity {
    type V = RtlRewardsActivityView;

    open spec fn deep_view(&self) -> RtlRewardsActivityView {
        RtlRewardsActivityView {
            groups: self.groups.deep_view(),
            next_page_token: self.next_page_token.deep_view(),
        }
    }
}

#[derive(Debug)]
pub struct RtlRewardsActivityFeed {
    pub list: RtlRewardsActivity,
}

pub struct RtlRewardsActivityFeedView {
    pub list: RtlRewardsActivityView,
}

impl DeepView for RtlRewardsActivityFeed {
    type V = RtlRewardsActivityFeedView;

    open spec fn deep_view(&self) -> RtlRewardsActivityFeedView {
        RtlRewardsActivityFeedView { list: self.list.deep_view() }
    }
}

/// The payload of a feed page answer.
#[derive(Debug)]
pub struct RewardsActivityFeedResponse {
    pub rtl_rewards_activity_feed: RtlRewardsActivityFeed,
}

pub struct RewardsActivityFeedResponseView {
    pub rtl_rewards_activity_feed: RtlRewardsActivityFeedView,
}

impl DeepView for RewardsActivityFeedResponse {
    type V = RewardsActivityFeedResponseView;

    open spec fn deep_view(&self) -> RewardsActivityFeedResponseView {
        RewardsActivityFeedResponseView {
            rtl_rewards_activity_feed: self.rtl_rewards_activity_feed.deep_view(),
        }
    }
}

/// Where a receipt can be downloaded, and the file name to store it under.
#[derive(Debug)]
pub struct ReceiptDownload {
    pub filename: String,
    pub url: String,
}

pub struct ReceiptDownloadView {
    pub filename: Seq<char>,
    pub url: Seq<char>,
}

impl DeepView for ReceiptDownload {
    type V = ReceiptDownloadView;

    open spec fn deep_view(&self) -> ReceiptDownloadView {
        ReceiptDownloadView { filename: self.filename@, url: self.url@ }
    }
}

#[derive(Debug)]
pub struct ReceiptDetails {
    pub download: ReceiptDownload,
}

pub struct ReceiptDetailsView {
    pub download: ReceiptDownloadView,
}

impl DeepView for ReceiptDetails {
    type V = ReceiptDetailsView;

    open spec fn deep_view(&self) -> ReceiptDetailsView {
        ReceiptDetailsView { download: self.download.deep_view() }
    }
}

/// The payload of a receipt detail answer.
#[derive(Debug)]
pub struct ReceiptDetailsResponse {
    pub receipt_details: ReceiptDetails,
}

pub struct ReceiptDetailsResponseView {
    pub receipt_details: ReceiptDetailsView,
}

impl DeepView for ReceiptDetailsResponse {
    type V = ReceiptDetailsResponseView;

    open spec fn deep_view(&self) -> ReceiptDetailsResponseView {
        ReceiptDetailsResponseView { receipt_details: self.receipt_details.deep_view() }
    }
}

} // verus!
