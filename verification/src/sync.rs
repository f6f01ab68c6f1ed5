//! The synchronisation run: which page to fetch, which directory to make,
//! which receipt to resolve, look for, download and describe, one step at a
//! time. The run performs nothing itself. Its driver carries out the action
//! that the run names and reports back what happened.

use vstd::prelude::*;
use crate::client::{
    ActivityFeedIterator, EverydayRewardsError, EverydayRewardsErrorView, FeedResponse,
    ValueWithSource, ValueWithSourceView, FIRST_PAGE,
};
use crate::models::{
    Item, ItemView, ReceiptDetailsResponse, ReceiptDetailsResponseView, RewardsActivityFeedGroup,
    RewardsActivityFeedGroupView, RewardsActivityFeedResponseView,
};

verus! {

/// The extension of the file that describes a stored receipt. It takes the
/// place of the extension of the receipt's own file name.
pub const SIDECAR_EXTENSION: &'static str = "json";

/// What a resolver hands back for one receipt.
pub type ReceiptResponse = Result<ValueWithSource<ReceiptDetailsResponse>, EverydayRewardsError>;

/// The view of a resolved receipt.
pub type ReceiptView = ValueWithSourceView<ReceiptDetailsResponseView>;

/// The view of a fetched page.
pub type PageView = ValueWithSourceView<RewardsActivityFeedResponseView>;

/// The view of a result, side by side.
pub open spec fn result_view<T: DeepView, E: DeepView>(result: Result<T, E>) -> Result<T::V, E::V> {
    match result {
        Ok(value) => Ok(value.deep_view()),
        Err(error) => Err(error.deep_view()),
    }
}

/// What the driver of a run has to do next.
#[derive(Debug)]
pub enum SyncAction {
    /// Fetch the feed page behind the cursor and report it as `Page`.
    FetchPage { page_token: String },
    /// Make sure that the directory of the group exists and report it as
    /// `GroupDir`.
    CreateGroupDir { group_id: String },
    /// The item has no receipt: nothing to fetch. Report `Skipped`.
    SkipItem { item_id: String },
    /// Resolve the receipt of the item and report it as `Receipt`.
    Resolve { item_id: String, receipt_id: String },
    /// Look for the receipt's file and for its sidecar in the directory of
    /// the group and report which of them exist as `Files`.
    CheckFiles { group_id: String, filename: String },
    /// Download the receipt into its file and report it as `Downloaded`.
    Download { group_id: String, filename: String, url: String },
    /// Write the text that the receipt was resolved from into the sidecar
    /// and report it as `SidecarWritten`.
    WriteSidecar { group_id: String, filename: String, source: String },
    /// The run is over.
    Finish,
}

pub enum SyncActionView {
    FetchPage { page_token: Seq<char> },
    CreateGroupDir { group_id: Seq<char> },
    SkipItem { item_id: Seq<char> },
    Resolve { item_id: Seq<char>, receipt_id: Seq<char> },
    CheckFiles { group_id: Seq<char>, filename: Seq<char> },
    Download { group_id: Seq<char>, filename: Seq<char>, url: Seq<char> },
    WriteSidecar { group_id: Seq<char>, filename: Seq<char>, source: Seq<char> },
    Finish,
}

impl DeepView for SyncAction {
    type V = SyncActionView;

    open spec fn deep_view(&self) -> SyncActionView {
        match self {
            SyncAction::FetchPage { page_token } => SyncActionView::FetchPage {
                page_token: page_token@,
            },
            SyncAction::CreateGroupDir { group_id } => SyncActionView::CreateGroupDir {
                group_id: group_id@,
            },
            SyncAction::SkipItem { item_id } => SyncActionView::SkipItem { item_id: item_id@ },
            SyncAction::Resolve { item_id, receipt_id } => SyncActionView::Resolve {
                item_id: item_id@,
                receipt_id: receipt_id@,
            },
            SyncAction::CheckFiles { group_id, filename } => SyncActionView::CheckFiles {
                group_id: group_id@,
                filename: filename@,
            },
            SyncAction::Download { group_id, filename, url } => SyncActionView::Download {
                group_id: group_id@,
                filename: filename@,
                url: url@,
            },
            SyncAction::WriteSidecar { group_id, filename, source } => SyncActionView::WriteSidecar {
                group_id: group_id@,
                filename: filename@,
                source: source@,
            },
            SyncAction::Finish => SyncActionView::Finish,
        }
    }
}

/// What the driver reports back after it has carried out an action.
#[derive(Debug)]
pub enum SyncEvent {
    /// The fetcher's answer to `FetchPage`.
    Page(FeedResponse),
    /// How `CreateGroupDir` went.
    GroupDir(Result<(), EverydayRewardsError>),
    /// `SkipItem` was taken note of.
    Skipped,
    /// The resolver's answer to `Resolve`.
    Receipt(ReceiptResponse),
    /// What `CheckFiles` found: whether the receipt's file exists, and
    /// whether its sidecar does.
    Files { pdf: bool, json: bool },
    /// How `Download` went.
    Downloaded(Result<(), EverydayRewardsError>),
    /// How `WriteSidecar` went.
    SidecarWritten(Result<(), EverydayRewardsError>),
}

pub enum SyncEventView {
    Page(Result<PageView, EverydayRewardsErrorView>),
    GroupDir(Result<(), EverydayRewardsErrorView>),
    Skipped,
    Receipt(Result<ReceiptView, EverydayRewardsErrorView>),
    Files { pdf: bool, json: bool },
    Downloaded(Result<(), EverydayRewardsErrorView>),
    SidecarWritten(Result<(), EverydayRewardsErrorView>),
}

impl DeepView for SyncEvent {
    type V = SyncEventView;

    open spec fn deep_view(&self) -> SyncEventView {
        match self {
            SyncEvent::Page(response) => SyncEventView::Page(result_view(*response)),
            SyncEvent::GroupDir(made) => SyncEventView::GroupDir(result_view(*made)),
            SyncEvent::Skipped => SyncEventView::Skipped,
            SyncEvent::Receipt(response) => SyncEventView::Receipt(result_view(*response)),
            SyncEvent::Files { pdf, json } => SyncEventView::Files { pdf: *pdf, json: *json },
            SyncEvent::Downloaded(done) => SyncEventView::Downloaded(result_view(*done)),
            SyncEvent::SidecarWritten(done) => SyncEventView::SidecarWritten(result_view(*done)),
        }
    }
}

/// What a run made of an event. A failure that ends only the work on one
/// group or one item is handed back here, for the driver to report.
#[derive(Debug)]
pub enum SyncOutcome {
    /// The event answers no action that the run is waiting for. Nothing
    /// has changed.
    Ignored,
    /// A page has come. Its groups are next.
    PageReceived,
    /// The directory of the group is there. Its items are next.
    GroupEntered,
    /// The directory of the group could not be made. Its items are left out.
    GroupSkipped(EverydayRewardsError),
    /// An item without a receipt was passed over.
    ItemSkipped,
    /// The receipt is resolved. Its files are looked for next.
    ReceiptResolved,
    /// The receipt could not be resolved. The item is left out.
    ReceiptFailed(EverydayRewardsError),
    /// The receipt's file and its sidecar both exist. Nothing is downloaded.
    AlreadyStored,
    /// One of the two files is missing. The receipt is downloaded next.
    DownloadNeeded,
    /// The receipt's file is written. Its sidecar is next.
    Downloaded,
    /// The download failed. No sidecar is written.
    DownloadFailed(EverydayRewardsError),
    /// The sidecar is written: the receipt is stored.
    Stored,
    /// The sidecar could not be written.
    SidecarFailed(EverydayRewardsError),
}

pub enum SyncOutcomeView {
    Ignored,
    PageReceived,
    GroupEntered,
    GroupSkipped(EverydayRewardsErrorView),
    ItemSkipped,
    ReceiptResolved,
    ReceiptFailed(EverydayRewardsErrorView),
    AlreadyStored,
    DownloadNeeded,
    Downloaded,
    DownloadFailed(EverydayRewardsErrorView),
    Stored,
    SidecarFailed(EverydayRewardsErrorView),
}

impl DeepView for SyncOutcome {
    type V = SyncOutcomeView;

    open spec fn deep_view(&self) -> SyncOutcomeView {
        match self {
            SyncOutcome::Ignored => SyncOutcomeView::Ignored,
            SyncOutcome::PageReceived => SyncOutcomeView::PageReceived,
            SyncOutcome::GroupEntered => SyncOutcomeView::GroupEntered,
            SyncOutcome::GroupSkipped(error) => SyncOutcomeView::GroupSkipped(error.deep_view()),
            SyncOutcome::ItemSkipped => SyncOutcomeView::ItemSkipped,
            SyncOutcome::ReceiptResolved => SyncOutcomeView::ReceiptResolved,
            SyncOutcome::ReceiptFailed(error) => SyncOutcomeView::ReceiptFailed(error.deep_view()),
            SyncOutcome::AlreadyStored => SyncOutcomeView::AlreadyStored,
            SyncOutcome::DownloadNeeded => SyncOutcomeView::DownloadNeeded,
            SyncOutcome::Downloaded => SyncOutcomeView::Downloaded,
            SyncOutcome::DownloadFailed(error) => SyncOutcomeView::DownloadFailed(
                error.deep_view(),
            ),
            SyncOutcome::Stored => SyncOutcomeView::Stored,
            SyncOutcome::SidecarFailed(error) => SyncOutcomeView::SidecarFailed(error.deep_view()),
        }
    }
}

/// Where a run stands within the work on one page.
pub enum SyncStage {
    /// Between pages: the next page is to be fetched, if there is one.
    Fetch,
    /// At a group whose directory is to be made.
    Group,
    /// At an item that is to be resolved or passed over.
    Item,
    /// At a resolved receipt whose files are to be looked for.
    Files(ReceiptView),
    /// At a resolved receipt that is to be downloaded.
    Download(ReceiptView),
    /// At a downloaded receipt whose sidecar is to be written.
    Sidecar(ReceiptView),
}

/// The state of a run. `groups` holds the groups of the current page that
/// are not done, the current one first, and `items` the items of the current
/// group that are not done, the current one first.
pub struct SyncState {
    pub cursor: Option<Seq<char>>,
    pub groups: Seq<RewardsActivityFeedGroupView>,
    pub items: Seq<ItemView>,
    pub stage: SyncStage,
}

/// The items of a group: none where the group names none.
pub open spec fn group_items(group: RewardsActivityFeedGroupView) -> Seq<ItemView> {
    match group.items {
        Some(items) => items,
        None => Seq::empty(),
    }
}

impl SyncState {
    /// A state names a current group wherever it is not between pages, and a
    /// current item from the stage `Item` on.
    pub open spec fn wf(self) -> bool {
        match self.stage {
            SyncStage::Fetch => self.groups.len() == 0 && self.items.len() == 0,
            SyncStage::Group => self.groups.len() > 0 && self.items.len() == 0,
            _ => self.groups.len() > 0 && self.items.len() > 0,
        }
    }

    /// The state of a run that has not begun.
    pub open spec fn start(cursor: Option<Seq<char>>) -> SyncState {
        SyncState::at_groups(cursor, Seq::empty())
    }

    /// The state at the first of `groups`, or between pages where there is
    /// no group.
    pub open spec fn at_groups(
        cursor: Option<Seq<char>>,
        groups: Seq<RewardsActivityFeedGroupView>,
    ) -> SyncState {
        SyncState {
            cursor,
            groups,
            items: Seq::empty(),
            stage: if groups.len() > 0 {
                SyncStage::Group
            } else {
                SyncStage::Fetch
            },
        }
    }

    /// The state at the first of `items` in the current group, or at the
    /// group after it where there is no item.
    pub open spec fn at_items(self, items: Seq<ItemView>) -> SyncState {
        if items.len() > 0 {
            SyncState { items, stage: SyncStage::Item, ..self }
        } else {
            SyncState::at_groups(self.cursor, self.groups.drop_first())
        }
    }

    /// The state after the current group has been left.
    pub open spec fn after_group(self) -> SyncState {
        SyncState::at_groups(self.cursor, self.groups.drop_first())
    }

    /// The state after the current item has been left.
    pub open spec fn after_item(self) -> SyncState {
        self.at_items(self.items.drop_first())
    }

    /// The state at another stage of the work on the current item.
    pub open spec fn at_stage(self, stage: SyncStage) -> SyncState {
        SyncState { stage, ..self }
    }

    /// What the driver has to do in this state.
    pub open spec fn action(self) -> SyncActionView {
        match self.stage {
            SyncStage::Fetch => match self.cursor {
                Some(page_token) => SyncActionView::FetchPage { page_token },
                None => SyncActionView::Finish,
            },
            SyncStage::Group => SyncActionView::CreateGroupDir { group_id: self.groups[0].id },
            SyncStage::Item => match self.items[0].receipt {
                Some(receipt) => SyncActionView::Resolve {
                    item_id: self.items[0].id,
                    receipt_id: receipt.receipt_id,
                },
                None => SyncActionView::SkipItem { item_id: self.items[0].id },
            },
            SyncStage::Files(receipt) => SyncActionView::CheckFiles {
                group_id: self.groups[0].id,
                filename: receipt.value.receipt_details.download.filename,
            },
            SyncStage::Download(receipt) => SyncActionView::Download {
                group_id: self.groups[0].id,
                filename: receipt.value.receipt_details.download.filename,
                url: receipt.value.receipt_details.download.url,
            },
            SyncStage::Sidecar(receipt) => SyncActionView::WriteSidecar {
                group_id: self.groups[0].id,
                filename: receipt.value.receipt_details.download.filename,
                source: receipt.source,
            },
        }
    }

    /// The state after `event`, and what the run hands back for it. Only a
    /// failed page fetch is an error of the run: it leaves no cursor. An
    /// event that does not answer the action of the state changes nothing.
    pub open spec fn step(self, event: SyncEventView) -> (
        SyncState,
        Result<SyncOutcomeView, EverydayRewardsErrorView>,
    ) {
        match (self.stage, event) {
            (SyncStage::Fetch, SyncEventView::Page(response)) => if self.cursor is None {
                (self, Ok(SyncOutcomeView::Ignored))
            } else {
                match response {
                    Ok(page) => (
                        SyncState::at_groups(
                            page.value.rtl_rewards_activity_feed.list.next_page_token,
                            page.value.rtl_rewards_activity_feed.list.groups,
                        ),
                        Ok(SyncOutcomeView::PageReceived),
                    ),
                    Err(error) => (SyncState::start(None), Err(error)),
                }
            },
            (SyncStage::Group, SyncEventView::GroupDir(made)) => match made {
                Ok(_) => (self.at_items(group_items(self.groups[0])), Ok(
                    SyncOutcomeView::GroupEntered,
                )),
                Err(error) => (self.after_group(), Ok(SyncOutcomeView::GroupSkipped(error))),
            },
            (SyncStage::Item, SyncEventView::Skipped) => if self.items[0].receipt is None {
                (self.after_item(), Ok(SyncOutcomeView::ItemSkipped))
            } else {
                (self, Ok(SyncOutcomeView::Ignored))
            },
            (SyncStage::Item, SyncEventView::Receipt(response)) => if self.items[0].receipt
                is None {
                (self, Ok(SyncOutcomeView::Ignored))
            } else {
                match response {
                    Ok(receipt) => (self.at_stage(SyncStage::Files(receipt)), Ok(
                        SyncOutcomeView::ReceiptResolved,
                    )),
                    Err(error) => (self.after_item(), Ok(SyncOutcomeView::ReceiptFailed(error))),
                }
            },
            (SyncStage::Files(receipt), SyncEventView::Files { pdf, json }) => if pdf && json {
                (self.after_item(), Ok(SyncOutcomeView::AlreadyStored))
            } else {
                (self.at_stage(SyncStage::Download(receipt)), Ok(SyncOutcomeView::DownloadNeeded))
            },
            (SyncStage::Download(receipt), SyncEventView::Downloaded(done)) => match done {
                Ok(_) => (self.at_stage(SyncStage::Sidecar(receipt)), Ok(
                    SyncOutcomeView::Downloaded,
                )),
                Err(error) => (self.after_item(), Ok(SyncOutcomeView::DownloadFailed(error))),
            },
            (SyncStage::Sidecar(_), SyncEventView::SidecarWritten(done)) => match done {
                Ok(_) => (self.after_item(), Ok(SyncOutcomeView::Stored)),
                Err(error) => (self.after_item(), Ok(SyncOutcomeView::SidecarFailed(error))),
            },
            _ => (self, Ok(SyncOutcomeView::Ignored)),
        }
    }
}

impl SyncState {
    /// The state after the driver has reported `events` in turn.
    pub open spec fn run(self, events: Seq<SyncEventView>) -> SyncState
        decreases events.len(),
    {
        if events.len() == 0 {
            self
        } else {
            self.step(events[0]).0.run(events.drop_first())
        }
    }

    /// Whether the state asks for a receipt to be downloaded or for a
    /// sidecar to be written.
    pub open spec fn writes(self) -> bool {
        self.action() is Download || self.action() is WriteSidecar
    }
}

/// Whether an event reports that a file of a receipt is missing.
pub open spec fn reports_missing_file(event: SyncEventView) -> bool {
    event matches SyncEventView::Files { pdf, json } && !(pdf && json)
}

/// A step leads from a well-formed state to a well-formed state.
pub proof fn lemma_step_keeps_wf(state: SyncState, event: SyncEventView)
    requires
        state.wf(),
    ensures
        state.step(event).0.wf(),
{
}

/// A run leads from a well-formed state to a well-formed state.
pub proof fn lemma_run_keeps_wf(state: SyncState, events: Seq<SyncEventView>)
    requires
        state.wf(),
    ensures
        state.run(events).wf(),
    decreases events.len(),
{
    if events.len() > 0 {
        lemma_step_keeps_wf(state, events[0]);
        lemma_run_keeps_wf(state.step(events[0]).0, events.drop_first());
    }
}

/// The state asks for a download only right after a report that one of the
/// two files of the receipt is missing, and for a sidecar only right after
/// the download of the same receipt has succeeded.
pub proof fn lemma_writes_follow_a_missing_file(state: SyncState, event: SyncEventView)
    requires
        state.wf(),
    ensures
        state.step(event).0.stage is Download && !(state.stage is Download) ==> ({
            &&& state.stage is Files
            &&& reports_missing_file(event)
            &&& state.step(event).0.stage == SyncStage::Download(state.stage->Files_0)
        }),
        state.step(event).0.stage is Sidecar && !(state.stage is Sidecar) ==> ({
            &&& state.stage is Download
            &&& event is Downloaded
            &&& event->Downloaded_0 is Ok
            &&& state.step(event).0.stage == SyncStage::Sidecar(state.stage->Download_0)
        }),
{
}

/// Where every look at the files finds the receipt's file and its sidecar,
/// a run that starts outside a download asks for no download and writes no
/// sidecar: receipts that are stored are not fetched again.
pub proof fn lemma_stored_receipts_are_not_downloaded(
    state: SyncState,
    events: Seq<SyncEventView>,
    n: int,
)
    requires
        state.wf(),
        !state.writes(),
        forall|i: int| 0 <= i < events.len() ==> !reports_missing_file(#[trigger] events[i]),
        0 <= n <= events.len(),
    ensures
        !state.run(events.take(n)).writes(),
    decreases n,
{
    if n > 0 {
        let first = state.step(events[0]).0;
        let rest = events.drop_first();
        lemma_step_keeps_wf(state, events[0]);
        lemma_writes_follow_a_missing_file(state, events[0]);
        assert forall|i: int| 0 <= i < rest.len() implies !reports_missing_file(
            #[trigger] rest[i],
        ) by {
            assert(rest[i] == events[i + 1]);
        }
        lemma_stored_receipts_are_not_downloaded(first, rest, n - 1);
        assert(events.take(n).drop_first() =~= rest.take(n - 1));
    } else {
        assert(events.take(0) =~= Seq::empty());
    }
}

/// Where one of the two files of a resolved receipt is missing, the run has
/// the receipt downloaded again and, once that has succeeded, has the
/// sidecar written again, both for the receipt that was resolved.
pub proof fn lemma_incomplete_pair_is_written_again(
    state: SyncState,
    receipt: ReceiptView,
    pdf: bool,
    json: bool,
)
    requires
        state.wf(),
        state.stage == SyncStage::Files(receipt),
        !(pdf && json),
    ensures
        ({
            let looked = state.step(SyncEventView::Files { pdf, json });
            let loaded = looked.0.step(SyncEventView::Downloaded(Ok(())));
            &&& looked.1 == Ok::<SyncOutcomeView, EverydayRewardsErrorView>(
                SyncOutcomeView::DownloadNeeded,
            )
            &&& looked.0.action() == (SyncActionView::Download {
                group_id: state.groups[0].id,
                filename: receipt.value.receipt_details.download.filename,
                url: receipt.value.receipt_details.download.url,
            })
            &&& loaded.1 == Ok::<SyncOutcomeView, EverydayRewardsErrorView>(
                SyncOutcomeView::Downloaded,
            )
            &&& loaded.0.action() == (SyncActionView::WriteSidecar {
                group_id: state.groups[0].id,
                filename: receipt.value.receipt_details.download.filename,
                source: receipt.source,
            })
        }),
{
}

/// Where both files of a resolved receipt exist, the run leaves the item
/// without a download.
pub proof fn lemma_complete_pair_is_left_alone(state: SyncState)
    requires
        state.wf(),
        state.stage is Files,
    ensures
        state.step(SyncEventView::Files { pdf: true, json: true }) == (
            state.after_item(),
            Ok::<SyncOutcomeView, EverydayRewardsErrorView>(SyncOutcomeView::AlreadyStored),
        ),
        !state.after_item().writes(),
{
}

/// A download that fails leaves the item without a sidecar being written,
/// and the failure is handed back.
pub proof fn lemma_failed_download_writes_no_sidecar(
    state: SyncState,
    error: EverydayRewardsErrorView,
)
    requires
        state.wf(),
        state.stage is Download,
    ensures
        state.step(SyncEventView::Downloaded(Err(error))) == (
            state.after_item(),
            Ok::<SyncOutcomeView, EverydayRewardsErrorView>(SyncOutcomeView::DownloadFailed(error)),
        ),
        !state.after_item().writes(),
{
}

/// Leaving an item loses no work: the run stands at the item after it, with
/// the same groups; or, after the last item of a group, at the group after
/// it; or, after the last group of the page, between pages.
pub proof fn lemma_after_item_keeps_the_rest(state: SyncState)
    requires
        state.wf(),
        state.items.len() > 0,
    ensures
        state.after_item().wf(),
        state.after_item().cursor == state.cursor,
        state.items.len() > 1 ==> state.after_item() == (SyncState {
            items: state.items.drop_first(),
            stage: SyncStage::Item,
            ..state
        }),
        state.items.len() == 1 && state.groups.len() > 1 ==> state.after_item() == (SyncState {
            groups: state.groups.drop_first(),
            items: Seq::empty(),
            stage: SyncStage::Group,
            ..state
        }),
        state.items.len() == 1 && state.groups.len() == 1 ==> state.after_item()
            == SyncState::start(state.cursor),
{
    if state.items.len() == 1 {
        assert(state.items.drop_first() =~= Seq::empty());
        if state.groups.len() == 1 {
            assert(state.groups.drop_first() =~= Seq::empty());
        }
    }
}

/// An item without a receipt has nothing resolved and nothing downloaded:
/// the run asks only that the item be passed over, takes no other report
/// for it, and goes on behind it.
pub proof fn lemma_item_without_receipt_is_passed_over(state: SyncState, event: SyncEventView)
    requires
        state.wf(),
        state.stage is Item,
        state.items[0].receipt is None,
    ensures
        state.action() == (SyncActionView::SkipItem { item_id: state.items[0].id }),
        event is Skipped ==> state.step(event) == (
            state.after_item(),
            Ok::<SyncOutcomeView, EverydayRewardsErrorView>(SyncOutcomeView::ItemSkipped),
        ),
        !(event is Skipped) ==> state.step(event) == (
            state,
            Ok::<SyncOutcomeView, EverydayRewardsErrorView>(SyncOutcomeView::Ignored),
        ),
        !state.step(event).0.writes(),
        !(state.step(event).0.stage is Files),
{
}

/// A receipt that cannot be resolved is handed back as the failure of its
/// item alone: the run reports it and goes on behind the item.
pub proof fn lemma_failed_receipt_is_reported_and_passed(
    state: SyncState,
    error: EverydayRewardsErrorView,
)
    requires
        state.wf(),
        state.stage is Item,
        state.items[0].receipt is Some,
    ensures
        state.step(SyncEventView::Receipt(Err(error))) == (
            state.after_item(),
            Ok::<SyncOutcomeView, EverydayRewardsErrorView>(SyncOutcomeView::ReceiptFailed(error)),
        ),
{
}

/// A group whose directory cannot be made is left out with all its items,
/// and the run goes on at the group after it.
pub proof fn lemma_failed_group_is_reported_and_passed(
    state: SyncState,
    error: EverydayRewardsErrorView,
)
    requires
        state.wf(),
        state.stage is Group,
    ensures
        state.step(SyncEventView::GroupDir(Err(error))) == (
            state.after_group(),
            Ok::<SyncOutcomeView, EverydayRewardsErrorView>(SyncOutcomeView::GroupSkipped(error)),
        ),
        state.after_group() == SyncState::at_groups(state.cursor, state.groups.drop_first()),
{
}

/// A page that cannot be fetched ends the run: the failure is the run's
/// error, and after it the run asks for nothing and takes no report.
pub proof fn lemma_failed_page_ends_the_run(
    state: SyncState,
    error: EverydayRewardsErrorView,
    later: SyncEventView,
)
    requires
        state.wf(),
        state.stage is Fetch,
        state.cursor is Some,
    ensures
        state.step(SyncEventView::Page(Err(error))) == (
            SyncState::start(None),
            Err::<SyncOutcomeView, EverydayRewardsErrorView>(error),
        ),
        SyncState::start(None).action() == SyncActionView::Finish,
        SyncState::start(None).step(later) == (
            SyncState::start(None),
            Ok::<SyncOutcomeView, EverydayRewardsErrorView>(SyncOutcomeView::Ignored),
        ),
{
}

/// Where the run stands, without what it holds there.
#[derive(Debug, Clone, Copy)]
enum Step {
    Fetch,
    Group,
    Item,
    Files,
    Download,
    Sidecar,
}

/// The place of a run within the page that it works on: the groups of the
/// page, the group and the item that the run stands at, and the receipt that
/// it holds there.
#[derive(Debug)]
struct Place {
    groups: Vec<RewardsActivityFeedGroup>,
    group: usize,
    item: usize,
    step: Step,
    receipt: Option<ValueWithSource<ReceiptDetailsResponse>>,
}

impl Place {
    /// The place is at a group and an item that exist, and holds the receipt
    /// that the run is working on.
    #[verifier::type_invariant]
    spec fn wf(&self) -> bool {
        match self.step {
            Step::Fetch => true,
            Step::Group => self.group < self.groups.len(),
            Step::Item => self.at_item(),
            _ => self.at_item() && self.receipt is Some,
        }
    }

    spec fn at_item(&self) -> bool {
        &&& self.group < self.groups.len()
        &&& self.item < group_items(self.groups.deep_view()[self.group as int]).len()
    }

    /// The state of a run that stands at this place and has `cursor` left.
    spec fn state(&self, cursor: Option<Seq<char>>) -> SyncState {
        SyncState {
            cursor,
            groups: match self.step {
                Step::Fetch => Seq::empty(),
                _ => self.groups.deep_view().skip(self.group as int),
            },
            items: match self.step {
                Step::Fetch | Step::Group => Seq::empty(),
                _ => group_items(self.groups.deep_view()[self.group as int]).skip(self.item as int),
            },
            stage: match self.step {
                Step::Fetch => SyncStage::Fetch,
                Step::Group => SyncStage::Group,
                Step::Item => SyncStage::Item,
                Step::Files => SyncStage::Files(self.receipt->0.deep_view()),
                Step::Download => SyncStage::Download(self.receipt->0.deep_view()),
                Step::Sidecar => SyncStage::Sidecar(self.receipt->0.deep_view()),
            },
        }
    }

    fn between_pages() -> (place: Place)
        ensures
            forall|cursor: Option<Seq<char>>| #[trigger] place.state(cursor) == SyncState::start(cursor),
    {
        Place { groups: Vec::new(), group: 0, item: 0, step: Step::Fetch, receipt: None }
    }

    fn enter_page(&mut self, groups: Vec<RewardsActivityFeedGroup>)
        requires
            old(self).step is Fetch,
        ensures
            forall|cursor: Option<Seq<char>>| #[trigger]
                final(self).state(cursor) == SyncState::at_groups(cursor, groups.deep_view()),
    {
        assert(groups.deep_view().skip(0) =~= groups.deep_view());
        self.groups = groups;
        self.group = 0;
        self.item = 0;
        if self.groups.len() > 0 {
            self.step = Step::Group;
        }
        assert forall|cursor: Option<Seq<char>>| #[trigger]
            self.state(cursor) == SyncState::at_groups(cursor, groups.deep_view()) by {
            assert(self.state(cursor).groups =~= groups.deep_view());
        }
    }

    fn current_group(&self) -> (group: &RewardsActivityFeedGroup)
        requires
            !(self.step is Fetch),
        ensures
            forall|cursor: Option<Seq<char>>|
                group.deep_view() == (#[trigger] self.state(cursor)).groups[0],
    {
        proof {
            use_type_invariant(self);
        }
        &self.groups[self.group]
    }

    fn current_item(&self) -> (item: &Item)
        requires
            !(self.step is Fetch),
            !(self.step is Group),
        ensures
            forall|cursor: Option<Seq<char>>|
                item.deep_view() == (#[trigger] self.state(cursor)).items[0],
    {
        proof {
            use_type_invariant(self);
        }
        let items = self.groups[self.group].items.as_ref().unwrap();
        &items[self.item]
    }

    fn current_receipt(&self) -> (receipt: &ValueWithSource<ReceiptDetailsResponse>)
        requires
            self.step is Files || self.step is Download || self.step is Sidecar,
        ensures
            Some(*receipt) == self.receipt,
    {
        proof {
            use_type_invariant(self);
        }
        self.receipt.as_ref().unwrap()
    }

    fn leave_group(&mut self)
        requires
            !(old(self).step is Fetch),
        ensures
            forall|cursor: Option<Seq<char>>| #[trigger]
                final(self).state(cursor) == old(self).state(cursor).after_group(),
    {
        proof {
            use_type_invariant(&*self);
        }
        let ghost groups = self.groups.deep_view();
        let ghost rest = groups.skip(self.group + 1);
        assert(groups.skip(self.group as int).drop_first() =~= rest);
        // Step back between pages first: no assignment may leave the place
        // at a group or an item that is not there.
        self.step = Step::Fetch;
        self.receipt = None;
        if self.group + 1 < self.groups.len() {
            self.group = self.group + 1;
            self.item = 0;
            self.step = Step::Group;
        } else {
            assert(rest =~= Seq::empty());
        }
        assert forall|cursor: Option<Seq<char>>| #[trigger]
            self.state(cursor) == old(self).state(cursor).after_group() by {
            assert(self.state(cursor).groups =~= old(self).state(cursor).after_group().groups);
            assert(self.state(cursor).items =~= old(self).state(cursor).after_group().items);
        }
    }

    fn enter_group(&mut self)
        requires
            old(self).step is Group,
        ensures
            forall|cursor: Option<Seq<char>>| #[trigger]
                final(self).state(cursor) == old(self).state(cursor).at_items(
                    group_items(old(self).state(cursor).groups[0]),
                ),
    {
        proof {
            use_type_invariant(&*self);
        }
        let count = match &self.groups[self.group].items {
            Some(items) => items.len(),
            None => 0,
        };
        if count > 0 {
            let ghost items = group_items(self.groups.deep_view()[self.group as int]);
            assert(items.skip(0) =~= items);
            self.item = 0;
            self.step = Step::Item;
        } else {
            self.leave_group();
        }
    }

    fn leave_item(&mut self)
        requires
            !(old(self).step is Fetch),
            !(old(self).step is Group),
        ensures
            forall|cursor: Option<Seq<char>>| #[trigger]
                final(self).state(cursor) == old(self).state(cursor).after_item(),
    {
        proof {
            use_type_invariant(&*self);
        }
        let count = match &self.groups[self.group].items {
            Some(items) => items.len(),
            None => 0,
        };
        let ghost items = group_items(self.groups.deep_view()[self.group as int]);
        assert(items.skip(self.item as int).drop_first() =~= items.skip(self.item + 1));
        if self.item + 1 < count {
            // Step back to the group while the receipt is let go of.
            self.step = Step::Group;
            self.receipt = None;
            self.item = self.item + 1;
            self.step = Step::Item;
        } else {
            self.leave_group();
        }
    }

    fn hold(&mut self, receipt: ValueWithSource<ReceiptDetailsResponse>)
        requires
            old(self).step is Item,
        ensures
            forall|cursor: Option<Seq<char>>| #[trigger]
                final(self).state(cursor) == old(self).state(cursor).at_stage(
                    SyncStage::Files(receipt.deep_view()),
                ),
    {
        proof {
            use_type_invariant(&*self);
        }
        self.receipt = Some(receipt);
        self.step = Step::Files;
    }

    fn start_download(&mut self)
        requires
            old(self).step is Files,
        ensures
            forall|cursor: Option<Seq<char>>| #[trigger]
                final(self).state(cursor) == old(self).state(cursor).at_stage(
                    SyncStage::Download(old(self).state(cursor).stage->Files_0),
                ),
    {
        proof {
            use_type_invariant(&*self);
        }
        self.step = Step::Download;
    }

    fn start_sidecar(&mut self)
        requires
            old(self).step is Download,
        ensures
            forall|cursor: Option<Seq<char>>| #[trigger]
                final(self).state(cursor) == old(self).state(cursor).at_stage(
                    SyncStage::Sidecar(old(self).state(cursor).stage->Download_0),
                ),
    {
        proof {
            use_type_invariant(&*self);
        }
        self.step = Step::Sidecar;
    }

}

/// A synchronisation run over the whole activity feed. The driver asks for
/// the `action` to carry out, carries it out, and lets the run `handle` what
/// came of it, until the action is `Finish`.
#[derive(Debug)]
pub struct SyncOrchestrator {
    feed: ActivityFeedIterator,
    place: Place,
}

impl View for SyncOrchestrator {
    type V = SyncState;

    closed spec fn view(&self) -> SyncState {
        self.place.state(self.feed@)
    }
}

impl SyncOrchestrator {
    /// A run that has not begun: the first page is to be fetched.
    pub fn create() -> (run: SyncOrchestrator)
        ensures
            run@ == SyncState::start(Some(FIRST_PAGE@)),
    {
        SyncOrchestrator { feed: ActivityFeedIterator::create(), place: Place::between_pages() }
    }

    /// What the driver has to do next.
    pub fn action(&self) -> (action: SyncAction)
        ensures
            self@.wf(),
            action.deep_view() == self@.action(),
    {
        proof {
            use_type_invariant(&self.place);
        }
        let ghost state = self.place.state(self.feed@);
        match self.place.step {
            Step::Fetch => match self.feed.page_token() {
                Some(page_token) => SyncAction::FetchPage { page_token: page_token.clone() },
                None => SyncAction::Finish,
            },
            Step::Group => SyncAction::CreateGroupDir {
                group_id: self.place.current_group().id.clone(),
            },
            Step::Item => {
                let item = self.place.current_item();
                match &item.receipt {
                    Some(receipt) => SyncAction::Resolve {
                        item_id: item.id.clone(),
                        receipt_id: receipt.receipt_id.clone(),
                    },
                    None => SyncAction::SkipItem { item_id: item.id.clone() },
                }
            },
            Step::Files => SyncAction::CheckFiles {
                group_id: self.place.current_group().id.clone(),
                filename: self.place.current_receipt().value.receipt_details.download.filename.clone(),
            },
            Step::Download => {
                let download = &self.place.current_receipt().value.receipt_details.download;
                SyncAction::Download {
                    group_id: self.place.current_group().id.clone(),
                    filename: download.filename.clone(),
                    url: download.url.clone(),
                }
            },
            Step::Sidecar => {
                let receipt = self.place.current_receipt();
                SyncAction::WriteSidecar {
                    group_id: self.place.current_group().id.clone(),
                    filename: receipt.value.receipt_details.download.filename.clone(),
                    source: receipt.source.clone(),
                }
            },
        }
    }

    /// Takes what the driver reports and moves the run on. A failed page
    /// fetch is the one error: it ends the run. A failure on a group or on
    /// an item is handed back in the outcome and the run goes on behind it.
    pub fn handle(&mut self, event: SyncEvent) -> (result: Result<
        SyncOutcome,
        EverydayRewardsError,
    >)
        ensures
            old(self)@.wf(),
            final(self)@.wf(),
            (final(self)@, result_view(result)) == old(self)@.step(event.deep_view()),
    {
        proof {
            use_type_invariant(&self.place);
        }
        let ghost before = self.place.state(self.feed@);
        let ghost after = self@.step(event.deep_view());
        let result = match event {
            SyncEvent::Page(response) => match self.place.step {
                Step::Fetch => match self.feed.next(response) {
                    None => Ok(SyncOutcome::Ignored),
                    Some(Err(error)) => Err(error),
                    Some(Ok(list)) => {
                        self.place.enter_page(list.groups);
                        Ok(SyncOutcome::PageReceived)
                    },
                },
                _ => Ok(SyncOutcome::Ignored),
            },
            SyncEvent::GroupDir(made) => match self.place.step {
                Step::Group => match made {
                    Ok(_) => {
                        self.place.enter_group();
                        Ok(SyncOutcome::GroupEntered)
                    },
                    Err(error) => {
                        self.place.leave_group();
                        Ok(SyncOutcome::GroupSkipped(error))
                    },
                },
                _ => Ok(SyncOutcome::Ignored),
            },
            SyncEvent::Skipped => match self.place.step {
                Step::Item => if self.place.current_item().receipt.is_none() {
                    self.place.leave_item();
                    Ok(SyncOutcome::ItemSkipped)
                } else {
                    Ok(SyncOutcome::Ignored)
                },
                _ => Ok(SyncOutcome::Ignored),
            },
            SyncEvent::Receipt(response) => match self.place.step {
                Step::Item => if self.place.current_item().receipt.is_none() {
                    Ok(SyncOutcome::Ignored)
                } else {
                    match response {
                        Ok(receipt) => {
                            self.place.hold(receipt);
                            Ok(SyncOutcome::ReceiptResolved)
                        },
                        Err(error) => {
                            self.place.leave_item();
                            Ok(SyncOutcome::ReceiptFailed(error))
                        },
                    }
                },
                _ => Ok(SyncOutcome::Ignored),
            },
            SyncEvent::Files { pdf, json } => match self.place.step {
                Step::Files => if pdf && json {
                    self.place.leave_item();
                    Ok(SyncOutcome::AlreadyStored)
                } else {
                    self.place.start_download();
                    Ok(SyncOutcome::DownloadNeeded)
                },
                _ => Ok(SyncOutcome::Ignored),
            },
            SyncEvent::Downloaded(done) => match self.place.step {
                Step::Download => match done {
                    Ok(_) => {
                        self.place.start_sidecar();
                        Ok(SyncOutcome::Downloaded)
                    },
                    Err(error) => {
                        self.place.leave_item();
                        Ok(SyncOutcome::DownloadFailed(error))
                    },
                },
                _ => Ok(SyncOutcome::Ignored),
            },
            SyncEvent::SidecarWritten(done) => match self.place.step {
                Step::Sidecar => {
                    self.place.leave_item();
                    match done {
                        Ok(_) => Ok(SyncOutcome::Stored),
                        Err(error) => Ok(SyncOutcome::SidecarFailed(error)),
                    }
                },
                _ => Ok(SyncOutcome::Ignored),
            },
        };
        proof {
            use_type_invariant(&self.place);
            assert(self@.groups =~= after.0.groups);
            assert(self@.items =~= after.0.items);
        }
        result
    }
}

} // verus!
