//! A run against a backend and a store of files, as a model: what becomes
//! of the run and of the store when a driver answers every action of the run
//! from the backend. The model serves to state what holds of whole runs:
//! that a mirror which is complete is not fetched again, and that no failure
//! on one group or on one receipt keeps the run from the receipts behind it.

use vstd::prelude::*;
use crate::client::{EverydayRewardsErrorView, FIRST_PAGE};
use crate::models::{ItemView, RewardsActivityFeedGroupView};
use crate::sync::{
    group_items, lemma_after_item_keeps_the_rest, lemma_step_keeps_wf, PageView, ReceiptView,
    SyncActionView, SyncEventView, SyncState,
};

verus! {

/// One file of the mirror: the file of a receipt, or the sidecar that goes
/// with it, in the directory of a group. Two files are the same where group,
/// file name and kind are the same.
pub struct StoredFile {
    pub group_id: Seq<char>,
    pub filename: Seq<char>,
    pub sidecar: bool,
}

/// What a run is answered with: the page behind each cursor, the details of
/// each receipt, whether the directory of each group can be made, whether
/// the receipt behind each address can be downloaded, and whether each
/// sidecar can be written.
pub struct Backend {
    pub pages: spec_fn(Seq<char>) -> Result<PageView, EverydayRewardsErrorView>,
    pub receipts: spec_fn(Seq<char>) -> Result<ReceiptView, EverydayRewardsErrorView>,
    pub directories: spec_fn(Seq<char>) -> Result<(), EverydayRewardsErrorView>,
    pub downloads: spec_fn(Seq<char>) -> Result<(), EverydayRewardsErrorView>,
    pub sidecars: spec_fn(StoredFile) -> Result<(), EverydayRewardsErrorView>,
}

impl Backend {
    /// Every download and every sidecar succeeds.
    pub open spec fn writes_succeed(self) -> bool {
        &&& forall|url: Seq<char>| #[trigger] (self.downloads)(url) is Ok
        &&& forall|file: StoredFile| #[trigger] (self.sidecars)(file) is Ok
    }
}

/// The report of a driver that has carried out `action` against `backend`
/// with `files` in the store.
pub open spec fn answer(
    backend: Backend,
    files: Set<StoredFile>,
    action: SyncActionView,
) -> SyncEventView {
    match action {
        SyncActionView::FetchPage { page_token } => SyncEventView::Page(
            (backend.pages)(page_token),
        ),
        SyncActionView::CreateGroupDir { group_id } => SyncEventView::GroupDir(
            (backend.directories)(group_id),
        ),
        SyncActionView::SkipItem { item_id } => SyncEventView::Skipped,
        SyncActionView::Resolve { item_id, receipt_id } => SyncEventView::Receipt(
            (backend.receipts)(receipt_id),
        ),
        SyncActionView::CheckFiles { group_id, filename } => SyncEventView::Files {
            pdf: files.contains(StoredFile { group_id, filename, sidecar: false }),
            json: files.contains(StoredFile { group_id, filename, sidecar: true }),
        },
        SyncActionView::Download { group_id, filename, url } => SyncEventView::Downloaded(
            (backend.downloads)(url),
        ),
        SyncActionView::WriteSidecar { group_id, filename, source } => SyncEventView::SidecarWritten(
            (backend.sidecars)(StoredFile { group_id, filename, sidecar: true }),
        ),
        SyncActionView::Finish => SyncEventView::Skipped,
    }
}

/// The store after a driver has carried out `action`: a download that
/// succeeds adds the file of the receipt, a sidecar that succeeds adds the
/// sidecar, nothing else adds or removes a file.
pub open spec fn stored(
    backend: Backend,
    files: Set<StoredFile>,
    action: SyncActionView,
) -> Set<StoredFile> {
    match action {
        SyncActionView::Download { group_id, filename, url } => if (backend.downloads)(url) is Ok {
            files.insert(StoredFile { group_id, filename, sidecar: false })
        } else {
            files
        },
        SyncActionView::WriteSidecar { group_id, filename, source } => if (backend.sidecars)(
            StoredFile { group_id, filename, sidecar: true },
        ) is Ok {
            files.insert(StoredFile { group_id, filename, sidecar: true })
        } else {
            files
        },
        _ => files,
    }
}

/// The state of a run after the driver has carried out its action.
pub open spec fn next_state(backend: Backend, state: SyncState, files: Set<StoredFile>) -> SyncState {
    state.step(answer(backend, files, state.action())).0
}

/// Whether an action moves a receipt or a sidecar into the store.
pub open spec fn is_transfer(action: SyncActionView) -> bool {
    action is Download || action is WriteSidecar
}

/// The state of a run and the store after the driver has carried out up to
/// `steps` actions, or fewer where the run has finished before.
pub open spec fn drive(backend: Backend, state: SyncState, files: Set<StoredFile>, steps: nat) -> (
    SyncState,
    Set<StoredFile>,
)
    decreases steps,
{
    if steps == 0 || state.action() is Finish {
        (state, files)
    } else {
        drive(
            backend,
            next_state(backend, state, files),
            stored(backend, files, state.action()),
            (steps - 1) as nat,
        )
    }
}

/// How many of the first `steps` actions of a run are downloads or sidecars.
pub open spec fn transfers(
    backend: Backend,
    state: SyncState,
    files: Set<StoredFile>,
    steps: nat,
) -> nat
    decreases steps,
{
    if steps == 0 || state.action() is Finish {
        0
    } else {
        (if is_transfer(state.action()) {
            1nat
        } else {
            0nat
        }) + transfers(
            backend,
            next_state(backend, state, files),
            stored(backend, files, state.action()),
            (steps - 1) as nat,
        )
    }
}

/// Whether the run stands between two receipts: it holds no receipt that it
/// has resolved and not yet dealt with.
pub open spec fn between_receipts(state: SyncState) -> bool {
    state.stage is Fetch || state.stage is Group || state.stage is Item
}

/// The file of `receipt`, or its sidecar, in the directory of the group that
/// the run stands at.
pub open spec fn receipt_file(state: SyncState, receipt: ReceiptView, sidecar: bool) -> StoredFile {
    StoredFile {
        group_id: state.groups[0].id,
        filename: receipt.value.receipt_details.download.filename,
        sidecar,
    }
}

/// A run removes no file from the store.
pub proof fn lemma_files_stay(
    backend: Backend,
    state: SyncState,
    files: Set<StoredFile>,
    steps: nat,
)
    ensures
        files.subset_of(drive(backend, state, files, steps).1),
    decreases steps,
{
    if steps == 0 || state.action() is Finish {
    } else {
        lemma_files_stay(
            backend,
            next_state(backend, state, files),
            stored(backend, files, state.action()),
            (steps - 1) as nat,
        );
    }
}

/// A receipt of which a file is missing is downloaded and described anew,
/// where the writes succeed: the driver downloads it once and writes its
/// sidecar once, both files are in the store afterwards, and the run stands
/// behind the item.
pub proof fn lemma_incomplete_pair_is_restored(
    backend: Backend,
    state: SyncState,
    files: Set<StoredFile>,
    receipt: ReceiptView,
)
    requires
        backend.writes_succeed(),
        state.wf(),
        state.stage is Item,
        state.items[0].receipt is Some,
        (backend.receipts)(state.items[0].receipt->0.receipt_id) == Ok::<
            ReceiptView,
            EverydayRewardsErrorView,
        >(receipt),
        !(files.contains(receipt_file(state, receipt, false)) && files.contains(
            receipt_file(state, receipt, true),
        )),
    ensures
        transfers(backend, state, files, 4) == 2,
        drive(backend, state, files, 4) == (
            state.after_item(),
            files.insert(receipt_file(state, receipt, false)).insert(
                receipt_file(state, receipt, true),
            ),
        ),
{
    reveal_with_fuel(drive, 5);
    reveal_with_fuel(transfers, 5);
}

/// A receipt of which both files are in the store is left alone: the driver
/// moves nothing, the store stays as it is, and the run stands behind the
/// item, where it also stands after a download.
pub proof fn lemma_complete_pair_is_kept(
    backend: Backend,
    state: SyncState,
    files: Set<StoredFile>,
    receipt: ReceiptView,
)
    requires
        state.wf(),
        state.stage is Item,
        state.items[0].receipt is Some,
        (backend.receipts)(state.items[0].receipt->0.receipt_id) == Ok::<
            ReceiptView,
            EverydayRewardsErrorView,
        >(receipt),
        files.contains(receipt_file(state, receipt, false)),
        files.contains(receipt_file(state, receipt, true)),
    ensures
        transfers(backend, state, files, 2) == 0,
        drive(backend, state, files, 2) == (state.after_item(), files),
{
    reveal_with_fuel(drive, 3);
    reveal_with_fuel(transfers, 3);
}

/// A run that starts over between two receipts, where an earlier run from
/// the same place has come to its end and has left all its files in the
/// store, moves nothing into the store.
pub proof fn lemma_rerun_transfers_nothing(
    backend: Backend,
    state: SyncState,
    earlier: Set<StoredFile>,
    files: Set<StoredFile>,
    first: nat,
    second: nat,
)
    requires
        backend.writes_succeed(),
        state.wf(),
        between_receipts(state),
        drive(backend, state, earlier, first).0.action() is Finish,
        drive(backend, state, earlier, first).1.subset_of(files),
    ensures
        transfers(backend, state, files, second) == 0,
    decreases first,
{
    reveal_with_fuel(drive, 5);
    reveal_with_fuel(transfers, 3);
    if state.action() is Finish || second == 0 {
    } else {
        let action = state.action();
        let then = next_state(backend, state, earlier);
        assert(then == next_state(backend, state, files));
        assert(stored(backend, earlier, action) == earlier);
        assert(stored(backend, files, action) == files);
        lemma_step_keeps_wf(state, answer(backend, earlier, action));
        if between_receipts(then) {
            lemma_rerun_transfers_nothing(
                backend,
                then,
                earlier,
                files,
                (first - 1) as nat,
                (second - 1) as nat,
            );
        } else {
            let receipt = then.stage->Files_0;
            let group_id = state.groups[0].id;
            let filename = receipt.value.receipt_details.download.filename;
            let pdf = StoredFile { group_id, filename, sidecar: false };
            let json = StoredFile { group_id, filename, sidecar: true };
            let after = state.after_item();
            lemma_after_item_keeps_the_rest(state);
            if earlier.contains(pdf) && earlier.contains(json) {
                assert(drive(backend, state, earlier, first) == drive(
                    backend,
                    after,
                    earlier,
                    (first - 2) as nat,
                ));
                lemma_files_stay(backend, after, earlier, (first - 2) as nat);
                if second >= 2 {
                    lemma_rerun_transfers_nothing(
                        backend,
                        after,
                        earlier,
                        files,
                        (first - 2) as nat,
                        (second - 2) as nat,
                    );
                }
            } else {
                let both = earlier.insert(pdf).insert(json);
                assert(drive(backend, state, earlier, first) == drive(
                    backend,
                    after,
                    both,
                    (first - 4) as nat,
                ));
                lemma_files_stay(backend, after, both, (first - 4) as nat);
                assert(both.contains(pdf) && both.contains(json));
                if second >= 2 {
                    lemma_rerun_transfers_nothing(
                        backend,
                        after,
                        both,
                        files,
                        (first - 4) as nat,
                        (second - 2) as nat,
                    );
                }
            }
        }
    }
}

/// Running twice against the same backend and the same store, where every
/// download and every sidecar succeeds: once the first run has come to its
/// end, the second run downloads nothing and writes no sidecar, however
/// long it is driven.
pub proof fn lemma_second_run_downloads_nothing(
    backend: Backend,
    files: Set<StoredFile>,
    first: nat,
    second: nat,
)
    requires
        backend.writes_succeed(),
        drive(backend, SyncState::start(Some(FIRST_PAGE@)), files, first).0.action() is Finish,
    ensures
        transfers(
            backend,
            SyncState::start(Some(FIRST_PAGE@)),
            drive(backend, SyncState::start(Some(FIRST_PAGE@)), files, first).1,
            second,
        ) == 0,
{
    let start = SyncState::start(Some(FIRST_PAGE@));
    lemma_rerun_transfers_nothing(
        backend,
        start,
        files,
        drive(backend, start, files, first).1,
        first,
        second,
    );
}

/// A call of the resolver: the item that it is made for, and the receipt
/// that it asks for.
pub struct ResolveCall {
    pub item_id: Seq<char>,
    pub receipt_id: Seq<char>,
}

/// The call of the resolver that `action` stands for, if it is one.
pub open spec fn call_of(action: SyncActionView) -> Seq<ResolveCall> {
    match action {
        SyncActionView::Resolve { item_id, receipt_id } => seq![ResolveCall { item_id, receipt_id }],
        _ => Seq::empty(),
    }
}

/// The calls of the resolver that `items` are owed: one for each item that
/// names a receipt, in the order of the items.
pub open spec fn item_calls(items: Seq<ItemView>) -> Seq<ResolveCall>
    decreases items.len(),
{
    if items.len() == 0 {
        Seq::empty()
    } else {
        (match items[0].receipt {
            Some(receipt) => seq![
                ResolveCall { item_id: items[0].id, receipt_id: receipt.receipt_id },
            ],
            None => Seq::empty(),
        }) + item_calls(items.drop_first())
    }
}

/// The calls of the resolver that `groups` are owed: those of the items of
/// each group whose directory can be made, in the order of the groups.
pub open spec fn group_calls(
    backend: Backend,
    groups: Seq<RewardsActivityFeedGroupView>,
) -> Seq<ResolveCall>
    decreases groups.len(),
{
    if groups.len() == 0 {
        Seq::empty()
    } else {
        (if (backend.directories)(groups[0].id) is Ok {
            item_calls(group_items(groups[0]))
        } else {
            Seq::empty()
        }) + group_calls(backend, groups.drop_first())
    }
}

/// The calls of the resolver that are still owed on the page that the run
/// works on.
pub open spec fn calls_due(backend: Backend, state: SyncState) -> Seq<ResolveCall> {
    if state.stage is Fetch {
        Seq::empty()
    } else if state.stage is Group {
        group_calls(backend, state.groups)
    } else if state.stage is Item {
        item_calls(state.items) + group_calls(backend, state.groups.drop_first())
    } else {
        item_calls(state.items.drop_first()) + group_calls(backend, state.groups.drop_first())
    }
}

/// The most actions that `groups` can take.
pub open spec fn group_steps(groups: Seq<RewardsActivityFeedGroupView>) -> nat
    decreases groups.len(),
{
    if groups.len() == 0 {
        0
    } else {
        1 + 4 * group_items(groups[0]).len() + group_steps(groups.drop_first())
    }
}

/// The most actions that the run can take before it is done with the page
/// that it works on.
pub open spec fn steps_due(state: SyncState) -> nat {
    if state.stage is Fetch {
        0
    } else if state.stage is Group {
        group_steps(state.groups)
    } else {
        (if state.stage is Item {
            4nat
        } else if state.stage is Files {
            3nat
        } else if state.stage is Download {
            2nat
        } else {
            1nat
        }) + 4 * state.items.drop_first().len() + group_steps(state.groups.drop_first())
    }
}

/// Whether the run is done with its page after at most `steps` actions.
pub open spec fn page_ends(
    backend: Backend,
    state: SyncState,
    files: Set<StoredFile>,
    steps: nat,
) -> bool
    decreases steps,
{
    state.stage is Fetch || (steps > 0 && page_ends(
        backend,
        next_state(backend, state, files),
        stored(backend, files, state.action()),
        (steps - 1) as nat,
    ))
}

/// The state of the run and the store once the run is done with the page
/// that it works on, or after `steps` actions where it is not done by then.
pub open spec fn page_end(
    backend: Backend,
    state: SyncState,
    files: Set<StoredFile>,
    steps: nat,
) -> (SyncState, Set<StoredFile>)
    decreases steps,
{
    if steps == 0 || state.stage is Fetch {
        (state, files)
    } else {
        page_end(
            backend,
            next_state(backend, state, files),
            stored(backend, files, state.action()),
            (steps - 1) as nat,
        )
    }
}

/// The calls of the resolver among the first `steps` actions of the run, up
/// to the end of the page that it works on.
pub open spec fn page_calls(
    backend: Backend,
    state: SyncState,
    files: Set<StoredFile>,
    steps: nat,
) -> Seq<ResolveCall>
    decreases steps,
{
    if steps == 0 || state.stage is Fetch {
        Seq::empty()
    } else {
        call_of(state.action()) + page_calls(
            backend,
            next_state(backend, state, files),
            stored(backend, files, state.action()),
            (steps - 1) as nat,
        )
    }
}

/// One action on a page: the run makes the call that is owed first, or none,
/// owes the rest after it, and is nearer to the end of the page, whatever
/// the driver reports.
pub proof fn lemma_page_step(backend: Backend, state: SyncState, files: Set<StoredFile>)
    requires
        state.wf(),
        !(state.stage is Fetch),
    ensures
        next_state(backend, state, files).wf(),
        calls_due(backend, state) == call_of(state.action()) + calls_due(
            backend,
            next_state(backend, state, files),
        ),
        steps_due(next_state(backend, state, files)) < steps_due(state),
        next_state(backend, state, files).cursor == state.cursor,
{
    let next = next_state(backend, state, files);
    let rest_groups = state.groups.drop_first();
    lemma_step_keeps_wf(state, answer(backend, files, state.action()));
    assert(group_calls(backend, Seq::empty()) =~= Seq::empty());
    assert(item_calls(Seq::empty()) =~= Seq::empty());
    assert(group_steps(Seq::empty()) == 0);
    if state.stage is Group {
        let items = group_items(state.groups[0]);
        if (backend.directories)(state.groups[0].id) is Ok {
            if items.len() > 0 {
                assert(next.items == items);
                assert(4 * items.len() == 4 + 4 * items.drop_first().len());
            } else {
                assert(next == SyncState::at_groups(state.cursor, rest_groups));
            }
        } else {
            assert(next == SyncState::at_groups(state.cursor, rest_groups));
        }
        assert(calls_due(backend, state) =~= call_of(state.action()) + calls_due(backend, next));
    } else {
        let rest_items = state.items.drop_first();
        let after = state.after_item();
        lemma_after_item_keeps_the_rest(state);
        if rest_items.len() > 0 {
            assert(after.items == rest_items);
            assert(4 * rest_items.len() == 4 + 4 * rest_items.drop_first().len());
        } else {
            assert(after == SyncState::at_groups(state.cursor, rest_groups));
        }
        assert(calls_due(backend, after) =~= item_calls(rest_items) + group_calls(
            backend,
            rest_groups,
        ));
        assert(steps_due(after) == 4 * rest_items.len() + group_steps(rest_groups));
        assert(next == after || (next.items == state.items && next.groups == state.groups
            && !(next.stage is Fetch) && !(next.stage is Group) && !(next.stage is Item)));
        assert(calls_due(backend, state) =~= call_of(state.action()) + calls_due(backend, next));
    }
}

/// A run is done with the page that it works on after no more actions than
/// its groups and items can take, whatever fails on the way. Up to there it
/// has made the calls of the resolver that the page is owed, each once and
/// in order, and there it stands between pages with the cursor that it had.
pub proof fn lemma_page_runs_to_its_end(
    backend: Backend,
    state: SyncState,
    files: Set<StoredFile>,
    steps: nat,
)
    requires
        state.wf(),
        steps >= steps_due(state),
    ensures
        page_ends(backend, state, files, steps),
        page_calls(backend, state, files, steps) == calls_due(backend, state),
        page_end(backend, state, files, steps).0 == SyncState::start(state.cursor),
    decreases steps,
{
    if state.stage is Fetch {
        assert(state.groups =~= Seq::empty());
        assert(state.items =~= Seq::empty());
    } else {
        lemma_page_step(backend, state, files);
        lemma_page_runs_to_its_end(
            backend,
            next_state(backend, state, files),
            stored(backend, files, state.action()),
            (steps - 1) as nat,
        );
    }
}

/// Every receipt of a page is asked for: from the arrival of a page to its
/// end the run calls the resolver once for each item that names a receipt,
/// in every group whose directory can be made, in the order of the feed. No
/// item without a receipt, no receipt that cannot be resolved, downloaded or
/// described, and no group without a directory keeps the run from the items
/// and groups behind it. After the page the run asks for the page that the
/// cursor names, or is over where there is none.
pub proof fn lemma_every_receipt_of_a_page_is_asked_for(
    backend: Backend,
    cursor: Option<Seq<char>>,
    groups: Seq<RewardsActivityFeedGroupView>,
    files: Set<StoredFile>,
)
    ensures
        page_ends(backend, SyncState::at_groups(cursor, groups), files, group_steps(groups)),
        page_calls(backend, SyncState::at_groups(cursor, groups), files, group_steps(groups))
            == group_calls(backend, groups),
        page_end(backend, SyncState::at_groups(cursor, groups), files, group_steps(groups)).0
            == SyncState::start(cursor),
{
    let state = SyncState::at_groups(cursor, groups);
    assert(group_calls(backend, Seq::empty()) =~= Seq::empty());
    lemma_page_runs_to_its_end(backend, state, files, group_steps(groups));
}

} // verus!
