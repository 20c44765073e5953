//! The scan of one directory level as a mathematical state machine.

use vstd::prelude::*;
use crate::child::child_size;
use crate::child::item_of;
use crate::child::ChildObservationView;
use crate::entry::EntryKind;
use crate::entry::FileSystemItemView;
use crate::event::ScanEventView;
use crate::event::ScanProgressView;
use crate::size::total_file_bytes;

verus! {

/// The number of reported children after which a progress snapshot is due.
pub const PROGRESS_INTERVAL: u32 = 20;

/// What the terminal snapshot carries as its path when the scan ran to its end.
pub open spec fn scan_complete_label() -> Seq<char> {
    "scan complete"@
}

/// The state of one scan, as a mathematical value.
pub struct ScanState {
    /// The root at first, then the path of the child last reported.
    pub current_path: Seq<char>,
    pub files_scanned: nat,
    pub total_size: nat,
    /// Whether cancellation was requested.
    pub cancelled: bool,
    /// Whether the terminal snapshot was handed out.
    pub finished: bool,
}

/// The state in which a scan of `root` starts.
pub open spec fn initial_state(root: Seq<char>) -> ScanState {
    ScanState { current_path: root, files_scanned: 0, total_size: 0, cancelled: false, finished: false }
}

/// Whether a child is reported: the scan is live and the metadata was read.
pub open spec fn reports(state: ScanState, child: ChildObservationView) -> bool {
    !state.cancelled && !state.finished && child.metadata is Some
}

/// The state after a child was handed to the scan.
pub open spec fn step_state(state: ScanState, child: ChildObservationView) -> ScanState {
    if reports(state, child) {
        ScanState {
            current_path: child.path,
            files_scanned: state.files_scanned + 1,
            total_size: state.total_size + child_size(child),
            ..state
        }
    } else {
        state
    }
}

/// The snapshot of a state that is not the last word.
pub open spec fn snapshot(state: ScanState) -> ScanProgressView {
    ScanProgressView {
        current_path: state.current_path,
        files_scanned: state.files_scanned,
        total_size: state.total_size,
        is_complete: false,
    }
}

/// The events that a child gives rise to: none where it is not reported,
/// else its item, followed by a snapshot after every twentieth report.
pub open spec fn step_events(state: ScanState, child: ChildObservationView) -> Seq<ScanEventView> {
    if reports(state, child) {
        let next = step_state(state, child);
        if next.files_scanned % (PROGRESS_INTERVAL as nat) == 0 {
            seq![
                ScanEventView::Discovered(item_of(child)),
                ScanEventView::Progress(snapshot(next)),
            ]
        } else {
            seq![ScanEventView::Discovered(item_of(child))]
        }
    } else {
        Seq::empty()
    }
}

/// Whether the counters stay within their types when a child is handed in.
pub open spec fn step_fits(state: ScanState, child: ChildObservationView) -> bool {
    reports(state, child) ==> {
        &&& state.files_scanned + 1 <= u32::MAX
        &&& state.total_size + child_size(child) <= u64::MAX
    }
}

/// The state after cancellation was requested.
pub open spec fn cancel_state(state: ScanState) -> ScanState {
    ScanState { cancelled: true, ..state }
}

/// The state after the scan was ended.
pub open spec fn finish_state(state: ScanState) -> ScanState {
    ScanState { finished: true, ..state }
}

/// The terminal snapshot of a state: the counters as they stand, the path
/// where a cancelled scan stopped or else [`scan_complete_label`].
pub open spec fn terminal_snapshot(state: ScanState) -> ScanProgressView {
    ScanProgressView {
        current_path: if state.cancelled { state.current_path } else { scan_complete_label() },
        files_scanned: state.files_scanned,
        total_size: state.total_size,
        is_complete: true,
    }
}

/// The state after the children were handed to the scan one by one.
pub open spec fn run_state(state: ScanState, children: Seq<ChildObservationView>) -> ScanState
    decreases children.len(),
{
    if children.len() == 0 {
        state
    } else {
        step_state(run_state(state, children.drop_last()), children.last())
    }
}

/// The events that the children give rise to, in the order of the children.
pub open spec fn run_events(state: ScanState, children: Seq<ChildObservationView>) -> Seq<
    ScanEventView,
>
    decreases children.len(),
{
    if children.len() == 0 {
        Seq::empty()
    } else {
        run_events(state, children.drop_last()) + step_events(
            run_state(state, children.drop_last()),
            children.last(),
        )
    }
}

/// Whether the counters stay within their types while the children are
/// handed in one by one.
pub open spec fn run_fits(state: ScanState, children: Seq<ChildObservationView>) -> bool
    decreases children.len(),
{
    if children.len() == 0 {
        true
    } else {
        &&& run_fits(state, children.drop_last())
        &&& step_fits(run_state(state, children.drop_last()), children.last())
    }
}

/// All events of an uninterrupted scan of `root`: those of its children, then
/// the terminal snapshot.
pub open spec fn scan_events(root: Seq<char>, children: Seq<ChildObservationView>) -> Seq<
    ScanEventView,
> {
    run_events(initial_state(root), children).push(
        ScanEventView::Progress(terminal_snapshot(run_state(initial_state(root), children))),
    )
}

/// Handing children in neither cancels nor finishes a scan, and never lowers
/// its counters.
pub proof fn lemma_run_only_advances(state: ScanState, children: Seq<ChildObservationView>)
    ensures
        run_state(state, children).cancelled == state.cancelled,
        run_state(state, children).finished == state.finished,
        run_state(state, children).files_scanned >= state.files_scanned,
        run_state(state, children).total_size >= state.total_size,
    decreases children.len(),
{
    if children.len() > 0 {
        lemma_run_only_advances(state, children.drop_last());
    }
}

/// A run that fits, fits up to each of its children.
pub proof fn lemma_run_fits_prefix(state: ScanState, children: Seq<ChildObservationView>, n: int)
    requires
        run_fits(state, children),
        0 <= n <= children.len(),
    ensures
        run_fits(state, children.take(n)),
        n < children.len() ==> step_fits(run_state(state, children.take(n)), children[n]),
    decreases children.len(),
{
    if n == children.len() {
        assert(children.take(n) =~= children);
    } else {
        let front = children.drop_last();
        if n == front.len() {
            assert(children.take(n) =~= front);
        } else {
            lemma_run_fits_prefix(state, front, n);
            assert(front.take(n) =~= children.take(n));
        }
    }
}

/// The items among the events, in the order in which they were emitted.
pub open spec fn discovered_items(events: Seq<ScanEventView>) -> Seq<FileSystemItemView>
    decreases events.len(),
{
    if events.len() == 0 {
        Seq::empty()
    } else {
        match events.last() {
            ScanEventView::Discovered(item) => discovered_items(events.drop_last()).push(item),
            ScanEventView::Progress(_) => discovered_items(events.drop_last()),
        }
    }
}

/// Whether an event is a terminal snapshot.
pub open spec fn is_terminal(event: ScanEventView) -> bool {
    event matches ScanEventView::Progress(progress) && progress.is_complete
}

/// The number of terminal snapshots among the events.
pub open spec fn terminal_count(events: Seq<ScanEventView>) -> nat
    decreases events.len(),
{
    if events.len() == 0 {
        0
    } else if is_terminal(events.last()) {
        terminal_count(events.drop_last()) + 1
    } else {
        terminal_count(events.drop_last())
    }
}

/// The items of the children whose metadata was read, in the order of the
/// children.
pub open spec fn reported_items(children: Seq<ChildObservationView>) -> Seq<FileSystemItemView>
    decreases children.len(),
{
    if children.len() == 0 {
        Seq::empty()
    } else if children.last().metadata is Some {
        reported_items(children.drop_last()).push(item_of(children.last()))
    } else {
        reported_items(children.drop_last())
    }
}

/// The sum of the sizes of the items.
pub open spec fn total_item_size(items: Seq<FileSystemItemView>) -> nat
    decreases items.len(),
{
    if items.len() == 0 {
        0
    } else {
        total_item_size(items.drop_last()) + items.last().size
    }
}

/// The bytes of the regular files that one child holds: its length where it is
/// a regular file, the regular files of its subtree where it is a directory.
pub open spec fn child_file_bytes(child: ChildObservationView) -> nat {
    match child.metadata {
        Some(m) => match m.kind {
            EntryKind::File => m.len as nat,
            EntryKind::Directory => total_file_bytes(child.subtree),
            EntryKind::Other => 0,
        },
        None => 0,
    }
}

/// Whether the size reported of a child is made of regular files alone.
/// It is not for a link or a special file that has a length of its own.
pub open spec fn sized_by_regular_files(child: ChildObservationView) -> bool {
    match child.metadata {
        Some(m) => m.kind == EntryKind::Other ==> m.len == 0,
        None => true,
    }
}

/// The bytes of all regular files that can be reached from the root: those of
/// each of its children.
pub open spec fn reachable_file_bytes(children: Seq<ChildObservationView>) -> nat
    decreases children.len(),
{
    if children.len() == 0 {
        0
    } else {
        reachable_file_bytes(children.drop_last()) + child_file_bytes(children.last())
    }
}

} // verus!
