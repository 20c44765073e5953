//! What holds of every scan.

use vstd::prelude::*;
use crate::child::item_of;
use crate::child::ChildObservationView;
use crate::entry::EntryKind;
use crate::event::ScanEventView;
use crate::model::cancel_state;
use crate::model::discovered_items;
use crate::model::initial_state;
use crate::model::is_terminal;
use crate::model::lemma_run_only_advances;
use crate::model::reachable_file_bytes;
use crate::model::reported_items;
use crate::model::run_events;
use crate::model::run_state;
use crate::model::scan_events;
use crate::model::sized_by_regular_files;
use crate::model::step_events;
use crate::model::step_state;
use crate::model::terminal_count;
use crate::model::terminal_snapshot;
use crate::model::total_item_size;
use crate::model::ScanState;

verus! {

/// The items of two runs of events are those of the first followed by those
/// of the second, and their terminal snapshots add up.
pub proof fn lemma_events_concat(front: Seq<ScanEventView>, back: Seq<ScanEventView>)
    ensures
        discovered_items(front + back) == discovered_items(front) + discovered_items(back),
        terminal_count(front + back) == terminal_count(front) + terminal_count(back),
    decreases back.len(),
{
    if back.len() == 0 {
        assert(front + back =~= front);
        assert(discovered_items(front) + discovered_items(back) =~= discovered_items(front));
    } else {
        lemma_events_concat(front, back.drop_last());
        assert((front + back).drop_last() =~= front + back.drop_last());
        assert((front + back).last() == back.last());
        match back.last() {
            ScanEventView::Discovered(item) => {
                assert(discovered_items(front + back) =~= discovered_items(front)
                    + discovered_items(back));
            },
            ScanEventView::Progress(_) => {},
        }
    }
}

/// What a single event holds: its item where it is one, and one terminal
/// snapshot where it is one.
pub proof fn lemma_single_event(event: ScanEventView)
    ensures
        discovered_items(seq![event]) == match event {
            ScanEventView::Discovered(item) => seq![item],
            ScanEventView::Progress(_) => Seq::empty(),
        },
        terminal_count(seq![event]) == if is_terminal(event) { 1nat } else { 0nat },
{
    let one = seq![event];
    assert(one.drop_last() =~= Seq::<ScanEventView>::empty());
    assert(one.last() == event);
    assert(discovered_items(one.drop_last()) =~= Seq::empty());
    assert(terminal_count(one.drop_last()) == 0);
    match event {
        ScanEventView::Discovered(item) => {
            assert(discovered_items(one) =~= seq![item]);
        },
        ScanEventView::Progress(_) => {},
    }
}

/// The total size of items grows by the size of an item added at the end.
pub proof fn lemma_total_item_size_push(
    items: Seq<crate::entry::FileSystemItemView>,
    item: crate::entry::FileSystemItemView,
)
    ensures
        total_item_size(items.push(item)) == total_item_size(items) + item.size,
{
    assert(items.push(item).drop_last() =~= items);
}

/// A live scan reports each child whose metadata was read, once and in
/// order, and nothing else; it emits no terminal snapshot on the way; and its
/// counters are the number of the items and the sum of their sizes, added to
/// where they stood.
pub proof fn lemma_run_reports_readable_children(
    state: ScanState,
    children: Seq<ChildObservationView>,
)
    requires
        !state.cancelled,
        !state.finished,
    ensures
        discovered_items(run_events(state, children)) == reported_items(children),
        terminal_count(run_events(state, children)) == 0,
        run_state(state, children).files_scanned == state.files_scanned + reported_items(
            children,
        ).len(),
        run_state(state, children).total_size == state.total_size + total_item_size(
            reported_items(children),
        ),
    decreases children.len(),
{
    if children.len() > 0 {
        let front = children.drop_last();
        let last = children.last();
        let middle = run_state(state, front);
        lemma_run_reports_readable_children(state, front);
        lemma_run_only_advances(state, front);
        lemma_events_concat(run_events(state, front), step_events(middle, last));
        let step = step_events(middle, last);
        if last.metadata is Some {
            lemma_total_item_size_push(reported_items(front), item_of(last));
            let first = ScanEventView::Discovered(item_of(last));
            lemma_single_event(first);
            if step.len() == 2 {
                let second = step[1];
                lemma_single_event(second);
                lemma_events_concat(seq![first], seq![second]);
                assert(step =~= seq![first] + seq![second]);
                assert(seq![item_of(last)] + Seq::empty() =~= seq![item_of(last)]);
            } else {
                assert(step =~= seq![first]);
            }
            assert(reported_items(front) + seq![item_of(last)] =~= reported_items(front).push(
                item_of(last),
            ));
        } else {
            assert(step =~= Seq::<ScanEventView>::empty());
            assert(reported_items(front) + Seq::empty() =~= reported_items(front));
        }
    }
}

/// Where every child could be read, each has its item.
pub proof fn lemma_reported_items_of_readable_children(children: Seq<ChildObservationView>)
    requires
        forall|i: int| 0 <= i < children.len() ==> (#[trigger] children[i]).metadata is Some,
    ensures
        reported_items(children) == children.map_values(|c: ChildObservationView| item_of(c)),
    decreases children.len(),
{
    if children.len() > 0 {
        let front = children.drop_last();
        assert forall|i: int| 0 <= i < front.len() implies (#[trigger] front[i]).metadata is Some by {
            assert(front[i] == children[i]);
        }
        lemma_reported_items_of_readable_children(front);
        assert(children.last() == children[children.len() - 1]);
    }
    assert(reported_items(children) =~= children.map_values(|c: ChildObservationView| item_of(c)));
}

/// An uninterrupted scan of a directory whose children can all be read emits
/// exactly one item per child, in the order of the listing, and ends with the
/// one terminal snapshot of the scan.
pub proof fn law_one_item_per_child(root: Seq<char>, children: Seq<ChildObservationView>)
    requires
        forall|i: int| 0 <= i < children.len() ==> (#[trigger] children[i]).metadata is Some,
    ensures
        discovered_items(scan_events(root, children)) == children.map_values(
            |c: ChildObservationView| item_of(c),
        ),
        discovered_items(scan_events(root, children)).len() == children.len(),
        scan_events(root, children).last() == ScanEventView::Progress(
            terminal_snapshot(run_state(initial_state(root), children)),
        ),
        terminal_snapshot(run_state(initial_state(root), children)).is_complete,
        terminal_count(scan_events(root, children)) == 1,
{
    law_scan_reports_readable_children(root, children);
    lemma_reported_items_of_readable_children(children);
}

/// An uninterrupted scan emits exactly one item for each child whose metadata
/// could be read, in the order of the listing, none for any other child, and
/// ends with the one terminal snapshot of the scan, which counts the items and
/// sums their sizes.
pub proof fn law_scan_reports_readable_children(
    root: Seq<char>,
    children: Seq<ChildObservationView>,
)
    ensures
        discovered_items(scan_events(root, children)) == reported_items(children),
        scan_events(root, children).last() == ScanEventView::Progress(
            terminal_snapshot(run_state(initial_state(root), children)),
        ),
        terminal_snapshot(run_state(initial_state(root), children)).is_complete,
        terminal_count(scan_events(root, children)) == 1,
        terminal_snapshot(run_state(initial_state(root), children)).files_scanned
            == reported_items(children).len(),
        terminal_snapshot(run_state(initial_state(root), children)).total_size
            == total_item_size(reported_items(children)),
{
    let init = initial_state(root);
    let last = ScanEventView::Progress(terminal_snapshot(run_state(init, children)));
    lemma_run_reports_readable_children(init, children);
    lemma_events_concat(run_events(init, children), seq![last]);
    lemma_single_event(last);
    assert(run_events(init, children) + seq![last] =~= scan_events(root, children));
    assert(discovered_items(run_events(init, children)) + Seq::empty() =~= discovered_items(
        run_events(init, children),
    ));
}

/// The sizes of the reported items add up to the bytes of the regular files
/// under the root, where no child is a link or a special file with a length
/// of its own.
pub proof fn lemma_reported_sizes_are_file_bytes(children: Seq<ChildObservationView>)
    requires
        forall|i: int| 0 <= i < children.len() ==> sized_by_regular_files(#[trigger] children[i]),
    ensures
        total_item_size(reported_items(children)) == reachable_file_bytes(children),
    decreases children.len(),
{
    if children.len() > 0 {
        let front = children.drop_last();
        assert forall|i: int| 0 <= i < front.len() implies sized_by_regular_files(
            #[trigger] front[i],
        ) by {
            assert(front[i] == children[i]);
        }
        lemma_reported_sizes_are_file_bytes(front);
        assert(sized_by_regular_files(children[children.len() - 1]));
        if children.last().metadata is Some {
            lemma_total_item_size_push(reported_items(front), item_of(children.last()));
        }
    }
}

/// The sizes of the items that an uninterrupted scan emits add up to the
/// bytes of all regular files that can be reached from the root, and the
/// terminal snapshot carries that sum. The events are a function of what was
/// observed, so a second scan of an unchanged tree gives the same sum.
///
/// This is stated for roots without a child that is a link or a special file
/// with a length of its own: the item of such a child carries that length,
/// which no regular file accounts for.
pub proof fn law_item_sizes_add_up(root: Seq<char>, children: Seq<ChildObservationView>)
    requires
        forall|i: int| 0 <= i < children.len() ==> sized_by_regular_files(#[trigger] children[i]),
    ensures
        total_item_size(discovered_items(scan_events(root, children))) == reachable_file_bytes(
            children,
        ),
        terminal_snapshot(run_state(initial_state(root), children)).total_size
            == reachable_file_bytes(children),
{
    law_scan_reports_readable_children(root, children);
    lemma_reported_sizes_are_file_bytes(children);
}

/// A scan that was cancelled or has ended passes over every child handed to
/// it: no event is emitted and nothing changes.
pub proof fn law_stopped_scan_is_silent(state: ScanState, children: Seq<ChildObservationView>)
    requires
        state.cancelled || state.finished,
    ensures
        run_events(state, children) == Seq::<ScanEventView>::empty(),
        run_state(state, children) == state,
    decreases children.len(),
{
    if children.len() > 0 {
        law_stopped_scan_is_silent(state, children.drop_last());
        assert(run_events(state, children) =~= Seq::<ScanEventView>::empty());
    }
}

/// Cancelling a scan after the children `before` halts it at once: whatever
/// children `after` are still handed in, no further item is emitted, and the
/// scan still ends with exactly one terminal snapshot, which carries the path
/// of the child last reported and the counters as they stood.
pub proof fn law_cancel_halts_scan(
    root: Seq<char>,
    before: Seq<ChildObservationView>,
    after: Seq<ChildObservationView>,
)
    ensures
        ({
            let reached = run_state(initial_state(root), before);
            let stopped = cancel_state(reached);
            let last = terminal_snapshot(run_state(stopped, after));
            let events = run_events(initial_state(root), before) + run_events(stopped, after)
                + seq![ScanEventView::Progress(last)];
            &&& run_events(stopped, after) == Seq::<ScanEventView>::empty()
            &&& discovered_items(events) == reported_items(before)
            &&& terminal_count(events) == 1
            &&& last.is_complete
            &&& last.current_path == reached.current_path
            &&& last.files_scanned == reported_items(before).len()
            &&& last.total_size == total_item_size(reported_items(before))
        }),
{
    let init = initial_state(root);
    let reached = run_state(init, before);
    let stopped = cancel_state(reached);
    let last = ScanEventView::Progress(terminal_snapshot(run_state(stopped, after)));
    law_stopped_scan_is_silent(stopped, after);
    lemma_run_reports_readable_children(init, before);
    lemma_single_event(last);
    lemma_events_concat(run_events(init, before), seq![last]);
    assert(run_events(init, before) + run_events(stopped, after) =~= run_events(init, before));
    assert(discovered_items(run_events(init, before)) + Seq::empty() =~= discovered_items(
        run_events(init, before),
    ));
}

} // verus!
