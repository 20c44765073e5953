//! The scan of one directory level: which events the children of the root
//! give rise to, and how a scan ends.

use vstd::prelude::*;
use crate::child::ChildObservation;
use crate::event::ScanError;
use crate::event::ScanEvent;
use crate::event::ScanProgress;
use crate::model::cancel_state;
use crate::model::finish_state;
use crate::model::initial_state;
use crate::model::lemma_run_fits_prefix;
use crate::model::lemma_run_only_advances;
use crate::model::run_events;
use crate::model::run_fits;
use crate::model::run_state;
use crate::model::scan_events;
use crate::model::snapshot;
use crate::model::step_events;
use crate::model::step_fits;
use crate::model::step_state;
use crate::model::terminal_snapshot;
use crate::model::ScanState;
use crate::model::PROGRESS_INTERVAL;
use crate::size::checked_dir_size;

verus! {

/// The scan of one directory: its counters, its cancellation flag, and
/// whether it has said its last word.
#[derive(Debug)]
pub struct ScanEngine {
    current_path: String,
    files_scanned: u32,
    total_size: u64,
    cancelled: bool,
    finished: bool,
}

impl View for ScanEngine {
    type V = ScanState;

    closed spec fn view(&self) -> ScanState {
        ScanState {
            current_path: self.current_path@,
            files_scanned: self.files_scanned as nat,
            total_size: self.total_size as nat,
            cancelled: self.cancelled,
            finished: self.finished,
        }
    }
}

impl ScanEngine {
    /// Starts the scan of `root`. It fails with [`ScanError::NotFound`] when the
    /// root does not exist, and only then.
    pub fn start(root: String, root_exists: bool) -> (started: Result<ScanEngine, ScanError>)
        ensures
            started is Ok <==> root_exists,
            started is Ok ==> started->Ok_0@ == initial_state(root@),
            started is Err ==> started->Err_0 == ScanError::NotFound,
    {
        if !root_exists {
            return Err(ScanError::NotFound);
        }
        Ok(
            ScanEngine {
                current_path: root,
                files_scanned: 0,
                total_size: 0,
                cancelled: false,
                finished: false,
            },
        )
    }

    /// Requests cancellation: no child handed in from now on is reported.
    /// Nothing reported so far is taken back.
    pub fn cancel_scan(&mut self)
        ensures
            final(self)@ == cancel_state(old(self)@),
    {
        self.cancelled = true;
    }

    /// Whether cancellation was requested.
    pub fn is_cancelled(&self) -> (b: bool)
        ensures
            b == self@.cancelled,
    {
        self.cancelled
    }

    /// Whether the terminal snapshot was handed out.
    pub fn is_finished(&self) -> (b: bool)
        ensures
            b == self@.finished,
    {
        self.finished
    }

    /// The counters as they stand, as a snapshot that is not the last word.
    pub fn progress(&self) -> (now: ScanProgress)
        ensures
            now@ == snapshot(self@),
    {
        ScanProgress {
            current_path: self.current_path.clone(),
            files_scanned: self.files_scanned,
            total_size: self.total_size,
            is_complete: false,
        }
    }

    /// Whether the counters stay within their types when `child` is handed in.
    pub fn can_process(&self, child: &ChildObservation) -> (b: bool)
        ensures
            b == step_fits(self@, child@),
    {
        if self.cancelled || self.finished || child.metadata.is_none() {
            return true;
        }
        if self.files_scanned == u32::MAX {
            return false;
        }
        let metadata = child.metadata.unwrap();
        let size = if metadata.is_directory() {
            checked_dir_size(&child.subtree)
        } else {
            Some(metadata.len)
        };
        match size {
            Some(size) => self.total_size.checked_add(size).is_some(),
            None => false,
        }
    }

    /// Hands the next child of the root to the scan and returns the events to
    /// deliver, in order. A child whose metadata could not be read is passed
    /// over, and so is every child once the scan is cancelled or finished.
    pub fn process_child(&mut self, child: &ChildObservation) -> (events: Vec<ScanEvent>)
        requires
            step_fits(old(self)@, child@),
        ensures
            final(self)@ == step_state(old(self)@, child@),
            events.deep_view() == step_events(old(self)@, child@),
    {
        let mut events: Vec<ScanEvent> = Vec::new();
        if self.cancelled || self.finished || child.metadata.is_none() {
            assert(events.deep_view() =~= Seq::empty());
            return events;
        }
        let ghost before = self@;
        self.current_path = child.path.clone();
        let item = child.to_item();
        self.files_scanned += 1;
        self.total_size += item.size;
        events.push(ScanEvent::Discovered(item));
        if self.files_scanned % PROGRESS_INTERVAL == 0 {
            events.push(ScanEvent::Progress(self.progress()));
        }
        assert(events.deep_view() =~= step_events(before, child@));
        events
    }

    /// Ends the scan. The first call returns the terminal snapshot; every
    /// later call returns `None`, so that a scan says its last word once.
    pub fn finish(&mut self) -> (last: Option<ScanProgress>)
        ensures
            final(self)@ == finish_state(old(self)@),
            last is Some <==> !old(self)@.finished,
            last is Some ==> last->0@ == terminal_snapshot(old(self)@),
    {
        if self.finished {
            return None;
        }
        self.finished = true;
        let current_path = if self.cancelled {
            self.current_path.clone()
        } else {
            "scan complete".to_owned()
        };
        Some(
            ScanProgress {
                current_path,
                files_scanned: self.files_scanned,
                total_size: self.total_size,
                is_complete: true,
            },
        )
    }
}

/// Whether an uninterrupted scan of these children keeps its counters within
/// their types.
pub fn scan_fits(path: &str, children: &Vec<ChildObservation>) -> (b: bool)
    ensures
        b == run_fits(initial_state(path@), children.deep_view()),
{
    let mut engine = ScanEngine {
        current_path: path.to_owned(),
        files_scanned: 0,
        total_size: 0,
        cancelled: false,
        finished: false,
    };
    let ghost all = children.deep_view();
    let ghost init = initial_state(path@);
    let mut i: usize = 0;
    while i < children.len()
        invariant
            i <= children.len(),
            all == children.deep_view(),
            init == initial_state(path@),
            engine@ == run_state(init, all.take(i as int)),
            run_fits(init, all.take(i as int)),
        decreases children.len() - i,
    {
        proof {
            assert(all.take(i + 1).drop_last() =~= all.take(i as int));
            assert(all.take(i + 1).last() == children[i as int]@);
        }
        if !engine.can_process(&children[i]) {
            proof {
                assert(all[i as int] == children[i as int]@);
                if run_fits(init, all) {
                    lemma_run_fits_prefix(init, all, i as int);
                }
            }
            return false;
        }
        let _ = engine.process_child(&children[i]);
        i += 1;
    }
    proof {
        assert(all.take(i as int) =~= all);
    }
    true
}

/// Scans one directory level: `children` are the immediate children of `path`
/// in the order of the listing. It fails with [`ScanError::NotFound`] when the
/// root does not exist, and only then; otherwise it returns the events of the
/// scan: for each child whose metadata was read its item, a snapshot after
/// every twentieth item, and the terminal snapshot at the end.
pub fn scan_directory(path: &str, root_exists: bool, children: &Vec<ChildObservation>) -> (scanned:
    Result<Vec<ScanEvent>, ScanError>)
    requires
        root_exists ==> run_fits(initial_state(path@), children.deep_view()),
    ensures
        scanned is Ok <==> root_exists,
        scanned is Err ==> scanned->Err_0 == ScanError::NotFound,
        scanned is Ok ==> scanned->Ok_0.deep_view() == scan_events(path@, children.deep_view()),
{
    let mut engine = match ScanEngine::start(path.to_owned(), root_exists) {
        Ok(engine) => engine,
        Err(error) => {
            return Err(error);
        },
    };
    let ghost all = children.deep_view();
    let ghost init = initial_state(path@);
    let mut events: Vec<ScanEvent> = Vec::new();
    let mut i: usize = 0;
    while i < children.len()
        invariant
            i <= children.len(),
            all == children.deep_view(),
            run_fits(init, all),
            engine@ == run_state(init, all.take(i as int)),
            events.deep_view() == run_events(init, all.take(i as int)),
        decreases children.len() - i,
    {
        proof {
            assert(all.take(i + 1).drop_last() =~= all.take(i as int));
            assert(all.take(i + 1).last() == children[i as int]@);
            lemma_run_fits_prefix(init, all, i as int);
        }
        let ghost before = events.deep_view();
        let mut found = engine.process_child(&children[i]);
        let ghost added = found.deep_view();
        events.append(&mut found);
        assert(events.deep_view() =~= before + added);
        i += 1;
    }
    proof {
        assert(all.take(i as int) =~= all);
        lemma_run_only_advances(init, all);
    }
    let last = engine.finish();
    events.push(ScanEvent::Progress(last.unwrap()));
    assert(events.deep_view() =~= scan_events(path@, all));
    Ok(events)
}

} // verus!
