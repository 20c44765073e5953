//! What a scan hands to its consumer.

use vstd::prelude::*;
use crate::entry::FileSystemItem;
use crate::entry::FileSystemItemView;

verus! {

/// A snapshot of a scan in flight, or its last word.
#[derive(Clone, Debug, PartialEq, Eq)]
pub struct ScanProgress {
    /// The path of the child last reported; in the terminal snapshot of a scan
    /// that ran to its end, the words `scan complete`.
    pub current_path: String,
    /// The number of children reported so far. Files met while a subtree was
    /// sized do not count.
    pub files_scanned: u32,
    /// The sum of the sizes of the children reported so far.
    pub total_size: u64,
    /// Set in the terminal snapshot alone.
    pub is_complete: bool,
}

/// The mathematical value of a [`ScanProgress`].
pub struct ScanProgressView {
    pub current_path: Seq<char>,
    pub files_scanned: nat,
    pub total_size: nat,
    pub is_complete: bool,
}

impl View for ScanProgress {
    type V = ScanProgressView;

    open spec fn view(&self) -> ScanProgressView {
        ScanProgressView {
            current_path: self.current_path@,
            files_scanned: self.files_scanned as nat,
            total_size: self.total_size as nat,
            is_complete: self.is_complete,
        }
    }
}

/// What a scan hands to its consumer.
#[derive(Clone, Debug, PartialEq, Eq)]
pub enum ScanEvent {
    /// A child of the root was found and measured.
    Discovered(FileSystemItem),
    /// A snapshot of the counters.
    Progress(ScanProgress),
}

/// The mathematical value of a [`ScanEvent`].
pub enum ScanEventView {
    Discovered(FileSystemItemView),
    Progress(ScanProgressView),
}

impl View for ScanEvent {
    type V = ScanEventView;

    open spec fn view(&self) -> ScanEventView {
        match self {
            ScanEvent::Discovered(item) => ScanEventView::Discovered(item@),
            ScanEvent::Progress(progress) => ScanEventView::Progress(progress@),
        }
    }
}

impl DeepView for ScanEvent {
    type V = ScanEventView;

    open spec fn deep_view(&self) -> ScanEventView {
        self@
    }
}

/// Why a scan did not start.
#[derive(Clone, Copy, Debug, PartialEq, Eq, Structural)]
pub enum ScanError {
    /// The root path does not exist.
    NotFound,
}

} // verus!
