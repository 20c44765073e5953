//! What the caller observed of one immediate child of the scan root.

use vstd::prelude::*;
use crate::entry::EntryKind;
use crate::entry::EntryMetadata;
use crate::entry::FileSystemItem;
use crate::entry::FileSystemItemView;
use crate::size::calculate_dir_size;
use crate::size::total_file_bytes;

verus! {

/// What the caller observed of one immediate child of the scan root.
#[derive(Clone, Debug, PartialEq, Eq)]
pub struct ChildObservation {
    /// The path of the child.
    pub path: String,
    /// Its last path component, where it has one that is valid text.
    pub file_name: Option<String>,
    /// Its metadata, or `None` where it could not be read.
    pub metadata: Option<EntryMetadata>,
    /// The walk of the subtree below it, one element per entry met, `None`
    /// for an entry whose metadata could not be read. Only the walk of a
    /// directory is consulted.
    pub subtree: Vec<Option<EntryMetadata>>,
}

/// The mathematical value of a [`ChildObservation`].
pub struct ChildObservationView {
    pub path: Seq<char>,
    pub file_name: Option<Seq<char>>,
    pub metadata: Option<EntryMetadata>,
    pub subtree: Seq<Option<EntryMetadata>>,
}

impl View for ChildObservation {
    type V = ChildObservationView;

    open spec fn view(&self) -> ChildObservationView {
        ChildObservationView {
            path: self.path@,
            file_name: self.file_name.deep_view(),
            metadata: self.metadata,
            subtree: self.subtree@,
        }
    }
}

impl DeepView for ChildObservation {
    type V = ChildObservationView;

    open spec fn deep_view(&self) -> ChildObservationView {
        self@
    }
}

/// The name shown for an entry without a usable last path component.
pub open spec fn unknown_name() -> Seq<char> {
    "Unknown"@
}

/// The name an item carries: the child's last path component, or
/// [`unknown_name`] where it has none.
pub open spec fn display_name(file_name: Option<Seq<char>>) -> Seq<char> {
    match file_name {
        Some(name) => name,
        None => unknown_name(),
    }
}

/// The size an item carries: the subtree size of a directory, and the length
/// that the metadata gives of anything else. Zero without metadata.
pub open spec fn child_size(child: ChildObservationView) -> nat {
    match child.metadata {
        Some(m) => if m.kind == EntryKind::Directory {
            total_file_bytes(child.subtree)
        } else {
            m.len as nat
        },
        None => 0,
    }
}

/// The item that a scan reports of a child whose metadata was read.
pub open spec fn item_of(child: ChildObservationView) -> FileSystemItemView {
    FileSystemItemView {
        path: child.path,
        name: display_name(child.file_name),
        size: child_size(child),
        is_directory: child.metadata is Some && child.metadata->0.kind == EntryKind::Directory,
    }
}

impl ChildObservation {
    /// Builds the item that a scan reports of this child.
    pub(crate) fn to_item(&self) -> (item: FileSystemItem)
        requires
            self.metadata is Some,
            child_size(self@) <= u64::MAX,
        ensures
            item@ == item_of(self@),
    {
        let metadata = self.metadata.unwrap();
        let size: u64 = if metadata.is_directory() {
            calculate_dir_size(&self.subtree)
        } else {
            metadata.len
        };
        let name = match &self.file_name {
            Some(name) => name.clone(),
            None => "Unknown".to_owned(),
        };
        FileSystemItem { path: self.path.clone(), name, size, is_directory: metadata.is_directory() }
    }
}

} // verus!
