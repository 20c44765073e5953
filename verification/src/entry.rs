//! What a scan observes of one file-system entry, and what it reports of it.

use vstd::prelude::*;

verus! {

/// The kind of a file-system entry, as its metadata gives it.
#[derive(Clone, Copy, Debug, PartialEq, Eq, Structural)]
pub enum EntryKind {
    /// A regular file.
    File,
    /// A directory.
    Directory,
    /// A symbolic link or a special file.
    Other,
}

/// The metadata of one entry: its kind and its byte length.
#[derive(Clone, Copy, Debug, PartialEq, Eq, Structural)]
pub struct EntryMetadata {
    pub kind: EntryKind,
    pub len: u64,
}

impl EntryMetadata {
    /// Whether the entry is a directory, whose size is the sum over its subtree.
    pub fn is_directory(&self) -> (b: bool)
        ensures
            b == (self.kind == EntryKind::Directory),
    {
        self.kind == EntryKind::Directory
    }

    /// Whether the entry is a regular file, the only kind whose length counts
    /// towards the size of a subtree.
    pub fn is_file(&self) -> (b: bool)
        ensures
            b == (self.kind == EntryKind::File),
    {
        self.kind == EntryKind::File
    }
}

/// One discovered entry: an immediate child of the scan root.
#[derive(Clone, Debug, PartialEq, Eq)]
pub struct FileSystemItem {
    /// The absolute path of the entry.
    pub path: String,
    /// Its last path component.
    pub name: String,
    /// Its byte count: the length of a file, the subtree size of a directory.
    pub size: u64,
    pub is_directory: bool,
}

/// The mathematical value of a [`FileSystemItem`].
pub struct FileSystemItemView {
    pub path: Seq<char>,
    pub name: Seq<char>,
    pub size: nat,
    pub is_directory: bool,
}

impl View for FileSystemItem {
    type V = FileSystemItemView;

    open spec fn view(&self) -> FileSystemItemView {
        FileSystemItemView {
            path: self.path@,
            name: self.name@,
            size: self.size as nat,
            is_directory: self.is_directory,
        }
    }
}

impl DeepView for FileSystemItem {
    type V = FileSystemItemView;

    open spec fn deep_view(&self) -> FileSystemItemView {
        self@
    }
}

} // verus!
