//! One entry of a directory listing.

use vstd::prelude::*;
use crate::metadata::{dated_metadata_line, dated_metadata_text};
use crate::platform::{join, joined, Platform};
use crate::text::text_of;

verus! {

/// What the operating system reports about one child of a directory.
pub struct ChildRecord {
    /// The child's file name, without any directory in front of it.
    pub name: String,
    /// Whether the child is itself a directory.
    pub is_directory: bool,
    /// The child's size in bytes, where the system could tell.
    pub size_bytes: Option<u64>,
    /// When the child was last modified, in whole seconds since the Unix
    /// epoch counted toward the past, where the system could tell.
    pub modified_at: Option<i64>,
}

/// A `ChildRecord` as a mathematical value.
pub struct ChildRecordView {
    pub name: Seq<char>,
    pub is_directory: bool,
    pub size_bytes: Option<u64>,
    pub modified_at: Option<i64>,
}

impl View for ChildRecord {
    type V = ChildRecordView;

    open spec fn view(&self) -> ChildRecordView {
        ChildRecordView {
            name: self.name@,
            is_directory: self.is_directory,
            size_bytes: self.size_bytes,
            modified_at: self.modified_at,
        }
    }
}

/// One entry of a listing: a child together with its full path.
pub struct FileItem {
    /// The entry's full path.
    pub path: String,
    /// The entry's file name.
    pub name: String,
    /// Whether the entry is a directory.
    pub is_folder: bool,
    /// The entry's size in bytes, where known.
    pub size_bytes: Option<u64>,
    /// The entry's modification time in whole seconds since the Unix epoch,
    /// where known.
    pub modified_at: Option<i64>,
}

/// A `FileItem` as a mathematical value.
pub struct FileItemView {
    pub path: Seq<char>,
    pub name: Seq<char>,
    pub is_folder: bool,
    pub size_bytes: Option<u64>,
    pub modified_at: Option<i64>,
}

impl View for FileItem {
    type V = FileItemView;

    open spec fn view(&self) -> FileItemView {
        FileItemView {
            path: self.path@,
            name: self.name@,
            is_folder: self.is_folder,
            size_bytes: self.size_bytes,
            modified_at: self.modified_at,
        }
    }
}

impl FileItemView {
    /// Whether this entry lies directly beneath `folder`: its path is the
    /// folder's path with the entry's own name joined on.
    pub open spec fn is_child_of(self, platform: Platform, folder: Seq<char>) -> bool {
        self.path == joined(platform, folder, self.name)
    }

    /// The line that tells the entry's size and age: none for an entry of
    /// unknown size, else the line for its size and modification time.
    pub open spec fn metadata_text(self) -> Option<Seq<char>> {
        match self.size_bytes {
            Some(size) => dated_metadata_text(size, self.modified_at),
            None => None,
        }
    }
}

/// The entry that stands for `child` when it is found in `folder`.
pub open spec fn entry_beneath(
    platform: Platform,
    folder: Seq<char>,
    child: ChildRecordView,
) -> FileItemView {
    FileItemView {
        path: joined(platform, folder, child.name),
        name: child.name,
        is_folder: child.is_directory,
        size_bytes: child.size_bytes,
        modified_at: child.modified_at,
    }
}

/// The mathematical values of a run of entries, in order.
pub open spec fn items_view(items: Seq<FileItem>) -> Seq<FileItemView> {
    Seq::new(items.len(), |i: int| items[i]@)
}

/// The mathematical values of a run of child records, in order.
pub open spec fn records_view(records: Seq<ChildRecord>) -> Seq<ChildRecordView> {
    Seq::new(records.len(), |i: int| records[i]@)
}

impl FileItem {
    /// Makes the entry for the child `child` of `folder`. The entry keeps
    /// everything the record says and adds the child's full path.
    pub fn new(platform: Platform, folder: &str, child: &ChildRecord) -> (item: FileItem)
        ensures
            item@ == entry_beneath(platform, folder@, child@),
            item@.is_child_of(platform, folder@),
    {
        FileItem {
            path: join(platform, folder, child.name.as_str()),
            name: child.name.clone(),
            is_folder: child.is_directory,
            size_bytes: child.size_bytes,
            modified_at: child.modified_at,
        }
    }

    /// Writes the line that tells the entry's size and age, such as
    /// `1024 bytes, modified: 2024-05-01 12:00:00`. There is no line for
    /// an entry whose size is unknown, nor for one whose modification time
    /// lies outside the calendar.
    pub fn format_metadata(&self) -> (line: Option<String>)
        ensures
            text_of(line) == self@.metadata_text(),
    {
        match self.size_bytes {
            Some(size) => dated_metadata_line(size, self.modified_at),
            None => None,
        }
    }
}

} // verus!
