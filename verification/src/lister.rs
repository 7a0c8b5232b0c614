//! Turning what the operating system said about a directory into a listing.

use vstd::prelude::*;
use crate::file_item::{entry_beneath, items_view, records_view, ChildRecord, ChildRecordView, FileItem, FileItemView};
use crate::platform::Platform;

verus! {

/// Why a directory could not be listed.
#[derive(Clone, Copy, Debug, PartialEq, Eq, Structural)]
pub enum ListError {
    /// Nothing exists at the path.
    NotFound,
    /// The path is a directory, but its contents may not be read.
    PermissionDenied,
    /// Something exists at the path, and it is not a directory.
    NotADirectory,
}

/// What the operating system answered when a path was read as a directory.
pub struct DirectoryRead {
    /// Whether anything exists at the path.
    pub exists: bool,
    /// Whether what exists there is a directory.
    pub is_directory: bool,
    /// The immediate children in the order the system gave them, or `None`
    /// where the system refused to enumerate them.
    pub children: Option<Vec<ChildRecord>>,
}

/// A `DirectoryRead` as a mathematical value.
pub struct DirectoryReadView {
    pub exists: bool,
    pub is_directory: bool,
    pub children: Option<Seq<ChildRecordView>>,
}

impl View for DirectoryRead {
    type V = DirectoryReadView;

    open spec fn view(&self) -> DirectoryReadView {
        DirectoryReadView {
            exists: self.exists,
            is_directory: self.is_directory,
            children: match self.children {
                Some(records) => Some(records_view(records@)),
                None => None,
            },
        }
    }
}

/// The listing of `path` that follows from `read`.
///
/// A path at which nothing exists is `NotFound`; one that exists and is no
/// directory is `NotADirectory`; a directory whose children were withheld is
/// `PermissionDenied`. Otherwise every child becomes an entry, none is left
/// out or added, and the order is kept.
pub open spec fn listing(platform: Platform, path: Seq<char>, read: DirectoryReadView) -> Result<
    Seq<FileItemView>,
    ListError,
> {
    if !read.exists {
        Err(ListError::NotFound)
    } else if !read.is_directory {
        Err(ListError::NotADirectory)
    } else {
        match read.children {
            None => Err(ListError::PermissionDenied),
            Some(records) => Ok(
                Seq::new(records.len(), |i: int| entry_beneath(platform, path, records[i])),
            ),
        }
    }
}

/// Whether `result` is the outcome `expected`, entry for entry.
pub open spec fn is_listing(
    result: Result<Vec<FileItem>, ListError>,
    expected: Result<Seq<FileItemView>, ListError>,
) -> bool {
    match result {
        Ok(items) => expected == Ok::<Seq<FileItemView>, ListError>(items_view(items@)),
        Err(e) => expected == Err::<Seq<FileItemView>, ListError>(e),
    }
}

/// Lists `path` from what the operating system answered about it.
pub fn list(platform: Platform, path: &str, read: &DirectoryRead) -> (result: Result<
    Vec<FileItem>,
    ListError,
>)
    ensures
        is_listing(result, listing(platform, path@, read@)),
{
    if !read.exists {
        return Err(ListError::NotFound);
    }
    if !read.is_directory {
        return Err(ListError::NotADirectory);
    }
    match &read.children {
        None => Err(ListError::PermissionDenied),
        Some(records) => {
            let mut items: Vec<FileItem> = Vec::new();
            let mut i: usize = 0;
            while i < records.len()
                invariant
                    i <= records.len(),
                    items.len() == i,
                    forall|j: int|
                        0 <= j < i ==> (#[trigger] items[j])@ == entry_beneath(
                            platform,
                            path@,
                            records[j]@,
                        ),
                decreases records.len() - i,
            {
                items.push(FileItem::new(platform, path, &records[i]));
                i += 1;
            }
            assert(items_view(items@) =~= Seq::new(
                records_view(records@).len(),
                |k: int| entry_beneath(platform, path@, records_view(records@)[k]),
            ));
            Ok(items)
        },
    }
}

} // verus!
