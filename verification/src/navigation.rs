//! The navigation state: which folder is shown, under which label, and what
//! it was found to contain.

use vstd::prelude::*;
use crate::file_item::{items_view, FileItem, FileItemView};
use crate::lister::{list, listing, DirectoryRead, DirectoryReadView, ListError};
use crate::platform::Platform;

verus! {

/// The folder on show: its label, its path and its entries. The three
/// always belong together: they are replaced in one step or not at all.
pub struct NavigationState {
    platform: Platform,
    current_label: String,
    current_path: String,
    entries: Vec<FileItem>,
}

/// A `NavigationState` as a mathematical value.
pub struct NavigationView {
    pub platform: Platform,
    pub current_label: Seq<char>,
    pub current_path: Seq<char>,
    pub entries: Seq<FileItemView>,
}

impl NavigationView {
    /// The state before the first navigation: the label of the default
    /// sidebar entry, no path yet, nothing listed.
    pub open spec fn initial(platform: Platform) -> NavigationView {
        NavigationView {
            platform,
            current_label: "Favorites"@,
            current_path: Seq::empty(),
            entries: Seq::empty(),
        }
    }

    /// Every entry lies directly beneath the current path: the entries on
    /// show are never those of another folder.
    pub open spec fn consistent(self) -> bool {
        forall|i: int|
            0 <= i < self.entries.len() ==> (#[trigger] self.entries[i]).is_child_of(
                self.platform,
                self.current_path,
            )
    }

    /// The state after a request to show `target` under `label`, given what
    /// the operating system answered about `target`. Where `target` can be
    /// listed, label, path and entries are replaced together; where it
    /// cannot, the state stays as it was.
    pub open spec fn navigated(
        self,
        label: Seq<char>,
        target: Seq<char>,
        read: DirectoryReadView,
    ) -> NavigationView {
        match listing(self.platform, target, read) {
            Ok(items) => NavigationView {
                platform: self.platform,
                current_label: label,
                current_path: target,
                entries: items,
            },
            Err(_) => self,
        }
    }

    /// What a request to show `target` reports back: nothing on success,
    /// the reason where `target` cannot be listed.
    pub open spec fn navigation_outcome(self, target: Seq<char>, read: DirectoryReadView) -> Result<
        (),
        ListError,
    > {
        match listing(self.platform, target, read) {
            Ok(_) => Ok(()),
            Err(e) => Err(e),
        }
    }
}

impl View for NavigationState {
    type V = NavigationView;

    closed spec fn view(&self) -> NavigationView {
        NavigationView {
            platform: self.platform,
            current_label: self.current_label@,
            current_path: self.current_path@,
            entries: items_view(self.entries@),
        }
    }
}

impl NavigationState {
    #[verifier::type_invariant]
    spec fn belongs_together(self) -> bool {
        self@.consistent()
    }

    /// The state before the first navigation.
    pub fn new(platform: Platform) -> (state: NavigationState)
        ensures
            state@ == NavigationView::initial(platform),
            state@.consistent(),
    {
        let state = NavigationState {
            platform,
            current_label: String::from_str("Favorites"),
            current_path: String::new(),
            entries: Vec::new(),
        };
        assert(state@.entries =~= Seq::empty());
        state
    }

    /// The state that a request to show `target` under `label` leads to,
    /// given `read`, the operating system's answer about `target`; or the
    /// reason why `target` cannot be listed, in which case the state in
    /// force stays in force.
    pub fn successor(&self, label: &str, target: &str, read: &DirectoryRead) -> (outcome: Result<
        NavigationState,
        ListError,
    >)
        ensures
            match outcome {
                Ok(next) => {
                    &&& self@.navigation_outcome(target@, read@) is Ok
                    &&& next@ == self@.navigated(label@, target@, read@)
                    &&& next@.consistent()
                },
                Err(reason) => {
                    &&& self@.navigation_outcome(target@, read@) == Err::<(), ListError>(reason)
                    &&& self@.navigated(label@, target@, read@) == self@
                },
            },
    {
        match list(self.platform, target, read) {
            Ok(items) => Ok(
                NavigationState {
                    platform: self.platform,
                    current_label: String::from_str(label),
                    current_path: String::from_str(target),
                    entries: items,
                },
            ),
            Err(reason) => Err(reason),
        }
    }

    /// Shows `target` under `label` if `read`, the operating system's
    /// answer about `target`, lets it be listed, and leaves the state
    /// untouched otherwise.
    pub fn navigate(&mut self, label: &str, target: &str, read: &DirectoryRead) -> (outcome: Result<
        (),
        ListError,
    >)
        ensures
            final(self)@ == old(self)@.navigated(label@, target@, read@),
            outcome == old(self)@.navigation_outcome(target@, read@),
            outcome is Err ==> final(self)@ == old(self)@,
            !read.exists ==> outcome == Err::<(), ListError>(ListError::NotFound),
            read.exists && !read.is_directory ==> outcome == Err::<(), ListError>(
                ListError::NotADirectory,
            ),
            final(self)@.consistent(),
    {
        proof {
            use_type_invariant(&*self);
        }
        match self.successor(label, target, read) {
            Ok(next) => {
                *self = next;
                Ok(())
            },
            Err(reason) => Err(reason),
        }
    }

    /// The conventions under which paths are built.
    pub fn platform(&self) -> (platform: Platform)
        ensures
            platform == self@.platform,
    {
        self.platform
    }

    /// The label under which the current folder is shown.
    pub fn current_label(&self) -> (label: &String)
        ensures
            label@ == self@.current_label,
    {
        &self.current_label
    }

    /// The path of the current folder; empty before the first navigation.
    pub fn current_path(&self) -> (path: &String)
        ensures
            path@ == self@.current_path,
    {
        &self.current_path
    }

    /// The entries of the current folder, as they were last listed.
    pub fn entries(&self) -> (entries: &Vec<FileItem>)
        ensures
            items_view(entries@) == self@.entries,
            self@.consistent(),
    {
        proof {
            use_type_invariant(self);
        }
        &self.entries
    }
}

/// Asking twice for the same folder, with the same answer from the operating
/// system both times, shows after the second request exactly what the first
/// one showed.
pub proof fn lemma_navigate_idempotent(
    state: NavigationView,
    label: Seq<char>,
    target: Seq<char>,
    read: DirectoryReadView,
)
    ensures
        state.navigated(label, target, read).navigated(label, target, read) == state.navigated(
            label,
            target,
            read,
        ),
        state.navigated(label, target, read).navigation_outcome(target, read)
            == state.navigation_outcome(target, read),
{
}

/// Navigation keeps the entries with their folder: whether a request is
/// served or refused, the entries on show afterwards all lie beneath the
/// path on show.
pub proof fn lemma_navigated_is_consistent(
    state: NavigationView,
    label: Seq<char>,
    target: Seq<char>,
    read: DirectoryReadView,
)
    requires
        state.consistent(),
    ensures
        state.navigated(label, target, read).consistent(),
{
}

} // verus!
