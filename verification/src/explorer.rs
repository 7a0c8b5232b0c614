//! The file explorer's model: the registry of well-known places, the drives
//! on offer and the folder on show, owned in one place.

use vstd::prelude::*;
use crate::drives::{accessible_roots, enumerate, probes_view, roots_view, DriveRoot, MountProbe, MountProbeView};
use crate::file_item::{items_view, FileItem};
use crate::lister::{DirectoryRead, DirectoryReadView, ListError};
use crate::navigation::{NavigationState, NavigationView};
use crate::registry::{KnownLocation, PathRegistry, PathRegistryView, WellKnown};
use crate::text::{text_of, texts};

verus! {

/// The folder to create for `folder`, if any: the folder itself where it
/// does not exist yet, nothing where it does.
pub open spec fn folder_to_create(folder: Seq<char>, exists: bool) -> Option<Seq<char>> {
    if exists {
        None
    } else {
        Some(folder)
    }
}

/// A run of one folder, or of none.
pub open spec fn one_or_none(folder: Option<Seq<char>>) -> Seq<Seq<char>> {
    match folder {
        Some(path) => seq![path],
        None => Seq::empty(),
    }
}

/// The folders of the application's own that have to be created, given
/// which of them exist: recent, favorites and trash, in that order, each
/// only where it is absent.
pub open spec fn folders_to_create(
    registry: PathRegistryView,
    recent_exists: bool,
    favorites_exists: bool,
    trash_exists: bool,
) -> Seq<Seq<char>> {
    one_or_none(folder_to_create(registry.recent, recent_exists)) + one_or_none(
        folder_to_create(registry.favorites, favorites_exists),
    ) + one_or_none(folder_to_create(registry.trash, trash_exists))
}

/// The sidebar's entries as label and path: the well-known places in their
/// order, then every drive under its own path as label.
pub open spec fn sidebar_entries(registry: PathRegistryView, drives: Seq<Seq<char>>) -> Seq<
    (Seq<char>, Seq<char>),
> {
    Seq::new(
        WellKnown::sidebar_order().len(),
        |i: int| (
            WellKnown::sidebar_order()[i].label_text(),
            registry.path_of(WellKnown::sidebar_order()[i]),
        ),
    ) + Seq::new(drives.len(), |i: int| (drives[i], drives[i]))
}

/// The explorer's model. It owns the registry of well-known places, the
/// drives found at startup, and the navigation state.
pub struct FileExplorer {
    registry: PathRegistry,
    navigation: NavigationState,
    drives: Vec<DriveRoot>,
}

/// A `FileExplorer` as a mathematical value.
pub struct FileExplorerView {
    pub registry: PathRegistryView,
    pub navigation: NavigationView,
    pub drives: Seq<Seq<char>>,
}

impl FileExplorerView {
    /// The model at startup: nothing shown yet, no drives looked for yet.
    pub open spec fn initial(registry: PathRegistryView) -> FileExplorerView {
        FileExplorerView {
            registry,
            navigation: NavigationView::initial(registry.platform),
            drives: Seq::empty(),
        }
    }

    /// Paths are built everywhere under the same conventions, the
    /// application's own folders lie where the layout puts them, and the
    /// entries on show lie beneath the path on show.
    pub open spec fn well_formed(self) -> bool {
        &&& self.navigation.platform == self.registry.platform
        &&& self.registry.well_formed()
        &&& self.navigation.consistent()
    }

    /// The model after a request to show `target` under `label`.
    pub open spec fn navigated(
        self,
        label: Seq<char>,
        target: Seq<char>,
        read: DirectoryReadView,
    ) -> FileExplorerView {
        FileExplorerView { navigation: self.navigation.navigated(label, target, read), ..self }
    }

    /// The model after the drives were chosen from `probes`.
    pub open spec fn with_drives(self, probes: Seq<MountProbeView>) -> FileExplorerView {
        FileExplorerView { drives: accessible_roots(probes), ..self }
    }
}

impl View for FileExplorer {
    type V = FileExplorerView;

    closed spec fn view(&self) -> FileExplorerView {
        FileExplorerView {
            registry: self.registry@,
            navigation: self.navigation@,
            drives: roots_view(self.drives@),
        }
    }
}

impl FileExplorer {
    #[verifier::type_invariant]
    spec fn holds_together(self) -> bool {
        self@.well_formed()
    }

    /// The model at startup, around the registry made for this system.
    pub fn new(registry: PathRegistry) -> (explorer: FileExplorer)
        ensures
            explorer@ == FileExplorerView::initial(registry@),
            explorer@.well_formed(),
    {
        let platform = registry.platform();
        let navigation = NavigationState::new(platform);
        let explorer = FileExplorer { registry, navigation, drives: Vec::new() };
        assert(roots_view(explorer.drives@) =~= Seq::empty());
        explorer
    }

    /// Decides what is to be done about one of the application's own
    /// folders: `Some(folder)` asks for it to be created, `None` says that
    /// it is there already.
    pub fn check_or_create_folder(folder: &str, exists: bool) -> (create: Option<String>)
        ensures
            text_of(create) == folder_to_create(folder@, exists),
    {
        if exists {
            None
        } else {
            Some(String::from_str(folder))
        }
    }

    /// Names the folders of the application's own that have to be created
    /// before first use, given which of them exist already. A folder that
    /// cannot be created afterwards stays registered all the same: showing
    /// it will then fail as any other listing may.
    pub fn initialize_directories(
        &self,
        recent_exists: bool,
        favorites_exists: bool,
        trash_exists: bool,
    ) -> (create: Vec<String>)
        ensures
            texts(create@) == folders_to_create(
                self@.registry,
                recent_exists,
                favorites_exists,
                trash_exists,
            ),
    {
        let mut create: Vec<String> = Vec::new();
        assert(texts(create@) =~= Seq::empty());
        let ghost mut so_far: Seq<Seq<char>> = Seq::empty();
        if let Some(folder) = Self::check_or_create_folder(
            self.registry.path(WellKnown::Recent).as_str(),
            recent_exists,
        ) {
            create.push(folder);
        }
        proof {
            so_far = one_or_none(folder_to_create(self@.registry.recent, recent_exists));
            assert(texts(create@) =~= so_far);
        }
        if let Some(folder) = Self::check_or_create_folder(
            self.registry.path(WellKnown::Favorites).as_str(),
            favorites_exists,
        ) {
            create.push(folder);
        }
        proof {
            so_far = so_far + one_or_none(
                folder_to_create(self@.registry.favorites, favorites_exists),
            );
            assert(texts(create@) =~= so_far);
        }
        if let Some(folder) = Self::check_or_create_folder(
            self.registry.path(WellKnown::Trash).as_str(),
            trash_exists,
        ) {
            create.push(folder);
        }
        proof {
            so_far = so_far + one_or_none(folder_to_create(self@.registry.trash, trash_exists));
            assert(texts(create@) =~= so_far);
        }
        create
    }

    /// Chooses the drives to offer from the mounted volumes and what
    /// probing each of them gave. Nothing else changes.
    pub fn fetch_drives(&mut self, probes: &Vec<MountProbe>)
        ensures
            final(self)@ == old(self)@.with_drives(probes_view(probes@)),
            final(self)@.well_formed(),
    {
        proof {
            use_type_invariant(&*self);
        }
        self.drives = enumerate(probes);
    }

    /// Shows `target` under `label` if `read`, the operating system's
    /// answer about `target`, lets it be listed. Otherwise nothing changes
    /// and the reason is handed back.
    pub fn navigate(&mut self, label: &str, target: &str, read: &DirectoryRead) -> (outcome: Result<
        (),
        ListError,
    >)
        ensures
            final(self)@ == old(self)@.navigated(label@, target@, read@),
            outcome == old(self)@.navigation.navigation_outcome(target@, read@),
            outcome is Err ==> final(self)@ == old(self)@,
            !read.exists ==> outcome == Err::<(), ListError>(ListError::NotFound),
            read.exists && !read.is_directory ==> outcome == Err::<(), ListError>(
                ListError::NotADirectory,
            ),
            final(self)@.well_formed(),
    {
        proof {
            use_type_invariant(&*self);
        }
        match self.navigation.successor(label, target, read) {
            Ok(next) => {
                self.navigation = next;
                Ok(())
            },
            Err(reason) => Err(reason),
        }
    }

    /// The registry of well-known places.
    pub fn registry(&self) -> (registry: &PathRegistry)
        ensures
            registry@ == self@.registry,
            self@.well_formed(),
    {
        proof {
            use_type_invariant(self);
        }
        &self.registry
    }

    /// The navigation state.
    pub fn navigation(&self) -> (navigation: &NavigationState)
        ensures
            navigation@ == self@.navigation,
    {
        &self.navigation
    }

    /// The label of the folder on show.
    pub fn text(&self) -> (text: &String)
        ensures
            text@ == self@.navigation.current_label,
    {
        self.navigation.current_label()
    }

    /// The path of the folder on show; empty before the first navigation.
    pub fn path(&self) -> (path: &String)
        ensures
            path@ == self@.navigation.current_path,
    {
        self.navigation.current_path()
    }

    /// The entries of the folder on show.
    pub fn folder_contents(&self) -> (entries: &Vec<FileItem>)
        ensures
            items_view(entries@) == self@.navigation.entries,
            self@.navigation.consistent(),
    {
        self.navigation.entries()
    }

    /// The drives on offer.
    pub fn drives(&self) -> (drives: &Vec<DriveRoot>)
        ensures
            roots_view(drives@) == self@.drives,
    {
        &self.drives
    }

    /// The sidebar's entries from top to bottom: the well-known places,
    /// then the drives.
    pub fn sidebar(&self) -> (entries: Vec<KnownLocation>)
        ensures
            entries.len() == sidebar_entries(self@.registry, self@.drives).len(),
            forall|i: int|
                0 <= i < entries.len() ==> ((#[trigger] entries[i]).label@, entries[i].path@)
                    == sidebar_entries(self@.registry, self@.drives)[i],
    {
        let mut entries = self.registry.locations();
        let ghost places = entries@;
        let mut i: usize = 0;
        while i < self.drives.len()
            invariant
                i <= self.drives.len(),
                places.len() == WellKnown::sidebar_order().len(),
                entries.len() == places.len() + i,
                forall|j: int| 0 <= j < places.len() ==> entries[j] == places[j],
                forall|j: int|
                    0 <= j < places.len() ==> {
                        &&& (#[trigger] places[j]).label@
                            == WellKnown::sidebar_order()[j].label_text()
                        &&& places[j].path@ == self@.registry.path_of(
                            WellKnown::sidebar_order()[j],
                        )
                    },
                forall|j: int|
                    0 <= j < i ==> {
                        &&& (#[trigger] entries[places.len() + j]).label@ == self.drives[j]@
                        &&& entries[places.len() + j].path@ == self.drives[j]@
                    },
            decreases self.drives.len() - i,
        {
            entries.push(
                KnownLocation {
                    label: self.drives[i].path.clone(),
                    path: self.drives[i].path.clone(),
                },
            );
            i += 1;
        }
        assert forall|k: int| 0 <= k < entries.len() implies ((#[trigger] entries[k]).label@, entries[k].path@)
            == sidebar_entries(self@.registry, self@.drives)[k] by {
            if k >= places.len() {
                let j = k - places.len();
                assert(entries[places.len() + j].label@ == self.drives[j]@);
                assert(roots_view(self.drives@)[j] == self.drives[j]@);
            } else {
                assert(entries[k] == places[k]);
            }
        }
        entries
    }
}

/// Creating every folder that `folders_to_create` names is enough, and no
/// more than needed: afterwards recent, favorites and trash all exist,
/// whichever of them existed before, and none of the folders named existed.
pub proof fn lemma_folders_to_create_fill_the_gaps(
    registry: PathRegistryView,
    existing: Set<Seq<char>>,
)
    ensures
        ({
            let created = folders_to_create(
                registry,
                existing.contains(registry.recent),
                existing.contains(registry.favorites),
                existing.contains(registry.trash),
            );
            let afterwards = existing + created.to_set();
            &&& afterwards.contains(registry.recent)
            &&& afterwards.contains(registry.favorites)
            &&& afterwards.contains(registry.trash)
            &&& forall|i: int| 0 <= i < created.len() ==> !existing.contains(#[trigger] created[i])
        }),
{
    let recent = one_or_none(folder_to_create(registry.recent, existing.contains(registry.recent)));
    let favorites = one_or_none(
        folder_to_create(registry.favorites, existing.contains(registry.favorites)),
    );
    let trash = one_or_none(folder_to_create(registry.trash, existing.contains(registry.trash)));
    let created = recent + favorites + trash;
    if !existing.contains(registry.recent) {
        assert(created[0] == registry.recent);
        assert(created.contains(registry.recent));
    }
    if !existing.contains(registry.favorites) {
        assert(created[recent.len() as int] == registry.favorites);
        assert(created.contains(registry.favorites));
    }
    if !existing.contains(registry.trash) {
        assert(created[(recent.len() + favorites.len()) as int] == registry.trash);
        assert(created.contains(registry.trash));
    }
}

/// Asking the explorer twice for the same folder, with the same answer from
/// the operating system both times, leaves after the second request exactly
/// what the first one left.
pub proof fn lemma_explorer_navigate_idempotent(
    explorer: FileExplorerView,
    label: Seq<char>,
    target: Seq<char>,
    read: DirectoryReadView,
)
    ensures
        explorer.navigated(label, target, read).navigated(label, target, read)
            == explorer.navigated(label, target, read),
{
}

} // verus!
