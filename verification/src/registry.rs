//! The well-known folders of the sidebar and where they lie on this system.

use vstd::prelude::*;
use crate::platform::{join, joined, Platform};
use crate::text::text_of;

verus! {

/// The well-known places of the sidebar.
#[derive(Clone, Copy, Debug, PartialEq, Eq, Structural)]
pub enum WellKnown {
    Recent,
    Favorites,
    Home,
    Documents,
    Downloads,
    Music,
    Pictures,
    Videos,
    Trash,
}

impl WellKnown {
    /// The label under which the place is shown.
    pub open spec fn label_text(self) -> Seq<char> {
        match self {
            WellKnown::Recent => "Recent"@,
            WellKnown::Favorites => "Favorites"@,
            WellKnown::Home => "Home"@,
            WellKnown::Documents => "Documents"@,
            WellKnown::Downloads => "Downloads"@,
            WellKnown::Music => "Music"@,
            WellKnown::Pictures => "Pictures"@,
            WellKnown::Videos => "Videos"@,
            WellKnown::Trash => "Trash"@,
        }
    }

    /// The places in the order in which the sidebar shows them.
    pub open spec fn sidebar_order() -> Seq<WellKnown> {
        seq![
            WellKnown::Recent,
            WellKnown::Favorites,
            WellKnown::Home,
            WellKnown::Documents,
            WellKnown::Downloads,
            WellKnown::Music,
            WellKnown::Pictures,
            WellKnown::Videos,
            WellKnown::Trash,
        ]
    }

    /// The label under which the place is shown.
    pub fn label(self) -> (label: &'static str)
        ensures
            label@ == self.label_text(),
    {
        match self {
            WellKnown::Recent => "Recent",
            WellKnown::Favorites => "Favorites",
            WellKnown::Home => "Home",
            WellKnown::Documents => "Documents",
            WellKnown::Downloads => "Downloads",
            WellKnown::Music => "Music",
            WellKnown::Pictures => "Pictures",
            WellKnown::Videos => "Videos",
            WellKnown::Trash => "Trash",
        }
    }
}

/// A well-known place and where it lies.
pub struct KnownLocation {
    /// The label under which the place is shown.
    pub label: String,
    /// The absolute path of the place.
    pub path: String,
}

/// A directory that the operating system must be able to name.
#[derive(Clone, Copy, Debug, PartialEq, Eq, Structural)]
pub enum RequiredDirectory {
    Home,
    Data,
    Documents,
    Downloads,
    Music,
    Pictures,
    Videos,
}

/// The environment does not say where a required directory lies. There is
/// no way to go on from this.
#[derive(Clone, Copy, Debug, PartialEq, Eq, Structural)]
pub struct EnvironmentError {
    /// The directory that could not be determined.
    pub missing: RequiredDirectory,
}

impl EnvironmentError {
    /// The words of the error.
    pub open spec fn message_text(self) -> Seq<char> {
        match self.missing {
            RequiredDirectory::Home => "failed to determine home directory"@,
            RequiredDirectory::Data => "Failed to determine data directory"@,
            RequiredDirectory::Documents => "Failed to determine documents directory"@,
            RequiredDirectory::Downloads => "Failed to determine downloads directory"@,
            RequiredDirectory::Music => "Failed to determine music directory"@,
            RequiredDirectory::Pictures => "Failed to determine pictures directory"@,
            RequiredDirectory::Videos => "Failed to determine videos directory"@,
        }
    }

    /// The words of the error, for whoever has to report it.
    pub fn message(&self) -> (message: &'static str)
        ensures
            message@ == self.message_text(),
    {
        match self.missing {
            RequiredDirectory::Home => "failed to determine home directory",
            RequiredDirectory::Data => "Failed to determine data directory",
            RequiredDirectory::Documents => "Failed to determine documents directory",
            RequiredDirectory::Downloads => "Failed to determine downloads directory",
            RequiredDirectory::Music => "Failed to determine music directory",
            RequiredDirectory::Pictures => "Failed to determine pictures directory",
            RequiredDirectory::Videos => "Failed to determine videos directory",
        }
    }
}

/// The per-user directories as the operating system reports them, `None`
/// where it cannot tell.
pub struct UserDirectories {
    /// The user's home directory.
    pub home: Option<String>,
    /// The directory for application data.
    pub data: Option<String>,
    /// The directory for documents.
    pub documents: Option<String>,
    /// The directory for downloaded files.
    pub downloads: Option<String>,
    /// The directory for audio files.
    pub music: Option<String>,
    /// The directory for pictures.
    pub pictures: Option<String>,
    /// The directory for videos.
    pub videos: Option<String>,
}

/// `UserDirectories` as a mathematical value.
pub struct UserDirectoriesView {
    pub home: Option<Seq<char>>,
    pub data: Option<Seq<char>>,
    pub documents: Option<Seq<char>>,
    pub downloads: Option<Seq<char>>,
    pub music: Option<Seq<char>>,
    pub pictures: Option<Seq<char>>,
    pub videos: Option<Seq<char>>,
}

impl View for UserDirectories {
    type V = UserDirectoriesView;

    open spec fn view(&self) -> UserDirectoriesView {
        UserDirectoriesView {
            home: text_of(self.home),
            data: text_of(self.data),
            documents: text_of(self.documents),
            downloads: text_of(self.downloads),
            music: text_of(self.music),
            pictures: text_of(self.pictures),
            videos: text_of(self.videos),
        }
    }
}

impl UserDirectoriesView {
    /// The directory that stands as the user's home on `platform`: the home
    /// directory itself on Unix, the application-data directory on Windows.
    pub open spec fn base(self, platform: Platform) -> Option<Seq<char>> {
        match platform {
            Platform::Unix => self.home,
            Platform::Windows => self.data,
        }
    }

    /// The first required directory that is unknown, if any is: the base
    /// first, then documents, downloads, music, pictures and videos.
    pub open spec fn first_missing(self, platform: Platform) -> Option<RequiredDirectory> {
        if self.base(platform) is None {
            match platform {
                Platform::Unix => Some(RequiredDirectory::Home),
                Platform::Windows => Some(RequiredDirectory::Data),
            }
        } else if self.documents is None {
            Some(RequiredDirectory::Documents)
        } else if self.downloads is None {
            Some(RequiredDirectory::Downloads)
        } else if self.music is None {
            Some(RequiredDirectory::Music)
        } else if self.pictures is None {
            Some(RequiredDirectory::Pictures)
        } else if self.videos is None {
            Some(RequiredDirectory::Videos)
        } else {
            None
        }
    }
}

/// Where the application keeps its own folders, beneath `base`.
pub open spec fn local_root(platform: Platform, base: Seq<char>) -> Seq<char> {
    match platform {
        Platform::Unix => joined(platform, base, ".local"@),
        Platform::Windows => base,
    }
}

/// Where the folder of discarded files lies, given the base directory.
pub open spec fn trash_folder(platform: Platform, base: Seq<char>) -> Seq<char> {
    match platform {
        Platform::Unix => joined(platform, base, ".local/share/Trash/files"@),
        Platform::Windows => joined(platform, local_root(platform, base), "Trash"@),
    }
}

/// Where the folder of recently used files lies, given the base directory.
pub open spec fn recent_folder(platform: Platform, base: Seq<char>) -> Seq<char> {
    match platform {
        Platform::Unix => joined(
            platform,
            local_root(platform, base),
            "share/file_explorer/recent"@,
        ),
        Platform::Windows => joined(
            platform,
            local_root(platform, base),
            "file_explorer/recent"@,
        ),
    }
}

/// Where the folder of favorites lies, given the base directory.
pub open spec fn favorites_folder(platform: Platform, base: Seq<char>) -> Seq<char> {
    match platform {
        Platform::Unix => joined(
            platform,
            local_root(platform, base),
            "share/file_explorer/favorites"@,
        ),
        Platform::Windows => joined(
            platform,
            local_root(platform, base),
            "file_explorer/favorites"@,
        ),
    }
}

/// A `PathRegistry` as a mathematical value.
pub struct PathRegistryView {
    pub platform: Platform,
    pub home: Seq<char>,
    pub documents: Seq<char>,
    pub downloads: Seq<char>,
    pub music: Seq<char>,
    pub pictures: Seq<char>,
    pub videos: Seq<char>,
    pub trash: Seq<char>,
    pub recent: Seq<char>,
    pub favorites: Seq<char>,
}

impl PathRegistryView {
    /// Where the place `which` lies.
    pub open spec fn path_of(self, which: WellKnown) -> Seq<char> {
        match which {
            WellKnown::Recent => self.recent,
            WellKnown::Favorites => self.favorites,
            WellKnown::Home => self.home,
            WellKnown::Documents => self.documents,
            WellKnown::Downloads => self.downloads,
            WellKnown::Music => self.music,
            WellKnown::Pictures => self.pictures,
            WellKnown::Videos => self.videos,
            WellKnown::Trash => self.trash,
        }
    }

    /// The three folders that the application makes for itself lie where
    /// the platform's layout puts them beneath the home directory.
    pub open spec fn well_formed(self) -> bool {
        &&& self.trash == trash_folder(self.platform, self.home)
        &&& self.recent == recent_folder(self.platform, self.home)
        &&& self.favorites == favorites_folder(self.platform, self.home)
    }

    /// The folders that must exist before they are first shown, in the
    /// order in which they are looked after.
    pub open spec fn synthesized(self) -> Seq<Seq<char>> {
        seq![self.recent, self.favorites, self.trash]
    }
}

/// The registry that follows from what the operating system reported, where
/// every required directory is known.
pub open spec fn resolved(platform: Platform, directories: UserDirectoriesView) -> PathRegistryView
    recommends
        directories.first_missing(platform) is None,
{
    let base = directories.base(platform)->0;
    PathRegistryView {
        platform,
        home: base,
        documents: directories.documents->0,
        downloads: directories.downloads->0,
        music: directories.music->0,
        pictures: directories.pictures->0,
        videos: directories.videos->0,
        trash: trash_folder(platform, base),
        recent: recent_folder(platform, base),
        favorites: favorites_folder(platform, base),
    }
}

/// Where each well-known place lies. It is made once and never changes.
pub struct PathRegistry {
    platform: Platform,
    home: String,
    documents: String,
    downloads: String,
    music: String,
    pictures: String,
    videos: String,
    trash: String,
    recent: String,
    favorites: String,
}

impl View for PathRegistry {
    type V = PathRegistryView;

    closed spec fn view(&self) -> PathRegistryView {
        PathRegistryView {
            platform: self.platform,
            home: self.home@,
            documents: self.documents@,
            downloads: self.downloads@,
            music: self.music@,
            pictures: self.pictures@,
            videos: self.videos@,
            trash: self.trash@,
            recent: self.recent@,
            favorites: self.favorites@,
        }
    }
}

impl PathRegistry {
    #[verifier::type_invariant]
    spec fn laid_out(self) -> bool {
        self@.well_formed()
    }

    /// Works out where every well-known place lies from what the operating
    /// system reported. Succeeds exactly when every required directory is
    /// known; otherwise names the first one that is not.
    pub fn resolve(platform: Platform, directories: &UserDirectories) -> (outcome: Result<
        PathRegistry,
        EnvironmentError,
    >)
        ensures
            match outcome {
                Ok(registry) => {
                    &&& directories@.first_missing(platform) is None
                    &&& registry@ == resolved(platform, directories@)
                    &&& registry@.well_formed()
                },
                Err(error) => directories@.first_missing(platform) == Some(error.missing),
            },
    {
        let base: &String = match platform {
            Platform::Unix => match &directories.home {
                Some(path) => path,
                None => {
                    return Err(EnvironmentError { missing: RequiredDirectory::Home });
                },
            },
            Platform::Windows => match &directories.data {
                Some(path) => path,
                None => {
                    return Err(EnvironmentError { missing: RequiredDirectory::Data });
                },
            },
        };
        let documents: &String = match &directories.documents {
            Some(path) => path,
            None => {
                return Err(EnvironmentError { missing: RequiredDirectory::Documents });
            },
        };
        let downloads: &String = match &directories.downloads {
            Some(path) => path,
            None => {
                return Err(EnvironmentError { missing: RequiredDirectory::Downloads });
            },
        };
        let music: &String = match &directories.music {
            Some(path) => path,
            None => {
                return Err(EnvironmentError { missing: RequiredDirectory::Music });
            },
        };
        let pictures: &String = match &directories.pictures {
            Some(path) => path,
            None => {
                return Err(EnvironmentError { missing: RequiredDirectory::Pictures });
            },
        };
        let videos: &String = match &directories.videos {
            Some(path) => path,
            None => {
                return Err(EnvironmentError { missing: RequiredDirectory::Videos });
            },
        };
        let local: String = match platform {
            Platform::Unix => join(platform, base.as_str(), ".local"),
            Platform::Windows => base.clone(),
        };
        let trash: String = match platform {
            Platform::Unix => join(platform, base.as_str(), ".local/share/Trash/files"),
            Platform::Windows => join(platform, local.as_str(), "Trash"),
        };
        let recent: String = match platform {
            Platform::Unix => join(platform, local.as_str(), "share/file_explorer/recent"),
            Platform::Windows => join(platform, local.as_str(), "file_explorer/recent"),
        };
        let favorites: String = match platform {
            Platform::Unix => join(platform, local.as_str(), "share/file_explorer/favorites"),
            Platform::Windows => join(platform, local.as_str(), "file_explorer/favorites"),
        };
        Ok(
            PathRegistry {
                platform,
                home: base.clone(),
                documents: documents.clone(),
                downloads: downloads.clone(),
                music: music.clone(),
                pictures: pictures.clone(),
                videos: videos.clone(),
                trash,
                recent,
                favorites,
            },
        )
    }

    /// The conventions under which the paths were built.
    pub fn platform(&self) -> (platform: Platform)
        ensures
            platform == self@.platform,
            self@.well_formed(),
    {
        proof {
            use_type_invariant(self);
        }
        self.platform
    }

    /// Where the place `which` lies.
    pub fn path(&self, which: WellKnown) -> (path: &String)
        ensures
            path@ == self@.path_of(which),
            self@.well_formed(),
    {
        proof {
            use_type_invariant(self);
        }
        match which {
            WellKnown::Recent => &self.recent,
            WellKnown::Favorites => &self.favorites,
            WellKnown::Home => &self.home,
            WellKnown::Documents => &self.documents,
            WellKnown::Downloads => &self.downloads,
            WellKnown::Music => &self.music,
            WellKnown::Pictures => &self.pictures,
            WellKnown::Videos => &self.videos,
            WellKnown::Trash => &self.trash,
        }
    }

    /// The place `which` with its label and its path.
    pub fn location(&self, which: WellKnown) -> (location: KnownLocation)
        ensures
            location.label@ == which.label_text(),
            location.path@ == self@.path_of(which),
    {
        KnownLocation { label: String::from_str(which.label()), path: self.path(which).clone() }
    }

    /// All well-known places in the order in which the sidebar shows them.
    pub fn locations(&self) -> (locations: Vec<KnownLocation>)
        ensures
            locations.len() == WellKnown::sidebar_order().len(),
            forall|i: int|
                0 <= i < locations.len() ==> {
                    &&& (#[trigger] locations[i]).label@ == WellKnown::sidebar_order()[i].label_text()
                    &&& locations[i].path@ == self@.path_of(WellKnown::sidebar_order()[i])
                },
    {
        let mut locations: Vec<KnownLocation> = Vec::new();
        locations.push(self.location(WellKnown::Recent));
        locations.push(self.location(WellKnown::Favorites));
        locations.push(self.location(WellKnown::Home));
        locations.push(self.location(WellKnown::Documents));
        locations.push(self.location(WellKnown::Downloads));
        locations.push(self.location(WellKnown::Music));
        locations.push(self.location(WellKnown::Pictures));
        locations.push(self.location(WellKnown::Videos));
        locations.push(self.location(WellKnown::Trash));
        locations
    }
}

} // verus!
