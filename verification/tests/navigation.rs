use file_explorer::file_item::ChildRecord;
use file_explorer::lister::{DirectoryRead, ListError};
use file_explorer::navigation::NavigationState;
use file_explorer::platform::Platform;

fn child(name: &str, is_directory: bool) -> ChildRecord {
    ChildRecord { name: name.to_string(), is_directory, size_bytes: Some(12), modified_at: Some(0) }
}

fn readable(children: Vec<ChildRecord>) -> DirectoryRead {
    DirectoryRead { exists: true, is_directory: true, children: Some(children) }
}

fn names(state: &NavigationState) -> Vec<String> {
    let mut names = Vec::new();
    for entry in state.entries() {
        names.push(entry.name.clone());
    }
    names
}

#[test]
fn initial_state_shows_favorites_and_nothing_else() {
    let state = NavigationState::new(Platform::Unix);
    assert_eq!(state.current_label().as_str(), "Favorites");
    assert_eq!(state.current_path().as_str(), "");
    assert!(state.entries().is_empty());
    assert_eq!(state.platform(), Platform::Unix);
}

#[test]
fn navigate_to_readable_directory_replaces_everything() {
    let mut state = NavigationState::new(Platform::Unix);
    let read = readable(vec![child("notes.txt", false), child("photos", true)]);
    let outcome = state.navigate("Documents", "/home/ada/Documents", &read);
    assert_eq!(outcome, Ok(()));
    assert_eq!(state.current_label().as_str(), "Documents");
    assert_eq!(state.current_path().as_str(), "/home/ada/Documents");
    let entries = state.entries();
    assert_eq!(entries.len(), 2);
    assert_eq!(entries[0].name, "notes.txt");
    assert_eq!(entries[0].path, "/home/ada/Documents/notes.txt");
    assert!(!entries[0].is_folder);
    assert_eq!(entries[1].name, "photos");
    assert_eq!(entries[1].path, "/home/ada/Documents/photos");
    assert!(entries[1].is_folder);
}

#[test]
fn navigate_to_missing_path_reports_not_found_and_keeps_state() {
    let mut state = NavigationState::new(Platform::Unix);
    let read = DirectoryRead { exists: false, is_directory: false, children: None };
    let outcome = state.navigate("Gone", "/no/such/place", &read);
    assert_eq!(outcome, Err(ListError::NotFound));
    assert_eq!(state.current_label().as_str(), "Favorites");
    assert_eq!(state.current_path().as_str(), "");
    assert!(state.entries().is_empty());
}

#[test]
fn navigate_to_a_file_reports_not_a_directory_and_keeps_state() {
    let mut state = NavigationState::new(Platform::Unix);
    state.navigate("Home", "/home/ada", &readable(vec![child("tasks.txt", false)])).unwrap();
    let read = DirectoryRead { exists: true, is_directory: false, children: None };
    let outcome = state.navigate("tasks.txt", "/home/ada/tasks.txt", &read);
    assert_eq!(outcome, Err(ListError::NotADirectory));
    assert_eq!(state.current_label().as_str(), "Home");
    assert_eq!(state.current_path().as_str(), "/home/ada");
    assert_eq!(names(&state), vec!["tasks.txt".to_string()]);
}

#[test]
fn navigate_to_an_unreadable_directory_reports_permission_denied_and_keeps_state() {
    let mut state = NavigationState::new(Platform::Unix);
    state.navigate("Home", "/home/ada", &readable(vec![child("a", false), child("b", true)])).unwrap();
    let read = DirectoryRead { exists: true, is_directory: true, children: None };
    let outcome = state.navigate("Vault", "/root", &read);
    assert_eq!(outcome, Err(ListError::PermissionDenied));
    assert_eq!(state.current_label().as_str(), "Home");
    assert_eq!(state.current_path().as_str(), "/home/ada");
    assert_eq!(names(&state), vec!["a".to_string(), "b".to_string()]);
    assert_eq!(state.entries()[1].path, "/home/ada/b");
}

#[test]
fn navigate_discards_the_previous_entries() {
    let mut state = NavigationState::new(Platform::Unix);
    state.navigate("Home", "/home/ada", &readable(vec![child("a", false), child("b", true)])).unwrap();
    state.navigate("b", "/home/ada/b", &readable(vec![child("c", false)])).unwrap();
    assert_eq!(state.current_label().as_str(), "b");
    assert_eq!(state.current_path().as_str(), "/home/ada/b");
    assert_eq!(names(&state), vec!["c".to_string()]);
    assert_eq!(state.entries()[0].path, "/home/ada/b/c");
}

#[test]
fn navigate_twice_with_the_same_arguments_shows_the_same() {
    let mut state = NavigationState::new(Platform::Unix);
    let read = readable(vec![child("one", false), child("two", true), child("three", false)]);
    assert_eq!(state.navigate("Music", "/home/ada/Music", &read), Ok(()));
    let first_label = state.current_label().clone();
    let first_path = state.current_path().clone();
    let first_names = names(&state);
    let mut first_paths = Vec::new();
    for entry in state.entries() {
        first_paths.push(entry.path.clone());
    }
    assert_eq!(state.navigate("Music", "/home/ada/Music", &read), Ok(()));
    assert_eq!(state.current_label(), &first_label);
    assert_eq!(state.current_path(), &first_path);
    assert_eq!(names(&state), first_names);
    let mut second_paths = Vec::new();
    for entry in state.entries() {
        second_paths.push(entry.path.clone());
    }
    assert_eq!(second_paths, first_paths);
    assert_eq!(first_names, vec!["one".to_string(), "two".to_string(), "three".to_string()]);
}

#[test]
fn failing_twice_with_the_same_arguments_reports_the_same() {
    let mut state = NavigationState::new(Platform::Unix);
    let read = DirectoryRead { exists: false, is_directory: false, children: None };
    assert_eq!(state.navigate("x", "/x", &read), Err(ListError::NotFound));
    assert_eq!(state.navigate("x", "/x", &read), Err(ListError::NotFound));
    assert_eq!(state.current_label().as_str(), "Favorites");
}

#[test]
fn successor_leaves_the_state_in_force_untouched() {
    let state = NavigationState::new(Platform::Unix);
    let next = state.successor("Videos", "/home/ada/Videos", &readable(vec![child("clip.mp4", false)]));
    let next = match next {
        Ok(next) => next,
        Err(_) => panic!("a readable directory must be shown"),
    };
    assert_eq!(next.current_label().as_str(), "Videos");
    assert_eq!(next.current_path().as_str(), "/home/ada/Videos");
    assert_eq!(next.entries()[0].path, "/home/ada/Videos/clip.mp4");
    assert_eq!(state.current_label().as_str(), "Favorites");
    assert!(state.entries().is_empty());
}

#[test]
fn successor_of_a_failed_request_is_the_reason() {
    let state = NavigationState::new(Platform::Windows);
    let read = DirectoryRead { exists: true, is_directory: false, children: None };
    let reason = match state.successor("f", "C:\\f.txt", &read) {
        Ok(_) => panic!("a file cannot be shown as a folder"),
        Err(reason) => reason,
    };
    assert_eq!(reason, ListError::NotADirectory);
}

#[test]
fn navigate_to_an_empty_directory_shows_no_entries() {
    let mut state = NavigationState::new(Platform::Unix);
    state.navigate("Home", "/home/ada", &readable(vec![child("a", false)])).unwrap();
    assert_eq!(state.navigate("Trash", "/home/ada/.local/share/Trash/files", &readable(vec![])), Ok(()));
    assert_eq!(state.current_label().as_str(), "Trash");
    assert!(state.entries().is_empty());
}
