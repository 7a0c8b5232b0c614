use file_explorer::platform::{join, Platform};

#[test]
fn join_writes_one_separator_between_base_and_name() {
    assert_eq!(join(Platform::Unix, "/home/ada", "Documents"), "/home/ada/Documents");
}

#[test]
fn join_adds_no_separator_after_a_trailing_one() {
    assert_eq!(join(Platform::Unix, "/", "etc"), "/etc");
    assert_eq!(join(Platform::Unix, "/mnt/usb/", "photos"), "/mnt/usb/photos");
}

#[test]
fn join_beneath_an_empty_base_is_the_name_alone() {
    assert_eq!(join(Platform::Unix, "", "notes.txt"), "notes.txt");
    assert_eq!(join(Platform::Windows, "", "notes.txt"), "notes.txt");
}

#[test]
fn join_with_an_empty_name_ends_in_a_separator() {
    assert_eq!(join(Platform::Unix, "/home/ada", ""), "/home/ada/");
    assert_eq!(join(Platform::Unix, "/home/ada/", ""), "/home/ada/");
}

#[test]
fn join_keeps_a_relative_path_of_several_components_as_it_stands() {
    assert_eq!(
        join(Platform::Unix, "/home/ada", ".local/share/Trash/files"),
        "/home/ada/.local/share/Trash/files"
    );
}

#[test]
fn join_on_windows_writes_a_backslash() {
    assert_eq!(
        join(Platform::Windows, "C:\\Users\\ada", "Documents"),
        "C:\\Users\\ada\\Documents"
    );
}

#[test]
fn join_on_windows_accepts_either_separator_at_the_end_of_the_base() {
    assert_eq!(join(Platform::Windows, "C:\\", "Users"), "C:\\Users");
    assert_eq!(join(Platform::Windows, "C:/data/", "Users"), "C:/data/Users");
}

#[test]
fn join_on_unix_treats_a_backslash_as_an_ordinary_character() {
    assert_eq!(join(Platform::Unix, "/odd\\", "name"), "/odd\\/name");
}

#[test]
fn join_handles_names_beyond_ascii() {
    assert_eq!(join(Platform::Unix, "/home/zoë", "été"), "/home/zoë/été");
    assert_eq!(join(Platform::Unix, "/données/", "日本語"), "/données/日本語");
}

#[test]
fn separators_of_each_platform() {
    assert!(Platform::Unix.is_separator('/'));
    assert!(!Platform::Unix.is_separator('\\'));
    assert!(Platform::Windows.is_separator('/'));
    assert!(Platform::Windows.is_separator('\\'));
    assert!(!Platform::Windows.is_separator(':'));
    assert_eq!(Platform::Unix.main_separator_str(), "/");
    assert_eq!(Platform::Windows.main_separator_str(), "\\");
}
