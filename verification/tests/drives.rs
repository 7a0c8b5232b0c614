use file_explorer::drives::{enumerate, logical_drive_strings, trim_trailing_nuls, MountProbe};

fn probe(path: &str, accessible: bool) -> MountProbe {
    MountProbe { path: path.to_string(), accessible }
}

fn paths(probes: &Vec<MountProbe>) -> Vec<String> {
    let mut paths = Vec::new();
    for root in enumerate(probes) {
        paths.push(root.path);
    }
    paths
}

fn units(text: &str) -> Vec<u16> {
    text.encode_utf16().collect()
}

#[test]
fn enumerate_leaves_out_a_volume_whose_probe_failed() {
    let probes = vec![probe("/", true), probe("/mnt/locked", false), probe("/boot", true)];
    assert_eq!(paths(&probes), vec!["/".to_string(), "/boot".to_string()]);
}

#[test]
fn enumerate_keeps_the_order_of_the_system() {
    let probes = vec![probe("/z", true), probe("/a", true), probe("/m", true)];
    assert_eq!(paths(&probes), vec!["/z".to_string(), "/a".to_string(), "/m".to_string()]);
}

#[test]
fn enumerate_of_no_volumes_is_empty() {
    assert!(paths(&vec![]).is_empty());
}

#[test]
fn enumerate_of_only_failed_probes_is_empty() {
    let probes = vec![probe("/mnt/a", false), probe("/mnt/b", false)];
    assert!(paths(&probes).is_empty());
}

#[test]
fn enumerate_keeps_a_volume_mounted_twice_as_often_as_it_was_reached() {
    let probes = vec![probe("/data", true), probe("/data", false), probe("/data", true)];
    assert_eq!(paths(&probes), vec!["/data".to_string(), "/data".to_string()]);
}

#[test]
fn trim_trailing_nuls_takes_off_only_the_end() {
    assert_eq!(trim_trailing_nuls("C:\\\0"), "C:\\");
    assert_eq!(trim_trailing_nuls("C:\\\0\0\0"), "C:\\");
    assert_eq!(trim_trailing_nuls("a\0b\0"), "a\0b");
    assert_eq!(trim_trailing_nuls("\0a"), "\0a");
    assert_eq!(trim_trailing_nuls("plain"), "plain");
}

#[test]
fn trim_trailing_nuls_of_nothing_but_nuls_is_empty() {
    assert_eq!(trim_trailing_nuls("\0\0\0\0"), "");
    assert_eq!(trim_trailing_nuls(""), "");
}

#[test]
fn logical_drive_strings_reads_one_drive_per_four_units() {
    let mut buffer = units("C:\\\0D:\\\0");
    buffer.resize(256, 0);
    let drives = logical_drive_strings(&buffer, 8);
    assert_eq!(drives, vec!["C:\\".to_string(), "D:\\".to_string()]);
}

#[test]
fn logical_drive_strings_of_length_zero_is_empty() {
    let buffer = vec![0u16; 256];
    assert!(logical_drive_strings(&buffer, 0).is_empty());
}

#[test]
fn logical_drive_strings_reads_a_run_that_begins_before_the_length() {
    let mut buffer = units("C:\\\0E:\\\0");
    buffer.resize(16, 0);
    let drives = logical_drive_strings(&buffer, 5);
    assert_eq!(drives, vec!["C:\\".to_string(), "E:\\".to_string()]);
    let drives = logical_drive_strings(&buffer, 4);
    assert_eq!(drives, vec!["C:\\".to_string()]);
}

#[test]
fn logical_drive_strings_stops_where_the_buffer_ends() {
    let buffer = units("C:\\\0D:\\\0Z:");
    let drives = logical_drive_strings(&buffer, 300);
    assert_eq!(drives, vec!["C:\\".to_string(), "D:\\".to_string()]);
    assert!(logical_drive_strings(&units("C:\\"), 3).is_empty());
}

#[test]
fn logical_drive_strings_replaces_what_is_not_utf16() {
    let buffer: Vec<u16> = vec![0xD800, 0x003A, 0x005C, 0x0000];
    let drives = logical_drive_strings(&buffer, 4);
    assert_eq!(drives, vec!["\u{FFFD}:\\".to_string()]);
}

#[test]
fn logical_drive_strings_yields_an_empty_text_for_a_run_of_nuls() {
    let buffer: Vec<u16> = vec![0; 8];
    let drives = logical_drive_strings(&buffer, 8);
    assert_eq!(drives, vec![String::new(), String::new()]);
}
