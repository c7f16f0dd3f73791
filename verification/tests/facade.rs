use fs_facade::directory::{read_directory, DirEntry, RawEntry};
use fs_facade::greet;
use fs_facade::launcher::{open_file_invocation, open_file_outcome, Platform};

#[test]
fn greet_formats_name() {
    assert_eq!(greet("World"), "Hello, World! You've been greeted from Rust!");
}

#[test]
fn greet_keeps_empty_name() {
    assert_eq!(greet(""), "Hello, ! You've been greeted from Rust!");
}

#[test]
fn listing_one_dir_and_one_file() {
    let raw = vec![
        RawEntry::Found {
            name: "sub".to_string(),
            path: "/d/sub".to_string(),
            is_dir: true,
        },
        RawEntry::Found {
            name: "a.txt".to_string(),
            path: "/d/a.txt".to_string(),
            is_dir: false,
        },
    ];
    let out: Vec<DirEntry> = read_directory(Ok(raw)).unwrap();
    assert_eq!(out.len(), 2);
    assert_eq!(out[0].name, "sub");
    assert_eq!(out[0].path, "/d/sub");
    assert!(out[0].is_dir);
    assert_eq!(out[1].name, "a.txt");
    assert_eq!(out[1].path, "/d/a.txt");
    assert!(!out[1].is_dir);
}

#[test]
fn listing_empty_directory() {
    let out = read_directory(Ok(Vec::new())).unwrap();
    assert!(out.is_empty());
}

#[test]
fn listing_missing_directory_fails() {
    let r = read_directory(Err("No such file or directory (os error 2)".to_string()));
    let m = r.err().unwrap();
    assert_eq!(m, "Failed to read directory: No such file or directory (os error 2)");
    assert!(!m.is_empty());
}

#[test]
fn listing_discards_entries_before_a_failed_step() {
    let raw = vec![
        RawEntry::Found {
            name: "kept.txt".to_string(),
            path: "/d/kept.txt".to_string(),
            is_dir: false,
        },
        RawEntry::EntryError {
            error: "stale handle".to_string(),
        },
    ];
    let r = read_directory(Ok(raw));
    assert_eq!(r.err().unwrap(), "Failed to read entry: stale handle");
}

#[test]
fn listing_reports_a_metadata_failure() {
    let raw = vec![RawEntry::MetadataError {
        error: "permission denied".to_string(),
    }];
    let r = read_directory(Ok(raw));
    assert_eq!(r.err().unwrap(), "Failed to read metadata: permission denied");
}

#[test]
fn listing_reports_the_earliest_failed_step() {
    let raw = vec![
        RawEntry::EntryError {
            error: "first".to_string(),
        },
        RawEntry::MetadataError {
            error: "second".to_string(),
        },
    ];
    let r = read_directory(Ok(raw));
    assert_eq!(r.err().unwrap(), "Failed to read entry: first");
}

#[test]
fn windows_invocation_uses_shell_start() {
    let inv = open_file_invocation(Platform::Windows, "C:\\notes\\a.txt");
    assert_eq!(inv.program, "cmd");
    assert_eq!(inv.args.len(), 4);
    assert_eq!(inv.args[0], "/C");
    assert_eq!(inv.args[1], "start");
    assert_eq!(inv.args[2], "");
    assert_eq!(inv.args[3], "C:\\notes\\a.txt");
}

#[test]
fn macos_invocation_uses_open() {
    let inv = open_file_invocation(Platform::MacOs, "/notes/a.txt");
    assert_eq!(inv.program, "open");
    assert_eq!(inv.args.len(), 1);
    assert_eq!(inv.args[0], "/notes/a.txt");
}

#[test]
fn linux_invocation_uses_xdg_open() {
    let inv = open_file_invocation(Platform::Linux, "/notes/a.txt");
    assert_eq!(inv.program, "xdg-open");
    assert_eq!(inv.args.len(), 1);
    assert_eq!(inv.args[0], "/notes/a.txt");
}

#[test]
fn open_succeeds_when_spawn_succeeds() {
    assert!(open_file_outcome(Ok(())).is_ok());
}

#[test]
fn open_reports_a_spawn_failure() {
    let r = open_file_outcome(Err("No such file or directory (os error 2)".to_string()));
    let m = r.err().unwrap();
    assert_eq!(m, "Failed to open file: No such file or directory (os error 2)");
    assert!(!m.is_empty());
}
