use std::collections::HashSet;

use binstalk_downloader::extract::{accept_entry, TarEntryType};
use binstalk_downloader::extracted_files::{ExtractedFiles, ExtractedFilesEntry};
use binstalk_downloader::error::{DownloadError, IoCause, IoErrorKind};
use binstalk_downloader::path::{parse_path, resolve_within_root};

fn names(v: &[&str]) -> HashSet<String> {
    v.iter().map(|s| s.to_string()).collect()
}

fn dir_names(files: &ExtractedFiles, path: &str) -> Option<HashSet<String>> {
    files.get_dir(path).map(|v| v.iter().cloned().collect())
}

#[test]
fn single_file_archive_ledger() {
    let mut files = ExtractedFiles::new();
    files.add_file("cargo-binstall");

    assert!(files.has_file("cargo-binstall"));
    assert!(!files.has_file("1234"));
    assert_eq!(dir_names(&files, "."), Some(names(&["cargo-binstall"])));
    assert_eq!(files.get_entry("cargo-binstall"), Some(&ExtractedFilesEntry::File));
    assert!(files.get_entry("1234").is_none());
}

fn cargo_watch_ledger() -> ExtractedFiles {
    let mut files = ExtractedFiles::new();
    let dir = "cargo-watch-v8.4.0-aarch64-unknown-linux-gnu";
    files.add_dir(dir);
    for f in ["README.md", "LICENSE", "cargo-watch", "cargo-watch.1"] {
        files.add_file(&format!("{dir}/{f}"));
    }
    files.add_dir(&format!("{dir}/completions"));
    files.add_file(&format!("{dir}/completions/zsh"));
    files
}

#[test]
fn nested_archive_ledger() {
    let files = cargo_watch_ledger();
    let dir = "cargo-watch-v8.4.0-aarch64-unknown-linux-gnu";

    assert_eq!(dir_names(&files, "."), Some(names(&[dir])));
    assert_eq!(
        dir_names(&files, dir),
        Some(names(&["README.md", "LICENSE", "completions", "cargo-watch", "cargo-watch.1"]))
    );
    assert_eq!(dir_names(&files, &format!("{dir}/completions")), Some(names(&["zsh"])));

    assert!(files.has_file(&format!("{dir}/cargo-watch")));
    assert!(files.has_file(&format!("{dir}/cargo-watch.1")));
    assert!(files.has_file(&format!("{dir}/LICENSE")));
    assert!(files.has_file(&format!("{dir}/README.md")));

    assert!(!files.has_file(&format!("{dir}/completions")));
    assert!(!files.has_file(&format!("{dir}/asdfcqwe")));

    assert!(files.has_file(&format!("{dir}/completions/zsh")));
}

#[test]
fn file_and_directory_are_exclusive() {
    let files = cargo_watch_ledger();
    let dir = "cargo-watch-v8.4.0-aarch64-unknown-linux-gnu";
    for p in [".", dir, "cargo-watch-v8.4.0-aarch64-unknown-linux-gnu/completions"] {
        assert!(files.get_dir(p).is_some());
        assert!(!files.has_file(p));
    }
    let zsh = format!("{dir}/completions/zsh");
    assert!(files.has_file(&zsh));
    assert!(files.get_dir(&zsh).is_none());
    assert!(!files.has_file("missing"));
    assert!(files.get_dir("missing").is_none());
}

#[test]
fn every_recorded_path_has_its_parent_directory() {
    let files = cargo_watch_ledger();
    let dir = "cargo-watch-v8.4.0-aarch64-unknown-linux-gnu";
    for (parent, child) in [
        (".", dir.to_string()),
        (dir, "completions".to_string()),
        ("cargo-watch-v8.4.0-aarch64-unknown-linux-gnu/completions", "zsh".to_string()),
    ] {
        assert!(dir_names(&files, parent).unwrap().contains(&child));
    }
}

#[test]
fn zip_and_tgz_of_same_payload_give_same_ledger() {
    let dir = "sccache-v0.3.3-x86_64-pc-windows-msvc";
    // A tar lists the directory first; a zip may list only the files.
    let mut from_tgz = ExtractedFiles::new();
    from_tgz.add_dir(&format!("{dir}/"));
    for f in ["README.md", "LICENSE", "sccache.exe"] {
        from_tgz.add_file(&format!("{dir}/{f}"));
    }
    let mut from_zip = ExtractedFiles::new();
    for f in ["sccache.exe", "LICENSE", "README.md"] {
        from_zip.add_file(&format!("{dir}/{f}"));
    }
    for files in [&from_tgz, &from_zip] {
        assert_eq!(dir_names(files, "."), Some(names(&[dir])));
        assert_eq!(dir_names(files, dir), Some(names(&["README.md", "LICENSE", "sccache.exe"])));
    }
}

#[test]
fn file_replaces_empty_directory_and_directory_replaces_file() {
    let mut files = ExtractedFiles::new();
    files.add_dir("a/b");
    files.add_file("a/b");
    assert!(files.has_file("a/b"));
    files.add_dir("a/b");
    assert_eq!(dir_names(&files, "a/b"), Some(HashSet::new()));
    assert_eq!(dir_names(&files, "a"), Some(names(&["b"])));
}

#[test]
fn root_directory_is_recorded() {
    let mut files = ExtractedFiles::new();
    assert!(files.get_dir(".").is_none());
    files.add_dir(".");
    assert_eq!(dir_names(&files, "."), Some(HashSet::new()));
    assert_eq!(dir_names(&files, ""), Some(HashSet::new()));
}

#[test]
fn parse_path_drops_empty_and_current_components() {
    assert_eq!(parse_path("a//b/./c/"), vec!["a", "b", "c"]);
    assert!(parse_path("").is_empty());
    assert!(parse_path("./.").is_empty());
    assert_eq!(parse_path("..a/.b"), vec!["..a", ".b"]);
}

#[test]
fn containment_resolves_parent_references() {
    assert_eq!(resolve_within_root("a/../b/c"), Some(vec!["b".to_string(), "c".to_string()]));
    assert_eq!(resolve_within_root("a/.."), Some(vec![]));
    assert_eq!(resolve_within_root("../x"), None);
    assert_eq!(resolve_within_root("a/../../x"), None);
    assert_eq!(resolve_within_root("/etc/passwd"), None);
}

#[test]
fn accept_entry_records_files_and_directories() {
    let mut files = ExtractedFiles::new();
    let r = accept_entry(&mut files, TarEntryType::Directory, "pkg/");
    assert_eq!(r, Ok(Some(vec!["pkg".to_string()])));
    let r = accept_entry(&mut files, TarEntryType::Regular, "pkg/bin/../README.md");
    assert_eq!(r, Ok(Some(vec!["pkg".to_string(), "README.md".to_string()])));
    assert!(files.has_file("pkg/README.md"));
    assert_eq!(dir_names(&files, "pkg"), Some(names(&["README.md"])));
}

#[test]
fn accept_entry_passes_over_links() {
    let mut files = ExtractedFiles::new();
    assert_eq!(accept_entry(&mut files, TarEntryType::Symlink, "link"), Ok(None));
    assert_eq!(accept_entry(&mut files, TarEntryType::Other, "../fifo"), Ok(None));
    assert!(files.get_entry("link").is_none());
    assert!(files.get_dir(".").is_none());
}

#[test]
fn accept_entry_rejects_escaping_paths() {
    let mut files = ExtractedFiles::new();
    for (kind, path) in [
        (TarEntryType::Regular, "../evil"),
        (TarEntryType::Directory, "/abs"),
        (TarEntryType::Regular, "."),
    ] {
        match accept_entry(&mut files, kind, path) {
            Err(DownloadError::Io(e)) => {
                assert_eq!(e.kind, IoErrorKind::InvalidData);
                assert_eq!(e.cause, IoCause::Bare);
            }
            other => panic!("unexpected {other:?}"),
        }
    }
    assert!(files.get_dir(".").is_none());
}
