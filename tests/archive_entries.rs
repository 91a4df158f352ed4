use std::io::Write;

use nullstrap::archive::{count_written, plan_entry, EntryAction, PackageArchive, RawEntry};
use nullstrap::error::InstallError;
use nullstrap::packages::Os;
use zip::write::SimpleFileOptions;
use zip::{CompressionMethod, ZipWriter};

fn build_zip() -> Vec<u8> {
    let mut w = ZipWriter::new(std::io::Cursor::new(Vec::new()));
    let opts = SimpleFileOptions::default()
        .compression_method(CompressionMethod::Stored)
        .unix_permissions(0o755);
    w.add_directory("Shaders/", opts).unwrap();
    w.start_file("Shaders/a.bin", opts).unwrap();
    w.write_all(b"abc").unwrap();
    w.start_file("../escape.txt", opts).unwrap();
    w.write_all(b"x").unwrap();
    w.add_symlink("Shaders/link", "  a.bin \n", opts).unwrap();
    w.finish().unwrap().into_inner()
}

fn strings(v: &[&str]) -> Vec<String> {
    v.iter().map(|s| s.to_string()).collect()
}

#[test]
fn archive_is_planned_entry_by_entry() {
    let mut archive = PackageArchive::open(build_zip()).unwrap();
    assert_eq!(archive.len(), 4);
    assert!(matches!(archive.plan(0, "shaders", Os::Linux), EntryAction::Skip));
    match archive.plan(1, "shaders", Os::Linux) {
        EntryAction::WriteFile { path, data, mode } => {
            assert_eq!(path, strings(&["shaders", "a.bin"]));
            assert_eq!(data, b"abc".to_vec());
            assert_eq!(mode.map(|m| m & 0o777), Some(0o755));
        }
        _ => panic!("expected a file"),
    }
    assert!(matches!(archive.plan(2, "shaders", Os::Linux), EntryAction::Skip));
    match archive.plan(3, "shaders", Os::Linux) {
        EntryAction::Symlink { path, link_to, .. } => {
            assert_eq!(path, strings(&["shaders", "link"]));
            assert_eq!(link_to, "a.bin");
        }
        _ => panic!("expected a link"),
    }
    match archive.plan(3, "shaders", Os::Windows) {
        EntryAction::WriteFile { mode, .. } => assert_eq!(mode, None),
        _ => panic!("expected a file on windows"),
    }
    assert!(matches!(archive.plan(9, "shaders", Os::Linux), EntryAction::Unreadable));
}

#[test]
fn corrupt_archive_is_reported() {
    assert!(matches!(PackageArchive::open(b"not a zip".to_vec()), Err(InstallError::ArchiveCorrupt)));
    assert!(matches!(PackageArchive::open(Vec::new()), Err(InstallError::ArchiveCorrupt)));
}

#[test]
fn link_with_invalid_text_is_skipped() {
    let entry = RawEntry { name: "lib/link".to_string(), unix_mode: Some(0o120777), data: vec![0xff, 0xfe] };
    assert!(matches!(plan_entry(entry, "", Os::Mac), EntryAction::Skip));
    let plain = RawEntry { name: "lib/file".to_string(), unix_mode: Some(0o100644), data: vec![1] };
    match plan_entry(plain, "", Os::Mac) {
        EntryAction::WriteFile { path, mode, .. } => {
            assert_eq!(path, strings(&["lib", "file"]));
            assert_eq!(mode, Some(0o100644));
        }
        _ => panic!("expected a file"),
    }
}

#[test]
fn written_entries_are_counted() {
    assert_eq!(count_written(&vec![true, false, true, true]), 3);
    assert_eq!(count_written(&Vec::new()), 0);
}

#[test]
fn links_leaving_the_installation_are_skipped() {
    let link = |name: &str, to: &str| RawEntry {
        name: name.to_string(),
        unix_mode: Some(0o120777),
        data: to.as_bytes().to_vec(),
    };
    assert!(matches!(plan_entry(link("a/link", "../../etc"), "", Os::Linux), EntryAction::Skip));
    assert!(matches!(plan_entry(link("a/link", "/etc/passwd"), "", Os::Linux), EntryAction::Skip));
    assert!(matches!(plan_entry(link("link", ".."), "", Os::Linux), EntryAction::Skip));
    match plan_entry(link("a/link", "../b/c"), "", Os::Linux) {
        EntryAction::Symlink { link_to, .. } => assert_eq!(link_to, "../b/c"),
        _ => panic!("expected a link inside the installation"),
    }
    match plan_entry(link("Versions/Current", "A"), "RobloxPlayer.app", Os::Mac) {
        EntryAction::Symlink { path, .. } => {
            assert_eq!(path, strings(&["RobloxPlayer.app", "Versions", "Current"]))
        }
        _ => panic!("expected a link"),
    }
}

#[test]
fn link_targets_are_trimmed() {
    assert_eq!(nullstrap::text::trimmed(" \t a b \u{3000}\n"), "a b");
    assert_eq!(nullstrap::text::trimmed("   "), "");
}
