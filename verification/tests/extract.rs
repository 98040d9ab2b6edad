use std::io::Cursor;
use std::io::Write;

use mod_manager::archive::RawEntry;
use mod_manager::extract::{are_plain_names, is_plain_name, join_path, plan_entry, plan_extraction};
use mod_manager::extract::{ArchiveError, ExtractionPlan, PlannedEntry};
use mod_manager::text::{contains_char, last_char, same_text};
use zip::write::FileOptions;
use zip::CompressionMethod;
use zip::ZipWriter;

fn stored() -> FileOptions {
    FileOptions::default().compression_method(CompressionMethod::Stored)
}

fn deflated() -> FileOptions {
    FileOptions::default().compression_method(CompressionMethod::Deflated)
}

fn archive_of(files: &[(&str, &[u8])], options: FileOptions) -> Vec<u8> {
    let mut writer = ZipWriter::new(Cursor::new(Vec::new()));
    for (name, content) in files {
        if name.ends_with('/') {
            writer.add_directory(*name, options).unwrap();
        } else {
            writer.start_file(*name, options).unwrap();
            writer.write_all(content).unwrap();
        }
    }
    writer.finish().unwrap().into_inner()
}

fn file(path: &str, parent: &str, content: &[u8]) -> PlannedEntry {
    PlannedEntry::File { path: path.to_string(), parent: parent.to_string(), content: content.to_vec() }
}

fn directory(path: &str) -> PlannedEntry {
    PlannedEntry::Directory { path: path.to_string() }
}

fn names(list: &[&str]) -> Vec<String> {
    list.iter().map(|name| name.to_string()).collect()
}

fn position_of(haystack: &[u8], needle: &[u8]) -> usize {
    haystack.windows(needle.len()).position(|window| window == needle).unwrap()
}

#[test]
fn archive_round_trip() {
    let bytes = archive_of(&[("a.txt", b"hello"), ("dir/b.txt", b"world")], deflated());
    let plan = plan_extraction(bytes, "/installDir");
    assert_eq!(
        plan,
        ExtractionPlan {
            entries: vec![
                file("/installDir/a.txt", "/installDir", b"hello"),
                file("/installDir/dir/b.txt", "/installDir/dir", b"world"),
            ],
            failure: None,
        }
    );
}

#[test]
fn stored_entries_are_read_too() {
    let bytes = archive_of(&[("plugin.dll", &[0, 159, 146, 150])], stored());
    let plan = plan_extraction(bytes, "/g");
    assert_eq!(plan.entries, vec![file("/g/plugin.dll", "/g", &[0, 159, 146, 150])]);
    assert_eq!(plan.failure, None);
}

#[test]
fn large_entry_is_inflated_in_full() {
    let content: Vec<u8> = (0..200_000u32).map(|i| (i % 7) as u8).collect();
    let bytes = archive_of(&[("big.bin", &content)], deflated());
    assert!(bytes.len() < content.len());
    let plan = plan_extraction(bytes, "out");
    assert_eq!(plan.entries, vec![file("out/big.bin", "out", &content)]);
}

#[test]
fn parent_directories_in_the_name_are_dropped() {
    let bytes = archive_of(&[("../../evil.txt", b"x")], stored());
    let plan = plan_extraction(bytes, "/installDir");
    assert_eq!(plan.entries, vec![file("/installDir/evil.txt", "/installDir", b"x")]);
    assert_eq!(plan.failure, None);
}

#[test]
fn absolute_name_is_made_relative() {
    let bytes = archive_of(&[("/etc/passwd", b"x")], stored());
    let plan = plan_extraction(bytes, "/installDir");
    assert_eq!(plan.entries, vec![file("/installDir/etc/passwd", "/installDir/etc", b"x")]);
}

#[test]
fn inner_parent_directories_are_dropped() {
    let bytes = archive_of(&[("a/../../b/./c.txt", b"x")], stored());
    let plan = plan_extraction(bytes, "/i");
    assert_eq!(plan.entries, vec![file("/i/a/b/c.txt", "/i/a/b", b"x")]);
}

#[test]
fn no_planned_path_leaves_the_install_directory() {
    let bytes = archive_of(
        &[("../up.txt", b"1"), ("/abs.txt", b"2"), ("x/../../y.txt", b"3"), ("..\\..\\win.txt", b"4"), ("../d/", b"")],
        stored(),
    );
    let plan = plan_extraction(bytes, "/safe/dir");
    assert_eq!(plan.failure, None);
    assert_eq!(plan.entries.len(), 5);
    for entry in &plan.entries {
        let path = match entry {
            PlannedEntry::Directory { path } => path,
            PlannedEntry::File { path, parent, .. } => {
                assert!(parent == "/safe/dir" || parent.starts_with("/safe/dir/"));
                path
            }
        };
        assert!(path.starts_with("/safe/dir/"));
        assert!(path.split('/').all(|part| part != ".." && part != "."));
        assert!(!path.contains('\\'));
    }
}

#[test]
fn directory_entry_creates_a_directory() {
    let bytes = archive_of(&[("dir/", b""), ("dir/sub/", b""), ("dir/sub/f.txt", b"f")], stored());
    let plan = plan_extraction(bytes, "/i");
    assert_eq!(
        plan,
        ExtractionPlan {
            entries: vec![directory("/i/dir"), directory("/i/dir/sub"), file("/i/dir/sub/f.txt", "/i/dir/sub", b"f")],
            failure: None,
        }
    );
}

#[test]
fn empty_archive_gives_an_empty_plan() {
    let bytes = archive_of(&[], stored());
    assert_eq!(plan_extraction(bytes, "/i"), ExtractionPlan { entries: vec![], failure: None });
}

#[test]
fn bytes_that_are_no_archive_are_refused() {
    let plan = plan_extraction(b"this is not a zip file".to_vec(), "/i");
    assert_eq!(plan, ExtractionPlan { entries: vec![], failure: Some(ArchiveError::NotAnArchive) });
    let empty = plan_extraction(Vec::new(), "/i");
    assert_eq!(empty, ExtractionPlan { entries: vec![], failure: Some(ArchiveError::NotAnArchive) });
}

#[test]
fn truncated_archive_is_refused() {
    let mut bytes = archive_of(&[("a.txt", b"hello")], stored());
    bytes.truncate(bytes.len() - 10);
    assert_eq!(plan_extraction(bytes, "/i").failure, Some(ArchiveError::NotAnArchive));
}

#[test]
fn damaged_entry_stops_the_plan_after_the_entries_before_it() {
    let mut bytes = archive_of(&[("a.txt", b"first"), ("b.txt", b"second"), ("c.txt", b"third")], stored());
    let at = position_of(&bytes, b"second");
    bytes[at] = b'S';
    let plan = plan_extraction(bytes, "/i");
    assert_eq!(
        plan,
        ExtractionPlan {
            entries: vec![file("/i/a.txt", "/i", b"first")],
            failure: Some(ArchiveError::UnreadableEntry { index: 1 }),
        }
    );
}

#[test]
fn entry_that_needs_a_password_is_unreadable() {
    let mut bytes = archive_of(&[("a.txt", b"hello")], stored());
    let central = position_of(&bytes, &[0x50, 0x4b, 0x01, 0x02]);
    bytes[central + 8] |= 1;
    let plan = plan_extraction(bytes, "/i");
    assert_eq!(plan, ExtractionPlan { entries: vec![], failure: Some(ArchiveError::UnreadableEntry { index: 0 }) });
}

#[test]
fn entry_marked_as_protected_only_in_its_extra_data_is_unreadable() {
    let mut writer = ZipWriter::new(Cursor::new(Vec::new()));
    writer.start_file("before.txt", stored()).unwrap();
    writer.write_all(b"kept").unwrap();
    writer.start_file_with_extra_data("a.txt", stored()).unwrap();
    writer.write_all(&[0xef, 0xbe, 7, 0, 2, 0, 0x41, 0x45, 3, 0, 0]).unwrap();
    writer.end_extra_data().unwrap();
    writer.write_all(b"hello").unwrap();
    let mut bytes = writer.finish().unwrap().into_inner();
    let mut patched = 0;
    for at in 0..bytes.len() - 3 {
        if bytes[at..at + 4] == [0xef, 0xbe, 7, 0] {
            bytes[at] = 0x01;
            bytes[at + 1] = 0x99;
            patched += 1;
        }
    }
    assert_eq!(patched, 2);
    let plan = plan_extraction(bytes, "/i");
    assert_eq!(
        plan,
        ExtractionPlan {
            entries: vec![file("/i/before.txt", "/i", b"kept")],
            failure: Some(ArchiveError::UnreadableEntry { index: 1 }),
        }
    );
}

#[test]
fn other_compression_methods_are_read() {
    let content: Vec<u8> = (0..50_000u32).map(|i| (i % 11) as u8).collect();
    let bzip2 = FileOptions::default().compression_method(CompressionMethod::Bzip2);
    let zstd = FileOptions::default().compression_method(CompressionMethod::Zstd);
    let mut writer = ZipWriter::new(Cursor::new(Vec::new()));
    writer.start_file("b.bin", bzip2).unwrap();
    writer.write_all(&content).unwrap();
    writer.start_file("z.bin", zstd).unwrap();
    writer.write_all(&content).unwrap();
    let bytes = writer.finish().unwrap().into_inner();
    let plan = plan_extraction(bytes, "/i");
    assert_eq!(
        plan,
        ExtractionPlan {
            entries: vec![file("/i/b.bin", "/i", &content), file("/i/z.bin", "/i", &content)],
            failure: None,
        }
    );
}

#[test]
fn entry_with_an_unknown_compression_method_is_unreadable() {
    let mut bytes = archive_of(&[("a.txt", b"hello")], stored());
    let central = position_of(&bytes, &[0x50, 0x4b, 0x01, 0x02]);
    bytes[central + 10] = 14;
    let plan = plan_extraction(bytes, "/i");
    assert_eq!(plan, ExtractionPlan { entries: vec![], failure: Some(ArchiveError::UnreadableEntry { index: 0 }) });
}

#[test]
fn file_entry_without_a_name_is_refused() {
    let bytes = archive_of(&[("ok.txt", b"1"), ("..", b"2"), ("late.txt", b"3")], stored());
    let plan = plan_extraction(bytes, "/i");
    assert_eq!(
        plan,
        ExtractionPlan {
            entries: vec![file("/i/ok.txt", "/i", b"1")],
            failure: Some(ArchiveError::UnsafePath { index: 1 }),
        }
    );
}

#[test]
fn directory_entry_without_a_name_is_the_install_directory() {
    let bytes = archive_of(&[("../", b"")], stored());
    assert_eq!(plan_extraction(bytes, "/i").entries, vec![directory("/i")]);
}

#[test]
fn name_ends_at_the_first_nul() {
    let bytes = archive_of(&[("a.txt\0../../b", b"1")], stored());
    assert_eq!(plan_extraction(bytes, "/i").entries, vec![file("/i/a.txt", "/i", b"1")]);
}

#[test]
fn entry_is_planned_from_its_parts() {
    let entry = RawEntry { components: names(&["dir", "b.txt"]), is_dir: false, content: b"world".to_vec() };
    assert_eq!(plan_entry("/i", 4, entry), Ok(file("/i/dir/b.txt", "/i/dir", b"world")));
    let dir = RawEntry { components: names(&["dir"]), is_dir: true, content: b"ignored".to_vec() };
    assert_eq!(plan_entry("/i", 0, dir), Ok(directory("/i/dir")));
    let root = RawEntry { components: vec![], is_dir: true, content: vec![] };
    assert_eq!(plan_entry("/i", 0, root), Ok(directory("/i")));
}

#[test]
fn entry_with_an_unsafe_component_is_refused() {
    for bad in ["..", ".", "", "a/b", "a\\b", "a\0b", "/", "\\"] {
        let entry = RawEntry { components: names(&["ok", bad, "f.txt"]), is_dir: false, content: vec![1] };
        assert_eq!(plan_entry("/i", 7, entry), Err(ArchiveError::UnsafePath { index: 7 }));
        let dir = RawEntry { components: names(&[bad]), is_dir: true, content: vec![] };
        assert_eq!(plan_entry("/i", 2, dir), Err(ArchiveError::UnsafePath { index: 2 }));
    }
    let nameless = RawEntry { components: vec![], is_dir: false, content: vec![1] };
    assert_eq!(plan_entry("/i", 3, nameless), Err(ArchiveError::UnsafePath { index: 3 }));
}

#[test]
fn plain_names() {
    for good in ["a", "a.txt", "...", ".hidden", "a..b", "C:", "with space", "é"] {
        assert!(is_plain_name(good));
    }
    for bad in ["", ".", "..", "a/b", "/a", "a/", "a\\b", "\\", "a\0", "\0"] {
        assert!(!is_plain_name(bad));
    }
    assert!(are_plain_names(&names(&[])));
    assert!(are_plain_names(&names(&["a", "b.txt"])));
    assert!(!are_plain_names(&names(&["a", "..", "b.txt"])));
    assert!(!are_plain_names(&names(&["a", "b.txt", ""])));
}

#[test]
fn paths_are_joined_with_one_slash() {
    let parts = names(&["a", "b", "c.txt"]);
    assert_eq!(join_path("/i", &parts), "/i/a/b/c.txt");
    assert_eq!(join_path("/i", &parts[..2]), "/i/a/b");
    assert_eq!(join_path("/i", &parts[..0]), "/i");
    assert_eq!(join_path("/i/", &parts[..1]), "/i/a");
    assert_eq!(join_path("/", &parts[..2]), "/a/b");
    assert_eq!(join_path("", &parts[..2]), "a/b");
    assert_eq!(join_path("", &parts[..0]), "");
    assert_eq!(join_path("rel/dir", &parts[..1]), "rel/dir/a");
}

#[test]
fn joining_copes_with_empty_and_slashed_names() {
    assert_eq!(join_path("/i", &names(&["", "a"])), "/i/a");
    assert_eq!(join_path("/i", &names(&["a/", "b"])), "/i/a/b");
    assert_eq!(join_path("", &names(&["", "a"])), "a");
}

#[test]
fn install_directory_with_trailing_slash_or_none() {
    let bytes = archive_of(&[("d/f.txt", b"1")], stored());
    assert_eq!(plan_extraction(bytes.clone(), "/i/").entries, vec![file("/i/d/f.txt", "/i/d", b"1")]);
    assert_eq!(plan_extraction(bytes.clone(), "").entries, vec![file("d/f.txt", "d", b"1")]);
    let top = archive_of(&[("f.txt", b"1")], stored());
    assert_eq!(plan_extraction(top, "").entries, vec![file("f.txt", "", b"1")]);
}

#[test]
fn text_helpers() {
    assert!(same_text("abc", "abc"));
    assert!(!same_text("abc", "abd"));
    assert!(!same_text("abc", "ab"));
    assert!(same_text("", ""));
    assert!(contains_char("a/b", '/'));
    assert!(!contains_char("ab", '/'));
    assert!(!contains_char("", 'a'));
    assert_eq!(last_char("abc"), Some('c'));
    assert_eq!(last_char("é"), Some('é'));
    assert_eq!(last_char(""), None);
}
