use std::collections::{BTreeMap, BTreeSet};
use std::io::Write;

use flasher_core::archive::{is_directory_entry, plan_entry, plan_extraction, ExtractOp, ExtractionPlan};

fn package_with(method: zip::CompressionMethod, entries: &[(&str, Option<&[u8]>)]) -> Vec<u8> {
    let options = zip::write::FileOptions::default().compression_method(method);
    let mut writer = zip::ZipWriter::new(std::io::Cursor::new(Vec::new()));
    for (name, data) in entries {
        match data {
            Some(bytes) => {
                writer.start_file(*name, options).unwrap();
                writer.write_all(bytes).unwrap();
            }
            None => {
                writer.add_directory(*name, options).unwrap();
            }
        }
    }
    writer.finish().unwrap().into_inner()
}

fn package(entries: &[(&str, Option<&[u8]>)]) -> Vec<u8> {
    package_with(zip::CompressionMethod::Deflated, entries)
}

fn file(name: &str, data: &[u8]) -> ExtractOp {
    ExtractOp::WriteFile { name: name.to_string(), data: data.to_vec() }
}

fn dir(name: &str) -> ExtractOp {
    ExtractOp::MakeDir { name: name.to_string() }
}

/// A directory tree in memory, changed by the steps of a plan as a disk would be.
#[derive(Debug, Clone, PartialEq, Eq, Default)]
struct Tree {
    dirs: BTreeSet<String>,
    files: BTreeMap<String, Vec<u8>>,
}

fn add_parents(tree: &mut Tree, name: &str) {
    for (at, c) in name.char_indices() {
        if c == '/' {
            tree.dirs.insert(name[..=at].to_string());
        }
    }
}

fn perform(tree: &mut Tree, plan: &ExtractionPlan) {
    for op in &plan.ops {
        match op {
            ExtractOp::MakeDir { name } => add_parents(tree, name),
            ExtractOp::WriteFile { name, data } => {
                add_parents(tree, name);
                tree.files.insert(name.clone(), data.clone());
            }
        }
    }
}

#[test]
fn nested_file_keeps_its_path_and_bytes() {
    let plan = plan_extraction(package(&[("a/b/c.bin", Some(&[1, 2, 3, 4][..]))]));
    assert_eq!(plan.fault, None);
    assert_eq!(plan.ops, vec![file("a/b/c.bin", &[1, 2, 3, 4])]);
    let mut tree = Tree::default();
    perform(&mut tree, &plan);
    assert_eq!(tree.files.get("a/b/c.bin"), Some(&vec![1, 2, 3, 4]));
    assert!(tree.dirs.contains("a/") && tree.dirs.contains("a/b/"));
}

#[test]
fn entries_come_in_archive_order() {
    let big: Vec<u8> = (0..20_000u32).map(|i| (i % 7) as u8).collect();
    let bytes = package(&[
        ("firmware.elf", Some(&big[..])),
        ("docs/", None),
        ("docs/readme.txt", Some(&b"hello"[..])),
        ("empty.bin", Some(&[][..])),
    ]);
    let plan = plan_extraction(bytes);
    assert_eq!(plan.fault, None);
    assert_eq!(
        plan.ops,
        vec![file("firmware.elf", &big), dir("docs/"), file("docs/readme.txt", b"hello"), file("empty.bin", &[])]
    );
}

#[test]
fn directory_entry_creates_a_directory_and_no_file() {
    let plan = plan_extraction(package(&[("only/", None)]));
    assert_eq!(plan.fault, None);
    assert_eq!(plan.ops, vec![dir("only/")]);
    let mut tree = Tree::default();
    perform(&mut tree, &plan);
    assert!(tree.dirs.contains("only/"));
    assert!(tree.files.is_empty());
}

#[test]
fn empty_archive_has_an_empty_plan() {
    let plan = plan_extraction(package(&[]));
    assert_eq!(plan.ops, Vec::<ExtractOp>::new());
    assert_eq!(plan.fault, None);
}

#[test]
fn extracting_twice_gives_the_same_tree() {
    let bytes = package(&[
        ("firmware.elf", Some(&b"first"[..])),
        ("data/", None),
        ("data/table.bin", Some(&[9, 8, 7][..])),
        ("firmware.elf", Some(&b"second"[..])),
    ]);
    let mut tree = Tree::default();
    tree.files.insert("firmware.elf".to_string(), b"a much longer file from an earlier package".to_vec());
    tree.files.insert("stale.txt".to_string(), b"left alone".to_vec());
    perform(&mut tree, &plan_extraction(bytes.clone()));
    let once = tree.clone();
    perform(&mut tree, &plan_extraction(bytes));
    assert_eq!(tree, once);
    assert_eq!(tree.files.get("firmware.elf"), Some(&b"second".to_vec()));
    assert_eq!(tree.files.get("stale.txt"), Some(&b"left alone".to_vec()));
    assert_eq!(tree.files.get("data/table.bin"), Some(&vec![9, 8, 7]));
}

#[test]
fn names_are_taken_verbatim() {
    let plan = plan_extraction(package(&[("../outside.txt", Some(&b"x"[..])), ("/abs/file", Some(&b"y"[..]))]));
    assert_eq!(plan.fault, None);
    assert_eq!(plan.ops, vec![file("../outside.txt", b"x"), file("/abs/file", b"y")]);
}

#[test]
fn bytes_that_are_no_archive_give_no_step() {
    let plan = plan_extraction(b"not a zip".to_vec());
    assert_eq!(plan.ops, Vec::<ExtractOp>::new());
    assert_eq!(plan.fault, Some("invalid Zip archive: Invalid zip header".to_string()));
    let plan = plan_extraction(vec![0u8; 100]);
    assert_eq!(plan.ops, Vec::<ExtractOp>::new());
    assert_eq!(plan.fault, Some("invalid Zip archive: Could not find central directory end".to_string()));
    let plan = plan_extraction(Vec::new());
    assert_eq!(plan.fault, Some("invalid Zip archive: Invalid zip header".to_string()));
}

#[test]
fn plan_stops_at_the_first_unreadable_entry() {
    let mut bytes = package_with(
        zip::CompressionMethod::Stored,
        &[("a.txt", Some(&b"first"[..])), ("b.bin", Some(&b"second-payload"[..])), ("c.txt", Some(&b"third"[..]))],
    );
    let at = bytes.windows(14).position(|w| w == b"second-payload").unwrap();
    bytes[at] ^= 0xff;
    let plan = plan_extraction(bytes);
    assert_eq!(plan.ops, vec![file("a.txt", b"first")]);
    assert_eq!(plan.fault, Some("Invalid checksum".to_string()));
}

#[test]
fn entry_that_cannot_be_opened_stops_the_plan() {
    let mut bytes = package_with(
        zip::CompressionMethod::Stored,
        &[("a.txt", Some(&b"first"[..])), ("b.bin", Some(&b"second"[..]))],
    );
    let local = [0x50u8, 0x4b, 0x03, 0x04];
    let second = bytes.windows(4).enumerate().filter(|(_, w)| *w == local).map(|(i, _)| i).nth(1).unwrap();
    bytes[second] = 0;
    let plan = plan_extraction(bytes);
    assert_eq!(plan.ops, vec![file("a.txt", b"first")]);
    assert_eq!(plan.fault, Some("invalid Zip archive: Invalid local file header".to_string()));
}

#[test]
fn unreadable_directory_entry_data_is_never_asked_for() {
    let plan = plan_extraction(package(&[("d/", None), ("d/e/", None), ("d/e/f", Some(&b"z"[..]))]));
    assert_eq!(plan.ops, vec![dir("d/"), dir("d/e/"), file("d/e/f", b"z")]);
    assert_eq!(plan.fault, None);
}

#[test]
fn directory_names_end_in_a_slash() {
    assert!(is_directory_entry("a/"));
    assert!(is_directory_entry("a/b/"));
    assert!(is_directory_entry("/"));
    assert!(!is_directory_entry("a"));
    assert!(!is_directory_entry("a/b.bin"));
    assert!(!is_directory_entry(""));
    assert!(!is_directory_entry("a\\"));
}

#[test]
fn plan_entry_makes_one_step() {
    assert_eq!(plan_entry("lib/".to_string(), None), Ok(dir("lib/")));
    assert_eq!(plan_entry("lib/a.bin".to_string(), Some(Ok(vec![5, 6]))), Ok(file("lib/a.bin", &[5, 6])));
    assert_eq!(plan_entry("lib/a.bin".to_string(), Some(Err("Invalid checksum".to_string()))), Err("Invalid checksum".to_string()));
}
