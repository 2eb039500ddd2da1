use sha2::Digest;
use std::cmp::Ordering;
use svld::entry::{compare_paths, tree_entry, TreeEntry};
use svld::fingerprint::{calculate_hash, fingerprint_entries, fingerprint_file, hash_input_bytes, TreeScan};
use svld::size::calculate_directory_size;

fn entry(path: &str, size: u64, modified: u64, is_dir: bool) -> TreeEntry {
    TreeEntry { relative_path: path.to_string(), size, modified, is_dir }
}

fn sample_tree() -> Vec<TreeEntry> {
    vec![
        entry("a.txt", 10, 1000, false),
        entry("sub", 0, 1500, true),
        entry("sub/b.txt", 20, 2000, false),
    ]
}

fn sha_hex(bytes: &[u8]) -> String {
    let mut out = String::new();
    for b in sha2::Sha256::digest(bytes).iter() {
        out.push_str(&format!("{:02x}", b));
    }
    out
}

fn expected_input(entries: &[(&str, u64, u64, u8)]) -> Vec<u8> {
    let mut v = Vec::new();
    for (p, size, modified, dir) in entries {
        v.extend_from_slice(p.as_bytes());
        v.extend_from_slice(&size.to_le_bytes());
        v.extend_from_slice(&modified.to_le_bytes());
        v.push(*dir);
    }
    v
}

#[test]
fn walk_order_does_not_change_digest() {
    let mut reversed = sample_tree();
    reversed.reverse();
    let rotated = vec![
        entry("sub/b.txt", 20, 2000, false),
        entry("a.txt", 10, 1000, false),
        entry("sub", 0, 1500, true),
    ];
    let d1 = fingerprint_entries(sample_tree());
    let d2 = fingerprint_entries(reversed);
    let d3 = fingerprint_entries(rotated);
    assert_eq!(d1, d2);
    assert_eq!(d1, d3);
    assert_eq!(d1, fingerprint_entries(sample_tree()));
}

#[test]
fn sorted_hash_input_is_fixed() {
    let bytes = hash_input_bytes(&sample_tree());
    let expected = expected_input(&[
        ("a.txt", 10, 1000, 0),
        ("sub", 0, 1500, 1),
        ("sub/b.txt", 20, 2000, 0),
    ]);
    assert_eq!(bytes, expected);
    let mut shuffled = sample_tree();
    shuffled.swap(0, 2);
    assert_eq!(fingerprint_entries(shuffled), sha_hex(&expected));
}

#[test]
fn digest_is_64_lowercase_hex() {
    let d = fingerprint_entries(sample_tree());
    assert_eq!(d.len(), 64);
    assert!(d.chars().all(|c| c.is_ascii_digit() || ('a'..='f').contains(&c)));
}

#[test]
fn empty_directory_has_the_empty_input_digest() {
    let d = fingerprint_entries(Vec::new());
    assert_eq!(d, "e3b0c44298fc1c149afbf4c8996fb92427ae41e4649b934ca495991b7852b855");
}

#[test]
fn size_change_changes_digest() {
    let base = fingerprint_entries(sample_tree());
    let mut t = sample_tree();
    t[0].size = 11;
    assert_ne!(fingerprint_entries(t), base);
}

#[test]
fn mtime_change_changes_digest() {
    let base = fingerprint_entries(sample_tree());
    let mut t = sample_tree();
    t[2].modified = 2001;
    assert_ne!(fingerprint_entries(t), base);
}

#[test]
fn rename_changes_digest() {
    let base = fingerprint_entries(sample_tree());
    let mut t = sample_tree();
    t[0].relative_path = "c.txt".to_string();
    assert_ne!(fingerprint_entries(t), base);
}

#[test]
fn empty_subdirectory_changes_digest() {
    let base = fingerprint_entries(sample_tree());
    let mut t = sample_tree();
    t.push(entry("empty", 0, 1500, true));
    let added = fingerprint_entries(t);
    assert_ne!(added, base);
    let mut flag = sample_tree();
    flag[1].is_dir = false;
    assert_ne!(fingerprint_entries(flag), base);
}

#[test]
fn single_file_digest() {
    let name = "save.dat".to_string();
    let mut input = b"save.dat".to_vec();
    input.extend_from_slice(&42u64.to_le_bytes());
    let without_time = sha_hex(&input);
    input.extend_from_slice(&7u64.to_le_bytes());
    let with_time = sha_hex(&input);
    assert_eq!(fingerprint_file(&name, 42, Some(7)), with_time);
    assert_eq!(fingerprint_file(&name, 42, None), without_time);
    let scan = TreeScan::File { name, size: 42, modified: Some(7) };
    assert_eq!(calculate_hash(scan), with_time);
}

#[test]
fn calculate_hash_of_directory() {
    let scan = TreeScan::Directory { entries: sample_tree() };
    assert_eq!(calculate_hash(scan), fingerprint_entries(sample_tree()));
}

#[test]
fn paths_compare_byte_wise() {
    let a = entry("a.txt", 0, 0, false);
    let sub = entry("sub", 0, 0, true);
    let sub_b = entry("sub/b.txt", 0, 0, false);
    let upper = entry("Z", 0, 0, false);
    assert_eq!(compare_paths(&a, &sub), Ordering::Less);
    assert_eq!(compare_paths(&sub_b, &sub), Ordering::Greater);
    assert_eq!(compare_paths(&sub, &sub), Ordering::Equal);
    assert_eq!(compare_paths(&upper, &a), Ordering::Less);
}

#[test]
fn walker_entries_use_forward_slashes() {
    let e = tree_entry("sub\\b.txt", 20, 2000, false).unwrap();
    assert_eq!(e.relative_path, "sub/b.txt");
    assert_eq!(e.size, 20);
    assert!(tree_entry("", 0, 0, true).is_none());
}

#[test]
fn directory_size_counts_files_only() {
    let scan = TreeScan::Directory { entries: sample_tree() };
    assert_eq!(calculate_directory_size(&scan), Some(30));
    let file = TreeScan::File { name: "x".to_string(), size: 5, modified: None };
    assert_eq!(calculate_directory_size(&file), Some(5));
    let empty = TreeScan::Directory { entries: Vec::new() };
    assert_eq!(calculate_directory_size(&empty), Some(0));
}

#[test]
fn directory_size_overflow_is_none() {
    let scan = TreeScan::Directory {
        entries: vec![entry("a", u64::MAX, 0, false), entry("b", 1, 0, false)],
    };
    assert_eq!(calculate_directory_size(&scan), None);
    let dirs_only = TreeScan::Directory {
        entries: vec![entry("a", u64::MAX, 0, true), entry("b", u64::MAX, 0, false)],
    };
    assert_eq!(calculate_directory_size(&dirs_only), Some(u64::MAX));
}

#[test]
fn walker_records_directories_with_size_zero() {
    let d = tree_entry("sub", 4096, 1500, true).unwrap();
    assert_eq!(d.size, 0);
    assert!(d.is_dir);
    let f = tree_entry("a.txt", 10, 1000, false).unwrap();
    assert_eq!(f.size, 10);
    let walked = vec![
        tree_entry("sub\\b.txt", 20, 2000, false).unwrap(),
        tree_entry("sub", 4096, 1500, true).unwrap(),
        tree_entry("a.txt", 10, 1000, false).unwrap(),
    ];
    assert_eq!(fingerprint_entries(walked), fingerprint_entries(sample_tree()));
}

#[test]
fn shared_paths_do_not_make_order_matter() {
    let one = vec![entry("x", 1, 5, false), entry("x", 2, 5, false), entry("a", 0, 0, true)];
    let two = vec![entry("a", 0, 0, true), entry("x", 2, 5, false), entry("x", 1, 5, false)];
    assert_eq!(fingerprint_entries(one), fingerprint_entries(two));
}

#[test]
fn calculate_hash_gives_lowercase_hex_of_64() {
    for scan in [
        TreeScan::Directory { entries: sample_tree() },
        TreeScan::File { name: "f".to_string(), size: 1, modified: None },
    ] {
        let d = calculate_hash(scan);
        assert_eq!(d.len(), 64);
        assert!(d.chars().all(|c| c.is_ascii_digit() || ('a'..='f').contains(&c)));
    }
}
