use std::path::{Path, PathBuf};

use ya_runtime_dbg::paths::{file_name, join, parent};
use ya_runtime_dbg::text::{chars_of, contains_str, is_whitespace, trim};

const PATHS: &[&str] = &[
    "", "/", "//", "///", ".", "..", "...", "./", ".//", "./.", "././", "/.", "/./", "/..",
    "/../", "a", "a/", "a//", "a/.", "a/./", "a/./.", "a/..", "a/../", "./a", ".//a", "../a",
    "/a", "//a", "/a/", "/a/b", "/a/b/", "/a//b", "/a/./b", "/a/b/.", "/a/b/..", "a/b/c",
    ".a", ".a/b", "a.b/c.d", "foo.txt", "foo.txt/.", "foo.txt/.//", "/usr/lib/yagna",
    "/usr/lib/yagna/plugins/ya-runtime-vm/ya-runtime-vm", "./ya-runtime-vm", "x/./.",
    "é/ü", "/bin/bash",
];

#[test]
fn whitespace_matches_std_for_every_char() {
    for u in 0u32..0x110000 {
        if let Some(c) = char::from_u32(u) {
            assert_eq!(is_whitespace(c), c.is_whitespace(), "char {:#x}", u);
        }
    }
}

#[test]
fn trim_matches_std() {
    for s in &[
        "", " ", "  a  ", "\tab c\n", "abc", "\u{3000}x\u{2028}", "\u{85}\u{a0} y z \u{200a}",
        "\n\n", "x\n", "a\u{180e}",
    ] {
        assert_eq!(trim(s), s.trim(), "trimming {:?}", s);
    }
}

#[test]
fn chars_of_splits_into_chars() {
    assert_eq!(chars_of("aé▶"), vec!['a', 'é', '▶']);
    assert!(chars_of("").is_empty());
}

#[test]
fn contains_finds_substrings() {
    assert!(contains_str("broken pipe (os error 32)", "error 32"));
    assert!(!contains_str("error 3", "error 32"));
    assert!(contains_str("abc", ""));
    assert!(!contains_str("", "a"));
    assert!(contains_str("aaab", "aab"));
}

#[test]
fn file_name_matches_std() {
    for p in PATHS {
        let expected = Path::new(p).file_name().map(|n| n.to_str().unwrap().to_string());
        assert_eq!(file_name(p), expected, "file name of {:?}", p);
    }
}

#[test]
fn parent_matches_std() {
    for p in PATHS {
        let expected = Path::new(p).parent().map(|n| n.to_str().unwrap().to_string());
        assert_eq!(parent(p), expected, "parent of {:?}", p);
    }
}

#[test]
fn join_matches_std() {
    for base in PATHS {
        for rel in &["", "a", "/b", "c/d", ".", ".ya_dbg_history"] {
            let expected = PathBuf::from(base).join(rel).to_str().unwrap().to_string();
            assert_eq!(join(base, rel), expected, "join {:?} {:?}", base, rel);
        }
    }
}

#[test]
fn joined_plain_name_is_file_name_and_parent_undoes_join() {
    for base in &["", "/", ".", "..", "a", "/usr/lib", "a/..", "x.y"] {
        let joined = join(base, "yagna");
        assert_eq!(file_name(&joined), Some("yagna".to_string()));
        assert_eq!(parent(&joined), Some(base.to_string()));
    }
}

#[test]
fn trim_twice_is_trim_once() {
    for s in &[" a b ", "\t\n", "x", " \u{3000}y\u{3000} "] {
        let once = trim(s);
        assert_eq!(trim(&once), once);
    }
}
