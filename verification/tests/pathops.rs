use cargo_sysroot::locator::trim;
use cargo_sysroot::pathops::{file_name, file_stem, has_extension, join, parent, prefix_before};

#[test]
fn join_appends_separator_and_component() {
    assert_eq!(join("a/b", "c"), "a/b/c");
    assert_eq!(join("", "c"), "/c");
    assert_eq!(join("a", ""), "a/");
}

#[test]
fn file_name_is_after_last_separator() {
    assert_eq!(file_name("a/b/c.json"), Some("c.json".to_string()));
    assert_eq!(file_name("plain"), Some("plain".to_string()));
    assert_eq!(file_name("dir/"), None);
    assert_eq!(file_name(""), None);
}

#[test]
fn file_stem_strips_the_extension() {
    assert_eq!(file_stem("a/b/c.json"), Some("c".to_string()));
    assert_eq!(file_stem("x86_64-unknown-linux-gnu"), Some("x86_64-unknown-linux-gnu".to_string()));
    assert_eq!(file_stem("a/archive.tar.gz"), Some("archive.tar".to_string()));
    assert_eq!(file_stem("a/.hidden"), Some(".hidden".to_string()));
    assert_eq!(file_stem("a/"), None);
}

#[test]
fn has_extension_needs_a_dot_after_the_first_character() {
    assert!(has_extension("target.json"));
    assert!(has_extension("a/b.c"));
    assert!(!has_extension("x86_64-unknown-linux-gnu"));
    assert!(!has_extension("a/.hidden"));
    assert!(!has_extension(""));
}

#[test]
fn parent_is_before_last_separator() {
    assert_eq!(parent("a/b/c"), Some("a/b".to_string()));
    assert_eq!(parent("/lib"), Some("".to_string()));
    assert_eq!(parent("plain"), None);
}

#[test]
fn prefix_before_cuts_at_the_first_occurrence() {
    assert_eq!(prefix_before("nightly-2024-01-01-x86_64", '-'), "nightly");
    assert_eq!(prefix_before("stable", '-'), "stable");
    assert_eq!(prefix_before("-lead", '-'), "");
}

#[test]
fn trim_removes_surrounding_whitespace() {
    assert_eq!(trim("  /a/b \n"), "/a/b");
    assert_eq!(trim("/a/b"), "/a/b");
    assert_eq!(trim(" \t\r\n "), "");
    assert_eq!(trim("a b"), "a b");
}
