//! Paths joined the way each host joins them.

use std::path::Path;

use spotibot::path::{is_away, join, Host};

#[test]
fn joining_keeps_absolute_paths() {
    assert_eq!(join(Host::Unix, "/a", "b"), "/a/b");
    assert_eq!(join(Host::Unix, "/a/", "b"), "/a/b");
    assert_eq!(join(Host::Unix, "/a", "/b"), "/b");
    assert_eq!(join(Host::Windows, "C:\\a", "D:\\b"), "D:\\b");
    assert_eq!(join(Host::Windows, "C:\\a", "\\\\host\\share\\b"), "\\\\host\\share\\b");
}

#[test]
fn unix_paths_join_as_the_system_joins_them() {
    for base in ["", "/", "/a", "/a/", "a", "C:\\a", "\\\\?\\C:\\a"] {
        for path in ["", ".", "..", "b", "b/c", "/b", "\\b", "C:b"] {
            let expected = Path::new(base).join(path);
            assert_eq!(join(Host::Unix, base, path), expected.to_str().unwrap());
        }
    }
}

#[test]
fn windows_paths_keep_the_drive() {
    for (base, path, expected) in [
        ("C:\\a", "b", "C:\\a\\b"),
        ("C:\\a\\", "b", "C:\\a\\b"),
        ("C:/a/", "b", "C:/a/b"),
        ("C:", "b", "C:b"),
        ("", "b", "b"),
        ("C:\\a", "", "C:\\a\\"),
        ("C:\\a", "\\b", "C:\\b"),
        ("C:\\a", "/b", "C:/b"),
        ("C:\\a", "D:b", "D:b"),
        ("\\\\host\\share\\a", "\\b", "\\\\host\\share\\b"),
        ("\\\\host\\share", "b", "\\\\host\\share\\b"),
        ("a", "b/c", "a\\b/c"),
    ] {
        assert_eq!(join(Host::Windows, base, path), expected);
    }
}

#[test]
fn verbatim_paths_are_walked() {
    for (base, path, expected) in [
        ("\\\\?\\C:\\a", "b", "\\\\?\\C:\\a\\b"),
        ("\\\\?\\C:\\a", "b/c", "\\\\?\\C:\\a\\b\\c"),
        ("\\\\?\\C:\\a", ".", "\\\\?\\C:\\a"),
        ("\\\\?\\C:\\a\\b", "../c", "\\\\?\\C:\\a\\c"),
        ("\\\\?\\C:\\a", "..", "\\\\?\\C:\\"),
        ("\\\\?\\C:\\", "..", "\\\\?\\C:\\"),
        ("\\\\?\\C:\\a", "/b", "\\\\?\\C:\\b"),
        ("\\\\?\\C:", "b", "\\\\?\\C:\\b"),
        ("\\\\?\\UNC\\host\\share\\a", "\\b", "\\\\?\\UNC\\host\\share\\b"),
    ] {
        assert_eq!(join(Host::Windows, base, path), expected);
    }
}

#[test]
fn only_drives_are_here() {
    for (path, away) in [
        ("C:\\a", false),
        ("\\\\?\\C:\\a", false),
        ("\\\\?\\C:", false),
        ("\\a", false),
        ("\\\\a", false),
        ("\\\\host\\share", true),
        ("\\\\?\\C:a", true),
        ("\\\\.\\COM1", true),
        ("\\\\?\\UNC\\host\\share", true),
    ] {
        assert_eq!(is_away(path), away, "{path}");
    }
}
