//! Detection and file-name classification on concrete roots.

use volta_migrate::detect::detect;
use volta_migrate::detect::VersionTag;
use volta_migrate::dir::RootDir;
use volta_migrate::names::has_load_stem;
use volta_migrate::names::is_obsolete;
use volta_migrate::names::marker_name;
use volta_migrate::names::stem_end;
use volta_migrate::names::str_eq;

fn root_with(files: &[&str], has_subdirs: bool) -> RootDir {
    RootDir {
        exists: true,
        files: files.iter().map(|f| f.to_string()).collect(),
        has_subdirs,
    }
}

#[test]
fn detect_missing_root_is_no_install() {
    let dir = RootDir::absent();
    assert_eq!(detect(&dir), VersionTag::NoInstall);
}

#[test]
fn detect_empty_root_is_no_install() {
    let dir = root_with(&[], false);
    assert_eq!(detect(&dir), VersionTag::NoInstall);
}

#[test]
fn detect_marker_wins_over_legacy_files() {
    let dir = root_with(&["load.sh", "layout.v1", "volta"], false);
    assert_eq!(detect(&dir), VersionTag::V1);
}

#[test]
fn detect_root_with_only_marker_is_latest() {
    let dir = root_with(&["layout.v1"], false);
    assert_eq!(detect(&dir), VersionTag::V1);
}

#[test]
fn detect_legacy_root_without_marker() {
    let dir = root_with(&["load.sh"], false);
    assert_eq!(detect(&dir), VersionTag::V0);
}

#[test]
fn detect_root_with_only_subdirs_is_legacy() {
    let dir = root_with(&[], true);
    assert_eq!(detect(&dir), VersionTag::V0);
}

#[test]
fn detect_is_read_only() {
    let dir = root_with(&["load.sh", "other.txt"], true);
    let before = dir.clone();
    let _ = detect(&dir);
    assert_eq!(dir, before);
}

#[test]
fn marker_name_is_layout_file() {
    assert_eq!(marker_name().as_str(), "layout.v1");
}

#[test]
fn obsolete_names_match_exactly() {
    assert!(is_obsolete("load.sh"));
    assert!(is_obsolete("load.bat"));
    assert!(is_obsolete("load.fish"));
    assert!(is_obsolete("load"));
    assert!(is_obsolete("volta"));
    assert!(is_obsolete("shim"));
}

#[test]
fn unrelated_names_are_kept() {
    assert!(!is_obsolete("upload.sh"));
    assert!(!is_obsolete("load.tar.gz"));
    assert!(!is_obsolete(".load"));
    assert!(!is_obsolete("layout.v1"));
    assert!(!is_obsolete("volta.bak"));
    assert!(!is_obsolete("shim.exe"));
    assert!(!is_obsolete("settings.json"));
}

#[test]
fn stem_boundary_examples() {
    assert_eq!(stem_end("load.sh"), 4);
    assert_eq!(stem_end("load"), 4);
    assert_eq!(stem_end(".profile"), 8);
    assert_eq!(stem_end("a.b.c"), 3);
    assert_eq!(stem_end("trailing."), 8);
    assert_eq!(stem_end("héllo.sh"), 5);
}

#[test]
fn load_stem_examples() {
    assert!(has_load_stem("load.sh"));
    assert!(has_load_stem("load."));
    assert!(has_load_stem("load"));
    assert!(!has_load_stem("load.tar.gz"));
    assert!(!has_load_stem("reload.sh"));
}

#[test]
fn string_equality_by_characters() {
    assert!(str_eq("volta", "volta"));
    assert!(!str_eq("volta", "volt"));
    assert!(!str_eq("volta", "shim"));
    assert!(str_eq("", ""));
}
