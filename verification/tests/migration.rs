//! Full migration scenarios over the model, the order of the planned
//! actions, and the error taxonomy.

use volta_migrate::detect::detect;
use volta_migrate::detect::observed_or_error;
use volta_migrate::detect::VersionTag;
use volta_migrate::dir::RootDir;
use volta_migrate::driver::action_error;
use volta_migrate::driver::migrate;
use volta_migrate::driver::migration_plan;
use volta_migrate::driver::v1_from_empty;
use volta_migrate::driver::v1_from_v0;
use volta_migrate::errors::MigrationError;
use volta_migrate::layout::Empty;
use volta_migrate::layout::V0;
use volta_migrate::layout::V1;
use volta_migrate::layout::VoltaHome;
use volta_migrate::plan::apply_action;
use volta_migrate::plan::fresh_plan;
use volta_migrate::plan::run_plan;
use volta_migrate::plan::upgrade_plan;
use volta_migrate::plan::Action;

fn legacy_root() -> RootDir {
    RootDir {
        exists: true,
        files: vec![
            "load.sh".to_string(),
            "load.bat".to_string(),
            "volta".to_string(),
            "shim".to_string(),
        ],
        has_subdirs: false,
    }
}

#[test]
fn migrate_legacy_scenario() {
    let mut dir = legacy_root();
    assert_eq!(detect(&dir), VersionTag::V0);
    let v1: V1 = migrate("/home/user/.volta".to_string(), &mut dir);
    assert!(!dir.has_entry("load.sh"));
    assert!(!dir.has_entry("load.bat"));
    assert!(!dir.has_entry("volta"));
    assert!(!dir.has_entry("shim"));
    assert!(dir.has_entry("layout.v1"));
    assert_eq!(detect(&dir), VersionTag::V1);
    assert_eq!(v1.home.root().as_str(), "/home/user/.volta");
}

#[test]
fn migrate_missing_root_scenario() {
    let mut dir = RootDir::absent();
    assert_eq!(detect(&dir), VersionTag::NoInstall);
    let v1 = migrate("/opt/volta".to_string(), &mut dir);
    assert!(dir.exists);
    assert!(dir.has_subdirs);
    assert!(dir.has_entry("layout.v1"));
    assert_eq!(detect(&dir), VersionTag::V1);
    assert_eq!(v1.home.root().as_str(), "/opt/volta");
}

#[test]
fn migrate_keeps_user_files() {
    let mut dir = RootDir {
        exists: true,
        files: vec!["settings.json".to_string(), "load.sh".to_string()],
        has_subdirs: true,
    };
    let _ = migrate("/opt/volta".to_string(), &mut dir);
    assert!(dir.has_entry("settings.json"));
    assert!(!dir.has_entry("load.sh"));
}

#[test]
fn migrate_latest_is_untouched() {
    let mut dir = RootDir {
        exists: true,
        files: vec!["layout.v1".to_string(), "settings.json".to_string()],
        has_subdirs: true,
    };
    let before = dir.clone();
    let _ = migrate("/opt/volta".to_string(), &mut dir);
    assert_eq!(dir, before);
}

#[test]
fn upgrade_step_reaches_latest() {
    let mut dir = legacy_root();
    let _ = v1_from_v0(V0 { home: "/opt/volta".to_string() }, &mut dir);
    assert_eq!(detect(&dir), VersionTag::V1);
}

#[test]
fn fresh_step_reaches_latest() {
    let mut dir = RootDir::absent();
    let _ = v1_from_empty(Empty { home: "/opt/volta".to_string() }, &mut dir);
    assert_eq!(detect(&dir), VersionTag::V1);
}

#[test]
fn upgrade_step_twice_changes_nothing() {
    let mut dir = legacy_root();
    let _ = v1_from_v0(V0 { home: "/opt/volta".to_string() }, &mut dir);
    let after_once = dir.clone();
    let _ = v1_from_v0(V0 { home: "/opt/volta".to_string() }, &mut dir);
    assert_eq!(dir, after_once);
}

#[test]
fn fresh_step_twice_changes_nothing() {
    let mut dir = RootDir::absent();
    let _ = v1_from_empty(Empty { home: "/opt/volta".to_string() }, &mut dir);
    let after_once = dir.clone();
    let _ = v1_from_empty(Empty { home: "/opt/volta".to_string() }, &mut dir);
    assert_eq!(dir, after_once);
}

#[test]
fn migrate_twice_changes_nothing() {
    let mut dir = legacy_root();
    let _ = migrate("/opt/volta".to_string(), &mut dir);
    let after_once = dir.clone();
    let _ = migrate("/opt/volta".to_string(), &mut dir);
    assert_eq!(dir, after_once);
}

#[test]
fn fresh_plan_brackets() {
    let p = fresh_plan();
    assert_eq!(p, vec![Action::EnsureLayoutDirs, Action::WriteMarker]);
}

#[test]
fn upgrade_plan_deletes_between_brackets() {
    let dir = RootDir {
        exists: true,
        files: vec!["notes.txt".to_string(), "load.sh".to_string(), "volta".to_string()],
        has_subdirs: false,
    };
    let p = upgrade_plan(&dir);
    assert_eq!(
        p,
        vec![
            Action::EnsureLayoutDirs,
            Action::RemoveObsolete("load.sh".to_string()),
            Action::RemoveObsolete("volta".to_string()),
            Action::WriteMarker,
        ]
    );
}

#[test]
fn full_plan_is_empty_on_latest() {
    let dir = RootDir {
        exists: true,
        files: vec!["layout.v1".to_string()],
        has_subdirs: true,
    };
    assert_eq!(migration_plan(&dir), vec![]);
}

#[test]
fn interrupted_before_marker_still_reports_legacy() {
    let mut dir = legacy_root();
    let p = upgrade_plan(&dir);
    assert_eq!(p.last(), Some(&Action::WriteMarker));
    for a in &p[..p.len() - 1] {
        apply_action(&mut dir, a);
    }
    assert!(!dir.has_entry("layout.v1"));
    assert_eq!(detect(&dir), VersionTag::V0);
    let resumed = migration_plan(&dir);
    run_plan(&mut dir, &resumed);
    assert_eq!(detect(&dir), VersionTag::V1);
    let mut replayed = legacy_root();
    let _ = migrate("/opt/volta".to_string(), &mut replayed);
    assert_eq!(dir, replayed);
}

#[test]
fn deleting_an_absent_file_is_a_no_op() {
    let mut dir = legacy_root();
    let before = dir.clone();
    apply_action(&mut dir, &Action::RemoveObsolete("no-such-file".to_string()));
    assert_eq!(dir, before);
}

#[test]
fn layout_descriptor_paths() {
    let home = VoltaHome::new("/opt/volta".to_string());
    assert_eq!(home.root().as_str(), "/opt/volta");
    assert_eq!(home.layout_file().as_str(), "/opt/volta/layout.v1");
    let v1 = V1::new("/opt/volta".to_string());
    assert_eq!(v1.home.root().as_str(), "/opt/volta");
}

#[test]
fn action_errors_carry_exact_paths() {
    let home = VoltaHome::new("/opt/volta".to_string());
    match action_error(&Action::EnsureLayoutDirs, &home) {
        MigrationError::CreateDirError { dir } => assert_eq!(dir.as_str(), "/opt/volta"),
        other => panic!("wrong error kind: {:?}", other),
    }
    match action_error(&Action::RemoveObsolete("volta".to_string()), &home) {
        MigrationError::DeleteFileError { file } => assert_eq!(file.as_str(), "/opt/volta/volta"),
        other => panic!("wrong error kind: {:?}", other),
    }
    match action_error(&Action::WriteMarker, &home) {
        MigrationError::CreateMarkerError { file } => {
            assert_eq!(file.as_str(), "/opt/volta/layout.v1")
        },
        other => panic!("wrong error kind: {:?}", other),
    }
}

#[test]
fn failed_observation_is_a_detection_error() {
    match observed_or_error(None, "/r".to_string()) {
        Err(MigrationError::DetectionError { path }) => assert_eq!(path.as_str(), "/r"),
        other => panic!("wrong outcome: {:?}", other),
    }
    let observed = RootDir::absent();
    match observed_or_error(Some(observed.clone()), "/r".to_string()) {
        Ok(d) => assert_eq!(d, observed),
        other => panic!("wrong outcome: {:?}", other),
    }
}

#[test]
fn error_messages_name_operation_and_path() {
    let detection = MigrationError::DetectionError { path: "/r".to_string() };
    assert_eq!(
        detection.message().as_str(),
        "could not determine the current layout under /r"
    );
    let create = MigrationError::CreateDirError { dir: "/r".to_string() };
    assert_eq!(create.message().as_str(), "could not create the layout directory /r");
    let read = MigrationError::ReadDirError { dir: "/r".to_string() };
    assert_eq!(read.message().as_str(), "could not read the contents of /r");
    let del = MigrationError::DeleteFileError { file: "/r/volta".to_string() };
    assert_eq!(del.message().as_str(), "could not delete the obsolete file /r/volta");
    let marker = MigrationError::CreateMarkerError { file: "/r/layout.v1".to_string() };
    assert_eq!(
        marker.message().as_str(),
        "could not write the layout marker file /r/layout.v1"
    );
}
