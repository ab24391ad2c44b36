use mutualzz_updater::layout::{
    app_version_dir_under, app_version_file_candidates, app_version_from_file,
    bootstrapper_at_data_root, bootstrapper_sources, can_apply_full_zip, current_file_path,
    data_root_from, layout_v2_marker, packages_dir, packages_dir_under, pending_restart_path,
    pick_staged_package, plan_legacy_migration, resolve_active_app_dir, version_from_file,
    LegacyMigration, StagedEntry, app_version_dir, legacy_flat_install_dir,
    legacy_flat_install_dir_under,
};
use mutualzz_updater::path::{first_existing, AppPath, TargetOs};

fn parts(p: &AppPath) -> Vec<&str> {
    p.parts.iter().map(|s| s.as_str()).collect()
}

#[test]
fn data_root_prefers_local_then_home_then_dot() {
    let r = data_root_from(Some("/home/u/.local/share".to_string()), Some("/home/u".to_string()));
    assert_eq!(r.base, "/home/u/.local/share");
    assert_eq!(parts(&r), vec!["Mutualzz"]);
    let r = data_root_from(None, Some("/home/u".to_string()));
    assert_eq!(r.base, "/home/u");
    let r = data_root_from(None, None);
    assert_eq!(r.base, ".");
    assert_eq!(parts(&r), vec!["Mutualzz"]);
}

#[test]
fn layout_files_under_root() {
    assert_eq!(parts(&packages_dir()), vec!["Mutualzz", "packages"]);
    assert_eq!(parts(&current_file_path()), vec!["Mutualzz", "current"]);
    assert_eq!(parts(&pending_restart_path()), vec!["Mutualzz", "pending-restart.json"]);
    assert_eq!(parts(&layout_v2_marker()), vec!["Mutualzz", "layout-v2"]);
    assert_eq!(parts(&app_version_dir(" 1.4.0\n")), vec!["Mutualzz", "app-1.4.0"]);
    let root = AppPath::new("/r");
    assert_eq!(parts(&packages_dir_under(&root)), vec!["packages"]);
}

#[test]
fn version_dir_is_trimmed() {
    let root = AppPath::new("/r");
    let d = app_version_dir_under(&root, "  2.0.1 \t");
    assert_eq!(parts(&d), vec!["app-2.0.1"]);
}

#[test]
fn version_files_are_trimmed() {
    assert_eq!(version_from_file(Some("  1.2.3\n".to_string())), Some("1.2.3".to_string()));
    assert_eq!(version_from_file(Some(" \n".to_string())), None);
    assert_eq!(version_from_file(None), None);
    assert_eq!(app_version_from_file(Some("0.0.0\n".to_string())), None);
    assert_eq!(app_version_from_file(Some("0.3.1\n".to_string())), Some("0.3.1".to_string()));
}

#[test]
fn current_version_roundtrip() {
    // What set_current_version writes (the trimmed text) reads back unchanged.
    let written = " 3.1.4 \n".trim().to_string();
    assert_eq!(version_from_file(Some(written.clone())), Some("3.1.4".to_string()));
    let root = AppPath::new("/r");
    let a = app_version_dir_under(&root, &written);
    let b = app_version_dir_under(&root, " 3.1.4 \n");
    assert_eq!(parts(&a), parts(&b));
}

#[test]
fn active_dir_resolution() {
    let root = AppPath::new("/r");
    let d = resolve_active_app_dir(&root, Some("1.0.0".to_string()), &|_p: &AppPath| true).unwrap();
    assert_eq!(parts(&d), vec!["app-1.0.0"]);
    assert!(resolve_active_app_dir(&root, Some("1.0.0".to_string()), &|_p: &AppPath| false).is_none());
    assert!(resolve_active_app_dir(&root, None, &|_p: &AppPath| true).is_none());
}

#[test]
fn bootstrapper_choices() {
    let root = AppPath::new("/r");
    let p = bootstrapper_at_data_root(TargetOs::Windows, &root, None, None, &|_p: &AppPath| false);
    assert_eq!(parts(&p), vec!["Update.exe"]);
    let active = AppPath::new("/r").join("app-1.0.0");
    let p = bootstrapper_at_data_root(TargetOs::Linux, &root, Some(active.duplicate()), None, &|_p: &AppPath| true);
    assert_eq!(parts(&p), vec!["app-1.0.0", "updater"]);
    let p = bootstrapper_at_data_root(TargetOs::MacOs, &root, Some(active.duplicate()), None, &|_p: &AppPath| true);
    assert_eq!(parts(&p), vec!["app-1.0.0", "Mutualzz.app", "Contents", "MacOS", "Mutualzz"]);
    let p = bootstrapper_at_data_root(TargetOs::Linux, &root, Some(active.duplicate()), Some(AppPath::new("/usr/bin/upd")), &|_p: &AppPath| false);
    assert_eq!(p.base, "/usr/bin/upd");
    let p = bootstrapper_at_data_root(TargetOs::MacOs, &root, None, None, &|_p: &AppPath| false);
    assert_eq!(p.base, "Mutualzz");
    let p = bootstrapper_at_data_root(TargetOs::Linux, &root, None, None, &|_p: &AppPath| false);
    assert_eq!(p.base, "updater");
}

#[test]
fn candidate_lists() {
    let d = AppPath::new("/a");
    let c = app_version_file_candidates(&d);
    assert_eq!(parts(&c[0]), vec!["app-version.txt"]);
    assert_eq!(parts(&c[1]), vec!["resources", "app-version.txt"]);
    let b = bootstrapper_sources(&d);
    assert_eq!(parts(&b[0]), vec!["Update.exe"]);
    assert_eq!(parts(&b[1]), vec!["updater.exe"]);
    assert_eq!(first_existing(&b, &|p: &AppPath| p.parts[0] == "updater.exe"), Some(1));
    assert_eq!(first_existing(&b, &|_p: &AppPath| false), None);
    assert_eq!(first_existing(&b, &|_p: &AppPath| true), Some(0));
}

#[test]
fn legacy_migration_plans() {
    let root = AppPath::new("/r");
    let legacy = || Some(AppPath::new("/l"));
    assert!(matches!(
        plan_legacy_migration(TargetOs::Windows, &root, true, true, legacy(), "1.0.0".to_string(), &|_p: &AppPath| true),
        LegacyMigration::AlreadyMigrated
    ));
    assert!(matches!(
        plan_legacy_migration(TargetOs::Windows, &root, false, true, legacy(), "1.0.0".to_string(), &|_p: &AppPath| true),
        LegacyMigration::MarkLayout
    ));
    assert!(matches!(
        plan_legacy_migration(TargetOs::Linux, &root, false, false, legacy(), "1.0.0".to_string(), &|_p: &AppPath| true),
        LegacyMigration::NothingToMigrate
    ));
    assert!(matches!(
        plan_legacy_migration(TargetOs::Windows, &root, false, false, None, "1.0.0".to_string(), &|_p: &AppPath| true),
        LegacyMigration::NothingToMigrate
    ));
    assert!(matches!(
        plan_legacy_migration(TargetOs::Windows, &root, false, false, legacy(), "0.0.0".to_string(), &|_p: &AppPath| true),
        LegacyMigration::NothingToMigrate
    ));
    assert!(matches!(
        plan_legacy_migration(TargetOs::Windows, &root, false, false, legacy(), "".to_string(), &|_p: &AppPath| true),
        LegacyMigration::NothingToMigrate
    ));
    match plan_legacy_migration(TargetOs::Windows, &root, false, false, legacy(), "1.0.0".to_string(), &|_p: &AppPath| true) {
        LegacyMigration::AdoptExisting { version } => assert_eq!(version, "1.0.0"),
        _ => panic!("expected to adopt the existing directory"),
    }
    match plan_legacy_migration(TargetOs::Windows, &root, false, false, legacy(), "1.0.0".to_string(), &|_p: &AppPath| false) {
        LegacyMigration::CopyLegacy { version, legacy, dest } => {
            assert_eq!(version, "1.0.0");
            assert_eq!(legacy.base, "/l");
            assert_eq!(parts(&dest), vec!["app-1.0.0"]);
        }
        _ => panic!("expected a copy"),
    }
}

fn entry(name: &str, is_file: bool, modified: Option<i128>) -> StagedEntry {
    StagedEntry { name: name.to_string(), is_file, modified }
}

#[test]
fn staged_package_is_newest_complete_file() {
    let entries = vec![
        entry("a.zip", true, Some(10)),
        entry("b.zip.partial", true, Some(50)),
        entry("c.zip", true, Some(30)),
        entry("dir", false, Some(99)),
        entry("d.zip", true, None),
        entry("e.zip", true, Some(30)),
    ];
    assert_eq!(pick_staged_package(&entries), Some(5));
    let none = vec![entry("x.partial", true, Some(1)), entry("y", false, Some(2))];
    assert_eq!(pick_staged_package(&none), None);
    assert_eq!(pick_staged_package(&Vec::new()), None);
}

#[test]
fn full_zip_rules() {
    assert!(can_apply_full_zip(TargetOs::Windows, false, false));
    assert!(can_apply_full_zip(TargetOs::MacOs, false, false));
    assert!(!can_apply_full_zip(TargetOs::Linux, false, false));
    assert!(can_apply_full_zip(TargetOs::Linux, true, false));
    assert!(can_apply_full_zip(TargetOs::Linux, false, true));
}

#[test]
fn legacy_flat_dir_found_only_on_windows_under_local_data() {
    let found = legacy_flat_install_dir_under(TargetOs::Windows, Some("C:/Local".to_string()), &|p: &AppPath| {
        p.base == "C:/Local" && parts(p) == vec!["Programs", "Mutualzz"]
    })
    .expect("flat install directory");
    assert_eq!(found.base, "C:/Local");
    assert_eq!(parts(&found), vec!["Programs", "Mutualzz"]);
    assert!(legacy_flat_install_dir_under(TargetOs::Windows, Some("C:/Local".to_string()), &|_p: &AppPath| false).is_none());
    assert!(legacy_flat_install_dir_under(TargetOs::Windows, None, &|_p: &AppPath| true).is_none());
    assert!(legacy_flat_install_dir_under(TargetOs::Linux, Some("/home/u/.local/share".to_string()), &|_p: &AppPath| true).is_none());
    assert!(legacy_flat_install_dir_under(TargetOs::MacOs, Some("/Users/u/Library".to_string()), &|_p: &AppPath| true).is_none());
    assert!(legacy_flat_install_dir(TargetOs::Linux, &|_p: &AppPath| true).is_none());
}
