use mutualzz_updater::path::{AppPath, TargetOs};
use mutualzz_updater::platform::{
    asar_dest_path, electron_exe_path, install_dir, plan_update_apply, update_format,
    zip_entry_target, ApplyPlan, ZipEntryTarget,
};

fn parts(p: &AppPath) -> Vec<&str> {
    p.parts.iter().map(|s| s.as_str()).collect()
}

#[test]
fn formats_by_suffix_in_any_case() {
    assert_eq!(update_format(Some("Mutualzz-1.2.3.AppImage"), Some("AppImage")), "AppImage");
    assert_eq!(update_format(Some("mutualzz_1.2.3_amd64.DEB"), Some("DEB")), "deb");
    assert_eq!(update_format(Some("mutualzz.rpm"), Some("rpm")), "rpm");
    assert_eq!(update_format(Some("mutualzz.pacman"), Some("pacman")), "pacman");
    assert_eq!(update_format(Some("mutualzz.pkg.tar.zst"), Some("zst")), "pacman");
    assert_eq!(update_format(Some("mutualzz.pkg.tar.xz"), Some("xz")), "pacman");
    assert_eq!(update_format(Some("mutualzz.pkg.tar.gz"), Some("gz")), "pacman");
    assert_eq!(update_format(Some("Mutualzz-win.ZIP"), Some("ZIP")), "zip");
    assert_eq!(update_format(Some("app.asar"), Some("asar")), "asar");
    assert_eq!(update_format(Some("Mutualzz.dmg"), Some("dmg")), "dmg");
}

#[test]
fn unknown_suffix_gives_extension() {
    assert_eq!(update_format(Some("setup.Exe"), Some("Exe")), "Exe");
    assert_eq!(update_format(Some("a.tar.bz2"), Some("bz2")), "bz2");
    assert_eq!(update_format(Some(".hidden"), None), "");
    assert_eq!(update_format(Some("noext"), None), "");
    assert_eq!(update_format(None, None), "");
    // a file name that is not valid UTF-8 falls back to the path's extension
    assert_eq!(update_format(None, Some("exe")), "exe");
}

#[test]
fn apply_plans() {
    assert!(matches!(plan_update_apply(TargetOs::Windows, "asar", false), ApplyPlan::Asar));
    assert!(matches!(plan_update_apply(TargetOs::MacOs, "zip", false), ApplyPlan::Zip));
    assert!(matches!(plan_update_apply(TargetOs::Linux, "AppImage", true), ApplyPlan::AppImage));
    match plan_update_apply(TargetOs::Linux, "AppImage", false) {
        ApplyPlan::Refuse(m) => assert_eq!(
            m,
            "Full AppImage updates require the AppImage build. Download from mutualzz.com."
        ),
        _ => panic!("expected a refusal"),
    }
    match plan_update_apply(TargetOs::Linux, "rpm", true) {
        ApplyPlan::Refuse(m) => assert_eq!(
            m,
            "Package manager updates are not supported in-app. Use the AppImage build."
        ),
        _ => panic!("expected a refusal"),
    }
    match plan_update_apply(TargetOs::Windows, "AppImage", true) {
        ApplyPlan::Refuse(m) => assert_eq!(m, "Unknown update format: AppImage"),
        _ => panic!("expected a refusal"),
    }
    match plan_update_apply(TargetOs::MacOs, "dmg", true) {
        ApplyPlan::Refuse(m) => assert_eq!(m, "Unknown update format: dmg"),
        _ => panic!("expected a refusal"),
    }
}

#[test]
fn asar_destination() {
    let install = AppPath::new("/opt/Mutualzz");
    let mac = asar_dest_path(TargetOs::MacOs, &install);
    assert_eq!(parts(&mac), vec!["Contents", "Resources", "app.asar"]);
    let other = asar_dest_path(TargetOs::Linux, &install);
    assert_eq!(other.base, "/opt/Mutualzz");
    assert_eq!(parts(&other), vec!["resources", "app.asar"]);
}

#[test]
fn install_dir_choices() {
    let active = AppPath::new("/data/Mutualzz").join("app-1.0.0");
    let exe_dir = AppPath::new("/usr/bin");
    let d = install_dir(TargetOs::MacOs, Some(active.duplicate()), Some(exe_dir.duplicate()), None, None, &|_p: &AppPath| true);
    assert_eq!(parts(&d), vec!["app-1.0.0", "Mutualzz.app"]);
    let d = install_dir(TargetOs::MacOs, Some(active.duplicate()), Some(exe_dir.duplicate()), None, None, &|_p: &AppPath| false);
    assert_eq!(parts(&d), vec!["app-1.0.0"]);
    let d = install_dir(TargetOs::Linux, None, Some(exe_dir.duplicate()), None, Some(AppPath::new("/home/u/Apps")), &|_p: &AppPath| false);
    assert_eq!(d.base, "/home/u/Apps");
    let d = install_dir(TargetOs::Windows, None, Some(exe_dir.duplicate()), None, None, &|_p: &AppPath| false);
    assert_eq!(d.base, "/usr/bin");
    // with an active app directory the executable's directory is not needed
    let d = install_dir(TargetOs::Linux, Some(active.duplicate()), None, None, None, &|_p: &AppPath| false);
    assert_eq!(parts(&d), vec!["app-1.0.0"]);
}

#[test]
fn electron_path_choices() {
    let active = AppPath::new("/data/Mutualzz").join("app-1.0.0");
    let exe_dir = AppPath::new("/exe");
    let install = AppPath::new("/inst");
    let p = electron_exe_path(TargetOs::Linux, Some("/custom/electron".to_string()), Some(active.duplicate()), Some(exe_dir.duplicate()), Some(install.duplicate()), &|_p: &AppPath| true).unwrap();
    assert_eq!(p.base, "/custom/electron");
    assert!(p.parts.is_empty());
    let p = electron_exe_path(TargetOs::Windows, None, Some(active.duplicate()), Some(exe_dir.duplicate()), Some(install.duplicate()), &|_p: &AppPath| true).unwrap();
    assert_eq!(parts(&p), vec!["app-1.0.0", "mutualzz.exe"]);
    let second = |p: &AppPath| p.parts.len() == 4;
    let p = electron_exe_path(TargetOs::MacOs, None, Some(active.duplicate()), Some(exe_dir.duplicate()), Some(install.duplicate()), &second).unwrap();
    assert_eq!(parts(&p), vec!["app-1.0.0", "Contents", "MacOS", "MutualzzApp"]);
    let p = electron_exe_path(TargetOs::Linux, None, Some(active.duplicate()), Some(exe_dir.duplicate()), Some(install.duplicate()), &|_p: &AppPath| false).unwrap();
    assert_eq!(p.base, "/inst");
    assert_eq!(parts(&p), vec!["mutualzz-bin"]);
    let p = electron_exe_path(TargetOs::MacOs, None, None, Some(exe_dir.duplicate()), Some(install.duplicate()), &|_p: &AppPath| false).unwrap();
    assert_eq!(p.base, "/exe");
    assert_eq!(parts(&p), vec!["MutualzzApp"]);
    // the override and a found executable need neither directory
    let p = electron_exe_path(TargetOs::Windows, Some("C:/e.exe".to_string()), None, None, None, &|_p: &AppPath| false).unwrap();
    assert_eq!(p.base, "C:/e.exe");
    let p = electron_exe_path(TargetOs::Linux, None, Some(active.duplicate()), None, None, &|_p: &AppPath| true).unwrap();
    assert_eq!(parts(&p), vec!["app-1.0.0", "mutualzz-bin"]);
    // falling back without the directory it needs gives nothing
    assert!(electron_exe_path(TargetOs::Windows, None, None, None, Some(install.duplicate()), &|_p: &AppPath| false).is_none());
    assert!(electron_exe_path(TargetOs::Linux, None, Some(active.duplicate()), Some(exe_dir.duplicate()), None, &|_p: &AppPath| false).is_none());
}

#[test]
fn zip_entries() {
    let dest = AppPath::new("/d");
    match zip_entry_target(&dest, "resources/") {
        ZipEntryTarget::Directory(p) => assert_eq!(parts(&p), vec!["resources/"]),
        _ => panic!("expected a directory"),
    }
    match zip_entry_target(&dest, "resources/app.asar") {
        ZipEntryTarget::File(p) => assert_eq!(parts(&p), vec!["resources/app.asar"]),
        _ => panic!("expected a file"),
    }
}
