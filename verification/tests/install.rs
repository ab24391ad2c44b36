use mutualzz_updater::install::{
    bundled_zip_candidates, install_arguments, resource_file_candidates, windows_shortcut_paths, launch_mode, parse_install_args, shortcut_paths,
    shortcut_script, should_run_install, LaunchMode,
};
use mutualzz_updater::path::{AppPath, TargetOs};

fn args(v: &[&str]) -> Vec<String> {
    v.iter().map(|s| s.to_string()).collect()
}

fn parts(p: &AppPath) -> Vec<&str> {
    p.parts.iter().map(|s| s.as_str()).collect()
}

#[test]
fn explicit_package_and_version() {
    let a = args(&["Update.exe", "--install", "/tmp/p.zip", "--version", "1.2.3"]);
    let (zip, version) = parse_install_args(&a, Some(AppPath::new("/b.zip")), Some("9.9.9".to_string())).unwrap();
    assert_eq!(zip.base, "/tmp/p.zip");
    assert!(zip.parts.is_empty());
    assert_eq!(version, "1.2.3");
}

#[test]
fn falls_back_to_bundled_package_and_resource_version() {
    let a = args(&["Update.exe", "--install"]);
    let (zip, version) = parse_install_args(&a, Some(AppPath::new("/exe").join("install.zip")), Some("2.0.0".to_string())).unwrap();
    assert_eq!(zip.base, "/exe");
    assert_eq!(parts(&zip), vec!["install.zip"]);
    assert_eq!(version, "2.0.0");
    assert!(parse_install_args(&a, None, Some("2.0.0".to_string())).is_none());
}

#[test]
fn unknown_version_is_placeholder() {
    let a = args(&["x", "--install", "p.zip", "--version", "0.0.0"]);
    assert_eq!(parse_install_args(&a, None, None).unwrap().1, "0.0.0");
    let a = args(&["x", "--install", "p.zip"]);
    assert_eq!(parse_install_args(&a, None, None).unwrap().1, "0.0.0");
    assert_eq!(parse_install_args(&a, None, Some("0.0.0".to_string())).unwrap().1, "0.0.0");
    let a = args(&["x", "--install", "p.zip", "--version"]);
    assert_eq!(parse_install_args(&a, None, Some("1.1.1".to_string())).unwrap().1, "1.1.1");
}

#[test]
fn install_mode_decision() {
    let a = args(&["x", "--install", "p.zip"]);
    assert!(should_run_install(&a, None, None, TargetOs::Linux, None));
    let a = args(&["x", "--install"]);
    assert!(!should_run_install(&a, None, None, TargetOs::Windows, Some("MutualzzSetup".to_string())));
    let a = args(&["x"]);
    assert!(should_run_install(&a, Some(AppPath::new("/z.zip")), None, TargetOs::Windows, Some("Mutualzz-SETUP".to_string())));
    assert!(!should_run_install(&a, Some(AppPath::new("/z.zip")), None, TargetOs::Linux, Some("setup".to_string())));
    assert!(!should_run_install(&a, None, None, TargetOs::Windows, Some("setup".to_string())));
    assert!(!should_run_install(&a, Some(AppPath::new("/z.zip")), None, TargetOs::Windows, Some("Update".to_string())));
}

#[test]
fn launch_modes() {
    assert!(matches!(launch_mode(&args(&["x", "--splash-test", "--uninstall"]), true), LaunchMode::Uninstall));
    assert!(matches!(launch_mode(&args(&["x", "--splash-test", "--fast"]), true), LaunchMode::SplashTest { fast: true }));
    assert!(matches!(launch_mode(&args(&["x", "--splash-test"]), false), LaunchMode::SplashTest { fast: false }));
    assert!(matches!(launch_mode(&args(&["x"]), true), LaunchMode::Install));
    assert!(matches!(launch_mode(&args(&["x"]), false), LaunchMode::Update));
}

#[test]
fn install_argument_lists() {
    let a = args(&["x", "--install", "p.zip"]);
    assert_eq!(install_arguments(&a), a);
    assert_eq!(install_arguments(&args(&["x", "--version", "1"])), args(&["x", "--install"]));
}

#[test]
fn bundled_candidates() {
    let c = bundled_zip_candidates(&AppPath::new("/exe"));
    assert_eq!(parts(&c[0]), vec!["Mutualzz-win.zip"]);
    assert_eq!(parts(&c[1]), vec!["install.zip"]);
}

#[test]
fn shortcut_script_quotes_paths() {
    let s = shortcut_script("C:\\Users\\O'Neil\\Desktop\\Mutualzz.lnk", "S", "T", "I");
    assert_eq!(
        s,
        "\n$WshShell = New-Object -ComObject WScript.Shell\n$desktop = 'C:\\Users\\O''Neil\\Desktop\\Mutualzz.lnk'\n$start = 'S'\n$target = 'T'\n$icon = 'I'\n$d = $WshShell.CreateShortcut($desktop)\n$d.TargetPath = $target\n$d.IconLocation = $icon\n$d.Save()\n$s = $WshShell.CreateShortcut($start)\n$s.TargetPath = $target\n$s.IconLocation = $icon\n$s.Save()\n"
    );
}

#[test]
fn shortcut_path_choices() {
    let root = AppPath::new("/r");
    let p = shortcut_paths(&root, None, None, None);
    assert_eq!(parts(&p.target), vec!["Update.exe"]);
    assert_eq!(parts(&p.icon), vec!["Update.exe"]);
    assert_eq!(parts(&p.desktop_link), vec!["Mutualzz.lnk"]);
    assert_eq!(parts(&p.start_link), vec!["Programs", "Mutualzz", "Mutualzz.lnk"]);
    let p = shortcut_paths(&root, Some(AppPath::new("/app")), Some(AppPath::new("/desk")), Some(AppPath::new("/loc")));
    assert_eq!(p.icon.base, "/app");
    assert_eq!(parts(&p.icon), vec!["mutualzz.exe"]);
    assert_eq!(p.desktop_link.base, "/desk");
    assert_eq!(p.start_menu.base, "/loc");
    assert_eq!(parts(&p.start_menu), vec!["Programs", "Mutualzz"]);
}

#[test]
fn user_shortcut_paths() {
    let p = windows_shortcut_paths(None);
    assert_eq!(parts(&p.target), vec!["Mutualzz", "Update.exe"]);
    assert_eq!(p.icon.base, p.target.base);
    assert_eq!(parts(&p.icon), parts(&p.target));
    assert_eq!(p.desktop_link.parts.last().map(|s| s.as_str()), Some("Mutualzz.lnk"));
    let n = p.start_link.parts.len();
    assert_eq!(&p.start_link.parts[n - 3..], &["Programs".to_string(), "Mutualzz".to_string(), "Mutualzz.lnk".to_string()]);
}

#[test]
fn resource_candidates() {
    let c = resource_file_candidates(&AppPath::new("/d"), "app-version.txt");
    assert_eq!(parts(&c[0]), vec!["resources", "app-version.txt"]);
    assert_eq!(parts(&c[1]), vec!["app-version.txt"]);
}
