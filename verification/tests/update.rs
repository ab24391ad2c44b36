use mutualzz_updater::digest::{verify_checksum, Sha256Stream};
use mutualzz_updater::path::{AppPath, TargetOs};
use mutualzz_updater::update::{
    download_eta_suffix, download_file_name, electron_version_file_path, format_eta,
    installed_electron_text, installed_version_text, offer_if_newer, partial_file_name,
    seed_installed_versions_if_needed, select_update, version_file_path, AsarAsset,
    bundled_resource_candidates, Download, DownloadProgress, PlatformAsset, PlatformEntry, ResponseAction, UpdateManifest,
};
use mutualzz_updater::version::{remote_is_newer, VersionCheckError};

fn asset(url: &str, electron: Option<&str>, asar: bool) -> PlatformAsset {
    PlatformAsset {
        url: url.to_string(),
        sha256: format!("sha-{url}"),
        electron_version: electron.map(|s| s.to_string()),
        asar: if asar {
            Some(AsarAsset { url: format!("{url}.asar"), sha256: "asar-sha".to_string() })
        } else {
            None
        },
    }
}

fn entry(group: &str, key: &str, a: Option<PlatformAsset>) -> PlatformEntry {
    PlatformEntry { group: group.to_string(), key: key.to_string(), asset: a }
}

fn manifest() -> UpdateManifest {
    UpdateManifest {
        version: "1.5.0".to_string(),
        platforms: vec![
            entry("osx", "universal", Some(asset("mac.zip", Some("30.0.0"), true))),
            entry("win", "x64", Some(asset("win.zip", Some("30.0.0"), false))),
            entry("linux", "appimage", Some(asset("linux.AppImage", None, true))),
            entry("linux", "debian", Some(asset("linux.deb", Some("30.0.0"), true))),
            entry("linux", "rpm", None),
        ],
    }
}

#[test]
fn asset_lookup_per_platform() {
    let m = manifest();
    assert_eq!(m.asset_for_current_platform(TargetOs::MacOs, "").unwrap().url, "mac.zip");
    assert_eq!(m.asset_for_current_platform(TargetOs::Windows, "").unwrap().url, "win.zip");
    assert_eq!(m.asset_for_current_platform(TargetOs::Linux, "pacman").unwrap().url, "linux.AppImage");
    assert_eq!(m.asset_for_current_platform(TargetOs::Linux, "debian").unwrap().url, "linux.deb");
    // the rpm entry is there but is not a valid asset
    assert!(m.asset_for_current_platform(TargetOs::Linux, "rpm").is_none());
    let empty = UpdateManifest { version: "1.0.0".to_string(), platforms: vec![] };
    assert!(empty.asset_for_current_platform(TargetOs::Windows, "").is_none());
}

#[test]
fn linux_falls_back_to_debian() {
    let m = UpdateManifest {
        version: "1.0.0".to_string(),
        platforms: vec![entry("linux", "debian", Some(asset("d.deb", None, false)))],
    };
    assert_eq!(m.asset_for_current_platform(TargetOs::Linux, "pacman").unwrap().url, "d.deb");
}

#[test]
fn electron_version_of_asset() {
    let m = manifest();
    assert_eq!(m.electron_version_for_current_platform(TargetOs::MacOs, ""), Some("30.0.0".to_string()));
    assert_eq!(m.electron_version_for_current_platform(TargetOs::Linux, "appimage"), None);
}

#[test]
fn quick_update_needs_same_runtime() {
    let m = manifest();
    let u = m.asar_update(TargetOs::MacOs, "", "30.0.0").unwrap();
    assert_eq!(u.url, "mac.zip.asar");
    assert_eq!(u.sha256, "asar-sha");
    assert!(m.asar_update(TargetOs::MacOs, "", "29.0.0").is_none());
    assert!(m.asar_update(TargetOs::MacOs, "", "").is_none());
    // no archive offered
    assert!(m.asar_update(TargetOs::Windows, "", "30.0.0").is_none());
    // no runtime named
    assert!(m.asar_update(TargetOs::Linux, "appimage", "30.0.0").is_none());
}

#[test]
fn version_comparison() {
    assert!(matches!(remote_is_newer("1.2.0", "1.1.9"), Ok(true)));
    assert!(matches!(remote_is_newer("1.0.0", "1.0.0"), Ok(false)));
    assert!(matches!(remote_is_newer("1.0.0-beta", "1.0.0"), Ok(false)));
    assert!(matches!(remote_is_newer("1.0.0", "1.0.0-beta"), Ok(true)));
    assert!(matches!(remote_is_newer("1.10.0", "1.9.0"), Ok(true)));
    assert!(matches!(remote_is_newer("latest", "1.0.0"), Err(VersionCheckError::InvalidRemote(_))));
    assert!(matches!(remote_is_newer("1.0.0", ""), Err(VersionCheckError::InvalidInstalled(_))));
}

#[test]
fn update_selection() {
    let r = select_update(manifest(), "1.4.9").ok().unwrap();
    assert_eq!(r.unwrap().version, "1.5.0");
    assert!(select_update(manifest(), "1.5.0").ok().unwrap().is_none());
    assert!(select_update(manifest(), "2.0.0").ok().unwrap().is_none());
    assert!(offer_if_newer(manifest(), false).is_none());
    assert!(offer_if_newer(manifest(), true).is_some());
}

#[test]
fn installed_versions() {
    assert_eq!(installed_version_text(Some("1.2.3\n".to_string())), "1.2.3");
    assert_eq!(installed_version_text(None), "0.0.0");
    assert_eq!(installed_electron_text(Some(" 30.1.0 ".to_string())), "30.1.0");
    assert_eq!(installed_electron_text(None), "");
}

#[test]
fn version_files() {
    let p = version_file_path();
    assert_eq!(p.parts, vec!["Mutualzz".to_string(), "version.txt".to_string()]);
    let p = electron_version_file_path();
    assert_eq!(p.parts, vec!["Mutualzz".to_string(), "electron-version.txt".to_string()]);
}

#[test]
fn first_run_seeding() {
    let p = seed_installed_versions_if_needed(false, Some("1.0.0".to_string()), "", Some("30.0.0".to_string()));
    assert_eq!(p.installed_version, Some("1.0.0".to_string()));
    assert_eq!(p.electron_version, Some("30.0.0".to_string()));
    let p = seed_installed_versions_if_needed(true, Some("1.0.0".to_string()), "29.0.0", Some("30.0.0".to_string()));
    assert_eq!(p.installed_version, None);
    assert_eq!(p.electron_version, None);
}

#[test]
fn eta_texts() {
    assert_eq!(format_eta(0), "0s left");
    assert_eq!(format_eta(59), "59s left");
    assert_eq!(format_eta(60), "1m 0s left");
    assert_eq!(format_eta(3599), "59m 59s left");
    assert_eq!(format_eta(3600), "1h 0m left");
    assert_eq!(format_eta(7322), "2h 2m left");
}

#[test]
fn eta_suffixes() {
    assert_eq!(download_eta_suffix(1_048_576, 0, 10 * 1_048_576), "  \u{b7}  10s left");
    assert_eq!(download_eta_suffix(0, 0, 100), "");
    assert_eq!(download_eta_suffix(10, 100, 100), "");
    assert_eq!(download_eta_suffix(3, 0, 10), "  \u{b7}  3s left");
}

#[test]
fn download_names() {
    assert_eq!(download_file_name("https://cdn.example/releases/Mutualzz-1.0.zip?token=1"), "Mutualzz-1.0.zip");
    assert_eq!(download_file_name("https://cdn.example/"), "update");
    assert_eq!(download_file_name("https://cdn.example/?q=1"), "update");
    assert_eq!(download_file_name("plain"), "plain");
    assert_eq!(partial_file_name("a.zip"), "a.zip.partial");
}

#[test]
fn resume_decisions() {
    let (p, discard) = DownloadProgress::from_partial(true, Some(1000));
    assert_eq!((p.downloaded, p.resume, discard), (1000, true, false));
    assert_eq!(p.range_header(), Some("bytes=1000-".to_string()));
    assert!(p.appends());
    let (p, discard) = DownloadProgress::from_partial(true, Some(0));
    assert_eq!((p.downloaded, p.resume, discard), (0, false, true));
    assert_eq!(p.range_header(), None);
    let (p, discard) = DownloadProgress::from_partial(false, None);
    assert_eq!((p.downloaded, p.resume, discard), (0, false, false));
}

#[test]
fn response_handling() {
    let (mut p, _) = DownloadProgress::from_partial(true, Some(500));
    assert!(matches!(p.on_response(206), ResponseAction::Continue));
    assert_eq!(p.downloaded, 500);
    assert_eq!(p.expected_total(206, 1500), 2000);
    let (mut p, _) = DownloadProgress::from_partial(true, Some(500));
    assert!(matches!(p.on_response(200), ResponseAction::RestartFromZero));
    assert_eq!((p.downloaded, p.resume), (0, false));
    assert_eq!(p.expected_total(200, 1500), 1500);
    assert_eq!(p.expected_total(200, 0), 0);
    let (mut p, _) = DownloadProgress::from_partial(false, None);
    assert!(matches!(p.on_response(200), ResponseAction::Continue));
    assert!(matches!(p.on_response(404), ResponseAction::Fail(404)));
    p.record_chunk(10);
    p.record_chunk(5);
    assert_eq!(p.downloaded, 15);
}

#[test]
fn checksums() {
    let mut h = Sha256Stream::start();
    h.absorb(b"a");
    h.absorb(b"bc");
    let digest = h.finish();
    let expected = "ba7816bf8f01cfea414140de5dae2223b00361a396177a9cb410ff61f20015ad";
    assert!(verify_checksum(&digest, expected).is_ok());
    let upper = expected.to_uppercase();
    match verify_checksum(&digest, &upper) {
        Err(m) => {
            assert_eq!(m.actual, expected);
            assert_eq!(m.expected, upper);
        }
        Ok(()) => panic!("case differs"),
    }
    assert!(verify_checksum(&[0x0f, 0xa0], "0fa0").is_ok());
}

#[test]
fn bundled_resource_places() {
    let exe = AppPath::new("/exe");
    let inst = AppPath::new("/inst");
    let c = bundled_resource_candidates(TargetOs::MacOs, &exe, &inst, "app-version.txt");
    let shown: Vec<(String, Vec<String>)> = c.iter().map(|p| (p.base.clone(), p.parts.clone())).collect();
    assert_eq!(shown.len(), 4);
    assert_eq!(shown[0], ("/inst".to_string(), vec!["Contents".to_string(), "Resources".to_string(), "app-version.txt".to_string()]));
    assert_eq!(shown[1], ("/exe".to_string(), vec!["resources".to_string(), "app-version.txt".to_string()]));
    assert_eq!(shown[2], ("/exe".to_string(), vec!["app-version.txt".to_string()]));
    assert_eq!(shown[3], ("/inst".to_string(), vec!["resources".to_string(), "app-version.txt".to_string()]));
    assert_eq!(bundled_resource_candidates(TargetOs::Linux, &exe, &inst, "x").len(), 3);
}

const ABC_SHA256: &str = "ba7816bf8f01cfea414140de5dae2223b00361a396177a9cb410ff61f20015ad";

#[test]
fn download_checksum_covers_the_bytes_received() {
    let mut d = Download::new();
    d.record_chunk(b"a");
    d.record_chunk(b"bc");
    assert_eq!(d.progress.downloaded, 3);
    assert!(d.verify(ABC_SHA256).is_ok());

    let mut d = Download::new();
    d.record_chunk(b"abd");
    match d.verify(ABC_SHA256) {
        Err(m) => {
            assert_eq!(m.expected, ABC_SHA256);
            assert_ne!(m.actual, ABC_SHA256);
        }
        Ok(()) => panic!("a different body must not verify"),
    }
}

#[test]
fn download_resumes_a_prefix_read_whole() {
    let mut d = Download::new();
    d.read_prefix(b"ab");
    assert!(!d.settle_prefix(true, true));
    assert!(d.progress.resume);
    assert_eq!(d.progress.downloaded, 2);
    assert_eq!(d.progress.range_header().as_deref(), Some("bytes=2-"));
    assert!(matches!(d.on_response(206), ResponseAction::Continue));
    d.record_chunk(b"c");
    assert_eq!(d.progress.downloaded, 3);
    assert!(d.verify(ABC_SHA256).is_ok());
}

#[test]
fn download_discards_an_unreadable_prefix() {
    let mut d = Download::new();
    d.read_prefix(b"zz");
    assert!(d.settle_prefix(true, false));
    assert!(!d.progress.resume);
    assert_eq!(d.progress.downloaded, 0);
    d.record_chunk(b"abc");
    assert!(d.verify(ABC_SHA256).is_ok());

    let mut d = Download::new();
    assert!(!d.settle_prefix(false, true));
    assert!(!d.progress.resume);
}

#[test]
fn download_restart_drops_the_prefix_from_the_checksum() {
    let mut d = Download::new();
    d.read_prefix(b"zz");
    d.settle_prefix(true, true);
    assert!(matches!(d.on_response(200), ResponseAction::RestartFromZero));
    assert_eq!(d.progress.downloaded, 0);
    assert!(!d.progress.appends());
    d.record_chunk(b"abc");
    assert!(d.verify(ABC_SHA256).is_ok());

    let mut d = Download::new();
    assert!(matches!(d.on_response(404), ResponseAction::Fail(404)));
}

#[test]
fn seeding_twice_plans_nothing_the_second_time() {
    // No version files yet; the bundled resources name 2.0.0 and 30.1.0.
    let first = seed_installed_versions_if_needed(false, Some("2.0.0".to_string()), "", Some("30.1.0".to_string()));
    assert_eq!(first.installed_version.as_deref(), Some("2.0.0"));
    assert_eq!(first.electron_version.as_deref(), Some("30.1.0"));
    // After those writes the version file exists and the runtime reads back.
    let electron = installed_electron_text(first.electron_version.clone());
    let second = seed_installed_versions_if_needed(true, Some("2.0.0".to_string()), &electron, Some("30.1.0".to_string()));
    assert!(second.installed_version.is_none());
    assert!(second.electron_version.is_none());
}

#[test]
fn version_errors_carry_the_parser_message() {
    let remote_msg = semver::Version::parse("latest").unwrap_err().to_string();
    match remote_is_newer("latest", "1.0.0") {
        Err(VersionCheckError::InvalidRemote(m)) => assert_eq!(m, remote_msg),
        _ => panic!("the published version must be refused"),
    }
    let installed_msg = semver::Version::parse("1.0").unwrap_err().to_string();
    match remote_is_newer("1.0.0", "1.0") {
        Err(VersionCheckError::InvalidInstalled(m)) => assert_eq!(m, installed_msg),
        _ => panic!("the installed version must be refused"),
    }
    assert!(!installed_msg.is_empty());
}
