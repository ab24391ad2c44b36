use mutualzz_updater::flow::{FlowAction, FlowEvent, UpdateFlow};
use mutualzz_updater::path::TargetOs;
use mutualzz_updater::update::{PlatformAsset, PlatformEntry, UpdateManifest};

fn describe(actions: &[FlowAction]) -> Vec<String> {
    actions
        .iter()
        .map(|a| match a {
            FlowAction::Status(s) => format!("status:{s}"),
            FlowAction::ProgressComplete => "progress-complete".to_string(),
            FlowAction::HideProgress => "hide-progress".to_string(),
            FlowAction::AllowSkip(b) => format!("allow-skip:{b}"),
            FlowAction::ResetSkip => "reset-skip".to_string(),
            FlowAction::Pause(ms) => format!("pause:{ms}"),
            FlowAction::ApplyStaged => "apply-staged".to_string(),
            FlowAction::ReadJustUpdatedMarker => "read-marker".to_string(),
            FlowAction::RemoveMarker => "remove-marker".to_string(),
            FlowAction::CleanupTemp => "cleanup".to_string(),
            FlowAction::CheckForUpdate => "check".to_string(),
            FlowAction::Download { url, sha256 } => format!("download:{url}:{sha256}"),
            FlowAction::ApplyAsar { version } => format!("apply-asar:{version}"),
            FlowAction::ApplyPackage { version, electron_version } => {
                format!("apply-package:{version}:{electron_version:?}")
            }
            FlowAction::WaitForSkip(ms) => format!("wait-skip:{ms}"),
            FlowAction::Close => "close".to_string(),
            FlowAction::Launch => "launch".to_string(),
        })
        .collect()
}

fn launch(windows: bool) -> Vec<String> {
    let mut v = vec![
        "pause:80".to_string(),
        "status:Launching Mutualzz...".to_string(),
        "hide-progress".to_string(),
        "pause:80".to_string(),
    ];
    if !windows {
        v.push("close".to_string());
    }
    v.push("launch".to_string());
    v
}

fn strs(v: &[&str]) -> Vec<String> {
    v.iter().map(|s| s.to_string()).collect()
}

fn manifest(asar: bool) -> UpdateManifest {
    UpdateManifest {
        version: "2.0.0".to_string(),
        platforms: vec![PlatformEntry {
            group: "win".to_string(),
            key: "x64".to_string(),
            asset: Some(PlatformAsset {
                url: "https://h/win.zip".to_string(),
                sha256: "aa".to_string(),
                electron_version: Some("30.0.0".to_string()),
                asar: if asar {
                    Some(mutualzz_updater::update::AsarAsset {
                        url: "https://h/app.asar".to_string(),
                        sha256: "bb".to_string(),
                    })
                } else {
                    None
                },
            }),
        }],
    }
}

#[test]
fn run_starts_by_applying_staged_updates() {
    let (f, a) = UpdateFlow::start(TargetOs::Windows, String::new());
    assert_eq!(describe(&a), strs(&["status:Checking for updates...", "apply-staged"]));
    assert!(!f.is_done());
}

#[test]
fn staged_update_applied_skips_check() {
    let (mut f, _) = UpdateFlow::start(TargetOs::Linux, "appimage".to_string());
    let a = f.step(FlowEvent::StagedApplied);
    let mut want = strs(&["cleanup", "status:Up to date!"]);
    want.extend(launch(false));
    assert_eq!(describe(&a), want);
    assert!(f.is_done());
    assert!(f.step(FlowEvent::UpToDate).is_empty());
}

#[test]
fn just_updated_marker_skips_check() {
    let (mut f, _) = UpdateFlow::start(TargetOs::Windows, String::new());
    assert_eq!(describe(&f.step(FlowEvent::StagedNothing)), strs(&["read-marker"]));
    let a = f.step(FlowEvent::Marker { marker: Some("2.0.0\n".to_string()), installed: "2.0.0".to_string() });
    let mut want = strs(&["remove-marker", "cleanup", "status:Up to date!"]);
    want.extend(launch(true));
    assert_eq!(describe(&a), want);
}

#[test]
fn stale_marker_checks_anyway() {
    let (mut f, _) = UpdateFlow::start(TargetOs::Windows, String::new());
    let a = f.step(FlowEvent::StagedFailed("boom".to_string()));
    assert_eq!(describe(&a), strs(&["status:Update failed: boom", "pause:1500", "read-marker"]));
    let a = f.step(FlowEvent::Marker { marker: Some("1.0.0".to_string()), installed: "2.0.0".to_string() });
    assert_eq!(describe(&a), strs(&["remove-marker", "status:Checking for updates...", "check"]));
}

#[test]
fn full_package_update() {
    let (mut f, _) = UpdateFlow::start(TargetOs::Windows, String::new());
    f.step(FlowEvent::StagedNothing);
    let a = f.step(FlowEvent::Marker { marker: None, installed: "1.0.0".to_string() });
    assert_eq!(describe(&a), strs(&["status:Checking for updates...", "check"]));
    let a = f.step(FlowEvent::UpdateFound { manifest: manifest(false), installed_electron: "30.0.0".to_string() });
    assert_eq!(describe(&a), strs(&["download:https://h/win.zip:aa"]));
    let a = f.step(FlowEvent::DownloadDone);
    assert_eq!(
        describe(&a),
        strs(&["progress-complete", "status:Applying update...", "apply-package:2.0.0:Some(\"30.0.0\")"])
    );
    let a = f.step(FlowEvent::ApplyDone);
    let mut want = strs(&["cleanup"]);
    want.extend(launch(true));
    assert_eq!(describe(&a), want);
}

#[test]
fn archive_update_when_runtime_matches() {
    let (mut f, _) = UpdateFlow::start(TargetOs::Windows, String::new());
    f.step(FlowEvent::StagedNothing);
    f.step(FlowEvent::Marker { marker: None, installed: "1.0.0".to_string() });
    let a = f.step(FlowEvent::UpdateFound { manifest: manifest(true), installed_electron: "30.0.0".to_string() });
    assert_eq!(describe(&a), strs(&["download:https://h/app.asar:bb"]));
    let a = f.step(FlowEvent::DownloadDone);
    assert_eq!(describe(&a), strs(&["progress-complete", "status:Applying update...", "apply-asar:2.0.0"]));
    let a = f.step(FlowEvent::ApplyFailed("disk full".to_string()));
    let mut want = strs(&["status:Update failed: disk full", "pause:1500"]);
    want.extend(launch(true));
    assert_eq!(describe(&a), want);
}

#[test]
fn archive_needs_matching_runtime() {
    let (mut f, _) = UpdateFlow::start(TargetOs::Windows, String::new());
    f.step(FlowEvent::StagedNothing);
    f.step(FlowEvent::Marker { marker: None, installed: "1.0.0".to_string() });
    let a = f.step(FlowEvent::UpdateFound { manifest: manifest(true), installed_electron: "29.0.0".to_string() });
    assert_eq!(describe(&a), strs(&["download:https://h/win.zip:aa"]));
    let a = f.step(FlowEvent::DownloadFailed("timeout".to_string()));
    let mut want = strs(&["status:Download failed: timeout", "pause:1500"]);
    want.extend(launch(true));
    assert_eq!(describe(&a), want);
}

#[test]
fn no_asset_for_platform_is_up_to_date() {
    let (mut f, _) = UpdateFlow::start(TargetOs::MacOs, String::new());
    f.step(FlowEvent::StagedNothing);
    f.step(FlowEvent::Marker { marker: None, installed: "1.0.0".to_string() });
    let a = f.step(FlowEvent::UpdateFound { manifest: manifest(false), installed_electron: String::new() });
    let mut want = strs(&["status:Up to date!"]);
    want.extend(launch(false));
    assert_eq!(describe(&a), want);
}

#[test]
fn offline_lets_user_skip() {
    let (mut f, _) = UpdateFlow::start(TargetOs::Linux, String::new());
    f.step(FlowEvent::StagedNothing);
    f.step(FlowEvent::Marker { marker: None, installed: "1.0.0".to_string() });
    let a = f.step(FlowEvent::CheckFailed("dns".to_string()));
    let mut want = strs(&[
        "reset-skip",
        "allow-skip:true",
        "status:Offline \u{2014} hold Space to launch",
        "wait-skip:1800",
        "allow-skip:false",
    ]);
    want.extend(launch(false));
    assert_eq!(describe(&a), want);
}

#[test]
fn unexpected_events_are_ignored() {
    let (mut f, _) = UpdateFlow::start(TargetOs::Linux, String::new());
    assert!(f.step(FlowEvent::DownloadDone).is_empty());
    assert!(f.step(FlowEvent::UpToDate).is_empty());
    assert_eq!(describe(&f.step(FlowEvent::StagedNothing)), strs(&["read-marker"]));
}
