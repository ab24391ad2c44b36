//! The decisions of one updater run, as a state machine: from applying a
//! staged update, through the update check, download and apply, to the
//! launch of the application. The caller performs each action in order and
//! reports the outcome of the outside work as the next event.

use vstd::prelude::*;
use crate::layout::opt_text;
use crate::path::TargetOs;
use crate::text::{chars_of, concat, owned, text_eq, trim, trim_chars};
use crate::update::{chosen_asset, installed_version_of, quick_update_ok, UpdateManifest};
use crate::text::lemma_trim_idempotent;

verus! {

/// Something the caller does, in the order given.
pub enum FlowAction {
    /// Show this status line on the splash screen.
    Status(String),
    /// Fill the progress bar.
    ProgressComplete,
    /// Hide the progress bar.
    HideProgress,
    /// Allow (or stop allowing) the user to skip waiting by holding Space.
    AllowSkip(bool),
    /// Clear the user's request to skip.
    ResetSkip,
    /// Wait this many milliseconds.
    Pause(u64),
    /// Apply a staged or pending update; report `FlowEvent::StagedApplied`,
    /// `StagedNothing` or `StagedFailed`.
    ApplyStaged,
    /// Read the just-updated marker and the installed version; report `FlowEvent::Marker`.
    ReadJustUpdatedMarker,
    /// Delete the just-updated marker.
    RemoveMarker,
    /// Delete the files left in the download directory.
    CleanupTemp,
    /// Fetch the manifest and compare versions; report `FlowEvent::UpdateFound`,
    /// `UpToDate` or `CheckFailed`.
    CheckForUpdate,
    /// Download and verify this file, showing progress; report
    /// `FlowEvent::DownloadDone` or `DownloadFailed`.
    Download { url: String, sha256: String },
    /// Swap in the downloaded archive as `version`; report `FlowEvent::ApplyDone`
    /// or `ApplyFailed`.
    ApplyAsar { version: String },
    /// Apply the downloaded package as `version`; report `FlowEvent::ApplyDone`
    /// or `ApplyFailed`.
    ApplyPackage { version: String, electron_version: Option<String> },
    /// Wait up to this many milliseconds, stopping early when the user skips.
    WaitForSkip(u64),
    /// Close the splash screen.
    Close,
    /// Start the application; the run ends.
    Launch,
}

/// The value of an action.
pub enum ActionView {
    Status(Seq<char>),
    ProgressComplete,
    HideProgress,
    AllowSkip(bool),
    ResetSkip,
    Pause(u64),
    ApplyStaged,
    ReadJustUpdatedMarker,
    RemoveMarker,
    CleanupTemp,
    CheckForUpdate,
    Download { url: Seq<char>, sha256: Seq<char> },
    ApplyAsar { version: Seq<char> },
    ApplyPackage { version: Seq<char>, electron_version: Option<Seq<char>> },
    WaitForSkip(u64),
    Close,
    Launch,
}

impl View for FlowAction {
    type V = ActionView;

    open spec fn view(&self) -> ActionView {
        match self {
            FlowAction::Status(s) => ActionView::Status(s@),
            FlowAction::ProgressComplete => ActionView::ProgressComplete,
            FlowAction::HideProgress => ActionView::HideProgress,
            FlowAction::AllowSkip(b) => ActionView::AllowSkip(*b),
            FlowAction::ResetSkip => ActionView::ResetSkip,
            FlowAction::Pause(ms) => ActionView::Pause(*ms),
            FlowAction::ApplyStaged => ActionView::ApplyStaged,
            FlowAction::ReadJustUpdatedMarker => ActionView::ReadJustUpdatedMarker,
            FlowAction::RemoveMarker => ActionView::RemoveMarker,
            FlowAction::CleanupTemp => ActionView::CleanupTemp,
            FlowAction::CheckForUpdate => ActionView::CheckForUpdate,
            FlowAction::Download { url, sha256 } => ActionView::Download { url: url@, sha256: sha256@ },
            FlowAction::ApplyAsar { version } => ActionView::ApplyAsar { version: version@ },
            FlowAction::ApplyPackage { version, electron_version } => ActionView::ApplyPackage {
                version: version@,
                electron_version: opt_text(*electron_version),
            },
            FlowAction::WaitForSkip(ms) => ActionView::WaitForSkip(*ms),
            FlowAction::Close => ActionView::Close,
            FlowAction::Launch => ActionView::Launch,
        }
    }
}

/// The values of a list of actions.
pub open spec fn action_views(v: Seq<FlowAction>) -> Seq<ActionView> {
    v.map_values(|a: FlowAction| a@)
}

/// What the outside work reported.
pub enum FlowEvent {
    /// A staged update was applied in this process.
    StagedApplied,
    /// There was nothing staged.
    StagedNothing,
    /// Applying the staged update failed with this message.
    StagedFailed(String),
    /// The just-updated marker held `marker` (`None` when it could not be
    /// read) and the installed version is `installed`.
    Marker { marker: Option<String>, installed: String },
    /// A newer `manifest` was published; `installed_electron` is the
    /// installed Electron runtime (empty when unknown).
    UpdateFound { manifest: UpdateManifest, installed_electron: String },
    /// The installed version is current.
    UpToDate,
    /// The update check failed with this message.
    CheckFailed(String),
    /// The download succeeded.
    DownloadDone,
    /// The download failed with this message.
    DownloadFailed(String),
    /// Applying the update succeeded.
    ApplyDone,
    /// Applying the update failed with this message.
    ApplyFailed(String),
}

/// Where a run stands.
pub enum FlowState {
    /// Waiting for the staged update to be applied.
    AwaitStaged,
    /// Waiting for the just-updated marker.
    AwaitMarker,
    /// Waiting for the update check.
    AwaitCheck,
    /// Waiting for the download of `version` (the archive when `asar`).
    AwaitDownload { asar: bool, version: String, electron_version: Option<String> },
    /// Waiting for the downloaded update to be applied.
    AwaitApply,
    /// The application has been launched.
    Done,
}

/// The value of a state.
pub enum StateView {
    AwaitStaged,
    AwaitMarker,
    AwaitCheck,
    AwaitDownload { asar: bool, version: Seq<char>, electron_version: Option<Seq<char>> },
    AwaitApply,
    Done,
}

impl View for FlowState {
    type V = StateView;

    open spec fn view(&self) -> StateView {
        match self {
            FlowState::AwaitStaged => StateView::AwaitStaged,
            FlowState::AwaitMarker => StateView::AwaitMarker,
            FlowState::AwaitCheck => StateView::AwaitCheck,
            FlowState::AwaitDownload { asar, version, electron_version } => StateView::AwaitDownload {
                asar: *asar,
                version: version@,
                electron_version: opt_text(*electron_version),
            },
            FlowState::AwaitApply => StateView::AwaitApply,
            FlowState::Done => StateView::Done,
        }
    }
}

/// One run of the updater.
pub struct UpdateFlow {
    pub state: FlowState,
    /// The platform the run is on.
    pub os: TargetOs,
    /// The Linux package flavour (see `linux_package_key`).
    pub linux_key: String,
}

/// The status shown while checking.
pub open spec fn checking_text() -> Seq<char> {
    "Checking for updates..."@
}

/// The status shown when nothing is to be installed.
pub open spec fn up_to_date_text() -> Seq<char> {
    "Up to date!"@
}

/// The status shown when the check cannot reach the server.
pub open spec fn offline_text() -> Seq<char> {
    "Offline \u{2014} hold Space to launch"@
}

/// How long a failure message stays up, in milliseconds.
pub open spec fn failure_pause() -> u64 {
    1500
}

/// The end of every run: a short pause, the launch status, the progress bar
/// hidden, another pause, the splash closed except on Windows (where the
/// launched application replaces it), and the launch.
pub open spec fn launch_actions(os: TargetOs) -> Seq<ActionView> {
    seq![
        ActionView::Pause(80),
        ActionView::Status("Launching Mutualzz..."@),
        ActionView::HideProgress,
        ActionView::Pause(80),
    ] + if os == TargetOs::Windows {
        seq![ActionView::Launch]
    } else {
        seq![ActionView::Close, ActionView::Launch]
    }
}

/// The actions and next state for `event` in the run `f`.
pub open spec fn transition(f: UpdateFlow, event: FlowEvent) -> (StateView, Seq<ActionView>) {
    let launch = launch_actions(f.os);
    match (f.state, event) {
        (FlowState::AwaitStaged, FlowEvent::StagedApplied) => (
            StateView::Done,
            seq![ActionView::CleanupTemp, ActionView::Status(up_to_date_text())] + launch,
        ),
        (FlowState::AwaitStaged, FlowEvent::StagedNothing) => (
            StateView::AwaitMarker,
            seq![ActionView::ReadJustUpdatedMarker],
        ),
        (FlowState::AwaitStaged, FlowEvent::StagedFailed(e)) => (
            StateView::AwaitMarker,
            seq![
                ActionView::Status("Update failed: "@ + e@),
                ActionView::Pause(failure_pause()),
                ActionView::ReadJustUpdatedMarker,
            ],
        ),
        (FlowState::AwaitMarker, FlowEvent::Marker { marker, installed }) => match marker {
            Some(m) => if trim(m@) == installed@ {
                (
                    StateView::Done,
                    seq![
                        ActionView::RemoveMarker,
                        ActionView::CleanupTemp,
                        ActionView::Status(up_to_date_text()),
                    ] + launch,
                )
            } else {
                (
                    StateView::AwaitCheck,
                    seq![
                        ActionView::RemoveMarker,
                        ActionView::Status(checking_text()),
                        ActionView::CheckForUpdate,
                    ],
                )
            },
            None => (
                StateView::AwaitCheck,
                seq![ActionView::Status(checking_text()), ActionView::CheckForUpdate],
            ),
        },
        (FlowState::AwaitCheck, FlowEvent::UpdateFound { manifest, installed_electron }) => match chosen_asset(
            manifest.platforms@,
            f.os,
            f.linux_key@,
        ) {
            Some(a) => if quick_update_ok(a, installed_electron@) {
                (
                    StateView::AwaitDownload {
                        asar: true,
                        version: manifest.version@,
                        electron_version: opt_text(a.electron_version),
                    },
                    seq![ActionView::Download { url: a.asar->0.url@, sha256: a.asar->0.sha256@ }],
                )
            } else {
                (
                    StateView::AwaitDownload {
                        asar: false,
                        version: manifest.version@,
                        electron_version: opt_text(a.electron_version),
                    },
                    seq![ActionView::Download { url: a.url@, sha256: a.sha256@ }],
                )
            },
            None => (StateView::Done, seq![ActionView::Status(up_to_date_text())] + launch),
        },
        (FlowState::AwaitCheck, FlowEvent::UpToDate) => (
            StateView::Done,
            seq![ActionView::Status(up_to_date_text())] + launch,
        ),
        (FlowState::AwaitCheck, FlowEvent::CheckFailed(_)) => (
            StateView::Done,
            seq![
                ActionView::ResetSkip,
                ActionView::AllowSkip(true),
                ActionView::Status(offline_text()),
                ActionView::WaitForSkip(1800),
                ActionView::AllowSkip(false),
            ] + launch,
        ),
        (
            FlowState::AwaitDownload { asar, version, electron_version },
            FlowEvent::DownloadDone,
        ) => (
            StateView::AwaitApply,
            seq![
                ActionView::ProgressComplete,
                ActionView::Status("Applying update..."@),
                if asar {
                    ActionView::ApplyAsar { version: version@ }
                } else {
                    ActionView::ApplyPackage {
                        version: version@,
                        electron_version: opt_text(electron_version),
                    }
                },
            ],
        ),
        (FlowState::AwaitDownload { .. }, FlowEvent::DownloadFailed(e)) => (
            StateView::Done,
            seq![
                ActionView::Status("Download failed: "@ + e@),
                ActionView::Pause(failure_pause()),
            ] + launch,
        ),
        (FlowState::AwaitApply, FlowEvent::ApplyDone) => (
            StateView::Done,
            seq![ActionView::CleanupTemp] + launch,
        ),
        (FlowState::AwaitApply, FlowEvent::ApplyFailed(e)) => (
            StateView::Done,
            seq![
                ActionView::Status("Update failed: "@ + e@),
                ActionView::Pause(failure_pause()),
            ] + launch,
        ),
        _ => (f.state@, seq![]),
    }
}

/// The event is one the state waits for.
pub open spec fn expected(state: FlowState, event: FlowEvent) -> bool {
    match (state, event) {
        (FlowState::AwaitStaged, FlowEvent::StagedApplied) => true,
        (FlowState::AwaitStaged, FlowEvent::StagedNothing) => true,
        (FlowState::AwaitStaged, FlowEvent::StagedFailed(_)) => true,
        (FlowState::AwaitMarker, FlowEvent::Marker { .. }) => true,
        (FlowState::AwaitCheck, FlowEvent::UpdateFound { .. }) => true,
        (FlowState::AwaitCheck, FlowEvent::UpToDate) => true,
        (FlowState::AwaitCheck, FlowEvent::CheckFailed(_)) => true,
        (FlowState::AwaitDownload { .. }, FlowEvent::DownloadDone) => true,
        (FlowState::AwaitDownload { .. }, FlowEvent::DownloadFailed(_)) => true,
        (FlowState::AwaitApply, FlowEvent::ApplyDone) => true,
        (FlowState::AwaitApply, FlowEvent::ApplyFailed(_)) => true,
        _ => false,
    }
}

/// Appends `more` to `v`.
fn append_actions(v: &mut Vec<FlowAction>, more: Vec<FlowAction>)
    ensures
        action_views(final(v)@) == action_views(old(v)@) + action_views(more@),
{
    let mut more = more;
    let ghost added = more@;
    v.append(&mut more);
    assert(action_views(v@) =~= action_views(old(v)@) + action_views(added));
}

/// The end of every run (see `launch_actions`).
fn launch_sequence(os: TargetOs) -> (r: Vec<FlowAction>)
    ensures
        action_views(r@) == launch_actions(os),
{
    let mut r: Vec<FlowAction> = Vec::new();
    r.push(FlowAction::Pause(80));
    r.push(FlowAction::Status(owned("Launching Mutualzz...")));
    r.push(FlowAction::HideProgress);
    r.push(FlowAction::Pause(80));
    if os != TargetOs::Windows {
        r.push(FlowAction::Close);
    }
    r.push(FlowAction::Launch);
    assert(action_views(r@) =~= launch_actions(os));
    r
}

/// `prefix` followed by the end of the run.
fn then_launch(prefix: Vec<FlowAction>, os: TargetOs) -> (r: Vec<FlowAction>)
    ensures
        action_views(r@) == action_views(prefix@) + launch_actions(os),
{
    let mut v = prefix;
    append_actions(&mut v, launch_sequence(os));
    v
}

impl UpdateFlow {
    /// Starts a run on `os`: show that updates are being checked and apply
    /// any staged update.
    pub fn start(os: TargetOs, linux_key: String) -> (r: (UpdateFlow, Vec<FlowAction>))
        ensures
            r.0.state@ == StateView::AwaitStaged,
            r.0.os == os,
            r.0.linux_key@ == linux_key@,
            action_views(r.1@) == seq![
                ActionView::Status(checking_text()),
                ActionView::ApplyStaged,
            ],
    {
        let mut v: Vec<FlowAction> = Vec::new();
        v.push(FlowAction::Status(owned("Checking for updates...")));
        v.push(FlowAction::ApplyStaged);
        assert(action_views(v@) =~= seq![ActionView::Status(checking_text()), ActionView::ApplyStaged]);
        (UpdateFlow { state: FlowState::AwaitStaged, os, linux_key }, v)
    }

    /// The run has ended with the launch.
    pub fn is_done(&self) -> (r: bool)
        ensures
            r == (self.state@ == StateView::Done),
    {
        match self.state {
            FlowState::Done => true,
            _ => false,
        }
    }

    /// Takes the outcome `event` of the last outside work: moves to the
    /// next state and returns the actions to perform, as `transition`
    /// describes. An event the state does not wait for changes nothing.
    pub fn step(&mut self, event: FlowEvent) -> (r: Vec<FlowAction>)
        ensures
            (final(self).state@, action_views(r@)) == transition(*old(self), event),
            final(self).os == old(self).os,
            final(self).linux_key == old(self).linux_key,
    {
        let os = self.os;
        let ghost old_self = *self;
        match (&self.state, event) {
            (FlowState::AwaitStaged, FlowEvent::StagedApplied) => {
                let mut v: Vec<FlowAction> = Vec::new();
                v.push(FlowAction::CleanupTemp);
                v.push(FlowAction::Status(owned("Up to date!")));
                assert(action_views(v@) =~= seq![ActionView::CleanupTemp, ActionView::Status(up_to_date_text())]);
                self.state = FlowState::Done;
                then_launch(v, os)
            },
            (FlowState::AwaitStaged, FlowEvent::StagedNothing) => {
                let mut v: Vec<FlowAction> = Vec::new();
                v.push(FlowAction::ReadJustUpdatedMarker);
                assert(action_views(v@) =~= seq![ActionView::ReadJustUpdatedMarker]);
                self.state = FlowState::AwaitMarker;
                v
            },
            (FlowState::AwaitStaged, FlowEvent::StagedFailed(e)) => {
                let mut v: Vec<FlowAction> = Vec::new();
                v.push(FlowAction::Status(concat("Update failed: ", e.as_str())));
                v.push(FlowAction::Pause(1500));
                v.push(FlowAction::ReadJustUpdatedMarker);
                assert(action_views(v@) =~= seq![
                    ActionView::Status("Update failed: "@ + e@),
                    ActionView::Pause(failure_pause()),
                    ActionView::ReadJustUpdatedMarker,
                ]);
                self.state = FlowState::AwaitMarker;
                v
            },
            (FlowState::AwaitMarker, FlowEvent::Marker { marker, installed }) => {
                let mut v: Vec<FlowAction> = Vec::new();
                let skip = match &marker {
                    Some(m) => {
                        let t = trim_chars(&chars_of(m.as_str()));
                        text_eq(&t, installed.as_str())
                    },
                    None => false,
                };
                if marker.is_some() {
                    v.push(FlowAction::RemoveMarker);
                }
                if skip {
                    v.push(FlowAction::CleanupTemp);
                    v.push(FlowAction::Status(owned("Up to date!")));
                    assert(action_views(v@) =~= seq![
                        ActionView::RemoveMarker,
                        ActionView::CleanupTemp,
                        ActionView::Status(up_to_date_text()),
                    ]);
                    self.state = FlowState::Done;
                    then_launch(v, os)
                } else {
                    v.push(FlowAction::Status(owned("Checking for updates...")));
                    v.push(FlowAction::CheckForUpdate);
                    if marker.is_some() {
                        assert(action_views(v@) =~= seq![
                            ActionView::RemoveMarker,
                            ActionView::Status(checking_text()),
                            ActionView::CheckForUpdate,
                        ]);
                    } else {
                        assert(action_views(v@) =~= seq![
                            ActionView::Status(checking_text()),
                            ActionView::CheckForUpdate,
                        ]);
                    }
                    self.state = FlowState::AwaitCheck;
                    v
                }
            },
            (FlowState::AwaitCheck, FlowEvent::UpdateFound { manifest, installed_electron }) => {
                let quick = manifest.asar_update(os, self.linux_key.as_str(), installed_electron.as_str());
                let mut v: Vec<FlowAction> = Vec::new();
                match self_asset(&manifest, os, &self.linux_key) {
                    Some((url, sha, ev)) => {
                        match quick {
                            Some(q) => {
                                v.push(FlowAction::Download { url: q.url, sha256: q.sha256 });
                                self.state = FlowState::AwaitDownload {
                                    asar: true,
                                    version: manifest.version,
                                    electron_version: ev,
                                };
                            },
                            None => {
                                v.push(FlowAction::Download { url, sha256: sha });
                                self.state = FlowState::AwaitDownload {
                                    asar: false,
                                    version: manifest.version,
                                    electron_version: ev,
                                };
                            },
                        }
                        v
                    },
                    None => {
                        v.push(FlowAction::Status(owned("Up to date!")));
                        assert(action_views(v@) =~= seq![ActionView::Status(up_to_date_text())]);
                        self.state = FlowState::Done;
                        then_launch(v, os)
                    },
                }
            },
            (FlowState::AwaitCheck, FlowEvent::UpToDate) => {
                let mut v: Vec<FlowAction> = Vec::new();
                v.push(FlowAction::Status(owned("Up to date!")));
                assert(action_views(v@) =~= seq![ActionView::Status(up_to_date_text())]);
                self.state = FlowState::Done;
                then_launch(v, os)
            },
            (FlowState::AwaitCheck, FlowEvent::CheckFailed(_)) => {
                let mut v: Vec<FlowAction> = Vec::new();
                v.push(FlowAction::ResetSkip);
                v.push(FlowAction::AllowSkip(true));
                v.push(FlowAction::Status(owned("Offline \u{2014} hold Space to launch")));
                v.push(FlowAction::WaitForSkip(1800));
                v.push(FlowAction::AllowSkip(false));
                assert(action_views(v@) =~= seq![
                    ActionView::ResetSkip,
                    ActionView::AllowSkip(true),
                    ActionView::Status(offline_text()),
                    ActionView::WaitForSkip(1800),
                    ActionView::AllowSkip(false),
                ]);
                self.state = FlowState::Done;
                then_launch(v, os)
            },
            (FlowState::AwaitDownload { asar, version, electron_version }, FlowEvent::DownloadDone) => {
                let mut v: Vec<FlowAction> = Vec::new();
                v.push(FlowAction::ProgressComplete);
                v.push(FlowAction::Status(owned("Applying update...")));
                let ver = version.clone();
                if *asar {
                    v.push(FlowAction::ApplyAsar { version: ver });
                } else {
                    let ev = match electron_version {
                        Some(e) => Some(e.clone()),
                        None => None,
                    };
                    v.push(FlowAction::ApplyPackage { version: ver, electron_version: ev });
                }
                assert(action_views(v@) =~= transition(old_self, FlowEvent::DownloadDone).1);
                self.state = FlowState::AwaitApply;
                v
            },
            (FlowState::AwaitDownload { .. }, FlowEvent::DownloadFailed(e)) => {
                let mut v: Vec<FlowAction> = Vec::new();
                v.push(FlowAction::Status(concat("Download failed: ", e.as_str())));
                v.push(FlowAction::Pause(1500));
                assert(action_views(v@) =~= seq![
                    ActionView::Status("Download failed: "@ + e@),
                    ActionView::Pause(failure_pause()),
                ]);
                self.state = FlowState::Done;
                then_launch(v, os)
            },
            (FlowState::AwaitApply, FlowEvent::ApplyDone) => {
                let mut v: Vec<FlowAction> = Vec::new();
                v.push(FlowAction::CleanupTemp);
                assert(action_views(v@) =~= seq![ActionView::CleanupTemp]);
                self.state = FlowState::Done;
                then_launch(v, os)
            },
            (FlowState::AwaitApply, FlowEvent::ApplyFailed(e)) => {
                let mut v: Vec<FlowAction> = Vec::new();
                v.push(FlowAction::Status(concat("Update failed: ", e.as_str())));
                v.push(FlowAction::Pause(1500));
                assert(action_views(v@) =~= seq![
                    ActionView::Status("Update failed: "@ + e@),
                    ActionView::Pause(failure_pause()),
                ]);
                self.state = FlowState::Done;
                then_launch(v, os)
            },
            _ => {
                let v: Vec<FlowAction> = Vec::new();
                assert(action_views(v@) =~= Seq::<ActionView>::empty());
                v
            },
        }
    }
}

/// The download and Electron runtime of the platform's asset, when there is one.
fn self_asset(manifest: &UpdateManifest, os: TargetOs, linux_key: &String) -> (r: Option<(String, String, Option<String>)>)
    ensures
        match chosen_asset(manifest.platforms@, os, linux_key@) {
            Some(a) => r matches Some((u, s, e)) && u@ == a.url@ && s@ == a.sha256@ && opt_text(e) == opt_text(a.electron_version),
            None => r is None,
        },
{
    match manifest.asset_for_current_platform(os, linux_key.as_str()) {
        Some(a) => {
            let e = match &a.electron_version {
                Some(x) => Some(x.clone()),
                None => None,
            };
            Some((a.url.clone(), a.sha256.clone(), e))
        },
        None => None,
    }
}

/// How many outside results a run can still wait for.
pub open spec fn remaining_steps(s: StateView) -> nat {
    match s {
        StateView::AwaitStaged => 5,
        StateView::AwaitMarker => 4,
        StateView::AwaitCheck => 3,
        StateView::AwaitDownload { .. } => 2,
        StateView::AwaitApply => 1,
        StateView::Done => 0,
    }
}

/// Every outcome a run waits for moves it forward: the number of outside
/// results it can still wait for drops, so a run launches the application
/// after at most five of them.
pub proof fn lemma_flow_progress(f: UpdateFlow, event: FlowEvent)
    requires
        expected(f.state, event),
    ensures
        remaining_steps(transition(f, event).0) < remaining_steps(f.state@),
{
}

/// An outcome the run does not wait for changes nothing and asks for nothing.
pub proof fn lemma_unexpected_ignored(f: UpdateFlow, event: FlowEvent)
    requires
        !expected(f.state, event),
    ensures
        transition(f, event) == (f.state@, Seq::<ActionView>::empty()),
{
}

/// A run that has launched the application stays ended.
pub proof fn lemma_done_is_final(f: UpdateFlow, event: FlowEvent)
    requires
        f.state@ == StateView::Done,
    ensures
        transition(f, event) == (StateView::Done, Seq::<ActionView>::empty()),
{
}

/// The action is part of the offline prompt: allowing the user to skip,
/// waiting for a skip, or the offline message.
pub open spec fn offline_prompt_action(a: ActionView) -> bool {
    ||| a is WaitForSkip
    ||| a == ActionView::AllowSkip(true)
    ||| a == ActionView::Status("Offline \u{2014} hold Space to launch"@)
}

/// No action of `s` is part of the offline prompt.
pub open spec fn no_offline_prompt(s: Seq<ActionView>) -> bool {
    forall|i: int| 0 <= i < s.len() ==> !offline_prompt_action(#[trigger] s[i])
}

proof fn lemma_no_offline_prompt_concat(a: Seq<ActionView>, b: Seq<ActionView>)
    requires
        no_offline_prompt(a),
        no_offline_prompt(b),
    ensures
        no_offline_prompt(a + b),
{
    assert forall|i: int| 0 <= i < (a + b).len() implies !offline_prompt_action(#[trigger] (a + b)[i]) by {
        if i < a.len() {
            assert((a + b)[i] == a[i]);
        } else {
            assert((a + b)[i] == b[i - a.len()]);
        }
    }
}

/// A status text that does not start with `O` is not the offline message.
proof fn lemma_not_offline_text(t: Seq<char>)
    requires
        t.len() > 0,
        t[0] != 'O',
    ensures
        !offline_prompt_action(ActionView::Status(t)),
{
    reveal_strlit("Offline \u{2014} hold Space to launch");
}

proof fn lemma_launch_has_no_offline_prompt(os: TargetOs)
    ensures
        no_offline_prompt(launch_actions(os)),
{
    reveal_strlit("Launching Mutualzz...");
    lemma_not_offline_text("Launching Mutualzz..."@);
    assert forall|i: int| 0 <= i < launch_actions(os).len() implies !offline_prompt_action(
        #[trigger] launch_actions(os)[i],
    ) by {
        if i == 1 {
            assert(launch_actions(os)[1] == ActionView::Status("Launching Mutualzz..."@));
        }
    }
}

proof fn lemma_prefix_has_no_offline_prompt(p: Seq<ActionView>, os: TargetOs)
    requires
        no_offline_prompt(p),
    ensures
        no_offline_prompt(p + launch_actions(os)),
{
    lemma_launch_has_no_offline_prompt(os);
    lemma_no_offline_prompt_concat(p, launch_actions(os));
}

/// The offline prompt (the skip allowance, the wait for a skip and the
/// offline message) only ever follows a failed update check: any step whose
/// actions include one of them was the check's failure.
pub proof fn lemma_offline_prompt_only_after_failed_check(f: UpdateFlow, event: FlowEvent, i: int)
    requires
        0 <= i < transition(f, event).1.len(),
        offline_prompt_action(transition(f, event).1[i]),
    ensures
        f.state@ == StateView::AwaitCheck,
        event is CheckFailed,
{
    let os = f.os;
    reveal_strlit("Up to date!");
    reveal_strlit("Checking for updates...");
    reveal_strlit("Applying update...");
    reveal_strlit("Update failed: ");
    reveal_strlit("Download failed: ");
    lemma_not_offline_text("Up to date!"@);
    lemma_not_offline_text("Checking for updates..."@);
    lemma_not_offline_text("Applying update..."@);
    let up = seq![ActionView::Status(up_to_date_text())];
    assert(no_offline_prompt(up));
    match (f.state, event) {
        (FlowState::AwaitStaged, FlowEvent::StagedApplied) => {
            let p = seq![ActionView::CleanupTemp, ActionView::Status(up_to_date_text())];
            assert(no_offline_prompt(p));
            lemma_prefix_has_no_offline_prompt(p, os);
        },
        (FlowState::AwaitStaged, FlowEvent::StagedFailed(e)) => {
            lemma_not_offline_text("Update failed: "@ + e@);
            let p = seq![
                ActionView::Status("Update failed: "@ + e@),
                ActionView::Pause(failure_pause()),
                ActionView::ReadJustUpdatedMarker,
            ];
            assert(no_offline_prompt(p));
        },
        (FlowState::AwaitMarker, FlowEvent::Marker { marker, installed }) => {
            let p = seq![
                ActionView::RemoveMarker,
                ActionView::CleanupTemp,
                ActionView::Status(up_to_date_text()),
            ];
            assert(no_offline_prompt(p));
            lemma_prefix_has_no_offline_prompt(p, os);
            assert(no_offline_prompt(seq![
                ActionView::RemoveMarker,
                ActionView::Status(checking_text()),
                ActionView::CheckForUpdate,
            ]));
            assert(no_offline_prompt(seq![ActionView::Status(checking_text()), ActionView::CheckForUpdate]));
        },
        (FlowState::AwaitCheck, FlowEvent::UpdateFound { .. }) => {
            lemma_prefix_has_no_offline_prompt(up, os);
        },
        (FlowState::AwaitCheck, FlowEvent::UpToDate) => {
            lemma_prefix_has_no_offline_prompt(up, os);
        },
        (FlowState::AwaitDownload { asar, version, electron_version }, FlowEvent::DownloadDone) => {
        },
        (FlowState::AwaitDownload { .. }, FlowEvent::DownloadFailed(e)) => {
            lemma_not_offline_text("Download failed: "@ + e@);
            let p = seq![ActionView::Status("Download failed: "@ + e@), ActionView::Pause(failure_pause())];
            assert(no_offline_prompt(p));
            lemma_prefix_has_no_offline_prompt(p, os);
        },
        (FlowState::AwaitApply, FlowEvent::ApplyDone) => {
            lemma_prefix_has_no_offline_prompt(seq![ActionView::CleanupTemp], os);
        },
        (FlowState::AwaitApply, FlowEvent::ApplyFailed(e)) => {
            lemma_not_offline_text("Update failed: "@ + e@);
            let p = seq![ActionView::Status("Update failed: "@ + e@), ActionView::Pause(failure_pause())];
            assert(no_offline_prompt(p));
            lemma_prefix_has_no_offline_prompt(p, os);
        },
        _ => {},
    }
}

/// When the check finds the installed version current, the run ends: it
/// shows exactly `Up to date!` and then launches, with no offline prompt
/// and no wait for a skip.
pub proof fn lemma_up_to_date_then_launch(f: UpdateFlow)
    requires
        f.state@ == StateView::AwaitCheck,
    ensures
        transition(f, FlowEvent::UpToDate) == (
            StateView::Done,
            seq![ActionView::Status("Up to date!"@)] + launch_actions(f.os),
        ),
        no_offline_prompt(transition(f, FlowEvent::UpToDate).1),
{
    reveal_strlit("Up to date!");
    lemma_not_offline_text("Up to date!"@);
    assert(no_offline_prompt(seq![ActionView::Status("Up to date!"@)]));
    lemma_prefix_has_no_offline_prompt(seq![ActionView::Status("Up to date!"@)], f.os);
}

/// No action of `s` is the launch.
pub open spec fn launch_free(s: Seq<ActionView>) -> bool {
    forall|i: int| 0 <= i < s.len() ==> s[i] != ActionView::Launch
}

/// `s` ends with its only launch, preceded somewhere by the launch status
/// and the hiding of the progress bar.
pub open spec fn ends_with_launch(s: Seq<ActionView>) -> bool {
    &&& s.len() > 0
    &&& s.last() == ActionView::Launch
    &&& launch_free(s.drop_last())
    &&& s.contains(ActionView::Status("Launching Mutualzz..."@))
    &&& s.contains(ActionView::HideProgress)
}

proof fn lemma_prefix_then_launch(p: Seq<ActionView>, os: TargetOs)
    requires
        launch_free(p),
    ensures
        ends_with_launch(p + launch_actions(os)),
{
    let s = p + launch_actions(os);
    let n = p.len() as int;
    assert(s[n + 1] == ActionView::Status("Launching Mutualzz..."@));
    assert(s[n + 2] == ActionView::HideProgress);
    assert forall|i: int| 0 <= i < s.drop_last().len() implies s.drop_last()[i]
        != ActionView::Launch by {
        if i >= n {
            assert(s.drop_last()[i] == launch_actions(os)[i - n]);
        }
    }
}

/// The application is launched exactly when a run ends: a step that ends
/// the run asks for one launch, as its last action, after the launch status
/// and with the progress bar hidden; any other step asks for none.
pub proof fn lemma_launch_ends_run(f: UpdateFlow, event: FlowEvent)
    ensures
        transition(f, event).0 == StateView::Done && f.state@ != StateView::Done ==> ends_with_launch(
            transition(f, event).1,
        ),
        transition(f, event).0 != StateView::Done ==> launch_free(transition(f, event).1),
{
    let os = f.os;
    match (f.state, event) {
        (FlowState::AwaitStaged, FlowEvent::StagedApplied) => {
            lemma_prefix_then_launch(seq![ActionView::CleanupTemp, ActionView::Status(up_to_date_text())], os);
        },
        (FlowState::AwaitMarker, FlowEvent::Marker { marker, installed }) => {
            lemma_prefix_then_launch(seq![
                ActionView::RemoveMarker,
                ActionView::CleanupTemp,
                ActionView::Status(up_to_date_text()),
            ], os);
        },
        (FlowState::AwaitCheck, FlowEvent::UpdateFound { .. }) => {
            lemma_prefix_then_launch(seq![ActionView::Status(up_to_date_text())], os);
        },
        (FlowState::AwaitCheck, FlowEvent::UpToDate) => {
            lemma_prefix_then_launch(seq![ActionView::Status(up_to_date_text())], os);
        },
        (FlowState::AwaitCheck, FlowEvent::CheckFailed(_)) => {
            lemma_prefix_then_launch(seq![
                ActionView::ResetSkip,
                ActionView::AllowSkip(true),
                ActionView::Status(offline_text()),
                ActionView::WaitForSkip(1800),
                ActionView::AllowSkip(false),
            ], os);
        },
        (FlowState::AwaitDownload { .. }, FlowEvent::DownloadFailed(e)) => {
            lemma_prefix_then_launch(seq![
                ActionView::Status("Download failed: "@ + e@),
                ActionView::Pause(failure_pause()),
            ], os);
        },
        (FlowState::AwaitApply, FlowEvent::ApplyDone) => {
            lemma_prefix_then_launch(seq![ActionView::CleanupTemp], os);
        },
        (FlowState::AwaitApply, FlowEvent::ApplyFailed(e)) => {
            lemma_prefix_then_launch(seq![
                ActionView::Status("Update failed: "@ + e@),
                ActionView::Pause(failure_pause()),
            ], os);
        },
        _ => {},
    }
}

/// After an update that wrote the same version `v` to the version file and
/// to the just-updated marker, the next run reads the marker, finds it equal
/// to the installed version, removes it, and does not check for updates; a
/// marker for another version leads to the check.
pub proof fn lemma_just_updated_skips_check(f: UpdateFlow, marker: String, installed: String)
    requires
        f.state@ == StateView::AwaitMarker,
    ensures
        installed@ == installed_version_of(Some(marker@)) ==> ({
            let t = transition(f, FlowEvent::Marker { marker: Some(marker), installed });
            &&& t.0 == StateView::Done
            &&& t.1[0] == ActionView::RemoveMarker
            &&& t.1[2] == ActionView::Status(up_to_date_text())
            &&& !t.1.contains(ActionView::CheckForUpdate)
        }),
        trim(marker@) != installed@ ==> ({
            let t = transition(f, FlowEvent::Marker { marker: Some(marker), installed });
            &&& t.0 == StateView::AwaitCheck
            &&& t.1 == seq![
                ActionView::RemoveMarker,
                ActionView::Status(checking_text()),
                ActionView::CheckForUpdate,
            ]
        }),
{
    let t = transition(f, FlowEvent::Marker { marker: Some(marker), installed });
    if installed@ == installed_version_of(Some(marker@)) {
        lemma_trim_idempotent(marker@);
        lemma_launch_ends_run(f, FlowEvent::Marker { marker: Some(marker), installed });
        if t.1.contains(ActionView::CheckForUpdate) {
            let i = choose|i: int| 0 <= i < t.1.len() && t.1[i] == ActionView::CheckForUpdate;
            if i >= 3 {
                assert(t.1[i] == launch_actions(f.os)[i - 3]);
            }
        }
    }
}

/// The action applies a downloaded update.
pub open spec fn is_apply(a: ActionView) -> bool {
    a is ApplyAsar || a is ApplyPackage
}

/// An update is applied only right after its download succeeded (the
/// download is reported done only once its checksum matched), and then
/// the download of the archive leads to the archive's swap, that of a
/// package to the package's install, for the version that was found.
pub proof fn lemma_apply_only_after_download(f: UpdateFlow, event: FlowEvent)
    ensures
        (exists|i: int|
            0 <= i < transition(f, event).1.len() && is_apply(#[trigger] transition(f, event).1[i]))
            ==> (f.state is AwaitDownload && event is DownloadDone && match f.state {
            FlowState::AwaitDownload { asar, version, .. } => transition(f, event).1[2] == if asar {
                ActionView::ApplyAsar { version: version@ }
            } else {
                ActionView::ApplyPackage {
                    version: version@,
                    electron_version: opt_text(f.state->electron_version),
                }
            },
            _ => false,
        }),
{
}

} // verus!
