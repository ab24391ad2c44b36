//! The update manifest and the bookkeeping of an update check and download:
//! which published asset fits this platform, whether the quick archive
//! update applies, the installed-version files, and the decisions of a
//! resumable, checksummed download.

use vstd::prelude::*;
use crate::path::{AppPath, PathView, TargetOs};
use crate::layout::{data_root, opt_text, root_parts, version_in_file};
use crate::text::{lemma_trim_idempotent, after_last, after_last_chars, before_first, before_first_chars, chars_of, concat, decimal, decimal_string, first_index_of, last_index_of, owned, string_of, text_eq, trim, trim_chars};
use crate::digest::{ChecksumMismatch, Sha256Stream, hex_lower, sha256_of, stream_input, verify_checksum};
use crate::version::{remote_is_newer, semver_newer, semver_parse_outcome, VersionCheckError};

verus! {

/// The application archive that can replace the installed one in place.
pub struct AsarAsset {
    pub url: String,
    pub sha256: String,
}

/// A published package for one platform.
pub struct PlatformAsset {
    pub url: String,
    pub sha256: String,
    /// The Electron runtime the package ships, when the manifest names it.
    pub electron_version: Option<String>,
    /// The archive-only update, when the manifest offers one.
    pub asar: Option<AsarAsset>,
}

/// One entry of the manifest's platform table: `group` (`osx`, `win`,
/// `linux`) and `key` (`universal`, `x64`, a package flavour) name it;
/// `asset` is `None` when the entry is there but is not a valid asset.
pub struct PlatformEntry {
    pub group: String,
    pub key: String,
    pub asset: Option<PlatformAsset>,
}

/// The published update: its version and its platform table.
pub struct UpdateManifest {
    pub version: String,
    pub platforms: Vec<PlatformEntry>,
}

/// An archive-only update to download.
pub struct AsarUpdate {
    pub url: String,
    pub sha256: String,
}

/// The entry `e` is the one at `group`/`key`.
pub open spec fn entry_is(e: PlatformEntry, group: Seq<char>, key: Seq<char>) -> bool {
    e.group@ == group && e.key@ == key
}

/// `i` is the first entry of `entries` at `group`/`key`.
pub open spec fn first_entry_at(entries: Seq<PlatformEntry>, group: Seq<char>, key: Seq<char>, i: int) -> bool {
    0 <= i < entries.len() && entry_is(entries[i], group, key) && forall|j: int|
        0 <= j < i ==> !entry_is(#[trigger] entries[j], group, key)
}

/// Some entry of `entries` is at `group`/`key`.
pub open spec fn has_entry(entries: Seq<PlatformEntry>, group: Seq<char>, key: Seq<char>) -> bool {
    exists|i: int| 0 <= i < entries.len() && entry_is(#[trigger] entries[i], group, key)
}

/// The places in the platform table that hold this platform's package, in
/// the order they are looked up: `osx/universal` on macOS, `win/x64` on
/// Windows, and on Linux the package flavour `linux_key`, then `appimage`,
/// then `debian`.
pub open spec fn asset_places(os: TargetOs, linux_key: Seq<char>) -> Seq<(Seq<char>, Seq<char>)> {
    match os {
        TargetOs::MacOs => seq![("osx"@, "universal"@)],
        TargetOs::Windows => seq![("win"@, "x64"@)],
        TargetOs::Linux => seq![
            ("linux"@, linux_key),
            ("linux"@, "appimage"@),
            ("linux"@, "debian"@),
        ],
    }
}

/// The entry found for this platform: the first entry at the first of
/// `places` that the table has.
pub open spec fn chosen_entry(entries: Seq<PlatformEntry>, places: Seq<(Seq<char>, Seq<char>)>, i: int) -> bool {
    exists|p: int|
        0 <= p < places.len() && first_entry_at(entries, places[p].0, places[p].1, i) && forall|
            q: int,
        |
            0 <= q < p ==> !has_entry(entries, #[trigger] places[q].0, places[q].1)
}

/// The asset of the entry found for this platform; `None` when the table
/// has no entry at any of its places, or that entry is not a valid asset.
pub open spec fn chosen_asset(entries: Seq<PlatformEntry>, os: TargetOs, linux_key: Seq<char>) -> Option<PlatformAsset> {
    let places = asset_places(os, linux_key);
    if exists|i: int| chosen_entry(entries, places, i) {
        entries[choose|i: int| chosen_entry(entries, places, i)].asset
    } else {
        None
    }
}

/// The index of the first entry at `group`/`key`.
fn find_entry(entries: &Vec<PlatformEntry>, group: &str, key: &str) -> (r: Option<usize>)
    ensures
        match r {
            Some(i) => first_entry_at(entries@, group@, key@, i as int),
            None => !has_entry(entries@, group@, key@),
        },
{
    let mut i: usize = 0;
    while i < entries.len()
        invariant
            i <= entries.len(),
            forall|j: int| 0 <= j < i ==> !entry_is(#[trigger] entries@[j], group@, key@),
        decreases entries.len() - i,
    {
        let e = &entries[i];
        if text_eq(&chars_of(e.group.as_str()), group) && text_eq(&chars_of(e.key.as_str()), key) {
            return Some(i);
        }
        i = i + 1;
    }
    None
}

impl UpdateManifest {
    /// The index of the platform entry for `os` (`linux_key` is the Linux
    /// package flavour): the first entry at the first place of
    /// `asset_places` that the table has; `None` when it has none of them.
    pub fn asset_index(&self, os: TargetOs, linux_key: &str) -> (r: Option<usize>)
        ensures
            match r {
                Some(i) => chosen_entry(self.platforms@, asset_places(os, linux_key@), i as int),
                None => forall|p: int|
                    0 <= p < asset_places(os, linux_key@).len() ==> !has_entry(
                        self.platforms@,
                        #[trigger] asset_places(os, linux_key@)[p].0,
                        asset_places(os, linux_key@)[p].1,
                    ),
            },
    {
        let ghost places = asset_places(os, linux_key@);
        match os {
            TargetOs::MacOs => {
                let r = find_entry(&self.platforms, "osx", "universal");
                proof {
                    if let Some(i) = r {
                        assert(first_entry_at(self.platforms@, places[0].0, places[0].1, i as int));
                    }
                }
                r
            },
            TargetOs::Windows => {
                let r = find_entry(&self.platforms, "win", "x64");
                proof {
                    if let Some(i) = r {
                        assert(first_entry_at(self.platforms@, places[0].0, places[0].1, i as int));
                    }
                }
                r
            },
            TargetOs::Linux => {
                let a = find_entry(&self.platforms, "linux", linux_key);
                if let Some(i) = a {
                    assert(first_entry_at(self.platforms@, places[0].0, places[0].1, i as int));
                    return a;
                }
                let b = find_entry(&self.platforms, "linux", "appimage");
                if let Some(i) = b {
                    assert(first_entry_at(self.platforms@, places[1].0, places[1].1, i as int));
                    assert(forall|q: int| 0 <= q < 1 ==> !has_entry(self.platforms@, #[trigger] places[q].0, places[q].1));
                    return b;
                }
                let c = find_entry(&self.platforms, "linux", "debian");
                if let Some(i) = c {
                    assert(first_entry_at(self.platforms@, places[2].0, places[2].1, i as int));
                    assert(forall|q: int| 0 <= q < 2 ==> !has_entry(self.platforms@, #[trigger] places[q].0, places[q].1));
                }
                c
            },
        }
    }

    /// The published asset for `os`: the asset of the entry `asset_index`
    /// finds; `None` when there is no entry or it is not a valid asset.
    pub fn asset_for_current_platform(&self, os: TargetOs, linux_key: &str) -> (r: Option<&PlatformAsset>)
        ensures
            match r {
                Some(a) => chosen_asset(self.platforms@, os, linux_key@) == Some(*a),
                None => chosen_asset(self.platforms@, os, linux_key@) is None,
            },
    {
        match self.asset_index(os, linux_key) {
            Some(i) => {
                proof {
                    assert forall|k: int|
                        chosen_entry(self.platforms@, asset_places(os, linux_key@), k) implies k
                        == i as int by {
                        lemma_chosen_unique(self.platforms@, asset_places(os, linux_key@), k, i as int);
                    }
                    assert(chosen_entry(self.platforms@, asset_places(os, linux_key@), i as int));
                }
                match &self.platforms[i].asset {
                    Some(a) => Some(a),
                    None => None,
                }
            },
            None => {
                proof {
                    assert forall|k: int|
                        chosen_entry(self.platforms@, asset_places(os, linux_key@), k) implies #[trigger] self.platforms@[k].asset is None by {
                        let p = choose|p: int|
                            0 <= p < asset_places(os, linux_key@).len() && first_entry_at(
                                self.platforms@,
                                asset_places(os, linux_key@)[p].0,
                                asset_places(os, linux_key@)[p].1,
                                k,
                            ) && forall|q: int|
                                0 <= q < p ==> !has_entry(
                                    self.platforms@,
                                    #[trigger] asset_places(os, linux_key@)[q].0,
                                    asset_places(os, linux_key@)[q].1,
                                );
                        assert(entry_is(self.platforms@[k], asset_places(os, linux_key@)[p].0, asset_places(os, linux_key@)[p].1));
                        assert(!has_entry(self.platforms@, asset_places(os, linux_key@)[p].0, asset_places(os, linux_key@)[p].1));
                    }
                }
                None
            },
        }
    }
}

proof fn lemma_chosen_unique(entries: Seq<PlatformEntry>, places: Seq<(Seq<char>, Seq<char>)>, a: int, b: int)
    requires
        chosen_entry(entries, places, a),
        chosen_entry(entries, places, b),
    ensures
        a == b,
{
    let p = choose|p: int|
        0 <= p < places.len() && first_entry_at(entries, places[p].0, places[p].1, a) && forall|q: int|
            0 <= q < p ==> !has_entry(entries, #[trigger] places[q].0, places[q].1);
    let r = choose|p: int|
        0 <= p < places.len() && first_entry_at(entries, places[p].0, places[p].1, b) && forall|q: int|
            0 <= q < p ==> !has_entry(entries, #[trigger] places[q].0, places[q].1);
    assert(entry_is(entries[a], places[p].0, places[p].1));
    assert(entry_is(entries[b], places[r].0, places[r].1));
    if p < r {
        assert(has_entry(entries, places[p].0, places[p].1));
    } else if r < p {
        assert(has_entry(entries, places[r].0, places[r].1));
    } else {
        if a < b {
            assert(!entry_is(entries[a], places[r].0, places[r].1));
        } else if b < a {
            assert(!entry_is(entries[b], places[p].0, places[p].1));
        }
    }
}

/// The archive-only update applies to `asset`: it offers an archive, names
/// its Electron runtime, and that runtime is the installed one (known and equal).
pub open spec fn quick_update_ok(asset: PlatformAsset, installed_electron: Seq<char>) -> bool {
    &&& asset.asar is Some
    &&& asset.electron_version matches Some(remote) && remote@ == installed_electron
    &&& installed_electron.len() > 0
}

impl UpdateManifest {
    /// The Electron runtime of this platform's asset, when it names one.
    pub fn electron_version_for_current_platform(&self, os: TargetOs, linux_key: &str) -> (r:
        Option<String>)
        ensures
            opt_text(r) == match chosen_asset(self.platforms@, os, linux_key@) {
                Some(a) => opt_text(a.electron_version),
                None => None,
            },
    {
        match self.asset_for_current_platform(os, linux_key) {
            Some(a) => match &a.electron_version {
                Some(v) => Some(v.clone()),
                None => None,
            },
            None => None,
        }
    }

    /// The archive-only update for this platform, when it applies: the asset
    /// offers an archive and ships the same Electron runtime as the one
    /// installed (`installed_electron`, empty when unknown).
    pub fn asar_update(&self, os: TargetOs, linux_key: &str, installed_electron: &str) -> (r:
        Option<AsarUpdate>)
        ensures
            match chosen_asset(self.platforms@, os, linux_key@) {
                Some(a) => if quick_update_ok(a, installed_electron@) {
                    r matches Some(u) && u.url@ == a.asar->0.url@ && u.sha256@ == a.asar->0.sha256@
                } else {
                    r is None
                },
                None => r is None,
            },
    {
        let asset = match self.asset_for_current_platform(os, linux_key) {
            Some(a) => a,
            None => {
                return None;
            },
        };
        let asar = match &asset.asar {
            Some(x) => x,
            None => {
                return None;
            },
        };
        let remote = match &asset.electron_version {
            Some(v) => v,
            None => {
                return None;
            },
        };
        let inst = chars_of(installed_electron);
        if inst.len() == 0 || !text_eq(&chars_of(remote.as_str()), installed_electron) {
            return None;
        }
        Some(AsarUpdate { url: asar.url.clone(), sha256: asar.sha256.clone() })
    }
}

/// The manifest to offer when the comparison of versions gave `newer`.
pub fn offer_if_newer(manifest: UpdateManifest, newer: bool) -> (r: Option<UpdateManifest>)
    ensures
        newer ==> r == Some(manifest),
        !newer ==> r is None,
{
    if newer {
        Some(manifest)
    } else {
        None
    }
}

/// The update to offer, given the fetched `manifest` and the `installed`
/// version: the manifest when its version is newer, `None` when not, and an
/// error when either version is not a valid semantic version.
pub fn select_update(manifest: UpdateManifest, installed: &str) -> (r: Result<
    Option<UpdateManifest>,
    VersionCheckError,
>)
    ensures
        match semver_parse_outcome(manifest.version@) {
            Some(m) => r matches Err(VersionCheckError::InvalidRemote(t)) && t@ == m,
            None => match semver_parse_outcome(installed@) {
                Some(m) => r matches Err(VersionCheckError::InvalidInstalled(t)) && t@ == m,
                None => r matches Ok(o) && (if semver_newer(manifest.version@, installed@) {
                    o == Some(manifest)
                } else {
                    o is None
                }),
            },
        },
{
    match remote_is_newer(manifest.version.as_str(), installed) {
        Ok(newer) => Ok(offer_if_newer(manifest, newer)),
        Err(e) => Err(e),
    }
}

/// The file that records the installed version: `version.txt` under the data root.
pub fn version_file_path() -> (r: AppPath)
    ensures
        r@.parts == root_parts("version.txt"@),
{
    let r = data_root().join("version.txt");
    assert(r@.parts =~= root_parts("version.txt"@));
    r
}

/// The file that records the installed Electron runtime.
pub fn electron_version_file_path() -> (r: AppPath)
    ensures
        r@.parts == root_parts("electron-version.txt"@),
{
    let r = data_root().join("electron-version.txt");
    assert(r@.parts =~= root_parts("electron-version.txt"@));
    r
}

/// The installed version recorded by the contents `raw` of the version file
/// (`None` when it cannot be read): trimmed, `0.0.0` when unreadable.
pub open spec fn installed_version_of(raw: Option<Seq<char>>) -> Seq<char> {
    trim(
        match raw {
            Some(t) => t,
            None => "0.0.0"@,
        },
    )
}

/// The installed version that the version file's contents `raw` record.
pub fn installed_version_text(raw: Option<String>) -> (r: String)
    ensures
        r@ == installed_version_of(opt_text(raw)),
{
    let t = match raw {
        Some(t) => t,
        None => owned("0.0.0"),
    };
    string_of(&trim_chars(&chars_of(t.as_str())))
}

/// The installed Electron runtime recorded by the contents `raw` of its file:
/// trimmed, empty when unreadable.
pub open spec fn installed_electron_of(raw: Option<Seq<char>>) -> Seq<char> {
    trim(
        match raw {
            Some(t) => t,
            None => seq![],
        },
    )
}

/// The installed Electron runtime that its file's contents `raw` record.
pub fn installed_electron_text(raw: Option<String>) -> (r: String)
    ensures
        r@ == installed_electron_of(opt_text(raw)),
{
    match raw {
        Some(t) => string_of(&trim_chars(&chars_of(t.as_str()))),
        None => {
            let e: Vec<char> = Vec::new();
            let r = string_of(&e);
            assert(trim(seq![]) =~= Seq::<char>::empty());
            r
        },
    }
}

/// The version records to create on a first run.
pub struct SeedPlan {
    /// What to write as the installed version, if anything.
    pub installed_version: Option<String>,
    /// What to write as the installed Electron runtime, if anything.
    pub electron_version: Option<String>,
}

/// What a seeding run plans to write, as (installed version, Electron
/// runtime): the bundled app version `bundled_app` when there is no version
/// file yet, and the bundled Electron runtime `bundled_electron` when the
/// installed one `installed_electron` is unknown (empty); nothing otherwise.
pub open spec fn seed_plan(
    version_file_present: bool,
    bundled_app: Option<Seq<char>>,
    installed_electron: Seq<char>,
    bundled_electron: Option<Seq<char>>,
) -> (Option<Seq<char>>, Option<Seq<char>>) {
    (
        if version_file_present {
            None
        } else {
            bundled_app
        },
        if installed_electron.len() == 0 {
            bundled_electron
        } else {
            None
        },
    )
}

/// What a first run records: the bundled app version when there is no
/// version file yet (`version_file_present` is false), and the bundled
/// Electron runtime when the installed one is unknown (`installed_electron`
/// empty). The bundled values are those the bundled resource files hold.
pub fn seed_installed_versions_if_needed(
    version_file_present: bool,
    bundled_app_version: Option<String>,
    installed_electron: &str,
    bundled_electron_version: Option<String>,
) -> (r: SeedPlan)
    ensures
        (opt_text(r.installed_version), opt_text(r.electron_version)) == seed_plan(
            version_file_present,
            opt_text(bundled_app_version),
            installed_electron@,
            opt_text(bundled_electron_version),
        ),
{
    let installed_version = if version_file_present {
        None
    } else {
        bundled_app_version
    };
    let electron_version = if chars_of(installed_electron).len() == 0 {
        bundled_electron_version
    } else {
        None
    };
    SeedPlan { installed_version, electron_version }
}

/// The remaining time `secs` as the download status shows it: seconds
/// under a minute, minutes and seconds under an hour, else hours and minutes.
pub open spec fn eta_text(secs: nat) -> Seq<char> {
    if secs < 60 {
        decimal(secs) + "s left"@
    } else if secs < 3600 {
        decimal(secs / 60) + "m "@ + decimal(secs % 60) + "s left"@
    } else {
        decimal(secs / 3600) + "h "@ + decimal((secs % 3600) / 60) + "m left"@
    }
}

/// The remaining time `secs` in words.
pub fn format_eta(secs: u64) -> (r: String)
    ensures
        r@ == eta_text(secs as nat),
{
    if secs < 60 {
        concat(decimal_string(secs).as_str(), "s left")
    } else if secs < 3600 {
        let a = concat(decimal_string(secs / 60).as_str(), "m ");
        let b = concat(a.as_str(), decimal_string(secs % 60).as_str());
        concat(b.as_str(), "s left")
    } else {
        let a = concat(decimal_string(secs / 3600).as_str(), "h ");
        let b = concat(a.as_str(), decimal_string((secs % 3600) / 60).as_str());
        concat(b.as_str(), "m left")
    }
}

/// The time-left part of the download status for a download of known size
/// `total`: shown while bytes are still due and the speed `bps` (bytes per
/// second) is known, as the whole seconds the rest takes at that speed.
pub open spec fn eta_suffix_text(bps: nat, downloaded: nat, total: nat) -> Seq<char> {
    if bps > 0 && downloaded < total {
        "  \u{b7}  "@ + eta_text(((total - downloaded) as nat) / bps)
    } else {
        seq![]
    }
}

/// The time-left part of the download status (see `eta_suffix_text`).
pub fn download_eta_suffix(bps: u64, downloaded: u64, total: u64) -> (r: String)
    ensures
        r@ == eta_suffix_text(bps as nat, downloaded as nat, total as nat),
{
    if bps > 0 && downloaded < total {
        let secs = (total - downloaded) / bps;
        concat("  \u{b7}  ", format_eta(secs).as_str())
    } else {
        let e: Vec<char> = Vec::new();
        string_of(&e)
    }
}

/// The file name a download from `url` is saved under: the last path
/// segment without its query, `update` when that is empty.
pub open spec fn url_file_name(url: Seq<char>) -> Seq<char> {
    let name = before_first(after_last(url, '/'), '?');
    if name.len() == 0 {
        "update"@
    } else {
        name
    }
}

/// The file name a download from `url` is saved under.
pub fn download_file_name(url: &str) -> (r: String)
    ensures
        r@ == url_file_name(url@),
{
    let tail = after_last_chars(&chars_of(url), '/');
    let name = before_first_chars(&tail, '?');
    if name.len() == 0 {
        owned("update")
    } else {
        string_of(&name)
    }
}

/// The file a download is written to until it is verified.
pub fn partial_file_name(file_name: &str) -> (r: String)
    ensures
        r@ == file_name@ + ".partial"@,
{
    concat(file_name, ".partial")
}

/// Where a resumable download stands: the bytes already received and
/// whether they are being resumed.
pub struct DownloadProgress {
    pub downloaded: u64,
    pub resume: bool,
}

/// How the server's answer to a download request is taken.
pub enum ResponseAction {
    /// Write the body after what is already there (or into a new file).
    Continue,
    /// The server ignored the resume request: drop the partial file and the
    /// checksum so far, and write the body from the start.
    RestartFromZero,
    /// The request failed with this status.
    Fail(u16),
}

impl DownloadProgress {
    /// The start of a download, given what a leftover partial file held:
    /// `prefix` is `Some(n)` when it was read whole (its `n` bytes are in the
    /// checksum), `None` when it could not be read or there is none. A
    /// non-empty prefix is resumed; the returned flag says the leftover file
    /// must be discarded (it was there but cannot be resumed).
    pub fn from_partial(partial_present: bool, prefix: Option<u64>) -> (r: (DownloadProgress, bool))
        ensures
            match prefix {
                Some(n) if n > 0 => r.0.downloaded == n && r.0.resume && !r.1,
                _ => r.0.downloaded == 0 && !r.0.resume && r.1 == partial_present,
            },
    {
        match prefix {
            Some(n) => {
                if n > 0 {
                    return (DownloadProgress { downloaded: n, resume: true }, false);
                }
            },
            None => {},
        }
        (DownloadProgress { downloaded: 0, resume: false }, partial_present)
    }

    /// The `Range` header value to ask for the rest: `bytes=<n>-` when
    /// resuming after `n > 0` bytes, else none.
    pub fn range_header(&self) -> (r: Option<String>)
        ensures
            match r {
                Some(h) => self.resume && self.downloaded > 0 && h@ == "bytes="@ + decimal(
                    self.downloaded as nat,
                ) + "-"@,
                None => !(self.resume && self.downloaded > 0),
            },
    {
        if self.resume && self.downloaded > 0 {
            let a = concat("bytes=", decimal_string(self.downloaded).as_str());
            Some(concat(a.as_str(), "-"))
        } else {
            None
        }
    }

    /// Takes the response status: a resumed download continues on `206`;
    /// any other success restarts a resumed download from zero (or starts a
    /// fresh one); anything else fails.
    pub fn on_response(&mut self, status: u16) -> (r: ResponseAction)
        ensures
            old(self).resume && status == 206 ==> r is Continue && *final(self) == *old(self),
            !(old(self).resume && status == 206) && 200 <= status <= 299 ==> if old(self).resume {
                r is RestartFromZero && final(self).downloaded == 0 && !final(self).resume
            } else {
                r is Continue && *final(self) == *old(self)
            },
            !(old(self).resume && status == 206) && !(200 <= status <= 299) ==> r == ResponseAction::Fail(status) && *final(self) == *old(self),
    {
        if self.resume && status == 206 {
            ResponseAction::Continue
        } else if 200 <= status && status <= 299 {
            if self.resume {
                self.downloaded = 0;
                self.resume = false;
                ResponseAction::RestartFromZero
            } else {
                ResponseAction::Continue
            }
        } else {
            ResponseAction::Fail(status)
        }
    }

    /// The size of the whole file: what is already here plus the body for a
    /// partial answer (`206`), else the body's length (`0` when unknown).
    pub fn expected_total(&self, status: u16, content_length: u64) -> (r: u64)
        requires
            status == 206 ==> self.downloaded + content_length <= u64::MAX,
        ensures
            r == if status == 206 {
                self.downloaded + content_length
            } else {
                content_length as int
            },
    {
        if status == 206 {
            self.downloaded + content_length
        } else {
            content_length
        }
    }

    /// The body is appended to the partial file (else the file is created anew).
    pub fn appends(&self) -> (r: bool)
        ensures
            r == (self.resume && self.downloaded > 0),
    {
        self.resume && self.downloaded > 0
    }

    /// Counts `len` more bytes received.
    pub fn record_chunk(&mut self, len: u64)
        requires
            old(self).downloaded + len <= u64::MAX,
        ensures
            final(self).downloaded == old(self).downloaded + len,
            final(self).resume == old(self).resume,
    {
        self.downloaded = self.downloaded + len;
    }
}

/// A download in progress: where it stands, and the SHA-256 computation over
/// the bytes received. Those bytes are what the partial file holds: the
/// prefix read back from a leftover file when resuming, then each chunk of
/// the body in the order it arrives, each written to the file as it is fed.
pub struct Download {
    pub progress: DownloadProgress,
    pub hasher: Sha256Stream,
}

impl Download {
    /// The bytes the checksum has been fed since the download (re)started.
    pub open spec fn received(self) -> Seq<u8> {
        stream_input(self.hasher)
    }

    /// The count of received bytes is the length of what the checksum was fed.
    pub open spec fn wf(self) -> bool {
        self.received().len() == self.progress.downloaded
    }

    /// A download that has received nothing and resumes nothing.
    pub fn new() -> (r: Download)
        ensures
            r.wf(),
            r.received() == Seq::<u8>::empty(),
            r.progress.downloaded == 0,
            !r.progress.resume,
    {
        Download { progress: DownloadProgress { downloaded: 0, resume: false }, hasher: Sha256Stream::start() }
    }

    /// Takes `data`, the next piece of a leftover partial file read back
    /// before the request: it goes into the checksum and the count.
    pub fn read_prefix(&mut self, data: &[u8])
        requires
            old(self).wf(),
            old(self).progress.downloaded + data@.len() <= u64::MAX,
        ensures
            final(self).wf(),
            final(self).received() == old(self).received() + data@,
            final(self).progress.downloaded == old(self).progress.downloaded + data@.len(),
            final(self).progress.resume == old(self).progress.resume,
    {
        self.hasher.absorb(data);
        let len = data.len() as u64;
        self.progress.record_chunk(len);
    }

    /// Decides on the leftover partial file once it has been read back:
    /// `read_whole` says every byte of it went through `read_prefix`. A
    /// non-empty prefix read whole is resumed; otherwise the download starts
    /// afresh (checksum and count emptied), and the result says the leftover
    /// file must be discarded (it was there, `partial_present`, but cannot be
    /// resumed).
    pub fn settle_prefix(&mut self, partial_present: bool, read_whole: bool) -> (discard: bool)
        requires
            old(self).wf(),
        ensures
            final(self).wf(),
            read_whole && old(self).progress.downloaded > 0 ==> {
                &&& final(self).received() == old(self).received()
                &&& final(self).progress.downloaded == old(self).progress.downloaded
                &&& final(self).progress.resume
                &&& !discard
            },
            !(read_whole && old(self).progress.downloaded > 0) ==> {
                &&& final(self).received() == Seq::<u8>::empty()
                &&& final(self).progress.downloaded == 0
                &&& !final(self).progress.resume
                &&& discard == partial_present
            },
    {
        let prefix = if read_whole {
            Some(self.progress.downloaded)
        } else {
            None
        };
        let (p, discard) = DownloadProgress::from_partial(partial_present, prefix);
        if !p.resume {
            self.hasher = Sha256Stream::start();
        }
        self.progress = p;
        discard
    }

    /// Takes the response status as `DownloadProgress::on_response` does; a
    /// restart from zero also empties the checksum.
    pub fn on_response(&mut self, status: u16) -> (r: ResponseAction)
        requires
            old(self).wf(),
        ensures
            final(self).wf(),
            old(self).progress.resume && status == 206 ==> r is Continue && final(self).progress
                == old(self).progress && final(self).received() == old(self).received(),
            !(old(self).progress.resume && status == 206) && 200 <= status <= 299 ==> if old(
                self,
            ).progress.resume {
                &&& r is RestartFromZero
                &&& final(self).progress.downloaded == 0
                &&& !final(self).progress.resume
                &&& final(self).received() == Seq::<u8>::empty()
            } else {
                r is Continue && final(self).progress == old(self).progress && final(self).received()
                    == old(self).received()
            },
            !(old(self).progress.resume && status == 206) && !(200 <= status <= 299) ==> r
                == ResponseAction::Fail(status) && final(self).progress == old(self).progress
                && final(self).received() == old(self).received(),
    {
        let r = self.progress.on_response(status);
        if let ResponseAction::RestartFromZero = r {
            self.hasher = Sha256Stream::start();
        }
        r
    }

    /// Takes a chunk of the body, the bytes written next to the partial
    /// file: it goes into the checksum and the count.
    pub fn record_chunk(&mut self, chunk: &[u8])
        requires
            old(self).wf(),
            old(self).progress.downloaded + chunk@.len() <= u64::MAX,
        ensures
            final(self).wf(),
            final(self).received() == old(self).received() + chunk@,
            final(self).progress.downloaded == old(self).progress.downloaded + chunk@.len(),
            final(self).progress.resume == old(self).progress.resume,
    {
        self.hasher.absorb(chunk);
        let len = chunk.len() as u64;
        self.progress.record_chunk(len);
    }

    /// Ends the download: compares the SHA-256 of every byte received (in
    /// lower-case hex) with the checksum `expected`, as `verify_checksum` does.
    pub fn verify(self, expected: &str) -> (r: Result<(), ChecksumMismatch>)
        ensures
            r is Ok <==> hex_lower(sha256_of(self.received())) == expected@,
            r matches Err(m) ==> m.expected@ == expected@ && m.actual@ == hex_lower(
                sha256_of(self.received()),
            ),
    {
        let digest = self.hasher.finish();
        verify_checksum(digest.as_slice(), expected)
    }
}

/// The plan of a seeding run over the version files as they stand:
/// `version_file` and `electron_file` are their contents (`None` when there is
/// no such file), `app_resource` and `electron_resource` those of the bundled
/// `app-version.txt` and `electron-runtime-version.txt`, each read as a
/// version file is.
pub open spec fn seed_plan_over_files(
    version_file: Option<Seq<char>>,
    electron_file: Option<Seq<char>>,
    app_resource: Option<Seq<char>>,
    electron_resource: Option<Seq<char>>,
) -> (Option<Seq<char>>, Option<Seq<char>>) {
    seed_plan(
        version_file is Some,
        version_in_file(app_resource),
        installed_electron_of(electron_file),
        version_in_file(electron_resource),
    )
}

/// The version files after the writes of `plan`: each planned text replaces
/// the file's contents; a file with nothing planned is left as it was.
pub open spec fn after_seed(
    version_file: Option<Seq<char>>,
    electron_file: Option<Seq<char>>,
    plan: (Option<Seq<char>>, Option<Seq<char>>),
) -> (Option<Seq<char>>, Option<Seq<char>>) {
    (
        match plan.0 {
            Some(v) => Some(v),
            None => version_file,
        },
        match plan.1 {
            Some(e) => Some(e),
            None => electron_file,
        },
    )
}

/// Seeding settles at once: once the writes a seeding run planned have been
/// made, a second run over the same bundled resources plans nothing.
pub proof fn lemma_seeding_settles(
    version_file: Option<Seq<char>>,
    electron_file: Option<Seq<char>>,
    app_resource: Option<Seq<char>>,
    electron_resource: Option<Seq<char>>,
)
    ensures
        ({
            let files = after_seed(
                version_file,
                electron_file,
                seed_plan_over_files(version_file, electron_file, app_resource, electron_resource),
            );
            seed_plan_over_files(files.0, files.1, app_resource, electron_resource)
        }) == (None::<Seq<char>>, None::<Seq<char>>),
{
    if let Some(t) = electron_resource {
        lemma_trim_idempotent(t);
    }
}

/// The two records are planned independently: whether the Electron runtime
/// is written depends only on the installed runtime and the bundled one, not
/// on the version file or the bundled app version; and the other way round.
pub proof fn lemma_seed_records_independent(
    present_a: bool,
    present_b: bool,
    app_a: Option<Seq<char>>,
    app_b: Option<Seq<char>>,
    electron_a: Seq<char>,
    electron_b: Seq<char>,
    bundled_electron_a: Option<Seq<char>>,
    bundled_electron_b: Option<Seq<char>>,
)
    ensures
        seed_plan(present_a, app_a, electron_a, bundled_electron_a).1 == seed_plan(
            present_b,
            app_b,
            electron_a,
            bundled_electron_a,
        ).1,
        seed_plan(present_a, app_a, electron_a, bundled_electron_a).0 == seed_plan(
            present_a,
            app_a,
            electron_b,
            bundled_electron_b,
        ).0,
{
}

/// An unknown (empty) installed Electron runtime is always recorded from the
/// bundled one when that is known, whether or not the version file exists; a
/// known runtime is never overwritten. A missing version file is recorded from
/// the bundled app version; an existing one is never overwritten.
pub proof fn lemma_seed_fills_only_what_is_missing(
    version_file_present: bool,
    bundled_app: Option<Seq<char>>,
    installed_electron: Seq<char>,
    bundled_electron: Option<Seq<char>>,
)
    ensures
        installed_electron.len() == 0 && bundled_electron is Some ==> seed_plan(
            version_file_present,
            bundled_app,
            installed_electron,
            bundled_electron,
        ).1 == bundled_electron,
        installed_electron.len() > 0 ==> seed_plan(
            version_file_present,
            bundled_app,
            installed_electron,
            bundled_electron,
        ).1 is None,
        !version_file_present ==> seed_plan(
            version_file_present,
            bundled_app,
            installed_electron,
            bundled_electron,
        ).0 == bundled_app,
        version_file_present ==> seed_plan(
            version_file_present,
            bundled_app,
            installed_electron,
            bundled_electron,
        ).0 is None,
{
}

/// The time left depends only on the bytes still due: having received
/// `downloaded` of `total` bytes reads the same as having `total - downloaded`
/// bytes still to fetch from the start, at the same speed.
pub proof fn lemma_eta_depends_on_bytes_due(bps: nat, downloaded: nat, total: nat)
    requires
        downloaded <= total,
    ensures
        eta_suffix_text(bps, downloaded, total) == eta_suffix_text(bps, 0, (total - downloaded) as nat),
{
}

/// The seconds shown are the whole seconds the bytes due take at the speed:
/// `n` seconds' worth of bytes (`bps * n`), plus less than one more second's
/// worth, reads as `n` seconds, as `n` bytes at one byte per second do; and
/// nothing is shown when the speed is unknown or nothing is due.
pub proof fn lemma_eta_whole_seconds(bps: nat, n: nat, extra: nat, downloaded: nat, total: nat)
    ensures
        bps > 0 && extra < bps && bps * n + extra > 0 ==> eta_suffix_text(bps, 0, bps * n + extra)
            == "  \u{b7}  "@ + eta_text(n),
        n > 0 ==> eta_suffix_text(1, 0, n) == "  \u{b7}  "@ + eta_text(n),
        bps == 0 || total <= downloaded ==> eta_suffix_text(bps, downloaded, total) == Seq::<char>::empty(),
{
    if bps > 0 && extra < bps {
        assert((bps * n + extra) / bps == n) by (nonlinear_arith)
            requires
                bps > 0,
                extra < bps,
        ;
    }
}

/// What `set_installed_version` writes reads back through
/// `installed_version_text` trimmed; a missing file reads as `0.0.0`.
pub proof fn lemma_installed_version_roundtrip(version: Seq<char>)
    ensures
        installed_version_of(Some(version)) == trim(version),
        installed_version_of(None) == trim("0.0.0"@),
{
}

proof fn lemma_first_index_shape(s: Seq<char>, c: char)
    ensures
        -1 <= first_index_of(s, c) < s.len(),
        forall|i: int|
            0 <= i < s.len() && (first_index_of(s, c) < 0 || i < first_index_of(s, c)) ==> s[i]
                != c,
    decreases s.len(),
{
    if s.len() > 0 && s[0] != c {
        lemma_first_index_shape(s.drop_first(), c);
        assert forall|i: int|
            0 <= i < s.len() && (first_index_of(s, c) < 0 || i < first_index_of(s, c)) implies s[i]
            != c by {
            if i > 0 {
                assert(s[i] == s.drop_first()[i - 1]);
            }
        }
    }
}

proof fn lemma_before_first_free(s: Seq<char>, c: char)
    ensures
        forall|i: int| 0 <= i < before_first(s, c).len() ==> before_first(s, c)[i] != c,
        forall|i: int| 0 <= i < before_first(s, c).len() ==> before_first(s, c)[i] == s[i],
        before_first(s, c).len() <= s.len(),
{
    lemma_first_index_shape(s, c);
}

proof fn lemma_after_last_index(s: Seq<char>, c: char)
    ensures
        -1 <= last_index_of(s, c) < s.len(),
        forall|j: int| last_index_of(s, c) < j < s.len() ==> s[j] != c,
    decreases s.len(),
{
    if s.len() > 0 && s.last() != c {
        lemma_after_last_index(s.drop_last(), c);
        assert forall|j: int| last_index_of(s, c) < j < s.len() implies s[j] != c by {
            if j < s.len() - 1 {
                assert(s[j] == s.drop_last()[j]);
            }
        }
    }
}

/// A download is saved under a plain, non-empty file name: it holds no
/// `/` (so it stays inside the download directory) and no `?`.
pub proof fn lemma_download_name_is_plain(url: Seq<char>)
    ensures
        url_file_name(url).len() > 0,
        forall|i: int| 0 <= i < url_file_name(url).len() ==> url_file_name(url)[i] != '/'
            && url_file_name(url)[i] != '?',
{
    let tail = after_last(url, '/');
    lemma_after_last_index(url, '/');
    assert forall|i: int| 0 <= i < tail.len() implies tail[i] != '/' by {
        assert(tail[i] == url[last_index_of(url, '/') + 1 + i]);
    }
    lemma_before_first_free(tail, '?');
    let name = before_first(tail, '?');
    reveal_strlit("update");
    assert("update"@ =~= seq!['u', 'p', 'd', 'a', 't', 'e']);
    if name.len() > 0 {
        assert forall|i: int| 0 <= i < name.len() implies name[i] != '/' && name[i] != '?' by {
            assert(name[i] == tail[i]);
        }
    }
}

/// The places a resource bundled with the application may be, in the order
/// they are tried: on macOS first `Contents/Resources` in the install
/// directory; then `resources` next to the executable, the executable's own
/// directory, and `resources` in the install directory.
pub open spec fn bundled_resource_places(os: TargetOs, exe_dir: PathView, install_dir: PathView, name: Seq<char>) -> Seq<PathView> {
    let common = seq![
        exe_dir.join("resources"@).join(name),
        exe_dir.join(name),
        install_dir.join("resources"@).join(name),
    ];
    if os == TargetOs::MacOs {
        seq![install_dir.join("Contents"@).join("Resources"@).join(name)] + common
    } else {
        common
    }
}

/// The places a bundled resource `name` may be (see `bundled_resource_places`).
pub fn bundled_resource_candidates(os: TargetOs, exe_dir: &AppPath, install_dir: &AppPath, name: &str) -> (r: Vec<AppPath>)
    ensures
        r@.len() == bundled_resource_places(os, exe_dir@, install_dir@, name@).len(),
        forall|i: int| 0 <= i < r@.len() ==> #[trigger] r@[i]@ == bundled_resource_places(os, exe_dir@, install_dir@, name@)[i],
{
    let mut r: Vec<AppPath> = Vec::new();
    if os == TargetOs::MacOs {
        r.push(install_dir.join("Contents").join("Resources").join(name));
    }
    r.push(exe_dir.join("resources").join(name));
    r.push(exe_dir.join(name));
    r.push(install_dir.join("resources").join(name));
    proof {
        let places = bundled_resource_places(os, exe_dir@, install_dir@, name@);
        assert(r@.len() == places.len());
        assert forall|i: int| 0 <= i < r@.len() implies #[trigger] r@[i]@ == places[i] by {}
    }
    r
}

} // verus!
