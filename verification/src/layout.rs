//! The on-disk layout under the per-user data root: where the installed
//! versions, the staged packages and the layout markers live, and how the
//! version files written there are read back.

use vstd::prelude::*;
use crate::envdirs::{data_root_of, local_data_dir, user_home_dir};
use crate::path::{AppPath, PathView, TargetOs, accepted, refused};
use crate::text::{chars_of, concat, ends_with_chars, lemma_trim_idempotent, string_of, trim, trim_chars, trim_str};

verus! {

/// The text of an optional string.
pub open spec fn opt_text(o: Option<String>) -> Option<Seq<char>> {
    match o {
        Some(s) => Some(s@),
        None => None,
    }
}

/// The data root for the given local data directory and home directory:
/// `Mutualzz` under the first of them that is known, else under `.`.
pub open spec fn data_root_view(local: Option<Seq<char>>, home: Option<Seq<char>>) -> PathView {
    let base = match local {
        Some(l) => l,
        None => match home {
            Some(h) => h,
            None => "."@,
        },
    };
    PathView::root(base).join("Mutualzz"@)
}

/// The data root that the local data directory `local` and the home
/// directory `home` give.
pub fn data_root_from(local: Option<String>, home: Option<String>) -> (r: AppPath)
    ensures
        r@ == data_root_view(opt_text(local), opt_text(home)),
{
    let base = match local {
        Some(l) => AppPath::new(l.as_str()),
        None => match home {
            Some(h) => AppPath::new(h.as_str()),
            None => AppPath::new("."),
        },
    };
    base.join("Mutualzz")
}

/// The per-user data root of the updater: `Mutualzz` under the local data
/// directory, else under the home directory, else under `.`; which
/// directories those are comes from the environment (see `data_root_of`).
pub fn data_root() -> (r: AppPath)
    ensures
        r@.parts == seq!["Mutualzz"@],
{
    let r = data_root_of(local_data_dir(), user_home_dir());
    assert(seq![].push("Mutualzz"@) =~= seq!["Mutualzz"@]);
    r
}

/// Where staged update packages wait under the data root `root`.
pub fn packages_dir_under(root: &AppPath) -> (r: AppPath)
    ensures
        r@ == root@.join("packages"@),
{
    root.join("packages")
}

/// The file under `root` that names the active version.
pub fn current_file_path_under(root: &AppPath) -> (r: AppPath)
    ensures
        r@ == root@.join("current"@),
{
    root.join("current")
}

/// The file under `root` that records an update waiting for a restart.
pub fn pending_restart_path_under(root: &AppPath) -> (r: AppPath)
    ensures
        r@ == root@.join("pending-restart.json"@),
{
    root.join("pending-restart.json")
}

/// The marker under `root` that says the versioned layout is in place.
pub fn layout_v2_marker_under(root: &AppPath) -> (r: AppPath)
    ensures
        r@ == root@.join("layout-v2"@),
{
    root.join("layout-v2")
}

/// The directory name of an installed version: `app-` and the trimmed version.
pub open spec fn version_dir_name(version: Seq<char>) -> Seq<char> {
    "app-"@ + trim(version)
}

/// The directory under `root` that holds the installed `version`.
pub fn app_version_dir_under(root: &AppPath, version: &str) -> (r: AppPath)
    ensures
        r@ == root@.join(version_dir_name(version@)),
{
    let name = concat("app-", trim_str(version).as_str());
    root.join(name.as_str())
}

/// The names that lead from the data root to `name` directly under it.
pub open spec fn root_parts(name: Seq<char>) -> Seq<Seq<char>> {
    seq!["Mutualzz"@, name]
}

/// Where staged update packages wait: `packages` under the data root.
pub fn packages_dir() -> (r: AppPath)
    ensures
        r@.parts == root_parts("packages"@),
{
    let r = packages_dir_under(&data_root());
    assert(r@.parts =~= root_parts("packages"@));
    r
}

/// The file that names the active version: `current` under the data root.
pub fn current_file_path() -> (r: AppPath)
    ensures
        r@.parts == root_parts("current"@),
{
    let r = current_file_path_under(&data_root());
    assert(r@.parts =~= root_parts("current"@));
    r
}

/// The file that records an update waiting for a restart.
pub fn pending_restart_path() -> (r: AppPath)
    ensures
        r@.parts == root_parts("pending-restart.json"@),
{
    let r = pending_restart_path_under(&data_root());
    assert(r@.parts =~= root_parts("pending-restart.json"@));
    r
}

/// The marker that says the versioned layout is in place.
pub fn layout_v2_marker() -> (r: AppPath)
    ensures
        r@.parts == root_parts("layout-v2"@),
{
    let r = layout_v2_marker_under(&data_root());
    assert(r@.parts =~= root_parts("layout-v2"@));
    r
}

/// The directory of the installed `version`: `app-<version>` under the data
/// root, the version trimmed.
pub fn app_version_dir(version: &str) -> (r: AppPath)
    ensures
        r@.parts == root_parts(version_dir_name(version@)),
{
    let r = app_version_dir_under(&data_root(), version);
    assert(r@.parts =~= root_parts(version_dir_name(version@)));
    r
}

/// The trimmed text, when it is not empty.
pub open spec fn nonblank(raw: Seq<char>) -> Option<Seq<char>> {
    if trim(raw).len() == 0 {
        None
    } else {
        Some(trim(raw))
    }
}

/// The version a version file holds: its trimmed contents, `None` when the
/// file could not be read (`raw` is `None`) or holds only whitespace.
pub open spec fn version_in_file(raw: Option<Seq<char>>) -> Option<Seq<char>> {
    match raw {
        Some(t) => nonblank(t),
        None => None,
    }
}

/// The version that the contents `raw` of a version file name, as
/// `read_current_version` and the bundled resource readers take it.
pub fn version_from_file(raw: Option<String>) -> (r: Option<String>)
    ensures
        opt_text(r) == version_in_file(opt_text(raw)),
{
    match raw {
        Some(t) => {
            let v = trim_chars(&chars_of(t.as_str()));
            if v.len() == 0 {
                None
            } else {
                Some(string_of(&v))
            }
        },
        None => None,
    }
}

/// An installed version read from an app directory: the trimmed contents,
/// `None` when unreadable, blank or the placeholder `0.0.0`.
pub open spec fn app_version_in_file(raw: Option<Seq<char>>) -> Option<Seq<char>> {
    match version_in_file(raw) {
        Some(v) => if v == "0.0.0"@ {
            None
        } else {
            Some(v)
        },
        None => None,
    }
}

/// The version that the contents `raw` of an `app-version.txt` inside an app
/// directory name, as `read_version_from_app_dir` takes it.
pub fn app_version_from_file(raw: Option<String>) -> (r: Option<String>)
    ensures
        opt_text(r) == app_version_in_file(opt_text(raw)),
{
    match version_from_file(raw) {
        Some(v) => {
            let c = chars_of(v.as_str());
            let z = chars_of("0.0.0");
            if c.len() == z.len() && crate::text::starts_with_chars(&c, &z) {
                assert(c@ =~= z@);
                None
            } else {
                assert(c@ != z@) by {
                    if c@ == z@ {
                        assert(c@.subrange(0, z@.len() as int) =~= c@);
                    }
                }
                Some(v)
            }
        },
        None => None,
    }
}

/// The files inside an app directory that may name its version, in the order
/// they are tried.
pub fn app_version_file_candidates(app_dir: &AppPath) -> (r: Vec<AppPath>)
    ensures
        r@.len() == 2,
        r@[0]@ == app_dir@.join("app-version.txt"@),
        r@[1]@ == app_dir@.join("resources"@).join("app-version.txt"@),
{
    let mut r: Vec<AppPath> = Vec::new();
    r.push(app_dir.join("app-version.txt"));
    r.push(app_dir.join("resources").join("app-version.txt"));
    r
}

/// The directory of the active version under `root`: the directory of
/// `current_version` (the version the `current` file names, `None` when it
/// names none) when `is_dir` finds it, else `None`.
pub fn resolve_active_app_dir<F: Fn(&AppPath) -> bool>(
    root: &AppPath,
    current_version: Option<String>,
    is_dir: &F,
) -> (r: Option<AppPath>)
    requires
        forall|p: &AppPath| is_dir.requires((p,)),
    ensures
        match current_version {
            None => r is None,
            Some(v) => match r {
                Some(d) => d@ == root@.join(version_dir_name(v@)) && is_dir.ensures((&d,), true),
                None => refused(is_dir, root@.join(version_dir_name(v@))),
            },
        },
{
    match current_version {
        Some(v) => {
            let dir = app_version_dir_under(root, v.as_str());
            if is_dir(&dir) {
                Some(dir)
            } else {
                None
            }
        },
        None => None,
    }
}

/// The bootstrapper inside an app directory on `os`.
pub open spec fn bundled_bootstrapper(os: TargetOs, dir: PathView) -> PathView {
    if os == TargetOs::MacOs {
        dir.join("Mutualzz.app"@).join("Contents"@).join("MacOS"@).join("Mutualzz"@)
    } else {
        dir.join("updater"@)
    }
}

/// The bootstrapper path used when no app directory holds one.
pub open spec fn fallback_bootstrapper(os: TargetOs, current_exe: Option<PathView>) -> PathView {
    match current_exe {
        Some(p) => p,
        None => if os == TargetOs::MacOs {
            PathView::root("Mutualzz"@)
        } else {
            PathView::root("updater"@)
        },
    }
}

/// The optional view of an optional path.
pub open spec fn opt_path(o: Option<AppPath>) -> Option<PathView> {
    match o {
        Some(p) => Some(p@),
        None => None,
    }
}

/// The bootstrapper to relaunch: `Update.exe` under `root` on Windows;
/// elsewhere the one inside the active app directory `active_dir` when
/// `is_file` finds it, else the running executable `current_exe`, else a bare
/// name.
pub fn bootstrapper_at_data_root<F: Fn(&AppPath) -> bool>(
    os: TargetOs,
    root: &AppPath,
    active_dir: Option<AppPath>,
    current_exe: Option<AppPath>,
    is_file: &F,
) -> (r: AppPath)
    requires
        forall|p: &AppPath| is_file.requires((p,)),
    ensures
        os == TargetOs::Windows ==> r@ == root@.join("Update.exe"@),
        os != TargetOs::Windows ==> {
            ||| (active_dir matches Some(d) && r@ == bundled_bootstrapper(os, d@)
                && is_file.ensures((&r,), true))
            ||| ((active_dir is None || refused(is_file, bundled_bootstrapper(os, active_dir->0@)))
                && r@ == fallback_bootstrapper(os, opt_path(current_exe)))
        },
{
    if os == TargetOs::Windows {
        return root.join("Update.exe");
    }
    if let Some(dir) = &active_dir {
        let candidate = if os == TargetOs::MacOs {
            dir.join("Mutualzz.app").join("Contents").join("MacOS").join("Mutualzz")
        } else {
            dir.join("updater")
        };
        if is_file(&candidate) {
            return candidate;
        }
    }
    match current_exe {
        Some(p) => p,
        None => if os == TargetOs::MacOs {
            AppPath::new("Mutualzz")
        } else {
            AppPath::new("updater")
        },
    }
}

/// The flat install directory of the pre-versioned layout under the local
/// data directory `local`: `local/Programs/Mutualzz`.
pub open spec fn legacy_flat_dir_view(local: Seq<char>) -> PathView {
    PathView::root(local).join("Programs"@).join("Mutualzz"@)
}

/// The flat install directory of the pre-versioned layout, given the local data
/// directory `local`: on Windows, when `local` is known, `Programs/Mutualzz`
/// under it if `is_dir` finds it there; `None` otherwise.
pub fn legacy_flat_install_dir_under<F: Fn(&AppPath) -> bool>(
    os: TargetOs,
    local: Option<String>,
    is_dir: &F,
) -> (r: Option<AppPath>)
    requires
        forall|p: &AppPath| is_dir.requires((p,)),
    ensures
        os != TargetOs::Windows ==> r is None,
        local is None ==> r is None,
        r matches Some(d) ==> {
            &&& os == TargetOs::Windows
            &&& local matches Some(l) && d@ == legacy_flat_dir_view(l@)
            &&& is_dir.ensures((&d,), true)
        },
        os == TargetOs::Windows && local is Some && r is None ==> refused(
            is_dir,
            legacy_flat_dir_view(local->0@),
        ),
{
    if os != TargetOs::Windows {
        return None;
    }
    match local {
        Some(l) => {
            let legacy = AppPath::new(l.as_str()).join("Programs").join("Mutualzz");
            if is_dir(&legacy) {
                Some(legacy)
            } else {
                None
            }
        },
        None => None,
    }
}

/// The flat install directory of the pre-versioned layout: `Programs/Mutualzz`
/// under the local data directory, on Windows only, when `is_dir` finds it.
/// Which local data directory that is comes from the environment; what is
/// returned for each value of it is stated by `legacy_flat_install_dir_under`.
pub fn legacy_flat_install_dir<F: Fn(&AppPath) -> bool>(os: TargetOs, is_dir: &F) -> (r: Option<
    AppPath,
>)
    requires
        forall|p: &AppPath| is_dir.requires((p,)),
    ensures
        os != TargetOs::Windows ==> r is None,
        r matches Some(d) ==> d@.parts == seq!["Programs"@, "Mutualzz"@] && is_dir.ensures(
            (&d,),
            true,
        ),
{
    if os != TargetOs::Windows {
        return None;
    }
    let r = legacy_flat_install_dir_under(os, local_data_dir().into_text(), is_dir);
    proof {
        if r is Some {
            assert(r->0@.parts =~= seq!["Programs"@, "Mutualzz"@]);
        }
    }
    r
}

/// What the move from the flat layout to the versioned layout has to do.
pub enum LegacyMigration {
    /// The layout marker is there: nothing to do.
    AlreadyMigrated,
    /// A versioned app directory is already active: only write the marker.
    MarkLayout,
    /// There is no flat install to move (or no known version for it).
    NothingToMigrate,
    /// The version's directory exists already: make it current and write the marker.
    AdoptExisting { version: String },
    /// Copy the flat install `legacy` into `dest`, the directory of `version`.
    CopyLegacy { version: String, legacy: AppPath, dest: AppPath },
}

/// The version text is unknown: empty or the placeholder `0.0.0`.
pub open spec fn unknown_version(v: Seq<char>) -> bool {
    v.len() == 0 || v == "0.0.0"@
}

/// Is `v` empty or `0.0.0`?
fn is_unknown_version(v: &str) -> (r: bool)
    ensures
        r == unknown_version(v@),
{
    let c = chars_of(v);
    let z = chars_of("0.0.0");
    if c.len() == 0 {
        return true;
    }
    if c.len() == z.len() && crate::text::starts_with_chars(&c, &z) {
        assert(c@ =~= z@);
        return true;
    }
    assert(c@ != z@) by {
        if c@ == z@ {
            assert(c@.subrange(0, z@.len() as int) =~= c@);
        }
    }
    false
}

/// Decides the move to the versioned layout under `root`: `marker_present`
/// says the layout marker is a file, `active_dir_present` that an active app
/// directory resolves, `legacy` is the flat install directory (Windows only),
/// `installed_version` the version recorded for it, and `present` probes the
/// version's directory.
pub fn plan_legacy_migration<F: Fn(&AppPath) -> bool>(
    os: TargetOs,
    root: &AppPath,
    marker_present: bool,
    active_dir_present: bool,
    legacy: Option<AppPath>,
    installed_version: String,
    present: &F,
) -> (r: LegacyMigration)
    requires
        forall|p: &AppPath| present.requires((p,)),
    ensures
        marker_present ==> r is AlreadyMigrated,
        !marker_present && active_dir_present ==> r is MarkLayout,
        !marker_present && !active_dir_present && (os != TargetOs::Windows || legacy is None
            || unknown_version(installed_version@)) ==> r is NothingToMigrate,
        r matches LegacyMigration::AdoptExisting { version } ==> {
            &&& !marker_present && !active_dir_present && os == TargetOs::Windows
            &&& legacy is Some && !unknown_version(installed_version@)
            &&& version@ == installed_version@
            &&& accepted(present, root@.join(version_dir_name(installed_version@)))
        },
        r matches LegacyMigration::CopyLegacy { version, legacy: from, dest } ==> {
            &&& !marker_present && !active_dir_present && os == TargetOs::Windows
            &&& legacy matches Some(l) && from@ == l@
            &&& !unknown_version(installed_version@)
            &&& version@ == installed_version@
            &&& dest@ == root@.join(version_dir_name(installed_version@))
            &&& present.ensures((&dest,), false)
        },
        !marker_present && !active_dir_present && os == TargetOs::Windows && legacy is Some
            && !unknown_version(installed_version@) ==> (r is AdoptExisting || r is CopyLegacy),
{
    if marker_present {
        return LegacyMigration::AlreadyMigrated;
    }
    if active_dir_present {
        return LegacyMigration::MarkLayout;
    }
    if os != TargetOs::Windows {
        return LegacyMigration::NothingToMigrate;
    }
    match legacy {
        None => LegacyMigration::NothingToMigrate,
        Some(l) => {
            if is_unknown_version(installed_version.as_str()) {
                return LegacyMigration::NothingToMigrate;
            }
            let dest = app_version_dir_under(root, installed_version.as_str());
            if present(&dest) {
                LegacyMigration::AdoptExisting { version: installed_version }
            } else {
                LegacyMigration::CopyLegacy { version: installed_version, legacy: l, dest }
            }
        },
    }
}

/// The bootstrapper executables an install directory may hold, in the order
/// they are preferred.
pub fn bootstrapper_sources(dir: &AppPath) -> (r: Vec<AppPath>)
    ensures
        r@.len() == 2,
        r@[0]@ == dir@.join("Update.exe"@),
        r@[1]@ == dir@.join("updater.exe"@),
{
    let mut r: Vec<AppPath> = Vec::new();
    r.push(dir.join("Update.exe"));
    r.push(dir.join("updater.exe"));
    r
}

/// An update recorded to be applied at the next restart.
pub struct PendingRestart {
    pub version: String,
    pub artifact: String,
    pub electron_version: Option<String>,
    pub updater_version: Option<String>,
}

/// One entry of the packages directory: its file name (empty when it is not
/// valid UTF-8), whether it is a regular file, and its modification time in
/// nanoseconds from the Unix epoch (`None` when it cannot be read).
pub struct StagedEntry {
    pub name: String,
    pub is_file: bool,
    pub modified: Option<i128>,
}

/// An entry that may be picked as the staged package: a file whose
/// modification time is known and whose name does not end in `.partial`.
pub open spec fn staged_candidate(e: StagedEntry) -> bool {
    e.is_file && e.modified is Some && !crate::text::has_suffix(e.name@, ".partial"@)
}

/// Is `e` a candidate for the staged package?
fn is_staged_candidate(e: &StagedEntry) -> (r: bool)
    ensures
        r == staged_candidate(*e),
{
    if !e.is_file || e.modified.is_none() {
        return false;
    }
    let name = chars_of(e.name.as_str());
    let suffix = chars_of(".partial");
    !ends_with_chars(&name, &suffix)
}

/// The staged package among `entries` (the packages directory, in the order
/// it was listed): the candidate modified last, and of those modified at that
/// same time the one listed last; `None` when there is no candidate.
pub fn pick_staged_package(entries: &Vec<StagedEntry>) -> (r: Option<usize>)
    ensures
        match r {
            Some(i) => {
                &&& i < entries.len()
                &&& staged_candidate(entries@[i as int])
                &&& forall|j: int|
                    0 <= j < entries.len() && staged_candidate(#[trigger] entries@[j])
                        ==> entries@[j].modified->0 <= entries@[i as int].modified->0
                &&& forall|j: int|
                    i < j < entries.len() && staged_candidate(#[trigger] entries@[j])
                        ==> entries@[j].modified->0 < entries@[i as int].modified->0
            },
            None => forall|j: int| 0 <= j < entries.len() ==> !staged_candidate(#[trigger] entries@[j]),
        },
{
    let mut best: Option<usize> = None;
    let mut k: usize = 0;
    while k < entries.len()
        invariant
            k <= entries.len(),
            match best {
                Some(i) => {
                    &&& i < k
                    &&& staged_candidate(entries@[i as int])
                    &&& forall|j: int|
                        0 <= j < k && staged_candidate(#[trigger] entries@[j])
                            ==> entries@[j].modified->0 <= entries@[i as int].modified->0
                    &&& forall|j: int|
                        i < j < k && staged_candidate(#[trigger] entries@[j])
                            ==> entries@[j].modified->0 < entries@[i as int].modified->0
                },
                None => forall|j: int| 0 <= j < k ==> !staged_candidate(#[trigger] entries@[j]),
            },
        decreases entries.len() - k,
    {
        let e = &entries[k];
        if is_staged_candidate(e) {
            let m = e.modified.unwrap();
            match best {
                None => {
                    best = Some(k);
                },
                Some(i) => {
                    let bm = entries[i].modified.unwrap();
                    if m >= bm {
                        best = Some(k);
                    }
                },
            }
        }
        k = k + 1;
    }
    best
}

/// Whether a full zip package can be applied: always, except on Linux,
/// where it needs a run from an AppImage (`running_appimage`) or an active
/// app directory (`active_dir_present`).
pub fn can_apply_full_zip(os: TargetOs, running_appimage: bool, active_dir_present: bool) -> (r:
    bool)
    ensures
        r == (os != TargetOs::Linux || running_appimage || active_dir_present),
{
    if os == TargetOs::Linux {
        running_appimage || active_dir_present
    } else {
        true
    }
}

/// The directory of a version does not depend on whitespace around the
/// version text.
pub proof fn lemma_version_dir_ignores_padding(version: Seq<char>)
    ensures
        version_dir_name(trim(version)) == version_dir_name(version),
{
    lemma_trim_idempotent(version);
}

/// What `set_current_version` writes (the trimmed version) reads back, through
/// `version_from_file`, as that trimmed version, or as no version when it is
/// blank; and the active directory then resolved is that of the version set.
pub proof fn lemma_current_version_roundtrip(root: PathView, version: Seq<char>)
    ensures
        version_in_file(Some(trim(version))) == if trim(version).len() == 0 {
            None::<Seq<char>>
        } else {
            Some(trim(version))
        },
        version_in_file(Some(trim(version))) matches Some(read) ==> root.join(version_dir_name(read))
            == root.join(version_dir_name(version)),
{
    lemma_trim_idempotent(version);
}

} // verus!
