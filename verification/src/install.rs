//! Install mode: reading the install arguments, deciding whether the
//! updater runs as an installer, and the Windows shortcut script.

use vstd::prelude::*;
use crate::path::{AppPath, PathView, TargetOs, texts};
use crate::layout::opt_text;
use crate::text::{chars_of, contains_chars, has_substring, ascii_lower, lower_chars, string_push, text_eq};

verus! {

/// `i` is the first position of `flag` among `args`.
pub open spec fn first_at(args: Seq<Seq<char>>, flag: Seq<char>, i: int) -> bool {
    0 <= i < args.len() && args[i] == flag && forall|j: int| 0 <= j < i ==> args[j] != flag
}

/// The argument that follows the first `flag`, when there is one.
pub open spec fn flag_value(args: Seq<Seq<char>>, flag: Seq<char>) -> Option<Seq<char>> {
    if exists|i: int| first_at(args, flag, i) {
        let i = choose|i: int| first_at(args, flag, i);
        if i + 1 < args.len() {
            Some(args[i + 1])
        } else {
            None
        }
    } else {
        None
    }
}

/// `flag` is one of `args`.
pub open spec fn has_flag(args: Seq<Seq<char>>, flag: Seq<char>) -> bool {
    exists|i: int| 0 <= i < args.len() && args[i] == flag
}

/// The package to install: the argument after `--install`, else the bundled package.
pub open spec fn install_package(args: Seq<Seq<char>>, bundled: Option<PathView>) -> Option<PathView> {
    match flag_value(args, "--install"@) {
        Some(z) => Some(PathView::root(z)),
        None => bundled,
    }
}

/// The version to install: the argument after `--version`, else the bundled
/// version resource; `0.0.0` when neither is known or it is `0.0.0`.
pub open spec fn install_version(args: Seq<Seq<char>>, resource: Option<Seq<char>>) -> Seq<char> {
    let v = match flag_value(args, "--version"@) {
        Some(v) => Some(v),
        None => resource,
    };
    match v {
        Some(x) => if x == "0.0.0"@ {
            "0.0.0"@
        } else {
            x
        },
        None => "0.0.0"@,
    }
}

proof fn lemma_first_at_unique(args: Seq<Seq<char>>, flag: Seq<char>, i: int, k: int)
    requires
        first_at(args, flag, i),
        first_at(args, flag, k),
    ensures
        i == k,
{
    if i < k {
        assert(args[i] != flag);
    } else if k < i {
        assert(args[k] != flag);
    }
}

/// The position of the first `flag` in `args`.
fn position_of(args: &Vec<String>, flag: &str) -> (r: Option<usize>)
    ensures
        match r {
            Some(i) => first_at(texts(args@), flag@, i as int),
            None => !has_flag(texts(args@), flag@) && !(exists|i: int| first_at(texts(args@), flag@, i)),
        },
{
    let f = chars_of(flag);
    let mut i: usize = 0;
    while i < args.len()
        invariant
            i <= args.len(),
            f@ == flag@,
            forall|j: int| 0 <= j < i ==> texts(args@)[j] != flag@,
        decreases args.len() - i,
    {
        let a = chars_of(args[i].as_str());
        if text_eq(&a, flag) {
            return Some(i);
        }
        i = i + 1;
    }
    None
}

/// The argument after the first `flag`.
fn value_after(args: &Vec<String>, flag: &str) -> (r: Option<String>)
    ensures
        opt_text(r) == flag_value(texts(args@), flag@),
{
    match position_of(args, flag) {
        Some(i) => {
            proof {
                let k = choose|k: int| first_at(texts(args@), flag@, k);
                lemma_first_at_unique(texts(args@), flag@, i as int, k);
            }
            if i < args.len() - 1 {
                Some(args[i + 1].clone())
            } else {
                None
            }
        },
        None => None,
    }
}

/// The install package and version from the command line `args`:
/// the package is the argument after `--install`, else `bundled_zip` (the
/// package shipped next to the executable); the version is the argument after
/// `--version`, else `resource_version` (the bundled `app-version.txt`), with
/// `0.0.0` standing for an unknown version. `None` when there is no package.
pub fn parse_install_args(
    args: &Vec<String>,
    bundled_zip: Option<AppPath>,
    resource_version: Option<String>,
) -> (r: Option<(AppPath, String)>)
    ensures
        match r {
            Some((zip, version)) => {
                &&& install_package(texts(args@), crate::layout::opt_path(bundled_zip)) == Some(zip@)
                &&& version@ == install_version(texts(args@), opt_text(resource_version))
            },
            None => install_package(texts(args@), crate::layout::opt_path(bundled_zip)) is None,
        },
{
    let zip = match value_after(args, "--install") {
        Some(z) => AppPath::new(z.as_str()),
        None => match bundled_zip {
            Some(b) => b,
            None => {
                return None;
            },
        },
    };
    let v = match value_after(args, "--version") {
        Some(v) => Some(v),
        None => resource_version,
    };
    let version = match v {
        Some(x) => {
            let c = chars_of(x.as_str());
            if text_eq(&c, "0.0.0") {
                "0.0.0".to_string()
            } else {
                x
            }
        },
        None => "0.0.0".to_string(),
    };
    Some((zip, version))
}

/// Does `flag` occur among `args`?
pub fn has_arg(args: &Vec<String>, flag: &str) -> (r: bool)
    ensures
        r == has_flag(texts(args@), flag@),
{
    let p = position_of(args, flag);
    p.is_some()
}

/// The updater runs as an installer: with `--install` when an install
/// package is found; without it, on Windows, when the executable's name
/// (`exe_stem`) contains `setup` in any letter case and a package is bundled.
pub open spec fn runs_install(
    args: Seq<Seq<char>>,
    bundled: Option<PathView>,
    os: TargetOs,
    exe_stem: Option<Seq<char>>,
) -> bool {
    if has_flag(args, "--install"@) {
        install_package(args, bundled) is Some
    } else {
        os == TargetOs::Windows && (exe_stem matches Some(s) && has_substring(
            ascii_lower(s),
            "setup"@,
        )) && bundled is Some
    }
}

/// Whether the updater runs in install mode (see `runs_install`).
pub fn should_run_install(
    args: &Vec<String>,
    bundled_zip: Option<AppPath>,
    resource_version: Option<String>,
    os: TargetOs,
    exe_stem: Option<String>,
) -> (r: bool)
    ensures
        r == runs_install(texts(args@), crate::layout::opt_path(bundled_zip), os, opt_text(exe_stem)),
{
    let bundled_present = bundled_zip.is_some();
    if has_arg(args, "--install") {
        return parse_install_args(args, bundled_zip, resource_version).is_some();
    }
    if os == TargetOs::Windows {
        let is_setup = match exe_stem {
            Some(s) => contains_chars(&lower_chars(&chars_of(s.as_str())), &chars_of("setup")),
            None => false,
        };
        if is_setup && bundled_present {
            return true;
        }
    }
    false
}

/// The packages that may be bundled next to the executable in `exe_dir`,
/// in the order they are tried.
pub fn bundled_zip_candidates(exe_dir: &AppPath) -> (r: Vec<AppPath>)
    ensures
        r@.len() == 2,
        r@[0]@ == exe_dir@.join("Mutualzz-win.zip"@),
        r@[1]@ == exe_dir@.join("install.zip"@),
{
    let mut r: Vec<AppPath> = Vec::new();
    r.push(exe_dir.join("Mutualzz-win.zip"));
    r.push(exe_dir.join("install.zip"));
    r
}

/// `s` quoted for a single-quoted PowerShell string: each `'` doubled.
pub open spec fn ps_escape(s: Seq<char>) -> Seq<char>
    decreases s.len(),
{
    if s.len() == 0 {
        seq![]
    } else if s.last() == '\'' {
        ps_escape(s.drop_last()) + seq!['\'', '\'']
    } else {
        ps_escape(s.drop_last()).push(s.last())
    }
}

/// The PowerShell script that points the desktop shortcut `desktop` and the
/// Start-menu shortcut `start` at `target` with the icon of `icon`.
pub open spec fn shortcut_script_text(
    desktop: Seq<char>,
    start: Seq<char>,
    target: Seq<char>,
    icon: Seq<char>,
) -> Seq<char> {
    "\n$WshShell = New-Object -ComObject WScript.Shell\n$desktop = '"@ + ps_escape(desktop)
        + "'\n$start = '"@ + ps_escape(start) + "'\n$target = '"@ + ps_escape(target)
        + "'\n$icon = '"@ + ps_escape(icon)
        + "'\n$d = $WshShell.CreateShortcut($desktop)\n$d.TargetPath = $target\n$d.IconLocation = $icon\n$d.Save()\n$s = $WshShell.CreateShortcut($start)\n$s.TargetPath = $target\n$s.IconLocation = $icon\n$s.Save()\n"@
}

/// Appends `t` to `s`.
fn append_text(s: &mut String, t: &str)
    ensures
        final(s)@ == old(s)@ + t@,
{
    let c = chars_of(t);
    let ghost s0 = s@;
    let mut i: usize = 0;
    while i < c.len()
        invariant
            i <= c.len(),
            s@ == s0 + c@.take(i as int),
        decreases c.len() - i,
    {
        string_push(s, c[i]);
        assert(s0 + c@.take(i as int).push(c@[i as int]) =~= s0 + c@.take(i + 1));
        i = i + 1;
    }
    assert(c@.take(c.len() as int) =~= c@);
}

/// Appends `t` to `s` quoted for a single-quoted PowerShell string.
fn append_escaped(s: &mut String, t: &str)
    ensures
        final(s)@ == old(s)@ + ps_escape(t@),
{
    let c = chars_of(t);
    let ghost s0 = s@;
    let mut i: usize = 0;
    while i < c.len()
        invariant
            i <= c.len(),
            s@ == s0 + ps_escape(c@.take(i as int)),
        decreases c.len() - i,
    {
        let ghost before = s@;
        assert(c@.take(i + 1).drop_last() =~= c@.take(i as int));
        if c[i] == '\'' {
            string_push(s, '\'');
            string_push(s, '\'');
            assert(before.push('\'').push('\'') =~= s0 + (ps_escape(c@.take(i as int)) + seq![
                '\'',
                '\'',
            ]));
        } else {
            string_push(s, c[i]);
            assert(before.push(c@[i as int]) =~= s0 + ps_escape(c@.take(i as int)).push(
                c@[i as int],
            ));
        }
        i = i + 1;
    }
    assert(c@.take(c.len() as int) =~= c@);
}

/// The PowerShell script that writes the desktop and Start-menu shortcuts,
/// every path quoted.
pub fn shortcut_script(desktop: &str, start: &str, target: &str, icon: &str) -> (r: String)
    ensures
        r@ == shortcut_script_text(desktop@, start@, target@, icon@),
{
    let mut s = String::new();
    append_text(&mut s, "\n$WshShell = New-Object -ComObject WScript.Shell\n$desktop = '");
    append_escaped(&mut s, desktop);
    append_text(&mut s, "'\n$start = '");
    append_escaped(&mut s, start);
    append_text(&mut s, "'\n$target = '");
    append_escaped(&mut s, target);
    append_text(&mut s, "'\n$icon = '");
    append_escaped(&mut s, icon);
    append_text(
        &mut s,
        "'\n$d = $WshShell.CreateShortcut($desktop)\n$d.TargetPath = $target\n$d.IconLocation = $icon\n$d.Save()\n$s = $WshShell.CreateShortcut($start)\n$s.TargetPath = $target\n$s.IconLocation = $icon\n$s.Save()\n",
    );
    s
}

/// The paths that the Windows shortcuts are made of.
pub struct ShortcutPaths {
    /// The bootstrapper the shortcuts start.
    pub target: AppPath,
    /// The executable whose icon the shortcuts show.
    pub icon: AppPath,
    /// The desktop shortcut.
    pub desktop_link: AppPath,
    /// The Start-menu folder that holds the other shortcut.
    pub start_menu: AppPath,
    /// The Start-menu shortcut.
    pub start_link: AppPath,
}

/// The shortcut paths: the target is `Update.exe` under the data root
/// `root`; the icon is `mutualzz.exe` in the active app directory, else the
/// target; the desktop shortcut lies in `desktop_dir`, else in `root`; the
/// Start-menu one in `Programs/Mutualzz` under `local_dir`, else under `root`.
pub fn shortcut_paths(
    root: &AppPath,
    active_dir: Option<AppPath>,
    desktop_dir: Option<AppPath>,
    local_dir: Option<AppPath>,
) -> (r: ShortcutPaths)
    ensures
        r.target@ == root@.join("Update.exe"@),
        r.icon@ == match active_dir {
            Some(d) => d@.join("mutualzz.exe"@),
            None => root@.join("Update.exe"@),
        },
        r.desktop_link@ == match desktop_dir {
            Some(d) => d@,
            None => root@,
        }.join("Mutualzz.lnk"@),
        r.start_menu@ == match local_dir {
            Some(d) => d@,
            None => root@,
        }.join("Programs"@).join("Mutualzz"@),
        r.start_link@ == r.start_menu@.join("Mutualzz.lnk"@),
{
    let target = root.join("Update.exe");
    let icon = match active_dir {
        Some(d) => d.join("mutualzz.exe"),
        None => target.duplicate(),
    };
    let desktop_link = match desktop_dir {
        Some(d) => d.join("Mutualzz.lnk"),
        None => root.join("Mutualzz.lnk"),
    };
    let start_menu = match local_dir {
        Some(d) => d.join("Programs").join("Mutualzz"),
        None => root.join("Programs").join("Mutualzz"),
    };
    let start_link = start_menu.join("Mutualzz.lnk");
    ShortcutPaths { target, icon, desktop_link, start_menu, start_link }
}

/// What a run of the updater does.
pub enum LaunchMode {
    /// Remove the installation.
    Uninstall,
    /// Show the splash screen with simulated progress; quicker with `fast`.
    SplashTest { fast: bool },
    /// Install the package found by `parse_install_args`.
    Install,
    /// Check for updates, then launch the application.
    Update,
}

/// The mode of a run with the command line `args`: `--uninstall` first,
/// then `--splash-test` (quick with `--fast`), then install mode when
/// `install` (what `should_run_install` decided), else the update run.
pub fn launch_mode(args: &Vec<String>, install: bool) -> (r: LaunchMode)
    ensures
        has_flag(texts(args@), "--uninstall"@) ==> r is Uninstall,
        !has_flag(texts(args@), "--uninstall"@) && has_flag(texts(args@), "--splash-test"@) ==> (r
            == (LaunchMode::SplashTest { fast: has_flag(texts(args@), "--fast"@) })),
        !has_flag(texts(args@), "--uninstall"@) && !has_flag(texts(args@), "--splash-test"@)
            && install ==> (r is Install),
        !has_flag(texts(args@), "--uninstall"@) && !has_flag(texts(args@), "--splash-test"@)
            && !install ==> (r is Update),
{
    if has_arg(args, "--uninstall") {
        LaunchMode::Uninstall
    } else if has_arg(args, "--splash-test") {
        LaunchMode::SplashTest { fast: has_arg(args, "--fast") }
    } else if install {
        LaunchMode::Install
    } else {
        LaunchMode::Update
    }
}

/// The arguments install mode reads: the command line when it has
/// `--install`, else the program name followed by a bare `--install` (so
/// that the bundled package is used).
pub fn install_arguments(args: &Vec<String>) -> (r: Vec<String>)
    requires
        args.len() > 0,
    ensures
        has_flag(texts(args@), "--install"@) ==> texts(r@) == texts(args@),
        !has_flag(texts(args@), "--install"@) ==> texts(r@) == seq![texts(args@)[0], "--install"@],
{
    if has_arg(args, "--install") {
        let mut r: Vec<String> = Vec::new();
        let mut i: usize = 0;
        while i < args.len()
            invariant
                i <= args.len(),
                texts(r@) == texts(args@).take(i as int),
            decreases args.len() - i,
        {
            let c = args[i].clone();
            let ghost before = r@;
            r.push(c);
            assert(texts(r@) =~= texts(before).push(c@));
            assert(texts(r@) =~= texts(args@).take(i + 1));
            i = i + 1;
        }
        assert(texts(args@).take(args.len() as int) =~= texts(args@));
        r
    } else {
        let mut r: Vec<String> = Vec::new();
        r.push(args[0].clone());
        r.push("--install".to_string());
        assert(texts(r@) =~= seq![texts(args@)[0], "--install"@]);
        r
    }
}

/// The places inside `dir` where a resource file `name` may be, in the
/// order they are tried: its `resources` directory, then `dir` itself.
pub fn resource_file_candidates(dir: &AppPath, name: &str) -> (r: Vec<AppPath>)
    ensures
        r@.len() == 2,
        r@[0]@ == dir@.join("resources"@).join(name@),
        r@[1]@ == dir@.join(name@),
{
    let mut r: Vec<AppPath> = Vec::new();
    r.push(dir.join("resources").join(name));
    r.push(dir.join(name));
    r
}

/// The shortcut paths of this user (see `shortcut_paths`), under the data
/// root, the desktop directory and the local data directory of this system.
pub fn windows_shortcut_paths(active_dir: Option<AppPath>) -> (r: ShortcutPaths)
    ensures
        r.target@.parts == seq!["Mutualzz"@, "Update.exe"@],
        match active_dir {
            Some(d) => r.icon@ == d@.join("mutualzz.exe"@),
            None => r.icon@ == r.target@,
        },
        r.desktop_link@.parts.len() > 0 && r.desktop_link@.parts.last() == "Mutualzz.lnk"@,
        r.start_menu@.parts.len() >= 2,
        r.start_menu@.parts.subrange(
            r.start_menu@.parts.len() - 2,
            r.start_menu@.parts.len() as int,
        ) == seq!["Programs"@, "Mutualzz"@],
        r.start_link@ == r.start_menu@.join("Mutualzz.lnk"@),
{
    let root = crate::layout::data_root();
    let desktop = match crate::envdirs::user_desktop_dir().into_text() {
        Some(d) => Some(AppPath::new(d.as_str())),
        None => None,
    };
    let local = match crate::envdirs::local_data_dir().into_text() {
        Some(d) => Some(AppPath::new(d.as_str())),
        None => None,
    };
    let r = shortcut_paths(&root, active_dir, desktop, local);
    assert(r.target@.parts =~= seq!["Mutualzz"@, "Update.exe"@]);
    let ghost sm = r.start_menu@.parts;
    assert(sm.subrange(sm.len() - 2, sm.len() as int) =~= seq!["Programs"@, "Mutualzz"@]);
    r
}

} // verus!
