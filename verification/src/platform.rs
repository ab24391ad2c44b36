//! Platform decisions: how a downloaded update package is recognised and
//! applied, and where the installed application and its parts live.

use vstd::prelude::*;
use crate::path::{AppPath, PathView, TargetOs, first_existing, refused};
use crate::layout::{data_root, opt_path, root_parts};
use crate::text::{ascii_lower, chars_of, concat, ends_with_chars, has_suffix, lower_chars, owned, string_of, text_eq, last_index_of, lemma_last_index_take};

verus! {

/// The extension of the file name `name`, as `Path::extension` gives it:
/// what follows the last dot, empty when there is no dot or the only dot
/// starts the name.
pub open spec fn extension(name: Seq<char>) -> Seq<char> {
    let k = last_index_of(name, '.');
    if k <= 0 {
        seq![]
    } else {
        name.skip(k + 1)
    }
}

/// The package format of the file name `name`, by its suffix folded to
/// lower case; for an unknown suffix, the name's own extension.
pub open spec fn format_of(name: Seq<char>) -> Seq<char> {
    let l = ascii_lower(name);
    if has_suffix(l, ".appimage"@) {
        "AppImage"@
    } else if has_suffix(l, ".deb"@) {
        "deb"@
    } else if has_suffix(l, ".rpm"@) {
        "rpm"@
    } else if has_suffix(l, ".pacman"@) || has_suffix(l, ".pkg.tar.zst"@) || has_suffix(
        l,
        ".pkg.tar.xz"@,
    ) || has_suffix(l, ".pkg.tar.gz"@) {
        "pacman"@
    } else if has_suffix(l, ".zip"@) {
        "zip"@
    } else if has_suffix(l, ".asar"@) {
        "asar"@
    } else if has_suffix(l, ".dmg"@) {
        "dmg"@
    } else {
        extension(name)
    }
}

/// The extension of the file name `name`.
pub fn extension_of(name: &Vec<char>) -> (r: Vec<char>)
    ensures
        r@ == extension(name@),
{
    let mut j: usize = name.len();
    while j > 0 && name[j - 1] != '.'
        invariant
            j <= name.len(),
            forall|k: int| j <= k < name.len() ==> #[trigger] name@[k] != '.',
        decreases j,
    {
        j = j - 1;
    }
    proof {
        lemma_last_index_take(name@, '.', j as int);
        if j > 0 {
            assert(name@.take(j as int).last() == '.');
        } else {
            assert(name@.take(0) =~= Seq::<char>::empty());
        }
    }
    let mut r: Vec<char> = Vec::new();
    if j <= 1 {
        return r;
    }
    let mut k: usize = j;
    while k < name.len()
        invariant
            j <= k <= name.len(),
            r@ == name@.subrange(j as int, k as int),
        decreases name.len() - k,
    {
        r.push(name[k]);
        assert(name@.subrange(j as int, k as int).push(name@[k as int]) =~= name@.subrange(
            j as int,
            k + 1,
        ));
        k = k + 1;
    }
    assert(r@ =~= name@.skip(j as int));
    r
}

/// The package format of an update file, from its file name (`None` when
/// the path has no file name or it is not valid UTF-8): `AppImage`, `deb`,
/// `rpm`, `pacman`, `zip`, `asar` or `dmg` by the suffix in any letter case,
/// else the file's own extension. `extension` is the path's extension as
/// text (`Path::extension`; `None` when there is none or it is not valid
/// UTF-8); it is what a name that is not valid UTF-8 falls back to, and for
/// such a name the result is that extension, or empty.
pub fn update_format(file_name: Option<&str>, extension: Option<&str>) -> (r: String)
    ensures
        r@ == match file_name {
            Some(n) => format_of(n@),
            None => match extension {
                Some(e) => e@,
                None => seq![],
            },
        },
{
    let name: Vec<char> = match file_name {
        Some(n) => chars_of(n),
        None => {
            return match extension {
                Some(e) => e.to_string(),
                None => string_of(&Vec::new()),
            };
        },
    };
    let l = lower_chars(&name);
    if ends_with_chars(&l, &chars_of(".appimage")) {
        return owned("AppImage");
    }
    if ends_with_chars(&l, &chars_of(".deb")) {
        return owned("deb");
    }
    if ends_with_chars(&l, &chars_of(".rpm")) {
        return owned("rpm");
    }
    if ends_with_chars(&l, &chars_of(".pacman")) || ends_with_chars(&l, &chars_of(".pkg.tar.zst"))
        || ends_with_chars(&l, &chars_of(".pkg.tar.xz")) || ends_with_chars(
        &l,
        &chars_of(".pkg.tar.gz"),
    ) {
        return owned("pacman");
    }
    if ends_with_chars(&l, &chars_of(".zip")) {
        return owned("zip");
    }
    if ends_with_chars(&l, &chars_of(".asar")) {
        return owned("asar");
    }
    if ends_with_chars(&l, &chars_of(".dmg")) {
        return owned("dmg");
    }
    let e = extension_of(&name);
    string_of(&e)
}

/// How a downloaded update is applied.
pub enum ApplyPlan {
    /// Swap in the application archive, then record the versions.
    Asar,
    /// Unpack the full zip package into the version's directory.
    Zip,
    /// Replace the running AppImage, record the versions and relaunch.
    AppImage,
    /// Refuse the update with this message.
    Refuse(String),
}

/// The refusal for an AppImage update on a Linux system that cannot apply one.
pub open spec fn appimage_refusal() -> Seq<char> {
    "Full AppImage updates require the AppImage build. Download from mutualzz.com."@
}

/// The refusal for a distribution package on Linux.
pub open spec fn package_manager_refusal() -> Seq<char> {
    "Package manager updates are not supported in-app. Use the AppImage build."@
}

/// The message a refused plan carries.
pub open spec fn refusal_message(os: TargetOs, format: Seq<char>, full_zip_ok: bool) -> Seq<char> {
    if os == TargetOs::Linux && format == "AppImage"@ && !full_zip_ok {
        appimage_refusal()
    } else if os == TargetOs::Linux && (format == "deb"@ || format == "rpm"@ || format
        == "pacman"@) {
        package_manager_refusal()
    } else {
        "Unknown update format: "@ + format
    }
}

/// How to apply an update whose format (what `update_format` gave) is
/// `format` on `os`: archives and zip packages everywhere, AppImages on Linux
/// where `full_zip_ok`; every other format is refused with a message.
pub fn plan_update_apply(os: TargetOs, format: &str, full_zip_ok: bool) -> (r: ApplyPlan)
    ensures
        r is Asar <==> format@ == "asar"@,
        r is Zip <==> format@ == "zip"@,
        r is AppImage <==> (os == TargetOs::Linux && format@ == "AppImage"@ && full_zip_ok),
        r matches ApplyPlan::Refuse(m) ==> m@ == refusal_message(os, format@, full_zip_ok),
{
    let f = chars_of(format);
    proof {
        reveal_strlit("asar");
        reveal_strlit("zip");
        reveal_strlit("AppImage");
        assert("asar"@.len() == 4 && "zip"@.len() == 3 && "AppImage"@.len() == 8);
        assert("asar"@ != "zip"@ && "asar"@ != "AppImage"@ && "zip"@ != "AppImage"@);
    }
    if text_eq(&f, "asar") {
        return ApplyPlan::Asar;
    }
    if text_eq(&f, "zip") {
        return ApplyPlan::Zip;
    }
    let linux = os == TargetOs::Linux;
    if linux && text_eq(&f, "AppImage") {
        if full_zip_ok {
            return ApplyPlan::AppImage;
        }
        return ApplyPlan::Refuse(
            owned("Full AppImage updates require the AppImage build. Download from mutualzz.com."),
        );
    }
    if linux && (text_eq(&f, "deb") || text_eq(&f, "rpm") || text_eq(&f, "pacman")) {
        return ApplyPlan::Refuse(
            owned("Package manager updates are not supported in-app. Use the AppImage build."),
        );
    }
    ApplyPlan::Refuse(concat("Unknown update format: ", format))
}

/// Where the application archive lives inside the install directory `install_dir`.
pub fn asar_dest_path(os: TargetOs, install_dir: &AppPath) -> (r: AppPath)
    ensures
        r@ == if os == TargetOs::MacOs {
            install_dir@.join("Contents"@).join("Resources"@).join("app.asar"@)
        } else {
            install_dir@.join("resources"@).join("app.asar"@)
        },
{
    if os == TargetOs::MacOs {
        install_dir.join("Contents").join("Resources").join("app.asar")
    } else {
        install_dir.join("resources").join("app.asar")
    }
}

/// The marker that records the version just installed: `just-updated` under
/// the data root.
pub fn just_updated_marker() -> (r: AppPath)
    ensures
        r@.parts == root_parts("just-updated"@),
{
    let r = data_root().join("just-updated");
    assert(r@.parts =~= root_parts("just-updated"@));
    r
}

/// The install directory: the active app directory when there is one (on
/// macOS the `Mutualzz.app` bundle inside it when `is_dir` finds it); else on
/// macOS the bundle that holds the running executable (`bundle_root`), on
/// Linux the directory of the running AppImage (`appimage_dir`) when there is
/// one, and otherwise the directory of the running executable (`exe_dir`).
/// `exe_dir` is `None` when that directory cannot be found; it is needed only
/// without an active app directory.
pub fn install_dir<F: Fn(&AppPath) -> bool>(
    os: TargetOs,
    active_dir: Option<AppPath>,
    exe_dir: Option<AppPath>,
    bundle_root: Option<AppPath>,
    appimage_dir: Option<AppPath>,
    is_dir: &F,
) -> (r: AppPath)
    requires
        forall|p: &AppPath| is_dir.requires((p,)),
        active_dir is None ==> exe_dir is Some,
        os == TargetOs::MacOs && active_dir is None ==> bundle_root is Some,
    ensures
        match active_dir {
            Some(d) => if os == TargetOs::MacOs {
                ||| r@ == d@.join("Mutualzz.app"@) && is_dir.ensures((&r,), true)
                ||| r@ == d@ && refused(is_dir, d@.join("Mutualzz.app"@))
            } else {
                r@ == d@
            },
            None => r@ == if os == TargetOs::MacOs {
                bundle_root->0@
            } else if os == TargetOs::Linux && appimage_dir is Some {
                appimage_dir->0@
            } else {
                exe_dir->0@
            },
        },
{
    match active_dir {
        Some(d) => {
            if os == TargetOs::MacOs {
                let bundled = d.join("Mutualzz.app");
                if is_dir(&bundled) {
                    return bundled;
                }
            }
            d
        },
        None => {
            if os == TargetOs::MacOs {
                return bundle_root.unwrap();
            }
            if os == TargetOs::Linux {
                if let Some(a) = appimage_dir {
                    return a;
                }
            }
            exe_dir.unwrap()
        },
    }
}

/// The places inside the active app directory `dir` where the application
/// executable may be, in the order they are tried.
pub open spec fn electron_candidates_view(os: TargetOs, dir: PathView) -> Seq<PathView> {
    if os == TargetOs::MacOs {
        seq![
            dir.join("Mutualzz.app"@).join("Contents"@).join("MacOS"@).join("MutualzzApp"@),
            dir.join("Contents"@).join("MacOS"@).join("MutualzzApp"@),
        ]
    } else if os == TargetOs::Windows {
        seq![dir.join("mutualzz.exe"@)]
    } else {
        seq![dir.join("mutualzz-bin"@)]
    }
}

/// The application executable used when no app directory holds one: next
/// to the bootstrapper (in `exe_dir`) on macOS and Windows, in the install
/// directory on Linux; `None` when the directory it needs is unknown.
pub open spec fn electron_fallback(os: TargetOs, exe_dir: Option<PathView>, install_dir: Option<PathView>) -> Option<PathView> {
    if os == TargetOs::MacOs {
        match exe_dir {
            Some(e) => Some(e.join("MutualzzApp"@)),
            None => None,
        }
    } else if os == TargetOs::Windows {
        match exe_dir {
            Some(e) => Some(e.join("mutualzz.exe"@)),
            None => None,
        }
    } else {
        match install_dir {
            Some(i) => Some(i.join("mutualzz-bin"@)),
            None => None,
        }
    }
}

/// The places inside `dir` where the application executable may be.
pub fn electron_candidates(os: TargetOs, dir: &AppPath) -> (r: Vec<AppPath>)
    ensures
        r@.len() == electron_candidates_view(os, dir@).len(),
        forall|i: int| 0 <= i < r@.len() ==> #[trigger] r@[i]@ == electron_candidates_view(os, dir@)[i],
{
    let mut r: Vec<AppPath> = Vec::new();
    if os == TargetOs::MacOs {
        r.push(dir.join("Mutualzz.app").join("Contents").join("MacOS").join("MutualzzApp"));
        r.push(dir.join("Contents").join("MacOS").join("MutualzzApp"));
    } else if os == TargetOs::Windows {
        r.push(dir.join("mutualzz.exe"));
    } else {
        r.push(dir.join("mutualzz-bin"));
    }
    r
}

/// The application executable to launch: `override_path` (the
/// `UPDATER_ELECTRON_PATH` variable) when set; else the first place inside
/// the active app directory `active_dir` where `is_file` finds it; else the
/// platform's place next to the bootstrapper (`exe_dir`) or, on Linux, in
/// the install directory (`install_dir`). Those two are `None` when they
/// cannot be found, and the result is `None` exactly when the one needed is.
pub fn electron_exe_path<F: Fn(&AppPath) -> bool>(
    os: TargetOs,
    override_path: Option<String>,
    active_dir: Option<AppPath>,
    exe_dir: Option<AppPath>,
    install_dir: Option<AppPath>,
    is_file: &F,
) -> (r: Option<AppPath>)
    requires
        forall|p: &AppPath| is_file.requires((p,)),
    ensures
        override_path matches Some(o) ==> opt_path(r) == Some(PathView::root(o@)),
        override_path is None ==> match active_dir {
            Some(d) => {
                ||| exists|i: int|
                    0 <= i < electron_candidates_view(os, d@).len() && r is Some && r->0@
                        == electron_candidates_view(os, d@)[i] && is_file.ensures((&r->0,), true)
                        && forall|j: int|
                        0 <= j < i ==> refused(is_file, #[trigger] electron_candidates_view(os, d@)[j])
                ||| (forall|j: int|
                    0 <= j < electron_candidates_view(os, d@).len() ==> refused(
                        is_file,
                        #[trigger] electron_candidates_view(os, d@)[j],
                    )) && opt_path(r) == electron_fallback(os, opt_path(exe_dir), opt_path(install_dir))
            },
            None => opt_path(r) == electron_fallback(os, opt_path(exe_dir), opt_path(install_dir)),
        },
{
    if let Some(o) = override_path {
        return Some(AppPath::new(o.as_str()));
    }
    if let Some(d) = &active_dir {
        let mut cands = electron_candidates(os, d);
        let ghost all = cands@;
        match first_existing(&cands, is_file) {
            Some(i) => {
                let ghost found = cands@[i as int];
                let p = cands.remove(i);
                assert(p == found);
                assert(p@ == electron_candidates_view(os, d@)[i as int]);
                assert forall|j: int| 0 <= j < i implies refused(is_file, #[trigger] electron_candidates_view(os, d@)[j]) by {
                    assert(all[j]@ == electron_candidates_view(os, d@)[j]);
                }
                return Some(p);
            },
            None => {
                assert forall|j: int| 0 <= j < electron_candidates_view(os, d@).len() implies refused(is_file, #[trigger] electron_candidates_view(os, d@)[j]) by {
                    assert(all[j]@ == electron_candidates_view(os, d@)[j]);
                }
            },
        }
    }
    if os == TargetOs::MacOs {
        match exe_dir {
            Some(e) => Some(e.join("MutualzzApp")),
            None => None,
        }
    } else if os == TargetOs::Windows {
        match exe_dir {
            Some(e) => Some(e.join("mutualzz.exe")),
            None => None,
        }
    } else {
        match install_dir {
            Some(i) => Some(i.join("mutualzz-bin")),
            None => None,
        }
    }
}

/// Where one entry of a zip package goes.
pub enum ZipEntryTarget {
    /// A directory entry (its name ends in `/`): create this directory.
    Directory(AppPath),
    /// A file entry: write its contents to this path.
    File(AppPath),
}

/// Where the zip entry named `name` goes when the package is unpacked into `dest`.
pub fn zip_entry_target(dest: &AppPath, name: &str) -> (r: ZipEntryTarget)
    ensures
        match r {
            ZipEntryTarget::Directory(p) => has_suffix(name@, "/"@) && p@ == dest@.join(name@),
            ZipEntryTarget::File(p) => !has_suffix(name@, "/"@) && p@ == dest@.join(name@),
        },
{
    let out = dest.join(name);
    if ends_with_chars(&chars_of(name), &chars_of("/")) {
        ZipEntryTarget::Directory(out)
    } else {
        ZipEntryTarget::File(out)
    }
}

} // verus!
