//! The per-user directories the platform reports. Each is held in a type of
//! its own, so that one cannot be taken for another: the data root is built
//! from a local data directory and a home directory, and nothing else
//! converts into either.

use vstd::prelude::*;
use crate::layout::{data_root_from, data_root_view, opt_text};
use crate::path::AppPath;

verus! {

/// The per-user local data directory, as text.
pub struct LocalDataDir {
    dir: Option<String>,
}

/// The user's home directory, as text.
pub struct HomeDir {
    dir: Option<String>,
}

/// The user's desktop directory, as text.
pub struct DesktopDir {
    dir: Option<String>,
}

impl LocalDataDir {
    /// The directory's text; `None` when the platform reports none.
    pub closed spec fn text(self) -> Option<Seq<char>> {
        opt_text(self.dir)
    }

    /// The directory's text.
    pub fn into_text(self) -> (r: Option<String>)
        ensures
            opt_text(r) == self.text(),
    {
        self.dir
    }
}

impl HomeDir {
    /// The directory's text; `None` when the platform reports none.
    pub closed spec fn text(self) -> Option<Seq<char>> {
        opt_text(self.dir)
    }
}

impl DesktopDir {
    /// The directory's text; `None` when the platform reports none.
    pub closed spec fn text(self) -> Option<Seq<char>> {
        opt_text(self.dir)
    }

    /// The directory's text.
    pub fn into_text(self) -> (r: Option<String>)
        ensures
            opt_text(r) == self.text(),
    {
        self.dir
    }
}

/// The data root under the local data directory `local`, else under the home
/// directory `home`, else under `.` (see `data_root_view`).
pub fn data_root_of(local: LocalDataDir, home: HomeDir) -> (r: AppPath)
    ensures
        r@ == data_root_view(local.text(), home.text()),
{
    data_root_from(local.dir, home.dir)
}

/// The per-user local data directory (`dirs::data_local_dir`); bytes of it
/// that are not valid UTF-8 are replaced (`to_string_lossy`), since paths are
/// held as text. It depends on the platform and the environment, so nothing
/// is promised of it.
#[verifier::external_body]
pub(crate) fn local_data_dir() -> LocalDataDir {
    LocalDataDir { dir: dirs::data_local_dir().map(|p| p.to_string_lossy().into_owned()) }
}

/// The user's home directory (`dirs::home_dir`); bytes of it that are not
/// valid UTF-8 are replaced (`to_string_lossy`), since paths are held as
/// text. It depends on the platform and the environment, so nothing is
/// promised of it.
#[verifier::external_body]
pub(crate) fn user_home_dir() -> HomeDir {
    HomeDir { dir: dirs::home_dir().map(|p| p.to_string_lossy().into_owned()) }
}

/// The user's desktop directory (`dirs::desktop_dir`); bytes of it that are
/// not valid UTF-8 are replaced (`to_string_lossy`), since paths are held as
/// text. It depends on the platform and the environment, so nothing is
/// promised of it.
#[verifier::external_body]
pub(crate) fn user_desktop_dir() -> DesktopDir {
    DesktopDir { dir: dirs::desktop_dir().map(|p| p.to_string_lossy().into_owned()) }
}

} // verus!
