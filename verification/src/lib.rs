//! Verified core of the Mutualzz desktop updater: install-argument parsing,
//! on-disk layout, update-package classification, manifest selection,
//! download bookkeeping and the decisions of the update flow.

pub mod text;
pub mod distro;
pub mod path;
pub mod envdirs;
pub mod layout;
pub mod platform;
pub mod install;
pub mod digest;
pub mod version;
pub mod update;
pub mod flow;
pub mod splash;
