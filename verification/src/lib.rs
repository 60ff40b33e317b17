//! The verified core of a Windows installer and uninstaller wizard: argument
//! parsing, path rules, the registry surface it writes and removes (with a
//! model of the registry that says what those plans leave behind), the
//! bundle reader, progress reporting, the step order of installing and
//! uninstalling, the relaunches of the wizard and the tray menu placement.
use vstd::prelude::*;

pub mod args;
pub mod bundle;
pub mod cmdline;
pub mod config;
pub mod hive_model;
pub mod install;
pub mod paths;
pub mod progress;
pub mod registry;
pub mod relaunch;
pub mod text;
pub mod tray;
pub mod uninstall;
pub mod wizard;

verus! {

} // verus!
