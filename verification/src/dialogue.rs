//! What a command asks to be done outside, and what it is answered.
//!
//! A command is a state that, given the answer to what it asked last, turns
//! into its next state and what it asks next. Whoever drives it does what is
//! asked and hands back the answer.

use vstd::prelude::*;

use crate::failure::{Failure, Notice};
use crate::install_config::{InstallConfig, LaunchedConfig};
use crate::installer::{InstallerOutcome, InstallerTask};
use crate::names::ConfigFile;
use crate::options::GenConfigOpts;
use crate::place::{Manifest, Place};
use crate::release::LatestRelease;

verus! {

/// What a command asks for.
#[derive(Debug, PartialEq)]
pub enum Action {
    /// Create the directory and those above it, where they are missing.
    EnsureDir(Place),
    /// Create the directory, which must not be there.
    MakeDir(Place),
    /// Remove the directory with all that is in it.
    RemoveDir(Place),
    /// Create a temporary directory.
    MakeTempDir,
    /// Look whether the place is there.
    Exists(Place),
    /// List the names of the files in the configuration directory.
    ListConfigs,
    /// Read the configuration.
    ReadConfig(Place),
    /// Read the state that a cluster was launched with, if it is there.
    ReadLaunchedConfig(Place),
    /// Find the home directory.
    FindHome,
    /// Read the text.
    ReadText(Place),
    /// Write the template that the command has.
    WriteTemplate(Place),
    /// Write the state that the command launches with.
    WriteLaunchedConfig(Place),
    /// Write the configuration that the command launches with.
    WriteInstallConfig(Place),
    /// Write the manifest.
    WriteManifest(Place, Manifest),
    /// Write down why the installation failed.
    WriteStamp(Place, Failure),
    /// Ask the release server for the latest release of a stream.
    FetchRelease(String),
    /// Put the call of the installer together that may be run later, and tell
    /// the user what is odd about it.
    PrepareInstaller(InstallerTask),
    /// Run the installer.
    RunInstaller(InstallerTask),
    /// Open the directory of the user's manifests.
    OpenManifests(String),
    /// Take the next file of that directory.
    NextManifest,
    /// Copy the file that was taken last.
    CopyManifest(Place),
    /// Destroy the cluster of this name, by force or not, with debug logging or not.
    Destroy(String, bool, bool),
    /// Generate a configuration.
    GenerateConfig(GenConfigOpts),
    /// Tell the user.
    Print(Notice),
    /// Nothing more: the command has done what it was to do.
    Finish,
    /// Nothing more: this configuration was generated.
    Generated(ConfigFile),
    /// Nothing more: the command stops for this reason.
    Fail(Failure),
}

/// A file in the directory of the user's manifests.
pub struct ManifestEntry {
    /// Its name, if that is text.
    pub name: Option<String>,
    /// Whether it is a regular file.
    pub is_file: bool,
}

/// What a command is answered.
pub enum Answer {
    /// It was done.
    Done,
    /// Whether the place is there.
    Exists(bool),
    /// The names of the files, as far as they are text.
    Names(Vec<Option<String>>),
    /// The configuration that was read.
    Config(InstallConfig),
    /// The state that was read, if it was there.
    Launched(Option<LaunchedConfig>),
    /// Whether there is a home directory.
    Home(bool),
    /// The text that was read.
    Text(String),
    /// The latest release.
    Release(LatestRelease),
    /// How the run of the installer ended.
    Ran(InstallerOutcome),
    /// The next file, if there is one.
    Entry(Option<ManifestEntry>),
    /// The name of the configuration that was generated.
    Generated(String),
    /// It could not be done, for this reason.
    Failed(String),
}

impl Action {
    /// Whether nothing more is asked.
    pub open spec fn ends(self) -> bool {
        self is Finish || self is Generated || self is Fail
    }
}

/// The directory or file that is created, written or removed.
pub open spec fn changed_place(act: Action) -> Option<Place> {
    match act {
        Action::EnsureDir(place) => Some(place),
        Action::MakeDir(place) => Some(place),
        Action::RemoveDir(place) => Some(place),
        Action::WriteTemplate(place) => Some(place),
        Action::WriteLaunchedConfig(place) => Some(place),
        Action::WriteInstallConfig(place) => Some(place),
        Action::WriteManifest(place, _) => Some(place),
        Action::WriteStamp(place, _) => Some(place),
        Action::CopyManifest(place) => Some(place),
        _ => None,
    }
}

/// Nothing more is asked exactly when a command finished, generated what it was to
/// generate, or failed.
pub proof fn commands_end_three_ways(action: Action)
    ensures
        action.ends() <==> (action is Finish || action is Generated || action is Fail),
{
}

} // verus!
