//! Verified core of `xokdinst`, a wrapper around the OpenShift installer that
//! keeps one directory per cluster under the user's configuration directory.
//!
//! The commands decide here what has to be done outside; see `dialogue`.

pub mod calls;
pub mod config;
pub mod destroy;
pub mod destroy_laws;
pub mod dialogue;
pub mod failure;
pub mod generate;
pub mod generate_laws;
pub mod host;
pub mod install_config;
pub mod installer;
pub mod json;
pub mod launch;
pub mod launch_history;
pub mod launch_laws;
pub mod launch_run;
pub mod listing;
pub mod manifests;
pub mod names;
pub mod options;
pub mod place;
pub mod platform;
pub mod release;
pub mod text;
