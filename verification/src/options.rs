//! The options of the commands.

use vstd::prelude::*;

use crate::platform::{ClusterSize, Platform};
use crate::text::copy_optional;

verus! {

/// Options of every command that runs the installer on a cluster.
#[derive(Debug, PartialEq)]
pub struct InstallRunOpts {
    /// Use a versioned installer binary.
    pub installer_version: Option<String>,
    /// Discover available cpu and memory resources for libvirt.
    pub libvirt_auto_size: bool,
    /// Enable debug logging from the installer.
    pub log_debug: bool,
}

/// Options of `launch`.
#[derive(Debug, PartialEq)]
pub struct LaunchOpts {
    /// Name of the cluster to launch.
    pub name: String,
    /// Delete an existing cluster, if one exists.
    pub destroy: bool,
    pub platform: Option<Platform>,
    /// The name of the base configuration (overrides platform).
    pub config: Option<String>,
    /// Keep the bootstrap image.
    pub keep_bootstrap: bool,
    /// Override the release image.
    pub release_image: Option<String>,
    /// Use the latest release image from a stream.
    pub release_stream: Option<String>,
    /// Override the RHCOS bootimage image.
    pub boot_image: Option<String>,
    /// Inject objects during installation, from this directory.
    pub manifests: Option<String>,
    /// Cluster size.
    pub size: Option<ClusterSize>,
    pub install_run_opts: InstallRunOpts,
}

/// Options of `gen-config`.
#[derive(Debug, PartialEq)]
pub struct GenConfigOpts {
    /// Name for this configuration; if not specified, it is named after the platform.
    pub name: Option<String>,
    /// Overwrite an existing default configuration.
    pub overwrite: bool,
    /// Use a versioned installer binary.
    pub installer_version: Option<String>,
    /// Discover available cpu and memory resources for libvirt.
    pub libvirt_auto_size: bool,
}

impl LaunchOpts {
    /// The options for the configuration that a launch generates if there is none.
    pub open spec fn spec_gen_config(self) -> GenConfigOpts {
        GenConfigOpts {
            name: None,
            overwrite: false,
            installer_version: self.install_run_opts.installer_version,
            libvirt_auto_size: false,
        }
    }

    /// The options for the configuration that a launch generates if there is none.
    pub fn gen_config(&self) -> (res: GenConfigOpts)
        ensures
            res == self.spec_gen_config(),
    {
        GenConfigOpts {
            name: None,
            overwrite: false,
            installer_version: copy_optional(&self.install_run_opts.installer_version),
            libvirt_auto_size: false,
        }
    }
}

/// The configuration that a launch generates has no name of its own, overwrites
/// nothing, and comes from the installer of the launch.
pub proof fn launch_generates_a_default_config(o: LaunchOpts)
    ensures
        o.spec_gen_config().name is None,
        !o.spec_gen_config().overwrite,
        o.spec_gen_config().installer_version == o.install_run_opts.installer_version,
        !o.spec_gen_config().libvirt_auto_size,
{
}

} // verus!
