//! The installer's configuration file, as far as it is looked into.

use std::collections::HashMap;

use vstd::prelude::*;

use crate::platform::{ClusterSize, Platform};
use crate::text::optional_text;

verus! {

/// `serde_yaml::Value`, a YAML value; the library only carries such values.
#[verifier::external_type_specification]
#[verifier::external_body]
pub struct ExYamlValue(serde_yaml::Value);

/// Holds extra keys of a map that are not looked into.
pub type SerdeYamlMap = HashMap<String, serde_yaml::Value>;

/// The platform of a configuration, with its settings.
pub enum InstallConfigPlatform {
    Libvirt(SerdeYamlMap),
    AWS(SerdeYamlMap),
    GCP(SerdeYamlMap),
    AZURE(SerdeYamlMap),
}

/// A group of machines.
pub struct InstallConfigMachines {
    pub name: String,
    pub replicas: u32,
    pub extra: Option<SerdeYamlMap>,
}

/// The metadata of a configuration: the name of the cluster.
pub struct InstallConfigMetadata {
    pub name: String,
    pub extra: Option<SerdeYamlMap>,
}

/// A configuration of the installer. Without metadata it is a template.
pub struct InstallConfig {
    pub api_version: String,
    pub base_domain: String,
    pub compute: Vec<InstallConfigMachines>,
    pub control_plane: InstallConfigMachines,
    pub metadata: Option<InstallConfigMetadata>,
    pub platform: InstallConfigPlatform,
    pub pull_secret: Option<String>,
    pub ssh_key: Option<String>,
    pub extra: SerdeYamlMap,
}

/// The state that a cluster was launched with.
pub struct LaunchedConfig {
    pub config: InstallConfig,
    pub installer_version: Option<String>,
    pub release_image: Option<String>,
    pub boot_image: Option<String>,
    pub libvirt_auto_size: bool,
}

/// What `InstallConfigMachines` says.
pub struct MachinesView {
    pub name: Seq<char>,
    pub replicas: u32,
    pub extra: Option<SerdeYamlMap>,
}

/// What `InstallConfigMetadata` says.
pub struct MetadataView {
    pub name: Seq<char>,
    pub extra: Option<SerdeYamlMap>,
}

/// What `InstallConfig` says.
pub struct ConfigView {
    pub api_version: Seq<char>,
    pub base_domain: Seq<char>,
    pub compute: Seq<MachinesView>,
    pub control_plane: MachinesView,
    pub metadata: Option<MetadataView>,
    pub platform: InstallConfigPlatform,
    pub pull_secret: Option<Seq<char>>,
    pub ssh_key: Option<Seq<char>>,
    pub extra: SerdeYamlMap,
}

/// What `LaunchedConfig` says.
pub struct LaunchedView {
    pub config: ConfigView,
    pub installer_version: Option<Seq<char>>,
    pub release_image: Option<Seq<char>>,
    pub boot_image: Option<Seq<char>>,
    pub libvirt_auto_size: bool,
}

impl View for InstallConfigMachines {
    type V = MachinesView;

    open spec fn view(&self) -> MachinesView {
        MachinesView { name: self.name@, replicas: self.replicas, extra: self.extra }
    }
}

impl View for InstallConfigMetadata {
    type V = MetadataView;

    open spec fn view(&self) -> MetadataView {
        MetadataView { name: self.name@, extra: self.extra }
    }
}

impl View for InstallConfig {
    type V = ConfigView;

    open spec fn view(&self) -> ConfigView {
        ConfigView {
            api_version: self.api_version@,
            base_domain: self.base_domain@,
            compute: self.compute@.map_values(|m: InstallConfigMachines| m@),
            control_plane: self.control_plane@,
            metadata: match self.metadata {
                Some(m) => Some(m@),
                None => None,
            },
            platform: self.platform,
            pull_secret: optional_text(self.pull_secret),
            ssh_key: optional_text(self.ssh_key),
            extra: self.extra,
        }
    }
}

impl View for LaunchedConfig {
    type V = LaunchedView;

    open spec fn view(&self) -> LaunchedView {
        LaunchedView {
            config: self.config@,
            installer_version: optional_text(self.installer_version),
            release_image: optional_text(self.release_image),
            boot_image: optional_text(self.boot_image),
            libvirt_auto_size: self.libvirt_auto_size,
        }
    }
}

impl InstallConfigPlatform {
    /// The platform without its settings.
    pub open spec fn spec_platform(self) -> Platform {
        match self {
            InstallConfigPlatform::Libvirt(_) => Platform::Libvirt,
            InstallConfigPlatform::AWS(_) => Platform::AWS,
            InstallConfigPlatform::GCP(_) => Platform::GCP,
            InstallConfigPlatform::AZURE(_) => Platform::AZURE,
        }
    }

    /// The platform without its settings.
    pub fn to_platform(&self) -> (res: Platform)
        ensures
            res == self.spec_platform(),
    {
        match self {
            InstallConfigPlatform::Libvirt(_) => Platform::Libvirt,
            InstallConfigPlatform::AWS(_) => Platform::AWS,
            InstallConfigPlatform::GCP(_) => Platform::GCP,
            InstallConfigPlatform::AZURE(_) => Platform::AZURE,
        }
    }
}

/// The configuration of the cluster `name`, made from `base`. A size sets the
/// number of control plane machines and leaves no workers.
pub open spec fn config_for_cluster(
    base: ConfigView,
    name: Seq<char>,
    size: Option<ClusterSize>,
) -> ConfigView {
    let named = ConfigView { metadata: Some(MetadataView { name, extra: None }), ..base };
    match size {
        None => named,
        Some(size) => ConfigView {
            compute: seq![MachinesView { name: "worker"@, replicas: 0, extra: None }],
            control_plane: MachinesView { replicas: size.spec_masters(), ..base.control_plane },
            ..named
        },
    }
}

/// The configuration `base` with `secret` where it has no pull secret of its own.
pub open spec fn with_pull_secret(base: ConfigView, secret: Option<Seq<char>>) -> ConfigView {
    match base.pull_secret {
        Some(_) => base,
        None => ConfigView { pull_secret: secret, ..base },
    }
}

/// Makes the configuration of the cluster `name` out of `base`.
pub fn customize(base: InstallConfig, name: &String, size: &Option<ClusterSize>) -> (res:
    InstallConfig)
    ensures
        res@ == config_for_cluster(base@, name@, *size),
{
    let mut config = base;
    config.metadata = Some(InstallConfigMetadata { name: name.clone(), extra: None });
    if let Some(size) = size {
        config.control_plane.replicas = size.masters();
        let mut compute: Vec<InstallConfigMachines> = Vec::new();
        compute.push(
            InstallConfigMachines { name: String::from_str("worker"), replicas: 0, extra: None },
        );
        assert(compute@.map_values(|m: InstallConfigMachines| m@) =~= seq![
            MachinesView { name: "worker"@, replicas: 0, extra: None },
        ]);
        config.compute = compute;
    }
    config
}

/// Puts the pull secret into `base` if that has none.
pub fn inject_pull_secret(base: InstallConfig, secret: String) -> (res: InstallConfig)
    ensures
        res@ == with_pull_secret(base@, Some(secret@)),
{
    let mut config = base;
    if config.pull_secret.is_none() {
        config.pull_secret = Some(secret);
    }
    config
}

/// Takes the metadata out of a configuration, which leaves a template. There
/// is no template of a configuration without metadata.
pub fn into_template(config: InstallConfig) -> (res: Option<InstallConfig>)
    ensures
        match res {
            None => config.metadata is None,
            Some(t) => config.metadata is Some && t == (InstallConfig { metadata: None, ..config }),
        },
{
    let mut config = config;
    match config.metadata.take() {
        None => None,
        Some(_) => Some(config),
    }
}

/// The platform of a configuration is that of its settings, whatever they are.
pub proof fn platform_is_that_of_the_settings(p: InstallConfigPlatform)
    ensures
        p.spec_platform() == Platform::Libvirt <==> p is Libvirt,
        p.spec_platform() == Platform::AWS <==> p is AWS,
        p.spec_platform() == Platform::GCP <==> p is GCP,
        p.spec_platform() == Platform::AZURE <==> p is AZURE,
{
}

/// What is said of a configuration is what is in it, field by field.
pub proof fn config_is_what_is_said_of_it(config: InstallConfig, k: int)
    ensures
        config@.api_version == config.api_version@,
        config@.base_domain == config.base_domain@,
        config@.compute.len() == config.compute@.len(),
        0 <= k < config.compute@.len() ==> {
            &&& config@.compute[k].name == config.compute@[k].name@
            &&& config@.compute[k].replicas == config.compute@[k].replicas
            &&& config@.compute[k].extra == config.compute@[k].extra
        },
        config@.control_plane.name == config.control_plane.name@,
        config@.control_plane.replicas == config.control_plane.replicas,
        config@.control_plane.extra == config.control_plane.extra,
        config@.metadata is Some == config.metadata is Some,
        config.metadata matches Some(metadata) ==> config@.metadata->0.name == metadata.name@
            && config@.metadata->0.extra == metadata.extra,
        config@.platform == config.platform,
        config@.pull_secret is Some == config.pull_secret is Some,
        config.pull_secret matches Some(secret) ==> config@.pull_secret->0 == secret@,
        config@.ssh_key is Some == config.ssh_key is Some,
        config.ssh_key matches Some(key) ==> config@.ssh_key->0 == key@,
        config@.extra == config.extra,
{
}

/// A configuration is made for a cluster by its name and its size alone: the size
/// sets the machines, and a configuration without a size keeps those of its base.
/// A pull secret is put in only where there is none.
pub proof fn config_is_made_for_the_cluster(
    base: ConfigView,
    name: Seq<char>,
    size: Option<ClusterSize>,
    secret: Option<Seq<char>>,
)
    ensures
        ({
            let made = config_for_cluster(base, name, size);
            &&& made.metadata matches Some(metadata)
            &&& metadata.name == name
            &&& metadata.extra is None
            &&& made.control_plane.name == base.control_plane.name
            &&& made.control_plane.extra == base.control_plane.extra
            &&& size is None ==> made.control_plane.replicas == base.control_plane.replicas
                && made.compute == base.compute
            &&& size == Some(ClusterSize::Single) ==> made.control_plane.replicas == 1
            &&& size == Some(ClusterSize::Compact) ==> made.control_plane.replicas == 3
            &&& size is Some ==> {
                &&& made.compute.len() == 1
                &&& made.compute[0].name == "worker"@
                &&& made.compute[0].replicas == 0
                &&& made.compute[0].extra is None
            }
            &&& made.api_version == base.api_version
            &&& made.base_domain == base.base_domain
            &&& made.platform == base.platform
            &&& made.pull_secret == base.pull_secret
            &&& made.ssh_key == base.ssh_key
            &&& made.extra == base.extra
        }),
        base.pull_secret is Some ==> with_pull_secret(base, secret) == base,
        base.pull_secret is None ==> with_pull_secret(base, secret) == (ConfigView {
            pull_secret: secret,
            ..base
        }),
{
}

} // verus!
