//! The files and directories that the commands work on.

use vstd::prelude::*;

use crate::names::ConfigFile;
use crate::text::{decimal, decimal_text, join3};

verus! {

/// Where the configuration and state of a cluster is kept.
pub const LAUNCHED_CONFIG_PATH: &'static str = "xokdinst-launched-config.yaml";

/// The file that marks a cluster whose installation failed.
pub const FAILED_STAMP_PATH: &'static str = "xokdinst-failed";

/// The credentials of a cluster that is up.
pub const KUBECONFIG_PATH: &'static str = "auth/kubeconfig";

/// What the installer remembers of a cluster.
pub const METADATA_PATH: &'static str = "metadata.json";

/// Relative path in home to credentials used to authenticate to registries.
pub const DOCKERCFG_PATH: &'static str = ".docker/config.json";

/// The kind of machine that a manifest is for.
#[derive(Debug, Clone, Copy, PartialEq, Eq, Structural)]
pub enum Role {
    Master,
    Worker,
}

impl Role {
    /// The name of the role.
    pub open spec fn spec_text(self) -> Seq<char> {
        match self {
            Role::Master => "master"@,
            Role::Worker => "worker"@,
        }
    }

    /// The name of the role.
    pub fn text(&self) -> (res: &'static str)
        ensures
            res@ == self.spec_text(),
    {
        match self {
            Role::Master => "master",
            Role::Worker => "worker",
        }
    }
}

/// A manifest that is added to those of the installer.
#[derive(Debug, Clone, Copy, PartialEq, Eq, Structural)]
pub enum Manifest {
    /// Lets etcd run without peers.
    SingleEtcd,
    /// Lets one replica do for the ingress controller.
    SingleIngress,
    /// Logs in automatically on the consoles of a role's machines.
    Autologin(Role),
}

impl Manifest {
    /// The name of the manifest's file.
    pub open spec fn spec_file_name(self) -> Seq<char> {
        match self {
            Manifest::SingleEtcd => "singlemaster"@ + decimal_text(0) + ".yaml"@,
            Manifest::SingleIngress => "singlemaster"@ + decimal_text(1) + ".yaml"@,
            Manifest::Autologin(role) => "autologin-"@ + role.spec_text() + ".json"@,
        }
    }

    /// The name of the manifest's file.
    pub fn file_name(&self) -> (res: String)
        ensures
            res@ == self.spec_file_name(),
    {
        match self {
            Manifest::SingleEtcd => {
                let n = decimal(0);
                join3("singlemaster", n.as_str(), ".yaml")
            },
            Manifest::SingleIngress => {
                let n = decimal(1);
                join3("singlemaster", n.as_str(), ".yaml")
            },
            Manifest::Autologin(role) => join3("autologin-", role.text(), ".json"),
        }
    }
}

/// A file in the directory of a cluster.
#[derive(Debug, PartialEq)]
pub enum ClusterFile {
    LaunchedConfig,
    InstallConfig,
    FailedStamp,
    Kubeconfig,
    Metadata,
    /// The directory of the manifests.
    OpenshiftDir,
    /// One of the manifests that are added.
    Added(Manifest),
    /// A manifest of the user, under its own name.
    Custom(String),
}

/// A file or directory.
#[derive(Debug, PartialEq)]
pub enum Place {
    /// The configuration directory.
    ConfigDir,
    /// A configuration.
    Config(ConfigFile),
    /// The directory of the cluster of this name.
    Cluster(String),
    /// A file in the directory of the cluster of this name.
    InCluster(String, ClusterFile),
    /// The registry credentials in the home directory.
    DockerConfig,
    /// The temporary directory.
    TempDir,
    /// The configuration that the installer wrote into the temporary directory.
    TempConfig,
}

/// The directory that a place is given relative to.
#[derive(Debug, Clone, Copy, PartialEq, Eq, Structural)]
pub enum Base {
    Config,
    Home,
    Temp,
}

impl ClusterFile {
    /// The path of the file below the cluster's directory, by its steps.
    pub open spec fn spec_parts(self) -> Seq<Seq<char>> {
        match self {
            ClusterFile::LaunchedConfig => seq![LAUNCHED_CONFIG_PATH@],
            ClusterFile::InstallConfig => seq!["install-config.yaml"@],
            ClusterFile::FailedStamp => seq![FAILED_STAMP_PATH@],
            ClusterFile::Kubeconfig => seq![KUBECONFIG_PATH@],
            ClusterFile::Metadata => seq![METADATA_PATH@],
            ClusterFile::OpenshiftDir => seq!["openshift"@],
            ClusterFile::Added(manifest) => seq!["openshift"@, manifest.spec_file_name()],
            ClusterFile::Custom(name) => seq!["openshift"@, name@],
        }
    }

    /// The path of the file below the cluster's directory, by its steps.
    fn parts(&self) -> (res: Vec<String>)
        ensures
            res.deep_view() == self.spec_parts(),
    {
        let mut res: Vec<String> = Vec::new();
        match self {
            ClusterFile::LaunchedConfig => {
                res.push(String::from_str(LAUNCHED_CONFIG_PATH));
            },
            ClusterFile::InstallConfig => {
                res.push(String::from_str("install-config.yaml"));
            },
            ClusterFile::FailedStamp => {
                res.push(String::from_str(FAILED_STAMP_PATH));
            },
            ClusterFile::Kubeconfig => {
                res.push(String::from_str(KUBECONFIG_PATH));
            },
            ClusterFile::Metadata => {
                res.push(String::from_str(METADATA_PATH));
            },
            ClusterFile::OpenshiftDir => {
                res.push(String::from_str("openshift"));
            },
            ClusterFile::Added(manifest) => {
                res.push(String::from_str("openshift"));
                res.push(manifest.file_name());
            },
            ClusterFile::Custom(name) => {
                res.push(String::from_str("openshift"));
                res.push(name.clone());
            },
        }
        assert(res.deep_view() =~= self.spec_parts());
        res
    }
}

impl Place {
    /// The directory that the place is given relative to.
    pub open spec fn spec_base(self) -> Base {
        match self {
            Place::DockerConfig => Base::Home,
            Place::TempDir => Base::Temp,
            Place::TempConfig => Base::Temp,
            _ => Base::Config,
        }
    }

    /// The path of the place below its base, by its steps.
    pub open spec fn spec_parts(self) -> Seq<Seq<char>> {
        match self {
            Place::ConfigDir => seq![],
            Place::Config(file) => seq![file.spec_text()],
            Place::Cluster(name) => seq![name@],
            Place::InCluster(name, file) => seq![name@] + file.spec_parts(),
            Place::DockerConfig => seq![DOCKERCFG_PATH@],
            Place::TempDir => seq![],
            Place::TempConfig => seq!["install-config.yaml"@],
        }
    }

    /// The directory that the place is given relative to.
    pub fn base(&self) -> (res: Base)
        ensures
            res == self.spec_base(),
    {
        match self {
            Place::DockerConfig => Base::Home,
            Place::TempDir => Base::Temp,
            Place::TempConfig => Base::Temp,
            _ => Base::Config,
        }
    }

    /// The path of the place below its base, by its steps.
    pub fn parts(&self) -> (res: Vec<String>)
        ensures
            res.deep_view() == self.spec_parts(),
    {
        let mut res: Vec<String> = Vec::new();
        match self {
            Place::ConfigDir => {},
            Place::Config(file) => {
                res.push(file.text());
            },
            Place::Cluster(name) => {
                res.push(name.clone());
            },
            Place::InCluster(name, file) => {
                res.push(name.clone());
                let mut below = file.parts();
                let ghost steps = below.deep_view();
                let ghost below_view = below@;
                let ghost front = res@;
                res.append(&mut below);
                assert(res@ =~= front + below_view);
                assert(res.deep_view() =~= seq![name@] + steps);
            },
            Place::DockerConfig => {
                res.push(String::from_str(DOCKERCFG_PATH));
            },
            Place::TempDir => {},
            Place::TempConfig => {
                res.push(String::from_str("install-config.yaml"));
            },
        }
        assert(res.deep_view() =~= self.spec_parts());
        res
    }
}

/// Everything that belongs to a cluster lies in a directory of the cluster's
/// name below the configuration directory.
pub proof fn cluster_files_lie_in_the_cluster_dir(name: String, file: ClusterFile)
    ensures
        Place::InCluster(name, file).spec_base() == Place::Cluster(name).spec_base(),
        Place::Cluster(name).spec_parts() == seq![name@],
        Place::Cluster(name).spec_parts().is_prefix_of(Place::InCluster(name, file).spec_parts()),
        Place::InCluster(name, file).spec_parts().len() > 1,
{
    assert(seq![name@] =~= (seq![name@] + file.spec_parts()).subrange(0, 1));
}

/// The directory of a cluster lies right below the configuration directory and
/// has the name of the cluster.
pub proof fn cluster_dir_has_the_clusters_name(name: String)
    ensures
        Place::ConfigDir.spec_base() == Base::Config,
        Place::ConfigDir.spec_parts() == Seq::<Seq<char>>::empty(),
        Place::Cluster(name).spec_base() == Base::Config,
        Place::Cluster(name).spec_parts().len() == 1,
        Place::Cluster(name).spec_parts()[0] == name@,
{
}

/// Every manifest, added or of the user, lies right in the cluster's directory of
/// manifests, which lies right in that of the cluster.
pub proof fn manifests_lie_in_the_openshift_dir(cluster: String, custom: String)
    ensures
        ({
            let dir = Place::InCluster(cluster, ClusterFile::OpenshiftDir);
            let added = |m: Manifest| Place::InCluster(cluster, ClusterFile::Added(m));
            &&& dir.spec_base() == Base::Config
            &&& dir.spec_parts() == seq![cluster@, "openshift"@]
            &&& added(Manifest::SingleEtcd).spec_base() == Base::Config
            &&& added(Manifest::SingleEtcd).spec_parts() == dir.spec_parts().push(
                "singlemaster0.yaml"@,
            )
            &&& added(Manifest::SingleIngress).spec_base() == Base::Config
            &&& added(Manifest::SingleIngress).spec_parts() == dir.spec_parts().push(
                "singlemaster1.yaml"@,
            )
            &&& added(Manifest::Autologin(Role::Master)).spec_base() == Base::Config
            &&& added(Manifest::Autologin(Role::Master)).spec_parts() == dir.spec_parts().push(
                "autologin-master.json"@,
            )
            &&& added(Manifest::Autologin(Role::Worker)).spec_base() == Base::Config
            &&& added(Manifest::Autologin(Role::Worker)).spec_parts() == dir.spec_parts().push(
                "autologin-worker.json"@,
            )
            &&& Place::InCluster(cluster, ClusterFile::Custom(custom)).spec_base() == Base::Config
            &&& Place::InCluster(cluster, ClusterFile::Custom(custom)).spec_parts()
                == dir.spec_parts().push(custom@)
        }),
{
    reveal_strlit("singlemaster");
    reveal_strlit("singlemaster0.yaml");
    reveal_strlit("singlemaster1.yaml");
    reveal_strlit(".yaml");
    reveal_strlit("autologin-");
    reveal_strlit("autologin-master.json");
    reveal_strlit("autologin-worker.json");
    reveal_strlit("master");
    reveal_strlit("worker");
    reveal_strlit(".json");
    assert(Manifest::SingleEtcd.spec_file_name() =~= "singlemaster0.yaml"@);
    assert(Manifest::SingleIngress.spec_file_name() =~= "singlemaster1.yaml"@);
    assert(Manifest::Autologin(Role::Master).spec_file_name() =~= "autologin-master.json"@);
    assert(Manifest::Autologin(Role::Worker).spec_file_name() =~= "autologin-worker.json"@);
    let dir = Place::InCluster(cluster, ClusterFile::OpenshiftDir);
    assert(dir.spec_parts() =~= seq![cluster@, "openshift"@]);
    assert forall|m: Manifest|
        #[trigger] Place::InCluster(cluster, ClusterFile::Added(m)).spec_parts()
            == dir.spec_parts().push(m.spec_file_name()) by {
        assert(Place::InCluster(cluster, ClusterFile::Added(m)).spec_parts()
            =~= dir.spec_parts().push(m.spec_file_name()));
    }
    assert(Place::InCluster(cluster, ClusterFile::Custom(custom)).spec_parts()
        =~= dir.spec_parts().push(custom@));
}

/// The other files of a cluster lie right in its directory, under fixed names.
pub proof fn cluster_files_have_fixed_names(cluster: String)
    ensures
        ({
            let dir = Place::Cluster(cluster);
            let file = |f: ClusterFile| Place::InCluster(cluster, f);
            &&& file(ClusterFile::LaunchedConfig).spec_base() == Base::Config
            &&& file(ClusterFile::LaunchedConfig).spec_parts() == dir.spec_parts().push(
                "xokdinst-launched-config.yaml"@,
            )
            &&& file(ClusterFile::InstallConfig).spec_base() == Base::Config
            &&& file(ClusterFile::InstallConfig).spec_parts() == dir.spec_parts().push(
                "install-config.yaml"@,
            )
            &&& file(ClusterFile::FailedStamp).spec_base() == Base::Config
            &&& file(ClusterFile::FailedStamp).spec_parts() == dir.spec_parts().push(
                "xokdinst-failed"@,
            )
            &&& file(ClusterFile::Kubeconfig).spec_base() == Base::Config
            &&& file(ClusterFile::Kubeconfig).spec_parts() == dir.spec_parts().push(
                "auth/kubeconfig"@,
            )
            &&& file(ClusterFile::Metadata).spec_base() == Base::Config
            &&& file(ClusterFile::Metadata).spec_parts() == dir.spec_parts().push(
                "metadata.json"@,
            )
        }),
{
    let dir = Place::Cluster(cluster);
    assert(Place::InCluster(cluster, ClusterFile::LaunchedConfig).spec_parts()
        =~= dir.spec_parts().push("xokdinst-launched-config.yaml"@));
    assert(Place::InCluster(cluster, ClusterFile::InstallConfig).spec_parts()
        =~= dir.spec_parts().push("install-config.yaml"@));
    assert(Place::InCluster(cluster, ClusterFile::FailedStamp).spec_parts()
        =~= dir.spec_parts().push("xokdinst-failed"@));
    assert(Place::InCluster(cluster, ClusterFile::Kubeconfig).spec_parts()
        =~= dir.spec_parts().push("auth/kubeconfig"@));
    assert(Place::InCluster(cluster, ClusterFile::Metadata).spec_parts() =~= dir.spec_parts().push(
        "metadata.json"@,
    ));
}

/// A configuration lies right in the configuration directory under its file name.
/// The credentials lie in the home directory, and what the installer writes for a
/// new configuration lies right in the temporary directory.
pub proof fn other_places(file: ConfigFile)
    ensures
        Place::Config(file).spec_base() == Base::Config,
        Place::Config(file).spec_parts() == Place::ConfigDir.spec_parts().push(file.spec_text()),
        Place::DockerConfig.spec_base() == Base::Home,
        Place::DockerConfig.spec_parts() == seq![".docker/config.json"@],
        Place::TempDir.spec_base() == Base::Temp,
        Place::TempDir.spec_parts() == Seq::<Seq<char>>::empty(),
        Place::TempConfig.spec_base() == Base::Temp,
        Place::TempConfig.spec_parts() == Place::TempDir.spec_parts().push("install-config.yaml"@),
{
    assert(Place::Config(file).spec_parts() =~= Place::ConfigDir.spec_parts().push(
        file.spec_text(),
    ));
    assert(Place::TempConfig.spec_parts() =~= Place::TempDir.spec_parts().push(
        "install-config.yaml"@,
    ));
}

} // verus!
