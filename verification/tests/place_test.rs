use xokdinst::names::{ConfigChoice, ConfigFile};
use xokdinst::place::{Base, ClusterFile, Manifest, Place, Role};
use xokdinst::platform::Platform;
use xokdinst::text::{decimal, ends_with, join3, starts_with};

fn s(text: &str) -> String {
    text.to_string()
}

fn in_cluster(file: ClusterFile) -> Vec<String> {
    let place = Place::InCluster(s("mycluster"), file);
    assert_eq!(place.base(), Base::Config);
    place.parts()
}

#[test]
fn places_below_the_config_dir() {
    assert_eq!(Place::ConfigDir.parts(), Vec::<String>::new());
    assert_eq!(Place::ConfigDir.base(), Base::Config);
    assert_eq!(Place::Cluster(s("mycluster")).parts(), vec!["mycluster"]);
    let file = ConfigFile::Named(None, Platform::Libvirt);
    assert_eq!(Place::Config(file).parts(), vec!["config-libvirt.yaml"]);
    let file = ConfigFile::Full(ConfigChoice::Only(s("x")));
    assert_eq!(Place::Config(file).parts(), vec!["config-x.yaml"]);
}

#[test]
fn places_in_a_cluster() {
    assert_eq!(
        in_cluster(ClusterFile::LaunchedConfig),
        vec!["mycluster", "xokdinst-launched-config.yaml"]
    );
    assert_eq!(in_cluster(ClusterFile::InstallConfig), vec!["mycluster", "install-config.yaml"]);
    assert_eq!(in_cluster(ClusterFile::FailedStamp), vec!["mycluster", "xokdinst-failed"]);
    assert_eq!(in_cluster(ClusterFile::Kubeconfig), vec!["mycluster", "auth/kubeconfig"]);
    assert_eq!(in_cluster(ClusterFile::Metadata), vec!["mycluster", "metadata.json"]);
    assert_eq!(in_cluster(ClusterFile::OpenshiftDir), vec!["mycluster", "openshift"]);
    assert_eq!(
        in_cluster(ClusterFile::Added(Manifest::Autologin(Role::Worker))),
        vec!["mycluster", "openshift", "autologin-worker.json"]
    );
    assert_eq!(
        in_cluster(ClusterFile::Custom(s("mine.yaml"))),
        vec!["mycluster", "openshift", "mine.yaml"]
    );
}

#[test]
fn places_elsewhere() {
    assert_eq!(Place::DockerConfig.base(), Base::Home);
    assert_eq!(Place::DockerConfig.parts(), vec![".docker/config.json"]);
    assert_eq!(Place::TempDir.base(), Base::Temp);
    assert_eq!(Place::TempDir.parts(), Vec::<String>::new());
    assert_eq!(Place::TempConfig.base(), Base::Temp);
    assert_eq!(Place::TempConfig.parts(), vec!["install-config.yaml"]);
}

#[test]
fn decimal_numerals() {
    assert_eq!(decimal(0), "0");
    assert_eq!(decimal(9), "9");
    assert_eq!(decimal(10), "10");
    assert_eq!(decimal(4096), "4096");
    assert_eq!(decimal(1234567890), "1234567890");
    assert_eq!(decimal(u64::MAX), u64::MAX.to_string());
}

#[test]
fn prefixes_and_suffixes() {
    for text in ["", "a", "ab", "aé", "éa", "config-.yaml"] {
        for part in ["", "a", "b", "é", "ab", "aé", "config-", ".yaml"] {
            assert_eq!(starts_with(text, part), text.starts_with(part));
            assert_eq!(ends_with(text, part), text.ends_with(part));
        }
    }
    assert_eq!(join3("a", "é", ""), "aé");
}
