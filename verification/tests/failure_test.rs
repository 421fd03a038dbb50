use xokdinst::failure::{Failure, Notice};
use xokdinst::names::{ConfigChoice, ConfigFile};
use xokdinst::platform::Platform;

fn s(text: &str) -> String {
    text.to_string()
}

#[test]
fn failures_are_told() {
    let told = vec![
        (
            Failure::ClusterExists(s("c")),
            "Cluster c already exists, use destroy to remove it",
        ),
        (Failure::NoSuchCluster(s("c")), "No such cluster: c"),
        (Failure::ManyConfigs, "Have multiple configs, and no config specified"),
        (
            Failure::NoSuchConfig(ConfigChoice::Default(Platform::AWS)),
            "No such configuration: config-aws.yaml",
        ),
        (
            Failure::ConfigExists(ConfigFile::Plain(s("big"))),
            "Configuration 'big' already exists and overwrite not specified",
        ),
        (
            Failure::ConfigExists(ConfigFile::Named(Some(s("big")), Platform::GCP)),
            "Configuration 'config-big.yaml' already exists and overwrite not specified",
        ),
        (Failure::NoMetadata, "Didn't find expected metadata key"),
        (Failure::NoHome, "No HOME found"),
        (
            Failure::NoPullSecret,
            "No pull secret in install config, and no .docker/config.json found",
        ),
        (
            Failure::NoManifests(s("/tmp/m")),
            "No regular files found in additional manifests directory: /tmp/m",
        ),
        (Failure::InstallerFailed, "openshift-install failed"),
        (Failure::InstallerNotRun(s("No such file")), "No such file"),
        (Failure::Outside(s("disk full")), "disk full"),
        (Failure::Unexpected, "Answer out of turn"),
    ];
    for (failure, text) in told {
        assert_eq!(failure.text(), text);
        assert_eq!(failure.copy(), failure);
    }
}

#[test]
fn notices_are_told() {
    let told = vec![
        (Notice::NoConfigs, false, "No configurations found; generating one now\n"),
        (Notice::UsingRelease(s("img")), false, "Using release image: img\n"),
        (
            Notice::CopiedManifests(vec![s("a.yaml"), s("b.yaml")]),
            false,
            "Copied custom manifests:\n  a.yaml\n  b.yaml\n",
        ),
        (Notice::StampNotWritten(s("full")), true, "Writing xokdinst-failed: full\n"),
        (
            Notice::NoLaunchedConfig(s("c")),
            true,
            "Warning: clusterdir c missing launch opts file xokdinst-launched-config.yaml\n",
        ),
        (
            Notice::DestroyFailed,
            true,
            "Warning: destroy cluster failed, continuing anyways\n",
        ),
        (
            Notice::NeverInstalled(s("c")),
            false,
            "Cluster c failed install, just removing directory\n",
        ),
        (
            Notice::NoTrace(s("c")),
            true,
            "Cluster c is missing metadata.json but also does not have a failure stamp xokdinst-failed; continuing anyways\n",
        ),
    ];
    for (notice, warning, text) in told {
        assert_eq!(notice.text(), text);
        assert_eq!(notice.is_warning(), warning);
    }
}
