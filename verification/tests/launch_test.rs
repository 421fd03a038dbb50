use std::collections::HashMap;

use xokdinst::dialogue::{Action, Answer, ManifestEntry};
use xokdinst::failure::{Failure, Notice};
use xokdinst::install_config::{
    customize, inject_pull_secret, into_template, InstallConfig, InstallConfigMachines,
    InstallConfigMetadata, InstallConfigPlatform,
};
use xokdinst::installer::{Arg, InstallerOutcome, InstallerTask};
use xokdinst::launch::{
    launch, launched_config, plan_launch, Launch, LaunchState, Stage, Step, Work,
};
use xokdinst::names::{ConfigChoice, ConfigFile};
use xokdinst::options::{GenConfigOpts, InstallRunOpts, LaunchOpts};
use xokdinst::place::{ClusterFile, Manifest, Place, Role};
use xokdinst::platform::{ClusterSize, Platform};
use xokdinst::release::LatestRelease;

fn s(text: &str) -> String {
    text.to_string()
}

fn opts() -> LaunchOpts {
    LaunchOpts {
        name: s("c"),
        destroy: false,
        platform: None,
        config: None,
        keep_bootstrap: false,
        release_image: None,
        release_stream: None,
        boot_image: None,
        manifests: None,
        size: None,
        install_run_opts: InstallRunOpts {
            installer_version: Some(s("4.5")),
            libvirt_auto_size: false,
            log_debug: false,
        },
    }
}

fn config(platform: InstallConfigPlatform, secret: Option<&str>) -> InstallConfig {
    let mut extra = HashMap::new();
    extra.insert(s("fips"), serde_yaml::Value::Bool(true));
    InstallConfig {
        api_version: s("v1"),
        base_domain: s("example.com"),
        compute: vec![InstallConfigMachines { name: s("worker"), replicas: 2, extra: None }],
        control_plane: InstallConfigMachines { name: s("master"), replicas: 5, extra: None },
        metadata: None,
        platform,
        pull_secret: secret.map(s),
        ssh_key: Some(s("ssh-rsa")),
        extra,
    }
}

fn aws(secret: Option<&str>) -> InstallConfig {
    config(InstallConfigPlatform::AWS(HashMap::new()), secret)
}

fn libvirt() -> InstallConfig {
    config(InstallConfigPlatform::Libvirt(HashMap::new()), Some("own"))
}

fn names(all: &[&str]) -> Answer {
    Answer::Names(all.iter().map(|n| Some(s(n))).collect())
}

fn file(file: ClusterFile) -> Place {
    Place::InCluster(s("c"), file)
}

fn chosen(choice: ConfigChoice) -> Action {
    Action::Exists(Place::Config(ConfigFile::Chosen(choice)))
}

/// Goes on until the configurations are to be listed.
fn listing(o: LaunchOpts) -> Launch {
    let (l, act) = launch(o);
    assert_eq!(act, Action::EnsureDir(Place::ConfigDir));
    let (l, act) = l.answer(Answer::Done);
    assert_eq!(act, Action::Exists(Place::Cluster(s("c"))));
    let (l, act) = l.answer(Answer::Exists(false));
    assert_eq!(act, Action::ListConfigs);
    l
}

/// Goes on until the base configuration is to be read, which is the only one.
fn reading(o: LaunchOpts) -> Launch {
    let l = listing(o);
    let (l, act) = l.answer(names(&["c0", "config-aws.yaml"]));
    let only = ConfigChoice::Only(s("config-aws.yaml"));
    assert_eq!(act, chosen(only.copy()));
    let (l, act) = l.answer(Answer::Exists(true));
    assert_eq!(act, Action::ReadConfig(Place::Config(ConfigFile::Chosen(only))));
    l
}

/// Goes on from the first step until the manifests are made.
fn manifests_made(l: Launch, act: Action) -> (Launch, Action) {
    assert_eq!(act, Action::MakeDir(Place::Cluster(s("c"))));
    let (l, act) = l.answer(Answer::Done);
    assert_eq!(act, Action::WriteLaunchedConfig(file(ClusterFile::LaunchedConfig)));
    let (l, act) = l.answer(Answer::Done);
    assert_eq!(act, Action::WriteInstallConfig(file(ClusterFile::InstallConfig)));
    let (l, act) = l.answer(Answer::Done);
    assert_eq!(act, Action::RunInstaller(InstallerTask::Version));
    let (l, act) = l.answer(Answer::Ran(InstallerOutcome::Succeeded));
    assert_eq!(act, Action::RunInstaller(InstallerTask::CreateManifests));
    let (l, act) = l.answer(Answer::Ran(InstallerOutcome::Succeeded));
    assert_eq!(act, Action::Exists(file(ClusterFile::OpenshiftDir)));
    l.answer(Answer::Exists(true))
}

fn created(l: Launch, act: Action) {
    assert_eq!(act, Action::RunInstaller(InstallerTask::CreateCluster));
    let (l, act) = l.answer(Answer::Ran(InstallerOutcome::Succeeded));
    assert_eq!(act, Action::Finish);
    let (_, act) = l.answer(Answer::Done);
    assert_eq!(act, Action::Fail(Failure::Unexpected));
}

fn entry(name: Option<&str>, is_file: bool) -> Answer {
    Answer::Entry(Some(ManifestEntry { name: name.map(s), is_file }))
}

#[test]
fn launch_from_the_only_config() {
    let l = reading(opts());
    let (l, act) = l.answer(Answer::Config(aws(Some("own"))));
    let launched = l.launched().unwrap();
    assert_eq!(launched.config.metadata.as_ref().unwrap().name, "c");
    assert_eq!(launched.config.pull_secret, Some(s("own")));
    assert_eq!(launched.installer_version, Some(s("4.5")));
    let (l, act) = manifests_made(l, act);
    created(l, act);
}

#[test]
fn existing_cluster_is_refused() {
    let (l, _) = launch(opts());
    let (l, _) = l.answer(Answer::Done);
    let (_, act) = l.answer(Answer::Exists(true));
    assert_eq!(act, Action::Fail(Failure::ClusterExists(s("c"))));
}

#[test]
fn existing_cluster_is_destroyed_if_asked() {
    let mut o = opts();
    o.destroy = true;
    o.install_run_opts.log_debug = true;
    let (l, _) = launch(o);
    let (l, _) = l.answer(Answer::Done);
    let (l, act) = l.answer(Answer::Exists(true));
    assert_eq!(act, Action::Destroy(s("c"), true, true));
    let (_, act) = l.answer(Answer::Done);
    assert_eq!(act, Action::ListConfigs);
}

#[test]
fn first_launch_generates_a_config() {
    let l = listing(opts());
    let (l, act) = l.answer(names(&["other"]));
    assert_eq!(act, Action::Print(Notice::NoConfigs));
    let (l, act) = l.answer(Answer::Done);
    assert_eq!(
        act,
        Action::GenerateConfig(GenConfigOpts {
            name: None,
            overwrite: false,
            installer_version: Some(s("4.5")),
            libvirt_auto_size: false,
        })
    );
    let (_, act) = l.answer(Answer::Generated(s("config-gcp.yaml")));
    let generated = ConfigChoice::Generated(s("config-gcp.yaml"));
    assert_eq!(act, chosen(generated.copy()));
    assert_eq!(ConfigFile::Chosen(generated).text(), "config-gcp.yaml");
}

#[test]
fn several_configs_need_a_choice() {
    let l = listing(opts());
    let (_, act) = l.answer(names(&["config-aws.yaml", "config-libvirt.yaml"]));
    assert_eq!(act, Action::Fail(Failure::ManyConfigs));
}

#[test]
fn platform_chooses_its_config() {
    let mut o = opts();
    o.platform = Some(Platform::Libvirt);
    let l = listing(o);
    let (_, act) = l.answer(names(&["config-aws.yaml", "config-libvirt.yaml"]));
    assert_eq!(act, chosen(ConfigChoice::Default(Platform::Libvirt)));
}

#[test]
fn named_config_overrides_the_platform() {
    let mut o = opts();
    o.platform = Some(Platform::Libvirt);
    o.config = Some(s("big"));
    let l = listing(o);
    let (l, act) = l.answer(names(&["config-libvirt.yaml"]));
    let big = ConfigChoice::Given(s("big"));
    assert_eq!(act, chosen(big.copy()));
    let (l, act) = l.answer(Answer::Exists(false));
    assert_eq!(act, Action::Exists(Place::Config(ConfigFile::Full(big.copy()))));
    let (_, act) = l.answer(Answer::Exists(true));
    assert_eq!(act, Action::ReadConfig(Place::Config(ConfigFile::Full(big))));
}

#[test]
fn missing_config_is_refused() {
    let mut o = opts();
    o.config = Some(s("big"));
    let l = listing(o);
    let (l, _) = l.answer(names(&[]));
    let (l, _) = l.answer(Answer::Exists(false));
    let (_, act) = l.answer(Answer::Exists(false));
    assert_eq!(act, Action::Fail(Failure::NoSuchConfig(ConfigChoice::Given(s("big")))));
}

#[test]
fn release_stream_sets_the_image() {
    let mut o = opts();
    o.release_stream = Some(s("4.5.0-0.nightly"));
    o.release_image = Some(s("old"));
    let l = listing(o);
    let (l, _) = l.answer(names(&["config-aws.yaml"]));
    let (l, act) = l.answer(Answer::Exists(true));
    assert_eq!(act, Action::FetchRelease(s("4.5.0-0.nightly")));
    let (l, act) = l.answer(Answer::Release(LatestRelease {
        name: s("4.5.0"),
        pull_spec: s("img"),
        download_url: s("url"),
    }));
    assert_eq!(act, Action::Print(Notice::UsingRelease(s("img"))));
    let (l, act) = l.answer(Answer::Done);
    assert!(matches!(act, Action::ReadConfig(_)));
    let (l, _) = l.answer(Answer::Config(aws(Some("own"))));
    assert_eq!(l.launched().unwrap().release_image, Some(s("img")));
    let cmd = l.command(InstallerTask::Version);
    assert_eq!(cmd.env[3], (s("OPENSHIFT_INSTALL_RELEASE_IMAGE_OVERRIDE"), s("img")));
    assert_eq!(cmd.args, vec![Arg::Text(s("version"))]);
}

#[test]
fn pull_secret_comes_from_home() {
    let l = reading(opts());
    let (l, act) = l.answer(Answer::Config(aws(None)));
    assert_eq!(act, Action::FindHome);
    let (l, act) = l.answer(Answer::Home(true));
    assert_eq!(act, Action::Exists(Place::DockerConfig));
    let (l, act) = l.answer(Answer::Exists(true));
    assert_eq!(act, Action::ReadText(Place::DockerConfig));
    let (l, act) = l.answer(Answer::Text(s("{\"auths\": {}}")));
    assert_eq!(l.launched().unwrap().config.pull_secret, Some(s("{\"auths\": {}}")));
    let (l, act) = manifests_made(l, act);
    created(l, act);
}

#[test]
fn missing_home_is_refused() {
    let l = reading(opts());
    let (l, _) = l.answer(Answer::Config(aws(None)));
    let (_, act) = l.answer(Answer::Home(false));
    assert_eq!(act, Action::Fail(Failure::NoHome));
}

#[test]
fn missing_pull_secret_is_refused() {
    let l = reading(opts());
    let (l, _) = l.answer(Answer::Config(aws(None)));
    let (l, _) = l.answer(Answer::Home(true));
    let (_, act) = l.answer(Answer::Exists(false));
    assert_eq!(act, Action::Fail(Failure::NoPullSecret));
}

#[test]
fn manifests_of_the_user_are_copied() {
    let mut o = opts();
    o.manifests = Some(s("/m"));
    let l = reading(o);
    let (l, act) = l.answer(Answer::Config(aws(Some("own"))));
    let (l, act) = manifests_made(l, act);
    assert_eq!(act, Action::OpenManifests(s("/m")));
    let (l, act) = l.answer(Answer::Done);
    assert_eq!(act, Action::NextManifest);
    let (l, act) = l.answer(entry(Some("a.yaml"), true));
    assert_eq!(act, Action::CopyManifest(file(ClusterFile::Custom(s("a.yaml")))));
    let (l, act) = l.answer(Answer::Done);
    assert_eq!(act, Action::NextManifest);
    let (l, act) = l.answer(entry(Some("dir"), false));
    assert_eq!(act, Action::NextManifest);
    let (l, act) = l.answer(entry(None, true));
    assert_eq!(act, Action::NextManifest);
    let (l, act) = l.answer(entry(Some("b.yaml"), true));
    assert_eq!(act, Action::CopyManifest(file(ClusterFile::Custom(s("b.yaml")))));
    let (l, _) = l.answer(Answer::Done);
    let (l, act) = l.answer(Answer::Entry(None));
    assert_eq!(act, Action::Print(Notice::CopiedManifests(vec![s("a.yaml"), s("b.yaml")])));
    let (l, act) = l.answer(Answer::Done);
    created(l, act);
}

#[test]
fn missing_manifests_are_refused() {
    let mut o = opts();
    o.manifests = Some(s("/m"));
    let l = reading(o);
    let (l, act) = l.answer(Answer::Config(aws(Some("own"))));
    let (l, _) = manifests_made(l, act);
    let (l, _) = l.answer(Answer::Done);
    let (l, _) = l.answer(entry(Some("dir"), false));
    let (_, act) = l.answer(Answer::Entry(None));
    assert_eq!(act, Action::Fail(Failure::NoManifests(s("/m"))));
}

#[test]
fn directory_of_the_manifests_is_made_if_missing() {
    let l = reading(opts());
    let (l, _) = l.answer(Answer::Config(aws(Some("own"))));
    let (l, _) = l.answer(Answer::Done);
    let (l, _) = l.answer(Answer::Done);
    let (l, _) = l.answer(Answer::Done);
    let (l, _) = l.answer(Answer::Ran(InstallerOutcome::Succeeded));
    let (l, _) = l.answer(Answer::Ran(InstallerOutcome::Succeeded));
    let (l, act) = l.answer(Answer::Exists(false));
    assert_eq!(act, Action::MakeDir(file(ClusterFile::OpenshiftDir)));
    let (l, act) = l.answer(Answer::Done);
    created(l, act);
}

#[test]
fn single_libvirt_cluster_gets_manifests() {
    let mut o = opts();
    o.size = Some(ClusterSize::Single);
    let l = reading(o);
    let (l, act) = l.answer(Answer::Config(libvirt()));
    let (mut l, mut act) = manifests_made(l, act);
    for manifest in [
        Manifest::SingleEtcd,
        Manifest::SingleIngress,
        Manifest::Autologin(Role::Master),
        Manifest::Autologin(Role::Worker),
    ] {
        assert_eq!(act, Action::WriteManifest(file(ClusterFile::Added(manifest)), manifest));
        (l, act) = l.answer(Answer::Done);
    }
    created(l, act);
}

#[test]
fn failed_creation_leaves_a_stamp() {
    let l = reading(opts());
    let (l, act) = l.answer(Answer::Config(aws(Some("own"))));
    let (l, _) = manifests_made(l, act);
    let (l, act) = l.answer(Answer::Ran(InstallerOutcome::Failed));
    assert_eq!(
        act,
        Action::WriteStamp(file(ClusterFile::FailedStamp), Failure::InstallerFailed)
    );
    let (_, act) = l.answer(Answer::Done);
    assert_eq!(act, Action::Fail(Failure::InstallerFailed));
}

#[test]
fn failed_creation_is_reported_without_a_stamp() {
    let l = reading(opts());
    let (l, act) = l.answer(Answer::Config(aws(Some("own"))));
    let (l, _) = manifests_made(l, act);
    let (l, _) = l.answer(Answer::Ran(InstallerOutcome::NotRun(s("gone"))));
    let (l, act) = l.answer(Answer::Failed(s("disk full")));
    assert_eq!(act, Action::Print(Notice::StampNotWritten(s("disk full"))));
    let (_, act) = l.answer(Answer::Done);
    assert_eq!(act, Action::Fail(Failure::InstallerNotRun(s("gone"))));
}

#[test]
fn failed_manifests_leave_no_stamp() {
    let l = reading(opts());
    let (l, _) = l.answer(Answer::Config(aws(Some("own"))));
    let (l, _) = l.answer(Answer::Done);
    let (l, _) = l.answer(Answer::Done);
    let (l, _) = l.answer(Answer::Done);
    let (l, _) = l.answer(Answer::Ran(InstallerOutcome::Succeeded));
    let (_, act) = l.answer(Answer::Ran(InstallerOutcome::Failed));
    assert_eq!(act, Action::Fail(Failure::InstallerFailed));
}

#[test]
fn outside_failure_stops_the_launch() {
    let l = listing(opts());
    let (_, act) = l.answer(Answer::Failed(s("unreadable")));
    assert_eq!(act, Action::Fail(Failure::Outside(s("unreadable"))));
    let l = reading(opts());
    let (l, _) = l.answer(Answer::Config(aws(Some("own"))));
    let (_, act) = l.answer(Answer::Failed(s("exists")));
    assert_eq!(act, Action::Fail(Failure::Outside(s("exists"))));
}

#[test]
fn answer_out_of_turn_stops_the_launch() {
    let l = listing(opts());
    let (_, act) = l.answer(Answer::Home(true));
    assert_eq!(act, Action::Fail(Failure::Unexpected));
}

#[test]
fn step_outside_the_plan_stops_the_launch() {
    let beyond = || Launch {
        opts: opts(),
        state: LaunchState::Working(Work {
            launched: launched_config(aws(Some("own")), None, &opts()),
            steps: vec![Step::ClusterDir],
            at: 1,
            stage: Stage::Asked,
        }),
    };
    let (_, act) = beyond().answer(Answer::Done);
    assert_eq!(act, Action::Fail(Failure::Unexpected));
    let (_, act) = beyond().answer(Answer::Failed(s("full")));
    assert_eq!(act, Action::Fail(Failure::Outside(s("full"))));
}

#[test]
fn launch_takes_the_share_of_its_size() {
    let mut o = opts();
    o.install_run_opts.libvirt_auto_size = true;
    o.size = Some(ClusterSize::Compact);
    o.boot_image = Some(s("boot"));
    let (l, _) = launch(o);
    let cmd = l.command_for(InstallerTask::CreateCluster, Ok(32 * 1024 * 1024), Ok(16));
    assert_eq!(cmd.env[1], (s("TF_VAR_libvirt_master_memory"), s("18432")));
    assert_eq!(cmd.env[2], (s("TF_VAR_libvirt_master_vcpu"), s("10")));
    assert_eq!(cmd.env[3], (s("OPENSHIFT_INSTALL_OS_IMAGE_OVERRIDE"), s("boot")));
    assert_eq!(cmd.args[1], Arg::Text(s("cluster")));
    assert_eq!(cmd.args[2], Arg::Text(s("--dir")));
    assert_eq!(cmd.args[3], Arg::Dir(Place::Cluster(s("c"))));
}

#[test]
fn launch_works_in_the_clusters_own_directory() {
    for name in ["prod", "scratch"] {
        let mut o = opts();
        o.name = s(name);
        let (l, _) = launch(o);
        for task in [InstallerTask::CreateManifests, InstallerTask::CreateCluster] {
            let args = l.command(task).args;
            assert_eq!(args[2], Arg::Text(s("--dir")));
            assert_eq!(args[3], Arg::Dir(Place::Cluster(s(name))));
        }
        assert_eq!(l.command(InstallerTask::Version).args, vec![Arg::Text(s("version"))]);
    }
}

#[test]
fn debug_logging_is_for_the_creation() {
    let mut o = opts();
    o.install_run_opts.log_debug = true;
    let (l, _) = launch(o);
    assert_eq!(l.command(InstallerTask::CreateManifests).args.len(), 4);
    let args = l.command(InstallerTask::CreateCluster).args;
    assert_eq!(args.len(), 5);
    assert_eq!(args[4], Arg::Text(s("--log-level=debug")));
}

#[test]
fn plans_end_with_the_creation() {
    let mut o = opts();
    let short = plan_launch(&o, Platform::GCP);
    assert_eq!(
        short,
        vec![
            Step::ClusterDir,
            Step::LaunchedConfig,
            Step::InstallConfig,
            Step::Run(InstallerTask::Version),
            Step::Run(InstallerTask::CreateManifests),
            Step::OpenshiftDir,
            Step::Run(InstallerTask::CreateCluster),
        ]
    );
    o.size = Some(ClusterSize::Compact);
    assert_eq!(plan_launch(&o, Platform::AZURE), short);
    o.size = Some(ClusterSize::Single);
    o.manifests = Some(s("/m"));
    let long = plan_launch(&o, Platform::Libvirt);
    assert_eq!(long.len(), 12);
    assert_eq!(long[6], Step::CopyManifests);
    assert_eq!(long[7], Step::Add(Manifest::SingleEtcd));
    assert_eq!(long[11], Step::Run(InstallerTask::CreateCluster));
}

#[test]
fn cluster_inherits_all_but_the_name() {
    let got = customize(aws(Some("own")), &s("c"), &None);
    assert_eq!(got.api_version, "v1");
    assert_eq!(got.base_domain, "example.com");
    assert_eq!(got.compute.len(), 1);
    assert_eq!(got.compute[0].replicas, 2);
    assert_eq!(got.control_plane.replicas, 5);
    assert_eq!(got.pull_secret, Some(s("own")));
    assert_eq!(got.ssh_key, Some(s("ssh-rsa")));
    assert_eq!(got.extra["fips"], serde_yaml::Value::Bool(true));
    assert_eq!(got.platform.to_platform(), Platform::AWS);
    let metadata = got.metadata.unwrap();
    assert_eq!(metadata.name, "c");
    assert!(metadata.extra.is_none());
}

#[test]
fn size_sets_the_number_of_machines() {
    for (size, masters) in [(ClusterSize::Single, 1), (ClusterSize::Compact, 3)] {
        let got = customize(libvirt(), &s("c"), &Some(size));
        assert_eq!(got.control_plane.replicas, masters);
        assert_eq!(got.control_plane.name, "master");
        assert_eq!(got.compute.len(), 1);
        assert_eq!(got.compute[0].name, "worker");
        assert_eq!(got.compute[0].replicas, 0);
        assert!(got.compute[0].extra.is_none());
    }
}

#[test]
fn own_pull_secret_is_kept() {
    assert_eq!(inject_pull_secret(aws(Some("own")), s("home")).pull_secret, Some(s("own")));
    assert_eq!(inject_pull_secret(aws(None), s("home")).pull_secret, Some(s("home")));
}

#[test]
fn template_has_no_metadata() {
    assert!(into_template(aws(None)).is_none());
    let mut named = aws(None);
    named.metadata = Some(InstallConfigMetadata { name: s("old"), extra: None });
    let template = into_template(named).unwrap();
    assert!(template.metadata.is_none());
    assert_eq!(template.control_plane.replicas, 5);
}

#[test]
fn launched_state_is_that_of_the_options() {
    let mut o = opts();
    o.boot_image = Some(s("boot"));
    o.install_run_opts.libvirt_auto_size = true;
    let launched = launched_config(aws(None), Some(s("home")), &o);
    assert_eq!(launched.boot_image, Some(s("boot")));
    assert_eq!(launched.release_image, None);
    assert_eq!(launched.installer_version, Some(s("4.5")));
    assert!(launched.libvirt_auto_size);
    assert_eq!(launched.config.pull_secret, Some(s("home")));
}

#[test]
fn platforms_of_configs() {
    let all = [
        (InstallConfigPlatform::Libvirt(HashMap::new()), Platform::Libvirt),
        (InstallConfigPlatform::AWS(HashMap::new()), Platform::AWS),
        (InstallConfigPlatform::GCP(HashMap::new()), Platform::GCP),
        (InstallConfigPlatform::AZURE(HashMap::new()), Platform::AZURE),
    ];
    for (platform, expected) in all {
        assert_eq!(platform.to_platform(), expected);
    }
}
