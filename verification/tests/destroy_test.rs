use std::collections::HashMap;

use xokdinst::destroy::{destroy, get_clusterdir, Destroy};
use xokdinst::dialogue::{Action, Answer};
use xokdinst::failure::{Failure, Notice};
use xokdinst::install_config::{
    InstallConfig, InstallConfigMachines, InstallConfigPlatform, LaunchedConfig,
};
use xokdinst::installer::{Arg, InstallerOutcome, InstallerTask};
use xokdinst::names::{get_clusters, DirEntry};
use xokdinst::place::{ClusterFile, Place};

fn s(text: &str) -> String {
    text.to_string()
}

fn launched() -> LaunchedConfig {
    LaunchedConfig {
        config: InstallConfig {
            api_version: s("v1"),
            base_domain: s("example.com"),
            compute: Vec::new(),
            control_plane: InstallConfigMachines { name: s("master"), replicas: 3, extra: None },
            metadata: None,
            platform: InstallConfigPlatform::AWS(HashMap::new()),
            pull_secret: None,
            ssh_key: None,
            extra: HashMap::new(),
        },
        installer_version: Some(s("4.4")),
        release_image: None,
        boot_image: None,
        libvirt_auto_size: false,
    }
}

fn file(file: ClusterFile) -> Place {
    Place::InCluster(s("c"), file)
}

/// Goes on until the files of the cluster were looked for.
fn looked(force: bool, debug: bool, metadata: bool, failed: bool) -> (Destroy, Action) {
    let (d, act) = destroy(&s("c"), force, debug);
    assert_eq!(act, Action::EnsureDir(Place::ConfigDir));
    let (d, act) = d.answer(Answer::Done);
    assert_eq!(act, Action::Exists(Place::Cluster(s("c"))));
    let (d, act) = d.answer(Answer::Exists(true));
    assert_eq!(act, Action::ReadLaunchedConfig(file(ClusterFile::LaunchedConfig)));
    let (d, act) = d.answer(Answer::Launched(Some(launched())));
    assert_eq!(act, Action::PrepareInstaller(InstallerTask::DestroyCluster));
    let (d, act) = d.answer(Answer::Done);
    assert_eq!(act, Action::Exists(file(ClusterFile::Metadata)));
    let (d, act) = d.answer(Answer::Exists(metadata));
    assert_eq!(act, Action::Exists(file(ClusterFile::FailedStamp)));
    d.answer(Answer::Exists(failed))
}

fn removed(d: Destroy, act: Action) {
    assert_eq!(act, Action::RemoveDir(Place::Cluster(s("c"))));
    let (d, act) = d.answer(Answer::Done);
    assert_eq!(act, Action::Finish);
    let (_, act) = d.answer(Answer::Done);
    assert_eq!(act, Action::Fail(Failure::Unexpected));
}

#[test]
fn missing_cluster_is_not_destroyed() {
    let (d, _) = destroy(&s("c"), true, false);
    let (d, _) = d.answer(Answer::Done);
    let (_, act) = d.answer(Answer::Exists(false));
    assert_eq!(act, Action::Fail(Failure::NoSuchCluster(s("c"))));
}

#[test]
fn installer_destroys_the_cluster() {
    let (d, act) = looked(false, false, true, false);
    assert_eq!(act, Action::RunInstaller(InstallerTask::DestroyCluster));
    let (d, act) = d.answer(Answer::Ran(InstallerOutcome::Succeeded));
    removed(d, act);
}

#[test]
fn failed_destruction_keeps_the_directory() {
    let (d, _) = looked(false, false, true, true);
    let (d, act) = d.answer(Answer::Ran(InstallerOutcome::Failed));
    assert_eq!(act, Action::Fail(Failure::InstallerFailed));
    let (_, act) = d.answer(Answer::Done);
    assert_eq!(act, Action::Fail(Failure::Unexpected));
}

#[test]
fn forced_destruction_removes_the_directory() {
    let (d, _) = looked(true, false, true, false);
    let (d, act) = d.answer(Answer::Ran(InstallerOutcome::Failed));
    assert_eq!(act, Action::Print(Notice::DestroyFailed));
    let (d, act) = d.answer(Answer::Done);
    removed(d, act);
}

#[test]
fn installer_that_does_not_run_stops_the_destruction() {
    let (d, _) = looked(false, false, true, false);
    let (_, act) = d.answer(Answer::Ran(InstallerOutcome::NotRun(s("No such file"))));
    assert_eq!(act, Action::Fail(Failure::InstallerNotRun(s("No such file"))));
}

#[test]
fn forced_destruction_does_without_the_installer() {
    let (d, _) = looked(true, false, true, false);
    let (d, act) = d.answer(Answer::Ran(InstallerOutcome::NotRun(s("No such file"))));
    assert_eq!(act, Action::Print(Notice::DestroyFailed));
    let (d, act) = d.answer(Answer::Done);
    removed(d, act);
}

#[test]
fn destroyed_cluster_is_not_found_again() {
    let (d, _) = looked(false, false, true, false);
    let (d, act) = d.answer(Answer::Ran(InstallerOutcome::Succeeded));
    removed(d, act);
    let entries = vec![DirEntry { name: Some(s("other")), is_dir: true }];
    assert_eq!(get_clusters(&entries), vec![s("other")]);
    for force in [false, true] {
        let (d, _) = destroy(&s("c"), force, true);
        let (d, act) = d.answer(Answer::Done);
        assert_eq!(act, Action::Exists(Place::Cluster(s("c"))));
        let (_, act) = d.answer(Answer::Exists(false));
        assert_eq!(act, Action::Fail(Failure::NoSuchCluster(s("c"))));
    }
}

#[test]
fn cluster_that_failed_is_just_removed() {
    let (d, act) = looked(false, false, false, true);
    assert_eq!(act, Action::Print(Notice::NeverInstalled(s("c"))));
    let (d, act) = d.answer(Answer::Done);
    removed(d, act);
}

#[test]
fn cluster_without_trace_is_just_removed() {
    let (d, act) = looked(false, false, false, false);
    assert_eq!(act, Action::Print(Notice::NoTrace(s("c"))));
    let (d, act) = d.answer(Answer::Done);
    removed(d, act);
}

#[test]
fn missing_launch_state_is_told() {
    let (d, _) = destroy(&s("c"), false, false);
    let (d, _) = d.answer(Answer::Done);
    let (d, _) = d.answer(Answer::Exists(true));
    let (d, act) = d.answer(Answer::Launched(None));
    assert_eq!(act, Action::Print(Notice::NoLaunchedConfig(s("c"))));
    let (d, act) = d.answer(Answer::Done);
    assert_eq!(act, Action::PrepareInstaller(InstallerTask::DestroyCluster));
    let cmd = d.command(InstallerTask::DestroyCluster);
    assert_eq!(cmd.program, "openshift-install");
    let (_, act) = d.answer(Answer::Done);
    assert_eq!(act, Action::Exists(file(ClusterFile::Metadata)));
}

#[test]
fn outside_failure_stops_the_destruction() {
    let (d, _) = destroy(&s("c"), true, false);
    let (_, act) = d.answer(Answer::Failed(s("read-only")));
    assert_eq!(act, Action::Fail(Failure::Outside(s("read-only"))));
}

#[test]
fn answer_out_of_turn_stops_the_destruction() {
    let (d, _) = destroy(&s("c"), true, false);
    let (_, act) = d.answer(Answer::Exists(true));
    assert_eq!(act, Action::Fail(Failure::Unexpected));
}

#[test]
fn destruction_uses_the_installer_of_the_launch() {
    let (d, _) = looked(false, true, true, false);
    let cmd = d.command(InstallerTask::DestroyCluster);
    assert_eq!(cmd.program, "openshift-install-4.4");
    assert_eq!(
        cmd.args,
        vec![
            Arg::Text(s("destroy")),
            Arg::Text(s("cluster")),
            Arg::Text(s("--dir")),
            Arg::Dir(Place::Cluster(s("c"))),
            Arg::Text(s("--log-level=debug")),
        ]
    );
}

#[test]
fn destruction_takes_the_share_of_a_single_node() {
    let mut l = launched();
    l.libvirt_auto_size = true;
    let (d, _) = destroy(&s("c"), false, false);
    let (d, _) = d.answer(Answer::Done);
    let (d, _) = d.answer(Answer::Exists(true));
    let (d, _) = d.answer(Answer::Launched(Some(l)));
    let cmd = d.command_for(InstallerTask::DestroyCluster, Ok(32 * 1024 * 1024), Ok(16));
    assert_eq!(cmd.env[1], (s("TF_VAR_libvirt_master_memory"), s("26624")));
    assert_eq!(cmd.env[2], (s("TF_VAR_libvirt_master_vcpu"), s("14")));
    assert_eq!(cmd.args[3], Arg::Dir(Place::Cluster(s("c"))));
    assert_eq!(cmd.args.len(), 4);
}

#[test]
fn destruction_works_in_the_clusters_own_directory() {
    let (prod, _) = destroy(&s("prod"), false, false);
    let (scratch, _) = destroy(&s("scratch"), false, false);
    let task = InstallerTask::DestroyCluster;
    assert_eq!(prod.command(task).args[3], Arg::Dir(Place::Cluster(s("prod"))));
    assert_eq!(scratch.command(task).args[3], Arg::Dir(Place::Cluster(s("scratch"))));
}

#[test]
fn directory_of_a_cluster() {
    assert_eq!(get_clusterdir(&s("c"), true), Ok(Place::Cluster(s("c"))));
    assert_eq!(get_clusterdir(&s("c"), false), Err(Failure::NoSuchCluster(s("c"))));
}
