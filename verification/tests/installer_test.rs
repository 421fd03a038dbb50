use xokdinst::failure::Failure;
use xokdinst::installer::{
    add_launch_env, cmd_installer, cmd_launch_installer, installer_command, installer_for,
    launch_installer_for, run_installer, Arg, InstallerCommand, InstallerOutcome, InstallerTask,
};
use xokdinst::host::{master_cpu, master_mem, HostAnswers, HostWarning};
use xokdinst::options::{InstallRunOpts, LaunchOpts};
use xokdinst::place::{Base, Place};
use xokdinst::platform::{ClusterSize, Platform};

fn s(text: &str) -> String {
    text.to_string()
}

fn opts() -> LaunchOpts {
    LaunchOpts {
        name: s("mycluster"),
        destroy: false,
        platform: None,
        config: None,
        keep_bootstrap: false,
        release_image: None,
        release_stream: None,
        boot_image: None,
        manifests: None,
        size: None,
        install_run_opts: InstallRunOpts {
            installer_version: None,
            libvirt_auto_size: false,
            log_debug: false,
        },
    }
}

fn env(cmd: &InstallerCommand) -> Vec<(&str, &str)> {
    cmd.env.iter().map(|e| (e.0.as_str(), e.1.as_str())).collect()
}

fn text(arg: &Arg) -> String {
    match arg {
        Arg::Text(text) => text.clone(),
        Arg::Dir(dir) => {
            assert_eq!(dir.base(), Base::Config);
            dir.parts().join("/")
        }
    }
}

fn args(task: InstallerTask, debug: bool) -> Vec<String> {
    task.args(Place::Cluster(s("mycluster")), debug).iter().map(text).collect()
}

#[test]
fn plain_installer() {
    let cmd = cmd_installer(None, false, None);
    assert_eq!(cmd.program, "openshift-install");
    assert_eq!(
        env(&cmd),
        vec![
            ("OPENSHIFT_INSTALL_INVOKER", "xokdinst"),
            ("TF_VAR_libvirt_master_memory", "4096"),
            ("TF_VAR_libvirt_master_vcpu", "2"),
        ]
    );
    assert!(cmd.args.is_empty());
    assert!(cmd.warnings.is_empty());
}

#[test]
fn versioned_installer() {
    let cmd = cmd_installer(Some("4.4"), false, Some(&ClusterSize::Compact));
    assert_eq!(cmd.program, "openshift-install-4.4");
}

#[test]
fn installer_is_given_the_shares() {
    let cmd = installer_command(
        None,
        (26624, None),
        (10, Some(HostWarning::Cpus(s("gone")))),
        None,
    );
    assert_eq!(env(&cmd)[1], ("TF_VAR_libvirt_master_memory", "26624"));
    assert_eq!(env(&cmd)[2], ("TF_VAR_libvirt_master_vcpu", "10"));
    assert_eq!(cmd.warnings, vec![HostWarning::Cpus(s("gone"))]);
    let cmd = installer_command(
        None,
        (u64::MAX, Some(HostWarning::Memory(s("a")))),
        (u32::MAX, Some(HostWarning::Cpus(s("b")))),
        Some(HostAnswers { memory: Err(s("a")), cpus: Err(s("b")) }),
    );
    assert_eq!(cmd.host, Some(HostAnswers { memory: Err(s("a")), cpus: Err(s("b")) }));
    assert_eq!(env(&cmd)[1].1, "18446744073709551615");
    assert_eq!(env(&cmd)[2].1, "4294967295");
    assert_eq!(cmd.warnings, vec![HostWarning::Memory(s("a")), HostWarning::Cpus(s("b"))]);
}

#[test]
fn discovered_shares_have_a_minimum() {
    let cmd = cmd_installer(None, true, Some(&ClusterSize::Compact));
    assert!(env(&cmd)[1].1.parse::<u64>().unwrap() >= 4096);
    assert!(env(&cmd)[2].1.parse::<u32>().unwrap() >= 2);
}

/// What the environment says of memory and processors.
fn shares(cmd: &InstallerCommand) -> (&str, &str) {
    assert_eq!(cmd.env[1].0, "TF_VAR_libvirt_master_memory");
    assert_eq!(cmd.env[2].0, "TF_VAR_libvirt_master_vcpu");
    (cmd.env[1].1.as_str(), cmd.env[2].1.as_str())
}

#[test]
fn shares_go_by_the_size() {
    let on_host = |size: Option<&ClusterSize>| {
        installer_for(Some("4.4"), true, size, Ok(32 * 1024 * 1024), Ok(16))
    };
    assert_eq!(shares(&on_host(None)), ("26624", "14"));
    assert_eq!(shares(&on_host(Some(&ClusterSize::Single))), ("26624", "14"));
    assert_eq!(shares(&on_host(Some(&ClusterSize::Compact))), ("18432", "10"));
    let cmd = on_host(Some(&ClusterSize::Compact));
    assert_eq!(cmd.program, "openshift-install-4.4");
    assert_eq!(cmd.host, Some(HostAnswers { memory: Ok(32 * 1024 * 1024), cpus: Ok(16) }));
}

#[test]
fn size_does_not_count_unless_discovered() {
    let single = installer_for(None, false, Some(&ClusterSize::Single), Ok(1), Err(s("gone")));
    let compact = installer_for(None, false, Some(&ClusterSize::Compact), Ok(2), Ok(64));
    assert_eq!(shares(&single), ("4096", "2"));
    assert_eq!(env(&single), env(&compact));
    assert!(single.warnings.is_empty());
    assert_eq!(single.host, None);
}

#[test]
fn host_that_cannot_be_asked_is_told() {
    let cmd = installer_for(None, true, None, Err(s("a")), Err(s("b")));
    assert_eq!(shares(&cmd), ("4096", "2"));
    assert_eq!(cmd.warnings, vec![HostWarning::Memory(s("a")), HostWarning::Cpus(s("b"))]);
}

#[test]
fn running_host_is_in_the_command() {
    let cmd = cmd_installer(None, true, Some(&ClusterSize::Compact));
    let HostAnswers { memory, cpus } = cmd.host.unwrap();
    assert_eq!(cmd.env[1].1, master_mem(true, 3, memory).0.to_string());
    assert_eq!(cmd.env[2].1, master_cpu(true, 3, cpus).0.to_string());
}

#[test]
fn launch_shares_go_by_the_size() {
    let mut o = opts();
    o.install_run_opts.libvirt_auto_size = true;
    o.size = Some(ClusterSize::Compact);
    o.keep_bootstrap = true;
    let cmd = launch_installer_for(&o, Ok(32 * 1024 * 1024), Ok(16));
    assert_eq!(shares(&cmd), ("18432", "10"));
    assert_eq!(env(&cmd)[3..].to_vec(), vec![("OPENSHIFT_INSTALL_PRESERVE_BOOTSTRAP", "true")]);
    o.size = Some(ClusterSize::Single);
    let cmd = launch_installer_for(&o, Ok(32 * 1024 * 1024), Ok(16));
    assert_eq!(shares(&cmd), ("26624", "14"));
}

#[test]
fn other_options_do_not_reach_the_command() {
    let mut o = opts();
    o.install_run_opts.libvirt_auto_size = true;
    let plain = launch_installer_for(&o, Ok(32 * 1024 * 1024), Ok(16));
    o.name = s("other");
    o.destroy = true;
    o.platform = Some(Platform::AWS);
    o.config = Some(s("aws"));
    o.release_stream = Some(s("4.5.0-0.nightly"));
    o.manifests = Some(s("m"));
    o.install_run_opts.log_debug = true;
    let cmd = launch_installer_for(&o, Ok(32 * 1024 * 1024), Ok(16));
    assert_eq!(cmd.program, plain.program);
    assert_eq!(cmd.env, plain.env);
    assert_eq!(cmd.args, plain.args);
}

#[test]
fn launch_without_overrides() {
    let cmd = cmd_launch_installer(&opts());
    assert_eq!(cmd.env.len(), 3);
    assert_eq!(cmd.program, "openshift-install");
}

#[test]
fn launch_with_overrides() {
    let mut o = opts();
    o.release_image = Some(s("registry/ocp:1"));
    o.boot_image = Some(s("file:///rhcos"));
    o.keep_bootstrap = true;
    o.install_run_opts.installer_version = Some(s("4.5"));
    let cmd = cmd_launch_installer(&o);
    assert_eq!(cmd.program, "openshift-install-4.5");
    assert_eq!(
        env(&cmd)[3..].to_vec(),
        vec![
            ("OPENSHIFT_INSTALL_RELEASE_IMAGE_OVERRIDE", "registry/ocp:1"),
            ("OPENSHIFT_INSTALL_OS_IMAGE_OVERRIDE", "file:///rhcos"),
            ("OPENSHIFT_INSTALL_PRESERVE_BOOTSTRAP", "true"),
        ]
    );
    let mut o = opts();
    o.keep_bootstrap = true;
    let cmd = add_launch_env(cmd_installer(None, false, None), &o);
    assert_eq!(env(&cmd)[3..].to_vec(), vec![("OPENSHIFT_INSTALL_PRESERVE_BOOTSTRAP", "true")]);
}

#[test]
fn arguments_of_the_tasks() {
    assert_eq!(args(InstallerTask::Version, true), vec!["version"]);
    assert_eq!(
        args(InstallerTask::CreateInstallConfig, false),
        vec!["create", "install-config", "--dir", "mycluster"]
    );
    assert_eq!(
        args(InstallerTask::CreateManifests, true),
        vec!["create", "manifests", "--dir", "mycluster"]
    );
    assert_eq!(
        args(InstallerTask::CreateCluster, false),
        vec!["create", "cluster", "--dir", "mycluster"]
    );
    assert_eq!(
        args(InstallerTask::DestroyCluster, false),
        vec!["destroy", "cluster", "--dir", "mycluster"]
    );
}

#[test]
fn debug_logging_keeps_the_directory_behind_its_option() {
    assert_eq!(
        args(InstallerTask::CreateCluster, true),
        vec!["create", "cluster", "--dir", "mycluster", "--log-level=debug"]
    );
    assert_eq!(
        args(InstallerTask::DestroyCluster, true),
        vec!["destroy", "cluster", "--dir", "mycluster", "--log-level=debug"]
    );
}

#[test]
fn task_is_added_to_the_command() {
    let mut cmd = cmd_installer(None, false, None);
    cmd.add_task(InstallerTask::CreateManifests, Place::Cluster(s("mycluster")), false);
    let got: Vec<String> = cmd.args.iter().map(text).collect();
    assert_eq!(got, vec!["create", "manifests", "--dir", "mycluster"]);
    assert_eq!(cmd.program, "openshift-install");
    assert_eq!(cmd.env.len(), 3);
}

#[test]
fn announcements_of_the_tasks() {
    assert_eq!(InstallerTask::Version.announcement(), None);
    assert_eq!(
        InstallerTask::CreateInstallConfig.announcement(),
        Some("Executing `openshift-install create install-config`\n")
    );
    assert_eq!(
        InstallerTask::CreateManifests.announcement(),
        Some("Running create manifests\n")
    );
    assert_eq!(
        InstallerTask::CreateCluster.announcement(),
        Some("Executing `openshift-install create cluster`\n")
    );
    assert_eq!(
        InstallerTask::DestroyCluster.announcement(),
        Some("Executing `openshift-install destroy cluster`\n")
    );
}

#[test]
fn outcomes_are_judged() {
    assert_eq!(run_installer(InstallerOutcome::Succeeded), Ok(()));
    assert_eq!(run_installer(InstallerOutcome::Failed), Err(Failure::InstallerFailed));
    assert_eq!(
        run_installer(InstallerOutcome::NotRun(s("No such file"))),
        Err(Failure::InstallerNotRun(s("No such file")))
    );
}
