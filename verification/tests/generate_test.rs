use std::collections::HashMap;

use xokdinst::dialogue::{Action, Answer};
use xokdinst::failure::Failure;
use xokdinst::generate::{generate_config, GenerateConfig};
use xokdinst::install_config::{
    InstallConfig, InstallConfigMachines, InstallConfigMetadata, InstallConfigPlatform,
};
use xokdinst::installer::{Arg, InstallerOutcome, InstallerTask};
use xokdinst::names::ConfigFile;
use xokdinst::options::GenConfigOpts;
use xokdinst::place::Place;
use xokdinst::platform::Platform;

fn s(text: &str) -> String {
    text.to_string()
}

fn opts(name: Option<&str>, overwrite: bool) -> GenConfigOpts {
    GenConfigOpts {
        name: name.map(s),
        overwrite,
        installer_version: Some(s("4.5")),
        libvirt_auto_size: false,
    }
}

fn config(named: bool) -> InstallConfig {
    InstallConfig {
        api_version: s("v1"),
        base_domain: s("example.com"),
        compute: Vec::new(),
        control_plane: InstallConfigMachines { name: s("master"), replicas: 3, extra: None },
        metadata: if named {
            Some(InstallConfigMetadata { name: s("c"), extra: None })
        } else {
            None
        },
        platform: InstallConfigPlatform::Libvirt(HashMap::new()),
        pull_secret: Some(s("secret")),
        ssh_key: None,
        extra: HashMap::new(),
    }
}

/// Goes on until the installer's configuration is to be read.
fn reading(g: GenerateConfig, act: Action) -> GenerateConfig {
    assert_eq!(act, Action::MakeTempDir);
    let (g, act) = g.answer(Answer::Done);
    assert_eq!(act, Action::RunInstaller(InstallerTask::CreateInstallConfig));
    let (g, act) = g.answer(Answer::Ran(InstallerOutcome::Succeeded));
    assert_eq!(act, Action::ReadConfig(Place::TempConfig));
    g
}

/// Goes on from the configuration directory to the end.
fn written(g: GenerateConfig, act: Action, file: &str) {
    assert_eq!(act, Action::EnsureDir(Place::ConfigDir));
    assert!(g.template().is_none());
    let (g, act) = g.answer(Answer::Done);
    match act {
        Action::WriteTemplate(place) => assert_eq!(place.parts(), vec![file]),
        other => panic!("{:?}", other),
    }
    let template = g.template().unwrap();
    assert!(template.metadata.is_none());
    assert_eq!(template.base_domain, "example.com");
    assert_eq!(template.pull_secret, Some(s("secret")));
    let (_, act) = g.answer(Answer::Done);
    match act {
        Action::Generated(generated) => assert_eq!(generated.text(), file),
        other => panic!("{:?}", other),
    }
}

#[test]
fn config_is_named_after_the_platform() {
    let (g, act) = generate_config(opts(None, false));
    let g = reading(g, act);
    let (g, act) = g.answer(Answer::Config(config(true)));
    let file = ConfigFile::Named(None, Platform::Libvirt);
    assert_eq!(act, Action::Exists(Place::Config(file)));
    let (g, act) = g.answer(Answer::Exists(false));
    written(g, act, "config-libvirt.yaml");
}

#[test]
fn config_is_named_as_asked() {
    let (g, act) = generate_config(opts(Some("big"), false));
    assert_eq!(act, Action::Exists(Place::Config(ConfigFile::Plain(s("big")))));
    let (g, act) = g.answer(Answer::Exists(false));
    let g = reading(g, act);
    let (g, _) = g.answer(Answer::Config(config(true)));
    let (g, act) = g.answer(Answer::Exists(false));
    written(g, act, "config-big.yaml");
}

#[test]
fn existing_name_is_refused() {
    let (g, _) = generate_config(opts(Some("big"), false));
    let (_, act) = g.answer(Answer::Exists(true));
    assert_eq!(act, Action::Fail(Failure::ConfigExists(ConfigFile::Plain(s("big")))));
}

#[test]
fn existing_file_is_refused() {
    let (g, act) = generate_config(opts(None, false));
    let g = reading(g, act);
    let (g, _) = g.answer(Answer::Config(config(true)));
    let (_, act) = g.answer(Answer::Exists(true));
    match act {
        Action::Fail(e) => assert_eq!(
            e.text(),
            "Configuration 'config-libvirt.yaml' already exists and overwrite not specified"
        ),
        other => panic!("{:?}", other),
    }
}

#[test]
fn existing_file_is_overwritten_if_asked() {
    let (g, act) = generate_config(opts(Some("big"), true));
    let g = reading(g, act);
    let (g, act) = g.answer(Answer::Config(config(true)));
    written(g, act, "config-big.yaml");
}

#[test]
fn missing_metadata_is_refused() {
    let (g, act) = generate_config(opts(None, true));
    let g = reading(g, act);
    let (_, act) = g.answer(Answer::Config(config(false)));
    assert_eq!(act, Action::Fail(Failure::NoMetadata));
}

#[test]
fn existing_file_is_refused_before_missing_metadata() {
    let (g, act) = generate_config(opts(None, false));
    let g = reading(g, act);
    let (g, _) = g.answer(Answer::Config(config(false)));
    let (_, act) = g.answer(Answer::Exists(true));
    assert_eq!(
        act,
        Action::Fail(Failure::ConfigExists(ConfigFile::Named(None, Platform::Libvirt)))
    );
}

#[test]
fn failed_installer_stops_the_generation() {
    let (g, _) = generate_config(opts(None, false));
    let (g, _) = g.answer(Answer::Done);
    let (_, act) = g.answer(Answer::Ran(InstallerOutcome::Failed));
    assert_eq!(act, Action::Fail(Failure::InstallerFailed));
}

#[test]
fn outside_failure_stops_the_generation() {
    let (g, _) = generate_config(opts(None, false));
    let (g, act) = g.answer(Answer::Failed(s("no space")));
    assert_eq!(act, Action::Fail(Failure::Outside(s("no space"))));
    let (_, act) = g.answer(Answer::Done);
    assert_eq!(act, Action::Fail(Failure::Unexpected));
}

#[test]
fn generation_runs_the_versioned_installer() {
    let (g, _) = generate_config(opts(None, false));
    let cmd = g.command(InstallerTask::CreateInstallConfig);
    assert_eq!(cmd.program, "openshift-install-4.5");
    assert_eq!(cmd.args.len(), 4);
}

#[test]
fn generation_takes_the_share_of_a_single_node() {
    let mut o = opts(None, false);
    o.libvirt_auto_size = true;
    let (g, _) = generate_config(o);
    let cmd = g.command_for(InstallerTask::CreateInstallConfig, Ok(32 * 1024 * 1024), Ok(16));
    assert_eq!(cmd.env[1], (s("TF_VAR_libvirt_master_memory"), s("26624")));
    assert_eq!(cmd.env[2], (s("TF_VAR_libvirt_master_vcpu"), s("14")));
    assert_eq!(cmd.args[1], Arg::Text(s("install-config")));
    assert_eq!(cmd.args[2], Arg::Text(s("--dir")));
    assert_eq!(cmd.args[3], Arg::Dir(Place::TempDir));
}
