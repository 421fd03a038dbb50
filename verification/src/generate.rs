//! Generating a configuration.

use vstd::prelude::*;

use crate::dialogue::{changed_place, Action, Answer};
use crate::failure::Failure;
use crate::install_config::{into_template, InstallConfig};
use crate::installer::{
    base_command, cmd_installer, installer_for, outcome_of, run_installer, ArgView, CommandView,
    InstallerCommand, InstallerOutcome, InstallerTask,
};
use crate::names::{config_name_text, ConfigFile};
use crate::options::GenConfigOpts;
use crate::place::Place;
use crate::text::{copy_optional, optional_text};

verus! {

/// What the generation of a configuration waits for.
pub enum GenerateState {
    /// Whether there is a file of the configuration's name.
    NameCheck,
    /// That there is a temporary directory.
    TempDir,
    /// How the installer's run ended.
    Running,
    /// The configuration that the installer wrote.
    Reading,
    /// Whether there is a file for the configuration that was read.
    FileCheck(InstallConfig),
    /// That the configuration directory is there, for this template.
    ConfigDir(InstallConfig),
    /// That this template is written.
    Writing(InstallConfig),
    /// Nothing any more.
    Over,
}

/// A generation that is under way.
pub struct GenerateConfig {
    pub opts: GenConfigOpts,
    pub state: GenerateState,
}

/// The generation with these options, before anything was answered, and what
/// it asks first.
pub open spec fn generate_start(o: GenConfigOpts) -> (GenerateConfig, Action) {
    match o.name {
        Some(name) if !o.overwrite => (
            GenerateConfig { opts: o, state: GenerateState::NameCheck },
            Action::Exists(Place::Config(ConfigFile::Plain(name))),
        ),
        _ => (
            GenerateConfig { opts: o, state: GenerateState::TempDir },
            Action::MakeTempDir,
        ),
    }
}

/// Begins to create a `config-<x>.yaml`.
pub fn generate_config(o: GenConfigOpts) -> (res: (GenerateConfig, Action))
    ensures
        res == generate_start(o),
{
    if !o.overwrite {
        if let Some(name) = &o.name {
            let file = ConfigFile::Plain(name.clone());
            return (
                GenerateConfig { opts: o, state: GenerateState::NameCheck },
                Action::Exists(Place::Config(file)),
            );
        }
    }
    (GenerateConfig { opts: o, state: GenerateState::TempDir }, Action::MakeTempDir)
}

impl GenerateConfig {
    /// The same generation in another state.
    pub open spec fn with(self, state: GenerateState) -> GenerateConfig {
        GenerateConfig { state, ..self }
    }

    /// The file for a configuration.
    pub open spec fn spec_file(self, config: InstallConfig) -> ConfigFile {
        ConfigFile::Named(self.opts.name, config.platform.spec_platform())
    }

    /// What the generation turns into, and asks for, when a configuration may
    /// be written as a template.
    pub open spec fn next_template(self, config: InstallConfig) -> (GenerateConfig, Action) {
        if config.metadata is None {
            (self.with(GenerateState::Over), Action::Fail(Failure::NoMetadata))
        } else {
            (
                self.with(
                    GenerateState::ConfigDir(InstallConfig { metadata: None, ..config }),
                ),
                Action::EnsureDir(Place::ConfigDir),
            )
        }
    }

    /// What the generation turns into, and asks for, at an answer.
    pub open spec fn next(self, a: Answer) -> (GenerateConfig, Action) {
        match (self.state, a) {
            (GenerateState::Over, _) => (self, Action::Fail(Failure::Unexpected)),
            (_, Answer::Failed(reason)) => (
                self.with(GenerateState::Over),
                Action::Fail(Failure::Outside(reason)),
            ),
            (GenerateState::NameCheck, Answer::Exists(exists)) => match self.opts.name {
                Some(name) if exists => (
                    self.with(GenerateState::Over),
                    Action::Fail(Failure::ConfigExists(ConfigFile::Plain(name))),
                ),
                _ => (self.with(GenerateState::TempDir), Action::MakeTempDir),
            },
            (GenerateState::TempDir, Answer::Done) => (
                self.with(GenerateState::Running),
                Action::RunInstaller(InstallerTask::CreateInstallConfig),
            ),
            (GenerateState::Running, Answer::Ran(outcome)) => match outcome_of(outcome) {
                Ok(_) => (
                    self.with(GenerateState::Reading),
                    Action::ReadConfig(Place::TempConfig),
                ),
                Err(e) => (self.with(GenerateState::Over), Action::Fail(e)),
            },
            (GenerateState::Reading, Answer::Config(config)) => if self.opts.overwrite {
                self.next_template(config)
            } else {
                (
                    self.with(GenerateState::FileCheck(config)),
                    Action::Exists(Place::Config(self.spec_file(config))),
                )
            },
            (GenerateState::FileCheck(config), Answer::Exists(exists)) => if exists {
                (
                    self.with(GenerateState::Over),
                    Action::Fail(Failure::ConfigExists(self.spec_file(config))),
                )
            } else {
                self.next_template(config)
            },
            (GenerateState::ConfigDir(template), Answer::Done) => (
                self.with(GenerateState::Writing(template)),
                Action::WriteTemplate(Place::Config(self.spec_file(template))),
            ),
            (GenerateState::Writing(template), Answer::Done) => (
                self.with(GenerateState::Over),
                Action::Generated(self.spec_file(template)),
            ),
            _ => (self.with(GenerateState::Over), Action::Fail(Failure::Unexpected)),
        }
    }

    /// The file for a configuration.
    fn file(opts: &GenConfigOpts, config: &InstallConfig) -> (res: ConfigFile)
        ensures
            res == ConfigFile::Named(opts.name, config.platform.spec_platform()),
    {
        ConfigFile::Named(copy_optional(&opts.name), config.platform.to_platform())
    }

    /// Goes on when a configuration may be written as a template.
    fn template_turn(opts: GenConfigOpts, config: InstallConfig) -> (res: (GenerateConfig, Action))
        ensures
            res == (GenerateConfig { opts, state: GenerateState::Over }).next_template(config),
    {
        match into_template(config) {
            None => (
                GenerateConfig { opts, state: GenerateState::Over },
                Action::Fail(Failure::NoMetadata),
            ),
            Some(template) => (
                GenerateConfig { opts, state: GenerateState::ConfigDir(template) },
                Action::EnsureDir(Place::ConfigDir),
            ),
        }
    }

    /// Goes on with the answer to what was asked last.
    pub fn answer(self, a: Answer) -> (res: (GenerateConfig, Action))
        ensures
            res == self.next(a),
    {
        let opts = self.opts;
        match (self.state, a) {
            (GenerateState::Over, _) => (
                GenerateConfig { opts, state: GenerateState::Over },
                Action::Fail(Failure::Unexpected),
            ),
            (_, Answer::Failed(reason)) => (
                GenerateConfig { opts, state: GenerateState::Over },
                Action::Fail(Failure::Outside(reason)),
            ),
            (GenerateState::NameCheck, Answer::Exists(exists)) => {
                if exists {
                    if let Some(name) = &opts.name {
                        let file = ConfigFile::Plain(name.clone());
                        return (
                            GenerateConfig { opts, state: GenerateState::Over },
                            Action::Fail(Failure::ConfigExists(file)),
                        );
                    }
                }
                (GenerateConfig { opts, state: GenerateState::TempDir }, Action::MakeTempDir)
            },
            (GenerateState::TempDir, Answer::Done) => (
                GenerateConfig { opts, state: GenerateState::Running },
                Action::RunInstaller(InstallerTask::CreateInstallConfig),
            ),
            (GenerateState::Running, Answer::Ran(outcome)) => match run_installer(outcome) {
                Ok(_) => (
                    GenerateConfig { opts, state: GenerateState::Reading },
                    Action::ReadConfig(Place::TempConfig),
                ),
                Err(e) => (GenerateConfig { opts, state: GenerateState::Over }, Action::Fail(e)),
            },
            (GenerateState::Reading, Answer::Config(config)) => {
                if opts.overwrite {
                    Self::template_turn(opts, config)
                } else {
                    let file = Self::file(&opts, &config);
                    (
                        GenerateConfig { opts, state: GenerateState::FileCheck(config) },
                        Action::Exists(Place::Config(file)),
                    )
                }
            },
            (GenerateState::FileCheck(config), Answer::Exists(exists)) => {
                if exists {
                    let file = Self::file(&opts, &config);
                    (
                        GenerateConfig { opts, state: GenerateState::Over },
                        Action::Fail(Failure::ConfigExists(file)),
                    )
                } else {
                    Self::template_turn(opts, config)
                }
            },
            (GenerateState::ConfigDir(template), Answer::Done) => {
                let file = Self::file(&opts, &template);
                (
                    GenerateConfig { opts, state: GenerateState::Writing(template) },
                    Action::WriteTemplate(Place::Config(file)),
                )
            },
            (GenerateState::Writing(template), Answer::Done) => {
                let file = Self::file(&opts, &template);
                (
                    GenerateConfig { opts, state: GenerateState::Over },
                    Action::Generated(file),
                )
            },
            _ => (
                GenerateConfig { opts, state: GenerateState::Over },
                Action::Fail(Failure::Unexpected),
            ),
        }
    }

    /// The template that is to be written, if it is its turn.
    pub fn template(&self) -> (res: Option<&InstallConfig>)
        ensures
            match self.state {
                GenerateState::Writing(template) => res == Some(&template),
                _ => res is None,
            },
    {
        match &self.state {
            GenerateState::Writing(template) => Some(template),
            _ => None,
        }
    }

    /// The call of the installer that is to write a configuration, into the
    /// temporary directory. `memory` and `cpus` are what the host answered, if it
    /// was asked.
    pub open spec fn spec_command(
        self,
        task: InstallerTask,
        memory: Result<u64, String>,
        cpus: Result<u32, String>,
    ) -> CommandView {
        base_command(
            optional_text(self.opts.installer_version),
            self.opts.libvirt_auto_size,
            None,
            memory,
            cpus,
        ).with_task(task, Place::TempDir, false)
    }

    /// The installer that is to write a configuration, given what the host answered if it was
    /// asked.
    pub fn command_for(
        &self,
        task: InstallerTask,
        memory: Result<u64, String>,
        cpus: Result<u32, String>,
    ) -> (res: InstallerCommand)
        ensures
            res@ == self.spec_command(task, memory, cpus),
    {
        let version = match &self.opts.installer_version {
            Some(version) => Some(version.as_str()),
            None => None,
        };
        let mut cmd = installer_for(version, self.opts.libvirt_auto_size, None, memory, cpus);
        cmd.add_task(task, Place::TempDir, false);
        cmd
    }

    /// The installer that is to write a configuration. What the host answered, if it was asked,
    /// is in the call.
    pub fn command(&self, task: InstallerTask) -> (res: InstallerCommand)
        ensures
            exists|memory: Result<u64, String>, cpus: Result<u32, String>|
                res@ == #[trigger] self.spec_command(task, memory, cpus),
    {
        let version = match &self.opts.installer_version {
            Some(version) => Some(version.as_str()),
            None => None,
        };
        let mut cmd = cmd_installer(version, self.opts.libvirt_auto_size, None);
        let ghost base = cmd@;
        cmd.add_task(task, Place::TempDir, false);
        proof {
            let (memory, cpus) = choose|memory: Result<u64, String>, cpus: Result<u32, String>|
                base == #[trigger] base_command(
                    optional_text(self.opts.installer_version),
                    self.opts.libvirt_auto_size,
                    None,
                    memory,
                    cpus,
                );
            assert(cmd@ == self.spec_command(task, memory, cpus));
        }
        cmd
    }
}

/// What a generation finds outside, where everything that it asks to be done
/// can be done.
pub struct GenerateWorld {
    /// Whether there is a file of the configuration's name.
    pub name_exists: bool,
    /// Whether there is a file for the configuration.
    pub file_exists: bool,
    pub outcome: InstallerOutcome,
    /// The configuration that the installer wrote.
    pub config: InstallConfig,
}

impl GenerateWorld {
    /// The answer to what is asked.
    pub open spec fn reply(self, action: Action) -> Answer {
        match action {
            Action::Exists(Place::Config(ConfigFile::Plain(_))) => Answer::Exists(
                self.name_exists,
            ),
            Action::Exists(_) => Answer::Exists(self.file_exists),
            Action::RunInstaller(_) => Answer::Ran(self.outcome),
            Action::ReadConfig(_) => Answer::Config(self.config),
            _ => Answer::Done,
        }
    }

    /// How a generation ends: it fails if it would overwrite a file and is not to,
    /// if the installer fails, or if the installer names no cluster.
    pub open spec fn result(self, o: GenConfigOpts) -> Action {
        let file = ConfigFile::Named(o.name, self.config.platform.spec_platform());
        if !o.overwrite && o.name is Some && self.name_exists {
            Action::Fail(Failure::ConfigExists(ConfigFile::Plain(o.name->0)))
        } else {
            match outcome_of(self.outcome) {
                Err(e) => Action::Fail(e),
                Ok(_) => if !o.overwrite && self.file_exists {
                    Action::Fail(Failure::ConfigExists(file))
                } else if self.config.metadata is None {
                    Action::Fail(Failure::NoMetadata)
                } else {
                    Action::Generated(file)
                },
            }
        }
    }
}

/// What is asked last from `action` on, where the world answers, for as many
/// answers as `limit`.
pub open spec fn generate_end(
    g: GenerateConfig,
    action: Action,
    w: GenerateWorld,
    limit: nat,
) -> Action
    decreases limit,
{
    if action.ends() || limit == 0 {
        action
    } else {
        let (n, asked) = g.next(w.reply(action));
        generate_end(n, asked, w, (limit - 1) as nat)
    }
}

/// How near a generation is to its end.
pub open spec fn generate_rank(state: GenerateState) -> nat {
    match state {
        GenerateState::NameCheck => 7,
        GenerateState::TempDir => 6,
        GenerateState::Running => 5,
        GenerateState::Reading => 4,
        GenerateState::FileCheck(_) => 3,
        GenerateState::ConfigDir(_) => 2,
        GenerateState::Writing(_) => 1,
        GenerateState::Over => 0,
    }
}

/// A generation ends after at most seven answers, whatever they are, and it is
/// over exactly when it asks for nothing more.
pub proof fn generate_ends(g: GenerateConfig, a: Answer)
    ensures
        !(g.state is Over) ==> generate_rank(g.next(a).0.state) < generate_rank(g.state),
        g.next(a).1.ends() == (g.next(a).0.state is Over),
{
}

/// Whatever cannot be done outside stops a generation with the reason.
pub proof fn outside_failure_stops_the_generation(g: GenerateConfig, reason: String)
    requires
        !(g.state is Over),
    ensures
        g.next(Answer::Failed(reason)).0.state is Over,
        g.next(Answer::Failed(reason)).1 == Action::Fail(Failure::Outside(reason)),
{
}

/// What is written is a template: what the installer wrote without its metadata,
/// into the file named after the configuration or, if that has no name, after
/// the platform. A file that is there is written over only if that was asked for.
pub proof fn generate_writes_a_template(g: GenerateConfig, a: Answer)
    ensures
        g.next(a).0.opts == g.opts,
        g.next(a).1 matches Action::WriteTemplate(place) ==> {
            &&& g.next(a).0.state matches GenerateState::Writing(template)
            &&& g.state == GenerateState::ConfigDir(template)
            &&& place.spec_parts() == seq![
                config_name_text(
                    optional_text(g.opts.name),
                    template.platform.spec_platform(),
                ),
            ]
        },
        g.next(a).0.state matches GenerateState::ConfigDir(template) ==> {
            ||| g.opts.overwrite && (a matches Answer::Config(config) && config.metadata is Some
                && template == (InstallConfig { metadata: None, ..config }))
            ||| a == Answer::Exists(false) && (g.state matches GenerateState::FileCheck(config)
                && config.metadata is Some && template == (InstallConfig {
                metadata: None,
                ..config
            }))
        },
{
}

/// The installer of a generation is the one of the version that is asked for, on a
/// host that is asked exactly if its resources are to be discovered, for a single
/// node.
pub proof fn installer_is_that_of_the_options(
    g: GenerateConfig,
    task: InstallerTask,
    memory: Result<u64, String>,
    cpus: Result<u32, String>,
)
    ensures
        ({
            let cmd = g.spec_command(task, memory, cpus);
            let base = base_command(
                match g.opts.installer_version {
                    Some(version) => Some(version@),
                    None => None,
                },
                g.opts.libvirt_auto_size,
                None,
                memory,
                cpus,
            );
            &&& cmd.program == base.program
            &&& cmd.env == base.env
            &&& cmd.warnings == base.warnings
            &&& cmd.host == base.host
        }),
{
}

/// The installer works in the temporary directory, out of which the
/// configuration is then read.
pub proof fn installer_works_in_the_temp_dir(
    g: GenerateConfig,
    memory: Result<u64, String>,
    cpus: Result<u32, String>,
)
    ensures
        g.spec_command(InstallerTask::CreateInstallConfig, memory, cpus).args == seq![
            ArgView::Text("create"@),
            ArgView::Text("install-config"@),
            ArgView::Text("--dir"@),
            ArgView::Dir(Place::TempDir),
        ],
        Place::TempConfig.spec_base() == Place::TempDir.spec_base(),
        Place::TempConfig.spec_parts() == Place::TempDir.spec_parts().push("install-config.yaml"@),
{
    assert(Place::TempConfig.spec_parts() =~= Place::TempDir.spec_parts().push(
        "install-config.yaml"@,
    ));
}

/// A generation changes nothing but the file for its configuration, which it
/// writes, and creates nothing else but the configuration directory and a
/// temporary one.
pub proof fn generate_changes_only_its_file(g: GenerateConfig, a: Answer)
    ensures
        changed_place(g.next(a).1) matches Some(place) ==> {
            ||| place == Place::ConfigDir && g.next(a).1 is EnsureDir
            ||| g.next(a).1 is WriteTemplate && (g.state matches GenerateState::ConfigDir(template)
                && place == Place::Config(g.spec_file(template)))
        },
        changed_place(generate_start(g.opts).1) is None,
{
}

/// Where all that is asked can be done, a generation ends as the installer and
/// the files that are there decide.
pub proof fn generate_does_what_it_promises(o: GenConfigOpts, w: GenerateWorld)
    ensures
        generate_end(generate_start(o).0, generate_start(o).1, w, 7) == w.result(o),
{
    reveal_with_fuel(generate_end, 8);
}

} // verus!
