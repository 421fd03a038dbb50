//! Launching a cluster.

use vstd::prelude::*;

use crate::dialogue::{Action, Answer};
use crate::failure::{Failure, Notice};
use crate::install_config::{
    config_for_cluster, customize, inject_pull_secret, with_pull_secret, ConfigView, InstallConfig,
    LaunchedConfig, LaunchedView,
};
use crate::installer::{
    cmd_launch_installer, launch_command, launch_installer_for, outcome_of, run_installer,
    CommandView, InstallerCommand, InstallerTask,
};
use crate::names::{
    config_files, get_configs, select_config, selected_config, ConfigChoice, ConfigFile,
    ConfigSource,
};
use crate::options::LaunchOpts;
use crate::place::{ClusterFile, Manifest, Place, Role};
use crate::platform::{ClusterSize, Platform};
use crate::release::get_latest_release;
use crate::text::{copy_optional, optional_text};

verus! {

/// One of the things that are done, in order, once the configuration of the
/// cluster is known.
#[derive(Debug, Clone, Copy, PartialEq, Eq, Structural)]
pub enum Step {
    /// Create the cluster's directory.
    ClusterDir,
    /// Keep the state that the cluster is launched with.
    LaunchedConfig,
    /// Hand the configuration to the installer.
    InstallConfig,
    /// Run the installer.
    Run(InstallerTask),
    /// Have a directory for more manifests.
    OpenshiftDir,
    /// Copy the user's manifests there.
    CopyManifests,
    /// Add a manifest of our own.
    Add(Manifest),
}

/// The manifests of our own that a cluster gets: a single node cluster has to do
/// without peers, and the machines of libvirt log in on their consoles.
pub open spec fn added_manifests(size: Option<ClusterSize>, platform: Platform) -> Seq<Step> {
    (if size == Some(ClusterSize::Single) {
        seq![Step::Add(Manifest::SingleEtcd), Step::Add(Manifest::SingleIngress)]
    } else {
        seq![]
    }) + (if platform == Platform::Libvirt {
        seq![
            Step::Add(Manifest::Autologin(Role::Master)),
            Step::Add(Manifest::Autologin(Role::Worker)),
        ]
    } else {
        seq![]
    })
}

/// What is done, in order, once the configuration of the cluster is known.
pub open spec fn launch_plan(o: LaunchOpts, platform: Platform) -> Seq<Step> {
    seq![
        Step::ClusterDir,
        Step::LaunchedConfig,
        Step::InstallConfig,
        Step::Run(InstallerTask::Version),
        Step::Run(InstallerTask::CreateManifests),
        Step::OpenshiftDir,
    ] + (if o.manifests is Some {
        seq![Step::CopyManifests]
    } else {
        seq![]
    }) + added_manifests(o.size, platform) + seq![Step::Run(InstallerTask::CreateCluster)]
}

/// Plans what is done once the configuration of the cluster is known.
pub fn plan_launch(o: &LaunchOpts, platform: Platform) -> (res: Vec<Step>)
    ensures
        res@ == launch_plan(*o, platform),
{
    let mut steps: Vec<Step> = Vec::new();
    steps.push(Step::ClusterDir);
    steps.push(Step::LaunchedConfig);
    steps.push(Step::InstallConfig);
    steps.push(Step::Run(InstallerTask::Version));
    steps.push(Step::Run(InstallerTask::CreateManifests));
    steps.push(Step::OpenshiftDir);
    if o.manifests.is_some() {
        steps.push(Step::CopyManifests);
    }
    let single = match &o.size {
        Some(ClusterSize::Single) => true,
        _ => false,
    };
    if single {
        steps.push(Step::Add(Manifest::SingleEtcd));
        steps.push(Step::Add(Manifest::SingleIngress));
    }
    if platform == Platform::Libvirt {
        steps.push(Step::Add(Manifest::Autologin(Role::Master)));
        steps.push(Step::Add(Manifest::Autologin(Role::Worker)));
    }
    steps.push(Step::Run(InstallerTask::CreateCluster));
    assert(steps@ =~= launch_plan(*o, platform));
    steps
}

/// The state that a cluster is launched with, made from its base configuration
/// and a pull secret for one that has none.
pub open spec fn launched_state(
    base: ConfigView,
    secret: Option<Seq<char>>,
    o: LaunchOpts,
) -> LaunchedView {
    LaunchedView {
        config: with_pull_secret(config_for_cluster(base, o.name@, o.size), secret),
        installer_version: optional_text(o.install_run_opts.installer_version),
        release_image: optional_text(o.release_image),
        boot_image: optional_text(o.boot_image),
        libvirt_auto_size: o.install_run_opts.libvirt_auto_size,
    }
}

/// Makes the state that a cluster is launched with.
pub fn launched_config(base: InstallConfig, secret: Option<String>, o: &LaunchOpts) -> (res:
    LaunchedConfig)
    ensures
        res@ == launched_state(base@, optional_text(secret), *o),
        res.config.platform == base.platform,
{
    let config = customize(base, &o.name, &o.size);
    assert(config@.platform == base@.platform);
    let config = match secret {
        Some(secret) => inject_pull_secret(config, secret),
        None => config,
    };
    let res = LaunchedConfig {
        config,
        installer_version: copy_optional(&o.install_run_opts.installer_version),
        release_image: copy_optional(&o.release_image),
        boot_image: copy_optional(&o.boot_image),
        libvirt_auto_size: o.install_run_opts.libvirt_auto_size,
    };
    assert(res@.config.platform == base@.platform);
    res
}

/// How far the present step of a launch has come.
pub enum Stage {
    /// What it asks first is not answered yet.
    Asked,
    /// The directory for more manifests is created.
    MakingDir,
    /// The user's manifests are taken; these were copied.
    Listing(Vec<String>),
    /// The user's manifest of this name is copied, after these.
    Copying(Vec<String>, String),
    /// The user is told what was copied.
    Telling,
}

/// A launch whose configuration is known.
pub struct Work {
    pub launched: LaunchedConfig,
    pub steps: Vec<Step>,
    /// The present step.
    pub at: usize,
    pub stage: Stage,
}

/// What a launch waits for.
pub enum LaunchState {
    /// That the configuration directory is there.
    ConfigDir,
    /// Whether the cluster's directory is there.
    ClusterDir,
    /// That the old cluster is destroyed.
    Destroying,
    /// The files in the configuration directory.
    Listing,
    /// That the user knows that a configuration is generated.
    Announcing,
    /// The configuration that is generated.
    Generating,
    /// Whether there is a file of the configuration's name.
    Locating(ConfigChoice),
    /// Whether there is a file `config-<choice>.yaml`.
    LocatingFull(ConfigChoice),
    /// The latest release, before this file is read.
    Fetching(ConfigFile),
    /// That the user knows the release, before this file is read.
    Releasing(ConfigFile),
    /// The base configuration.
    Reading,
    /// Whether there is a home directory, for a configuration without pull secret.
    Home(InstallConfig),
    /// Whether there are credentials, for a configuration without pull secret.
    SecretCheck(InstallConfig),
    /// The credentials, for a configuration without pull secret.
    SecretRead(InstallConfig),
    /// What the present step asked for.
    Working(Work),
    /// That this failure is written down.
    Stamping(Failure),
    /// That the user knows that this failure is not written down.
    Complaining(Failure),
    /// Nothing any more.
    Over,
}

/// A launch that is under way.
pub struct Launch {
    pub opts: LaunchOpts,
    pub state: LaunchState,
}

/// Begins to launch a cluster.
pub fn launch(o: LaunchOpts) -> (res: (Launch, Action))
    ensures
        res == (
            Launch { opts: o, state: LaunchState::ConfigDir },
            Action::EnsureDir(Place::ConfigDir),
        ),
{
    (
        Launch { opts: o, state: LaunchState::ConfigDir },
        Action::EnsureDir(Place::ConfigDir),
    )
}

/// What a step asks first.
pub open spec fn step_action(o: LaunchOpts, step: Step) -> Action {
    match step {
        Step::ClusterDir => Action::MakeDir(Place::Cluster(o.name)),
        Step::LaunchedConfig => Action::WriteLaunchedConfig(
            Place::InCluster(o.name, ClusterFile::LaunchedConfig),
        ),
        Step::InstallConfig => Action::WriteInstallConfig(
            Place::InCluster(o.name, ClusterFile::InstallConfig),
        ),
        Step::Run(task) => Action::RunInstaller(task),
        Step::OpenshiftDir => Action::Exists(Place::InCluster(o.name, ClusterFile::OpenshiftDir)),
        Step::CopyManifests => match o.manifests {
            Some(dir) => Action::OpenManifests(dir),
            None => Action::Fail(Failure::Unexpected),
        },
        Step::Add(manifest) => Action::WriteManifest(
            Place::InCluster(o.name, ClusterFile::Added(manifest)),
            manifest,
        ),
    }
}

/// Asks what a step asks first.
fn ask_step(o: &LaunchOpts, step: Step) -> (res: Action)
    ensures
        res == step_action(*o, step),
{
    let name = o.name.clone();
    match step {
        Step::ClusterDir => Action::MakeDir(Place::Cluster(name)),
        Step::LaunchedConfig => Action::WriteLaunchedConfig(
            Place::InCluster(name, ClusterFile::LaunchedConfig),
        ),
        Step::InstallConfig => Action::WriteInstallConfig(
            Place::InCluster(name, ClusterFile::InstallConfig),
        ),
        Step::Run(task) => Action::RunInstaller(task),
        Step::OpenshiftDir => Action::Exists(Place::InCluster(name, ClusterFile::OpenshiftDir)),
        Step::CopyManifests => match &o.manifests {
            Some(dir) => Action::OpenManifests(dir.clone()),
            None => Action::Fail(Failure::Unexpected),
        },
        Step::Add(manifest) => Action::WriteManifest(
            Place::InCluster(name, ClusterFile::Added(manifest)),
            manifest,
        ),
    }
}

impl Work {
    /// Whether the present step is one of the plan.
    pub open spec fn valid(self) -> bool {
        self.at < self.steps@.len()
    }

    /// The present step.
    pub open spec fn step(self) -> Step {
        self.steps@[self.at as int]
    }

    /// The same work at another stage of the same step.
    pub open spec fn with(self, stage: Stage) -> Work {
        Work { stage, ..self }
    }
}

impl Launch {
    /// Whether the launch is at one of the steps of its plan.
    pub open spec fn valid(self) -> bool {
        self.state matches LaunchState::Working(w) ==> w.valid()
    }

    /// The same launch in another state.
    pub open spec fn with(self, state: LaunchState) -> Launch {
        Launch { state, ..self }
    }

    /// The launch stops for a reason.
    pub open spec fn stopped(self, e: Failure) -> (Launch, Action) {
        (self.with(LaunchState::Over), Action::Fail(e))
    }

    /// The launch looks for the file of a configuration.
    pub open spec fn located(self, choice: ConfigChoice) -> (Launch, Action) {
        (
            self.with(LaunchState::Locating(choice)),
            Action::Exists(Place::Config(ConfigFile::Chosen(choice))),
        )
    }

    /// The launch goes on with the file of its base configuration.
    pub open spec fn found(self, file: ConfigFile) -> (Launch, Action) {
        match self.opts.release_stream {
            Some(stream) => (
                self.with(LaunchState::Fetching(file)),
                Action::FetchRelease(stream),
            ),
            None => (self.with(LaunchState::Reading), Action::ReadConfig(Place::Config(file))),
        }
    }

    /// Whether `n` and `act` are the launch at the beginning of its plan, with
    /// this base configuration and this pull secret for one that has none.
    pub open spec fn begins(
        self,
        base: InstallConfig,
        secret: Option<String>,
        n: Launch,
        act: Action,
    ) -> bool {
        &&& n.opts == self.opts
        &&& n.state matches LaunchState::Working(w)
        &&& w.launched@ == launched_state(base@, optional_text(secret), self.opts)
        &&& w.steps@ == launch_plan(self.opts, base.platform.spec_platform())
        &&& w.at == 0
        &&& w.stage is Asked
        &&& act == step_action(self.opts, Step::ClusterDir)
    }

    /// The launch after the present step: at the next one, or at its end.
    pub open spec fn advanced(self, w: Work) -> (Launch, Action) {
        if w.at + 1 < w.steps@.len() {
            (
                self.with(
                    LaunchState::Working(Work { at: (w.at + 1) as usize, ..w.with(Stage::Asked) }),
                ),
                step_action(self.opts, w.steps@[w.at + 1]),
            )
        } else {
            (self.with(LaunchState::Over), Action::Finish)
        }
    }

    /// Whether `n` and `act` are the launch with `copied` of the user's
    /// manifests copied, about to take the next.
    pub open spec fn takes_next(
        self,
        w: Work,
        copied: Seq<String>,
        n: Launch,
        act: Action,
    ) -> bool {
        &&& n.state matches LaunchState::Working(nw)
        &&& nw.stage matches Stage::Listing(now)
        &&& now@ == copied
        &&& n == self.with(LaunchState::Working(w.with(nw.stage)))
        &&& act is NextManifest
    }

    /// Whether `n` and `act` are what the launch turns into, and asks for, when
    /// the present step of its work gets this answer. A step outside its plan has
    /// no answer.
    pub open spec fn works(self, w: Work, a: Answer, n: Launch, act: Action) -> bool {
        match (w.step(), w.stage, a) {
            (_, _, Answer::Failed(reason)) => (n, act) == self.stopped(Failure::Outside(reason)),
            _ if !w.valid() => (n, act) == self.stopped(Failure::Unexpected),
            (Step::ClusterDir, Stage::Asked, Answer::Done) => (n, act) == self.advanced(w),
            (Step::LaunchedConfig, Stage::Asked, Answer::Done) => (n, act) == self.advanced(w),
            (Step::InstallConfig, Stage::Asked, Answer::Done) => (n, act) == self.advanced(w),
            (Step::Add(_), Stage::Asked, Answer::Done) => (n, act) == self.advanced(w),
            (Step::Run(task), Stage::Asked, Answer::Ran(outcome)) => match outcome_of(outcome) {
                Ok(_) => (n, act) == self.advanced(w),
                Err(e) => if task == InstallerTask::CreateCluster {
                    (n, act) == (
                        self.with(LaunchState::Stamping(e)),
                        Action::WriteStamp(
                            Place::InCluster(self.opts.name, ClusterFile::FailedStamp),
                            e,
                        ),
                    )
                } else {
                    (n, act) == self.stopped(e)
                },
            },
            (Step::OpenshiftDir, Stage::Asked, Answer::Exists(exists)) => if exists {
                (n, act) == self.advanced(w)
            } else {
                (n, act) == (
                    self.with(LaunchState::Working(w.with(Stage::MakingDir))),
                    Action::MakeDir(Place::InCluster(self.opts.name, ClusterFile::OpenshiftDir)),
                )
            },
            (Step::OpenshiftDir, Stage::MakingDir, Answer::Done) => (n, act) == self.advanced(w),
            (Step::CopyManifests, Stage::Asked, Answer::Done) => self.takes_next(
                w,
                seq![],
                n,
                act,
            ),
            (Step::CopyManifests, Stage::Listing(copied), Answer::Entry(Some(entry))) =>
                match entry.name {
                Some(name) if entry.is_file => (n, act) == (
                    self.with(LaunchState::Working(w.with(Stage::Copying(copied, name)))),
                    Action::CopyManifest(
                        Place::InCluster(self.opts.name, ClusterFile::Custom(name)),
                    ),
                ),
                _ => self.takes_next(w, copied@, n, act),
            },
            (Step::CopyManifests, Stage::Copying(copied, name), Answer::Done) => self.takes_next(
                w,
                copied@.push(name),
                n,
                act,
            ),
            (Step::CopyManifests, Stage::Listing(copied), Answer::Entry(None)) =>
                match self.opts.manifests {
                Some(dir) if copied@.len() == 0 => (n, act) == self.stopped(
                    Failure::NoManifests(dir),
                ),
                _ => (n, act) == (
                    self.with(LaunchState::Working(w.with(Stage::Telling))),
                    Action::Print(Notice::CopiedManifests(copied)),
                ),
            },
            (Step::CopyManifests, Stage::Telling, Answer::Done) => (n, act) == self.advanced(w),
            _ => (n, act) == self.stopped(Failure::Unexpected),
        }
    }

    /// Whether `n` and `act` are what the launch turns into, and asks for, at an
    /// answer.
    pub open spec fn turns(self, a: Answer, n: Launch, act: Action) -> bool {
        match (self.state, a) {
            (LaunchState::Over, _) => (n, act) == self.stopped(Failure::Unexpected),
            (LaunchState::Stamping(e), Answer::Done) => (n, act) == self.stopped(e),
            (LaunchState::Stamping(e), Answer::Failed(reason)) => (n, act) == (
                self.with(LaunchState::Complaining(e)),
                Action::Print(Notice::StampNotWritten(reason)),
            ),
            (LaunchState::Complaining(e), Answer::Done) => (n, act) == self.stopped(e),
            (LaunchState::Working(w), a) => self.works(w, a, n, act),
            (_, Answer::Failed(reason)) => (n, act) == self.stopped(Failure::Outside(reason)),
            (LaunchState::ConfigDir, Answer::Done) => (n, act) == (
                self.with(LaunchState::ClusterDir),
                Action::Exists(Place::Cluster(self.opts.name)),
            ),
            (LaunchState::ClusterDir, Answer::Exists(exists)) => if !exists {
                (n, act) == (self.with(LaunchState::Listing), Action::ListConfigs)
            } else if self.opts.destroy {
                (n, act) == (
                    self.with(LaunchState::Destroying),
                    Action::Destroy(self.opts.name, true, self.opts.install_run_opts.log_debug),
                )
            } else {
                (n, act) == self.stopped(Failure::ClusterExists(self.opts.name))
            },
            (LaunchState::Destroying, Answer::Done) => (n, act) == (
                self.with(LaunchState::Listing),
                Action::ListConfigs,
            ),
            (LaunchState::Listing, Answer::Names(names)) => match selected_config(
                self.opts.config,
                self.opts.platform,
                config_files(names@),
            ) {
                Err(e) => (n, act) == self.stopped(e),
                Ok(ConfigSource::Generate) => (n, act) == (
                    self.with(LaunchState::Announcing),
                    Action::Print(Notice::NoConfigs),
                ),
                Ok(ConfigSource::Use(choice)) => (n, act) == self.located(choice),
            },
            (LaunchState::Announcing, Answer::Done) => (n, act) == (
                self.with(LaunchState::Generating),
                Action::GenerateConfig(self.opts.spec_gen_config()),
            ),
            (LaunchState::Generating, Answer::Generated(name)) => (n, act) == self.located(
                ConfigChoice::Generated(name),
            ),
            (LaunchState::Locating(choice), Answer::Exists(exists)) => if exists {
                (n, act) == self.found(ConfigFile::Chosen(choice))
            } else {
                (n, act) == (
                    self.with(LaunchState::LocatingFull(choice)),
                    Action::Exists(Place::Config(ConfigFile::Full(choice))),
                )
            },
            (LaunchState::LocatingFull(choice), Answer::Exists(exists)) => if exists {
                (n, act) == self.found(ConfigFile::Full(choice))
            } else {
                (n, act) == self.stopped(Failure::NoSuchConfig(choice))
            },
            (LaunchState::Fetching(file), Answer::Release(release)) => (n, act) == (
                Launch {
                    opts: LaunchOpts { release_image: Some(release.pull_spec), ..self.opts },
                    state: LaunchState::Releasing(file),
                },
                Action::Print(Notice::UsingRelease(release.pull_spec)),
            ),
            (LaunchState::Releasing(file), Answer::Done) => (n, act) == (
                self.with(LaunchState::Reading),
                Action::ReadConfig(Place::Config(file)),
            ),
            (LaunchState::Reading, Answer::Config(config)) => match config.pull_secret {
                Some(_) => self.begins(config, None, n, act),
                None => (n, act) == (self.with(LaunchState::Home(config)), Action::FindHome),
            },
            (LaunchState::Home(config), Answer::Home(found)) => if found {
                (n, act) == (
                    self.with(LaunchState::SecretCheck(config)),
                    Action::Exists(Place::DockerConfig),
                )
            } else {
                (n, act) == self.stopped(Failure::NoHome)
            },
            (LaunchState::SecretCheck(config), Answer::Exists(exists)) => if exists {
                (n, act) == (
                    self.with(LaunchState::SecretRead(config)),
                    Action::ReadText(Place::DockerConfig),
                )
            } else {
                (n, act) == self.stopped(Failure::NoPullSecret)
            },
            (LaunchState::SecretRead(config), Answer::Text(secret)) => self.begins(
                config,
                Some(secret),
                n,
                act,
            ),
            _ => (n, act) == self.stopped(Failure::Unexpected),
        }
    }

    /// Stops for a reason.
    fn stop(opts: LaunchOpts, e: Failure) -> (res: (Launch, Action))
        ensures
            res == (Launch { opts, state: LaunchState::Over }).stopped(e),
    {
        (Launch { opts, state: LaunchState::Over }, Action::Fail(e))
    }

    /// Looks for the file of a configuration.
    fn locate(opts: LaunchOpts, choice: ConfigChoice) -> (res: (Launch, Action))
        ensures
            res == (Launch { opts, state: LaunchState::Over }).located(choice),
    {
        let file = ConfigFile::Chosen(choice.copy());
        (
            Launch { opts, state: LaunchState::Locating(choice) },
            Action::Exists(Place::Config(file)),
        )
    }

    /// Goes on with the file of the base configuration.
    fn find(opts: LaunchOpts, file: ConfigFile) -> (res: (Launch, Action))
        ensures
            res == (Launch { opts, state: LaunchState::Over }).found(file),
    {
        match copy_optional(&opts.release_stream) {
            Some(stream) => (
                Launch { opts, state: LaunchState::Fetching(file) },
                Action::FetchRelease(stream),
            ),
            None => (
                Launch { opts, state: LaunchState::Reading },
                Action::ReadConfig(Place::Config(file)),
            ),
        }
    }

    /// Begins the plan with a base configuration and a pull secret.
    fn begin(opts: LaunchOpts, base: InstallConfig, secret: Option<String>) -> (res: (
        Launch,
        Action,
    ))
        ensures
            (Launch { opts, state: LaunchState::Over }).begins(base, secret, res.0, res.1),
            res.0.valid(),
    {
        let steps = plan_launch(&opts, base.platform.to_platform());
        let launched = launched_config(base, secret, &opts);
        let action = ask_step(&opts, Step::ClusterDir);
        let work = Work { launched, steps, at: 0, stage: Stage::Asked };
        (Launch { opts, state: LaunchState::Working(work) }, action)
    }

    /// Goes over to the next step, or to the end.
    fn advance(opts: LaunchOpts, w: Work) -> (res: (Launch, Action))
        requires
            w.valid(),
        ensures
            res == (Launch { opts, state: LaunchState::Over }).advanced(w),
            res.0.valid(),
    {
        let count: usize = w.steps.len();
        let next: usize = w.at + 1;
        if next < count {
            let action = ask_step(&opts, w.steps[next]);
            let mut w = w;
            w.at = next;
            w.stage = Stage::Asked;
            (Launch { opts, state: LaunchState::Working(w) }, action)
        } else {
            (Launch { opts, state: LaunchState::Over }, Action::Finish)
        }
    }

    /// Goes over to another stage of the present step.
    fn stay(opts: LaunchOpts, w: Work, stage: Stage, action: Action) -> (res: (Launch, Action))
        ensures
            res == (Launch { opts, state: LaunchState::Working(w.with(stage)) }, action),
    {
        let mut w = w;
        w.stage = stage;
        (Launch { opts, state: LaunchState::Working(w) }, action)
    }

    /// Goes on with the answer to what the present step asked last.
    fn work(opts: LaunchOpts, w: Work, a: Answer) -> (res: (Launch, Action))
        ensures
            (Launch { opts, state: LaunchState::Over }).works(w, a, res.0, res.1),
            res.0.valid(),
    {
        if w.at >= w.steps.len() {
            return match a {
                Answer::Failed(reason) => Self::stop(opts, Failure::Outside(reason)),
                _ => Self::stop(opts, Failure::Unexpected),
            };
        }
        let step = w.steps[w.at];
        let Work { launched, steps, at, stage } = w;
        match (step, stage, a) {
            (_, _, Answer::Failed(reason)) => Self::stop(opts, Failure::Outside(reason)),
            (Step::ClusterDir, Stage::Asked, Answer::Done) => Self::advance(
                opts,
                Work { launched, steps, at, stage: Stage::Asked },
            ),
            (Step::LaunchedConfig, Stage::Asked, Answer::Done) => Self::advance(
                opts,
                Work { launched, steps, at, stage: Stage::Asked },
            ),
            (Step::InstallConfig, Stage::Asked, Answer::Done) => Self::advance(
                opts,
                Work { launched, steps, at, stage: Stage::Asked },
            ),
            (Step::Add(_), Stage::Asked, Answer::Done) => Self::advance(
                opts,
                Work { launched, steps, at, stage: Stage::Asked },
            ),
            (Step::Run(task), Stage::Asked, Answer::Ran(outcome)) => match run_installer(outcome) {
                Ok(_) => Self::advance(opts, Work { launched, steps, at, stage: Stage::Asked }),
                Err(e) => {
                    if task == InstallerTask::CreateCluster {
                        let place = Place::InCluster(opts.name.clone(), ClusterFile::FailedStamp);
                        let action = Action::WriteStamp(place, e.copy());
                        (Launch { opts, state: LaunchState::Stamping(e) }, action)
                    } else {
                        Self::stop(opts, e)
                    }
                },
            },
            (Step::OpenshiftDir, Stage::Asked, Answer::Exists(exists)) => {
                let w = Work { launched, steps, at, stage: Stage::Asked };
                if exists {
                    Self::advance(opts, w)
                } else {
                    let place = Place::InCluster(opts.name.clone(), ClusterFile::OpenshiftDir);
                    Self::stay(opts, w, Stage::MakingDir, Action::MakeDir(place))
                }
            },
            (Step::OpenshiftDir, Stage::MakingDir, Answer::Done) => Self::advance(
                opts,
                Work { launched, steps, at, stage: Stage::MakingDir },
            ),
            (Step::CopyManifests, Stage::Asked, Answer::Done) => Self::stay(
                opts,
                Work { launched, steps, at, stage: Stage::Asked },
                Stage::Listing(Vec::new()),
                Action::NextManifest,
            ),
            (Step::CopyManifests, Stage::Listing(copied), Answer::Entry(Some(entry))) => {
                let w = Work { launched, steps, at, stage: Stage::Asked };
                match entry.name {
                    Some(name) if entry.is_file => {
                        let file = ClusterFile::Custom(name.clone());
                        let place = Place::InCluster(opts.name.clone(), file);
                        Self::stay(
                            opts,
                            w,
                            Stage::Copying(copied, name),
                            Action::CopyManifest(place),
                        )
                    },
                    _ => Self::stay(opts, w, Stage::Listing(copied), Action::NextManifest),
                }
            },
            (Step::CopyManifests, Stage::Copying(copied, name), Answer::Done) => {
                let mut copied = copied;
                copied.push(name);
                let w = Work { launched, steps, at, stage: Stage::Asked };
                Self::stay(opts, w, Stage::Listing(copied), Action::NextManifest)
            },
            (Step::CopyManifests, Stage::Listing(copied), Answer::Entry(None)) => {
                if copied.len() == 0 {
                    if let Some(dir) = copy_optional(&opts.manifests) {
                        return Self::stop(opts, Failure::NoManifests(dir));
                    }
                }
                let w = Work { launched, steps, at, stage: Stage::Asked };
                Self::stay(opts, w, Stage::Telling, Action::Print(Notice::CopiedManifests(copied)))
            },
            (Step::CopyManifests, Stage::Telling, Answer::Done) => Self::advance(
                opts,
                Work { launched, steps, at, stage: Stage::Telling },
            ),
            _ => Self::stop(opts, Failure::Unexpected),
        }
    }

    /// Goes on with the answer to what was asked last.
    pub fn answer(self, a: Answer) -> (res: (Launch, Action))
        ensures
            self.turns(a, res.0, res.1),
            res.0.valid(),
    {
        let Launch { opts, state } = self;
        match (state, a) {
            (LaunchState::Over, _) => Self::stop(opts, Failure::Unexpected),
            (LaunchState::Stamping(e), Answer::Done) => Self::stop(opts, e),
            (LaunchState::Stamping(e), Answer::Failed(reason)) => (
                Launch { opts, state: LaunchState::Complaining(e) },
                Action::Print(Notice::StampNotWritten(reason)),
            ),
            (LaunchState::Complaining(e), Answer::Done) => Self::stop(opts, e),
            (LaunchState::Working(w), a) => Self::work(opts, w, a),
            (_, Answer::Failed(reason)) => Self::stop(opts, Failure::Outside(reason)),
            (LaunchState::ConfigDir, Answer::Done) => {
                let place = Place::Cluster(opts.name.clone());
                (Launch { opts, state: LaunchState::ClusterDir }, Action::Exists(place))
            },
            (LaunchState::ClusterDir, Answer::Exists(exists)) => {
                let name = opts.name.clone();
                if !exists {
                    (Launch { opts, state: LaunchState::Listing }, Action::ListConfigs)
                } else if opts.destroy {
                    let debug = opts.install_run_opts.log_debug;
                    (
                        Launch { opts, state: LaunchState::Destroying },
                        Action::Destroy(name, true, debug),
                    )
                } else {
                    Self::stop(opts, Failure::ClusterExists(name))
                }
            },
            (LaunchState::Destroying, Answer::Done) => (
                Launch { opts, state: LaunchState::Listing },
                Action::ListConfigs,
            ),
            (LaunchState::Listing, Answer::Names(names)) => {
                let configs = get_configs(&names);
                match select_config(&opts.config, &opts.platform, &configs) {
                    Err(e) => Self::stop(opts, e),
                    Ok(ConfigSource::Generate) => (
                        Launch { opts, state: LaunchState::Announcing },
                        Action::Print(Notice::NoConfigs),
                    ),
                    Ok(ConfigSource::Use(choice)) => Self::locate(opts, choice),
                }
            },
            (LaunchState::Announcing, Answer::Done) => {
                let gen_opts = opts.gen_config();
                (
                    Launch { opts, state: LaunchState::Generating },
                    Action::GenerateConfig(gen_opts),
                )
            },
            (LaunchState::Generating, Answer::Generated(name)) => Self::locate(
                opts,
                ConfigChoice::Generated(name),
            ),
            (LaunchState::Locating(choice), Answer::Exists(exists)) => {
                if exists {
                    Self::find(opts, ConfigFile::Chosen(choice))
                } else {
                    let file = ConfigFile::Full(choice.copy());
                    (
                        Launch { opts, state: LaunchState::LocatingFull(choice) },
                        Action::Exists(Place::Config(file)),
                    )
                }
            },
            (LaunchState::LocatingFull(choice), Answer::Exists(exists)) => {
                if exists {
                    Self::find(opts, ConfigFile::Full(choice))
                } else {
                    Self::stop(opts, Failure::NoSuchConfig(choice))
                }
            },
            (LaunchState::Fetching(file), Answer::Release(release)) => {
                let image = get_latest_release(release);
                let mut opts = opts;
                opts.release_image = Some(image.clone());
                (
                    Launch { opts, state: LaunchState::Releasing(file) },
                    Action::Print(Notice::UsingRelease(image)),
                )
            },
            (LaunchState::Releasing(file), Answer::Done) => (
                Launch { opts, state: LaunchState::Reading },
                Action::ReadConfig(Place::Config(file)),
            ),
            (LaunchState::Reading, Answer::Config(config)) => {
                if config.pull_secret.is_some() {
                    Self::begin(opts, config, None)
                } else {
                    (Launch { opts, state: LaunchState::Home(config) }, Action::FindHome)
                }
            },
            (LaunchState::Home(config), Answer::Home(found)) => {
                if found {
                    (
                        Launch { opts, state: LaunchState::SecretCheck(config) },
                        Action::Exists(Place::DockerConfig),
                    )
                } else {
                    Self::stop(opts, Failure::NoHome)
                }
            },
            (LaunchState::SecretCheck(config), Answer::Exists(exists)) => {
                if exists {
                    (
                        Launch { opts, state: LaunchState::SecretRead(config) },
                        Action::ReadText(Place::DockerConfig),
                    )
                } else {
                    Self::stop(opts, Failure::NoPullSecret)
                }
            },
            (LaunchState::SecretRead(config), Answer::Text(secret)) => Self::begin(
                opts,
                config,
                Some(secret),
            ),
            _ => Self::stop(opts, Failure::Unexpected),
        }
    }

    /// The state that the cluster is launched with, once it is known.
    pub fn launched(&self) -> (res: Option<&LaunchedConfig>)
        ensures
            match self.state {
                LaunchState::Working(w) => res == Some(&w.launched),
                _ => res is None,
            },
    {
        match &self.state {
            LaunchState::Working(w) => Some(&w.launched),
            _ => None,
        }
    }

    /// The call of the installer that is to do a task of the launch, in the
    /// directory of the cluster. `memory` and `cpus` are what the host answered,
    /// if it was asked.
    pub open spec fn spec_command(
        self,
        task: InstallerTask,
        memory: Result<u64, String>,
        cpus: Result<u32, String>,
    ) -> CommandView {
        launch_command(self.opts, memory, cpus).with_task(
            task,
            Place::Cluster(self.opts.name),
            self.opts.install_run_opts.log_debug,
        )
    }

    /// The installer that is to do a task of the launch, given what the host
    /// answered if it was asked.
    pub fn command_for(
        &self,
        task: InstallerTask,
        memory: Result<u64, String>,
        cpus: Result<u32, String>,
    ) -> (res: InstallerCommand)
        ensures
            res@ == self.spec_command(task, memory, cpus),
    {
        let mut cmd = launch_installer_for(&self.opts, memory, cpus);
        let dir = Place::Cluster(self.opts.name.clone());
        cmd.add_task(task, dir, self.opts.install_run_opts.log_debug);
        cmd
    }

    /// The installer that is to do a task of the launch. What the host answered,
    /// if it was asked, is in the call.
    pub fn command(&self, task: InstallerTask) -> (res: InstallerCommand)
        ensures
            exists|memory: Result<u64, String>, cpus: Result<u32, String>|
                res@ == #[trigger] self.spec_command(task, memory, cpus),
    {
        let mut cmd = cmd_launch_installer(&self.opts);
        let ghost base = cmd@;
        let dir = Place::Cluster(self.opts.name.clone());
        cmd.add_task(task, dir, self.opts.install_run_opts.log_debug);
        proof {
            let (memory, cpus) = choose|memory: Result<u64, String>, cpus: Result<u32, String>|
                base == #[trigger] launch_command(self.opts, memory, cpus);
            assert(cmd@ == self.spec_command(task, memory, cpus));
        }
        cmd
    }
}

} // verus!
