//! What holds of every launch, whatever it is answered.

use vstd::prelude::*;

use crate::dialogue::{Action, Answer};
use crate::failure::{Failure, Notice};
use crate::install_config::{InstallConfig, InstallConfigMachines, LaunchedConfig};
use crate::installer::{launch_command, InstallerOutcome, InstallerTask};
use crate::launch::{
    launch, launch_plan, launched_state, step_action, Launch, LaunchState, Stage, Step, Work,
};
use crate::names::{
    choice_is_looked_for_by_its_name, config_files, config_files_are_named_after, selected_config,
    ConfigFile, ConfigSource,
};
use crate::options::LaunchOpts;
use crate::place::{ClusterFile, Manifest, Place, Role};
use crate::platform::{ClusterSize, Platform};
use crate::text::optional_text;

verus! {

/// Whether a launch goes on behind its `k`th turn as it is answered: with what
/// `answer` returns.
pub open spec fn launch_turns(run: Seq<(Launch, Action)>, answers: Seq<Answer>, k: int) -> bool {
    !run[k].1.ends() && call_ensures(Launch::answer, (run[k].0, answers[k]), run[k + 1])
}

/// Whether `run` holds, in order, how a launch with these options stands and what
/// it asks for, where it is answered `answers`.
pub open spec fn is_launch(
    o: LaunchOpts,
    run: Seq<(Launch, Action)>,
    answers: Seq<Answer>,
) -> bool {
    &&& run.len() == answers.len() + 1
    &&& call_ensures(launch, (o,), run[0])
    &&& forall|k: int| 0 <= k < answers.len() ==> #[trigger] launch_turns(run, answers, k)
}

/// The names under which the user's manifests are copied before the `k`th turn, in
/// order.
pub open spec fn copied_names(run: Seq<(Launch, Action)>, k: int) -> Seq<String>
    decreases k,
{
    if k <= 0 {
        seq![]
    } else {
        match run[k - 1].1 {
            Action::CopyManifest(Place::InCluster(_, ClusterFile::Custom(name))) => copied_names(
                run,
                k - 1,
            ).push(name),
            _ => copied_names(run, k - 1),
        }
    }
}

/// Whether the options are those of the launch, with the release image of the
/// stream if they have one, which the release server told before the `k`th turn.
pub open spec fn are_resolved(
    o: LaunchOpts,
    run: Seq<(Launch, Action)>,
    answers: Seq<Answer>,
    k: int,
    opts: LaunchOpts,
) -> bool {
    &&& opts == (LaunchOpts { release_image: opts.release_image, ..o })
    &&& o.release_stream is None ==> opts.release_image == o.release_image
    &&& o.release_stream matches Some(stream) ==> exists|i: int|
        {
            &&& 0 <= i < k
            &&& (#[trigger] run[i]).1 == Action::FetchRelease(stream)
            &&& answers[i] matches Answer::Release(release)
            &&& opts.release_image == Some(release.pull_spec)
        }
}

/// Whether the work is that of a base configuration, which was read at the `j`th
/// turn.
spec fn works_on_base(
    run: Seq<(Launch, Action)>,
    answers: Seq<Answer>,
    k: int,
    j: int,
    opts: LaunchOpts,
    wk: Work,
) -> bool {
    &&& 0 <= j < k
    &&& run[j].0.state is Reading
    &&& answers[j] matches Answer::Config(base)
    &&& base.pull_secret is Some ==> wk.launched@ == launched_state(base@, None, opts)
    &&& base.pull_secret is None ==> {
        &&& j + 3 < k
        &&& answers[j + 3] matches Answer::Text(secret)
        &&& wk.launched@ == launched_state(base@, Some(secret@), opts)
    }
    &&& wk.steps@ == launch_plan(opts, base.platform.spec_platform())
    &&& wk.at < wk.steps@.len()
}

/// How the present step of a launch stands.
spec fn step_stands(
    o: LaunchOpts,
    run: Seq<(Launch, Action)>,
    k: int,
    opts: LaunchOpts,
    wk: Work,
) -> bool {
    let act = run[k].1;
    let copied_now = copied_names(run, k + 1);
    &&& match wk.stage {
        Stage::Asked => act == step_action(opts, wk.step()),
        Stage::MakingDir => wk.step() is OpenshiftDir && act == Action::MakeDir(
            Place::InCluster(o.name, ClusterFile::OpenshiftDir),
        ),
        Stage::Listing(copied) => {
            &&& wk.step() is CopyManifests
            &&& act is NextManifest
            &&& copied@ == copied_now
        },
        Stage::Copying(copied, name) => {
            &&& wk.step() is CopyManifests
            &&& act == Action::CopyManifest(Place::InCluster(o.name, ClusterFile::Custom(name)))
            &&& copied@.push(name) == copied_now
        },
        Stage::Telling => wk.step() is CopyManifests && (act matches Action::Print(
            Notice::CopiedManifests(_),
        )),
    }
    &&& wk.at < 6 || (wk.at == 6 && wk.stage is Asked) ==> copied_now.len() == 0
}

/// How a launch stands at its `k`th turn.
spec fn stands(
    o: LaunchOpts,
    run: Seq<(Launch, Action)>,
    answers: Seq<Answer>,
    k: int,
) -> bool {
    let (l, act) = run[k];
    let early = l.opts == o && copied_names(run, k + 1).len() == 0;
    let later = are_resolved(o, run, answers, k, l.opts) && copied_names(run, k + 1).len() == 0;
    match l.state {
        LaunchState::ConfigDir => early && k == 0 && act == Action::EnsureDir(Place::ConfigDir),
        LaunchState::ClusterDir => early && k == 1 && act == Action::Exists(
            Place::Cluster(o.name),
        ),
        LaunchState::Destroying => early && k >= 2 && act == Action::Destroy(
            o.name,
            true,
            o.install_run_opts.log_debug,
        ),
        LaunchState::Listing => early && k >= 2 && act == Action::ListConfigs,
        LaunchState::Announcing => early && k >= 3 && act == Action::Print(Notice::NoConfigs),
        LaunchState::Generating => early && k >= 3 && act == Action::GenerateConfig(o.spec_gen_config()),
        LaunchState::Locating(choice) => {
            &&& early
            &&& k >= 3
            &&& act == Action::Exists(Place::Config(ConfigFile::Chosen(choice)))
            &&& run[k - 1].1 is ListConfigs || run[k - 1].1 is GenerateConfig
        },
        LaunchState::LocatingFull(choice) => {
            &&& early
            &&& k >= 4
            &&& act == Action::Exists(Place::Config(ConfigFile::Full(choice)))
            &&& run[k - 1].1 == Action::Exists(Place::Config(ConfigFile::Chosen(choice)))
            &&& answers[k - 1] == Answer::Exists(false)
        },
        LaunchState::Fetching(file) => {
            &&& early
            &&& k >= 4
            &&& o.release_stream matches Some(stream)
            &&& act == Action::FetchRelease(stream)
            &&& run[k - 1].1 == Action::Exists(Place::Config(file))
            &&& answers[k - 1] == Answer::Exists(true)
        },
        LaunchState::Releasing(file) => {
            &&& later
            &&& k >= 5
            &&& o.release_stream is Some
            &&& run[k - 2].1 == Action::Exists(Place::Config(file))
            &&& answers[k - 2] == Answer::Exists(true)
            &&& answers[k - 1] matches Answer::Release(release)
            &&& act == Action::Print(Notice::UsingRelease(release.pull_spec))
        },
        LaunchState::Reading => {
            let i = if o.release_stream is Some {
                k - 3
            } else {
                k - 1
            };
            &&& later
            &&& i >= 3
            &&& act matches Action::ReadConfig(place)
            &&& place is Config
            &&& run[i].1 == Action::Exists(place)
            &&& answers[i] == Answer::Exists(true)
        },
        LaunchState::Home(base) => {
            &&& later
            &&& k >= 1
            &&& base.pull_secret is None
            &&& run[k - 1].0.state is Reading
            &&& answers[k - 1] == Answer::Config(base)
            &&& act == Action::FindHome
        },
        LaunchState::SecretCheck(base) => {
            &&& later
            &&& k >= 2
            &&& base.pull_secret is None
            &&& run[k - 2].0.state is Reading
            &&& answers[k - 2] == Answer::Config(base)
            &&& act == Action::Exists(Place::DockerConfig)
        },
        LaunchState::SecretRead(base) => {
            &&& later
            &&& k >= 3
            &&& base.pull_secret is None
            &&& run[k - 3].0.state is Reading
            &&& answers[k - 3] == Answer::Config(base)
            &&& act == Action::ReadText(Place::DockerConfig)
        },
        LaunchState::Working(wk) => {
            &&& are_resolved(o, run, answers, k, l.opts)
            &&& exists|j: int| #[trigger] works_on_base(run, answers, k, j, l.opts, wk)
            &&& step_stands(o, run, k, l.opts, wk)
        },
        LaunchState::Stamping(e) => act == Action::WriteStamp(
            Place::InCluster(o.name, ClusterFile::FailedStamp),
            e,
        ),
        LaunchState::Complaining(e) => {
            &&& k >= 1
            &&& act matches Action::Print(Notice::StampNotWritten(_))
            &&& run[k - 1].1 == Action::WriteStamp(
                Place::InCluster(o.name, ClusterFile::FailedStamp),
                e,
            )
        },
        LaunchState::Over => act.ends(),
    }
}

/// The options stay resolved.
proof fn resolved_stays(
    o: LaunchOpts,
    run: Seq<(Launch, Action)>,
    answers: Seq<Answer>,
    k: int,
    opts: LaunchOpts,
)
    requires
        are_resolved(o, run, answers, k, opts),
    ensures
        are_resolved(o, run, answers, k + 1, opts),
{
    if let Some(stream) = o.release_stream {
        let i = choose|i: int|
            {
                &&& 0 <= i < k
                &&& (#[trigger] run[i]).1 == Action::FetchRelease(stream)
                &&& answers[i] matches Answer::Release(release)
                &&& opts.release_image == Some(release.pull_spec)
            };
        assert(run[i].1 == Action::FetchRelease(stream));
    }
}

/// The next turn before the work begins.
proof fn stands_before_work(
    o: LaunchOpts,
    run: Seq<(Launch, Action)>,
    answers: Seq<Answer>,
    k: int,
)
    requires
        0 <= k < answers.len(),
        run.len() == answers.len() + 1,
        launch_turns(run, answers, k),
        stands(o, run, answers, k),
        !(run[k].0.state is Working),
    ensures
        stands(o, run, answers, k + 1),
{
    let (l, act) = run[k];
    let (n, asked) = run[k + 1];
    let a = answers[k];
    if are_resolved(o, run, answers, k, l.opts) {
        resolved_stays(o, run, answers, k, l.opts);
    }
    assert(copied_names(run, k + 2) == (match asked {
        Action::CopyManifest(Place::InCluster(_, ClusterFile::Custom(name))) => copied_names(
            run,
            k + 1,
        ).push(name),
        _ => copied_names(run, k + 1),
    }));
    if let LaunchState::Fetching(_) = l.state {
        if let Answer::Release(release) = a {
            assert(run[k].1 == Action::FetchRelease(o.release_stream->0));
            assert(are_resolved(o, run, answers, k + 1, n.opts));
        }
    }
    if let LaunchState::Working(wk) = n.state {
        let j = if l.state is Reading {
            k
        } else {
            k - 3
        };
        assert(works_on_base(run, answers, k + 1, j, n.opts, wk));
        assert(wk.step() == Step::ClusterDir);
        assert(step_stands(o, run, k + 1, n.opts, wk));
    }
}

/// The next turn of the work.
proof fn stands_at_work(
    o: LaunchOpts,
    run: Seq<(Launch, Action)>,
    answers: Seq<Answer>,
    k: int,
)
    requires
        0 <= k < answers.len(),
        run.len() == answers.len() + 1,
        launch_turns(run, answers, k),
        stands(o, run, answers, k),
        run[k].0.state is Working,
    ensures
        stands(o, run, answers, k + 1),
{
    let (l, act) = run[k];
    let (n, asked) = run[k + 1];
    let a = answers[k];
    let wk = l.state->Working_0;
    resolved_stays(o, run, answers, k, l.opts);
    assert(copied_names(run, k + 2) == (match asked {
        Action::CopyManifest(Place::InCluster(_, ClusterFile::Custom(name))) => copied_names(
            run,
            k + 1,
        ).push(name),
        _ => copied_names(run, k + 1),
    }));
    let j = choose|j: int| #[trigger] works_on_base(run, answers, k, j, l.opts, wk);
    assert(works_on_base(run, answers, k, j, l.opts, wk));
    assert(wk.steps.len() <= usize::MAX);
    assert(wk.step() is CopyManifests ==> wk.at == 6);
    if copied_names(run, k + 1).len() == 0 {
        assert(copied_names(run, k + 1) =~= seq![]);
    }
    if let LaunchState::Working(nw) = n.state {
        assert(works_on_base(run, answers, k + 1, j, n.opts, nw));
        assert(step_stands(o, run, k + 1, n.opts, nw));
    }
}

/// Every turn of a launch.
proof fn every_turn_stands(
    o: LaunchOpts,
    run: Seq<(Launch, Action)>,
    answers: Seq<Answer>,
    k: int,
)
    requires
        is_launch(o, run, answers),
        0 <= k < run.len(),
    ensures
        stands(o, run, answers, k),
    decreases k,
{
    if k > 0 {
        every_turn_stands(o, run, answers, k - 1);
        assert(launch_turns(run, answers, k - 1));
        if run[k - 1].0.state is Working {
            stands_at_work(o, run, answers, k - 1);
        } else {
            stands_before_work(o, run, answers, k - 1);
        }
    } else {
        assert(copied_names(run, 1) == copied_names(run, 0));
    }
}

/// How a launch goes on until its base configuration is to be read, by what it
/// asked and was answered. It looks for the directory of the cluster, which is
/// destroyed if it is there and that is wanted, and else ends the launch. Then the
/// configurations are listed: the one that the user named is looked for, whatever
/// platform is named; without any, one is generated; else the default of the
/// platform that the user named is looked for, or the only one that there is;
/// several are too many. What is looked for and not there is looked for once more
/// as `config-<name>.yaml`; what is found is read, after the latest release of the
/// stream was fetched if there is one.
pub proof fn launch_looks_for_its_base(
    o: LaunchOpts,
    run: Seq<(Launch, Action)>,
    answers: Seq<Answer>,
    k: int,
)
    requires
        is_launch(o, run, answers),
        0 <= k < answers.len(),
    ensures
        ({
            let next = run[k + 1].1;
            match (run[k].1, answers[k]) {
                (Action::EnsureDir(_), Answer::Done) => next == Action::Exists(
                    Place::Cluster(o.name),
                ),
                (Action::Exists(Place::Cluster(_)), Answer::Exists(exists)) => if !exists {
                    next == Action::ListConfigs
                } else if o.destroy {
                    next == Action::Destroy(o.name, true, o.install_run_opts.log_debug)
                } else {
                    next == Action::Fail(Failure::ClusterExists(o.name))
                },
                (Action::Destroy(_, _, _), Answer::Done) => next == Action::ListConfigs,
                (Action::ListConfigs, Answer::Names(names)) => {
                    let configs = config_files(names@);
                    match o.config {
                        Some(name) => next matches Action::Exists(Place::Config(file))
                            && file.spec_text() == name@,
                        None => if configs.len() == 0 {
                            next == Action::Print(Notice::NoConfigs)
                        } else {
                            match o.platform {
                                Some(platform) => next matches Action::Exists(Place::Config(file))
                                    && file.spec_text() == "config-"@ + platform.file_tag()
                                    + ".yaml"@,
                                None => if configs.len() == 1 {
                                    next matches Action::Exists(Place::Config(file))
                                        && file.spec_text() == configs[0]@
                                } else {
                                    next == Action::Fail(Failure::ManyConfigs)
                                },
                            }
                        },
                    }
                },
                (Action::Print(Notice::NoConfigs), Answer::Done) => {
                    &&& next matches Action::GenerateConfig(g)
                    &&& g.name is None
                    &&& !g.overwrite
                    &&& g.installer_version == o.install_run_opts.installer_version
                    &&& !g.libvirt_auto_size
                },
                (Action::GenerateConfig(_), Answer::Generated(name)) => next matches Action::Exists(
                    Place::Config(file),
                ) && file.spec_text() == name@,
                (Action::Exists(Place::Config(file)), Answer::Exists(exists)) => if exists {
                    match o.release_stream {
                        Some(stream) => next == Action::FetchRelease(stream),
                        None => next == Action::ReadConfig(Place::Config(file)),
                    }
                } else if run[k - 1].1 is ListConfigs || run[k - 1].1 is GenerateConfig {
                    next matches Action::Exists(Place::Config(full)) && full.spec_text()
                        == "config-"@ + file.spec_text() + ".yaml"@
                } else {
                    &&& run[k - 1].1 matches Action::Exists(Place::Config(first))
                    &&& next matches Action::Fail(Failure::NoSuchConfig(choice))
                    &&& choice.spec_text() == first.spec_text()
                },
                (Action::FetchRelease(_), Answer::Release(release)) => next == Action::Print(
                    Notice::UsingRelease(release.pull_spec),
                ),
                (Action::Print(Notice::UsingRelease(_)), Answer::Done) => {
                    &&& next matches Action::ReadConfig(place)
                    &&& run[k - 2].1 == Action::Exists(place)
                },
                _ => true,
            }
        }),
{
    every_turn_stands(o, run, answers, k);
    every_turn_stands(o, run, answers, k + 1);
    assert(launch_turns(run, answers, k));
    let l = run[k].0;
    match l.state {
        LaunchState::Listing => {
            if let Answer::Names(names) = answers[k] {
                let configs = config_files(names@);
                match selected_config(o.config, o.platform, configs) {
                    Ok(ConfigSource::Use(choice)) => {
                        choice_is_looked_for_by_its_name(arbitrary(), arbitrary(), choice);
                    },
                    _ => {},
                }
                if let Some(platform) = o.platform {
                    config_files_are_named_after(arbitrary(), platform);
                }
            }
        },
        LaunchState::Locating(choice) => {
            choice_is_looked_for_by_its_name(arbitrary(), arbitrary(), choice);
        },
        LaunchState::LocatingFull(choice) => {
            choice_is_looked_for_by_its_name(arbitrary(), arbitrary(), choice);
        },
        _ => {},
    }
}

/// The configuration that a launch reads is a file that it looked for before and
/// found, with a release stream and without: the first one that it looked for, or
/// `config-<name>.yaml` where that one was not there.
pub proof fn base_was_looked_for_and_found(
    o: LaunchOpts,
    run: Seq<(Launch, Action)>,
    answers: Seq<Answer>,
    k: int,
)
    requires
        is_launch(o, run, answers),
        0 <= k < run.len(),
    ensures
        run[k].1 matches Action::ReadConfig(place) ==> exists|i: int|
            {
                &&& 0 < i < k
                &&& (#[trigger] run[i]).1 == Action::Exists(place)
                &&& answers[i] == Answer::Exists(true)
                &&& place matches Place::Config(file)
                &&& {
                    ||| run[i - 1].1 is ListConfigs || run[i - 1].1 is GenerateConfig
                    ||| run[i - 1].1 matches Action::Exists(Place::Config(first)) && answers[i - 1]
                        == Answer::Exists(false) && file.spec_text() == "config-"@
                        + first.spec_text() + ".yaml"@
                }
            },
{
    every_turn_stands(o, run, answers, k);
    if run[k].1 is ReadConfig {
        let i = if o.release_stream is Some {
            k - 3
        } else {
            k - 1
        };
        every_turn_stands(o, run, answers, i);
        assert(launch_turns(run, answers, i));
        every_turn_stands(o, run, answers, i + 1);
        let place = run[k].1->ReadConfig_0;
        assert(run[i].1 == Action::Exists(place));
        match run[i].0.state {
            LaunchState::Locating(choice) => {},
            LaunchState::LocatingFull(choice) => {
                choice_is_looked_for_by_its_name(arbitrary(), arbitrary(), choice);
            },
            _ => {
                assert(false);
            },
        }
    }
}

/// How a launch goes on until the cluster's directory is made: a configuration
/// with a pull secret needs nothing more; for one without, the credentials in the
/// home directory are looked for and read.
pub proof fn launch_looks_for_a_pull_secret(
    o: LaunchOpts,
    run: Seq<(Launch, Action)>,
    answers: Seq<Answer>,
    k: int,
)
    requires
        is_launch(o, run, answers),
        0 <= k < answers.len(),
    ensures
        ({
            let next = run[k + 1].1;
            match (run[k].1, answers[k]) {
                (Action::ReadConfig(_), Answer::Config(base)) => if base.pull_secret is Some {
                    next == Action::MakeDir(Place::Cluster(o.name))
                } else {
                    next == Action::FindHome
                },
                (Action::FindHome, Answer::Home(found)) => if found {
                    next == Action::Exists(Place::DockerConfig)
                } else {
                    next == Action::Fail(Failure::NoHome)
                },
                (Action::Exists(Place::DockerConfig), Answer::Exists(exists)) => if exists {
                    next == Action::ReadText(Place::DockerConfig)
                } else {
                    next == Action::Fail(Failure::NoPullSecret)
                },
                (Action::ReadText(_), Answer::Text(_)) => next == Action::MakeDir(
                    Place::Cluster(o.name),
                ),
                _ => true,
            }
        }),
{
    every_turn_stands(o, run, answers, k);
    every_turn_stands(o, run, answers, k + 1);
    assert(launch_turns(run, answers, k));
}

/// Whether the base configuration was read before.
spec fn has_read(state: LaunchState) -> bool {
    state is Home || state is SecretCheck || state is SecretRead || state is Working
        || state is Stamping || state is Complaining || state is Over
}

/// A launch reads one base configuration.
proof fn base_is_read_once(
    o: LaunchOpts,
    run: Seq<(Launch, Action)>,
    answers: Seq<Answer>,
    j: int,
    k: int,
)
    requires
        is_launch(o, run, answers),
        0 <= j < k < run.len(),
        run[j].0.state is Reading,
    ensures
        has_read(run[k].0.state),
    decreases k,
{
    if k > j + 1 {
        base_is_read_once(o, run, answers, j, k - 1);
    }
    assert(launch_turns(run, answers, k - 1));
}

/// The base configuration of the work is the one that was read.
proof fn work_is_on_the_base(
    o: LaunchOpts,
    run: Seq<(Launch, Action)>,
    answers: Seq<Answer>,
    j: int,
    k: int,
)
    requires
        is_launch(o, run, answers),
        0 <= j < k < run.len(),
        run[j].1 is ReadConfig,
        run[k].0.state is Working,
    ensures
        works_on_base(run, answers, k, j, run[k].0.opts, run[k].0.state->Working_0),
{
    every_turn_stands(o, run, answers, j);
    every_turn_stands(o, run, answers, k);
    let wk = run[k].0.state->Working_0;
    let i = choose|i: int| #[trigger] works_on_base(run, answers, k, i, run[k].0.opts, wk);
    if i < j {
        base_is_read_once(o, run, answers, i, j);
    }
    if j < i {
        base_is_read_once(o, run, answers, j, i);
    }
}

/// How a launch goes on once its base configuration, which was read at the `j`th
/// turn, is known, by what it asked and was answered. In the cluster's directory
/// the state of the launch and the configuration are written; the installer is
/// asked for its version and makes its manifests. Into their directory, which is
/// made if it is not there, go the user's manifests if there are to be some, then
/// those of a single node, then those of libvirt. Then the installer creates the
/// cluster.
pub proof fn launch_works_in_order(
    o: LaunchOpts,
    run: Seq<(Launch, Action)>,
    answers: Seq<Answer>,
    j: int,
    base: InstallConfig,
    k: int,
)
    requires
        is_launch(o, run, answers),
        0 <= j < k < answers.len(),
        run[j].1 is ReadConfig,
        answers[j] == Answer::Config(base),
    ensures
        ({
            let next = run[k + 1].1;
            let file = |f: ClusterFile| Place::InCluster(o.name, f);
            let write_down = |m: Manifest| Action::WriteManifest(file(ClusterFile::Added(m)), m);
            let create = Action::RunInstaller(InstallerTask::CreateCluster);
            let autologin = if base.platform is Libvirt {
                write_down(Manifest::Autologin(Role::Master))
            } else {
                create
            };
            let added = if o.size == Some(ClusterSize::Single) {
                write_down(Manifest::SingleEtcd)
            } else {
                autologin
            };
            let in_dir = match o.manifests {
                Some(dir) => Action::OpenManifests(dir),
                None => added,
            };
            match (run[k].1, answers[k]) {
                (Action::MakeDir(Place::Cluster(_)), Answer::Done) => next
                    == Action::WriteLaunchedConfig(file(ClusterFile::LaunchedConfig)),
                (Action::WriteLaunchedConfig(_), Answer::Done) => next
                    == Action::WriteInstallConfig(file(ClusterFile::InstallConfig)),
                (Action::WriteInstallConfig(_), Answer::Done) => next == Action::RunInstaller(
                    InstallerTask::Version,
                ),
                (
                    Action::RunInstaller(InstallerTask::Version),
                    Answer::Ran(InstallerOutcome::Succeeded),
                ) => next == Action::RunInstaller(InstallerTask::CreateManifests),
                (
                    Action::RunInstaller(InstallerTask::CreateManifests),
                    Answer::Ran(InstallerOutcome::Succeeded),
                ) => next == Action::Exists(file(ClusterFile::OpenshiftDir)),
                (Action::Exists(Place::InCluster(_, _)), Answer::Exists(exists)) => if exists {
                    next == in_dir
                } else {
                    next == Action::MakeDir(file(ClusterFile::OpenshiftDir))
                },
                (Action::MakeDir(Place::InCluster(_, _)), Answer::Done) => next == in_dir,
                (Action::OpenManifests(_), Answer::Done) => next == Action::NextManifest,
                (Action::NextManifest, Answer::Entry(Some(entry))) => match entry.name {
                    Some(name) if entry.is_file => next == Action::CopyManifest(
                        file(ClusterFile::Custom(name)),
                    ),
                    _ => next == Action::NextManifest,
                },
                (Action::CopyManifest(_), Answer::Done) => next == Action::NextManifest,
                (Action::NextManifest, Answer::Entry(None)) => if copied_names(run, k).len() == 0 {
                    next matches Action::Fail(Failure::NoManifests(dir)) && o.manifests == Some(dir)
                } else {
                    next matches Action::Print(Notice::CopiedManifests(told)) && told@
                        == copied_names(run, k)
                },
                (Action::Print(Notice::CopiedManifests(_)), Answer::Done) => next == added,
                (Action::WriteManifest(_, Manifest::SingleEtcd), Answer::Done) => next == write_down(
                    Manifest::SingleIngress,
                ),
                (Action::WriteManifest(_, Manifest::SingleIngress), Answer::Done) => next
                    == autologin,
                (Action::WriteManifest(_, Manifest::Autologin(Role::Master)), Answer::Done) => next
                    == write_down(Manifest::Autologin(Role::Worker)),
                (Action::WriteManifest(_, Manifest::Autologin(Role::Worker)), Answer::Done) => next
                    == create,
                (
                    Action::RunInstaller(InstallerTask::CreateCluster),
                    Answer::Ran(InstallerOutcome::Succeeded),
                ) => next == Action::Finish,
                _ => true,
            }
        }),
{
    every_turn_stands(o, run, answers, j);
    every_turn_stands(o, run, answers, k);
    every_turn_stands(o, run, answers, k + 1);
    base_is_read_once(o, run, answers, j, k);
    assert(launch_turns(run, answers, k));
    if run[k].0.state is Working {
        let l = run[k].0;
        let wk = l.state->Working_0;
        work_is_on_the_base(o, run, answers, j, k);
        let plan = launch_plan(o, base.platform.spec_platform());
        plan_has_its_order(o, base.platform.spec_platform());
        assert(wk.steps@ == plan);
        assert(wk.steps.len() <= usize::MAX);
        assert(copied_names(run, k + 1) == (match run[k].1 {
            Action::CopyManifest(Place::InCluster(_, ClusterFile::Custom(name))) => copied_names(
                run,
                k,
            ).push(name),
            _ => copied_names(run, k),
        }));
    }
}

/// The plan of a launch, step by step: the user's manifests only if there are to be
/// some, those of a single node only for one, those of libvirt only there.
pub proof fn plan_has_its_order(o: LaunchOpts, platform: Platform)
    ensures
        ({
            let plan = launch_plan(o, platform);
            let c: int = if o.manifests is Some {
                1
            } else {
                0
            };
            let s: int = if o.size == Some(ClusterSize::Single) {
                2
            } else {
                0
            };
            let v: int = if platform == Platform::Libvirt {
                2
            } else {
                0
            };
            &&& plan.len() == 7 + c + s + v
            &&& plan[0] == Step::ClusterDir
            &&& plan[1] == Step::LaunchedConfig
            &&& plan[2] == Step::InstallConfig
            &&& plan[3] == Step::Run(InstallerTask::Version)
            &&& plan[4] == Step::Run(InstallerTask::CreateManifests)
            &&& plan[5] == Step::OpenshiftDir
            &&& c == 1 ==> plan[6] == Step::CopyManifests
            &&& s == 2 ==> plan[6 + c] == Step::Add(Manifest::SingleEtcd) && plan[7 + c]
                == Step::Add(Manifest::SingleIngress)
            &&& v == 2 ==> plan[6 + c + s] == Step::Add(Manifest::Autologin(Role::Master))
                && plan[7 + c + s] == Step::Add(Manifest::Autologin(Role::Worker))
            &&& plan[6 + c + s + v] == Step::Run(InstallerTask::CreateCluster)
        }),
{
}

/// A run of the installer that fails ends a launch with that failure. If it was to
/// create the cluster, the failure is written to the stamp in the cluster's
/// directory first, and reported even if that cannot be done. Whatever else could
/// not be done outside ends a launch with the reason.
pub proof fn failures_end_a_launch(
    o: LaunchOpts,
    run: Seq<(Launch, Action)>,
    answers: Seq<Answer>,
    k: int,
)
    requires
        is_launch(o, run, answers),
        0 <= k < answers.len(),
    ensures
        ({
            let next = run[k + 1].1;
            let stamp = Place::InCluster(o.name, ClusterFile::FailedStamp);
            match (run[k].1, answers[k]) {
                (Action::RunInstaller(task), Answer::Ran(InstallerOutcome::Failed)) => next == (
                if task == InstallerTask::CreateCluster {
                    Action::WriteStamp(stamp, Failure::InstallerFailed)
                } else {
                    Action::Fail(Failure::InstallerFailed)
                }),
                (Action::RunInstaller(task), Answer::Ran(InstallerOutcome::NotRun(reason))) => next
                    == (if task == InstallerTask::CreateCluster {
                    Action::WriteStamp(stamp, Failure::InstallerNotRun(reason))
                } else {
                    Action::Fail(Failure::InstallerNotRun(reason))
                }),
                (Action::WriteStamp(_, e), Answer::Done) => next == Action::Fail(e),
                (Action::WriteStamp(_, _), Answer::Failed(reason)) => next == Action::Print(
                    Notice::StampNotWritten(reason),
                ),
                (Action::Print(Notice::StampNotWritten(_)), Answer::Done) => run[k - 1].1 matches
                    Action::WriteStamp(_, e) && next == Action::Fail(e),
                (_, Answer::Failed(reason)) => next == Action::Fail(Failure::Outside(reason)),
                _ => true,
            }
        }),
{
    every_turn_stands(o, run, answers, k);
    every_turn_stands(o, run, answers, k + 1);
    assert(launch_turns(run, answers, k));
}

/// Whether a group of machines is the same, with the same settings.
pub open spec fn same_machines(a: InstallConfigMachines, b: InstallConfigMachines) -> bool {
    a.name@ == b.name@ && a.replicas == b.replicas && a.extra == b.extra
}

/// Whether two optional strings say the same.
pub open spec fn same_text(a: Option<String>, b: Option<String>) -> bool {
    match (a, b) {
        (Some(a), Some(b)) => a@ == b@,
        (None, None) => true,
        _ => false,
    }
}

/// The configuration that a cluster is launched with, field by field, made of the
/// base configuration that is answered: named after the cluster; with the machines
/// of the size if there is one, which are one or three masters and one group of
/// workers without a machine, and with those of the base otherwise; with the pull
/// secret of the base, or the credentials if the base has none; all else as in the
/// base. What is kept beside it is what the options say.
pub proof fn cluster_is_launched_as_asked(l: Launch, a: Answer, n: Launch, act: Action)
    requires
        call_ensures(Launch::answer, (l, a), (n, act)),
        !(l.state is Working),
    ensures
        n.state matches LaunchState::Working(w) ==> {
            let base = match l.state {
                LaunchState::SecretRead(base) => base,
                _ => a->Config_0,
            };
            let config = w.launched.config;
            &&& (l.state is Reading && a is Config && base.pull_secret is Some) || (
            l.state is SecretRead && a is Text)
            &&& config.metadata matches Some(metadata)
            &&& metadata.name@ == l.opts.name@
            &&& metadata.extra is None
            &&& config.control_plane.name@ == base.control_plane.name@
            &&& config.control_plane.extra == base.control_plane.extra
            &&& config.control_plane.replicas == (match l.opts.size {
                Some(ClusterSize::Single) => 1,
                Some(ClusterSize::Compact) => 3,
                None => base.control_plane.replicas,
            })
            &&& l.opts.size is Some ==> {
                &&& config.compute@.len() == 1
                &&& config.compute@[0].name@ == "worker"@
                &&& config.compute@[0].replicas == 0
                &&& config.compute@[0].extra is None
            }
            &&& l.opts.size is None ==> {
                &&& config.compute@.len() == base.compute@.len()
                &&& forall|i: int|
                    0 <= i < base.compute@.len() ==> same_machines(
                        #[trigger] config.compute@[i],
                        base.compute@[i],
                    )
            }
            &&& l.state is Reading ==> same_text(config.pull_secret, base.pull_secret)
            &&& a matches Answer::Text(secret) ==> (if base.pull_secret is Some {
                same_text(config.pull_secret, base.pull_secret)
            } else {
                config.pull_secret matches Some(injected) && injected@ == secret@
            })
            &&& config.api_version@ == base.api_version@
            &&& config.base_domain@ == base.base_domain@
            &&& config.platform == base.platform
            &&& same_text(config.ssh_key, base.ssh_key)
            &&& config.extra == base.extra
            &&& same_text(w.launched.installer_version, l.opts.install_run_opts.installer_version)
            &&& same_text(w.launched.release_image, l.opts.release_image)
            &&& same_text(w.launched.boot_image, l.opts.boot_image)
            &&& w.launched.libvirt_auto_size == l.opts.install_run_opts.libvirt_auto_size
        },
{
    if let LaunchState::Working(w) = n.state {
        let base = match l.state {
            LaunchState::SecretRead(base) => base,
            _ => a->Config_0,
        };
        let secret = match a {
            Answer::Text(secret) => Some(secret@),
            _ => None,
        };
        made_field_by_field(base, secret, l.opts, w.launched);
    }
}

/// What the views of a launched state and of its base say of their fields.
proof fn made_field_by_field(
    base: InstallConfig,
    secret: Option<Seq<char>>,
    opts: LaunchOpts,
    launched: LaunchedConfig,
)
    requires
        launched@ == launched_state(base@, secret, opts),
    ensures
        ({
            let config = launched.config;
            &&& config.metadata matches Some(metadata)
            &&& metadata.name@ == opts.name@
            &&& metadata.extra is None
            &&& config.control_plane.name@ == base.control_plane.name@
            &&& config.control_plane.extra == base.control_plane.extra
            &&& config.control_plane.replicas == (match opts.size {
                Some(ClusterSize::Single) => 1,
                Some(ClusterSize::Compact) => 3,
                None => base.control_plane.replicas,
            })
            &&& opts.size is Some ==> {
                &&& config.compute@.len() == 1
                &&& config.compute@[0].name@ == "worker"@
                &&& config.compute@[0].replicas == 0
                &&& config.compute@[0].extra is None
            }
            &&& opts.size is None ==> {
                &&& config.compute@.len() == base.compute@.len()
                &&& forall|i: int|
                    0 <= i < base.compute@.len() ==> same_machines(
                        #[trigger] config.compute@[i],
                        base.compute@[i],
                    )
            }
            &&& base.pull_secret is Some ==> same_text(config.pull_secret, base.pull_secret)
            &&& base.pull_secret is None ==> optional_text(config.pull_secret) == secret
            &&& config.api_version@ == base.api_version@
            &&& config.base_domain@ == base.base_domain@
            &&& config.platform == base.platform
            &&& same_text(config.ssh_key, base.ssh_key)
            &&& config.extra == base.extra
            &&& same_text(launched.installer_version, opts.install_run_opts.installer_version)
            &&& same_text(launched.release_image, opts.release_image)
            &&& same_text(launched.boot_image, opts.boot_image)
            &&& launched.libvirt_auto_size == opts.install_run_opts.libvirt_auto_size
        }),
{
    let config = launched.config;
    assert(launched@.config == config@);
    let machines = config.compute@.map_values(|m: InstallConfigMachines| m@);
    let base_machines = base.compute@.map_values(|m: InstallConfigMachines| m@);
    assert(config@.compute == machines);
    assert(base@.compute == base_machines);
    assert(machines.len() == config.compute@.len());
    if opts.size is None {
        assert forall|i: int| 0 <= i < base.compute@.len() implies same_machines(
            #[trigger] config.compute@[i],
            base.compute@[i],
        ) by {
            assert(machines[i] == config.compute@[i]@);
            assert(base_machines[i] == base.compute@[i]@);
        }
    } else {
        assert(machines.len() == 1);
        assert(machines[0] == config.compute@[0]@);
    }
}

/// Throughout its work a launch has the machines of its size, the name of its
/// cluster and the pull secret that was found, made of the base configuration that
/// was read at the `j`th turn.
pub proof fn cluster_stays_as_asked(
    o: LaunchOpts,
    run: Seq<(Launch, Action)>,
    answers: Seq<Answer>,
    j: int,
    base: InstallConfig,
    k: int,
)
    requires
        is_launch(o, run, answers),
        0 <= j < k < run.len(),
        run[j].1 is ReadConfig,
        answers[j] == Answer::Config(base),
    ensures
        run[k].0.state matches LaunchState::Working(w) ==> {
            let config = w.launched.config;
            &&& config.metadata matches Some(metadata)
            &&& metadata.name@ == o.name@
            &&& metadata.extra is None
            &&& config.control_plane.name@ == base.control_plane.name@
            &&& config.control_plane.extra == base.control_plane.extra
            &&& config.control_plane.replicas == (match o.size {
                Some(ClusterSize::Single) => 1,
                Some(ClusterSize::Compact) => 3,
                None => base.control_plane.replicas,
            })
            &&& o.size is Some ==> {
                &&& config.compute@.len() == 1
                &&& config.compute@[0].name@ == "worker"@
                &&& config.compute@[0].replicas == 0
                &&& config.compute@[0].extra is None
            }
            &&& o.size is None ==> {
                &&& config.compute@.len() == base.compute@.len()
                &&& forall|i: int|
                    0 <= i < base.compute@.len() ==> same_machines(
                        #[trigger] config.compute@[i],
                        base.compute@[i],
                    )
            }
            &&& base.pull_secret is Some ==> same_text(config.pull_secret, base.pull_secret)
            &&& base.pull_secret is None ==> {
                &&& run[j + 3].1 == Action::ReadText(Place::DockerConfig)
                &&& answers[j + 3] matches Answer::Text(secret)
                &&& config.pull_secret matches Some(injected)
                &&& injected@ == secret@
            }
            &&& config.api_version@ == base.api_version@
            &&& config.base_domain@ == base.base_domain@
            &&& config.platform == base.platform
            &&& same_text(config.ssh_key, base.ssh_key)
            &&& config.extra == base.extra
            &&& same_text(w.launched.installer_version, o.install_run_opts.installer_version)
            &&& same_text(w.launched.release_image, run[k].0.opts.release_image)
            &&& same_text(w.launched.boot_image, o.boot_image)
            &&& w.launched.libvirt_auto_size == o.install_run_opts.libvirt_auto_size
        },
{
    if let LaunchState::Working(w) = run[k].0.state {
        every_turn_stands(o, run, answers, k);
        work_is_on_the_base(o, run, answers, j, k);
        let secret = if base.pull_secret is Some {
            None
        } else {
            Some(answers[j + 3]->Text_0@)
        };
        made_field_by_field(base, secret, run[k].0.opts, w.launched);
        if base.pull_secret is None {
            every_turn_stands(o, run, answers, j);
            every_turn_stands(o, run, answers, j + 1);
            every_turn_stands(o, run, answers, j + 2);
            every_turn_stands(o, run, answers, j + 3);
            base_is_read_once(o, run, answers, j, j + 3);
            assert(launch_turns(run, answers, j));
            assert(launch_turns(run, answers, j + 1));
            assert(launch_turns(run, answers, j + 2));
            assert(launch_turns(run, answers, j + 3));
        }
    }
}

/// Throughout a launch its options are those that it began with, but for the
/// release image, which is that of the stream once the release server told it.
/// Whenever the installer is run, it is called as these options ask for, in the
/// directory of the cluster.
pub proof fn launch_keeps_its_options(
    o: LaunchOpts,
    run: Seq<(Launch, Action)>,
    answers: Seq<Answer>,
    k: int,
    task: InstallerTask,
    memory: Result<u64, String>,
    cpus: Result<u32, String>,
)
    requires
        is_launch(o, run, answers),
        0 <= k < run.len(),
        run[k].1 == Action::RunInstaller(task),
    ensures
        are_resolved(o, run, answers, k, run[k].0.opts),
        run[k].0.spec_command(task, memory, cpus) == launch_command(
            run[k].0.opts,
            memory,
            cpus,
        ).with_task(task, Place::Cluster(o.name), o.install_run_opts.log_debug),
{
    every_turn_stands(o, run, answers, k);
}

} // verus!
