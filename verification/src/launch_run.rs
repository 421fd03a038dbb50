//! How a launch goes from beginning to end.

use vstd::prelude::*;

use crate::dialogue::{Action, Answer, ManifestEntry};
use crate::failure::Failure;
use crate::install_config::InstallConfig;
use crate::installer::{launch_command, outcome_of, InstallerOutcome, InstallerTask};
use crate::launch::{
    added_manifests, launch_plan, step_action, Launch, LaunchState, Stage, Step, Work,
};
use crate::launch_laws::{
    installer_runs_on_plan, launch_stays_on_plan, on_plan, plan_is_in_order,
    success_means_a_created_cluster,
};
use crate::names::{
    config_files, selected_config, ConfigChoice, ConfigFile, ConfigSource,
};
use crate::options::LaunchOpts;
use crate::place::{ClusterFile, Place};
use crate::platform::Platform;
use crate::release::LatestRelease;

verus! {

/// What a launch finds outside, where everything that it asks to be done can be
/// done.
pub struct LaunchWorld {
    /// Whether the cluster is there already.
    pub cluster_exists: bool,
    /// The files in the configuration directory.
    pub names: Vec<Option<String>>,
    /// The name of the configuration that is generated.
    pub generated: String,
    /// Whether there is a file of the configuration's name.
    pub chosen_exists: bool,
    /// Whether there is a file `config-<name>.yaml`.
    pub full_exists: bool,
    pub release: LatestRelease,
    pub config: InstallConfig,
    pub has_home: bool,
    pub has_credentials: bool,
    pub credentials: String,
    /// Whether the installer made a directory for manifests.
    pub openshift_exists: bool,
    /// The files in the directory of the user's manifests.
    pub entries: Seq<ManifestEntry>,
    pub version: InstallerOutcome,
    pub create_manifests: InstallerOutcome,
    pub create_cluster: InstallerOutcome,
}

/// Whether the file is one of the user's manifests.
pub open spec fn is_manifest(entry: ManifestEntry) -> bool {
    entry.is_file && entry.name is Some
}

/// Whether there is a manifest among the files from the `k`th on.
pub open spec fn has_manifest(entries: Seq<ManifestEntry>, k: int) -> bool {
    exists|i: int| k <= i < entries.len() && is_manifest(#[trigger] entries[i])
}

impl LaunchWorld {
    /// How the installer's run ends.
    pub open spec fn outcome(self, task: InstallerTask) -> InstallerOutcome {
        match task {
            InstallerTask::CreateManifests => self.create_manifests,
            InstallerTask::CreateCluster => self.create_cluster,
            _ => self.version,
        }
    }

    /// The answer to what is asked, when `taken` of the user's manifests were
    /// taken before.
    pub open spec fn reply(self, action: Action, taken: nat) -> Answer {
        match action {
            Action::Exists(Place::Cluster(_)) => Answer::Exists(self.cluster_exists),
            Action::Exists(Place::Config(ConfigFile::Chosen(_))) => Answer::Exists(
                self.chosen_exists,
            ),
            Action::Exists(Place::Config(_)) => Answer::Exists(self.full_exists),
            Action::Exists(Place::DockerConfig) => Answer::Exists(self.has_credentials),
            Action::Exists(_) => Answer::Exists(self.openshift_exists),
            Action::ListConfigs => Answer::Names(self.names),
            Action::GenerateConfig(_) => Answer::Generated(self.generated),
            Action::FetchRelease(_) => Answer::Release(self.release),
            Action::ReadConfig(_) => Answer::Config(self.config),
            Action::FindHome => Answer::Home(self.has_home),
            Action::ReadText(_) => Answer::Text(self.credentials),
            Action::RunInstaller(task) => Answer::Ran(self.outcome(task)),
            Action::NextManifest => Answer::Entry(
                if taken < self.entries.len() {
                    Some(self.entries[taken as int])
                } else {
                    None
                },
            ),
            _ => Answer::Done,
        }
    }

    /// How a launch ends once it has its configuration: with the first of the
    /// installer's runs that fails, or because there are to be manifests of the
    /// user and there are none, or well.
    pub open spec fn work_result(self, o: LaunchOpts) -> Action {
        match outcome_of(self.version) {
            Err(e) => Action::Fail(e),
            Ok(_) => match outcome_of(self.create_manifests) {
                Err(e) => Action::Fail(e),
                Ok(_) => match o.manifests {
                    Some(dir) if !has_manifest(self.entries, 0) => Action::Fail(
                        Failure::NoManifests(dir),
                    ),
                    _ => match outcome_of(self.create_cluster) {
                        Err(e) => Action::Fail(e),
                        Ok(_) => Action::Finish,
                    },
                },
            },
        }
    }

    /// How a launch ends once the name of its base configuration is known: there
    /// must be such a file, and a pull secret in it or in the home directory.
    pub open spec fn config_result(self, o: LaunchOpts, choice: ConfigChoice) -> Action {
        if !self.chosen_exists && !self.full_exists {
            Action::Fail(Failure::NoSuchConfig(choice))
        } else if self.config.pull_secret is Some {
            self.work_result(o)
        } else if !self.has_home {
            Action::Fail(Failure::NoHome)
        } else if !self.has_credentials {
            Action::Fail(Failure::NoPullSecret)
        } else {
            self.work_result(o)
        }
    }

    /// How a launch ends.
    pub open spec fn result(self, o: LaunchOpts) -> Action {
        if self.cluster_exists && !o.destroy {
            Action::Fail(Failure::ClusterExists(o.name))
        } else {
            match selected_config(o.config, o.platform, config_files(self.names@)) {
                Err(e) => Action::Fail(e),
                Ok(ConfigSource::Generate) => self.config_result(
                    o,
                    ConfigChoice::Generated(self.generated),
                ),
                Ok(ConfigSource::Use(choice)) => self.config_result(o, choice),
            }
        }
    }
}

/// Whether the launch, which asks for `act`, ends with `end` after at most
/// `limit` answers of the world, when `taken` of the user's manifests were taken
/// before.
pub open spec fn ends_with(
    l: Launch,
    act: Action,
    w: LaunchWorld,
    taken: nat,
    limit: nat,
    end: Action,
) -> bool
    decreases limit,
{
    if act.ends() {
        act == end
    } else {
        &&& limit > 0
        &&& forall|n: Launch, asked: Action| #[trigger]
            l.turns(w.reply(act, taken), n, asked) ==> ends_with(
                n,
                asked,
                w,
                if act is NextManifest {
                    taken + 1
                } else {
                    taken
                },
                (limit - 1) as nat,
                end,
            )
    }
}

/// How a launch ends that has these steps still before it.
spec fn steps_result(w: LaunchWorld, o: LaunchOpts, steps: Seq<Step>) -> Action
    decreases steps.len(),
{
    if steps.len() == 0 {
        Action::Finish
    } else {
        let rest = steps_result(w, o, steps.skip(1));
        match steps[0] {
            Step::Run(task) => match outcome_of(w.outcome(task)) {
                Err(e) => Action::Fail(e),
                Ok(_) => rest,
            },
            Step::CopyManifests => match o.manifests {
                Some(dir) if !has_manifest(w.entries, 0) => Action::Fail(
                    Failure::NoManifests(dir),
                ),
                _ => rest,
            },
            _ => rest,
        }
    }
}

/// Whether the user's manifests are copied at most once.
spec fn copies_once(steps: Seq<Step>) -> bool {
    forall|i: int, j: int|
        0 <= i < j < steps.len() && #[trigger] steps[i] is CopyManifests ==> !(
        #[trigger] steps[j] is CopyManifests)
}

/// How many answers the steps need at most.
spec fn answers_needed(w: LaunchWorld, steps: int) -> int {
    steps * (2 * w.entries.len() + 5)
}

/// The work from a step on, when what the step asks first is not answered yet.
proof fn work_ends(l: Launch, wk: Work, w: LaunchWorld, taken: nat, limit: nat)
    requires
        l.state == LaunchState::Working(wk),
        wk.valid(),
        wk.stage is Asked,
        l.opts.manifests is Some || forall|j: int|
            0 <= j < wk.steps@.len() ==> !(#[trigger] wk.steps@[j] is CopyManifests),
        copies_once(wk.steps@),
        taken == 0 || forall|j: int|
            wk.at <= j < wk.steps@.len() ==> !(#[trigger] wk.steps@[j] is CopyManifests),
        limit >= answers_needed(w, wk.steps@.len() - wk.at),
    ensures
        ends_with(
            l,
            step_action(l.opts, wk.step()),
            w,
            taken,
            limit,
            steps_result(w, l.opts, wk.steps@.skip(wk.at as int)),
        ),
    decreases wk.steps@.len() - wk.at, 2int, 0int,
{
    let steps = wk.steps@.skip(wk.at as int);
    let act = step_action(l.opts, wk.step());
    let end = steps_result(w, l.opts, steps);
    assert(steps[0] == wk.step());
    assert(steps.skip(1) =~= wk.steps@.skip(wk.at + 1));
    assert(limit >= 5 + answers_needed(w, wk.steps@.len() - wk.at - 1)) by (nonlinear_arith)
        requires
            limit >= answers_needed(w, wk.steps@.len() - wk.at),
            answers_needed(w, wk.steps@.len() - wk.at) == (wk.steps@.len() - wk.at) * (2
                * w.entries.len() + 5),
            answers_needed(w, wk.steps@.len() - wk.at - 1) == (wk.steps@.len() - wk.at - 1) * (2
                * w.entries.len() + 5),
    ;
    assert(!act.ends());
    assert forall|n: Launch, asked: Action| #[trigger]
        l.turns(w.reply(act, taken), n, asked) implies ends_with(
        n,
        asked,
        w,
        taken,
        (limit - 1) as nat,
        end,
    ) by {
        match wk.step() {
            Step::OpenshiftDir => {
                if w.openshift_exists {
                    next_ends(l, wk, w, n, asked, taken, (limit - 1) as nat);
                } else {
                    assert forall|n2: Launch, asked2: Action| #[trigger]
                        n.turns(w.reply(asked, taken), n2, asked2) implies ends_with(
                        n2,
                        asked2,
                        w,
                        taken,
                        (limit - 2) as nat,
                        end,
                    ) by {
                        next_ends(
                            n,
                            wk.with(Stage::MakingDir),
                            w,
                            n2,
                            asked2,
                            taken,
                            (limit - 2) as nat,
                        );
                    }
                }
            },
            Step::Run(task) => {
                match outcome_of(w.outcome(task)) {
                    Ok(_) => {
                        next_ends(l, wk, w, n, asked, taken, (limit - 1) as nat);
                    },
                    Err(e) => {
                        if task == InstallerTask::CreateCluster {
                            assert forall|n2: Launch, asked2: Action| #[trigger]
                                n.turns(w.reply(asked, taken), n2, asked2) implies ends_with(
                                n2,
                                asked2,
                                w,
                                taken,
                                (limit - 2) as nat,
                                end,
                            ) by {
                                assert(asked2 == Action::Fail(e));
                            }
                        } else {
                            assert(asked == Action::Fail(e));
                        }
                    },
                }
            },
            Step::CopyManifests => {
                let nw = n.state->Working_0;
                assert(limit - 1 >= 2 * w.entries.len() + 3 + answers_needed(
                    w,
                    wk.steps@.len() - wk.at - 1,
                )) by (nonlinear_arith)
                    requires
                        limit >= answers_needed(w, wk.steps@.len() - wk.at),
                        answers_needed(w, wk.steps@.len() - wk.at) == (wk.steps@.len() - wk.at) * (2
                            * w.entries.len() + 5),
                        answers_needed(w, wk.steps@.len() - wk.at - 1) == (wk.steps@.len() - wk.at
                            - 1) * (2 * w.entries.len() + 5),
                ;
                copying_ends(n, nw, w, 0, (limit - 1) as nat);
            },
            _ => {
                next_ends(l, wk, w, n, asked, taken, (limit - 1) as nat);
            },
        }
    }
}

/// The launch after a step.
proof fn next_ends(
    l: Launch,
    wk: Work,
    w: LaunchWorld,
    n: Launch,
    asked: Action,
    taken: nat,
    limit: nat,
)
    requires
        wk.valid(),
        (n, asked) == l.advanced(wk),
        l.opts.manifests is Some || forall|j: int|
            0 <= j < wk.steps@.len() ==> !(#[trigger] wk.steps@[j] is CopyManifests),
        copies_once(wk.steps@),
        taken == 0 || forall|j: int|
            wk.at < j < wk.steps@.len() ==> !(#[trigger] wk.steps@[j] is CopyManifests),
        limit >= answers_needed(w, wk.steps@.len() - wk.at - 1),
    ensures
        ends_with(
            n,
            asked,
            w,
            taken,
            limit,
            steps_result(w, l.opts, wk.steps@.skip(wk.at + 1)),
        ),
    decreases wk.steps@.len() - wk.at, 0int, 0int,
{
    if wk.at + 1 < wk.steps@.len() {
        let nw = n.state->Working_0;
        assert(wk.steps.len() <= usize::MAX);
        work_ends(n, nw, w, taken, limit);
    } else {
        assert(wk.steps@.skip(wk.at + 1).len() == 0);
    }
}

/// The work while the user's manifests are copied.
proof fn copying_ends(l: Launch, wk: Work, w: LaunchWorld, taken: nat, limit: nat)
    requires
        l.state == LaunchState::Working(wk),
        wk.valid(),
        wk.step() is CopyManifests,
        l.opts.manifests is Some,
        wk.stage matches Stage::Listing(copied) && (copied@.len() > 0) == exists|i: int|
            0 <= i < taken && is_manifest(#[trigger] w.entries[i]),
        copies_once(wk.steps@),
        taken <= w.entries.len(),
        limit >= 2 * (w.entries.len() - taken) + 3 + answers_needed(
            w,
            wk.steps@.len() - wk.at - 1,
        ),
    ensures
        ends_with(
            l,
            Action::NextManifest,
            w,
            taken,
            limit,
            steps_result(w, l.opts, wk.steps@.skip(wk.at as int)),
        ),
    decreases wk.steps@.len() - wk.at, 1int, w.entries.len() - taken,
{
    let steps = wk.steps@.skip(wk.at as int);
    let end = steps_result(w, l.opts, steps);
    assert(steps[0] == wk.step());
    assert(steps.skip(1) =~= wk.steps@.skip(wk.at + 1));
    let act = Action::NextManifest;
    let copied = wk.stage->Listing_0;
    assert(answers_needed(w, wk.steps@.len() - wk.at - 1) >= 0) by (nonlinear_arith)
        requires
            answers_needed(w, wk.steps@.len() - wk.at - 1) == (wk.steps@.len() - wk.at - 1) * (2
                * w.entries.len() + 5),
            wk.steps@.len() - wk.at - 1 >= 0,
    ;
    assert forall|n: Launch, asked: Action| #[trigger]
        l.turns(w.reply(act, taken), n, asked) implies ends_with(
        n,
        asked,
        w,
        taken + 1,
        (limit - 1) as nat,
        end,
    ) by {
        if taken < w.entries.len() {
            let entry = w.entries[taken as int];
            if is_manifest(entry) {
                assert forall|n2: Launch, asked2: Action| #[trigger]
                    n.turns(w.reply(asked, taken + 1), n2, asked2) implies ends_with(
                    n2,
                    asked2,
                    w,
                    taken + 1,
                    (limit - 2) as nat,
                    end,
                ) by {
                    let nw = n2.state->Working_0;
                    assert(is_manifest(w.entries[taken as int]));
                    copying_ends(n2, nw, w, taken + 1, (limit - 2) as nat);
                }
            } else {
                let nw = n.state->Working_0;
                assert forall|i: int|
                    0 <= i < taken + 1 && is_manifest(#[trigger] w.entries[i]) implies i < taken by {
                }
                copying_ends(n, nw, w, taken + 1, (limit - 1) as nat);
            }
        } else {
            assert((copied@.len() > 0) == has_manifest(w.entries, 0)) by {
                if has_manifest(w.entries, 0) {
                    let i = choose|i: int|
                        0 <= i < w.entries.len() && is_manifest(#[trigger] w.entries[i]);
                    assert(0 <= i < taken && is_manifest(w.entries[i]));
                }
                if copied@.len() > 0 {
                    let i = choose|i: int| 0 <= i < taken && is_manifest(#[trigger] w.entries[i]);
                    assert(0 <= i < w.entries.len() && is_manifest(w.entries[i]));
                }
            }
            if copied@.len() > 0 {
                assert forall|n2: Launch, asked2: Action| #[trigger]
                    n.turns(w.reply(asked, taken + 1), n2, asked2) implies ends_with(
                    n2,
                    asked2,
                    w,
                    taken + 1,
                    (limit - 2) as nat,
                    end,
                ) by {
                    next_ends(
                        n,
                        wk.with(Stage::Telling),
                        w,
                        n2,
                        asked2,
                        taken + 1,
                        (limit - 2) as nat,
                    );
                }
            }
        }
    }
}

/// Steps that neither run the installer nor copy manifests decide nothing.
proof fn plain_steps_decide_nothing(w: LaunchWorld, o: LaunchOpts, plain: Seq<Step>, rest: Seq<Step>)
    requires
        forall|i: int|
            0 <= i < plain.len() ==> !(#[trigger] plain[i] is Run) && !(plain[i] is CopyManifests),
    ensures
        steps_result(w, o, plain + rest) == steps_result(w, o, rest),
    decreases plain.len(),
{
    if plain.len() == 0 {
        assert(plain + rest =~= rest);
    } else {
        assert((plain + rest).skip(1) =~= plain.skip(1) + rest);
        assert((plain + rest)[0] == plain[0]);
        plain_steps_decide_nothing(w, o, plain.skip(1), rest);
    }
}

/// How a launch that is at the beginning of its plan ends.
proof fn plan_result(w: LaunchWorld, o: LaunchOpts, platform: Platform)
    ensures
        steps_result(w, o, launch_plan(o, platform)) == w.work_result(o),
{
    let last = seq![Step::Run(InstallerTask::CreateCluster)];
    let added = added_manifests(o.size, platform);
    let tail = added + last;
    plain_steps_decide_nothing(w, o, added, last);
    assert(steps_result(w, o, last.skip(1)) == Action::Finish);
    assert(steps_result(w, o, last) == (match outcome_of(w.create_cluster) {
        Err(e) => Action::Fail(e),
        Ok(_) => Action::Finish,
    }));
    let copy = if o.manifests is Some {
        seq![Step::CopyManifests]
    } else {
        seq![]
    };
    let copying = copy + tail;
    if o.manifests is Some {
        assert(copying.skip(1) =~= tail);
        assert(steps_result(w, o, copying) == (if has_manifest(w.entries, 0) {
            steps_result(w, o, tail)
        } else {
            Action::Fail(Failure::NoManifests(o.manifests->0))
        }));
    } else {
        assert(copying =~= tail);
    }
    let dir = seq![Step::OpenshiftDir];
    plain_steps_decide_nothing(w, o, dir, copying);
    let third = seq![Step::Run(InstallerTask::CreateManifests)] + (dir + copying);
    assert(third.skip(1) =~= dir + copying);
    assert(steps_result(w, o, third) == (match outcome_of(w.create_manifests) {
        Err(e) => Action::Fail(e),
        Ok(_) => steps_result(w, o, copying),
    }));
    let second = seq![Step::Run(InstallerTask::Version)] + third;
    assert(second.skip(1) =~= third);
    assert(steps_result(w, o, second) == (match outcome_of(w.version) {
        Err(e) => Action::Fail(e),
        Ok(_) => steps_result(w, o, third),
    }));
    let first = seq![Step::ClusterDir, Step::LaunchedConfig, Step::InstallConfig];
    plain_steps_decide_nothing(w, o, first, second);
    assert(launch_plan(o, platform) =~= first + second);
}

/// The launch from the beginning of its plan on.
proof fn begun_ends(
    l: Launch,
    secret: Option<String>,
    w: LaunchWorld,
    n: Launch,
    asked: Action,
    limit: nat,
)
    requires
        l.begins(w.config, secret, n, asked),
        limit >= 12 * (2 * w.entries.len() + 5),
    ensures
        ends_with(n, asked, w, 0, limit, w.work_result(l.opts)),
{
    let wk = n.state->Working_0;
    let platform = w.config.platform.spec_platform();
    let plan = launch_plan(l.opts, platform);
    assert(plan.len() <= 12);
    assert(limit >= answers_needed(w, plan.len() as int)) by (nonlinear_arith)
        requires
            limit >= 12 * (2 * w.entries.len() + 5),
            plan.len() <= 12,
            answers_needed(w, plan.len() as int) == plan.len() * (2 * w.entries.len() + 5),
    ;
    work_ends(n, wk, w, 0, limit);
    assert(plan.skip(0) =~= plan);
    plan_result(w, l.opts, platform);
}

/// The launch from the reading of its base configuration on.
proof fn reading_ends(l: Launch, place: Place, w: LaunchWorld, limit: nat)
    requires
        l.state is Reading,
        limit >= 4 + 12 * (2 * w.entries.len() + 5),
        w.chosen_exists || w.full_exists,
    ensures
        forall|choice: ConfigChoice|
            ends_with(
                l,
                Action::ReadConfig(place),
                w,
                0,
                limit,
                #[trigger] w.config_result(l.opts, choice),
            ),
{
    let any = arbitrary::<ConfigChoice>();
    let end = w.config_result(l.opts, any);
    let act = Action::ReadConfig(place);
    assert forall|n: Launch, asked: Action| #[trigger]
        l.turns(w.reply(act, 0), n, asked) implies ends_with(
        n,
        asked,
        w,
        0,
        (limit - 1) as nat,
        end,
    ) by {
        if w.config.pull_secret is Some {
            begun_ends(l, None, w, n, asked, (limit - 1) as nat);
        } else {
            assert forall|n2: Launch, asked2: Action| #[trigger]
                n.turns(w.reply(asked, 0), n2, asked2) implies ends_with(
                n2,
                asked2,
                w,
                0,
                (limit - 2) as nat,
                end,
            ) by {
                if w.has_home {
                    assert forall|n3: Launch, asked3: Action| #[trigger]
                        n2.turns(w.reply(asked2, 0), n3, asked3) implies ends_with(
                        n3,
                        asked3,
                        w,
                        0,
                        (limit - 3) as nat,
                        end,
                    ) by {
                        if w.has_credentials {
                            assert forall|n4: Launch, asked4: Action| #[trigger]
                                n3.turns(w.reply(asked3, 0), n4, asked4) implies ends_with(
                                n4,
                                asked4,
                                w,
                                0,
                                (limit - 4) as nat,
                                end,
                            ) by {
                                begun_ends(
                                    n3,
                                    Some(w.credentials),
                                    w,
                                    n4,
                                    asked4,
                                    (limit - 4) as nat,
                                );
                            }
                        }
                    }
                }
            }
        }
    }
    assert forall|choice: ConfigChoice|
        #[trigger] w.config_result(l.opts, choice) == end by {}
}

/// The launch once the file of its base configuration is found.
proof fn found_ends(l: Launch, file: ConfigFile, w: LaunchWorld, limit: nat, choice: ConfigChoice)
    requires
        limit >= 6 + 12 * (2 * w.entries.len() + 5),
        w.chosen_exists || w.full_exists,
    ensures
        ends_with(l.found(file).0, l.found(file).1, w, 0, limit, w.config_result(l.opts, choice)),
{
    let end = w.config_result(l.opts, choice);
    let n = l.found(file).0;
    let act = l.found(file).1;
    if l.opts.release_stream is None {
        reading_ends(n, Place::Config(file), w, limit);
    } else {
        assert forall|n2: Launch, asked2: Action| #[trigger]
            n.turns(w.reply(act, 0), n2, asked2) implies ends_with(
            n2,
            asked2,
            w,
            0,
            (limit - 1) as nat,
            end,
        ) by {
            assert forall|n3: Launch, asked3: Action| #[trigger]
                n2.turns(w.reply(asked2, 0), n3, asked3) implies ends_with(
                n3,
                asked3,
                w,
                0,
                (limit - 2) as nat,
                end,
            ) by {
                reading_ends(n3, Place::Config(file), w, (limit - 2) as nat);
                assert(w.config_result(n3.opts, choice) == end);
            }
        }
    }
}

/// The launch once the name of its base configuration is known.
proof fn located_ends(l: Launch, choice: ConfigChoice, w: LaunchWorld, limit: nat)
    requires
        limit >= 8 + 12 * (2 * w.entries.len() + 5),
    ensures
        ends_with(
            l.located(choice).0,
            l.located(choice).1,
            w,
            0,
            limit,
            w.config_result(l.opts, choice),
        ),
{
    let end = w.config_result(l.opts, choice);
    let n = l.located(choice).0;
    let act = l.located(choice).1;
    assert forall|n2: Launch, asked2: Action| #[trigger]
        n.turns(w.reply(act, 0), n2, asked2) implies ends_with(
        n2,
        asked2,
        w,
        0,
        (limit - 1) as nat,
        end,
    ) by {
        if w.chosen_exists {
            found_ends(n, ConfigFile::Chosen(choice), w, (limit - 1) as nat, choice);
        } else {
            assert forall|n3: Launch, asked3: Action| #[trigger]
                n2.turns(w.reply(asked2, 0), n3, asked3) implies ends_with(
                n3,
                asked3,
                w,
                0,
                (limit - 2) as nat,
                end,
            ) by {
                if w.full_exists {
                    found_ends(n2, ConfigFile::Full(choice), w, (limit - 2) as nat, choice);
                }
            }
        }
    }
}

/// The launch once the configurations are listed.
proof fn listing_ends(l: Launch, w: LaunchWorld, limit: nat)
    requires
        l.state is Listing,
        limit >= 11 + 12 * (2 * w.entries.len() + 5),
        !w.cluster_exists || l.opts.destroy,
    ensures
        ends_with(l, Action::ListConfigs, w, 0, limit, w.result(l.opts)),
{
    let end = w.result(l.opts);
    let act = Action::ListConfigs;
    assert forall|n: Launch, asked: Action| #[trigger]
        l.turns(w.reply(act, 0), n, asked) implies ends_with(
        n,
        asked,
        w,
        0,
        (limit - 1) as nat,
        end,
    ) by {
        match selected_config(l.opts.config, l.opts.platform, config_files(w.names@)) {
            Err(_) => {},
            Ok(ConfigSource::Use(choice)) => {
                located_ends(l, choice, w, (limit - 1) as nat);
            },
            Ok(ConfigSource::Generate) => {
                assert forall|n2: Launch, asked2: Action| #[trigger]
                    n.turns(w.reply(asked, 0), n2, asked2) implies ends_with(
                    n2,
                    asked2,
                    w,
                    0,
                    (limit - 2) as nat,
                    end,
                ) by {
                    assert forall|n3: Launch, asked3: Action| #[trigger]
                        n2.turns(w.reply(asked2, 0), n3, asked3) implies ends_with(
                        n3,
                        asked3,
                        w,
                        0,
                        (limit - 3) as nat,
                        end,
                    ) by {
                        located_ends(
                            n2,
                            ConfigChoice::Generated(w.generated),
                            w,
                            (limit - 3) as nat,
                        );
                    }
                }
            },
        }
    }
}

/// Where all that is asked can be done, a launch ends as the configurations, the
/// pull secret, the installer and the user's manifests decide, after a number of
/// answers that only the number of those manifests has an influence on.
pub proof fn launch_does_what_it_promises(o: LaunchOpts, w: LaunchWorld)
    ensures
        ends_with(
            Launch { opts: o, state: LaunchState::ConfigDir },
            Action::EnsureDir(Place::ConfigDir),
            w,
            0,
            74 + 24 * w.entries.len(),
            w.result(o),
        ),
{
    let limit: nat = 74 + 24 * w.entries.len();
    let end = w.result(o);
    let l = Launch { opts: o, state: LaunchState::ConfigDir };
    let act = Action::EnsureDir(Place::ConfigDir);
    assert forall|n: Launch, asked: Action| #[trigger]
        l.turns(w.reply(act, 0), n, asked) implies ends_with(
        n,
        asked,
        w,
        0,
        (limit - 1) as nat,
        end,
    ) by {
        assert forall|n2: Launch, asked2: Action| #[trigger]
            n.turns(w.reply(asked, 0), n2, asked2) implies ends_with(
            n2,
            asked2,
            w,
            0,
            (limit - 2) as nat,
            end,
        ) by {
            if !w.cluster_exists {
                listing_ends(n2, w, (limit - 2) as nat);
            } else if o.destroy {
                assert forall|n3: Launch, asked3: Action| #[trigger]
                    n2.turns(w.reply(asked2, 0), n3, asked3) implies ends_with(
                    n3,
                    asked3,
                    w,
                    0,
                    (limit - 3) as nat,
                    end,
                ) by {
                    listing_ends(n3, w, (limit - 3) as nat);
                }
            }
        }
    }
}

/// How many of the user's manifests a run took before its `k`th turn.
pub open spec fn taken_before(run: Seq<(Launch, Action)>, k: int) -> nat
    decreases k,
{
    if k <= 0 {
        0
    } else if run[k - 1].1 is NextManifest {
        taken_before(run, k - 1) + 1
    } else {
        taken_before(run, k - 1)
    }
}

/// Whether a run goes on behind its `k`th turn as the world answers.
pub open spec fn goes_on(w: LaunchWorld, run: Seq<(Launch, Action)>, k: int) -> bool {
    &&& !run[k].1.ends()
    &&& run[k].0.turns(
        w.reply(run[k].1, taken_before(run, k)),
        run[k + 1].0,
        run[k + 1].1,
    )
}

/// Whether `run` holds, in order, how a launch with these options stands and what
/// it asks for, from its beginning on, where the world answers.
pub open spec fn is_launch_run(o: LaunchOpts, w: LaunchWorld, run: Seq<(Launch, Action)>) -> bool {
    &&& run.len() > 0
    &&& run[0] == (
        Launch { opts: o, state: LaunchState::ConfigDir },
        Action::EnsureDir(Place::ConfigDir),
    )
    &&& forall|k: int| 0 <= k < run.len() - 1 ==> #[trigger] goes_on(w, run, k)
}

/// Whether a run asks for `action` before its `k`th turn.
pub open spec fn asked_before(run: Seq<(Launch, Action)>, k: int, action: Action) -> bool {
    exists|j: int| 0 <= j < k && (#[trigger] run[j]).1 == action
}

/// The copying of one of the user's manifests to those of the cluster, under its
/// own name.
pub open spec fn copy_of(o: LaunchOpts, entry: ManifestEntry) -> Action {
    Action::CopyManifest(Place::InCluster(o.name, ClusterFile::Custom(entry.name->0)))
}

/// Whether the run, up to its `k`th turn, asks to copy the user's manifests among
/// the first `count` files.
spec fn copied_up_to(
    o: LaunchOpts,
    w: LaunchWorld,
    run: Seq<(Launch, Action)>,
    k: int,
    count: nat,
) -> bool {
    forall|i: int|
        0 <= i < count && i < w.entries.len() && is_manifest(#[trigger] w.entries[i])
            ==> asked_before(run, k + 1, copy_of(o, w.entries[i]))
}

/// What holds at the `k`th turn of a run that copies the user's manifests.
spec fn copies_in_order(
    o: LaunchOpts,
    w: LaunchWorld,
    run: Seq<(Launch, Action)>,
    k: int,
) -> bool {
    let l = run[k].0;
    let taken = taken_before(run, k);
    let all = w.entries.len();
    &&& on_plan(l)
    &&& l.opts.name == o.name
    &&& l.opts.manifests == o.manifests
    &&& match l.state {
        LaunchState::Working(wk) => {
            &&& run[k].1 is NextManifest == (wk.stage is Listing)
            &&& if wk.at < 6 {
                taken == 0
            } else if wk.at > 6 {
                copied_up_to(o, w, run, k, all)
            } else {
                match wk.stage {
                    Stage::Asked => taken == 0,
                    Stage::Listing(_) => copied_up_to(o, w, run, k, taken),
                    Stage::Copying(_, _) => copied_up_to(o, w, run, k, taken),
                    _ => copied_up_to(o, w, run, k, all),
                }
            }
        },
        LaunchState::Stamping(_) => true,
        LaunchState::Complaining(_) => true,
        LaunchState::Over => run[k].1 is Finish ==> copied_up_to(o, w, run, k, all),
        _ => taken == 0 && !(run[k].1 is NextManifest),
    }
}

/// With manifests of the user, these are the seventh step of the plan.
proof fn copying_is_the_seventh_step(l: Launch, wk: Work)
    requires
        on_plan(l),
        l.state == LaunchState::Working(wk),
        l.opts.manifests is Some,
    ensures
        wk.steps@.len() > 7,
        wk.steps@[6] == Step::CopyManifests,
        forall|j: int| 0 <= j < wk.steps@.len() && j != 6 ==> !(#[trigger] wk.steps@[j]
            is CopyManifests),
        wk.steps@.len() <= usize::MAX,
{
    assert(wk.steps.len() <= usize::MAX);
}

/// What was copied stays copied.
proof fn copied_stays(
    o: LaunchOpts,
    w: LaunchWorld,
    run: Seq<(Launch, Action)>,
    k: int,
    count: nat,
)
    requires
        copied_up_to(o, w, run, k, count),
    ensures
        copied_up_to(o, w, run, k + 1, count),
{
    assert forall|i: int|
        0 <= i < count && i < w.entries.len() && is_manifest(
            #[trigger] w.entries[i],
        ) implies asked_before(run, k + 2, copy_of(o, w.entries[i])) by {
        let j = choose|j: int|
            0 <= j < k + 1 && (#[trigger] run[j]).1 == copy_of(o, w.entries[i]);
        assert(0 <= j < k + 2 && run[j].1 == copy_of(o, w.entries[i]));
    }
}

/// The next turn of a run that copies the user's manifests.
proof fn copying_goes_on(o: LaunchOpts, w: LaunchWorld, run: Seq<(Launch, Action)>, k: int)
    requires
        o.manifests is Some,
        0 <= k < run.len() - 1,
        goes_on(w, run, k),
        copies_in_order(o, w, run, k),
    ensures
        copies_in_order(o, w, run, k + 1),
        run[k + 1].1 is CopyManifest ==> exists|i: int|
            0 <= i < w.entries.len() && is_manifest(#[trigger] w.entries[i]) && run[k + 1].1
                == copy_of(o, w.entries[i]),
{
    let (l, act) = run[k];
    let (n, asked) = run[k + 1];
    let taken = taken_before(run, k);
    let all = w.entries.len();
    let a = w.reply(act, taken);
    assert(taken_before(run, k + 1) == (if act is NextManifest {
        taken + 1
    } else {
        taken
    }));
    launch_stays_on_plan(l, a, n, asked);
    if let LaunchState::Working(wk) = l.state {
        copying_is_the_seventh_step(l, wk);
        if copied_up_to(o, w, run, k, all) {
            copied_stays(o, w, run, k, all);
        }
        if wk.at == 6 && wk.stage is Listing {
            copied_stays(o, w, run, k, taken);
            if taken < all {
                let entry = w.entries[taken as int];
                if is_manifest(entry) {
                    assert(asked == copy_of(o, entry));
                    assert(asked_before(run, k + 2, copy_of(o, entry)));
                }
                assert(copied_up_to(o, w, run, k + 1, taken + 1));
            }
        }
        if wk.at == 6 && wk.stage is Copying {
            copied_stays(o, w, run, k, taken);
        }
    }
}

/// Every turn of a run that copies the user's manifests.
proof fn every_turn_copies_in_order(
    o: LaunchOpts,
    w: LaunchWorld,
    run: Seq<(Launch, Action)>,
    k: int,
)
    requires
        o.manifests is Some,
        is_launch_run(o, w, run),
        0 <= k < run.len(),
    ensures
        copies_in_order(o, w, run, k),
    decreases k,
{
    if k > 0 {
        every_turn_copies_in_order(o, w, run, k - 1);
        assert(goes_on(w, run, k - 1));
        copying_goes_on(o, w, run, k - 1);
    }
}

/// Every regular file in the directory of the user's manifests whose name is text
/// is copied, under its own name, before the cluster is created and before a
/// launch succeeds; and nothing else is copied.
pub proof fn manifests_are_copied_before_the_creation(
    o: LaunchOpts,
    w: LaunchWorld,
    run: Seq<(Launch, Action)>,
    k: int,
)
    requires
        o.manifests is Some,
        is_launch_run(o, w, run),
        0 <= k < run.len(),
    ensures
        run[k].1 == Action::RunInstaller(InstallerTask::CreateCluster) || run[k].1 is Finish ==> (
        forall|i: int|
            0 <= i < w.entries.len() && is_manifest(#[trigger] w.entries[i]) ==> asked_before(
                run,
                k,
                copy_of(o, w.entries[i]),
            )),
        run[k].1 is CopyManifest ==> exists|i: int|
            0 <= i < w.entries.len() && is_manifest(#[trigger] w.entries[i]) && run[k].1
                == copy_of(o, w.entries[i]),
{
    every_turn_copies_in_order(o, w, run, k);
    if k > 0 {
        every_turn_copies_in_order(o, w, run, k - 1);
        assert(goes_on(w, run, k - 1));
        copying_goes_on(o, w, run, k - 1);
        let l = run[k - 1].0;
        let n = run[k].0;
        let a = w.reply(run[k - 1].1, taken_before(run, k - 1));
        installer_runs_on_plan(l, a, n, run[k].1);
        success_means_a_created_cluster(l, a, n, run[k].1);
        if let LaunchState::Working(wk) = n.state {
            copying_is_the_seventh_step(n, wk);
            plan_is_in_order(n.opts, wk.launched@.config.platform.spec_platform());
        }
        let all = w.entries.len();
        if run[k].1 == Action::RunInstaller(InstallerTask::CreateCluster) || run[k].1 is Finish {
            assert(copied_up_to(o, w, run, k, all));
            assert forall|i: int|
                0 <= i < w.entries.len() && is_manifest(
                    #[trigger] w.entries[i],
                ) implies asked_before(run, k, copy_of(o, w.entries[i])) by {
                let j = choose|j: int|
                    0 <= j < k + 1 && (#[trigger] run[j]).1 == copy_of(o, w.entries[i]);
                assert(run[k].1 != copy_of(o, w.entries[i]));
                assert(0 <= j < k && run[j].1 == copy_of(o, w.entries[i]));
            }
        }
    }
}

/// The tasks that a run asks the installer to do up to its `k`th turn, in order.
pub open spec fn tasks_up_to(run: Seq<(Launch, Action)>, k: int) -> Seq<InstallerTask>
    decreases k + 1,
{
    if k < 0 {
        seq![]
    } else {
        match run[k].1 {
            Action::RunInstaller(task) => tasks_up_to(run, k - 1).push(task),
            _ => tasks_up_to(run, k - 1),
        }
    }
}

impl LaunchWorld {
    /// The options with the release image of their stream, if they have one.
    pub open spec fn resolved(self, o: LaunchOpts) -> LaunchOpts {
        match o.release_stream {
            Some(_) => LaunchOpts { release_image: Some(self.release.pull_spec), ..o },
            None => o,
        }
    }
}

/// The tasks that are asked for until the step `at` of a plan of `count` steps is
/// begun.
spec fn tasks_of_plan(at: int, count: int) -> Seq<InstallerTask> {
    if at == count - 1 {
        seq![InstallerTask::Version, InstallerTask::CreateManifests, InstallerTask::CreateCluster]
    } else if at >= 4 {
        seq![InstallerTask::Version, InstallerTask::CreateManifests]
    } else if at == 3 {
        seq![InstallerTask::Version]
    } else {
        seq![]
    }
}

/// What holds of the installer's runs at the `k`th turn of a run.
spec fn calls_in_order(
    o: LaunchOpts,
    w: LaunchWorld,
    run: Seq<(Launch, Action)>,
    k: int,
) -> bool {
    let l = run[k].0;
    let tasks = tasks_up_to(run, k);
    &&& on_plan(l)
    &&& match l.state {
        LaunchState::Working(wk) => {
            &&& l.opts == w.resolved(o)
            &&& tasks == tasks_of_plan(wk.at as int, wk.steps@.len() as int)
        },
        LaunchState::Releasing(_) => l.opts == w.resolved(o) && tasks.len() == 0,
        LaunchState::Reading => l.opts == w.resolved(o) && tasks.len() == 0,
        LaunchState::Home(_) => l.opts == w.resolved(o) && tasks.len() == 0,
        LaunchState::SecretCheck(_) => l.opts == w.resolved(o) && tasks.len() == 0,
        LaunchState::SecretRead(_) => l.opts == w.resolved(o) && tasks.len() == 0,
        LaunchState::Fetching(_) => l.opts == o && o.release_stream is Some && tasks.len() == 0,
        LaunchState::Stamping(_) => true,
        LaunchState::Complaining(_) => true,
        LaunchState::Over => run[k].1 is Finish ==> tasks == tasks_of_plan(0, 1),
        _ => l.opts == o && tasks.len() == 0,
    }
}

/// The next turn of a run.
proof fn calls_go_on(o: LaunchOpts, w: LaunchWorld, run: Seq<(Launch, Action)>, k: int)
    requires
        0 <= k < run.len() - 1,
        goes_on(w, run, k),
        calls_in_order(o, w, run, k),
    ensures
        calls_in_order(o, w, run, k + 1),
        run[k + 1].1 is RunInstaller ==> run[k + 1].0.opts == w.resolved(o),
{
    let (l, act) = run[k];
    let (n, asked) = run[k + 1];
    let a = w.reply(act, taken_before(run, k));
    launch_stays_on_plan(l, a, n, asked);
    installer_runs_on_plan(l, a, n, asked);
    success_means_a_created_cluster(l, a, n, asked);
    let before = tasks_up_to(run, k);
    assert(tasks_up_to(run, k + 1) == (match asked {
        Action::RunInstaller(task) => before.push(task),
        _ => before,
    }));
    if let LaunchState::Working(wk) = l.state {
        plan_is_in_order(l.opts, wk.launched@.config.platform.spec_platform());
    }
    if let LaunchState::Working(nw) = n.state {
        plan_is_in_order(n.opts, nw.launched@.config.platform.spec_platform());
        assert(tasks_up_to(run, k + 1) =~= tasks_of_plan(nw.at as int, nw.steps@.len() as int));
    }
}

/// Every turn of a run.
proof fn every_turn_calls_in_order(
    o: LaunchOpts,
    w: LaunchWorld,
    run: Seq<(Launch, Action)>,
    k: int,
)
    requires
        is_launch_run(o, w, run),
        0 <= k < run.len(),
    ensures
        calls_in_order(o, w, run, k),
        run[k].1 is RunInstaller ==> run[k].0.opts == w.resolved(o),
    decreases k,
{
    if k > 0 {
        every_turn_calls_in_order(o, w, run, k - 1);
        assert(goes_on(w, run, k - 1));
        calls_go_on(o, w, run, k - 1);
    } else {
        assert(tasks_up_to(run, -1) == Seq::<InstallerTask>::empty());
    }
}

/// A launch that succeeds runs the installer three times: for its version, for
/// its manifests, and to create the cluster.
pub proof fn successful_launch_runs_the_installer_three_times(
    o: LaunchOpts,
    w: LaunchWorld,
    run: Seq<(Launch, Action)>,
)
    requires
        is_launch_run(o, w, run),
        run.last().1 is Finish,
    ensures
        tasks_up_to(run, run.len() - 1) == seq![
            InstallerTask::Version,
            InstallerTask::CreateManifests,
            InstallerTask::CreateCluster,
        ],
{
    let k = run.len() - 1;
    every_turn_calls_in_order(o, w, run, k);
    if k > 0 {
        every_turn_calls_in_order(o, w, run, k - 1);
        assert(goes_on(w, run, k - 1));
        let a = w.reply(run[k - 1].1, taken_before(run, k - 1));
        success_means_a_created_cluster(run[k - 1].0, a, run[k].0, run[k].1);
    }
}

/// Whenever a launch runs the installer, it is the one that the options ask for,
/// with the release image of the stream if there is one, working in the directory
/// named after the cluster.
pub proof fn launch_calls_the_installer_as_asked(
    o: LaunchOpts,
    w: LaunchWorld,
    run: Seq<(Launch, Action)>,
    k: int,
    memory: Result<u64, String>,
    cpus: Result<u32, String>,
)
    requires
        is_launch_run(o, w, run),
        0 <= k < run.len(),
    ensures
        run[k].1 matches Action::RunInstaller(task) ==> run[k].0.spec_command(task, memory, cpus)
            == launch_command(w.resolved(o), memory, cpus).with_task(
            task,
            Place::Cluster(o.name),
            o.install_run_opts.log_debug,
        ),
{
    every_turn_calls_in_order(o, w, run, k);
}

} // verus!
