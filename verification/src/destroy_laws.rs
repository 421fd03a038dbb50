//! What holds of every destruction, whatever it is answered.

use vstd::prelude::*;

use crate::destroy::{destroy, Destroy, DestroyState};
use crate::dialogue::{Action, Answer};
use crate::failure::{Failure, Notice};
use crate::installer::{base_command, InstallerOutcome, InstallerTask};
use crate::place::{ClusterFile, Place};
use crate::text::optional_text;

verus! {

/// Whether a destruction goes on behind its `k`th turn as it is answered: with what
/// `answer` returns.
pub open spec fn destruction_turns(
    run: Seq<(Destroy, Action)>,
    answers: Seq<Answer>,
    k: int,
) -> bool {
    !run[k].1.ends() && call_ensures(Destroy::answer, (run[k].0, answers[k]), run[k + 1])
}

/// Whether `run` holds, in order, how the destruction of a cluster stands and what
/// it asks for, where it is answered `answers`.
pub open spec fn is_destruction(
    name: String,
    force: bool,
    debug: bool,
    run: Seq<(Destroy, Action)>,
    answers: Seq<Answer>,
) -> bool {
    &&& run.len() == answers.len() + 1
    &&& call_ensures(destroy, (&name, force, debug), run[0])
    &&& forall|k: int| 0 <= k < answers.len() ==> #[trigger] destruction_turns(run, answers, k)
}

/// How a destruction stands at its `k`th turn.
spec fn stands(
    name: String,
    force: bool,
    debug: bool,
    run: Seq<(Destroy, Action)>,
    answers: Seq<Answer>,
    k: int,
) -> bool {
    let (d, act) = run[k];
    let file = |f: ClusterFile| Place::InCluster(name, f);
    &&& d.name == name
    &&& d.force == force
    &&& d.debug == debug
    &&& match d.state {
        DestroyState::ConfigDir => k == 0 && act == Action::EnsureDir(Place::ConfigDir),
        DestroyState::ClusterDir => k == 1 && act == Action::Exists(Place::Cluster(name)),
        DestroyState::Reading => k == 2 && act == Action::ReadLaunchedConfig(
            file(ClusterFile::LaunchedConfig),
        ),
        DestroyState::Warned => k == 3 && act == Action::Print(Notice::NoLaunchedConfig(name)),
        DestroyState::Preparing => k >= 3 && act == Action::PrepareInstaller(
            InstallerTask::DestroyCluster,
        ),
        DestroyState::Metadata => k >= 3 && act == Action::Exists(file(ClusterFile::Metadata)),
        DestroyState::Stamp(has_metadata) => {
            &&& k >= 4
            &&& act == Action::Exists(file(ClusterFile::FailedStamp))
            &&& run[k - 1].1 == Action::Exists(file(ClusterFile::Metadata))
            &&& answers[k - 1] == Answer::Exists(has_metadata)
        },
        DestroyState::Running => k >= 3 && act == Action::RunInstaller(
            InstallerTask::DestroyCluster,
        ),
        DestroyState::Told => {
            &&& k >= 3
            &&& act == Action::Print(Notice::DestroyFailed) || act == Action::Print(
                Notice::NeverInstalled(name),
            ) || act == Action::Print(Notice::NoTrace(name))
        },
        DestroyState::Removing => k >= 3 && act == Action::RemoveDir(Place::Cluster(name)),
        DestroyState::Over => act.ends(),
    }
    &&& k <= 2 ==> d.installer_version is None && !d.libvirt_auto_size
    &&& k >= 3 && !(d.state is Over) ==> {
        &&& answers[2] matches Answer::Launched(launched)
        &&& launched matches Some(l) ==> d.installer_version == l.installer_version
            && d.libvirt_auto_size == l.libvirt_auto_size
        &&& launched is None ==> d.installer_version is None && !d.libvirt_auto_size
    }
}

/// Every turn of a destruction.
proof fn every_turn_stands(
    name: String,
    force: bool,
    debug: bool,
    run: Seq<(Destroy, Action)>,
    answers: Seq<Answer>,
    k: int,
)
    requires
        is_destruction(name, force, debug, run, answers),
        0 <= k < run.len(),
    ensures
        stands(name, force, debug, run, answers, k),
    decreases k,
{
    if k > 0 {
        every_turn_stands(name, force, debug, run, answers, k - 1);
        assert(destruction_turns(run, answers, k - 1));
    }
}

/// What a destruction asks next, by what it asked and was answered. It looks for
/// the directory of the cluster, and ends if that is not there; reads what the
/// cluster was launched with, and warns if that is not known; prepares the
/// installer; looks for what the installer remembers and for the failure stamp. The
/// installer runs exactly if it remembers the cluster; if it fails or cannot be
/// run, that ends the destruction unless it is forced. Then the directory of the
/// cluster is removed. What could not be done outside ends it with the reason.
pub proof fn destruction_asks_in_order(
    name: String,
    force: bool,
    debug: bool,
    run: Seq<(Destroy, Action)>,
    answers: Seq<Answer>,
    k: int,
)
    requires
        is_destruction(name, force, debug, run, answers),
        0 <= k < answers.len(),
    ensures
        ({
            let next = run[k + 1].1;
            let file = |f: ClusterFile| Place::InCluster(name, f);
            match (run[k].1, answers[k]) {
                (_, Answer::Failed(reason)) => next == Action::Fail(Failure::Outside(reason)),
                (Action::EnsureDir(_), Answer::Done) => next == Action::Exists(
                    Place::Cluster(name),
                ),
                (Action::Exists(Place::Cluster(_)), Answer::Exists(exists)) => if exists {
                    next == Action::ReadLaunchedConfig(file(ClusterFile::LaunchedConfig))
                } else {
                    next == Action::Fail(Failure::NoSuchCluster(name))
                },
                (Action::ReadLaunchedConfig(_), Answer::Launched(launched)) => if launched is Some {
                    next == Action::PrepareInstaller(InstallerTask::DestroyCluster)
                } else {
                    next == Action::Print(Notice::NoLaunchedConfig(name))
                },
                (Action::Print(Notice::NoLaunchedConfig(_)), Answer::Done) => next
                    == Action::PrepareInstaller(InstallerTask::DestroyCluster),
                (Action::PrepareInstaller(_), Answer::Done) => next == Action::Exists(
                    file(ClusterFile::Metadata),
                ),
                (
                    Action::Exists(Place::InCluster(_, ClusterFile::Metadata)),
                    Answer::Exists(_),
                ) => next == Action::Exists(file(ClusterFile::FailedStamp)),
                (
                    Action::Exists(Place::InCluster(_, ClusterFile::FailedStamp)),
                    Answer::Exists(failed),
                ) => {
                    &&& answers[k - 1] == Answer::Exists(true) ==> next == Action::RunInstaller(
                        InstallerTask::DestroyCluster,
                    )
                    &&& answers[k - 1] == Answer::Exists(false) && failed ==> next == Action::Print(
                        Notice::NeverInstalled(name),
                    )
                    &&& answers[k - 1] == Answer::Exists(false) && !failed ==> next
                        == Action::Print(Notice::NoTrace(name))
                },
                (Action::RunInstaller(_), Answer::Ran(InstallerOutcome::Succeeded)) => next
                    == Action::RemoveDir(Place::Cluster(name)),
                (Action::RunInstaller(_), Answer::Ran(InstallerOutcome::Failed)) => if force {
                    next == Action::Print(Notice::DestroyFailed)
                } else {
                    next == Action::Fail(Failure::InstallerFailed)
                },
                (Action::RunInstaller(_), Answer::Ran(InstallerOutcome::NotRun(reason))) =>
                    if force {
                    next == Action::Print(Notice::DestroyFailed)
                } else {
                    next == Action::Fail(Failure::InstallerNotRun(reason))
                },
                (Action::Print(_), Answer::Done) => next == Action::RemoveDir(
                    Place::Cluster(name),
                ),
                (Action::RemoveDir(_), Answer::Done) => next == Action::Finish,
                _ => true,
            }
        }),
{
    every_turn_stands(name, force, debug, run, answers, k);
    every_turn_stands(name, force, debug, run, answers, k + 1);
    assert(destruction_turns(run, answers, k));
}

/// Whatever a destruction removes is the directory of its own cluster, after that
/// was looked for and found.
pub proof fn removal_was_looked_for(
    name: String,
    force: bool,
    debug: bool,
    run: Seq<(Destroy, Action)>,
    answers: Seq<Answer>,
    k: int,
)
    requires
        is_destruction(name, force, debug, run, answers),
        0 <= k < run.len(),
    ensures
        run[k].1 matches Action::RemoveDir(place) ==> {
            &&& place == Place::Cluster(name)
            &&& run[1].1 == Action::Exists(place)
            &&& answers[1] == Answer::Exists(true)
        },
{
    every_turn_stands(name, force, debug, run, answers, k);
    if k >= 3 && !(run[k].0.state is Over) {
        every_turn_stands(name, force, debug, run, answers, 1);
        every_turn_stands(name, force, debug, run, answers, 2);
        assert(destruction_turns(run, answers, 0));
        assert(destruction_turns(run, answers, 1));
        assert(destruction_turns(run, answers, 2));
    }
}

/// When the installer is prepared or run, it is the one that the cluster was
/// launched with as far as that could be read, and the plain one otherwise, working
/// in the directory of the cluster, with debug logging if that is wanted.
pub proof fn installer_is_that_of_the_launch(
    name: String,
    force: bool,
    debug: bool,
    run: Seq<(Destroy, Action)>,
    answers: Seq<Answer>,
    k: int,
    memory: Result<u64, String>,
    cpus: Result<u32, String>,
)
    requires
        is_destruction(name, force, debug, run, answers),
        0 <= k < run.len(),
        run[k].1 is PrepareInstaller || run[k].1 is RunInstaller,
    ensures
        run[k].1 == Action::PrepareInstaller(InstallerTask::DestroyCluster) || run[k].1
            == Action::RunInstaller(InstallerTask::DestroyCluster),
        ({
            let cmd = run[k].0.spec_command(InstallerTask::DestroyCluster, memory, cpus);
            let dir = Place::Cluster(name);
            &&& answers[2] matches Answer::Launched(launched)
            &&& launched matches Some(l) ==> cmd == base_command(
                optional_text(l.installer_version),
                l.libvirt_auto_size,
                None,
                memory,
                cpus,
            ).with_task(InstallerTask::DestroyCluster, dir, debug)
            &&& launched is None ==> cmd == base_command(None, false, None, memory, cpus).with_task(
                InstallerTask::DestroyCluster,
                dir,
                debug,
            )
        }),
{
    every_turn_stands(name, force, debug, run, answers, k);
}

} // verus!
