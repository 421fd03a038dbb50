//! Destroying a cluster.

use vstd::prelude::*;

use crate::dialogue::{changed_place, Action, Answer};
use crate::failure::{Failure, Notice};
use crate::install_config::LaunchedConfig;
use crate::installer::{
    base_command, cmd_installer, installer_for, outcome_of, works_in_dir_of, CommandView,
    InstallerCommand, InstallerOutcome, InstallerTask,
};
use crate::names::{cluster_names, clusters_are_the_directories, has_dir, DirEntry};
use crate::place::{ClusterFile, Place};
use crate::text::optional_text;

verus! {

/// What a destruction waits for.
pub enum DestroyState {
    /// That the configuration directory is there.
    ConfigDir,
    /// Whether the cluster's directory is there.
    ClusterDir,
    /// The state that the cluster was launched with.
    Reading,
    /// That the user knows that there is no such state.
    Warned,
    /// That the call of the installer is put together.
    Preparing,
    /// Whether the installer remembers the cluster.
    Metadata,
    /// Whether there is a failure stamp. Whether the installer remembers the
    /// cluster is known.
    Stamp(bool),
    /// How the installer's run ended.
    Running,
    /// That the user knows why the directory is just removed.
    Told,
    /// That the directory is removed.
    Removing,
    /// Nothing any more.
    Over,
}

/// A destruction that is under way.
pub struct Destroy {
    pub name: String,
    /// Ignore failure to delete the cluster, remove the directory anyway.
    pub force: bool,
    pub debug: bool,
    /// The version of the installer that the cluster was launched with.
    pub installer_version: Option<String>,
    /// Whether the cluster was launched with discovered resources.
    pub libvirt_auto_size: bool,
    pub state: DestroyState,
}

/// The directory of a cluster that is there.
pub open spec fn clusterdir_of(name: String, exists: bool) -> Result<Place, Failure> {
    if exists {
        Ok(Place::Cluster(name))
    } else {
        Err(Failure::NoSuchCluster(name))
    }
}

/// Gets the directory of a cluster, given whether it is there.
pub fn get_clusterdir(name: &String, exists: bool) -> (res: Result<Place, Failure>)
    ensures
        res == clusterdir_of(*name, exists),
{
    if exists {
        Ok(Place::Cluster(name.clone()))
    } else {
        Err(Failure::NoSuchCluster(name.clone()))
    }
}

/// The destruction of the cluster `name`, before anything was answered.
pub open spec fn destroy_start(name: String, force: bool, debug: bool) -> Destroy {
    Destroy {
        name,
        force,
        debug,
        installer_version: None,
        libvirt_auto_size: false,
        state: DestroyState::ConfigDir,
    }
}

/// Begins to destroy a cluster.
pub fn destroy(name: &String, force: bool, debug: bool) -> (res: (Destroy, Action))
    ensures
        res == (destroy_start(*name, force, debug), Action::EnsureDir(Place::ConfigDir)),
{
    (
        Destroy {
            name: name.clone(),
            force,
            debug,
            installer_version: None,
            libvirt_auto_size: false,
            state: DestroyState::ConfigDir,
        },
        Action::EnsureDir(Place::ConfigDir),
    )
}

impl Destroy {
    /// The same destruction in another state.
    pub open spec fn with(self, state: DestroyState) -> Destroy {
        Destroy { state, ..self }
    }

    /// A file in the cluster's directory.
    pub open spec fn spec_file(self, file: ClusterFile) -> Place {
        Place::InCluster(self.name, file)
    }

    /// What the destruction turns into, and asks for, at an answer.
    pub open spec fn next(self, a: Answer) -> (Destroy, Action) {
        match (self.state, a) {
            (DestroyState::Over, _) => (self, Action::Fail(Failure::Unexpected)),
            (_, Answer::Failed(reason)) => (
                self.with(DestroyState::Over),
                Action::Fail(Failure::Outside(reason)),
            ),
            (DestroyState::ConfigDir, Answer::Done) => (
                self.with(DestroyState::ClusterDir),
                Action::Exists(Place::Cluster(self.name)),
            ),
            (DestroyState::ClusterDir, Answer::Exists(exists)) => match clusterdir_of(
                self.name,
                exists,
            ) {
                Ok(_) => (
                    self.with(DestroyState::Reading),
                    Action::ReadLaunchedConfig(self.spec_file(ClusterFile::LaunchedConfig)),
                ),
                Err(e) => (self.with(DestroyState::Over), Action::Fail(e)),
            },
            (DestroyState::Reading, Answer::Launched(Some(launched))) => (
                Destroy {
                    installer_version: launched.installer_version,
                    libvirt_auto_size: launched.libvirt_auto_size,
                    ..self.with(DestroyState::Preparing)
                },
                Action::PrepareInstaller(InstallerTask::DestroyCluster),
            ),
            (DestroyState::Reading, Answer::Launched(None)) => (
                self.with(DestroyState::Warned),
                Action::Print(Notice::NoLaunchedConfig(self.name)),
            ),
            (DestroyState::Warned, Answer::Done) => (
                self.with(DestroyState::Preparing),
                Action::PrepareInstaller(InstallerTask::DestroyCluster),
            ),
            (DestroyState::Preparing, Answer::Done) => (
                self.with(DestroyState::Metadata),
                Action::Exists(self.spec_file(ClusterFile::Metadata)),
            ),
            (DestroyState::Metadata, Answer::Exists(has_metadata)) => (
                self.with(DestroyState::Stamp(has_metadata)),
                Action::Exists(self.spec_file(ClusterFile::FailedStamp)),
            ),
            (DestroyState::Stamp(has_metadata), Answer::Exists(failed)) => if has_metadata {
                (
                    self.with(DestroyState::Running),
                    Action::RunInstaller(InstallerTask::DestroyCluster),
                )
            } else if failed {
                (
                    self.with(DestroyState::Told),
                    Action::Print(Notice::NeverInstalled(self.name)),
                )
            } else {
                (self.with(DestroyState::Told), Action::Print(Notice::NoTrace(self.name)))
            },
            (DestroyState::Running, Answer::Ran(InstallerOutcome::Succeeded)) => (
                self.with(DestroyState::Removing),
                Action::RemoveDir(Place::Cluster(self.name)),
            ),
            (DestroyState::Running, Answer::Ran(InstallerOutcome::Failed)) => if self.force {
                (self.with(DestroyState::Told), Action::Print(Notice::DestroyFailed))
            } else {
                (self.with(DestroyState::Over), Action::Fail(Failure::InstallerFailed))
            },
            (DestroyState::Running, Answer::Ran(InstallerOutcome::NotRun(reason))) =>
                if self.force {
                (self.with(DestroyState::Told), Action::Print(Notice::DestroyFailed))
            } else {
                (self.with(DestroyState::Over), Action::Fail(Failure::InstallerNotRun(reason)))
            },
            (DestroyState::Told, Answer::Done) => (
                self.with(DestroyState::Removing),
                Action::RemoveDir(Place::Cluster(self.name)),
            ),
            (DestroyState::Removing, Answer::Done) => (
                self.with(DestroyState::Over),
                Action::Finish,
            ),
            _ => (self.with(DestroyState::Over), Action::Fail(Failure::Unexpected)),
        }
    }

    /// A file in the cluster's directory.
    fn file(&self, file: ClusterFile) -> (res: Place)
        ensures
            res == self.spec_file(file),
    {
        Place::InCluster(self.name.clone(), file)
    }

    /// Goes over to another state.
    fn turn(self, state: DestroyState, action: Action) -> (res: (Destroy, Action))
        ensures
            res == (self.with(state), action),
    {
        let mut d = self;
        d.state = state;
        (d, action)
    }

    /// Goes on with the answer to what was asked last.
    pub fn answer(self, a: Answer) -> (res: (Destroy, Action))
        ensures
            res == self.next(a),
    {
        let name = self.name.clone();
        match (&self.state, a) {
            (DestroyState::Over, _) => (self, Action::Fail(Failure::Unexpected)),
            (_, Answer::Failed(reason)) => self.turn(
                DestroyState::Over,
                Action::Fail(Failure::Outside(reason)),
            ),
            (DestroyState::ConfigDir, Answer::Done) => self.turn(
                DestroyState::ClusterDir,
                Action::Exists(Place::Cluster(name)),
            ),
            (DestroyState::ClusterDir, Answer::Exists(exists)) => {
                match get_clusterdir(&self.name, exists) {
                    Ok(_) => {
                        let file = self.file(ClusterFile::LaunchedConfig);
                        self.turn(DestroyState::Reading, Action::ReadLaunchedConfig(file))
                    },
                    Err(e) => self.turn(DestroyState::Over, Action::Fail(e)),
                }
            },
            (DestroyState::Reading, Answer::Launched(Some(launched))) => {
                let mut d = self;
                d.installer_version = launched.installer_version;
                d.libvirt_auto_size = launched.libvirt_auto_size;
                d.turn(
                    DestroyState::Preparing,
                    Action::PrepareInstaller(InstallerTask::DestroyCluster),
                )
            },
            (DestroyState::Reading, Answer::Launched(None)) => self.turn(
                DestroyState::Warned,
                Action::Print(Notice::NoLaunchedConfig(name)),
            ),
            (DestroyState::Warned, Answer::Done) => self.turn(
                DestroyState::Preparing,
                Action::PrepareInstaller(InstallerTask::DestroyCluster),
            ),
            (DestroyState::Preparing, Answer::Done) => {
                let file = self.file(ClusterFile::Metadata);
                self.turn(DestroyState::Metadata, Action::Exists(file))
            },
            (DestroyState::Metadata, Answer::Exists(has_metadata)) => {
                let file = self.file(ClusterFile::FailedStamp);
                self.turn(DestroyState::Stamp(has_metadata), Action::Exists(file))
            },
            (DestroyState::Stamp(has_metadata), Answer::Exists(failed)) => {
                if *has_metadata {
                    self.turn(
                        DestroyState::Running,
                        Action::RunInstaller(InstallerTask::DestroyCluster),
                    )
                } else if failed {
                    self.turn(DestroyState::Told, Action::Print(Notice::NeverInstalled(name)))
                } else {
                    self.turn(DestroyState::Told, Action::Print(Notice::NoTrace(name)))
                }
            },
            (DestroyState::Running, Answer::Ran(InstallerOutcome::Succeeded)) => self.turn(
                DestroyState::Removing,
                Action::RemoveDir(Place::Cluster(name)),
            ),
            (DestroyState::Running, Answer::Ran(InstallerOutcome::Failed)) => {
                if self.force {
                    self.turn(DestroyState::Told, Action::Print(Notice::DestroyFailed))
                } else {
                    self.turn(DestroyState::Over, Action::Fail(Failure::InstallerFailed))
                }
            },
            (DestroyState::Running, Answer::Ran(InstallerOutcome::NotRun(reason))) => {
                if self.force {
                    self.turn(DestroyState::Told, Action::Print(Notice::DestroyFailed))
                } else {
                    self.turn(DestroyState::Over, Action::Fail(Failure::InstallerNotRun(reason)))
                }
            },
            (DestroyState::Told, Answer::Done) => self.turn(
                DestroyState::Removing,
                Action::RemoveDir(Place::Cluster(name)),
            ),
            (DestroyState::Removing, Answer::Done) => self.turn(
                DestroyState::Over,
                Action::Finish,
            ),
            _ => self.turn(DestroyState::Over, Action::Fail(Failure::Unexpected)),
        }
    }

    /// The call of the installer that is to destroy the cluster, in the directory
    /// of the cluster. `memory` and `cpus` are what the host answered, if it was
    /// asked.
    pub open spec fn spec_command(
        self,
        task: InstallerTask,
        memory: Result<u64, String>,
        cpus: Result<u32, String>,
    ) -> CommandView {
        base_command(
            optional_text(self.installer_version),
            self.libvirt_auto_size,
            None,
            memory,
            cpus,
        ).with_task(task, Place::Cluster(self.name), self.debug)
    }

    /// The installer that is to destroy the cluster, given what the host answered if it was
    /// asked.
    pub fn command_for(
        &self,
        task: InstallerTask,
        memory: Result<u64, String>,
        cpus: Result<u32, String>,
    ) -> (res: InstallerCommand)
        ensures
            res@ == self.spec_command(task, memory, cpus),
    {
        let version = match &self.installer_version {
            Some(version) => Some(version.as_str()),
            None => None,
        };
        let mut cmd = installer_for(version, self.libvirt_auto_size, None, memory, cpus);
        cmd.add_task(task, Place::Cluster(self.name.clone()), self.debug);
        cmd
    }

    /// The installer that is to destroy the cluster. What the host answered, if it was asked,
    /// is in the call.
    pub fn command(&self, task: InstallerTask) -> (res: InstallerCommand)
        ensures
            exists|memory: Result<u64, String>, cpus: Result<u32, String>|
                res@ == #[trigger] self.spec_command(task, memory, cpus),
    {
        let version = match &self.installer_version {
            Some(version) => Some(version.as_str()),
            None => None,
        };
        let mut cmd = cmd_installer(version, self.libvirt_auto_size, None);
        let ghost base = cmd@;
        cmd.add_task(task, Place::Cluster(self.name.clone()), self.debug);
        proof {
            let (memory, cpus) = choose|memory: Result<u64, String>, cpus: Result<u32, String>|
                base == #[trigger] base_command(
                    optional_text(self.installer_version),
                    self.libvirt_auto_size,
                    None,
                    memory,
                    cpus,
                );
            assert(cmd@ == self.spec_command(task, memory, cpus));
        }
        cmd
    }
}

/// What a destruction finds outside, where everything that it asks to be done
/// can be done.
pub struct DestroyWorld {
    pub exists: bool,
    pub launched: Option<LaunchedConfig>,
    pub has_metadata: bool,
    pub failed: bool,
    pub outcome: InstallerOutcome,
}

impl DestroyWorld {
    /// The answer to what is asked.
    pub open spec fn reply(self, action: Action) -> Answer {
        match action {
            Action::Exists(Place::Cluster(_)) => Answer::Exists(self.exists),
            Action::Exists(Place::InCluster(_, ClusterFile::Metadata)) => Answer::Exists(
                self.has_metadata,
            ),
            Action::Exists(Place::InCluster(_, ClusterFile::FailedStamp)) => Answer::Exists(
                self.failed,
            ),
            Action::ReadLaunchedConfig(_) => Answer::Launched(self.launched),
            Action::RunInstaller(_) => Answer::Ran(self.outcome),
            _ => Answer::Done,
        }
    }

    /// How the destruction of the cluster `name` ends: it fails if there is no
    /// such cluster, or if the installer remembers the cluster and fails to
    /// destroy it or cannot be run at all, unless that is forced.
    pub open spec fn result(self, name: String, force: bool) -> Action {
        if !self.exists {
            Action::Fail(Failure::NoSuchCluster(name))
        } else if !self.has_metadata || force {
            Action::Finish
        } else {
            match outcome_of(self.outcome) {
                Ok(_) => Action::Finish,
                Err(e) => Action::Fail(e),
            }
        }
    }
}

/// Everything that is asked from `action` on, where the world answers, for as
/// many answers as `limit`.
pub open spec fn destroy_run(d: Destroy, action: Action, w: DestroyWorld, limit: nat) -> Seq<Action>
    decreases limit,
{
    if action.ends() || limit == 0 {
        seq![action]
    } else {
        let (n, asked) = d.next(w.reply(action));
        seq![action] + destroy_run(n, asked, w, (limit - 1) as nat)
    }
}

/// How near a destruction is to its end.
pub open spec fn destroy_rank(state: DestroyState) -> nat {
    match state {
        DestroyState::ConfigDir => 10,
        DestroyState::ClusterDir => 9,
        DestroyState::Reading => 8,
        DestroyState::Warned => 7,
        DestroyState::Preparing => 6,
        DestroyState::Metadata => 5,
        DestroyState::Stamp(_) => 4,
        DestroyState::Running => 3,
        DestroyState::Told => 2,
        DestroyState::Removing => 1,
        DestroyState::Over => 0,
    }
}

/// A destruction ends after at most ten answers, whatever they are, and it is
/// over exactly when it asks for nothing more.
pub proof fn destroy_ends(d: Destroy, a: Answer)
    ensures
        !(d.state is Over) ==> destroy_rank(d.next(a).0.state) < destroy_rank(d.state),
        d.next(a).1.ends() == (d.next(a).0.state is Over),
{
}

/// Whatever cannot be done outside stops a destruction with the reason.
pub proof fn outside_failure_stops_the_destruction(d: Destroy, reason: String)
    requires
        !(d.state is Over),
    ensures
        d.next(Answer::Failed(reason)).0.state is Over,
        d.next(Answer::Failed(reason)).1 == Action::Fail(Failure::Outside(reason)),
{
}

/// Once the configuration directory is there, a destruction changes nothing but
/// the directory of its own cluster. It removes that, and only if the installer
/// destroyed the cluster, or failed to or could not be run and that was forced,
/// or does not remember it.
pub proof fn destroy_removes_only_its_cluster(d: Destroy, a: Answer)
    ensures
        d.next(a).0.name == d.name && d.next(a).0.force == d.force,
        changed_place(d.next(a).1) matches Some(place) ==> place == Place::Cluster(d.name),
        changed_place(d.next(a).1) is Some ==> d.next(a).1 is RemoveDir,
        d.next(a).1 is RemoveDir ==> d.next(a).1 == Action::RemoveDir(Place::Cluster(d.name)),
        d.next(a).1 is RemoveDir ==> d.state is Told || (d.state is Running && a == Answer::Ran(
            InstallerOutcome::Succeeded,
        )),
        d.next(a).0.state is Told && !(d.state is Over) ==> (d.state matches DestroyState::Stamp(
            has_metadata,
        ) && !has_metadata) || (d.state is Running && d.force && (a matches Answer::Ran(
            outcome,
        ) && outcome_of(outcome) is Err)),
        d.next(a).1 is Finish ==> d.state is Removing && a is Done,
{
}

/// Wherever a destruction stands, the installer works in the directory named
/// after the cluster, and goes on to do so.
pub proof fn installer_works_in_the_destroyed_clusters_dir(
    d: Destroy,
    a: Answer,
    task: InstallerTask,
    memory: Result<u64, String>,
    cpus: Result<u32, String>,
)
    requires
        !(task is Version),
    ensures
        works_in_dir_of(d.spec_command(task, memory, cpus), d.name@),
        works_in_dir_of(d.next(a).0.spec_command(task, memory, cpus), d.name@),
{
}

/// The installer that destroys a cluster is the one that it was launched with, or
/// the plain one if that is not known, and works in the directory of the cluster.
/// Only what is read of the launch has an influence on that.
pub proof fn installer_of_the_launch_destroys(
    name: String,
    force: bool,
    debug: bool,
    launched: Option<LaunchedConfig>,
    d: Destroy,
    a: Answer,
    task: InstallerTask,
    memory: Result<u64, String>,
    cpus: Result<u32, String>,
)
    ensures
        ({
            let start = destroy_start(name, force, debug);
            let reading = start.next(Answer::Done).0.next(Answer::Exists(true)).0;
            let read = reading.next(Answer::Launched(launched)).0;
            let (version, auto) = match launched {
                Some(l) => (optional_text(l.installer_version), l.libvirt_auto_size),
                None => (None, false),
            };
            read.spec_command(InstallerTask::DestroyCluster, memory, cpus) == base_command(
                version,
                auto,
                None,
                memory,
                cpus,
            ).with_task(InstallerTask::DestroyCluster, Place::Cluster(name), debug)
        }),
        !(d.state is Reading) ==> d.next(a).0.spec_command(task, memory, cpus) == d.spec_command(
            task,
            memory,
            cpus,
        ),
{
}

/// What is asked once the user was told why the directory is just removed.
proof fn run_from_told(d: Destroy, notice: Notice, w: DestroyWorld, limit: nat)
    requires
        d.state is Told,
        limit >= 2,
    ensures
        destroy_run(d, Action::Print(notice), w, limit) == seq![
            Action::Print(notice),
            Action::RemoveDir(Place::Cluster(d.name)),
            Action::Finish,
        ],
{
    run_from_removing(d.with(DestroyState::Removing), w, (limit - 1) as nat);
}

/// What is asked once the directory is to be removed.
proof fn run_from_removing(d: Destroy, w: DestroyWorld, limit: nat)
    requires
        d.state is Removing,
        limit >= 1,
    ensures
        destroy_run(d, Action::RemoveDir(Place::Cluster(d.name)), w, limit) == seq![
            Action::RemoveDir(Place::Cluster(d.name)),
            Action::Finish,
        ],
{
    assert(destroy_run(d.with(DestroyState::Over), Action::Finish, w, (limit - 1) as nat) =~= seq![
        Action::Finish,
    ]);
}

/// What is asked once the installer is run.
proof fn run_from_running(d: Destroy, w: DestroyWorld, limit: nat)
    requires
        d.state is Running,
        limit >= 3,
    ensures
        destroy_run(d, Action::RunInstaller(InstallerTask::DestroyCluster), w, limit) == seq![
            Action::RunInstaller(InstallerTask::DestroyCluster),
        ] + (match outcome_of(w.outcome) {
            Ok(_) => seq![Action::RemoveDir(Place::Cluster(d.name)), Action::Finish],
            Err(e) => if d.force {
                seq![
                    Action::Print(Notice::DestroyFailed),
                    Action::RemoveDir(Place::Cluster(d.name)),
                    Action::Finish,
                ]
            } else {
                seq![Action::Fail(e)]
            },
        }),
{
    let rest = (limit - 1) as nat;
    match outcome_of(w.outcome) {
        Ok(_) => {
            run_from_removing(d.with(DestroyState::Removing), w, rest);
        },
        Err(e) => {
            if d.force {
                run_from_told(d.with(DestroyState::Told), Notice::DestroyFailed, w, rest);
            } else {
                let end = Action::Fail(e);
                assert(destroy_run(d.with(DestroyState::Over), end, w, rest) =~= seq![end]);
            }
        },
    }
}

/// What is asked once the cluster's files are looked at.
proof fn run_from_metadata(d: Destroy, w: DestroyWorld, limit: nat)
    requires
        d.state is Metadata,
        limit >= 5,
    ensures
        ({
            let run = destroy_run(
                d,
                Action::Exists(Place::InCluster(d.name, ClusterFile::Metadata)),
                w,
                limit,
            );
            let w = DestroyWorld { exists: true, ..w };
            &&& run.len() > 0
            &&& run.last() == w.result(d.name, d.force)
            &&& run.contains(Action::RemoveDir(Place::Cluster(d.name))) == (w.result(
                d.name,
                d.force,
            ) is Finish)
            &&& run.contains(Action::RunInstaller(InstallerTask::DestroyCluster)) == w.has_metadata
        }),
{
    let name = d.name;
    let a3 = Action::Exists(Place::InCluster(name, ClusterFile::Metadata));
    let a4 = Action::Exists(Place::InCluster(name, ClusterFile::FailedStamp));
    let d4 = d.with(DestroyState::Stamp(w.has_metadata));
    let l4 = (limit - 1) as nat;
    let l5 = (limit - 2) as nat;
    let run = destroy_run(d, a3, w, limit);
    assert(run == seq![a3] + destroy_run(d4, a4, w, l4));
    let removal = Action::RemoveDir(Place::Cluster(name));
    let installer = Action::RunInstaller(InstallerTask::DestroyCluster);
    if w.has_metadata {
        let d5 = d4.with(DestroyState::Running);
        run_from_running(d5, w, l5);
        assert(destroy_run(d4, a4, w, l4) == seq![a4] + destroy_run(d5, installer, w, l5));
        assert(run[2] == installer);
    } else {
        let notice = if w.failed {
            Notice::NeverInstalled(name)
        } else {
            Notice::NoTrace(name)
        };
        let d5 = d4.with(DestroyState::Told);
        run_from_told(d5, notice, w, l5);
        assert(destroy_run(d4, a4, w, l4) == seq![a4] + destroy_run(
            d5,
            Action::Print(notice),
            w,
            l5,
        ));
        assert(run =~= seq![a3, a4, Action::Print(notice), removal, Action::Finish]);
        assert(run[3] == removal);
    }
    let done = DestroyWorld { exists: true, ..w };
    if done.result(name, d.force) is Finish {
        assert(run[run.len() - 2] == removal);
    }
}

/// Where all that is asked can be done, a destruction ends as the installer and
/// the force decide; the cluster's directory is removed exactly if it succeeds,
/// and the installer is run exactly if it remembers the cluster.
pub proof fn destroy_does_what_it_promises(
    name: String,
    force: bool,
    debug: bool,
    w: DestroyWorld,
)
    ensures
        ({
            let run = destroy_run(
                destroy_start(name, force, debug),
                Action::EnsureDir(Place::ConfigDir),
                w,
                10,
            );
            &&& run.last() == w.result(name, force)
            &&& run.contains(Action::RemoveDir(Place::Cluster(name))) == (w.result(
                name,
                force,
            ) is Finish)
            &&& run.contains(Action::PrepareInstaller(InstallerTask::DestroyCluster)) == w.exists
            &&& run.contains(Action::RunInstaller(InstallerTask::DestroyCluster)) == (w.exists
                && w.has_metadata)
        }),
{
    let a0 = Action::EnsureDir(Place::ConfigDir);
    let a1 = Action::Exists(Place::Cluster(name));
    let d0 = destroy_start(name, force, debug);
    let d1 = d0.with(DestroyState::ClusterDir);
    let run = destroy_run(d0, a0, w, 10);
    assert(run == seq![a0] + destroy_run(d1, a1, w, 9));
    if !w.exists {
        let end = Action::Fail(Failure::NoSuchCluster(name));
        let over = d1.with(DestroyState::Over);
        assert(destroy_run(d1, a1, w, 9) == seq![a1] + destroy_run(over, end, w, 8));
        assert(run =~= seq![a0, a1, end]);
    } else {
        let a2 = Action::ReadLaunchedConfig(Place::InCluster(name, ClusterFile::LaunchedConfig));
        let a3 = Action::PrepareInstaller(InstallerTask::DestroyCluster);
        let a4 = Action::Exists(Place::InCluster(name, ClusterFile::Metadata));
        let d2 = d1.with(DestroyState::Reading);
        assert(destroy_run(d1, a1, w, 9) == seq![a1] + destroy_run(d2, a2, w, 8));
        let (looked, d3, left) = match w.launched {
            Some(launched) => {
                let d3 = Destroy {
                    installer_version: launched.installer_version,
                    libvirt_auto_size: launched.libvirt_auto_size,
                    ..d2.with(DestroyState::Preparing)
                };
                assert(destroy_run(d2, a2, w, 8) == seq![a2] + destroy_run(d3, a3, w, 7));
                (seq![a0, a1, a2], d3, 7nat)
            },
            None => {
                let warning = Action::Print(Notice::NoLaunchedConfig(name));
                let warned = d2.with(DestroyState::Warned);
                let d3 = d2.with(DestroyState::Preparing);
                assert(destroy_run(d2, a2, w, 8) == seq![a2] + destroy_run(warned, warning, w, 7));
                assert(destroy_run(warned, warning, w, 7) == seq![warning] + destroy_run(
                    d3,
                    a3,
                    w,
                    6,
                ));
                (seq![a0, a1, a2, warning], d3, 6nat)
            },
        };
        let d4 = d3.with(DestroyState::Metadata);
        let looking = destroy_run(d4, a4, w, (left - 1) as nat);
        assert(destroy_run(d3, a3, w, left) == seq![a3] + looking);
        run_from_metadata(d4, w, (left - 1) as nat);
        let looked = looked.push(a3);
        assert(run =~= looked + looking);
        assert(run[looked.len() - 1] == a3);
        part_of_sum(looked, looking, Action::RemoveDir(Place::Cluster(name)));
        part_of_sum(looked, looking, Action::RunInstaller(InstallerTask::DestroyCluster));
    }
}

/// What a destruction finds after one that asked for `run`: the cluster is there
/// only if it was and its directory was not removed. All else may have changed.
pub open spec fn found_after(
    name: String,
    w: DestroyWorld,
    run: Seq<Action>,
    later: DestroyWorld,
) -> bool {
    later.exists == (w.exists && !run.contains(Action::RemoveDir(Place::Cluster(name))))
}

/// A cluster that was destroyed is gone: if nothing was created since, it is
/// listed no more, and destroying it again fails because there is no such
/// cluster, by force or not.
pub proof fn destroyed_cluster_is_gone(
    name: String,
    force: bool,
    debug: bool,
    w: DestroyWorld,
    later: DestroyWorld,
    entries: Seq<DirEntry>,
    again_force: bool,
    again_debug: bool,
)
    requires
        ({
            let run = destroy_run(
                destroy_start(name, force, debug),
                Action::EnsureDir(Place::ConfigDir),
                w,
                10,
            );
            &&& run.last() is Finish
            &&& found_after(name, w, run, later)
        }),
        has_dir(entries, name@) ==> later.exists,
    ensures
        !later.exists,
        forall|k: int|
            0 <= k < cluster_names(entries).len() ==> (#[trigger] cluster_names(entries)[k])@
                != name@,
        destroy_run(
            destroy_start(name, again_force, again_debug),
            Action::EnsureDir(Place::ConfigDir),
            later,
            10,
        ).last() == Action::Fail(Failure::NoSuchCluster(name)),
{
    destroy_does_what_it_promises(name, force, debug, w);
    destroy_does_what_it_promises(name, again_force, again_debug, later);
    clusters_are_the_directories(entries, name@);
}

/// What two sequences hold together is what one of them holds.
proof fn part_of_sum(a: Seq<Action>, b: Seq<Action>, x: Action)
    ensures
        (a + b).contains(x) == (a.contains(x) || b.contains(x)),
{
    if a.contains(x) {
        let i = a.index_of(x);
        assert((a + b)[i] == x);
    }
    if b.contains(x) {
        let i = b.index_of(x);
        assert((a + b)[a.len() + i] == x);
    }
}

/// A cluster has its directory if and only if that is there; where it is not, the
/// failure names the cluster.
pub proof fn cluster_is_there_or_is_named(name: String, exists: bool)
    ensures
        exists ==> clusterdir_of(name, exists) == Ok::<Place, Failure>(Place::Cluster(name)),
        !exists ==> clusterdir_of(name, exists) == Err::<Place, Failure>(
            Failure::NoSuchCluster(name),
        ),
{
}

} // verus!
