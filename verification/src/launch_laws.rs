//! What holds of every launch.

use vstd::prelude::*;

use crate::destroy::Destroy;
use crate::dialogue::{changed_place, Action, Answer};
use crate::failure::Failure;
use crate::generate::{
    generate_does_what_it_promises, generate_end, generate_start, GenerateWorld,
};
use crate::install_config::{ConfigView, LaunchedConfig, MachinesView, MetadataView};
use crate::installer::{outcome_of, works_in_dir_of, InstallerOutcome, InstallerTask};
use crate::launch::{launch_plan, launched_state, Launch, LaunchState, Stage, Step};
use crate::names::ConfigChoice;
use crate::options::LaunchOpts;
use crate::place::{ClusterFile, Manifest, Place, Role};
use crate::platform::{ClusterSize, Platform};
use crate::text::optional_text;

verus! {

/// A cluster without a size inherits everything except the name from its base,
/// and the pull secret if the base has one.
pub proof fn cluster_inherits_its_base(
    base: ConfigView,
    secret: Option<Seq<char>>,
    o: LaunchOpts,
)
    requires
        o.size is None,
    ensures
        launched_state(base, secret, o).config == (ConfigView {
            metadata: Some(MetadataView { name: o.name@, extra: None }),
            pull_secret: match base.pull_secret {
                Some(own) => Some(own),
                None => secret,
            },
            ..base
        }),
{
}

/// A size changes nothing but the number of control plane machines, and that
/// there is one group of workers, which is empty.
pub proof fn size_sets_the_machines(
    base: ConfigView,
    secret: Option<Seq<char>>,
    o: LaunchOpts,
    size: ClusterSize,
)
    requires
        o.size == Some(size),
    ensures
        ({
            let unsized_opts = LaunchOpts { size: None, ..o };
            launched_state(base, secret, o).config == (ConfigView {
                compute: seq![MachinesView { name: "worker"@, replicas: 0, extra: None }],
                control_plane: MachinesView {
                    replicas: match size {
                        ClusterSize::Single => 1,
                        ClusterSize::Compact => 3,
                    },
                    ..base.control_plane
                },
                ..launched_state(base, secret, unsized_opts).config
            })
        }),
{
}

/// The configuration that a launch makes has the name of the cluster and, if
/// the base or the home directory has a pull secret, that one, the base's first.
pub proof fn own_pull_secret_is_kept(base: ConfigView, secret: Seq<char>, o: LaunchOpts)
    ensures
        launched_state(base, Some(secret), o).config.pull_secret == Some(
            match base.pull_secret {
                Some(own) => own,
                None => secret,
            },
        ),
        launched_state(base, Some(secret), o).config.metadata == Some(
            MetadataView { name: o.name@, extra: None },
        ),
{
}

/// The plan of a launch ends with the creation of the cluster, which is in it
/// once. Before the installer is run at all, the cluster has its directory and
/// its two configurations are written. The installer is run three times: for its
/// version, for its manifests, and to create the cluster.
pub proof fn plan_is_in_order(o: LaunchOpts, platform: Platform)
    ensures
        ({
            let plan = launch_plan(o, platform);
            &&& plan.len() >= 7
            &&& plan[0] == Step::ClusterDir
            &&& plan[1] == Step::LaunchedConfig
            &&& plan[2] == Step::InstallConfig
            &&& plan[3] == Step::Run(InstallerTask::Version)
            &&& plan[4] == Step::Run(InstallerTask::CreateManifests)
            &&& plan.last() == Step::Run(InstallerTask::CreateCluster)
            &&& forall|i: int|
                0 <= i < plan.len() && #[trigger] plan[i] == Step::Run(
                    InstallerTask::CreateCluster,
                ) ==> i == plan.len() - 1
            &&& forall|i: int|
                0 <= i < plan.len() && #[trigger] plan[i] is Run ==> i == 3 || i == 4 || i
                    == plan.len() - 1
        }),
{
}

/// All manifests, the user's and those that are added, come after the installer
/// made its own and before it creates the cluster. The user's are copied
/// exactly if there are to be some; the added ones are those of a single node
/// cluster and those of libvirt.
pub proof fn manifests_are_added_in_time(o: LaunchOpts, platform: Platform)
    ensures
        ({
            let plan = launch_plan(o, platform);
            let single = o.size == Some(ClusterSize::Single);
            &&& plan[4] == Step::Run(InstallerTask::CreateManifests)
            &&& forall|i: int|
                0 <= i < plan.len() && (#[trigger] plan[i] is CopyManifests || plan[i] is Add)
                    ==> 5 < i < plan.len() - 1
            &&& plan.contains(Step::CopyManifests) == (o.manifests is Some)
            &&& plan.contains(Step::Add(Manifest::SingleEtcd)) == single
            &&& plan.contains(Step::Add(Manifest::SingleIngress)) == single
            &&& plan.contains(Step::Add(Manifest::Autologin(Role::Master))) == (platform
                is Libvirt)
            &&& plan.contains(Step::Add(Manifest::Autologin(Role::Worker))) == (platform
                is Libvirt)
        }),
{
    let plan = launch_plan(o, platform);
    let single = o.size == Some(ClusterSize::Single);
    let copy: int = if o.manifests is Some {
        1
    } else {
        0
    };
    let singles: int = if single {
        2
    } else {
        0
    };
    if o.manifests is Some {
        assert(plan[6] == Step::CopyManifests);
    }
    if single {
        assert(plan[6 + copy] == Step::Add(Manifest::SingleEtcd));
        assert(plan[7 + copy] == Step::Add(Manifest::SingleIngress));
    }
    if platform is Libvirt {
        assert(plan[6 + copy + singles] == Step::Add(Manifest::Autologin(Role::Master)));
        assert(plan[7 + copy + singles] == Step::Add(Manifest::Autologin(Role::Worker)));
    }
}

/// Whether the stage is one of the step.
pub open spec fn stage_fits(step: Step, stage: Stage) -> bool {
    match stage {
        Stage::Asked => true,
        Stage::MakingDir => step is OpenshiftDir,
        _ => step is CopyManifests,
    }
}

/// What holds of a launch from its beginning on: once its configuration is
/// known it works off its plan, the configuration has the name of the cluster
/// and a pull secret, and the state that it launches with keeps the options that
/// a later destruction needs, and the images.
pub open spec fn on_plan(l: Launch) -> bool {
    l.state matches LaunchState::Working(w) ==> {
        &&& w.valid()
        &&& w.steps@ == launch_plan(l.opts, w.launched@.config.platform.spec_platform())
        &&& w.launched@.config.metadata == Some(MetadataView { name: l.opts.name@, extra: None })
        &&& w.launched@.config.pull_secret is Some
        &&& w.launched@.installer_version == optional_text(
            l.opts.install_run_opts.installer_version,
        )
        &&& w.launched@.libvirt_auto_size == l.opts.install_run_opts.libvirt_auto_size
        &&& w.launched@.release_image == optional_text(l.opts.release_image)
        &&& w.launched@.boot_image == optional_text(l.opts.boot_image)
        &&& stage_fits(w.step(), w.stage)
    }
}

/// A launch keeps to its plan, skips none of its steps and does not change the
/// state that it launches with, which has the platform of its base. It keeps to its options but for the release
/// image, which only an answer of the release server sets.
pub proof fn launch_stays_on_plan(l: Launch, a: Answer, n: Launch, act: Action)
    requires
        on_plan(l),
        l.turns(a, n, act),
    ensures
        on_plan(n),
        n.opts == (LaunchOpts { release_image: n.opts.release_image, ..l.opts }),
        n.opts.release_image == l.opts.release_image || (a matches Answer::Release(release)
            && n.opts.release_image == Some(release.pull_spec)),
        l.state matches LaunchState::Working(w) ==> (n.state matches LaunchState::Working(nw) ==> {
            &&& nw.launched == w.launched
            &&& nw.steps == w.steps
            &&& nw.at == w.at || nw.at == w.at + 1
        }),
        !(l.state is Working) ==> (n.state matches LaunchState::Working(nw) ==> nw.at == 0),
        l.state is Reading ==> (n.state matches LaunchState::Working(nw) ==> (a matches
            Answer::Config(base) && nw.launched@.config.platform == base@.platform)),
        l.state matches LaunchState::SecretRead(base) ==> (n.state matches LaunchState::Working(nw)
            ==> nw.launched@.config.platform == base@.platform),
{
    if let LaunchState::Working(w) = l.state {
        assert(w.steps.len() <= usize::MAX);
    }
}

/// Wherever a launch stands, the installer works in the directory named after
/// the cluster, and goes on to do so.
pub proof fn installer_works_in_the_clusters_dir(
    l: Launch,
    a: Answer,
    n: Launch,
    act: Action,
    task: InstallerTask,
    memory: Result<u64, String>,
    cpus: Result<u32, String>,
)
    requires
        l.turns(a, n, act),
        !(task is Version),
    ensures
        works_in_dir_of(l.spec_command(task, memory, cpus), l.opts.name@),
        works_in_dir_of(n.spec_command(task, memory, cpus), l.opts.name@),
{
    assert(n.opts.name == l.opts.name);
}

/// The installer is asked to run exactly on coming to a step of the plan that
/// runs it, for the task of that step.
pub proof fn installer_runs_on_plan(l: Launch, a: Answer, n: Launch, act: Action)
    requires
        on_plan(l),
        l.turns(a, n, act),
    ensures
        act matches Action::RunInstaller(task) ==> {
            &&& l.state matches LaunchState::Working(w)
            &&& n.state matches LaunchState::Working(nw)
            &&& nw.at == w.at + 1
            &&& nw.stage is Asked
            &&& nw.step() == Step::Run(task)
        },
        l.state matches LaunchState::Working(w) ==> (n.state matches LaunchState::Working(nw) ==> (
        nw.at == w.at + 1 && nw.step() is Run ==> act == Action::RunInstaller(
            nw.step()->Run_0,
        ))),
{
    if let LaunchState::Working(w) = l.state {
        assert(w.steps.len() <= usize::MAX);
    }
}

/// A launch succeeds only when the installer has created the cluster, and at
/// every success of that.
pub proof fn success_means_a_created_cluster(l: Launch, a: Answer, n: Launch, act: Action)
    requires
        on_plan(l),
        l.turns(a, n, act),
    ensures
        act is Finish <==> (l.state matches LaunchState::Working(w) && w.step() == Step::Run(
            InstallerTask::CreateCluster,
        ) && w.stage is Asked && a == Answer::Ran(InstallerOutcome::Succeeded)),
{
    if let LaunchState::Working(w) = l.state {
        plan_is_in_order(l.opts, w.launched@.config.platform.spec_platform());
    }
}

/// The failure stamp is written exactly when the installer fails to create the
/// cluster, into the cluster's directory, and says how it failed.
pub proof fn stamp_means_a_failed_creation(l: Launch, a: Answer, n: Launch, act: Action)
    requires
        on_plan(l),
        l.turns(a, n, act),
    ensures
        act is WriteStamp <==> (l.state matches LaunchState::Working(w) && w.step() == Step::Run(
            InstallerTask::CreateCluster,
        ) && w.stage is Asked && (a matches Answer::Ran(outcome) && outcome_of(outcome) is Err)),
        act matches Action::WriteStamp(place, e) ==> {
            &&& place == Place::InCluster(l.opts.name, ClusterFile::FailedStamp)
            &&& a matches Answer::Ran(outcome)
            &&& outcome_of(outcome) == Err::<(), Failure>(e)
            &&& n.state == LaunchState::Stamping(e)
        },
{
}

/// A launch whose creation failed ends with that failure, whether it could be
/// written down or not.
pub proof fn failed_creation_is_reported(
    l: Launch,
    e: Failure,
    a: Answer,
    n: Launch,
    act: Action,
)
    requires
        l.state == LaunchState::Stamping(e) || l.state == LaunchState::Complaining(e),
        l.turns(a, n, act),
        a is Done || (a is Failed && l.state is Stamping),
    ensures
        act == Action::Fail(e) || (n.state == LaunchState::Complaining(e) && act is Print),
{
}

/// A launch changes nothing but its own cluster's directory, and that only once
/// its configuration is known; it removes nothing itself.
pub proof fn launch_changes_only_its_cluster(l: Launch, a: Answer, n: Launch, act: Action)
    requires
        l.turns(a, n, act),
    ensures
        changed_place(act) matches Some(place) ==> place == Place::Cluster(l.opts.name)
            || place is InCluster && place->InCluster_0 == l.opts.name,
        changed_place(act) is Some ==> n.state is Working || n.state is Stamping,
        !(act is RemoveDir),
{
}

/// A cluster that is there is left alone unless it is to be deleted: nothing is
/// asked then but to stop. A cluster is destroyed only if that was asked for.
pub proof fn existing_cluster_is_left_alone(l: Launch, a: Answer, n: Launch, act: Action)
    requires
        l.turns(a, n, act),
    ensures
        l.state is ClusterDir && a == Answer::Exists(true) && !l.opts.destroy ==> act
            == Action::Fail(Failure::ClusterExists(l.opts.name)),
        act is Destroy ==> {
            &&& l.opts.destroy
            &&& l.state is ClusterDir && a == Answer::Exists(true)
            &&& act == Action::Destroy(l.opts.name, true, l.opts.install_run_opts.log_debug)
        },
{
}

/// Whatever cannot be done outside stops the launch with the reason, except that
/// a failure which cannot be written down is reported all the same.
pub proof fn outside_failure_stops_the_launch(
    l: Launch,
    reason: String,
    n: Launch,
    act: Action,
)
    requires
        l.turns(Answer::Failed(reason), n, act),
        !(l.state is Over || l.state is Stamping || l.state is Complaining),
    ensures
        n.state is Over,
        act == Action::Fail(Failure::Outside(reason)),
{
}

/// How near a launch is to its end.
pub open spec fn launch_rank(l: Launch) -> nat {
    match l.state {
        LaunchState::ConfigDir => 113,
        LaunchState::ClusterDir => 112,
        LaunchState::Destroying => 111,
        LaunchState::Listing => 110,
        LaunchState::Announcing => 109,
        LaunchState::Generating => 108,
        LaunchState::Locating(_) => 107,
        LaunchState::LocatingFull(_) => 106,
        LaunchState::Fetching(_) => 105,
        LaunchState::Releasing(_) => 104,
        LaunchState::Reading => 103,
        LaunchState::Home(_) => 102,
        LaunchState::SecretCheck(_) => 101,
        LaunchState::SecretRead(_) => 100,
        LaunchState::Working(w) => (5 * (w.steps@.len() - w.at) + stage_rank(w.stage)) as nat,
        LaunchState::Stamping(_) => 2,
        LaunchState::Complaining(_) => 1,
        LaunchState::Over => 0,
    }
}

/// How near a step is to its end.
pub open spec fn stage_rank(stage: Stage) -> nat {
    match stage {
        Stage::Asked => 4,
        Stage::Copying(_, _) => 3,
        Stage::Listing(_) => 2,
        Stage::MakingDir => 1,
        Stage::Telling => 1,
    }
}

/// Every answer, except another file in the directory of the user's manifests,
/// brings a launch nearer its end; it is over exactly when it asks for nothing
/// more.
pub proof fn launch_ends(l: Launch, a: Answer, n: Launch, act: Action)
    requires
        on_plan(l),
        l.turns(a, n, act),
        !(l.state is Over),
        !(a matches Answer::Entry(entry) && entry is Some),
    ensures
        launch_rank(n) < launch_rank(l),
        act.ends() == (n.state is Over),
{
    if let LaunchState::Working(w) = n.state {
        let plan = launch_plan(n.opts, w.launched@.config.platform.spec_platform());
        if !(l.state is Working) {
            assert(plan.len() <= 12);
        }
    }
}

/// The first launch saves the configuration, if it can be generated, under the
/// name of the platform that was chosen, as `config-<platform>.yaml`.
pub proof fn first_launch_saves_the_platforms_config(o: LaunchOpts, w: GenerateWorld)
    ensures
        ({
            let (g, act) = generate_start(o.spec_gen_config());
            generate_end(g, act, w, 7) == w.result(o.spec_gen_config())
        }),
        w.result(o.spec_gen_config()) matches Action::Generated(file) ==> file.spec_text()
            == "config-"@ + w.config.platform.spec_platform().file_tag() + ".yaml"@,
{
    generate_does_what_it_promises(o.spec_gen_config(), w);
}

/// A launch that had a configuration generated goes on with the file of that
/// name.
pub proof fn generated_config_is_the_base(l: Launch, generated: String, n: Launch, act: Action)
    requires
        l.state is Generating,
        l.turns(Answer::Generated(generated), n, act),
    ensures
        act matches Action::Exists(Place::Config(file)) && file.spec_text() == generated@,
        n.state == LaunchState::Locating(ConfigChoice::Generated(generated)),
{
}

/// A cluster is destroyed with the installer that it was launched with, if the
/// state it was launched with is read back.
pub proof fn destroyed_by_the_installer_that_launched(
    base: ConfigView,
    secret: Option<Seq<char>>,
    o: LaunchOpts,
    launched: LaunchedConfig,
    d: Destroy,
)
    requires
        launched@ == launched_state(base, secret, o),
        d.state is Reading,
    ensures
        ({
            let n = d.next(Answer::Launched(Some(launched))).0;
            &&& optional_text(n.installer_version) == optional_text(
                o.install_run_opts.installer_version,
            )
            &&& n.libvirt_auto_size == o.install_run_opts.libvirt_auto_size
        }),
{
}

} // verus!
