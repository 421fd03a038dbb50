//! How the installer is called.

use vstd::prelude::*;

use crate::failure::Failure;
use crate::host::{
    ask_cpus, ask_memory, copy_answer, master_cpu, master_cpu_for, master_mem, master_mem_for,
    HostAnswers, HostWarning,
};
use crate::options::{InstallRunOpts, LaunchOpts};
use crate::place::{Base, Place};
use crate::platform::{borrowed_size, masters_of, ClusterSize};
use crate::text::{
    borrowed_text, decimal, decimal_text, numeral_stands_for_the_number, numeral_value, optional_text,
};

verus! {

/// What the installer is asked to do.
#[derive(Debug, Clone, Copy, PartialEq, Eq, Structural)]
pub enum InstallerTask {
    Version,
    CreateInstallConfig,
    CreateManifests,
    CreateCluster,
    DestroyCluster,
}

/// An argument of the installer.
#[derive(Debug, PartialEq)]
pub enum Arg {
    Text(String),
    /// The directory that the installer works in.
    Dir(Place),
}

/// What `Arg` says.
pub enum ArgView {
    Text(Seq<char>),
    Dir(Place),
}

impl View for Arg {
    type V = ArgView;

    open spec fn view(&self) -> ArgView {
        match self {
            Arg::Text(text) => ArgView::Text(text@),
            Arg::Dir(dir) => ArgView::Dir(*dir),
        }
    }
}

/// A call of the installer.
pub struct InstallerCommand {
    pub program: String,
    /// The environment variables that are set for it, by name and value.
    pub env: Vec<(String, String)>,
    pub args: Vec<Arg>,
    /// What to tell the user of how it was put together.
    pub warnings: Vec<HostWarning>,
    /// What the host answered, if it was asked: what the environment says of
    /// memory and processors is made of it.
    pub host: Option<HostAnswers>,
}

/// What `InstallerCommand` says.
pub struct CommandView {
    pub program: Seq<char>,
    pub env: Seq<(Seq<char>, Seq<char>)>,
    pub args: Seq<ArgView>,
    pub warnings: Seq<HostWarning>,
    pub host: Option<HostAnswers>,
}

impl View for InstallerCommand {
    type V = CommandView;

    open spec fn view(&self) -> CommandView {
        CommandView {
            program: self.program@,
            env: self.env@.map_values(|e: (String, String)| (e.0@, e.1@)),
            args: self.args@.map_values(|a: Arg| a@),
            warnings: self.warnings@,
            host: self.host,
        }
    }
}

/// How a run of the installer ended.
#[derive(Debug, PartialEq)]
pub enum InstallerOutcome {
    Succeeded,
    /// It ran and reported failure.
    Failed,
    /// It could not be run, for this reason.
    NotRun(String),
}

/// The arguments that ask for debug logging, if it is wanted.
pub open spec fn debug_args(log_debug: bool) -> Seq<ArgView> {
    if log_debug {
        seq![ArgView::Text("--log-level=debug"@)]
    } else {
        seq![]
    }
}

impl InstallerTask {
    /// The arguments that ask for the task, to be done in a directory.
    pub open spec fn spec_args(self, dir: Place, log_debug: bool) -> Seq<ArgView> {
        match self {
            InstallerTask::Version => seq![ArgView::Text("version"@)],
            InstallerTask::CreateInstallConfig => seq![
                ArgView::Text("create"@),
                ArgView::Text("install-config"@),
                ArgView::Text("--dir"@),
                ArgView::Dir(dir),
            ],
            InstallerTask::CreateManifests => seq![
                ArgView::Text("create"@),
                ArgView::Text("manifests"@),
                ArgView::Text("--dir"@),
                ArgView::Dir(dir),
            ],
            InstallerTask::CreateCluster => seq![
                ArgView::Text("create"@),
                ArgView::Text("cluster"@),
                ArgView::Text("--dir"@),
                ArgView::Dir(dir),
            ] + debug_args(log_debug),
            InstallerTask::DestroyCluster => seq![
                ArgView::Text("destroy"@),
                ArgView::Text("cluster"@),
                ArgView::Text("--dir"@),
                ArgView::Dir(dir),
            ] + debug_args(log_debug),
        }
    }

    /// What the user is told before the task is run.
    pub open spec fn spec_announcement(self) -> Option<Seq<char>> {
        match self {
            InstallerTask::Version => None,
            InstallerTask::CreateInstallConfig => Some(
                "Executing `openshift-install create install-config`\n"@,
            ),
            InstallerTask::CreateManifests => Some("Running create manifests\n"@),
            InstallerTask::CreateCluster => Some(
                "Executing `openshift-install create cluster`\n"@,
            ),
            InstallerTask::DestroyCluster => Some(
                "Executing `openshift-install destroy cluster`\n"@,
            ),
        }
    }

    /// What the user is told before the task is run.
    pub fn announcement(&self) -> (res: Option<&'static str>)
        ensures
            self.spec_announcement() == (match res {
                Some(text) => Some(text@),
                None => None,
            }),
    {
        match self {
            InstallerTask::Version => None,
            InstallerTask::CreateInstallConfig => Some(
                "Executing `openshift-install create install-config`\n",
            ),
            InstallerTask::CreateManifests => Some("Running create manifests\n"),
            InstallerTask::CreateCluster => Some(
                "Executing `openshift-install create cluster`\n",
            ),
            InstallerTask::DestroyCluster => Some(
                "Executing `openshift-install destroy cluster`\n",
            ),
        }
    }

    /// The arguments that ask for the task, to be done in a directory.
    pub fn args(&self, dir: Place, log_debug: bool) -> (res: Vec<Arg>)
        ensures
            res@.map_values(|a: Arg| a@) == self.spec_args(dir, log_debug),
    {
        let mut res: Vec<Arg> = Vec::new();
        let (verb, object) = match self {
            InstallerTask::Version => {
                res.push(Arg::Text(String::from_str("version")));
                assert(res@.map_values(|a: Arg| a@) =~= self.spec_args(dir, log_debug));
                return res;
            },
            InstallerTask::CreateInstallConfig => ("create", "install-config"),
            InstallerTask::CreateManifests => ("create", "manifests"),
            InstallerTask::CreateCluster => ("create", "cluster"),
            InstallerTask::DestroyCluster => ("destroy", "cluster"),
        };
        res.push(Arg::Text(String::from_str(verb)));
        res.push(Arg::Text(String::from_str(object)));
        res.push(Arg::Text(String::from_str("--dir")));
        res.push(Arg::Dir(dir));
        let on_cluster = match self {
            InstallerTask::CreateCluster => true,
            InstallerTask::DestroyCluster => true,
            _ => false,
        };
        if on_cluster && log_debug {
            res.push(Arg::Text(String::from_str("--log-level=debug")));
        }
        assert(res@.map_values(|a: Arg| a@) =~= self.spec_args(dir, log_debug));
        res
    }
}

/// The installer to run: one of a version, or the plain one.
pub open spec fn installer_program(version: Option<Seq<char>>) -> Seq<char> {
    match version {
        Some(version) => "openshift-install-"@ + version,
        None => "openshift-install"@,
    }
}

/// The installer, without arguments yet. `memory` and `cpus` are what the host
/// answered, if it was asked.
pub open spec fn base_command(
    version: Option<Seq<char>>,
    libvirt_auto_size: bool,
    size: Option<ClusterSize>,
    memory: Result<u64, String>,
    cpus: Result<u32, String>,
) -> CommandView {
    let mem = master_mem_for(libvirt_auto_size, masters_of(size) as u64, memory);
    let cpu = master_cpu_for(libvirt_auto_size, masters_of(size), cpus);
    CommandView {
        program: installer_program(version),
        env: seq![
            ("OPENSHIFT_INSTALL_INVOKER"@, "xokdinst"@),
            ("TF_VAR_libvirt_master_memory"@, decimal_text(mem.0 as nat)),
            ("TF_VAR_libvirt_master_vcpu"@, decimal_text(cpu.0 as nat)),
        ],
        args: seq![],
        warnings: warnings_of(mem.1) + warnings_of(cpu.1),
        host: if libvirt_auto_size {
            Some(HostAnswers { memory, cpus })
        } else {
            None
        },
    }
}

/// The warnings that there are.
pub open spec fn warnings_of(warning: Option<HostWarning>) -> Seq<HostWarning> {
    match warning {
        Some(warning) => seq![warning],
        None => seq![],
    }
}

/// One environment variable, if it has a value.
pub open spec fn optional_env(name: Seq<char>, value: Option<Seq<char>>) -> Seq<
    (Seq<char>, Seq<char>),
> {
    match value {
        Some(value) => seq![(name, value)],
        None => seq![],
    }
}

/// The environment variables that the options of a launch set.
pub open spec fn launch_env(o: LaunchOpts) -> Seq<(Seq<char>, Seq<char>)> {
    optional_env("OPENSHIFT_INSTALL_RELEASE_IMAGE_OVERRIDE"@, optional_text(o.release_image))
        + optional_env("OPENSHIFT_INSTALL_OS_IMAGE_OVERRIDE"@, optional_text(o.boot_image))
        + optional_env(
        "OPENSHIFT_INSTALL_PRESERVE_BOOTSTRAP"@,
        if o.keep_bootstrap {
            Some("true"@)
        } else {
            None
        },
    )
}

/// The installer for a launch, without arguments yet. `memory` and `cpus` are
/// what the host answered, if it was asked.
pub open spec fn launch_command(
    o: LaunchOpts,
    memory: Result<u64, String>,
    cpus: Result<u32, String>,
) -> CommandView {
    let base = base_command(
        optional_text(o.install_run_opts.installer_version),
        o.install_run_opts.libvirt_auto_size,
        o.size,
        memory,
        cpus,
    );
    CommandView { env: base.env + launch_env(o), ..base }
}

impl CommandView {
    /// The same call with the arguments of a task, to be done in a directory,
    /// behind those that it has.
    pub open spec fn with_task(self, task: InstallerTask, dir: Place, log_debug: bool) -> CommandView {
        CommandView { args: self.args + task.spec_args(dir, log_debug), ..self }
    }
}

impl InstallerCommand {
    /// Sets an environment variable.
    fn set_env(&mut self, name: &str, value: &str)
        ensures
            final(self)@ == (CommandView {
                env: old(self)@.env.push((name@, value@)),
                ..old(self)@
            }),
    {
        self.env.push((String::from_str(name), String::from_str(value)));
        assert(self@.env =~= old(self)@.env.push((name@, value@)));
    }

    /// Adds the arguments of a task, to be done in a directory.
    pub fn add_task(&mut self, task: InstallerTask, dir: Place, log_debug: bool)
        ensures
            final(self)@ == old(self)@.with_task(task, dir, log_debug),
    {
        let mut args = task.args(dir, log_debug);
        let ghost new_args = args@;
        let ghost old_args = self.args@;
        self.args.append(&mut args);
        assert(self.args@ =~= old_args + new_args);
        assert(self@.args =~= old(self)@.args + task.spec_args(dir, log_debug));
    }
}

/// Puts the call of the installer together, given what a master machine gets.
pub fn installer_command(
    version: Option<&str>,
    mem: (u64, Option<HostWarning>),
    cpu: (u32, Option<HostWarning>),
    host: Option<HostAnswers>,
) -> (res: InstallerCommand)
    ensures
        res@ == (CommandView {
            program: installer_program(borrowed_text(version)),
            env: seq![
                ("OPENSHIFT_INSTALL_INVOKER"@, "xokdinst"@),
                ("TF_VAR_libvirt_master_memory"@, decimal_text(mem.0 as nat)),
                ("TF_VAR_libvirt_master_vcpu"@, decimal_text(cpu.0 as nat)),
            ],
            args: seq![],
            warnings: warnings_of(mem.1) + warnings_of(cpu.1),
            host,
        }),
{
    let program = match version {
        Some(version) => String::from_str("openshift-install-").concat(version),
        None => String::from_str("openshift-install"),
    };
    let mut warnings: Vec<HostWarning> = Vec::new();
    if let Some(warning) = mem.1 {
        warnings.push(warning);
    }
    if let Some(warning) = cpu.1 {
        warnings.push(warning);
    }
    let memory = decimal(mem.0);
    let cpus = decimal(cpu.0 as u64);
    let mut res = InstallerCommand { program, env: Vec::new(), args: Vec::new(), warnings, host };
    assert(res@.warnings =~= warnings_of(mem.1) + warnings_of(cpu.1));
    assert(res@.args =~= seq![]);
    res.set_env("OPENSHIFT_INSTALL_INVOKER", "xokdinst");
    res.set_env("TF_VAR_libvirt_master_memory", memory.as_str());
    res.set_env("TF_VAR_libvirt_master_vcpu", cpus.as_str());
    assert(res@.env =~= seq![
        ("OPENSHIFT_INSTALL_INVOKER"@, "xokdinst"@),
        ("TF_VAR_libvirt_master_memory"@, decimal_text(mem.0 as nat)),
        ("TF_VAR_libvirt_master_vcpu"@, decimal_text(cpu.0 as nat)),
    ]);
    res
}

/// Puts the call of the installer together, without arguments yet, given what
/// the host answered if it was asked.
pub fn installer_for(
    version: Option<&str>,
    libvirt_auto_size: bool,
    size: Option<&ClusterSize>,
    memory: Result<u64, String>,
    cpus: Result<u32, String>,
) -> (res: InstallerCommand)
    ensures
        res@ == base_command(
            borrowed_text(version),
            libvirt_auto_size,
            borrowed_size(size),
            memory,
            cpus,
        ),
{
    let masters: u32 = match size {
        Some(size) => size.masters(),
        None => ClusterSize::Single.masters(),
    };
    let mem = master_mem(libvirt_auto_size, masters as u64, copy_answer(&memory));
    let cpu = master_cpu(libvirt_auto_size, masters, copy_answer(&cpus));
    let host = if libvirt_auto_size {
        Some(HostAnswers { memory, cpus })
    } else {
        None
    };
    installer_command(version, mem, cpu, host)
}

/// Puts the call of the installer together, without arguments yet. The host is
/// asked only if the size is to be discovered; what it answered is in the call,
/// and the shares are those of this size.
pub fn cmd_installer(
    version: Option<&str>,
    libvirt_auto_size: bool,
    size: Option<&ClusterSize>,
) -> (res: InstallerCommand)
    ensures
        exists|memory: Result<u64, String>, cpus: Result<u32, String>|
            res@ == #[trigger] base_command(
                borrowed_text(version),
                libvirt_auto_size,
                borrowed_size(size),
                memory,
                cpus,
            ),
{
    let memory = ask_memory(libvirt_auto_size);
    let cpus = ask_cpus(libvirt_auto_size);
    installer_for(version, libvirt_auto_size, size, memory, cpus)
}

/// Sets the environment variables that the options of a launch ask for.
pub fn add_launch_env(base: InstallerCommand, o: &LaunchOpts) -> (res: InstallerCommand)
    ensures
        res@ == (CommandView { env: base@.env + launch_env(*o), ..base@ }),
{
    let mut cmd = base;
    if let Some(image) = &o.release_image {
        cmd.set_env("OPENSHIFT_INSTALL_RELEASE_IMAGE_OVERRIDE", image.as_str());
    }
    if let Some(image) = &o.boot_image {
        cmd.set_env("OPENSHIFT_INSTALL_OS_IMAGE_OVERRIDE", image.as_str());
    }
    if o.keep_bootstrap {
        cmd.set_env("OPENSHIFT_INSTALL_PRESERVE_BOOTSTRAP", "true");
    }
    assert(cmd@.env =~= base@.env + launch_env(*o));
    cmd
}

/// Puts the call of the installer for a launch together, without arguments yet,
/// given what the host answered if it was asked.
pub fn launch_installer_for(
    o: &LaunchOpts,
    memory: Result<u64, String>,
    cpus: Result<u32, String>,
) -> (res: InstallerCommand)
    ensures
        res@ == launch_command(*o, memory, cpus),
{
    let installer_version = match &o.install_run_opts.installer_version {
        Some(version) => Some(version.as_str()),
        None => None,
    };
    let size = match &o.size {
        Some(size) => Some(size),
        None => None,
    };
    let auto = o.install_run_opts.libvirt_auto_size;
    add_launch_env(installer_for(installer_version, auto, size, memory, cpus), o)
}

/// Puts the call of the installer for a launch together, without arguments yet.
/// The host is asked only if the size is to be discovered; what it answered is
/// in the call.
pub fn cmd_launch_installer(o: &LaunchOpts) -> (res: InstallerCommand)
    ensures
        exists|memory: Result<u64, String>, cpus: Result<u32, String>|
            res@ == #[trigger] launch_command(*o, memory, cpus),
{
    let memory = ask_memory(o.install_run_opts.libvirt_auto_size);
    let cpus = ask_cpus(o.install_run_opts.libvirt_auto_size);
    launch_installer_for(o, memory, cpus)
}

/// Whether a run of the installer did what it was asked.
pub open spec fn outcome_of(outcome: InstallerOutcome) -> Result<(), Failure> {
    match outcome {
        InstallerOutcome::Succeeded => Ok(()),
        InstallerOutcome::Failed => Err(Failure::InstallerFailed),
        InstallerOutcome::NotRun(reason) => Err(Failure::InstallerNotRun(reason)),
    }
}

/// Judges a run of the installer by how it ended.
pub fn run_installer(outcome: InstallerOutcome) -> (res: Result<(), Failure>)
    ensures
        res == outcome_of(outcome),
{
    match outcome {
        InstallerOutcome::Succeeded => Ok(()),
        InstallerOutcome::Failed => Err(Failure::InstallerFailed),
        InstallerOutcome::NotRun(reason) => Err(Failure::InstallerNotRun(reason)),
    }
}

/// Without a size the installer is called as for a single node.
pub proof fn no_size_is_a_single_node(
    version: Option<Seq<char>>,
    libvirt_auto_size: bool,
    memory: Result<u64, String>,
    cpus: Result<u32, String>,
)
    ensures
        base_command(version, libvirt_auto_size, None, memory, cpus) == base_command(
            version,
            libvirt_auto_size,
            Some(ClusterSize::Single),
            memory,
            cpus,
        ),
{
}

/// Where the resources are not to be discovered, the installer is called alike
/// for every size and on every host.
pub proof fn size_counts_only_if_discovered(
    version: Option<Seq<char>>,
    size: Option<ClusterSize>,
    memory: Result<u64, String>,
    cpus: Result<u32, String>,
    other_size: Option<ClusterSize>,
    other_memory: Result<u64, String>,
    other_cpus: Result<u32, String>,
)
    ensures
        base_command(version, false, size, memory, cpus) == base_command(
            version,
            false,
            other_size,
            other_memory,
            other_cpus,
        ),
{
}

/// On the same host the installer of a launch is called as the plain one of the
/// same version and size, with the overrides of the launch behind the
/// environment variables of that.
pub proof fn launch_adds_its_overrides(
    o: LaunchOpts,
    memory: Result<u64, String>,
    cpus: Result<u32, String>,
)
    ensures
        ({
            let base = base_command(
                optional_text(o.install_run_opts.installer_version),
                o.install_run_opts.libvirt_auto_size,
                o.size,
                memory,
                cpus,
            );
            let launch = launch_command(o, memory, cpus);
            &&& launch.program == base.program
            &&& launch.args == Seq::<ArgView>::empty()
            &&& launch.env == base.env + launch_env(o)
            &&& launch.warnings == base.warnings
            &&& launch.host == base.host
        }),
{
}

/// How the installer of a launch is called, before its task is known, does not
/// depend on the name of the cluster, on what is destroyed before, on the
/// platform, the configuration or the release stream that were named, on the
/// user's manifests, nor on debug logging.
pub proof fn other_options_do_not_reach_the_installer(
    o: LaunchOpts,
    p: LaunchOpts,
    memory: Result<u64, String>,
    cpus: Result<u32, String>,
)
    requires
        p == (LaunchOpts {
            name: p.name,
            destroy: p.destroy,
            platform: p.platform,
            config: p.config,
            release_stream: p.release_stream,
            manifests: p.manifests,
            install_run_opts: InstallRunOpts {
                log_debug: p.install_run_opts.log_debug,
                ..o.install_run_opts
            },
            ..o
        }),
    ensures
        launch_command(o, memory, cpus) == launch_command(p, memory, cpus),
{
}

/// Every task that works on files is given the directory with `--dir`, debug
/// logging or not.
pub proof fn dir_option_is_followed_by_the_directory(
    task: InstallerTask,
    dir: Place,
    log_debug: bool,
)
    requires
        !(task is Version),
    ensures
        task.spec_args(dir, log_debug).len() >= 4,
        task.spec_args(dir, log_debug)[2] == ArgView::Text("--dir"@),
        task.spec_args(dir, log_debug)[3] == ArgView::Dir(dir),
{
}

/// Whether the call gives a directory of this name, below the configuration
/// directory, right behind `--dir`, and no other directory.
pub open spec fn works_in_dir_of(cmd: CommandView, name: Seq<char>) -> bool {
    &&& cmd.args.len() >= 4
    &&& cmd.args[2] == ArgView::Text("--dir"@)
    &&& cmd.args[3] matches ArgView::Dir(dir)
    &&& dir.spec_base() == Base::Config
    &&& dir.spec_parts() == seq![name]
    &&& forall|i: int| 0 <= i < cmd.args.len() && #[trigger] cmd.args[i] is Dir ==> i == 3
}

/// Debug logging of the installer is on where it is asked for and only there.
pub proof fn debug_logging_is_passed_on(task: InstallerTask, dir: Place, log_debug: bool)
    requires
        task is CreateCluster || task is DestroyCluster,
    ensures
        log_debug == task.spec_args(dir, log_debug).contains(
            ArgView::Text("--log-level=debug"@),
        ),
{
    reveal_strlit("--log-level=debug");
    reveal_strlit("--dir");
    reveal_strlit("create");
    reveal_strlit("destroy");
    reveal_strlit("cluster");
    let args = task.spec_args(dir, log_debug);
    if log_debug {
        assert(args[4] == ArgView::Text("--log-level=debug"@));
    } else {
        let debug = "--log-level=debug"@;
        assert(debug.len() == 17);
        assert(args[0]->Text_0.len() < 17);
        assert(args[1]->Text_0.len() < 17);
        assert(args[2]->Text_0.len() < 17);
    }
}

/// The installer is the plain one, or the one of the version that is wanted.
pub proof fn program_is_that_of_the_version(
    version: Option<Seq<char>>,
    libvirt_auto_size: bool,
    size: Option<ClusterSize>,
    memory: Result<u64, String>,
    cpus: Result<u32, String>,
)
    ensures
        ({
            let cmd = base_command(version, libvirt_auto_size, size, memory, cpus);
            &&& version is None ==> cmd.program == "openshift-install"@
            &&& version matches Some(v) ==> cmd.program == "openshift-install-"@ + v
            &&& cmd.args.len() == 0
        }),
{
}

/// The environment tells the installer who calls it, and numerals of the memory
/// and of the processors of a master: the minimum if the host was not asked, and
/// otherwise the share of the host in a cluster of this size, three machines for
/// a compact one and else one.
pub proof fn environment_has_the_shares(
    version: Option<Seq<char>>,
    libvirt_auto_size: bool,
    size: Option<ClusterSize>,
    memory: Result<u64, String>,
    cpus: Result<u32, String>,
)
    ensures
        ({
            let cmd = base_command(version, libvirt_auto_size, size, memory, cpus);
            let machines: int = if size == Some(ClusterSize::Compact) {
                3
            } else {
                1
            };
            let kb_per_gb: int = 1048576;
            let taken = (4 * machines + 2) * kb_per_gb;
            let mem = numeral_value(cmd.env[1].1);
            let cpu = numeral_value(cmd.env[2].1);
            &&& cmd.env.len() == 3
            &&& cmd.env[0] == ("OPENSHIFT_INSTALL_INVOKER"@, "xokdinst"@)
            &&& cmd.env[1].0 == "TF_VAR_libvirt_master_memory"@
            &&& cmd.env[2].0 == "TF_VAR_libvirt_master_vcpu"@
            &&& !libvirt_auto_size || memory is Err ==> mem == 4096
            &&& libvirt_auto_size ==> (memory matches Ok(avail) ==> if avail >= taken + 4
                * kb_per_gb {
                taken + mem * 1024 <= avail < taken + (mem + 1) * 1024
            } else {
                mem == 4096
            })
            &&& !libvirt_auto_size || cpus is Err ==> cpu == 2
            &&& libvirt_auto_size ==> (cpus matches Ok(n) ==> if n >= 2 * machines + 2 {
                cpu == n - 2 * machines
            } else {
                cpu == 2
            })
        }),
{
    let mem = master_mem_for(libvirt_auto_size, masters_of(size) as u64, memory).0;
    let cpu = master_cpu_for(libvirt_auto_size, masters_of(size), cpus).0;
    numeral_stands_for_the_number(mem as nat);
    numeral_stands_for_the_number(cpu as nat);
}

/// The environment of the installer is written in plain decimal numerals.
pub proof fn shares_are_plain_numerals(
    version: Option<Seq<char>>,
    libvirt_auto_size: bool,
    size: Option<ClusterSize>,
    memory: Result<u64, String>,
    cpus: Result<u32, String>,
    k: int,
)
    requires
        k == 1 || k == 2,
    ensures
        ({
            let text = base_command(version, libvirt_auto_size, size, memory, cpus).env[k].1;
            &&& text.len() > 0
            &&& forall|i: int| 0 <= i < text.len() ==> '0' <= #[trigger] text[i] <= '9'
            &&& text[0] != '0'
        }),
{
    let mem = master_mem_for(libvirt_auto_size, masters_of(size) as u64, memory).0;
    let cpu = master_cpu_for(libvirt_auto_size, masters_of(size), cpus).0;
    numeral_stands_for_the_number(mem as nat);
    numeral_stands_for_the_number(cpu as nat);
}

/// The user is told of a host that was asked and could not be: of its memory
/// first, then of its processors, and of nothing else. What the host answered is
/// kept if it was asked, and only then.
pub proof fn host_that_was_asked_is_kept(
    version: Option<Seq<char>>,
    libvirt_auto_size: bool,
    size: Option<ClusterSize>,
    memory: Result<u64, String>,
    cpus: Result<u32, String>,
)
    ensures
        ({
            let cmd = base_command(version, libvirt_auto_size, size, memory, cpus);
            &&& !libvirt_auto_size ==> cmd.warnings.len() == 0 && cmd.host is None
            &&& libvirt_auto_size ==> cmd.host == Some(HostAnswers { memory, cpus })
            &&& libvirt_auto_size ==> match (memory, cpus) {
                (Ok(_), Ok(_)) => cmd.warnings.len() == 0,
                (Err(m), Ok(_)) => cmd.warnings == seq![HostWarning::Memory(m)],
                (Ok(_), Err(c)) => cmd.warnings == seq![HostWarning::Cpus(c)],
                (Err(m), Err(c)) => cmd.warnings == seq![
                    HostWarning::Memory(m),
                    HostWarning::Cpus(c),
                ],
            }
        }),
{
    let cmd = base_command(version, libvirt_auto_size, size, memory, cpus);
    if libvirt_auto_size {
        match (memory, cpus) {
            (Ok(_), Ok(_)) => {},
            (Err(m), Ok(_)) => {
                assert(cmd.warnings =~= seq![HostWarning::Memory(m)]);
            },
            (Ok(_), Err(c)) => {
                assert(cmd.warnings =~= seq![HostWarning::Cpus(c)]);
            },
            (Err(m), Err(c)) => {
                assert(cmd.warnings =~= seq![HostWarning::Memory(m), HostWarning::Cpus(c)]);
            },
        }
    }
}

/// Whether an environment variable is set to this value behind the first three.
pub open spec fn overrides_with(cmd: CommandView, name: Seq<char>, value: Seq<char>) -> bool {
    exists|i: int| 3 <= i < cmd.env.len() && #[trigger] cmd.env[i] == (name, value)
}

/// A launch overrides the release image, the boot image and the removal of the
/// bootstrap machine exactly as far as its options say, and nothing else; what it
/// does not override is as without a launch.
pub proof fn overrides_are_those_of_the_options(
    o: LaunchOpts,
    memory: Result<u64, String>,
    cpus: Result<u32, String>,
    name: Seq<char>,
    value: Seq<char>,
)
    ensures
        ({
            let cmd = launch_command(o, memory, cpus);
            let base = base_command(
                optional_text(o.install_run_opts.installer_version),
                o.install_run_opts.libvirt_auto_size,
                o.size,
                memory,
                cpus,
            );
            let set: int = (if o.release_image is Some {
                1int
            } else {
                0
            }) + (if o.boot_image is Some {
                1int
            } else {
                0
            }) + (if o.keep_bootstrap {
                1int
            } else {
                0
            });
            &&& cmd.program == base.program
            &&& cmd.warnings == base.warnings
            &&& cmd.host == base.host
            &&& cmd.args.len() == 0
            &&& cmd.env.len() == 3 + set
            &&& cmd.env.take(3) == base.env
            &&& overrides_with(cmd, name, value) <==> {
                ||| name == "OPENSHIFT_INSTALL_RELEASE_IMAGE_OVERRIDE"@ && (
                o.release_image matches Some(image) && value == image@)
                ||| name == "OPENSHIFT_INSTALL_OS_IMAGE_OVERRIDE"@ && (o.boot_image matches Some(
                    image,
                ) && value == image@)
                ||| name == "OPENSHIFT_INSTALL_PRESERVE_BOOTSTRAP"@ && o.keep_bootstrap && value
                    == "true"@
            }
        }),
{
    let cmd = launch_command(o, memory, cpus);
    let base = base_command(
        optional_text(o.install_run_opts.installer_version),
        o.install_run_opts.libvirt_auto_size,
        o.size,
        memory,
        cpus,
    );
    assert(cmd.env.take(3) =~= base.env);
    let released: int = if o.release_image is Some {
        1
    } else {
        0
    };
    let booted: int = if o.boot_image is Some {
        1
    } else {
        0
    };
    if let Some(image) = o.release_image {
        assert(cmd.env[3] == ("OPENSHIFT_INSTALL_RELEASE_IMAGE_OVERRIDE"@, image@));
    }
    if let Some(image) = o.boot_image {
        assert(cmd.env[3 + released] == ("OPENSHIFT_INSTALL_OS_IMAGE_OVERRIDE"@, image@));
    }
    if o.keep_bootstrap {
        assert(cmd.env[3 + released + booted] == (
            "OPENSHIFT_INSTALL_PRESERVE_BOOTSTRAP"@,
            "true"@,
        ));
    }
}

/// The installer is asked for its version by that one word. Every other task is
/// two words and the directory behind `--dir`; debug logging, where it is wanted,
/// follows when the cluster is created or destroyed, and nothing else does.
pub proof fn task_is_asked_for_by_its_words(task: InstallerTask, dir: Place, log_debug: bool)
    ensures
        ({
            let args = task.spec_args(dir, log_debug);
            let on_cluster = task == InstallerTask::CreateCluster || task
                == InstallerTask::DestroyCluster;
            &&& task == InstallerTask::Version ==> args == seq![ArgView::Text("version"@)]
            &&& task != InstallerTask::Version ==> {
                &&& args.len() == (if on_cluster && log_debug {
                    5int
                } else {
                    4
                })
                &&& args[0] == ArgView::Text(
                    if task == InstallerTask::DestroyCluster {
                        "destroy"@
                    } else {
                        "create"@
                    },
                )
                &&& on_cluster ==> args[1] == ArgView::Text("cluster"@)
                &&& task == InstallerTask::CreateManifests ==> args[1] == ArgView::Text(
                    "manifests"@,
                )
                &&& task == InstallerTask::CreateInstallConfig ==> args[1] == ArgView::Text(
                    "install-config"@,
                )
                &&& args[2] == ArgView::Text("--dir"@)
                &&& args[3] == ArgView::Dir(dir)
                &&& on_cluster && log_debug ==> args[4] == ArgView::Text("--log-level=debug"@)
            }
        }),
{
}

/// A task adds its arguments behind those of a call and leaves the rest alone.
pub proof fn task_adds_only_arguments(
    cmd: CommandView,
    task: InstallerTask,
    dir: Place,
    log_debug: bool,
)
    ensures
        ({
            let asked = cmd.with_task(task, dir, log_debug);
            &&& asked.program == cmd.program
            &&& asked.env == cmd.env
            &&& asked.warnings == cmd.warnings
            &&& asked.host == cmd.host
            &&& cmd.args.len() == 0 ==> asked.args == task.spec_args(dir, log_debug)
        }),
{
    if cmd.args.len() == 0 {
        assert(cmd.with_task(task, dir, log_debug).args =~= task.spec_args(dir, log_debug));
    }
}

/// A run of the installer counts as done exactly if it ran and succeeded; else the
/// failure says whether it failed or could not be run, and then why.
pub proof fn only_success_counts(outcome: InstallerOutcome)
    ensures
        outcome_of(outcome) is Ok <==> outcome is Succeeded,
        outcome is Failed ==> outcome_of(outcome) == Err::<(), Failure>(Failure::InstallerFailed),
        outcome matches InstallerOutcome::NotRun(reason) ==> outcome_of(outcome) == Err::<
            (),
            Failure,
        >(Failure::InstallerNotRun(reason)),
{
}

/// What is said of a call is what is in it: its program, every environment variable
/// and every argument in their order, the warnings and the answers of the host.
pub proof fn call_is_what_is_said_of_it(cmd: InstallerCommand, k: int)
    ensures
        cmd@.program == cmd.program@,
        cmd@.env.len() == cmd.env@.len(),
        0 <= k < cmd.env@.len() ==> cmd@.env[k] == (cmd.env@[k].0@, cmd.env@[k].1@),
        cmd@.args.len() == cmd.args@.len(),
        0 <= k < cmd.args@.len() ==> match cmd.args@[k] {
            Arg::Text(text) => cmd@.args[k] == ArgView::Text(text@),
            Arg::Dir(dir) => cmd@.args[k] == ArgView::Dir(dir),
        },
        cmd@.warnings == cmd.warnings@,
        cmd@.host == cmd.host,
{
}

} // verus!
