//! What the functions of the library return, call by call.

use vstd::prelude::*;

use crate::config::{
    machine_config_carries_the_ignition, machineconfig_from_ign_for_role, AUTOLOGIN_CONFIG,
};
use crate::destroy::{get_clusterdir, Destroy};
use crate::failure::{item_lines, Failure, Notice};
use crate::generate::{GenerateConfig, GenerateState};
use crate::host::{
    get_master_cpu, get_master_mem, master_cpu, master_mem, masters_get_what_is_left,
    silent_host_is_told, HostWarning,
};
use crate::install_config::{
    customize, inject_pull_secret, into_template, InstallConfig, InstallConfigMachines,
    InstallConfigPlatform, LaunchedConfig,
};
use crate::installer::{
    base_command, cmd_installer, cmd_launch_installer, environment_has_the_shares,
    host_that_was_asked_is_kept, installer_for, launch_command, launch_installer_for,
    overrides_are_those_of_the_options, program_is_that_of_the_version, run_installer,
    task_is_asked_for_by_its_words, Arg, ArgView, InstallerCommand, InstallerOutcome, InstallerTask,
};
use crate::json::{json_parsed, json_pretty_text, json_value, JsonView};
use crate::launch::{Launch, LaunchState};
use crate::launch_history::{same_machines, same_text};
use crate::listing::{
    clusters_table, list_has_a_line_per_item, print_clusters, print_list, row_has_three_columns,
    status_says_what_is_there, tab_aligned, table_has_a_line_per_cluster, ClusterFacts,
};
use crate::manifests::{
    autologin_manifest, make_manifest, UnreadableConfig, SINGLE_MASTER_ETCD, SINGLE_MASTER_INGRESS,
};
use crate::names::{
    clusters_keep_their_order, configs_keep_their_order, get_clusters, get_config_name, get_configs,
    select_config, ConfigChoice, ConfigFile, ConfigSource, DirEntry,
};
use crate::options::{GenConfigOpts, LaunchOpts};
use crate::place::{
    cluster_files_have_fixed_names, manifests_lie_in_the_openshift_dir, Base, ClusterFile, Manifest, Place, Role,
};
use crate::platform::{ClusterSize, Platform};
use crate::release::{
    get_latest_release, latest_release_url, release_address_text, url_parsed, BadReleaseUrl,
    LatestRelease,
};
use crate::text::{decimal, numeral_stands_for_the_number, numeral_value, optional_text};

verus! {

/// The status that is listed says what is there, whatever the name and the
/// platform are.
pub proof fn state_says_what_is_there(c: &ClusterFacts, res: &'static str)
    requires
        call_ensures(ClusterFacts::state, (c,), res),
    ensures
        res@ == "install-failed"@ <==> c.failed,
        res@ == "launched"@ <==> c.has_kubeconfig && !c.failed,
        res@ == "unknown"@ <==> !c.has_kubeconfig && !c.failed,
{
    status_says_what_is_there(*c);
}

/// The table of one more cluster has one more line, of three columns; that of no
/// cluster has its headings alone.
pub proof fn table_grows_by_a_line(
    clusters: &Vec<ClusterFacts>,
    more: &Vec<ClusterFacts>,
    c: ClusterFacts,
    table: String,
    longer: String,
)
    requires
        call_ensures(clusters_table, (clusters,), table),
        call_ensures(clusters_table, (more,), longer),
        more@ == clusters@.push(c),
    ensures
        clusters@.len() == 0 ==> table@ == "NAME\tPLATFORM\tSTATUS\n"@,
        exists|platform: Seq<char>, status: Seq<char>|
            {
                &&& longer@ == table@ + #[trigger] (c.name@ + "\t"@ + platform + "\t"@ + status
                    + "\n"@)
                &&& c.platform is None ==> platform == "<unknown>"@
                &&& c.platform == Some(Platform::Libvirt) ==> platform == "Libvirt"@
                &&& c.platform == Some(Platform::AWS) ==> platform == "AWS"@
                &&& c.platform == Some(Platform::GCP) ==> platform == "GCP"@
                &&& c.platform == Some(Platform::AZURE) ==> platform == "AZURE"@
                &&& c.failed ==> status == "install-failed"@
                &&& !c.failed && c.has_kubeconfig ==> status == "launched"@
                &&& !c.failed && !c.has_kubeconfig ==> status == "unknown"@
            },
{
    row_has_three_columns(c);
    table_has_a_line_per_cluster(clusters@, c);
    if clusters@.len() == 0 {
        assert(clusters@ =~= Seq::<ClusterFacts>::empty());
    }
}

/// What is printed of clusters is their table with its columns aligned.
pub proof fn clusters_are_printed_as_their_table(
    clusters: &Vec<ClusterFacts>,
    table: String,
    printed: String,
)
    requires
        call_ensures(clusters_table, (clusters,), table),
        call_ensures(print_clusters, (clusters,), printed),
    ensures
        clusters@.len() == 0 ==> printed@ == "No clusters.\n"@,
        clusters@.len() > 0 ==> printed@ == tab_aligned(table@),
{
}

/// A printed list of one more item has one more indented line.
pub proof fn list_grows_by_a_line(
    header: &str,
    l: &[String],
    more: &[String],
    item: String,
    printed: String,
    longer: String,
)
    requires
        call_ensures(print_list, (header, l), printed),
        call_ensures(print_list, (header, more), longer),
        more@ == l@.push(item),
    ensures
        l@.len() == 0 ==> printed@ == "No "@ + header@ + ".\n"@,
        l@.len() == 0 ==> longer@ == "  "@ + item@ + "\n"@,
        l@.len() > 0 ==> longer@ == printed@ + "  "@ + item@ + "\n"@,
{
    list_has_a_line_per_item(header@, l@, item);
    if l@.len() == 0 {
        assert(l@ =~= Seq::<String>::empty());
        assert(more@ =~= seq![item]);
    }
}

/// The configurations of a directory with one more file are those of the directory
/// without it, and that file if it is named `config-<x>.yaml`.
pub proof fn configs_grow_by_the_file(
    names: &Vec<Option<String>>,
    more: &Vec<Option<String>>,
    name: Option<String>,
    configs: Vec<String>,
    longer: Vec<String>,
)
    requires
        call_ensures(get_configs, (names,), configs),
        call_ensures(get_configs, (more,), longer),
        more@ == names@.push(name),
    ensures
        names@.len() == 0 ==> configs@.len() == 0,
        name is None ==> longer@ == configs@,
        name matches Some(n) ==> ((exists|x: Seq<char>| n@ == "config-"@ + x + ".yaml"@)
            ==> longer@ == configs@.push(n)),
        name matches Some(n) ==> (!(exists|x: Seq<char>| n@ == "config-"@ + x + ".yaml"@)
            ==> longer@ == configs@),
{
    configs_keep_their_order(names@, name);
    if names@.len() == 0 {
        assert(names@ =~= Seq::<Option<String>>::empty());
    }
}

/// The clusters of a directory with one more file are those of the directory
/// without it, and that file if it is a directory whose name is text.
pub proof fn clusters_grow_by_the_directory(
    entries: &Vec<DirEntry>,
    more: &Vec<DirEntry>,
    entry: DirEntry,
    clusters: Vec<String>,
    longer: Vec<String>,
)
    requires
        call_ensures(get_clusters, (entries,), clusters),
        call_ensures(get_clusters, (more,), longer),
        more@ == entries@.push(entry),
    ensures
        entries@.len() == 0 ==> clusters@.len() == 0,
        !entry.is_dir || entry.name is None ==> longer@ == clusters@,
        entry.is_dir ==> (entry.name matches Some(n) ==> longer@ == clusters@.push(n)),
{
    clusters_keep_their_order(entries@, entry);
    if entries@.len() == 0 {
        assert(entries@ =~= Seq::<DirEntry>::empty());
    }
}

/// The file for a configuration is named after its name, or after the platform.
pub proof fn config_name_is_after_name_or_platform(
    name: &Option<String>,
    platform: &Platform,
    res: String,
)
    requires
        call_ensures(get_config_name, (name, platform), res),
    ensures
        res@ == "config-"@ + (match *name {
            Some(n) => n@,
            None => match *platform {
                Platform::Libvirt => "libvirt"@,
                Platform::AWS => "aws"@,
                Platform::GCP => "gcp"@,
                Platform::AZURE => "azure"@,
            },
        }) + ".yaml"@,
{
}

/// What a choice is called is the name that it holds, or that of the platform's
/// file; it is looked for under that, and then with `config-` and `.yaml` around.
pub proof fn choice_is_called_by_its_name(
    choice: ConfigChoice,
    called: String,
    first: String,
    second: String,
)
    requires
        call_ensures(ConfigChoice::text, (&choice,), called),
        call_ensures(ConfigFile::text, (&ConfigFile::Chosen(choice),), first),
        call_ensures(ConfigFile::text, (&ConfigFile::Full(choice),), second),
    ensures
        match choice {
            ConfigChoice::Given(name) => called@ == name@,
            ConfigChoice::Only(name) => called@ == name@,
            ConfigChoice::Generated(name) => called@ == name@,
            ConfigChoice::Default(platform) => called@ == "config-"@ + platform.file_tag()
                + ".yaml"@,
        },
        first@ == called@,
        second@ == "config-"@ + called@ + ".yaml"@,
{
}

/// The file that a new configuration goes to is called as its name or its platform
/// says, and a file that was named outright is called that.
pub proof fn file_is_called_by_its_name(
    name: Option<String>,
    platform: Platform,
    plain: String,
    res: String,
    plain_res: String,
    same: String,
)
    requires
        call_ensures(ConfigFile::text, (&ConfigFile::Named(name, platform),), res),
        call_ensures(get_config_name, (&name, &platform), same),
        call_ensures(ConfigFile::text, (&ConfigFile::Plain(plain),), plain_res),
    ensures
        res@ == same@,
        plain_res@ == plain@,
{
}

/// The configuration that is selected, by the name that it then has.
pub proof fn selection_goes_by_name_platform_and_number(
    config: &Option<String>,
    platform: &Option<Platform>,
    configs: &Vec<String>,
    res: Result<ConfigSource, Failure>,
)
    requires
        call_ensures(select_config, (config, platform, configs), res),
    ensures
        *config matches Some(name) ==> (res matches Ok(ConfigSource::Use(choice))
            && choice.spec_text() == name@),
        *config is None && configs@.len() == 0 ==> res == Ok::<ConfigSource, Failure>(
            ConfigSource::Generate,
        ),
        *config is None && configs@.len() > 0 ==> (*platform matches Some(p) ==> (res matches Ok(
            ConfigSource::Use(choice),
        ) && choice.spec_text() == "config-"@ + p.file_tag() + ".yaml"@)),
        *config is None && *platform is None && configs@.len() == 1 ==> (res matches Ok(
            ConfigSource::Use(choice),
        ) && choice.spec_text() == configs@[0]@),
        *config is None && *platform is None && configs@.len() > 1 ==> res == Err::<
            ConfigSource,
            Failure,
        >(Failure::ManyConfigs),
{
}

/// The names of a platform, shown and in file names.
pub proof fn platform_has_its_names(p: Platform, shown: String, tag: &'static str)
    requires
        call_ensures(Platform::to_string, (&p,), shown),
        call_ensures(Platform::tag, (&p,), tag),
    ensures
        match p {
            Platform::Libvirt => shown@ == "Libvirt"@ && tag@ == "libvirt"@,
            Platform::AWS => shown@ == "AWS"@ && tag@ == "aws"@,
            Platform::GCP => shown@ == "GCP"@ && tag@ == "gcp"@,
            Platform::AZURE => shown@ == "AZURE"@ && tag@ == "azure"@,
        },
{
}

/// The masters of a size, and the platform of settings whatever they are.
pub proof fn sizes_and_settings_are_told_apart(
    size: ClusterSize,
    masters: u32,
    settings: InstallConfigPlatform,
    platform: Platform,
)
    requires
        call_ensures(ClusterSize::masters, (&size,), masters),
        call_ensures(InstallConfigPlatform::to_platform, (&settings,), platform),
    ensures
        masters == (if size == ClusterSize::Single {
            1int
        } else {
            3
        }),
        platform == Platform::Libvirt <==> settings is Libvirt,
        platform == Platform::AWS <==> settings is AWS,
        platform == Platform::GCP <==> settings is GCP,
        platform == Platform::AZURE <==> settings is AZURE,
{
}

/// What is made of a base configuration for a cluster, field by field.
pub proof fn customizing_sets_name_and_machines(
    base: InstallConfig,
    name: &String,
    size: &Option<ClusterSize>,
    res: InstallConfig,
)
    requires
        call_ensures(customize, (base, name, size), res),
    ensures
        res.metadata matches Some(metadata) && metadata.name@ == name@ && metadata.extra is None,
        res.control_plane.name@ == base.control_plane.name@,
        res.control_plane.extra == base.control_plane.extra,
        res.control_plane.replicas == (match *size {
            Some(ClusterSize::Single) => 1,
            Some(ClusterSize::Compact) => 3,
            None => base.control_plane.replicas,
        }),
        *size is Some ==> {
            &&& res.compute@.len() == 1
            &&& res.compute@[0].name@ == "worker"@
            &&& res.compute@[0].replicas == 0
            &&& res.compute@[0].extra is None
        },
        *size is None ==> {
            &&& res.compute@.len() == base.compute@.len()
            &&& forall|i: int|
                0 <= i < base.compute@.len() ==> same_machines(
                    #[trigger] res.compute@[i],
                    base.compute@[i],
                )
        },
        res.api_version@ == base.api_version@,
        res.base_domain@ == base.base_domain@,
        res.platform == base.platform,
        same_text(res.pull_secret, base.pull_secret),
        same_text(res.ssh_key, base.ssh_key),
        res.extra == base.extra,
{
    let machines = res.compute@.map_values(|m: InstallConfigMachines| m@);
    let base_machines = base.compute@.map_values(|m: InstallConfigMachines| m@);
    assert(res@.compute == machines);
    assert(base@.compute == base_machines);
    assert(machines.len() == res.compute@.len());
    if *size is None {
        assert forall|i: int| 0 <= i < base.compute@.len() implies same_machines(
            #[trigger] res.compute@[i],
            base.compute@[i],
        ) by {
            assert(machines[i] == res.compute@[i]@);
            assert(base_machines[i] == base.compute@[i]@);
        }
    } else {
        assert(machines.len() == 1);
        assert(machines[0] == res.compute@[0]@);
    }
}

/// A pull secret is put into a configuration that has none, and changes nothing
/// else.
pub proof fn injecting_fills_a_missing_secret(
    base: InstallConfig,
    secret: String,
    res: InstallConfig,
)
    requires
        call_ensures(inject_pull_secret, (base, secret), res),
    ensures
        base.pull_secret is Some ==> same_text(res.pull_secret, base.pull_secret),
        base.pull_secret is None ==> (res.pull_secret matches Some(s) && s@ == secret@),
        res@.api_version == base@.api_version,
        res@.base_domain == base@.base_domain,
        res@.compute == base@.compute,
        res@.control_plane == base@.control_plane,
        res@.metadata == base@.metadata,
        res.platform == base.platform,
        same_text(res.ssh_key, base.ssh_key),
        res.extra == base.extra,
{
}

/// A template is what it is made of without the metadata, which has to be there.
pub proof fn template_lacks_the_metadata(config: InstallConfig, res: Option<InstallConfig>)
    requires
        call_ensures(into_template, (config,), res),
    ensures
        res is Some == config.metadata is Some,
        res matches Some(t) ==> {
            &&& t.metadata is None
            &&& t.api_version == config.api_version
            &&& t.base_domain == config.base_domain
            &&& t.compute == config.compute
            &&& t.control_plane == config.control_plane
            &&& t.platform == config.platform
            &&& t.pull_secret == config.pull_secret
            &&& t.ssh_key == config.ssh_key
            &&& t.extra == config.extra
        },
{
}

/// What is written is the template, or the state, that a command stands at.
pub proof fn what_is_written_is_at_hand(
    g: GenerateConfig,
    template: Option<&InstallConfig>,
    l: Launch,
    launched: Option<&LaunchedConfig>,
)
    requires
        call_ensures(GenerateConfig::template, (&g,), template),
        call_ensures(Launch::launched, (&l,), launched),
    ensures
        g.state matches GenerateState::Writing(t) ==> template == Some(&t),
        !(g.state is Writing) ==> template is None,
        l.state matches LaunchState::Working(w) ==> launched == Some(&w.launched),
        !(l.state is Working) ==> launched is None,
{
}

/// What a master gets of a host, whether the answer is handed in or asked for.
pub proof fn masters_get_their_share(
    auto: bool,
    mem_size: u64,
    memory: Result<u64, String>,
    mem: (u64, Option<HostWarning>),
    asked_mem: (u64, Option<HostWarning>, Option<Result<u64, String>>),
    cpu_size: u32,
    cpus: Result<u32, String>,
    cpu: (u32, Option<HostWarning>),
    asked_cpu: (u32, Option<HostWarning>, Option<Result<u32, String>>),
)
    requires
        call_ensures(master_mem, (auto, mem_size, memory), mem),
        call_ensures(get_master_mem, (auto, mem_size), asked_mem),
        call_ensures(master_cpu, (auto, cpu_size, cpus), cpu),
        call_ensures(get_master_cpu, (auto, cpu_size), asked_cpu),
    ensures
        ({
            let kb_per_gb: int = 1048576;
            let taken = (4 * mem_size + 2) * kb_per_gb;
            &&& !auto ==> mem == (4096u64, None::<HostWarning>)
            &&& auto ==> (memory matches Ok(avail) ==> {
                &&& mem.1 is None
                &&& avail >= taken + 4 * kb_per_gb ==> taken + mem.0 * 1024 <= avail < taken + (
                mem.0 + 1) * 1024
                &&& avail < taken + 4 * kb_per_gb ==> mem.0 == 4096
            })
            &&& auto ==> (memory matches Err(e) ==> mem == (
                4096u64,
                Some(HostWarning::Memory(e)),
            ))
        }),
        !auto ==> cpu == (2u32, None::<HostWarning>),
        auto ==> (cpus matches Ok(n) ==> {
            &&& cpu.1 is None
            &&& n >= 2 * cpu_size + 2 ==> cpu.0 + 2 * cpu_size == n
            &&& n < 2 * cpu_size + 2 ==> cpu.0 == 2
        }),
        auto ==> (cpus matches Err(e) ==> cpu == (2u32, Some(HostWarning::Cpus(e)))),
        asked_mem.2 is Some == auto,
        asked_cpu.2 is Some == auto,
        !auto ==> (asked_mem.0, asked_mem.1) == mem && (asked_cpu.0, asked_cpu.1) == cpu,
        asked_mem.2 == Some(memory) ==> (asked_mem.0, asked_mem.1) == mem,
        asked_cpu.2 == Some(cpus) ==> (asked_cpu.0, asked_cpu.1) == cpu,
{
    if let Ok(avail) = memory {
        masters_get_what_is_left(mem_size, avail, cpu_size, 0);
    }
    if let Ok(n) = cpus {
        masters_get_what_is_left(mem_size, 0, cpu_size, n);
    }
}

/// What is told of a host that could not be asked.
pub proof fn host_warning_says_why(w: HostWarning, res: String)
    requires
        call_ensures(HostWarning::text, (&w,), res),
    ensures
        w matches HostWarning::Memory(e) ==> res@
            == "Failed to get total host memory, falling back to 4096MB: "@ + e@,
        w matches HostWarning::Cpus(e) ==> res@
            == "Failed to get total host cpu, falling back to 2cpu: "@ + e@,
{
    match w {
        HostWarning::Memory(e) => {
            silent_host_is_told(0, 0, e);
        },
        HostWarning::Cpus(e) => {
            silent_host_is_told(0, 0, e);
        },
    }
}

/// A numeral of a number is made of digits and stands for it.
pub proof fn decimal_stands_for_its_number(n: u64, res: String)
    requires
        call_ensures(decimal, (n,), res),
    ensures
        numeral_value(res@) == n,
        res@.len() > 0,
        forall|i: int| 0 <= i < res@.len() ==> '0' <= #[trigger] res@[i] <= '9',
        n > 0 ==> res@[0] != '0',
        n == 0 ==> res@ == seq!['0'],
{
    numeral_stands_for_the_number(n as nat);
}

/// The path of every place: its base and its steps below that.
pub proof fn places_have_their_paths(place: Place, base: Base, parts: Vec<String>)
    requires
        call_ensures(Place::base, (&place,), base),
        call_ensures(Place::parts, (&place,), parts),
    ensures
        match place {
            Place::ConfigDir => base == Base::Config && parts.deep_view() == Seq::<
                Seq<char>,
            >::empty(),
            Place::Config(file) => base == Base::Config && parts.deep_view() == seq![
                file.spec_text(),
            ],
            Place::Cluster(name) => base == Base::Config && parts.deep_view() == seq![name@],
            Place::InCluster(name, file) => {
                &&& base == Base::Config
                &&& parts.deep_view() == seq![name@] + (match file {
                    ClusterFile::LaunchedConfig => seq!["xokdinst-launched-config.yaml"@],
                    ClusterFile::InstallConfig => seq!["install-config.yaml"@],
                    ClusterFile::FailedStamp => seq!["xokdinst-failed"@],
                    ClusterFile::Kubeconfig => seq!["auth/kubeconfig"@],
                    ClusterFile::Metadata => seq!["metadata.json"@],
                    ClusterFile::OpenshiftDir => seq!["openshift"@],
                    ClusterFile::Added(Manifest::SingleEtcd) => seq![
                        "openshift"@,
                        "singlemaster0.yaml"@,
                    ],
                    ClusterFile::Added(Manifest::SingleIngress) => seq![
                        "openshift"@,
                        "singlemaster1.yaml"@,
                    ],
                    ClusterFile::Added(Manifest::Autologin(Role::Master)) => seq![
                        "openshift"@,
                        "autologin-master.json"@,
                    ],
                    ClusterFile::Added(Manifest::Autologin(Role::Worker)) => seq![
                        "openshift"@,
                        "autologin-worker.json"@,
                    ],
                    ClusterFile::Custom(custom) => seq!["openshift"@, custom@],
                })
            },
            Place::DockerConfig => base == Base::Home && parts.deep_view() == seq![
                ".docker/config.json"@,
            ],
            Place::TempDir => base == Base::Temp && parts.deep_view() == Seq::<Seq<char>>::empty(),
            Place::TempConfig => base == Base::Temp && parts.deep_view() == seq![
                "install-config.yaml"@,
            ],
        },
{
    match place {
        Place::InCluster(name, file) => {
            cluster_files_have_fixed_names(name);
            let custom = match file {
                ClusterFile::Custom(custom) => custom,
                _ => name,
            };
            manifests_lie_in_the_openshift_dir(name, custom);
            let dir = seq![name@, "openshift"@];
            assert(dir.push("singlemaster0.yaml"@) =~= seq![name@] + seq![
                "openshift"@,
                "singlemaster0.yaml"@,
            ]);
            assert(dir.push("singlemaster1.yaml"@) =~= seq![name@] + seq![
                "openshift"@,
                "singlemaster1.yaml"@,
            ]);
            assert(dir.push("autologin-master.json"@) =~= seq![name@] + seq![
                "openshift"@,
                "autologin-master.json"@,
            ]);
            assert(dir.push("autologin-worker.json"@) =~= seq![name@] + seq![
                "openshift"@,
                "autologin-worker.json"@,
            ]);
        },
        _ => {},
    }
}

/// What a failure and a notice tell the user, and on which output.
pub proof fn messages_say_what_they_are_about(
    failure: Failure,
    told: String,
    notice: Notice,
    printed: String,
    warning: bool,
)
    requires
        call_ensures(Failure::text, (&failure,), told),
        call_ensures(Notice::text, (&notice,), printed),
        call_ensures(Notice::is_warning, (&notice,), warning),
    ensures
        match failure {
            Failure::ClusterExists(name) => told@ == "Cluster "@ + name@
                + " already exists, use destroy to remove it"@,
            Failure::NoSuchCluster(name) => told@ == "No such cluster: "@ + name@,
            Failure::NoSuchConfig(choice) => told@ == "No such configuration: "@
                + choice.spec_text(),
            Failure::ConfigExists(file) => told@ == "Configuration '"@ + file.spec_text()
                + "' already exists and overwrite not specified"@,
            Failure::NoManifests(dir) => told@
                == "No regular files found in additional manifests directory: "@ + dir@,
            Failure::InstallerNotRun(reason) => told@ == reason@,
            Failure::Outside(reason) => told@ == reason@,
            _ => true,
        },
        notice matches Notice::UsingRelease(image) ==> printed@ == "Using release image: "@ + image@
            + "\n"@,
        notice matches Notice::CopiedManifests(names) ==> printed@ == "Copied custom manifests:\n"@
            + item_lines(names@),
        notice matches Notice::NeverInstalled(name) ==> printed@ == "Cluster "@ + name@
            + " failed install, just removing directory\n"@,
        warning <==> !(notice is NoConfigs || notice is UsingRelease || notice is CopiedManifests
            || notice is NeverInstalled),
{
}

/// The options of the configuration that a launch generates.
pub proof fn generated_config_is_the_default(o: LaunchOpts, res: GenConfigOpts)
    requires
        call_ensures(LaunchOpts::gen_config, (&o,), res),
    ensures
        res.name is None,
        !res.overwrite,
        res.installer_version == o.install_run_opts.installer_version,
        !res.libvirt_auto_size,
{
}

/// The arguments of a task, whatever the directory is.
pub proof fn arguments_are_words_and_the_directory(
    task: InstallerTask,
    dir: Place,
    log_debug: bool,
    res: Vec<Arg>,
)
    requires
        call_ensures(InstallerTask::args, (&task, dir, log_debug), res),
    ensures
        ({
            let word = |i: int| res@[i]->Text_0@;
            let on_cluster = task == InstallerTask::CreateCluster || task
                == InstallerTask::DestroyCluster;
            &&& task == InstallerTask::Version ==> res@.len() == 1 && res@[0] is Text && word(0)
                == "version"@
            &&& task != InstallerTask::Version ==> {
                &&& res@.len() == (if on_cluster && log_debug {
                    5int
                } else {
                    4
                })
                &&& res@[0] is Text && word(0) == (if task == InstallerTask::DestroyCluster {
                    "destroy"@
                } else {
                    "create"@
                })
                &&& res@[1] is Text
                &&& on_cluster ==> word(1) == "cluster"@
                &&& task == InstallerTask::CreateManifests ==> word(1) == "manifests"@
                &&& task == InstallerTask::CreateInstallConfig ==> word(1) == "install-config"@
                &&& res@[2] is Text && word(2) == "--dir"@
                &&& res@[3] == Arg::Dir(dir)
                &&& on_cluster && log_debug ==> res@[4] is Text && word(4) == "--log-level=debug"@
            }
        }),
{
    task_is_asked_for_by_its_words(task, dir, log_debug);
    let views = res@.map_values(|a: Arg| a@);
    assert(views.len() == res@.len());
    assert(forall|i: int| 0 <= i < res@.len() ==> views[i] == #[trigger] res@[i]@);
    if task == InstallerTask::Version {
        assert(views[0] == ArgView::Text("version"@));
        assert(res@[0]@ == views[0]);
    } else {
        assert(res@[0]@ == views[0]);
        assert(res@[1]@ == views[1]);
        assert(res@[2]@ == views[2]);
        assert(res@[3]@ == views[3]);
        if views.len() == 5 {
            assert(res@[4]@ == views[4]);
        }
    }
}

/// How the installer is called on a host with these answers: its program, the
/// numerals of its shares, and what is told of the host.
pub proof fn installer_is_called_for_the_size(
    version: Option<&str>,
    auto: bool,
    size: Option<&ClusterSize>,
    memory: Result<u64, String>,
    cpus: Result<u32, String>,
    res: InstallerCommand,
)
    requires
        call_ensures(installer_for, (version, auto, size, memory, cpus), res),
    ensures
        ({
            let machines: int = match size {
                Some(ClusterSize::Compact) => 3,
                _ => 1,
            };
            let kb_per_gb: int = 1048576;
            let taken = (4 * machines + 2) * kb_per_gb;
            let mem = numeral_value(res.env@[1].1@);
            let cpu = numeral_value(res.env@[2].1@);
            &&& version is None ==> res.program@ == "openshift-install"@
            &&& version matches Some(v) ==> res.program@ == "openshift-install-"@ + v@
            &&& res.args@.len() == 0
            &&& res.env@.len() == 3
            &&& res.env@[0].0@ == "OPENSHIFT_INSTALL_INVOKER"@
            &&& res.env@[0].1@ == "xokdinst"@
            &&& res.env@[1].0@ == "TF_VAR_libvirt_master_memory"@
            &&& res.env@[2].0@ == "TF_VAR_libvirt_master_vcpu"@
            &&& !auto || memory is Err ==> mem == 4096
            &&& auto ==> (memory matches Ok(avail) ==> if avail >= taken + 4 * kb_per_gb {
                taken + mem * 1024 <= avail < taken + (mem + 1) * 1024
            } else {
                mem == 4096
            })
            &&& !auto || cpus is Err ==> cpu == 2
            &&& auto ==> (cpus matches Ok(n) ==> if n >= 2 * machines + 2 {
                cpu == n - 2 * machines
            } else {
                cpu == 2
            })
            &&& res.host is Some == auto
            &&& res.host matches Some(host) ==> host.memory == memory && host.cpus == cpus
            &&& res.warnings@ == (match memory {
                Err(e) if auto => seq![HostWarning::Memory(e)],
                _ => seq![],
            }) + (match cpus {
                Err(e) if auto => seq![HostWarning::Cpus(e)],
                _ => seq![],
            })
        }),
{
    let v = match version {
        Some(v) => Some(v@),
        None => None,
    };
    let s = match size {
        Some(s) => Some(*s),
        None => None,
    };
    program_is_that_of_the_version(v, auto, s, memory, cpus);
    environment_has_the_shares(v, auto, s, memory, cpus);
    host_that_was_asked_is_kept(v, auto, s, memory, cpus);
    let cmd = base_command(v, auto, s, memory, cpus);
    assert(res@ == cmd);
    let env = res.env@.map_values(|e: (String, String)| (e.0@, e.1@));
    assert(env == cmd.env);
    assert(env[0] == (res.env@[0].0@, res.env@[0].1@));
    assert(env[1] == (res.env@[1].0@, res.env@[1].1@));
    assert(env[2] == (res.env@[2].0@, res.env@[2].1@));
    assert(res@.args.len() == res.args@.len());
}

/// The installer that is called is the one for the answers that the call keeps,
/// and for those of no host if it asked none.
pub proof fn installer_is_called_on_its_host(
    version: Option<&str>,
    auto: bool,
    size: Option<&ClusterSize>,
    res: InstallerCommand,
    memory: Result<u64, String>,
    cpus: Result<u32, String>,
    same: InstallerCommand,
)
    requires
        call_ensures(cmd_installer, (version, auto, size), res),
        call_ensures(installer_for, (version, auto, size, memory, cpus), same),
        res.host matches Some(host) ==> host.memory == memory && host.cpus == cpus,
    ensures
        res@ == same@,
        res.host is Some == auto,
{
}

/// The installer of a launch is the plain one of its version and size on the same
/// host, with the overrides of the options behind its three variables; called on a
/// host, it is the one for the answers that the call keeps.
pub proof fn launch_installer_adds_the_overrides(
    o: LaunchOpts,
    memory: Result<u64, String>,
    cpus: Result<u32, String>,
    version: Option<&str>,
    size: Option<&ClusterSize>,
    plain: InstallerCommand,
    res: InstallerCommand,
    called: InstallerCommand,
    name: Seq<char>,
    value: Seq<char>,
)
    requires
        call_ensures(launch_installer_for, (&o, memory, cpus), res),
        call_ensures(cmd_launch_installer, (&o,), called),
        call_ensures(
            installer_for,
            (version, o.install_run_opts.libvirt_auto_size, size, memory, cpus),
            plain,
        ),
        version is Some == o.install_run_opts.installer_version is Some,
        version matches Some(v) ==> v@ == o.install_run_opts.installer_version->0@,
        size is Some == o.size is Some,
        size matches Some(s) ==> *s == o.size->0,
    ensures
        res@.program == plain@.program,
        res@.args.len() == 0,
        res@.warnings == plain@.warnings,
        res@.host == plain@.host,
        res@.env.len() >= 3,
        res@.env.take(3) == plain@.env,
        (exists|i: int| 3 <= i < res@.env.len() && #[trigger] res@.env[i] == (name, value)) <==> {
            ||| name == "OPENSHIFT_INSTALL_RELEASE_IMAGE_OVERRIDE"@ && (
            o.release_image matches Some(image) && value == image@)
            ||| name == "OPENSHIFT_INSTALL_OS_IMAGE_OVERRIDE"@ && (o.boot_image matches Some(image)
                && value == image@)
            ||| name == "OPENSHIFT_INSTALL_PRESERVE_BOOTSTRAP"@ && o.keep_bootstrap && value
                == "true"@
        },
        (called.host matches Some(host) ==> host.memory == memory && host.cpus == cpus) ==> called@
            == res@,
{
    overrides_are_those_of_the_options(o, memory, cpus, name, value);
}

/// A command of the installer for a task is the call of its options with the
/// arguments of the task in the directory of the cluster, and for a generation in
/// the temporary one; asked on a host, it is the one for the answers that it keeps.
pub proof fn commands_work_in_their_directories(
    l: Launch,
    d: Destroy,
    g: GenerateConfig,
    task: InstallerTask,
    memory: Result<u64, String>,
    cpus: Result<u32, String>,
    launching: InstallerCommand,
    launching_here: InstallerCommand,
    destroying: InstallerCommand,
    destroying_here: InstallerCommand,
    generating: InstallerCommand,
    generating_here: InstallerCommand,
)
    requires
        call_ensures(Launch::command_for, (&l, task, memory, cpus), launching),
        call_ensures(Launch::command, (&l, task), launching_here),
        call_ensures(Destroy::command_for, (&d, task, memory, cpus), destroying),
        call_ensures(Destroy::command, (&d, task), destroying_here),
        call_ensures(GenerateConfig::command_for, (&g, task, memory, cpus), generating),
        call_ensures(GenerateConfig::command, (&g, task), generating_here),
    ensures
        launching@ == launch_command(l.opts, memory, cpus).with_task(
            task,
            Place::Cluster(l.opts.name),
            l.opts.install_run_opts.log_debug,
        ),
        destroying@ == base_command(
            optional_text(d.installer_version),
            d.libvirt_auto_size,
            None,
            memory,
            cpus,
        ).with_task(task, Place::Cluster(d.name), d.debug),
        generating@ == base_command(
            optional_text(g.opts.installer_version),
            g.opts.libvirt_auto_size,
            None,
            memory,
            cpus,
        ).with_task(task, Place::TempDir, false),
        (launching_here.host matches Some(host) ==> host.memory == memory && host.cpus == cpus)
            ==> launching_here@ == launching@,
        (destroying_here.host matches Some(host) ==> host.memory == memory && host.cpus == cpus)
            ==> destroying_here@ == destroying@,
        (generating_here.host matches Some(host) ==> host.memory == memory && host.cpus == cpus)
            ==> generating_here@ == generating@,
{
}

/// A run of the installer counts as done exactly if it succeeded.
pub proof fn run_counts_only_if_it_succeeded(outcome: InstallerOutcome, res: Result<(), Failure>)
    requires
        call_ensures(run_installer, (outcome,), res),
    ensures
        res is Ok <==> outcome is Succeeded,
        outcome is Failed ==> res == Err::<(), Failure>(Failure::InstallerFailed),
        outcome matches InstallerOutcome::NotRun(reason) ==> res == Err::<(), Failure>(
            Failure::InstallerNotRun(reason),
        ),
{
}

/// The address of a stream names the stream between fixed ends, its URL is what
/// that address is read as, and the image is the one that the server gave.
pub proof fn release_is_asked_for_by_its_stream(
    stream: &str,
    address: String,
    url: Result<String, BadReleaseUrl>,
    resp: LatestRelease,
    image: String,
)
    requires
        call_ensures(release_address_text, (stream,), address),
        call_ensures(latest_release_url, (stream,), url),
        call_ensures(get_latest_release, (resp,), image),
    ensures
        address@
            == "https://openshift-release.apps.ci.l2s4.p1.openshiftapps.com/api/v1/releasestream/"@
            + stream@ + "/latest"@,
        url is Ok == url_parsed(address@) is Some,
        url matches Ok(u) ==> url_parsed(address@) == Some(u@),
        image@ == resp.pull_spec@,
{
}

/// A MachineConfig carries what it is made of.
pub proof fn machineconfig_carries_the_ignition(
    ign: &serde_json::Value,
    name: &str,
    role: &str,
    res: serde_json::Value,
)
    requires
        call_ensures(machineconfig_from_ign_for_role, (ign, name, role), res),
    ensures
        ({
            &&& json_value(res) matches JsonView::Object(members)
            &&& members.dom() == set!["apiVersion"@, "kind"@, "metadata"@, "spec"@]
            &&& members["apiVersion"@] == JsonView::Text("machineconfiguration.openshift.io/v1"@)
            &&& members["kind"@] == JsonView::Text("MachineConfig"@)
            &&& members["metadata"@] matches JsonView::Object(metadata)
            &&& metadata.dom() == set!["labels"@, "name"@]
            &&& metadata["name"@] == JsonView::Text("42-"@ + name@ + "-"@ + role@)
            &&& metadata["labels"@] matches JsonView::Object(labels)
            &&& labels.dom() == set!["machineconfiguration.openshift.io/role"@]
            &&& labels["machineconfiguration.openshift.io/role"@] == JsonView::Text(role@)
            &&& members["spec"@] matches JsonView::Object(spec_part)
            &&& spec_part.dom() == set!["config"@]
            &&& spec_part["config"@] == json_value(*ign)
        }),
{
    machine_config_carries_the_ignition(json_value(*ign), name@, role@);
}

/// The manifest that logs in automatically is the MachineConfig for the one
/// Ignition configuration, named after its role and written indented; those of a
/// single node are fixed texts.
pub proof fn manifests_are_made_for_their_role(
    role: Role,
    ign: serde_json::Value,
    named: &str,
    role_text: &str,
    config: serde_json::Value,
    res: Result<String, UnreadableConfig>,
    made: Result<String, UnreadableConfig>,
    etcd: Result<String, UnreadableConfig>,
    ingress: Result<String, UnreadableConfig>,
)
    requires
        call_ensures(autologin_manifest, (role,), res),
        call_ensures(make_manifest, (&Manifest::Autologin(role),), made),
        call_ensures(make_manifest, (&Manifest::SingleEtcd,), etcd),
        call_ensures(make_manifest, (&Manifest::SingleIngress,), ingress),
        call_ensures(machineconfig_from_ign_for_role, (&ign, named, role_text), config),
        named@ == "autologin"@,
        role_text@ == (if role == Role::Master {
            "master"@
        } else {
            "worker"@
        }),
    ensures
        res is Ok == json_parsed(AUTOLOGIN_CONFIG@) is Some,
        json_parsed(AUTOLOGIN_CONFIG@) == Some(json_value(ign)) ==> (res matches Ok(text) && text@
            == json_pretty_text(json_value(config))),
        made is Ok == res is Ok,
        res matches Ok(text) ==> (made matches Ok(same) && same@ == text@),
        etcd matches Ok(text) && text@ == SINGLE_MASTER_ETCD@,
        ingress matches Ok(text) && text@ == SINGLE_MASTER_INGRESS@,
{
}

/// The directory of a cluster is handed out exactly if it is there.
pub proof fn clusterdir_is_that_of_the_cluster(
    name: &String,
    exists: bool,
    res: Result<Place, Failure>,
)
    requires
        call_ensures(get_clusterdir, (name, exists), res),
    ensures
        exists ==> res == Ok::<Place, Failure>(Place::Cluster(*name)),
        !exists ==> res == Err::<Place, Failure>(Failure::NoSuchCluster(*name)),
{
}

} // verus!
