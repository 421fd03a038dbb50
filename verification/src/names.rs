//! The names of configuration files and of clusters.

use vstd::prelude::*;

use crate::failure::Failure;
use crate::platform::{tags_are_distinct, Platform};
use crate::text::{copy_optional, ends_with, join3, optional_text, starts_with};

verus! {

/// The file name `config-<x>.yaml`.
pub open spec fn config_file_text(x: Seq<char>) -> Seq<char> {
    "config-"@ + x + ".yaml"@
}

/// The file name for a configuration: after its name, or after the platform if
/// it has none.
pub open spec fn config_name_text(name: Option<Seq<char>>, platform: Platform) -> Seq<char> {
    match name {
        Some(name) => config_file_text(name),
        None => config_file_text(platform.file_tag()),
    }
}

/// Whether a file of this name in the configuration directory is a configuration.
pub open spec fn is_config_name(name: Seq<char>) -> bool {
    "config-"@.is_prefix_of(name) && ".yaml"@.is_suffix_of(name)
}

/// The configurations among the files of a directory, of which some have names
/// that are not text.
pub open spec fn config_files(names: Seq<Option<String>>) -> Seq<String> {
    names.filter(|n: Option<String>| n is Some && is_config_name(n->0@)).map_values(
        |n: Option<String>| n->0,
    )
}

/// Returns the file name for a given configuration, using the platform's name if
/// necessary.
pub fn get_config_name(name: &Option<String>, platform: &Platform) -> (res: String)
    ensures
        res@ == config_name_text(optional_text(*name), *platform),
{
    match name {
        Some(name) => join3("config-", name.as_str(), ".yaml"),
        None => join3("config-", platform.tag(), ".yaml"),
    }
}

/// Gets all configurations, out of the names of the files in the configuration
/// directory.
pub fn get_configs(names: &Vec<Option<String>>) -> (res: Vec<String>)
    ensures
        res@ == config_files(names@),
{
    let ghost keep = |n: Option<String>| n is Some && is_config_name(n->0@);
    let ghost take_name = |n: Option<String>| n->0;
    let mut res: Vec<String> = Vec::new();
    assert(names@.take(0).filter(keep).map_values(take_name) =~= Seq::<String>::empty()) by {
        reveal(Seq::filter);
    }
    for i in 0..names.len()
        invariant
            keep == (|n: Option<String>| n is Some && is_config_name(n->0@)),
            take_name == (|n: Option<String>| n->0),
            res@ == names@.take(i as int).filter(keep).map_values(take_name),
    {
        let ghost before = res@;
        if let Some(name) = &names[i] {
            if starts_with(name.as_str(), "config-") && ends_with(name.as_str(), ".yaml") {
                res.push(name.clone());
            }
        }
        proof {
            reveal(Seq::filter);
            assert(names@.take(i + 1).drop_last() =~= names@.take(i as int));
            assert(names@.take(i + 1).last() == names@[i as int]);
            assert(res@ =~= names@.take(i + 1).filter(keep).map_values(take_name));
        }
    }
    assert(names@.take(names@.len() as int) =~= names@);
    res
}

/// A file in the configuration directory.
pub struct DirEntry {
    /// Its name, if that is text.
    pub name: Option<String>,
    pub is_dir: bool,
}

/// The names of the directories among the files, as far as they are text.
pub open spec fn cluster_names(entries: Seq<DirEntry>) -> Seq<String> {
    entries.filter(|e: DirEntry| e.is_dir && e.name is Some).map_values(|e: DirEntry| e.name->0)
}

/// Gets all cluster names, out of the files in the configuration directory.
pub fn get_clusters(entries: &Vec<DirEntry>) -> (res: Vec<String>)
    ensures
        res@ == cluster_names(entries@),
{
    let ghost keep = |e: DirEntry| e.is_dir && e.name is Some;
    let ghost take_name = |e: DirEntry| e.name->0;
    let mut res: Vec<String> = Vec::new();
    assert(entries@.take(0).filter(keep).map_values(take_name) =~= Seq::<String>::empty()) by {
        reveal(Seq::filter);
    }
    for i in 0..entries.len()
        invariant
            keep == (|e: DirEntry| e.is_dir && e.name is Some),
            take_name == (|e: DirEntry| e.name->0),
            res@ == entries@.take(i as int).filter(keep).map_values(take_name),
    {
        if entries[i].is_dir {
            if let Some(name) = &entries[i].name {
                res.push(name.clone());
            }
        }
        proof {
            reveal(Seq::filter);
            assert(entries@.take(i + 1).drop_last() =~= entries@.take(i as int));
            assert(entries@.take(i + 1).last() == entries@[i as int]);
            assert(res@ =~= entries@.take(i + 1).filter(keep).map_values(take_name));
        }
    }
    assert(entries@.take(entries@.len() as int) =~= entries@);
    res
}

/// The base configuration of a launch.
#[derive(Debug, PartialEq)]
pub enum ConfigChoice {
    /// The one that the user named.
    Given(String),
    /// That of the platform that the user named.
    Default(Platform),
    /// The only one that there is.
    Only(String),
    /// The one that was just generated.
    Generated(String),
}

impl ConfigChoice {
    /// The name of the configuration.
    pub open spec fn spec_text(self) -> Seq<char> {
        match self {
            ConfigChoice::Given(name) => name@,
            ConfigChoice::Default(platform) => config_name_text(None, platform),
            ConfigChoice::Only(name) => name@,
            ConfigChoice::Generated(name) => name@,
        }
    }

    /// The name of the configuration.
    pub fn text(&self) -> (res: String)
        ensures
            res@ == self.spec_text(),
    {
        match self {
            ConfigChoice::Given(name) => name.clone(),
            ConfigChoice::Default(platform) => get_config_name(&None, platform),
            ConfigChoice::Only(name) => name.clone(),
            ConfigChoice::Generated(name) => name.clone(),
        }
    }

    /// The same choice again.
    pub fn copy(&self) -> (res: ConfigChoice)
        ensures
            res == *self,
    {
        match self {
            ConfigChoice::Given(name) => ConfigChoice::Given(name.clone()),
            ConfigChoice::Default(platform) => ConfigChoice::Default(*platform),
            ConfigChoice::Only(name) => ConfigChoice::Only(name.clone()),
            ConfigChoice::Generated(name) => ConfigChoice::Generated(name.clone()),
        }
    }
}

/// A file in the configuration directory that holds a configuration.
#[derive(Debug, PartialEq)]
pub enum ConfigFile {
    /// The file that has the name of the choice.
    Chosen(ConfigChoice),
    /// The file `config-<choice>.yaml`.
    Full(ConfigChoice),
    /// The file of this name.
    Plain(String),
    /// The file for a configuration of this name, or for this platform.
    Named(Option<String>, Platform),
}

impl ConfigFile {
    /// The name of the file.
    pub open spec fn spec_text(self) -> Seq<char> {
        match self {
            ConfigFile::Chosen(choice) => choice.spec_text(),
            ConfigFile::Full(choice) => config_file_text(choice.spec_text()),
            ConfigFile::Plain(name) => name@,
            ConfigFile::Named(name, platform) => config_name_text(optional_text(name), platform),
        }
    }

    /// The name of the file.
    pub fn text(&self) -> (res: String)
        ensures
            res@ == self.spec_text(),
    {
        match self {
            ConfigFile::Chosen(choice) => choice.text(),
            ConfigFile::Full(choice) => {
                let name = choice.text();
                join3("config-", name.as_str(), ".yaml")
            },
            ConfigFile::Plain(name) => name.clone(),
            ConfigFile::Named(name, platform) => get_config_name(name, platform),
        }
    }

    /// The same file again.
    pub fn copy(&self) -> (res: ConfigFile)
        ensures
            res == *self,
    {
        match self {
            ConfigFile::Chosen(choice) => ConfigFile::Chosen(choice.copy()),
            ConfigFile::Full(choice) => ConfigFile::Full(choice.copy()),
            ConfigFile::Plain(name) => ConfigFile::Plain(name.clone()),
            ConfigFile::Named(name, platform) => ConfigFile::Named(copy_optional(name), *platform),
        }
    }
}

/// Where the base configuration of a launch comes from.
#[derive(Debug, PartialEq)]
pub enum ConfigSource {
    /// A configuration has to be generated first.
    Generate,
    Use(ConfigChoice),
}

/// Which configuration a launch is based on: the one the user named, which
/// overrides the platform; a new one if there is none; that of the platform the
/// user named; the only one there is. There is no choice among several.
pub open spec fn selected_config(
    config: Option<String>,
    platform: Option<Platform>,
    configs: Seq<String>,
) -> Result<ConfigSource, Failure> {
    match config {
        Some(name) => Ok(ConfigSource::Use(ConfigChoice::Given(name))),
        None => if configs.len() == 0 {
            Ok(ConfigSource::Generate)
        } else {
            match platform {
                Some(platform) => Ok(ConfigSource::Use(ConfigChoice::Default(platform))),
                None => if configs.len() == 1 {
                    Ok(ConfigSource::Use(ConfigChoice::Only(configs[0])))
                } else {
                    Err(Failure::ManyConfigs)
                },
            }
        },
    }
}

/// Selects the configuration that a launch is based on.
pub fn select_config(
    config: &Option<String>,
    platform: &Option<Platform>,
    configs: &Vec<String>,
) -> (res: Result<ConfigSource, Failure>)
    ensures
        res == selected_config(*config, *platform, configs@),
{
    if let Some(name) = config {
        return Ok(ConfigSource::Use(ConfigChoice::Given(name.clone())));
    }
    if configs.len() == 0 {
        return Ok(ConfigSource::Generate);
    }
    if let Some(platform) = platform {
        return Ok(ConfigSource::Use(ConfigChoice::Default(*platform)));
    }
    if configs.len() == 1 {
        return Ok(ConfigSource::Use(ConfigChoice::Only(configs[0].clone())));
    }
    Err(Failure::ManyConfigs)
}

/// Whether there is a directory of this name among the files.
pub open spec fn has_dir(entries: Seq<DirEntry>, name: Seq<char>) -> bool {
    exists|i: int|
        0 <= i < entries.len() && (#[trigger] entries[i]).is_dir && (entries[i].name matches Some(n)
            && n@ == name)
}

/// Whether a name is among those that are listed.
pub open spec fn is_listed(names: Seq<String>, name: Seq<char>) -> bool {
    exists|k: int| 0 <= k < names.len() && (#[trigger] names[k])@ == name
}

/// What is listed as a cluster is what is a directory.
pub proof fn clusters_are_the_directories(entries: Seq<DirEntry>, name: Seq<char>)
    ensures
        is_listed(cluster_names(entries), name) == has_dir(entries, name),
    decreases entries.len(),
{
    reveal(Seq::filter);
    if entries.len() > 0 {
        let front = entries.drop_last();
        let last = entries.last();
        let before = cluster_names(front);
        let now = cluster_names(entries);
        clusters_are_the_directories(front, name);
        if last.is_dir && last.name is Some {
            assert(now =~= before.push(last.name->0));
            assert(now[before.len() as int] == last.name->0);
        } else {
            assert(now =~= before);
        }
        assert(forall|k: int| 0 <= k < before.len() ==> #[trigger] before[k] == now[k]);
        assert(forall|k: int|
            0 <= k < before.len() ==> (#[trigger] now[k])@ == name ==> before[k]@ == name);
        assert(forall|i: int| 0 <= i < front.len() ==> #[trigger] front[i] == entries[i]);
        assert(forall|i: int| 0 <= i < front.len() ==> #[trigger] entries[i] == front[i]);
        assert(entries[entries.len() - 1] == last);
    }
}

/// Every file that is written for a configuration is listed as a configuration.
pub proof fn config_names_are_listed(name: Option<Seq<char>>, platform: Platform)
    ensures
        is_config_name(config_name_text(name, platform)),
{
    let x = match name {
        Some(name) => name,
        None => platform.file_tag(),
    };
    let file = config_file_text(x);
    assert("config-"@ =~= file.subrange(0, "config-"@.len() as int));
    assert(".yaml"@ =~= file.subrange(file.len() - ".yaml"@.len(), file.len() as int));
}

/// Configurations of different names have different files, and so have the
/// default configurations of different platforms.
pub proof fn config_names_are_distinct(
    a: Option<Seq<char>>,
    p: Platform,
    b: Option<Seq<char>>,
    q: Platform,
)
    requires
        config_name_text(a, p) == config_name_text(b, q),
    ensures
        a is Some && b is Some ==> a == b,
        a is None && b is None ==> p == q,
{
    let x = match a {
        Some(name) => name,
        None => p.file_tag(),
    };
    let y = match b {
        Some(name) => name,
        None => q.file_tag(),
    };
    let n = "config-"@.len() as int;
    assert(config_file_text(x) == config_file_text(y));
    assert(config_file_text(x).len() == n + x.len() + ".yaml"@.len());
    assert(config_file_text(y).len() == n + y.len() + ".yaml"@.len());
    assert(x =~= config_file_text(x).subrange(n, n + x.len()));
    assert(y =~= config_file_text(y).subrange(n, n + y.len()));
    if a is None && b is None {
        tags_are_distinct(p, q);
    }
}

/// A configuration that the user names is used, whatever platform is named
/// beside it and whatever configurations there are.
pub proof fn named_config_overrides_platform(
    name: String,
    platform: Option<Platform>,
    configs: Seq<String>,
)
    ensures
        selected_config(Some(name), platform, configs) == Ok::<ConfigSource, Failure>(
            ConfigSource::Use(ConfigChoice::Given(name)),
        ),
{
}

/// The platform that the user names is taken by the file that is written for it
/// when its configuration is generated without a name.
pub proof fn platform_selects_its_default_config(platform: Platform, configs: Seq<String>)
    requires
        configs.len() > 0,
    ensures
        selected_config(None, Some(platform), configs) matches Ok(ConfigSource::Use(choice))
            && choice.spec_text() == config_name_text(None, platform),
{
}

/// The configuration that was generated under a name is found again when a
/// launch names it: its file is the second that is looked for.
pub proof fn generated_config_is_found_by_name(name: String, platform: Platform)
    ensures
        ConfigFile::Full(ConfigChoice::Given(name)).spec_text() == ConfigFile::Named(
            Some(name),
            platform,
        ).spec_text(),
{
}

/// A launch that names neither a configuration nor a platform goes on exactly
/// if there is at most one configuration, and then with that one or, if there
/// is none, with a new one.
pub proof fn only_config_is_the_default(configs: Seq<String>)
    ensures
        selected_config(None, None, configs) is Ok <==> configs.len() <= 1,
        configs.len() == 1 ==> (selected_config(None, None, configs) matches Ok(
            ConfigSource::Use(choice),
        ) && choice.spec_text() == configs[0]@),
        configs.len() == 0 ==> selected_config(None, None, configs) == Ok::<ConfigSource, Failure>(
            ConfigSource::Generate,
        ),
{
}

/// A file is a configuration exactly if its name is `config-<x>.yaml` for some
/// `x`, which may be empty.
pub proof fn configs_are_named_config_yaml(name: Seq<char>)
    ensures
        is_config_name(name) <==> exists|x: Seq<char>| name == "config-"@ + x + ".yaml"@,
{
    reveal_strlit("config-");
    reveal_strlit(".yaml");
    let front = "config-"@;
    let back = ".yaml"@;
    assert(front.len() == 7 && back.len() == 5);
    assert(back[0] == '.');
    assert(front[2] == 'n' && front[3] == 'f' && front[4] == 'i' && front[5] == 'g' && front[6]
        == '-');
    if is_config_name(name) {
        let at = name.len() - 5;
        assert(front =~= name.subrange(0, 7));
        assert(back =~= name.subrange(at, name.len() as int));
        if at < 7 {
            assert(name[at] == back[0]);
            assert(name[at] == front[at]);
            assert(false);
        }
        let x = name.subrange(7, at);
        assert(name =~= front + x + back);
    }
    if exists|x: Seq<char>| name == front + x + back {
        let x = choose|x: Seq<char>| name == front + x + back;
        assert(front =~= name.subrange(0, 7));
        assert(back =~= name.subrange(name.len() - 5, name.len() as int));
    }
}

/// The configurations are those files that are named `config-<x>.yaml`, each as
/// often and in the order as they are in the directory.
pub proof fn configs_keep_their_order(names: Seq<Option<String>>, name: Option<String>)
    ensures
        config_files(Seq::empty()) == Seq::<String>::empty(),
        name is None ==> config_files(names.push(name)) == config_files(names),
        name matches Some(n) ==> ((exists|x: Seq<char>| n@ == "config-"@ + x + ".yaml"@)
            ==> config_files(names.push(name)) == config_files(names).push(n)),
        name matches Some(n) ==> (!(exists|x: Seq<char>| n@ == "config-"@ + x + ".yaml"@)
            ==> config_files(names.push(name)) == config_files(names)),
{
    reveal(Seq::filter);
    assert(config_files(Seq::empty()) =~= Seq::<String>::empty());
    assert(names.push(name).drop_last() =~= names);
    if let Some(n) = name {
        configs_are_named_config_yaml(n@);
        if is_config_name(n@) {
            assert(config_files(names.push(name)) =~= config_files(names).push(n));
        }
    }
}

/// The clusters are the directories whose names are text, each as often and in the
/// order as they are in the configuration directory.
pub proof fn clusters_keep_their_order(entries: Seq<DirEntry>, entry: DirEntry)
    ensures
        cluster_names(Seq::empty()) == Seq::<String>::empty(),
        !entry.is_dir || entry.name is None ==> cluster_names(entries.push(entry))
            == cluster_names(entries),
        entry.is_dir ==> (entry.name matches Some(n) ==> cluster_names(entries.push(entry))
            == cluster_names(entries).push(n)),
{
    reveal(Seq::filter);
    assert(cluster_names(Seq::empty()) =~= Seq::<String>::empty());
    assert(entries.push(entry).drop_last() =~= entries);
    if entry.is_dir && entry.name is Some {
        assert(cluster_names(entries.push(entry)) =~= cluster_names(entries).push(entry.name->0));
    }
}

/// The file for a configuration is named after its name whatever the platform,
/// and after the platform in lower case if it has no name.
pub proof fn config_files_are_named_after(name: String, platform: Platform)
    ensures
        config_name_text(Some(name@), platform) == "config-"@ + name@ + ".yaml"@,
        config_name_text(None, platform) == "config-"@ + (match platform {
            Platform::Libvirt => "libvirt"@,
            Platform::AWS => "aws"@,
            Platform::GCP => "gcp"@,
            Platform::AZURE => "azure"@,
        }) + ".yaml"@,
        ConfigFile::Named(Some(name), platform).spec_text() == "config-"@ + name@ + ".yaml"@,
        ConfigFile::Named(None, platform).spec_text() == config_name_text(None, platform),
        ConfigFile::Plain(name).spec_text() == name@,
{
}

/// A configuration is looked for under the very name that the user gave, that was
/// found or that was generated, or under that of the platform's file; and then
/// under that name with `config-` before and `.yaml` behind it.
pub proof fn choice_is_looked_for_by_its_name(
    name: String,
    platform: Platform,
    choice: ConfigChoice,
)
    ensures
        ConfigFile::Chosen(ConfigChoice::Given(name)).spec_text() == name@,
        ConfigFile::Chosen(ConfigChoice::Only(name)).spec_text() == name@,
        ConfigFile::Chosen(ConfigChoice::Generated(name)).spec_text() == name@,
        ConfigFile::Chosen(ConfigChoice::Default(platform)).spec_text() == ConfigFile::Named(
            None,
            platform,
        ).spec_text(),
        ConfigFile::Chosen(choice).spec_text() == choice.spec_text(),
        ConfigFile::Full(choice).spec_text() == "config-"@ + ConfigFile::Chosen(choice).spec_text()
            + ".yaml"@,
{
}

/// A launch without a named configuration has one generated exactly if there is
/// none, whatever platform is named.
pub proof fn config_is_generated_exactly_if_there_is_none(
    config: Option<String>,
    platform: Option<Platform>,
    configs: Seq<String>,
)
    ensures
        selected_config(config, platform, configs) == Ok::<ConfigSource, Failure>(
            ConfigSource::Generate,
        ) <==> config is None && configs.len() == 0,
        selected_config(config, platform, configs) is Err <==> config is None && platform is None
            && configs.len() > 1,
        selected_config(config, platform, configs) matches Err(e) ==> e is ManyConfigs,
{
}

} // verus!
