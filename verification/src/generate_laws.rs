//! What holds of every generation, whatever it is answered.

use vstd::prelude::*;

use crate::dialogue::{Action, Answer};
use crate::failure::Failure;
use crate::generate::{generate_config, GenerateConfig, GenerateState};
use crate::install_config::InstallConfig;
use crate::installer::{InstallerOutcome, InstallerTask};
use crate::names::{config_files_are_named_after, ConfigFile};
use crate::options::GenConfigOpts;
use crate::place::{other_places, Base, Place};

verus! {

/// Whether a generation goes on behind its `k`th turn as it is answered: with what
/// `answer` returns.
pub open spec fn generation_turns(
    run: Seq<(GenerateConfig, Action)>,
    answers: Seq<Answer>,
    k: int,
) -> bool {
    !run[k].1.ends() && call_ensures(GenerateConfig::answer, (run[k].0, answers[k]), run[k + 1])
}

/// Whether `run` holds, in order, how a generation with these options stands and
/// what it asks for, where it is answered `answers`.
pub open spec fn is_generation(
    o: GenConfigOpts,
    run: Seq<(GenerateConfig, Action)>,
    answers: Seq<Answer>,
) -> bool {
    &&& run.len() == answers.len() + 1
    &&& call_ensures(generate_config, (o,), run[0])
    &&& forall|k: int| 0 <= k < answers.len() ==> #[trigger] generation_turns(run, answers, k)
}

/// Whether the place is the file in the configuration directory that is for a
/// configuration: `config-<name>.yaml`, or after the platform without a name.
pub open spec fn is_file_for(place: Place, o: GenConfigOpts, config: InstallConfig) -> bool {
    let x = match o.name {
        Some(name) => name@,
        None => config.platform.spec_platform().file_tag(),
    };
    &&& place.spec_base() == Base::Config
    &&& place.spec_parts() == seq!["config-"@ + x + ".yaml"@]
}

/// The place of the file for a configuration.
spec fn place_for(o: GenConfigOpts, config: InstallConfig) -> Place {
    Place::Config(ConfigFile::Named(o.name, config.platform.spec_platform()))
}

/// That place is the file for the configuration.
proof fn place_is_for(o: GenConfigOpts, config: InstallConfig)
    ensures
        is_file_for(place_for(o, config), o, config),
{
    let p = config.platform.spec_platform();
    other_places(ConfigFile::Named(o.name, p));
    match o.name {
        Some(name) => {
            config_files_are_named_after(name, p);
        },
        None => {
            config_files_are_named_after(arbitrary(), p);
        },
    }
    assert(place_for(o, config).spec_parts() =~= seq![ConfigFile::Named(o.name, p).spec_text()]);
}

/// What was read, and looked for, `back` turns before the `k`th turn and after.
spec fn was_read(
    o: GenConfigOpts,
    run: Seq<(GenerateConfig, Action)>,
    answers: Seq<Answer>,
    k: int,
    template: InstallConfig,
) -> bool {
    let j = if o.overwrite {
        k - 1
    } else {
        k - 2
    };
    &&& j >= 0
    &&& run[j].1 == Action::ReadConfig(Place::TempConfig)
    &&& answers[j] matches Answer::Config(c)
    &&& c.metadata is Some
    &&& template == (InstallConfig { metadata: None, ..c })
    &&& !o.overwrite ==> run[k - 1].1 == Action::Exists(place_for(o, template)) && answers[k - 1]
        == Answer::Exists(false)
}

/// How a generation stands at its `k`th turn.
spec fn stands(
    o: GenConfigOpts,
    run: Seq<(GenerateConfig, Action)>,
    answers: Seq<Answer>,
    k: int,
) -> bool {
    let (g, act) = run[k];
    &&& g.opts == o
    &&& match g.state {
        GenerateState::NameCheck => {
            &&& k == 0
            &&& !o.overwrite
            &&& o.name matches Some(name)
            &&& act == Action::Exists(Place::Config(ConfigFile::Plain(name)))
        },
        GenerateState::TempDir => act == Action::MakeTempDir,
        GenerateState::Running => act == Action::RunInstaller(InstallerTask::CreateInstallConfig),
        GenerateState::Reading => k >= 1 && act == Action::ReadConfig(Place::TempConfig),
        GenerateState::FileCheck(c) => {
            &&& k >= 1
            &&& !o.overwrite
            &&& run[k - 1].1 == Action::ReadConfig(Place::TempConfig)
            &&& answers[k - 1] == Answer::Config(c)
            &&& act == Action::Exists(place_for(o, c))
        },
        GenerateState::ConfigDir(t) => {
            &&& act == Action::EnsureDir(Place::ConfigDir)
            &&& was_read(o, run, answers, k, t)
        },
        GenerateState::Writing(t) => {
            &&& act == Action::WriteTemplate(place_for(o, t))
            &&& k >= 1
            &&& was_read(o, run, answers, k - 1, t)
        },
        GenerateState::Over => act.ends(),
    }
}

/// Every turn of a generation.
proof fn every_turn_stands(
    o: GenConfigOpts,
    run: Seq<(GenerateConfig, Action)>,
    answers: Seq<Answer>,
    k: int,
)
    requires
        is_generation(o, run, answers),
        0 <= k < run.len(),
    ensures
        stands(o, run, answers, k),
    decreases k,
{
    if k > 0 {
        every_turn_stands(o, run, answers, k - 1);
        assert(generation_turns(run, answers, k - 1));
    }
}

/// A generation begins by looking for a file of the very name that was given, if
/// it has a name and is not to overwrite, and otherwise with a temporary
/// directory.
pub proof fn generation_begins(o: GenConfigOpts, begun: (GenerateConfig, Action))
    requires
        call_ensures(generate_config, (o,), begun),
    ensures
        o.name matches Some(name) ==> (!o.overwrite ==> (begun.1 matches Action::Exists(place)
            && place.spec_base() == Base::Config && place.spec_parts() == seq![name@])),
        o.name is None || o.overwrite ==> begun.1 == Action::MakeTempDir,
{
    if let Some(name) = o.name {
        other_places(ConfigFile::Plain(name));
        config_files_are_named_after(name, arbitrary());
        assert(Place::Config(ConfigFile::Plain(name)).spec_parts() =~= seq![name@]);
    }
}

/// What a generation asks next, by what it asked and was answered: the file of the
/// given name is refused if it is there and not to be overwritten; the installer
/// runs and its configuration is read out of the temporary directory; the file for
/// the configuration is looked for and refused likewise; a configuration without
/// metadata is refused; then the file for the configuration is written. What could
/// not be done outside ends it with the reason.
pub proof fn generation_asks_in_order(
    o: GenConfigOpts,
    run: Seq<(GenerateConfig, Action)>,
    answers: Seq<Answer>,
    k: int,
)
    requires
        is_generation(o, run, answers),
        0 <= k < answers.len(),
    ensures
        ({
            let asked = run[k].1;
            let next = run[k + 1].1;
            match answers[k] {
                Answer::Failed(reason) => next == Action::Fail(Failure::Outside(reason)),
                Answer::Done => {
                    &&& asked is MakeTempDir ==> next == Action::RunInstaller(
                        InstallerTask::CreateInstallConfig,
                    )
                    &&& asked is EnsureDir ==> {
                        let j = if o.overwrite {
                            k - 1
                        } else {
                            k - 2
                        };
                        &&& answers[j] matches Answer::Config(c)
                        &&& next matches Action::WriteTemplate(place)
                        &&& is_file_for(place, o, c)
                    }
                    &&& asked matches Action::WriteTemplate(place) ==> (
                    next matches Action::Generated(file) && place.spec_parts()
                        == seq![file.spec_text()])
                },
                Answer::Ran(outcome) => asked is RunInstaller ==> match outcome {
                    InstallerOutcome::Succeeded => next == Action::ReadConfig(Place::TempConfig),
                    InstallerOutcome::Failed => next == Action::Fail(Failure::InstallerFailed),
                    InstallerOutcome::NotRun(reason) => next == Action::Fail(
                        Failure::InstallerNotRun(reason),
                    ),
                },
                Answer::Config(c) => asked is ReadConfig ==> {
                    &&& !o.overwrite ==> (next matches Action::Exists(place) && is_file_for(
                        place,
                        o,
                        c,
                    ))
                    &&& o.overwrite && c.metadata is Some ==> next == Action::EnsureDir(
                        Place::ConfigDir,
                    )
                    &&& o.overwrite && c.metadata is None ==> next == Action::Fail(
                        Failure::NoMetadata,
                    )
                },
                Answer::Exists(exists) => asked matches Action::Exists(place) ==> {
                    &&& exists ==> (next matches Action::Fail(Failure::ConfigExists(file))
                        && place.spec_parts() == seq![file.spec_text()])
                    &&& !exists && k == 0 ==> next == Action::MakeTempDir
                    &&& !exists && k > 0 ==> {
                        &&& answers[k - 1] matches Answer::Config(c)
                        &&& c.metadata is Some ==> next == Action::EnsureDir(Place::ConfigDir)
                        &&& c.metadata is None ==> next == Action::Fail(Failure::NoMetadata)
                    }
                },
                _ => true,
            }
        }),
{
    every_turn_stands(o, run, answers, k);
    every_turn_stands(o, run, answers, k + 1);
    assert(generation_turns(run, answers, k));
    let (g, act) = run[k];
    match g.state {
        GenerateState::NameCheck => {
            let file = ConfigFile::Plain(o.name->0);
            other_places(file);
            assert(Place::Config(file).spec_parts() =~= seq![file.spec_text()]);
        },
        GenerateState::Reading => {
            if let Answer::Config(c) = answers[k] {
                place_is_for(o, c);
            }
        },
        GenerateState::FileCheck(c) => {
            let file = ConfigFile::Named(o.name, c.platform.spec_platform());
            other_places(file);
            assert(Place::Config(file).spec_parts() =~= seq![file.spec_text()]);
        },
        GenerateState::ConfigDir(t) => {
            place_is_for(o, t);
        },
        GenerateState::Writing(t) => {
            let file = ConfigFile::Named(o.name, t.platform.spec_platform());
            other_places(file);
            assert(Place::Config(file).spec_parts() =~= seq![file.spec_text()]);
        },
        _ => {},
    }
}

/// A generation that is not to overwrite writes only a file that it looked for
/// before and did not find: the same base, the same path.
pub proof fn nothing_is_overwritten_unasked(
    o: GenConfigOpts,
    run: Seq<(GenerateConfig, Action)>,
    answers: Seq<Answer>,
    k: int,
)
    requires
        is_generation(o, run, answers),
        !o.overwrite,
        0 <= k < run.len(),
    ensures
        run[k].1 matches Action::WriteTemplate(place) ==> exists|j: int|
            {
                &&& 0 <= j < k
                &&& (#[trigger] run[j]).1 matches Action::Exists(looked_for)
                &&& looked_for.spec_base() == place.spec_base()
                &&& looked_for.spec_parts() == place.spec_parts()
                &&& answers[j] == Answer::Exists(false)
            },
{
    every_turn_stands(o, run, answers, k);
    if run[k].1 is WriteTemplate {
        assert(run[k - 2].1 is Exists);
    }
}

/// What is written is what the installer wrote, field by field, but for the
/// metadata, which a template has not.
pub proof fn template_is_what_the_installer_wrote(
    o: GenConfigOpts,
    run: Seq<(GenerateConfig, Action)>,
    answers: Seq<Answer>,
    k: int,
)
    requires
        is_generation(o, run, answers),
        0 <= k < run.len(),
        run[k].1 is WriteTemplate,
    ensures
        ({
            let j = if o.overwrite {
                k - 2
            } else {
                k - 3
            };
            &&& run[k].0.state matches GenerateState::Writing(template)
            &&& j >= 0
            &&& run[j].1 == Action::ReadConfig(Place::TempConfig)
            &&& answers[j] matches Answer::Config(c)
            &&& c.metadata is Some
            &&& template.metadata is None
            &&& template.api_version == c.api_version
            &&& template.base_domain == c.base_domain
            &&& template.compute == c.compute
            &&& template.control_plane == c.control_plane
            &&& template.platform == c.platform
            &&& template.pull_secret == c.pull_secret
            &&& template.ssh_key == c.ssh_key
            &&& template.extra == c.extra
        }),
{
    every_turn_stands(o, run, answers, k);
}

/// Wherever a generation stands, the installer is the one that its options ask
/// for.
pub proof fn generation_keeps_its_options(
    o: GenConfigOpts,
    run: Seq<(GenerateConfig, Action)>,
    answers: Seq<Answer>,
    k: int,
)
    requires
        is_generation(o, run, answers),
        0 <= k < run.len(),
    ensures
        run[k].0.opts == o,
{
    every_turn_stands(o, run, answers, k);
}

} // verus!
