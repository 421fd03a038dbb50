//! Why a command stops, and what it tells the user on the way.

use vstd::prelude::*;

use crate::names::{ConfigChoice, ConfigFile};
use crate::place::{DOCKERCFG_PATH, FAILED_STAMP_PATH, LAUNCHED_CONFIG_PATH, METADATA_PATH};
use crate::text::join3;

verus! {

/// The reason why a command stops.
#[derive(Debug, PartialEq)]
pub enum Failure {
    /// The cluster to launch is there already.
    ClusterExists(String),
    /// There is no cluster of this name.
    NoSuchCluster(String),
    /// There are several configurations and none was chosen.
    ManyConfigs,
    /// The configuration that was chosen is not there.
    NoSuchConfig(ConfigChoice),
    /// The configuration to generate is there already.
    ConfigExists(ConfigFile),
    /// The installer wrote a configuration without metadata.
    NoMetadata,
    /// There is no home directory to look for credentials in.
    NoHome,
    /// There is no pull secret anywhere.
    NoPullSecret,
    /// The directory of the user's manifests holds none.
    NoManifests(String),
    /// The installer ran and failed.
    InstallerFailed,
    /// The installer could not be run, for this reason.
    InstallerNotRun(String),
    /// What had to be done outside could not be done, for this reason.
    Outside(String),
    /// What was answered is no answer to what was asked.
    Unexpected,
}

impl Failure {
    /// What the user is told.
    pub open spec fn spec_text(self) -> Seq<char> {
        match self {
            Failure::ClusterExists(name) => "Cluster "@ + name@
                + " already exists, use destroy to remove it"@,
            Failure::NoSuchCluster(name) => "No such cluster: "@ + name@,
            Failure::ManyConfigs => "Have multiple configs, and no config specified"@,
            Failure::NoSuchConfig(choice) => "No such configuration: "@ + choice.spec_text(),
            Failure::ConfigExists(file) => "Configuration '"@ + file.spec_text()
                + "' already exists and overwrite not specified"@,
            Failure::NoMetadata => "Didn't find expected metadata key"@,
            Failure::NoHome => "No HOME found"@,
            Failure::NoPullSecret => "No pull secret in install config, and no "@ + DOCKERCFG_PATH@
                + " found"@,
            Failure::NoManifests(dir) =>
                "No regular files found in additional manifests directory: "@ + dir@,
            Failure::InstallerFailed => "openshift-install failed"@,
            Failure::InstallerNotRun(reason) => reason@,
            Failure::Outside(reason) => reason@,
            Failure::Unexpected => "Answer out of turn"@,
        }
    }

    /// What the user is told.
    pub fn text(&self) -> (res: String)
        ensures
            res@ == self.spec_text(),
    {
        match self {
            Failure::ClusterExists(name) => join3(
                "Cluster ",
                name.as_str(),
                " already exists, use destroy to remove it",
            ),
            Failure::NoSuchCluster(name) => String::from_str("No such cluster: ").concat(
                name.as_str(),
            ),
            Failure::ManyConfigs => String::from_str(
                "Have multiple configs, and no config specified",
            ),
            Failure::NoSuchConfig(choice) => {
                let name = choice.text();
                String::from_str("No such configuration: ").concat(name.as_str())
            },
            Failure::ConfigExists(file) => {
                let name = file.text();
                join3(
                    "Configuration '",
                    name.as_str(),
                    "' already exists and overwrite not specified",
                )
            },
            Failure::NoMetadata => String::from_str("Didn't find expected metadata key"),
            Failure::NoHome => String::from_str("No HOME found"),
            Failure::NoPullSecret => join3(
                "No pull secret in install config, and no ",
                DOCKERCFG_PATH,
                " found",
            ),
            Failure::NoManifests(dir) => String::from_str(
                "No regular files found in additional manifests directory: ",
            ).concat(dir.as_str()),
            Failure::InstallerFailed => String::from_str("openshift-install failed"),
            Failure::InstallerNotRun(reason) => reason.clone(),
            Failure::Outside(reason) => reason.clone(),
            Failure::Unexpected => String::from_str("Answer out of turn"),
        }
    }

    /// The same failure again.
    pub fn copy(&self) -> (res: Failure)
        ensures
            res == *self,
    {
        match self {
            Failure::ClusterExists(name) => Failure::ClusterExists(name.clone()),
            Failure::NoSuchCluster(name) => Failure::NoSuchCluster(name.clone()),
            Failure::ManyConfigs => Failure::ManyConfigs,
            Failure::NoSuchConfig(choice) => Failure::NoSuchConfig(choice.copy()),
            Failure::ConfigExists(file) => Failure::ConfigExists(file.copy()),
            Failure::NoMetadata => Failure::NoMetadata,
            Failure::NoHome => Failure::NoHome,
            Failure::NoPullSecret => Failure::NoPullSecret,
            Failure::NoManifests(dir) => Failure::NoManifests(dir.clone()),
            Failure::InstallerFailed => Failure::InstallerFailed,
            Failure::InstallerNotRun(reason) => Failure::InstallerNotRun(reason.clone()),
            Failure::Outside(reason) => Failure::Outside(reason.clone()),
            Failure::Unexpected => Failure::Unexpected,
        }
    }
}

/// Something to tell the user while a command goes on.
#[derive(Debug, PartialEq)]
pub enum Notice {
    /// There is no configuration yet.
    NoConfigs,
    /// This release image was found.
    UsingRelease(String),
    /// These manifests of the user were copied.
    CopiedManifests(Vec<String>),
    /// The failure stamp could not be written, for this reason.
    StampNotWritten(String),
    /// The cluster of this name does not say what it was launched with.
    NoLaunchedConfig(String),
    /// The installer failed to destroy a cluster, which is ignored.
    DestroyFailed,
    /// The cluster of this name was never installed.
    NeverInstalled(String),
    /// The cluster of this name has neither metadata nor a failure stamp.
    NoTrace(String),
}

/// One line per item, indented.
pub open spec fn item_lines(items: Seq<String>) -> Seq<char>
    decreases items.len(),
{
    if items.len() == 0 {
        seq![]
    } else {
        item_lines(items.drop_last()) + ("  "@ + items.last()@ + "\n"@)
    }
}

/// One line per item, indented, put behind `head`.
pub(crate) fn append_items(head: &str, items: &[String]) -> (res: String)
    ensures
        res@ == head@ + item_lines(items@),
{
    let mut res = String::from_str(head);
    assert(res@ =~= head@ + item_lines(items@.take(0)));
    for i in 0..items.len()
        invariant
            res@ == head@ + item_lines(items@.take(i as int)),
    {
        let line = join3("  ", items[i].as_str(), "\n");
        res.append(line.as_str());
        assert(items@.take(i + 1).drop_last() =~= items@.take(i as int));
        assert(res@ =~= head@ + item_lines(items@.take(i + 1)));
    }
    assert(items@.take(items@.len() as int) =~= items@);
    res
}

impl Notice {
    /// What is printed.
    pub open spec fn spec_text(self) -> Seq<char> {
        match self {
            Notice::NoConfigs => "No configurations found; generating one now\n"@,
            Notice::UsingRelease(image) => "Using release image: "@ + image@ + "\n"@,
            Notice::CopiedManifests(names) => "Copied custom manifests:\n"@ + item_lines(names@),
            Notice::StampNotWritten(reason) => "Writing "@ + FAILED_STAMP_PATH@ + ": "@ + reason@
                + "\n"@,
            Notice::NoLaunchedConfig(name) => "Warning: clusterdir "@ + name@
                + " missing launch opts file "@ + LAUNCHED_CONFIG_PATH@ + "\n"@,
            Notice::DestroyFailed => "Warning: destroy cluster failed, continuing anyways\n"@,
            Notice::NeverInstalled(name) => "Cluster "@ + name@
                + " failed install, just removing directory\n"@,
            Notice::NoTrace(name) => "Cluster "@ + name@ + " is missing "@ + METADATA_PATH@
                + " but also does not have a failure stamp "@ + FAILED_STAMP_PATH@
                + "; continuing anyways\n"@,
        }
    }

    /// Whether the notice is a warning, which goes to the error output.
    pub open spec fn spec_is_warning(self) -> bool {
        self is StampNotWritten || self is NoLaunchedConfig || self is DestroyFailed
            || self is NoTrace
    }

    /// What is printed.
    pub fn text(&self) -> (res: String)
        ensures
            res@ == self.spec_text(),
    {
        match self {
            Notice::NoConfigs => String::from_str("No configurations found; generating one now\n"),
            Notice::UsingRelease(image) => join3("Using release image: ", image.as_str(), "\n"),
            Notice::CopiedManifests(names) => append_items(
                "Copied custom manifests:\n",
                names.as_slice(),
            ),
            Notice::StampNotWritten(reason) => join3(
                "Writing ",
                FAILED_STAMP_PATH,
                ": ",
            ).concat(reason.as_str()).concat("\n"),
            Notice::NoLaunchedConfig(name) => join3(
                "Warning: clusterdir ",
                name.as_str(),
                " missing launch opts file ",
            ).concat(LAUNCHED_CONFIG_PATH).concat("\n"),
            Notice::DestroyFailed => String::from_str(
                "Warning: destroy cluster failed, continuing anyways\n",
            ),
            Notice::NeverInstalled(name) => join3(
                "Cluster ",
                name.as_str(),
                " failed install, just removing directory\n",
            ),
            Notice::NoTrace(name) => join3("Cluster ", name.as_str(), " is missing ").concat(
                METADATA_PATH,
            ).concat(" but also does not have a failure stamp ").concat(FAILED_STAMP_PATH).concat(
                "; continuing anyways\n",
            ),
        }
    }

    /// Whether the notice is a warning, which goes to the error output.
    pub fn is_warning(&self) -> (res: bool)
        ensures
            res == self.spec_is_warning(),
    {
        match self {
            Notice::StampNotWritten(_) => true,
            Notice::NoLaunchedConfig(_) => true,
            Notice::DestroyFailed => true,
            Notice::NoTrace(_) => true,
            _ => false,
        }
    }
}

/// A failure says what it is about: the cluster, the configuration by the name
/// that was looked for, the directory, or the reason that was given, as they are.
pub proof fn failure_says_what_it_is_about(
    name: String,
    choice: ConfigChoice,
    file: ConfigFile,
)
    ensures
        Failure::ClusterExists(name).spec_text() == "Cluster "@ + name@
            + " already exists, use destroy to remove it"@,
        Failure::NoSuchCluster(name).spec_text() == "No such cluster: "@ + name@,
        Failure::NoSuchConfig(choice).spec_text() == "No such configuration: "@
            + choice.spec_text(),
        Failure::ConfigExists(file).spec_text() == "Configuration '"@ + file.spec_text()
            + "' already exists and overwrite not specified"@,
        Failure::NoManifests(name).spec_text()
            == "No regular files found in additional manifests directory: "@ + name@,
        Failure::InstallerNotRun(name).spec_text() == name@,
        Failure::Outside(name).spec_text() == name@,
{
}

/// A notice says what it is about as it is; a list of manifests has one indented
/// line per name.
pub proof fn notice_says_what_it_is_about(text: String, names: Seq<String>, name: String)
    ensures
        Notice::UsingRelease(text).spec_text() == "Using release image: "@ + text@ + "\n"@,
        Notice::StampNotWritten(text).spec_text() == "Writing xokdinst-failed: "@ + text@ + "\n"@,
        Notice::NoLaunchedConfig(text).spec_text() == "Warning: clusterdir "@ + text@
            + " missing launch opts file xokdinst-launched-config.yaml\n"@,
        Notice::NeverInstalled(text).spec_text() == "Cluster "@ + text@
            + " failed install, just removing directory\n"@,
        Notice::NoTrace(text).spec_text() == "Cluster "@ + text@
            + " is missing metadata.json but also does not have a failure stamp xokdinst-failed; continuing anyways\n"@,
        item_lines(Seq::empty()) == Seq::<char>::empty(),
        item_lines(names.push(name)) == item_lines(names) + "  "@ + name@ + "\n"@,
        forall|v: Vec<String>| #[trigger]
            Notice::CopiedManifests(v).spec_text() == "Copied custom manifests:\n"@ + item_lines(
                v@,
            ),
{
    reveal_strlit("Writing ");
    reveal_strlit("xokdinst-failed");
    reveal_strlit(": ");
    reveal_strlit("Writing xokdinst-failed: ");
    reveal_strlit("\n");
    reveal_strlit(" missing launch opts file ");
    reveal_strlit("xokdinst-launched-config.yaml");
    reveal_strlit(" missing launch opts file xokdinst-launched-config.yaml\n");
    reveal_strlit(" is missing ");
    reveal_strlit("metadata.json");
    reveal_strlit(" but also does not have a failure stamp ");
    reveal_strlit("; continuing anyways\n");
    reveal_strlit(
        " is missing metadata.json but also does not have a failure stamp xokdinst-failed; continuing anyways\n",
    );
    assert("Writing "@ + "xokdinst-failed"@ + ": "@ =~= "Writing xokdinst-failed: "@);
    assert(Notice::NoLaunchedConfig(text).spec_text() =~= "Warning: clusterdir "@ + text@ + (
    " missing launch opts file "@ + "xokdinst-launched-config.yaml"@ + "\n"@));
    assert(" missing launch opts file "@ + "xokdinst-launched-config.yaml"@ + "\n"@
        =~= " missing launch opts file xokdinst-launched-config.yaml\n"@);
    assert(Notice::NoTrace(text).spec_text() =~= "Cluster "@ + text@ + (" is missing "@
        + "metadata.json"@ + " but also does not have a failure stamp "@ + "xokdinst-failed"@
        + "; continuing anyways\n"@));
    assert(" is missing "@ + "metadata.json"@ + " but also does not have a failure stamp "@
        + "xokdinst-failed"@ + "; continuing anyways\n"@
        =~= " is missing metadata.json but also does not have a failure stamp xokdinst-failed; continuing anyways\n"@);
    assert(names.push(name).drop_last() =~= names);
    assert(item_lines(names.push(name)) =~= item_lines(names) + "  "@ + name@ + "\n"@);
}

/// What is odd is told on the error output, what goes as it should on the other.
pub proof fn warnings_are_what_is_odd(n: Notice)
    ensures
        n.spec_is_warning() <==> !(n is NoConfigs || n is UsingRelease || n is CopiedManifests
            || n is NeverInstalled),
{
}

} // verus!
