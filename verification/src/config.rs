//! Machine configuration that logs in automatically on the consoles.

use vstd::prelude::*;

use crate::json::{json_copy, json_insert, json_object, json_text, json_value, JsonView};
use crate::text::join3;

verus! {

/// An Ignition configuration that enables automatic login on consoles.
pub const AUTOLOGIN_CONFIG: &'static str = r###"
{
  "ignition": {
    "version": "3.0.0"
  },
  "systemd": {
    "units": [
      {
        "dropins": [
          {
            "contents": "[Service]\n\tExecStart=\n\tExecStart=-/sbin/agetty --autologin core -o '-p -f core' --noclear %I $TERM\n\t",
            "name": "10-autologin.conf"
          }
        ],
        "name": "getty@.service"
      },
      {
        "dropins": [
          {
            "contents": "[Service]\n\tExecStart=\n\tExecStart=-/sbin/agetty --autologin core -o '-p -f core' --keep-baud 115200,38400,9600 %I $TERM\n\t",
            "name": "10-autologin.conf"
          }
        ],
        "name": "serial-getty@.service"
      }
    ]
  }
}
"###;

/// The MachineConfig named `42-<name>-<role>` that gives the Ignition
/// configuration `ign` to the machines of a role.
pub open spec fn machine_config(ign: JsonView, name: Seq<char>, role: Seq<char>) -> JsonView {
    JsonView::Object(
        map![
            "apiVersion"@ => JsonView::Text("machineconfiguration.openshift.io/v1"@),
            "kind"@ => JsonView::Text("MachineConfig"@),
            "metadata"@ => JsonView::Object(
                map![
                    "labels"@ => JsonView::Object(
                        map!["machineconfiguration.openshift.io/role"@ => JsonView::Text(role)],
                    ),
                    "name"@ => JsonView::Text("42-"@ + name + "-"@ + role),
                ],
            ),
            "spec"@ => JsonView::Object(map!["config"@ => ign]),
        ],
    )
}

/// Given an Ignition configuration, generates the MachineConfig to use.
pub fn machineconfig_from_ign_for_role(ign: &serde_json::Value, name: &str, role: &str) -> (res:
    serde_json::Value)
    ensures
        json_value(res) == machine_config(json_value(*ign), name@, role@),
{
    let mut labels = json_object();
    json_insert(&mut labels, "machineconfiguration.openshift.io/role", json_text(role));
    let mut full_name = join3("42-", name, "-");
    full_name.append(role);
    let mut metadata = json_object();
    json_insert(&mut metadata, "labels", labels);
    json_insert(&mut metadata, "name", json_text(full_name.as_str()));
    let mut spec_part = json_object();
    json_insert(&mut spec_part, "config", json_copy(ign));
    let mut res = json_object();
    json_insert(&mut res, "apiVersion", json_text("machineconfiguration.openshift.io/v1"));
    json_insert(&mut res, "kind", json_text("MachineConfig"));
    json_insert(&mut res, "metadata", metadata);
    json_insert(&mut res, "spec", spec_part);
    res
}

/// A MachineConfig carries the Ignition configuration as it is, is labelled with
/// the role, and is named after its name and its role; it holds nothing else.
pub proof fn machine_config_carries_the_ignition(
    ign: JsonView,
    name: Seq<char>,
    role: Seq<char>,
)
    ensures
        ({
            let top = machine_config(ign, name, role);
            &&& top matches JsonView::Object(members)
            &&& members.dom() == set!["apiVersion"@, "kind"@, "metadata"@, "spec"@]
            &&& members["apiVersion"@] == JsonView::Text("machineconfiguration.openshift.io/v1"@)
            &&& members["kind"@] == JsonView::Text("MachineConfig"@)
            &&& members["metadata"@] matches JsonView::Object(metadata)
            &&& metadata.dom() == set!["labels"@, "name"@]
            &&& metadata["name"@] == JsonView::Text("42-"@ + name + "-"@ + role)
            &&& metadata["labels"@] matches JsonView::Object(labels)
            &&& labels.dom() == set!["machineconfiguration.openshift.io/role"@]
            &&& labels["machineconfiguration.openshift.io/role"@] == JsonView::Text(role)
            &&& members["spec"@] matches JsonView::Object(spec_part)
            &&& spec_part.dom() == set!["config"@]
            &&& spec_part["config"@] == ign
        }),
{
    reveal_strlit("apiVersion");
    reveal_strlit("kind");
    reveal_strlit("metadata");
    reveal_strlit("spec");
    reveal_strlit("labels");
    reveal_strlit("name");
    assert("apiVersion"@.len() == 10 && "metadata"@.len() == 8);
    assert("kind"@.len() == 4 && "spec"@.len() == 4);
    assert("kind"@[0] == 'k' && "spec"@[0] == 's');
    assert("labels"@.len() == 6 && "name"@.len() == 4);
    let members = machine_config(ign, name, role)->Object_0;
    assert(members.dom() =~= set!["apiVersion"@, "kind"@, "metadata"@, "spec"@]);
    let metadata = members["metadata"@]->Object_0;
    assert(metadata.dom() =~= set!["labels"@, "name"@]);
    let labels = metadata["labels"@]->Object_0;
    assert(labels.dom() =~= set!["machineconfiguration.openshift.io/role"@]);
    assert(members["spec"@]->Object_0.dom() =~= set!["config"@]);
}

} // verus!
