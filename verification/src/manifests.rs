//! What the manifests say that are added to those of the installer.

use vstd::prelude::*;

use crate::config::{machine_config, machineconfig_from_ign_for_role, AUTOLOGIN_CONFIG};
use crate::json::{json_parse, json_parsed, json_pretty, json_pretty_text};
use crate::place::{Manifest, Role};

verus! {

/// Lets etcd run without peers.
pub const SINGLE_MASTER_ETCD: &'static str = r###"
apiVersion: operator.openshift.io/v1
kind: Etcd
metadata:
  name: cluster
spec:
  managementState: Managed
  unsupportedConfigOverrides:
    useUnsupportedUnsafeNonHANonProductionUnstableEtcd: true
"###;

/// Lets one replica do for the ingress controller.
pub const SINGLE_MASTER_INGRESS: &'static str = r###"
apiVersion: operator.openshift.io/v1
kind: IngressController
metadata:
  name: default
  namespace: openshift-ingress-operator
spec:
  replicas: 1
"###;

/// The configuration that a manifest is made of could not be read.
pub struct UnreadableConfig {
    pub reason: serde_json::Error,
}

/// The text of the manifest that logs in automatically on the consoles of the
/// machines of a role, if the configuration that it is made of can be read.
pub open spec fn autologin_text(role: Role) -> Option<Seq<char>> {
    match json_parsed(AUTOLOGIN_CONFIG@) {
        Some(ign) => Some(
            json_pretty_text(machine_config(ign, "autologin"@, role.spec_text())),
        ),
        None => None,
    }
}

/// The text of a manifest, if what it is made of can be read.
pub open spec fn manifest_text(manifest: Manifest) -> Option<Seq<char>> {
    match manifest {
        Manifest::SingleEtcd => Some(SINGLE_MASTER_ETCD@),
        Manifest::SingleIngress => Some(SINGLE_MASTER_INGRESS@),
        Manifest::Autologin(role) => autologin_text(role),
    }
}

/// Makes the manifest that logs in automatically on the consoles of the
/// machines of a role.
pub fn autologin_manifest(role: Role) -> (res: Result<String, UnreadableConfig>)
    ensures
        autologin_text(role) == (match res {
            Ok(text) => Some(text@),
            Err(_) => None,
        }),
{
    let ign = match json_parse(AUTOLOGIN_CONFIG) {
        Ok(ign) => ign,
        Err(reason) => {
            return Err(UnreadableConfig { reason });
        },
    };
    let config = machineconfig_from_ign_for_role(&ign, "autologin", role.text());
    Ok(json_pretty(&config).unwrap())
}

/// Makes a manifest.
pub fn make_manifest(manifest: &Manifest) -> (res: Result<String, UnreadableConfig>)
    ensures
        manifest_text(*manifest) == (match res {
            Ok(text) => Some(text@),
            Err(_) => None,
        }),
{
    match manifest {
        Manifest::SingleEtcd => Ok(String::from_str(SINGLE_MASTER_ETCD)),
        Manifest::SingleIngress => Ok(String::from_str(SINGLE_MASTER_INGRESS)),
        Manifest::Autologin(role) => autologin_manifest(*role),
    }
}

/// The manifest that logs in automatically is the MachineConfig of its role for
/// the one Ignition configuration, written indented; that of a single node is the
/// text for etcd or for the ingress controller.
pub proof fn manifests_say_what_they_are_for(role: Role)
    ensures
        match json_parsed(AUTOLOGIN_CONFIG@) {
            Some(ign) => manifest_text(Manifest::Autologin(role)) == Some(
                json_pretty_text(
                    machine_config(
                        ign,
                        "autologin"@,
                        match role {
                            Role::Master => "master"@,
                            Role::Worker => "worker"@,
                        },
                    ),
                ),
            ),
            None => manifest_text(Manifest::Autologin(role)) is None,
        },
        manifest_text(Manifest::SingleEtcd) == Some(SINGLE_MASTER_ETCD@),
        manifest_text(Manifest::SingleIngress) == Some(SINGLE_MASTER_INGRESS@),
{
}

} // verus!
