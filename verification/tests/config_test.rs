use xokdinst::config::{machineconfig_from_ign_for_role, AUTOLOGIN_CONFIG};
use xokdinst::manifests::{autologin_manifest, make_manifest};
use xokdinst::place::{Manifest, Role};

fn parsed(text: &str) -> serde_json::Value {
    serde_json::from_str(text).unwrap()
}

#[test]
fn machineconfig_of_a_role() {
    let ign = parsed("{\"ignition\": {\"version\": \"3.0.0\"}, \"n\": [1, 2.5, null, true]}");
    let config = machineconfig_from_ign_for_role(&ign, "some \"name\"", "worker");
    let expected = parsed(
        "{\"apiVersion\": \"machineconfiguration.openshift.io/v1\",
          \"kind\": \"MachineConfig\",
          \"metadata\": {
            \"labels\": {\"machineconfiguration.openshift.io/role\": \"worker\"},
            \"name\": \"42-some \\\"name\\\"-worker\"
          },
          \"spec\": {
            \"config\": {\"ignition\": {\"version\": \"3.0.0\"}, \"n\": [1, 2.5, null, true]}
          }}",
    );
    assert_eq!(config, expected);
    assert_eq!(config["spec"]["config"], ign);
}

#[test]
fn autologin_config_is_json() {
    let ign = parsed(AUTOLOGIN_CONFIG);
    assert_eq!(ign["ignition"]["version"], "3.0.0");
    assert_eq!(ign["systemd"]["units"][0]["name"], "getty@.service");
    assert_eq!(ign["systemd"]["units"][1]["name"], "serial-getty@.service");
    assert_eq!(
        ign["systemd"]["units"][0]["dropins"][0]["contents"],
        "[Service]\n\tExecStart=\n\tExecStart=-/sbin/agetty --autologin core -o '-p -f core' --noclear %I $TERM\n\t"
    );
}

#[test]
fn autologin_manifest_is_pretty_json() {
    let text = autologin_manifest(Role::Master).ok().unwrap();
    let expected = r#"{
  "apiVersion": "machineconfiguration.openshift.io/v1",
  "kind": "MachineConfig",
  "metadata": {
    "labels": {
      "machineconfiguration.openshift.io/role": "master"
    },
    "name": "42-autologin-master"
  },
  "spec": {
    "config": {
      "ignition": {
        "version": "3.0.0"
      },
      "systemd": {
        "units": [
          {
            "dropins": [
              {
                "contents": "[Service]\n\tExecStart=\n\tExecStart=-/sbin/agetty --autologin core -o '-p -f core' --noclear %I $TERM\n\t",
                "name": "10-autologin.conf"
              }
            ],
            "name": "getty@.service"
          },
          {
            "dropins": [
              {
                "contents": "[Service]\n\tExecStart=\n\tExecStart=-/sbin/agetty --autologin core -o '-p -f core' --keep-baud 115200,38400,9600 %I $TERM\n\t",
                "name": "10-autologin.conf"
              }
            ],
            "name": "serial-getty@.service"
          }
        ]
      }
    }
  }
}"#;
    assert_eq!(text, expected);
}

#[test]
fn autologin_manifest_names_its_role() {
    let text = make_manifest(&Manifest::Autologin(Role::Worker)).ok().unwrap();
    let config = parsed(&text);
    assert_eq!(config["metadata"]["name"], "42-autologin-worker");
    assert_eq!(config["metadata"]["labels"]["machineconfiguration.openshift.io/role"], "worker");
    assert_eq!(config["spec"]["config"], parsed(AUTOLOGIN_CONFIG));
}

#[test]
fn single_master_manifests() {
    let etcd = make_manifest(&Manifest::SingleEtcd).ok().unwrap();
    assert_eq!(
        etcd,
        "\napiVersion: operator.openshift.io/v1\nkind: Etcd\nmetadata:\n  name: cluster\nspec:\n  managementState: Managed\n  unsupportedConfigOverrides:\n    useUnsupportedUnsafeNonHANonProductionUnstableEtcd: true\n"
    );
    let ingress = make_manifest(&Manifest::SingleIngress).ok().unwrap();
    assert_eq!(
        ingress,
        "\napiVersion: operator.openshift.io/v1\nkind: IngressController\nmetadata:\n  name: default\n  namespace: openshift-ingress-operator\nspec:\n  replicas: 1\n"
    );
}

#[test]
fn manifest_file_names() {
    assert_eq!(Manifest::SingleEtcd.file_name(), "singlemaster0.yaml");
    assert_eq!(Manifest::SingleIngress.file_name(), "singlemaster1.yaml");
    assert_eq!(Manifest::Autologin(Role::Master).file_name(), "autologin-master.json");
    assert_eq!(Manifest::Autologin(Role::Worker).file_name(), "autologin-worker.json");
}
