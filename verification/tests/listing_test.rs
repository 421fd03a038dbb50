use xokdinst::listing::{clusters_table, print_clusters, print_list, ClusterFacts};
use xokdinst::platform::Platform;

fn facts(name: &str, platform: Option<Platform>, failed: bool, up: bool) -> ClusterFacts {
    ClusterFacts { name: name.to_string(), platform, failed, has_kubeconfig: up }
}

#[test]
fn no_clusters() {
    assert_eq!(print_clusters(&Vec::new()), "No clusters.\n");
}

#[test]
fn clusters_by_tabs() {
    let clusters = vec![
        facts("mycluster", Some(Platform::AWS), false, true),
        facts("x", None, false, false),
        facts("broken", Some(Platform::Libvirt), true, true),
    ];
    assert_eq!(
        clusters_table(&clusters),
        "NAME\tPLATFORM\tSTATUS\nmycluster\tAWS\tlaunched\nx\t<unknown>\tunknown\nbroken\tLibvirt\tinstall-failed\n"
    );
}

#[test]
fn clusters_are_aligned() {
    let clusters = vec![
        facts("mycluster", Some(Platform::AWS), false, true),
        facts("x", None, false, false),
    ];
    assert_eq!(
        print_clusters(&clusters),
        "NAME       PLATFORM   STATUS\nmycluster  AWS        launched\nx          <unknown>  unknown\n"
    );
}

#[test]
fn names_beyond_ascii_are_aligned() {
    let clusters = vec![facts("größe", Some(Platform::GCP), false, true)];
    assert_eq!(
        print_clusters(&clusters),
        "NAME   PLATFORM  STATUS\ngröße  GCP       launched\n"
    );
}

#[test]
fn cluster_states() {
    assert_eq!(facts("a", None, true, false).state(), "install-failed");
    assert_eq!(facts("a", None, true, true).state(), "install-failed");
    assert_eq!(facts("a", None, false, true).state(), "launched");
    assert_eq!(facts("a", None, false, false).state(), "unknown");
}

#[test]
fn lists_are_indented() {
    let configs = vec!["config-aws.yaml".to_string(), "config-libvirt.yaml".to_string()];
    assert_eq!(print_list("configs", &configs), "  config-aws.yaml\n  config-libvirt.yaml\n");
    assert_eq!(print_list("configs", &Vec::new()), "No configs.\n");
}
