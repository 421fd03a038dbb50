use xokdinst::release::{
    get_latest_release, latest_release_url, release_address_text, LatestRelease,
};

#[test]
fn url_of_a_stream() {
    assert_eq!(
        latest_release_url("4.5.0-0.nightly").ok().unwrap(),
        "https://openshift-release.apps.ci.l2s4.p1.openshiftapps.com/api/v1/releasestream/4.5.0-0.nightly/latest"
    );
}

#[test]
fn url_is_read_from_the_address() {
    assert_eq!(
        release_address_text("a b"),
        "https://openshift-release.apps.ci.l2s4.p1.openshiftapps.com/api/v1/releasestream/a b/latest"
    );
    assert_eq!(
        latest_release_url("a b").ok().unwrap(),
        "https://openshift-release.apps.ci.l2s4.p1.openshiftapps.com/api/v1/releasestream/a%20b/latest"
    );
}

#[test]
fn release_image_is_the_pull_spec() {
    let release = LatestRelease {
        name: "4.5.0".to_string(),
        pull_spec: "registry/ocp:4.5.0".to_string(),
        download_url: "https://example.com".to_string(),
    };
    assert_eq!(get_latest_release(release), "registry/ocp:4.5.0");
}
