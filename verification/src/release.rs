//! Release images of the release streams.

use vstd::prelude::*;

use crate::text::join3;

verus! {

/// What the release server says of the latest release of a stream.
pub struct LatestRelease {
    pub name: String,
    pub pull_spec: String,
    pub download_url: String,
}

/// `url::ParseError`, the reason why a text is no URL.
#[verifier::external_type_specification]
#[verifier::external_body]
pub struct ExUrlParseError(url::ParseError);

/// The address of a release stream is no URL.
pub struct BadReleaseUrl {
    pub reason: url::ParseError,
}

/// The URL that the text stands for, as `url` writes it: nothing if the text is
/// no absolute URL.
pub uninterp spec fn url_parsed(text: Seq<char>) -> Option<Seq<char>>;

/// `url::Url::parse`: reads an absolute URL, which is handed out as it is then
/// written; what is read depends on the text alone.
#[verifier::external_body]
fn parse_url(text: &str) -> (res: Result<String, url::ParseError>)
    ensures
        url_parsed(text@) == (match res {
            Ok(url) => Some(url@),
            Err(_) => None,
        }),
{
    match url::Url::parse(text) {
        Ok(url) => Ok(String::from(url)),
        Err(e) => Err(e),
    }
}

/// Where the release server tells the latest release of a stream.
pub open spec fn release_address(release_stream: Seq<char>) -> Seq<char> {
    "https://openshift-release.apps.ci.l2s4.p1.openshiftapps.com/api/v1/releasestream/"@
        + release_stream + "/latest"@
}

/// Where the release server tells the latest release of a stream.
pub fn release_address_text(release_stream: &str) -> (res: String)
    ensures
        res@ == release_address(release_stream@),
{
    join3(
        "https://openshift-release.apps.ci.l2s4.p1.openshiftapps.com/api/v1/releasestream/",
        release_stream,
        "/latest",
    )
}

/// The URL of the latest release of a stream.
pub fn latest_release_url(release_stream: &str) -> (res: Result<String, BadReleaseUrl>)
    ensures
        url_parsed(release_address(release_stream@)) == (match res {
            Ok(url) => Some(url@),
            Err(_) => None,
        }),
{
    let address = release_address_text(release_stream);
    match parse_url(address.as_str()) {
        Ok(url) => Ok(url),
        Err(reason) => Err(BadReleaseUrl { reason }),
    }
}

/// The image of the latest release, as the server gave it.
pub fn get_latest_release(resp: LatestRelease) -> (res: String)
    ensures
        res == resp.pull_spec,
{
    resp.pull_spec
}

/// The release server is asked over HTTPS for the latest release of the very
/// stream that is wanted: streams of different names have different addresses.
pub proof fn address_names_its_stream(stream: Seq<char>, other: Seq<char>)
    ensures
        ({
            let front = "https://openshift-release.apps.ci.l2s4.p1.openshiftapps.com/api/v1/releasestream/"@;
            let address = release_address(stream);
            &&& front.is_prefix_of(address)
            &&& "/latest"@.is_suffix_of(address)
            &&& address.subrange(front.len() as int, address.len() - "/latest"@.len()) == stream
        }),
        release_address(stream) == release_address(other) ==> stream == other,
{
    let front = "https://openshift-release.apps.ci.l2s4.p1.openshiftapps.com/api/v1/releasestream/"@;
    let n = front.len() as int;
    let a = release_address(stream);
    let b = release_address(other);
    assert(front =~= a.subrange(0, n));
    assert("/latest"@ =~= a.subrange(a.len() - "/latest"@.len(), a.len() as int));
    assert(a.subrange(n, n + stream.len()) =~= stream);
    assert(b.subrange(n, n + other.len()) =~= other);
    assert(a.len() == n + stream.len() + "/latest"@.len());
    assert(b.len() == n + other.len() + "/latest"@.len());
}

} // verus!
