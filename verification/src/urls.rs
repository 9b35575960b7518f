//! The three registry URLs a pull visits: the token endpoint, the manifest
//! endpoint and the blob endpoint.

use vstd::prelude::*;

verus! {

/// The token endpoint: asks for pull access to one repository.
pub open spec fn token_url_spec(auth: Seq<char>, registry: Seq<char>, image: Seq<char>) -> Seq<
    char,
> {
    "https://"@ + auth + "/token?service="@ + registry + "&scope=repository:library/"@ + image
        + ":pull"@
}

/// The manifest endpoint for one image and tag.
pub open spec fn manifest_url_spec(hub: Seq<char>, image: Seq<char>, tag: Seq<char>) -> Seq<char> {
    "https://"@ + hub + "/v2/library/"@ + image + "/manifests/"@ + tag
}

/// The blob endpoint for one content-addressed layer digest.
pub open spec fn blob_url_spec(hub: Seq<char>, image: Seq<char>, digest: Seq<char>) -> Seq<char> {
    "https://"@ + hub + "/v2/library/"@ + image + "/blobs/"@ + digest
}

/// Build the token endpoint URL.
pub fn token_url(auth: &str, registry: &str, image: &str) -> (r: String)
    ensures
        r@ == token_url_spec(auth@, registry@, image@),
{
    let mut url = String::from_str("https://");
    url.append(auth);
    url.append("/token?service=");
    url.append(registry);
    url.append("&scope=repository:library/");
    url.append(image);
    url.append(":pull");
    proof {
        assert(url@ =~= token_url_spec(auth@, registry@, image@));
    }
    url
}

/// Build the manifest endpoint URL.
pub fn manifest_url(hub: &str, image: &str, tag: &str) -> (r: String)
    ensures
        r@ == manifest_url_spec(hub@, image@, tag@),
{
    let mut url = String::from_str("https://");
    url.append(hub);
    url.append("/v2/library/");
    url.append(image);
    url.append("/manifests/");
    url.append(tag);
    proof {
        assert(url@ =~= manifest_url_spec(hub@, image@, tag@));
    }
    url
}

/// Build the blob endpoint URL.
pub fn blob_url(hub: &str, image: &str, digest: &str) -> (r: String)
    ensures
        r@ == blob_url_spec(hub@, image@, digest@),
{
    let mut url = String::from_str("https://");
    url.append(hub);
    url.append("/v2/library/");
    url.append(image);
    url.append("/blobs/");
    url.append(digest);
    proof {
        assert(url@ =~= blob_url_spec(hub@, image@, digest@));
    }
    url
}

} // verus!
