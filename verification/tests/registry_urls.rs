use minibox::urls::{blob_url, manifest_url, token_url};

#[test]
fn token_url_embeds_service_and_scope() {
    assert_eq!(
        token_url("auth.docker.io", "registry.docker.io", "alpine"),
        "https://auth.docker.io/token?service=registry.docker.io&scope=repository:library/alpine:pull"
    );
}

#[test]
fn manifest_url_names_image_and_tag() {
    assert_eq!(
        manifest_url("registry.hub.docker.com", "alpine", "3.18"),
        "https://registry.hub.docker.com/v2/library/alpine/manifests/3.18"
    );
}

#[test]
fn blob_url_names_the_digest() {
    assert_eq!(
        blob_url("registry.hub.docker.com", "alpine", "sha256:aaa"),
        "https://registry.hub.docker.com/v2/library/alpine/blobs/sha256:aaa"
    );
}
