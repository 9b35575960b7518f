use minibox::errors::PullError;
use minibox::session::{pull_image, step, PullAction, PullEvent, RegistryConfig};
use std::io::Write;

fn local_config() -> RegistryConfig {
    RegistryConfig {
        auth: "auth.local".to_string(),
        registry: "reg.local".to_string(),
        hub: "hub.local".to_string(),
    }
}

fn gzip(data: &[u8]) -> Vec<u8> {
    let mut encoder = libflate::gzip::Encoder::new(Vec::new()).unwrap();
    encoder.write_all(data).unwrap();
    encoder.finish().into_result().unwrap()
}

fn tar_with_file(path: &str, mode: u32, content: &[u8]) -> Vec<u8> {
    let mut builder = tar::Builder::new(Vec::new());
    let mut header = tar::Header::new_gnu();
    header.set_size(content.len() as u64);
    header.set_mode(mode);
    header.set_cksum();
    builder.append_data(&mut header, path, content).unwrap();
    builder.into_inner().unwrap()
}

fn expect_fetch(action: &PullAction) -> (String, Option<String>) {
    match action {
        PullAction::Fetch { url, bearer } => (url.clone(), bearer.clone()),
        _ => panic!("expected a fetch action"),
    }
}

fn expect_unpack(action: PullAction) -> Vec<u8> {
    match action {
        PullAction::Unpack { tar } => tar,
        _ => panic!("expected an unpack action"),
    }
}

#[test]
fn pull_starts_with_an_unauthenticated_token_fetch() {
    let (_session, action) = pull_image(local_config(), "alpine:3.18").unwrap();
    let (url, bearer) = expect_fetch(&action);
    assert_eq!(
        url,
        "https://auth.local/token?service=reg.local&scope=repository:library/alpine:pull"
    );
    assert!(bearer.is_none());
}

#[test]
fn bad_reference_stops_the_pull_before_any_fetch() {
    assert!(matches!(
        pull_image(local_config(), "alpine:3:18"),
        Err(PullError::Reference)
    ));
}

#[test]
fn two_layer_pull_unpacks_both_layers_in_manifest_order() {
    let tar_a = tar_with_file("etc/first", 0o644, b"from layer a");
    let tar_b = tar_with_file("etc/first", 0o600, b"from layer b");

    let (session, _action) = pull_image(local_config(), "alpine").unwrap();

    let (session, action) = step(
        session,
        PullEvent::FetchOk { body: br#"{"token": "tok"}"#.to_vec() },
    );
    let (url, bearer) = expect_fetch(&action);
    assert_eq!(url, "https://hub.local/v2/library/alpine/manifests/latest");
    assert_eq!(bearer.as_deref(), Some("tok"));

    let manifest =
        br#"{"fsLayers": [{"blobSum": "sha256:aaa"}, {"blobSum": "sha256:bbb"}]}"#.to_vec();
    let (session, action) = step(session, PullEvent::FetchOk { body: manifest });
    let (url, bearer) = expect_fetch(&action);
    assert_eq!(url, "https://hub.local/v2/library/alpine/blobs/sha256:aaa");
    assert_eq!(bearer.as_deref(), Some("tok"));

    let (session, action) = step(session, PullEvent::FetchOk { body: gzip(&tar_a) });
    assert_eq!(expect_unpack(action), tar_a);

    let (session, action) = step(session, PullEvent::UnpackOk);
    let (url, bearer) = expect_fetch(&action);
    assert_eq!(url, "https://hub.local/v2/library/alpine/blobs/sha256:bbb");
    assert_eq!(bearer.as_deref(), Some("tok"));

    let (session, action) = step(session, PullEvent::FetchOk { body: gzip(&tar_b) });
    assert_eq!(expect_unpack(action), tar_b);

    let (_session, action) = step(session, PullEvent::UnpackOk);
    assert!(matches!(action, PullAction::Stop { result: Ok(()) }));
}

#[test]
fn empty_manifest_completes_without_unpacking() {
    let (session, _action) = pull_image(local_config(), "alpine").unwrap();
    let (session, _action) = step(
        session,
        PullEvent::FetchOk { body: br#"{"token": "tok"}"#.to_vec() },
    );
    let (_session, action) = step(
        session,
        PullEvent::FetchOk { body: br#"{"schemaVersion": 1}"#.to_vec() },
    );
    assert!(matches!(action, PullAction::Stop { result: Ok(()) }));
}

#[test]
fn corrupted_blob_stops_the_pull_without_an_unpack() {
    let (session, _action) = pull_image(local_config(), "alpine").unwrap();
    let (session, _action) = step(
        session,
        PullEvent::FetchOk { body: br#"{"token": "tok"}"#.to_vec() },
    );
    let (session, _action) = step(
        session,
        PullEvent::FetchOk { body: br#"{"fsLayers": [{"blobSum": "sha256:aaa"}]}"#.to_vec() },
    );
    let (_session, action) = step(
        session,
        PullEvent::FetchOk { body: b"this is not a gzip stream".to_vec() },
    );
    assert!(matches!(
        action,
        PullAction::Stop { result: Err(PullError::CorruptBlob) }
    ));
}

#[test]
fn corrupted_second_blob_stops_after_the_first_layer_is_unpacked() {
    let tar_a = tar_with_file("etc/first", 0o644, b"from layer a");
    let (session, _action) = pull_image(local_config(), "alpine").unwrap();
    let (session, _action) = step(
        session,
        PullEvent::FetchOk { body: br#"{"token": "tok"}"#.to_vec() },
    );
    let (session, _action) = step(
        session,
        PullEvent::FetchOk {
            body: br#"{"fsLayers": [{"blobSum": "sha256:aaa"}, {"blobSum": "sha256:bbb"}]}"#
                .to_vec(),
        },
    );
    let (session, action) = step(session, PullEvent::FetchOk { body: gzip(&tar_a) });
    assert_eq!(expect_unpack(action), tar_a);
    let (session, _action) = step(session, PullEvent::UnpackOk);
    let (_session, action) = step(
        session,
        PullEvent::FetchOk { body: b"garbage, not gzip".to_vec() },
    );
    assert!(matches!(
        action,
        PullAction::Stop { result: Err(PullError::CorruptBlob) }
    ));
}

#[test]
fn network_failure_stops_the_pull() {
    let (session, _action) = pull_image(local_config(), "alpine").unwrap();
    let (_session, action) = step(session, PullEvent::FetchFailed);
    assert!(matches!(
        action,
        PullAction::Stop { result: Err(PullError::Network) }
    ));
}

#[test]
fn bad_token_response_stops_the_pull() {
    let (session, _action) = pull_image(local_config(), "alpine").unwrap();
    let (_session, action) = step(
        session,
        PullEvent::FetchOk { body: br#"{"no_token": true}"#.to_vec() },
    );
    assert!(matches!(
        action,
        PullAction::Stop { result: Err(PullError::Auth) }
    ));
}

#[test]
fn unpack_failure_stops_the_pull() {
    let tar_a = tar_with_file("etc/first", 0o644, b"data");
    let (session, _action) = pull_image(local_config(), "alpine").unwrap();
    let (session, _action) = step(
        session,
        PullEvent::FetchOk { body: br#"{"token": "tok"}"#.to_vec() },
    );
    let (session, _action) = step(
        session,
        PullEvent::FetchOk { body: br#"{"fsLayers": [{"blobSum": "sha256:aaa"}]}"#.to_vec() },
    );
    let (session, _action) = step(session, PullEvent::FetchOk { body: gzip(&tar_a) });
    let (_session, action) = step(session, PullEvent::UnpackFailed);
    assert!(matches!(
        action,
        PullAction::Stop { result: Err(PullError::Unpack) }
    ));
}

#[test]
fn single_layer_pull_hands_the_driver_the_layer_exactly_as_archived() {
    let content: &[u8] = b"#!/bin/true\n";
    let tar_bytes = tar_with_file("bin/echo-test", 0o755, content);

    let (session, _action) = pull_image(local_config(), "alpine").unwrap();
    let (session, _action) = step(
        session,
        PullEvent::FetchOk { body: br#"{"token": "tok"}"#.to_vec() },
    );
    let (session, _action) = step(
        session,
        PullEvent::FetchOk { body: br#"{"fsLayers": [{"blobSum": "sha256:one"}]}"#.to_vec() },
    );
    let (session, action) = step(session, PullEvent::FetchOk { body: gzip(&tar_bytes) });
    let unpacked = expect_unpack(action);

    let mut archive = tar::Archive::new(&unpacked[..]);
    let mut entries = archive.entries().unwrap();
    let mut entry = entries.next().unwrap().unwrap();
    assert_eq!(entry.path().unwrap().to_str().unwrap(), "bin/echo-test");
    assert_eq!(entry.header().mode().unwrap() & 0o777, 0o755);
    let mut extracted = Vec::new();
    std::io::Read::read_to_end(&mut entry, &mut extracted).unwrap();
    assert_eq!(extracted, content);
    assert!(entries.next().is_none());

    let (_session, action) = step(session, PullEvent::UnpackOk);
    assert!(matches!(action, PullAction::Stop { result: Ok(()) }));
}
