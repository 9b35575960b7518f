use minibox::errors::PullError;
use minibox::json::{extract_layers, extract_token, parse_document, JsonValue};

#[test]
fn token_is_extracted_from_token_response() {
    let doc = parse_document(br#"{"token": "abc123", "expires_in": 300}"#).unwrap();
    let token = extract_token(&doc).unwrap();
    assert_eq!(token, "abc123");
}

#[test]
fn missing_token_field_is_an_auth_error() {
    let doc = parse_document(br#"{"access_token": "abc123"}"#).unwrap();
    assert!(matches!(extract_token(&doc), Err(PullError::Auth)));
}

#[test]
fn non_string_token_is_an_auth_error() {
    let doc = parse_document(br#"{"token": 5}"#).unwrap();
    assert!(matches!(extract_token(&doc), Err(PullError::Auth)));
}

#[test]
fn non_object_token_response_is_an_auth_error() {
    let doc = parse_document(br#"["token"]"#).unwrap();
    assert!(matches!(extract_token(&doc), Err(PullError::Auth)));
}

#[test]
fn bytes_that_are_not_json_are_a_decode_error() {
    assert!(matches!(parse_document(b"not json at all {"), Err(PullError::Decode)));
}

#[test]
fn manifest_layers_are_extracted_in_order() {
    let doc = parse_document(
        br#"{"fsLayers": [{"blobSum": "sha256:aaa"}, {"blobSum": "sha256:bbb"}]}"#,
    )
    .unwrap();
    let layers = extract_layers(&doc).unwrap();
    assert_eq!(layers, vec!["sha256:aaa".to_string(), "sha256:bbb".to_string()]);
}

#[test]
fn absent_fs_layers_yields_an_empty_layer_list() {
    let doc = parse_document(br#"{"schemaVersion": 1}"#).unwrap();
    let layers = extract_layers(&doc).unwrap();
    assert!(layers.is_empty());
}

#[test]
fn non_array_fs_layers_yields_an_empty_layer_list() {
    let doc = parse_document(br#"{"fsLayers": "none"}"#).unwrap();
    let layers = extract_layers(&doc).unwrap();
    assert!(layers.is_empty());
}

#[test]
fn layer_entry_without_blob_sum_is_a_manifest_error() {
    let doc = parse_document(
        br#"{"fsLayers": [{"blobSum": "sha256:aaa"}, {"digest": "sha256:bbb"}]}"#,
    )
    .unwrap();
    assert!(matches!(extract_layers(&doc), Err(PullError::Manifest)));
}

#[test]
fn layer_entry_with_non_string_blob_sum_is_a_manifest_error() {
    let doc = parse_document(br#"{"fsLayers": [{"blobSum": 7}]}"#).unwrap();
    assert!(matches!(extract_layers(&doc), Err(PullError::Manifest)));
}

#[test]
fn documents_can_be_built_by_hand() {
    let doc = JsonValue::Object(vec![(
        "token".to_string(),
        JsonValue::Str("by-hand".to_string()),
    )]);
    assert_eq!(extract_token(&doc).unwrap(), "by-hand");
}
