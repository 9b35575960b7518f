//! A model of the JSON documents the registry returns, and the two reads the
//! pull logic performs on them: the bearer token of a token response, and the
//! ordered layer digests of a manifest.

use vstd::prelude::*;

use crate::errors::PullError;

verus! {

/// A JSON document, holding exactly what the pull logic reads: strings,
/// arrays and objects. Numbers occur in registry responses but are never
/// read, so their payload is not kept.
#[derive(Debug)]
pub enum JsonValue {
    Null,
    Bool(bool),
    Number,
    Str(String),
    Array(Vec<JsonValue>),
    Object(Vec<(String, JsonValue)>),
}

/// The value of the first field named `key`, if any.
pub open spec fn lookup_field(fields: Seq<(String, JsonValue)>, key: Seq<char>) -> Option<JsonValue>
    decreases fields.len(),
{
    if fields.len() == 0 {
        None
    } else if fields[0].0@ == key {
        Some(fields[0].1)
    } else {
        lookup_field(fields.subrange(1, fields.len() as int), key)
    }
}

/// The bearer token recorded in a token response: the value of the `token`
/// field, when that value is a string.
pub open spec fn token_of(doc: JsonValue) -> Option<Seq<char>> {
    match doc {
        JsonValue::Object(fields) => match lookup_field(fields@, "token"@) {
            Some(JsonValue::Str(s)) => Some(s@),
            _ => None,
        },
        _ => None,
    }
}

/// The digest named by one manifest layer entry: the value of its `blobSum`
/// field, when that value is a string.
pub open spec fn blob_sum_of(entry: JsonValue) -> Option<Seq<char>> {
    match entry {
        JsonValue::Object(fields) => match lookup_field(fields@, "blobSum"@) {
            Some(JsonValue::Str(s)) => Some(s@),
            _ => None,
        },
        _ => None,
    }
}

/// The entries of a manifest's `fsLayers` array, when the field is present
/// and is an array.
pub open spec fn layer_entries_of(doc: JsonValue) -> Option<Seq<JsonValue>> {
    match doc {
        JsonValue::Object(fields) => match lookup_field(fields@, "fsLayers"@) {
            Some(JsonValue::Array(entries)) => Some(entries@),
            _ => None,
        },
        _ => None,
    }
}

pub open spec fn all_entries_name_blobs(entries: Seq<JsonValue>) -> bool {
    forall|i: int| 0 <= i < entries.len() ==> (#[trigger] blob_sum_of(entries[i])) is Some
}

/// The ordered digests of a manifest's layers.
pub open spec fn digests_of(entries: Seq<JsonValue>) -> Seq<Seq<char>> {
    Seq::new(entries.len(), |i: int| blob_sum_of(entries[i]).unwrap())
}

/// What a manifest document resolves to: the ordered layer digests, an empty
/// list when `fsLayers` is absent or not an array, or a manifest error when
/// an entry lacks a string `blobSum`.
pub open spec fn manifest_layers_of(doc: JsonValue) -> Result<Seq<Seq<char>>, PullError> {
    match layer_entries_of(doc) {
        None => Ok(Seq::empty()),
        Some(entries) => if all_entries_name_blobs(entries) {
            Ok(digests_of(entries))
        } else {
            Err(PullError::Manifest)
        },
    }
}

#[verifier::external_type_specification]
#[verifier::external_body]
pub struct ExValue(serde_json::Value);

/// What parsing a byte stream as one JSON document yields, or `None` when
/// the bytes are not a JSON document. A function of the bytes alone.
pub uninterp spec fn json_doc_of(bytes: Seq<u8>) -> Option<JsonValue>;

/// Relies on serde_json::Value: maps each of its variants onto the matching
/// [`JsonValue`] variant, keeping strings and array order, listing object
/// fields in the map's iteration order (keys stay unique), and dropping
/// number payloads, which this library never reads.
#[verifier::external_body]
fn convert_value(v: serde_json::Value) -> JsonValue {
    match v {
        serde_json::Value::Null => JsonValue::Null,
        serde_json::Value::Bool(b) => JsonValue::Bool(b),
        serde_json::Value::Number(_) => JsonValue::Number,
        serde_json::Value::String(s) => JsonValue::Str(s),
        serde_json::Value::Array(a) => JsonValue::Array(a.into_iter().map(convert_value).collect()),
        serde_json::Value::Object(m) => JsonValue::Object(
            m.into_iter().map(|(k, w)| (k, convert_value(w))).collect(),
        ),
    }
}

/// Relies on serde_json::from_slice: parses a byte slice as one JSON
/// document, deterministically in the bytes alone; the result is named by
/// [`json_doc_of`].
#[verifier::external_body]
fn parse_json(bytes: &[u8]) -> (r: Option<JsonValue>)
    ensures
        r == json_doc_of(bytes@),
{
    match serde_json::from_slice::<serde_json::Value>(bytes) {
        Ok(v) => Some(convert_value(v)),
        Err(_) => None,
    }
}

/// Parse a registry response body as a JSON document; bytes that are not
/// JSON are a decode error.
pub fn parse_document(bytes: &[u8]) -> (r: Result<JsonValue, PullError>)
    ensures
        match r {
            Ok(doc) => json_doc_of(bytes@) == Some(doc),
            Err(e) => json_doc_of(bytes@) is None && e == PullError::Decode,
        },
{
    match parse_json(bytes) {
        Some(doc) => Ok(doc),
        None => Err(PullError::Decode),
    }
}

proof fn lemma_lookup_at_index(fields: Seq<(String, JsonValue)>, key: Seq<char>, i: int)
    requires
        0 <= i < fields.len(),
        fields[i].0@ == key,
        forall|j: int| 0 <= j < i ==> #[trigger] fields[j].0@ != key,
    ensures
        lookup_field(fields, key) == Some(fields[i].1),
    decreases i,
{
    if i > 0 {
        lemma_lookup_at_index(fields.subrange(1, fields.len() as int), key, i - 1);
    }
}

proof fn lemma_lookup_absent(fields: Seq<(String, JsonValue)>, key: Seq<char>)
    requires
        forall|j: int| 0 <= j < fields.len() ==> #[trigger] fields[j].0@ != key,
    ensures
        lookup_field(fields, key) is None,
    decreases fields.len(),
{
    if fields.len() > 0 {
        lemma_lookup_absent(fields.subrange(1, fields.len() as int), key);
    }
}

/// The value of the first field named `key` in an object's field list.
fn find_field<'a>(fields: &'a Vec<(String, JsonValue)>, key: &String) -> (r: Option<&'a JsonValue>)
    ensures
        match r {
            Some(v) => lookup_field(fields@, key@) == Some(*v),
            None => lookup_field(fields@, key@) is None,
        },
{
    let n = fields.len();
    let mut i: usize = 0;
    while i < n
        invariant
            n == fields@.len(),
            i <= n,
            forall|j: int| 0 <= j < i ==> #[trigger] fields@[j].0@ != key@,
        decreases n - i,
    {
        let entry = &fields[i];
        if entry.0 == *key {
            proof {
                lemma_lookup_at_index(fields@, key@, i as int);
            }
            return Some(&fields[i].1);
        }
        i = i + 1;
    }
    proof {
        lemma_lookup_absent(fields@, key@);
    }
    None
}

/// Extract the bearer token from a token response document. A document that
/// is not an object, lacks a `token` field, or holds a non-string one is an
/// authentication error.
pub fn extract_token(doc: &JsonValue) -> (r: Result<String, PullError>)
    ensures
        match r {
            Ok(t) => token_of(*doc) == Some(t@),
            Err(e) => token_of(*doc) is None && e == PullError::Auth,
        },
{
    match doc {
        JsonValue::Object(fields) => {
            let key = String::from_str("token");
            match find_field(fields, &key) {
                Some(v) => match v {
                    JsonValue::Str(s) => Ok(s.clone()),
                    _ => Err(PullError::Auth),
                },
                None => Err(PullError::Auth),
            }
        },
        _ => Err(PullError::Auth),
    }
}

/// Extract the ordered layer digests from a manifest document. An absent or
/// non-array `fsLayers` field yields an empty layer list; an entry without a
/// string `blobSum` is a manifest error.
pub fn extract_layers(doc: &JsonValue) -> (r: Result<Vec<String>, PullError>)
    ensures
        match r {
            Ok(digests) => manifest_layers_of(*doc) == Ok::<Seq<Seq<char>>, PullError>(
                digests.deep_view(),
            ),
            Err(e) => manifest_layers_of(*doc) == Err::<Seq<Seq<char>>, PullError>(e),
        },
{
    match doc {
        JsonValue::Object(fields) => {
            let key = String::from_str("fsLayers");
            match find_field(fields, &key) {
                Some(v) => match v {
                    JsonValue::Array(entries) => extract_digests(entries),
                    _ => empty_digests(),
                },
                None => empty_digests(),
            }
        },
        _ => empty_digests(),
    }
}

/// The layer list of a manifest without a usable `fsLayers` array.
fn empty_digests() -> (r: Result<Vec<String>, PullError>)
    ensures
        r is Ok,
        r matches Ok(digests) && digests.deep_view() == Seq::<Seq<char>>::empty(),
{
    let digests: Vec<String> = Vec::new();
    proof {
        assert(digests.deep_view() =~= Seq::<Seq<char>>::empty());
    }
    Ok(digests)
}

/// Walk a manifest's layer entries in order, collecting each `blobSum`.
fn extract_digests(entries: &Vec<JsonValue>) -> (r: Result<Vec<String>, PullError>)
    ensures
        match r {
            Ok(digests) => all_entries_name_blobs(entries@) && digests.deep_view()
                == digests_of(entries@),
            Err(e) => !all_entries_name_blobs(entries@) && e == PullError::Manifest,
        },
{
    let key = String::from_str("blobSum");
    let n = entries.len();
    let mut digests: Vec<String> = Vec::new();
    let mut i: usize = 0;
    while i < n
        invariant
            n == entries@.len(),
            i <= n,
            digests@.len() == i,
            key@ == "blobSum"@,
            forall|j: int| 0 <= j < i ==> (#[trigger] blob_sum_of(entries@[j])) is Some,
            forall|j: int| 0 <= j < i ==> #[trigger] digests@[j]@ == blob_sum_of(
                entries@[j],
            ).unwrap(),
        decreases n - i,
    {
        let entry = &entries[i];
        let digest = match entry {
            JsonValue::Object(efields) => match find_field(efields, &key) {
                Some(bv) => match bv {
                    JsonValue::Str(s) => Some(s.clone()),
                    _ => None,
                },
                None => None,
            },
            _ => None,
        };
        match digest {
            Some(s) => {
                digests.push(s);
            },
            None => {
                proof {
                    assert(blob_sum_of(entries@[i as int]) is None);
                    assert(!all_entries_name_blobs(entries@));
                }
                return Err(PullError::Manifest);
            },
        }
        i = i + 1;
    }
    proof {
        assert(digests.deep_view() =~= digests_of(entries@));
    }
    Ok(digests)
}

} // verus!
