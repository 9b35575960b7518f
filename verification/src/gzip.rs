//! Decompression of layer blobs, which the registry serves as gzip streams.

use vstd::prelude::*;

use crate::errors::PullError;

verus! {

/// What gunzipping a byte stream yields: the decompressed bytes, or `None`
/// when the stream is not a valid gzip stream. A function of the bytes
/// alone.
pub uninterp spec fn gunzip_of(bytes: Seq<u8>) -> Option<Seq<u8>>;

/// Relies on libflate::gzip::Decoder: `new` parses the gzip header and the
/// `std::io::Read` impl (driven once by `std::io::Read::read_to_end`)
/// inflates the stream and checks its trailer. The result is a function of
/// the bytes alone; it is named by [`gunzip_of`].
#[verifier::external_body]
fn gzip_decode(bytes: &[u8]) -> (r: Option<Vec<u8>>)
    ensures
        match r {
            Some(v) => gunzip_of(bytes@) == Some(v@),
            None => gunzip_of(bytes@) is None,
        },
{
    let mut decoder = match libflate::gzip::Decoder::new(bytes) {
        Ok(d) => d,
        Err(_) => return None,
    };
    let mut out = Vec::new();
    match std::io::Read::read_to_end(&mut decoder, &mut out) {
        Ok(_) => Some(out),
        Err(_) => None,
    }
}

/// Decompress one layer blob; a stream that is not gzip is a corrupt blob.
pub fn gunzip_blob(bytes: &[u8]) -> (r: Result<Vec<u8>, PullError>)
    ensures
        match r {
            Ok(v) => gunzip_of(bytes@) == Some(v@),
            Err(e) => gunzip_of(bytes@) is None && e == PullError::CorruptBlob,
        },
{
    match gzip_decode(bytes) {
        Some(v) => Ok(v),
        None => Err(PullError::CorruptBlob),
    }
}

} // verus!
