//! The error taxonomy of a pull-and-run operation.
//!
//! Every failure is fatal: it unwinds to the caller, which reports it and
//! exits before any container process starts.

use vstd::prelude::*;

verus! {

/// Everything that can go wrong while pulling an image or bootstrapping the
/// container around it.
#[derive(Clone, Copy, Debug, PartialEq, Eq, Structural)]
pub enum PullError {
    /// The registry could not be reached, or the transport failed.
    Network,
    /// A registry response could not be parsed as JSON.
    Decode,
    /// The token response lacks a `token` field, or it is not a string.
    Auth,
    /// A manifest layer entry lacks a `blobSum` field, or it is not a string.
    Manifest,
    /// A layer blob is not a valid gzip stream.
    CorruptBlob,
    /// Extracting a layer's tar archive onto the target directory failed.
    Unpack,
    /// The executable could not be staged into the new root (not an absolute
    /// path, or preparing or copying into the scratch directory failed).
    Stage,
    /// The PID namespace could not be unshared, or the chroot failed.
    Isolation,
    /// The staged command could not be spawned.
    Exec,
    /// The image reference is malformed (empty name, or a stray `:`).
    Reference,
}

} // verus!
