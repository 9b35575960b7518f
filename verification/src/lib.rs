//! A minimal container launcher, split into verified decision logic.
//!
//! The library resolves an image reference against a registry (token
//! handshake, manifest lookup, layer blobs), drives the decompression and
//! unpacking of each layer in manifest order, and plans the isolation steps
//! (stage the executable, unshare the PID namespace, chroot, exec) as linear
//! state machines. All I/O is performed by a thin driver outside the library,
//! which feeds events back into the state machines defined here.

pub mod errors;
pub mod image;
pub mod json;
pub mod urls;
pub mod gzip;
pub mod session;
pub mod laws;
pub mod bootstrap;
