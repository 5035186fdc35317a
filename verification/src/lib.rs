//! Assembly of an OCI image manifest from a layer tarball, and the policy
//! that drives its upload: entry classification, content digests, manifest
//! construction, reference parsing, and the bounded-retry publish state
//! machine. File and network I/O stay outside; this crate works on bytes
//! already in memory and decides, it does not transport.

pub mod archive;
pub mod digest;
pub mod manifest;
pub mod pipeline;
pub mod publish;
pub mod registry;
