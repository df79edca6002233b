//! Muxing of already-encoded video/audio streams into a WebM container.
//!
//! Element serialization is delegated to the native muxing engine behind
//! `webm_sys`; this crate owns the value layer around that boundary: track
//! numbers, codec identifiers, status/error mapping, the decision logic run
//! after each engine call, and the byte accounting a non-seekable destination
//! needs.

pub mod mux;
