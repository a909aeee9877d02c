//! A blocking byte-stream facade over background HTTP transfers.
//!
//! The upload side turns a push-style byte sink into the pull-style body of
//! an HTTP PUT driven by a background worker; a two-slot rendezvous protocol
//! surfaces connection-time failures at construction and the final outcome at
//! finalization.  The download side wraps an HTTP GET response as a byte
//! source that remembers the declared content length.
//!
//! This crate holds the verified coordination and header logic; the
//! unverified surroundings supply the actual sockets, pipes and threads.

pub mod content_length;
pub mod download;
pub mod error;
pub mod upload;

pub use download::HttpReader;
pub use error::Error;
pub use upload::HttpWriter;
