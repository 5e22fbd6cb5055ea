//! Watches a directory tree for files that were closed after writing and
//! decides, for each raw filesystem notification, whether and how to upload
//! the file to a remote messaging service.
//!
//! The crate holds the decision logic only: event filtering, path resolution,
//! the ignore policy, error classification for the two upload variants, and
//! the three-step workspace upload handshake. The surrounding process is
//! expected to watch the filesystem, perform the HTTP calls, and hand the
//! observed outcomes back as plain values.

pub mod config;
pub mod dispatch;
pub mod event;
pub mod location;
pub mod upload;
pub mod workspace;
