//! File resolution and caching for a document compiler that is driven
//! across a foreign boundary.
//!
//! The store answers, for each logical file identity, what the file's
//! current text or bytes are, and re-decodes only when a fingerprint of the
//! raw read changed. Reading the disk and fetching packages happen outside:
//! the store says when a read is needed and takes its outcome back.
pub mod boundary;
pub mod cell;
pub mod clock;
pub mod error;
pub mod id;
pub mod laws;
pub mod outside;
pub mod source;
pub mod world;
