//! Path-based file identity: existence and type queries, size, SHA-256
//! content hashes, and hash-based and byte-based content comparison.
//!
//! The library decides; the caller observes. Every query takes what the
//! filesystem reported for the path at call time (its metadata, its content)
//! and turns it into the answer, so each answer is stated exactly over those
//! observations.
pub mod digest;
pub mod file;

pub use digest::{hex_digest, sha256_hex};
pub use file::{EntryKind, File, FsError, Metadata, Removal};
