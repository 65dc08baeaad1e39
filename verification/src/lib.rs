//! Verified core of a small file-manager backend.
//!
//! The one real operation of the backend is listing the immediate children
//! of a directory, with an optional filter for hidden entries.  The host
//! filesystem enumeration itself is unverified I/O and lives outside this
//! crate; it hands over plain values (raw name and path bytes, the outcome
//! of the file-type query), and everything that is decided from those
//! values — text decoding, the hidden-name filter, error selection, and the
//! shape of the produced entries — is verified here.

pub mod actions;
pub mod entry;
pub mod error;
pub mod laws;
pub mod probe;
pub mod lister;
pub mod text;
