//! A package-source backend for a per-user Flatpak installation.
//!
//! The library holds the rules of the backend: which installed refs become
//! package records and what each record carries, how a record is turned back
//! into the identity of the ref it came from, how a compressed metadata blob
//! is decoded and each failure classified, and how parsed metadata is cached.
//! Talking to the installation itself is left to the caller, which hands the
//! library what the installation reported.

pub mod assoc;
pub mod error;
pub mod package;
pub mod source;
pub mod decode;
pub mod cache;
pub mod backend;
pub mod flatpak;
