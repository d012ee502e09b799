//! Verified core of an atomic A/B-style system updater.
//!
//! The crate holds the decision logic of the updater: semantic version
//! handling, signature-guarded artifact validation, cache and destination
//! path construction, volume selection, boot entry planning, and the
//! update orchestration state machine. All file, network and process
//! I/O is left to the surrounding driver, which feeds plain values in
//! and carries actions out.

pub mod boot;
pub mod config;
pub mod errors;
pub mod system;
pub mod trust;
pub mod lvm;
pub mod machine;
pub mod mounts;
pub mod select;
pub mod text;
pub mod version;
