//! The updater's error taxonomy. Every failure a run can end in is one
//! of these variants, carrying plain values: the driver maps its own
//! I/O failures onto them, and the verified logic states exactly which
//! variant each rejected input produces.

use vstd::prelude::*;
use crate::version::Version;
use crate::lvm;

verus! {

#[derive(Debug, Clone, PartialEq)]
pub enum Error {
    /// A file could not be opened or created.
    Io { filename: String },
    /// A file could not be read.
    Content { filename: String },
    /// A copy between two paths failed.
    Copy { src: String, dst: String },
    /// A rename between two paths failed.
    Rename { src: String, dst: String },
    /// A file could not be removed.
    Remove { filename: String },
    /// The detached signature container is malformed.
    DecodeSignature,
    /// The signature does not match the data under the configured key.
    InvalidSignature,
    /// The signature carries no well-formed trusted comment.
    InvalidTrustedComment,
    /// The trusted comment is not a semantic version.
    InvalidVersion { version: String },
    /// The signed version differs from the one the update planned.
    VersionMismatch { expected: Version, comment: Version },
    /// A network transfer failed.
    Http { url: String },
    /// The remote's version answer could not be decoded.
    InvalidRemoteToml,
    /// The volume manager reported a failure.
    Lvm { source: lvm::Error },
    /// The storage flush could not be run.
    Sync,
    /// The mount table could not be parsed.
    Mountinfo,
    /// A directory could not be listed.
    ReadDir { directory: String },
    /// A directory entry could not be read.
    DirEntry { directory: String },
    /// The destination volume group does not exist.
    VgNotFound { vg: String },
    /// The driver answered a step with an event the step cannot take.
    UnexpectedEvent,
}

impl From<lvm::Error> for Error {
    fn from(err: lvm::Error) -> (r: Error) {
        Error::Lvm { source: err }
    }
}

impl vstd::std_specs::convert::FromSpecImpl<lvm::Error> for Error {
    open spec fn obeys_from_spec() -> bool {
        true
    }

    open spec fn from_spec(err: lvm::Error) -> Error {
        Error::Lvm { source: err }
    }
}

} // verus!
