//! The live mount table, reduced to what the updater reads from it:
//! which device is mounted where. The kernel's mount-table text is
//! decoded behind a trusted wrapper; everything downstream works on
//! plain entries.

use vstd::prelude::*;
use crate::errors::Error;

verus! {

/// One mount-table entry.
#[derive(Debug, Clone)]
pub struct MountEntry {
    pub source: String,
    pub mount_point: String,
}

/// Mathematical value of one entry.
#[verifier::ext_equal]
pub ghost struct MountEntryV {
    pub source: Seq<char>,
    pub mount_point: Seq<char>,
}

impl View for MountEntry {
    type V = MountEntryV;

    open spec fn view(&self) -> MountEntryV {
        MountEntryV { source: self.source@, mount_point: self.mount_point@ }
    }
}

impl DeepView for MountEntry {
    type V = MountEntryV;

    open spec fn deep_view(&self) -> MountEntryV {
        self.view()
    }
}

/// What the mount-table text holds: its entries in order, or `None`
/// when some line cannot be decoded.
pub uninterp spec fn mount_table(content: Seq<u8>) -> Option<Seq<MountEntryV>>;

/// Relies on `libmount::mountinfo::Parser` to decode the kernel's
/// mount-table text; each entry keeps its source and mount point.
#[verifier::external_body]
fn parse_mount_table(content: &[u8]) -> (r: Option<Vec<MountEntry>>)
    ensures
        match r {
            Some(v) => mount_table(content@) == Some(v.deep_view()),
            None => mount_table(content@) is None,
        },
{
    let mut entries: Vec<MountEntry> = Vec::new();
    for row in libmount::mountinfo::Parser::new(content) {
        match row {
            Ok(m) => entries.push(MountEntry {
                source: m.mount_source.to_string_lossy().into_owned(),
                mount_point: m.mount_point.to_string_lossy().into_owned(),
            }),
            Err(_) => {
                return None;
            },
        }
    }
    Some(entries)
}

/// Decode the mount-table text; an undecodable table is fatal, since
/// the root-device check rests on it.
pub fn current_mounts(content: &[u8]) -> (r: Result<Vec<MountEntry>, Error>)
    ensures
        match r {
            Ok(v) => mount_table(content@) == Some(v.deep_view()),
            Err(e) => mount_table(content@) is None && e matches Error::Mountinfo,
        },
{
    match parse_mount_table(content) {
        Some(v) => Ok(v),
        None => Err(Error::Mountinfo),
    }
}

} // verus!
