//! The volume selector: which volume receives the new core image. A
//! volume is a candidate only when its name carries the core prefix,
//! its suffix is neither of the reserved names, the suffix parses as a
//! version other than the running one, and its mapped device is not
//! the one mounted at the root. The first candidate is reused (renamed
//! to the target version if need be); with no candidate a fresh volume
//! is made.

use vstd::prelude::*;
use vstd::seq_lib::group_seq_properties;
use crate::lvm::Lv;
use crate::mounts::{MountEntry, MountEntryV};
use crate::system::Package;
use crate::text::{str_eq, str_starts_with, suffix_after, suffix_after_sep};
use crate::version::{parsed_version, version_seq, Version, VersionV};

verus! {

/// The version suffix of a volume name: the whole text after the
/// first underscore.
pub open spec fn name_suffix(name: Seq<char>) -> Option<Seq<char>> {
    suffix_after(name, '_')
}

/// The mapped device name of a volume after the integrity layer:
/// `/dev/mapper/verity_<name>_<version>`.
pub open spec fn verity_seq(name: Seq<char>, v: VersionV) -> Seq<char> {
    "/dev/mapper/verity_"@ + name + seq!['_'] + version_seq(v)
}

/// Is `dev` the source of the entry mounted at the root?
pub open spec fn root_mounted(dev: Seq<char>, mounts: Seq<MountEntryV>) -> bool {
    exists|i: int|
        0 <= i < mounts.len() && mounts[i].mount_point == "/"@ && mounts[i].source == dev
}

/// May the volume named `name` receive the new image?
pub open spec fn is_candidate(
    name: Seq<char>,
    core_name: Seq<char>,
    running: VersionV,
    mounts: Seq<MountEntryV>,
) -> bool {
    let prefix = core_name + seq!['_'];
    let sfx = name_suffix(name)->Some_0;
    &&& prefix.len() <= name.len()
    &&& name.subrange(0, prefix.len() as int) == prefix
    &&& name_suffix(name) is Some
    &&& sfx != "state"@
    &&& sfx != "swap"@
    &&& parsed_version(sfx) is Some
    &&& parsed_version(sfx)->Some_0 != running
    &&& !root_mounted(verity_seq(name, parsed_version(sfx)->Some_0), mounts)
}

/// The candidate volumes, in their listed order.
pub open spec fn candidate_seq(
    lvs: Seq<Lv>,
    core_name: Seq<char>,
    running: VersionV,
    mounts: Seq<MountEntryV>,
) -> Seq<Lv> {
    lvs.filter(|lv: Lv| is_candidate(lv.name@, core_name, running, mounts))
}

/// The name a volume carries once it holds the target version.
pub open spec fn new_name_seq(core_name: Seq<char>, target: VersionV) -> Seq<char> {
    core_name + seq!['_'] + version_seq(target)
}

fn is_root_mounted(dev: &str, mounts: &Vec<MountEntry>) -> (r: bool)
    ensures
        r == root_mounted(dev@, mounts.deep_view()),
{
    let mut k: usize = 0;
    while k < mounts.len()
        invariant
            0 <= k <= mounts.len(),
            forall|j: int|
                0 <= j < k ==> !(mounts.deep_view()[j].mount_point == "/"@
                    && mounts.deep_view()[j].source == dev@),
        decreases mounts.len() - k,
    {
        if str_eq(mounts[k].mount_point.as_str(), "/") && str_eq(mounts[k].source.as_str(), dev) {
            proof {
                assert(mounts.deep_view()[k as int].mount_point == "/"@);
                assert(mounts.deep_view()[k as int].source == dev@);
            }
            return true;
        }
        k = k + 1;
    }
    false
}

/// Does one volume pass every predicate of the candidate chain?
pub fn lv_is_candidate(lv: &Lv, core_name: &str, running: &Version, mounts: &Vec<MountEntry>) -> (r:
    bool)
    ensures
        r == is_candidate(lv.name@, core_name@, running@, mounts.deep_view()),
{
    proof {
        reveal_strlit("_");
    }
    let mut prefix = core_name.to_owned();
    prefix.append("_");
    proof {
        assert(prefix@ =~= core_name@ + seq!['_']);
    }
    if !str_starts_with(lv.name.as_str(), prefix.as_str()) {
        return false;
    }
    let sfx = match suffix_after_sep(lv.name.as_str(), '_') {
        None => {
            return false;
        },
        Some(s) => s,
    };
    if str_eq(sfx.as_str(), "state") || str_eq(sfx.as_str(), "swap") {
        return false;
    }
    let parsed = match Version::parse(sfx.as_str()) {
        None => {
            return false;
        },
        Some(v) => v,
    };
    if parsed == *running {
        return false;
    }
    proof {
        reveal_strlit("/dev/mapper/verity_");
    }
    let mut dev = String::from_str("/dev/mapper/verity_");
    dev.append(lv.name.as_str());
    dev.append("_");
    let vs = parsed.render();
    dev.append(vs.as_str());
    proof {
        assert(dev@ =~= verity_seq(lv.name@, parsed_version(name_suffix(lv.name@)->Some_0)->Some_0));
    }
    !is_root_mounted(dev.as_str(), mounts)
}

/// The candidate volumes of a listing, in order.
pub fn candidates(lvs: &Vec<Lv>, core_name: &str, running: &Version, mounts: &Vec<MountEntry>) -> (r:
    Vec<Lv>)
    ensures
        r@ == candidate_seq(lvs@, core_name@, running@, mounts.deep_view()),
{
    broadcast use group_seq_properties;

    let ghost pred = |lv: Lv| is_candidate(lv.name@, core_name@, running@, mounts.deep_view());
    let mut out: Vec<Lv> = Vec::new();
    let mut k: usize = 0;
    proof {
        assert(lvs@.subrange(0, 0) =~= Seq::<Lv>::empty());
        reveal(Seq::filter);
    }
    while k < lvs.len()
        invariant
            0 <= k <= lvs.len(),
            pred == (|lv: Lv| is_candidate(lv.name@, core_name@, running@, mounts.deep_view())),
            out@ == lvs@.subrange(0, k as int).filter(pred),
        decreases lvs.len() - k,
    {
        let ghost prefix = lvs@.subrange(0, k as int);
        if lv_is_candidate(&lvs[k], core_name, running, mounts) {
            out.push(lvs[k].duplicate());
        }
        proof {
            reveal(Seq::filter);
            assert(lvs@.subrange(0, k + 1 as int) =~= prefix.push(lvs@[k as int]));
            assert(prefix.push(lvs@[k as int]).drop_last() =~= prefix);
            assert(out@ == lvs@.subrange(0, k + 1 as int).filter(pred));
        }
        k = k + 1;
    }
    proof {
        assert(lvs@.subrange(0, lvs@.len() as int) =~= lvs@);
    }
    out
}

/// What the selector decided: reuse the first candidate (renaming it
/// unless it already carries the target name), or create a fresh
/// volume of the configured size, `500M` when none is configured.
#[derive(Debug, Clone)]
pub enum Selection {
    Reuse { lv: Lv, rename_needed: bool },
    Create { name: String, size: String },
}

/// Decide which volume receives the new core image.
pub fn select(
    core: &Package,
    lvs: &Vec<Lv>,
    running: &Version,
    target: &Version,
    mounts: &Vec<MountEntry>,
) -> (r: Selection)
    ensures
        ({
            let cands = candidate_seq(lvs@, core.name@, running@, mounts.deep_view());
            match r {
                Selection::Reuse { lv, rename_needed } => cands.len() > 0 && lv == cands[0]
                    && rename_needed == (lv.name@ != new_name_seq(core.name@, target@)),
                Selection::Create { name, size } => cands.len() == 0 && name@ == new_name_seq(
                    core.name@,
                    target@,
                ) && size@ == (if core.size is Some {
                    core.size->Some_0@
                } else {
                    "500M"@
                }),
            }
        }),
{
    proof {
        reveal_strlit("_");
    }
    let mut new_name = core.name.clone();
    new_name.append("_");
    let vs = target.render();
    new_name.append(vs.as_str());
    proof {
        assert(new_name@ =~= new_name_seq(core.name@, target@));
    }
    let found = candidates(lvs, core.name.as_str(), running, mounts);
    if found.len() > 0 {
        let lv = found[0].duplicate();
        let rename_needed = !str_eq(lv.name.as_str(), new_name.as_str());
        Selection::Reuse { lv, rename_needed }
    } else {
        let size = match &core.size {
            Some(s) => s.clone(),
            None => String::from_str("500M"),
        };
        Selection::Create { name: new_name, size }
    }
}

/// Law: a candidate volume is never the root-mounted device, and never
/// carries the running version. Whatever volume list and mount table a
/// run sees, every entry mounted at the root differs from the mapped
/// device of every candidate, and every candidate's suffix parses to a
/// version other than the running one.
pub proof fn lemma_never_touch_active(
    lvs: Seq<Lv>,
    core_name: Seq<char>,
    running: VersionV,
    mounts: Seq<MountEntryV>,
    k: int,
    i: int,
)
    requires
        0 <= k < candidate_seq(lvs, core_name, running, mounts).len(),
        0 <= i < mounts.len(),
        mounts[i].mount_point == "/"@,
    ensures
        ({
            let name = candidate_seq(lvs, core_name, running, mounts)[k].name@;
            &&& mounts[i].source != verity_seq(name, parsed_version(name_suffix(name)->Some_0)->Some_0)
            &&& parsed_version(name_suffix(name)->Some_0)->Some_0 != running
        }),
{
    let pred = |lv: Lv| is_candidate(lv.name@, core_name, running, mounts);
    lvs.lemma_filter_pred(pred, k);
    let lv = candidate_seq(lvs, core_name, running, mounts)[k];
    assert(is_candidate(lv.name@, core_name, running, mounts));
}

/// Law: a volume whose suffix is one of the reserved names (the state
/// and swap volumes) is never a candidate, whatever versions are in
/// play and whatever is mounted.
pub proof fn lemma_reserved_suffix_excluded(
    name: Seq<char>,
    core_name: Seq<char>,
    running: VersionV,
    mounts: Seq<MountEntryV>,
)
    requires
        name_suffix(name) == Some("state"@) || name_suffix(name) == Some("swap"@),
    ensures
        !is_candidate(name, core_name, running, mounts),
{
}

} // verus!
