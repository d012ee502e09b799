//! Boot entry planning. The entry of the running version is computed
//! and kept; every other entry in the boot directory is stale and is
//! removed before the core volume is written. The new entry is staged
//! under a distinct name and becomes visible only by the final rename.

use vstd::prelude::*;
use crate::version::{version_seq, Version, VersionV};

verus! {

/// The file name of the boot entry for a version: `<os>-<version>.efi`.
pub open spec fn entry_name_seq(os: Seq<char>, v: VersionV) -> Seq<char> {
    os + seq!['-'] + version_seq(v) + ".efi"@
}

/// The boot entry file name of a version.
pub fn entry_name(os_name: &str, v: &Version) -> (r: String)
    ensures
        r@ == entry_name_seq(os_name@, v@),
{
    proof {
        reveal_strlit("-");
        reveal_strlit(".efi");
    }
    let mut s = os_name.to_owned();
    s.append("-");
    let vs = v.render();
    s.append(vs.as_str());
    s.append(".efi");
    proof {
        assert(s@ =~= entry_name_seq(os_name@, v@));
    }
    s
}

/// The entries that are stale beside the current one, in order.
pub open spec fn stale_seq(entries: Seq<String>, current: Seq<char>) -> Seq<String> {
    entries.filter(|e: String| e@ != current)
}

/// The entries to remove: every listed name but the current one.
pub fn stale_entries(entries: &Vec<String>, current: &str) -> (r: Vec<String>)
    ensures
        r@ == stale_seq(entries@, current@),
{
    let ghost pred = |e: String| e@ != current@;
    let mut out: Vec<String> = Vec::new();
    let mut k: usize = 0;
    proof {
        assert(entries@.subrange(0, 0) =~= Seq::<String>::empty());
        reveal(Seq::filter);
    }
    while k < entries.len()
        invariant
            0 <= k <= entries.len(),
            pred == (|e: String| e@ != current@),
            out@ == entries@.subrange(0, k as int).filter(pred),
        decreases entries.len() - k,
    {
        let ghost prefix = entries@.subrange(0, k as int);
        if !crate::text::str_eq(entries[k].as_str(), current) {
            out.push(entries[k].clone());
        }
        proof {
            reveal(Seq::filter);
            assert(entries@.subrange(0, k + 1 as int) =~= prefix.push(entries@[k as int]));
            assert(prefix.push(entries@[k as int]).drop_last() =~= prefix);
            assert(out@ == entries@.subrange(0, k + 1 as int).filter(pred));
        }
        k = k + 1;
    }
    proof {
        assert(entries@.subrange(0, entries@.len() as int) =~= entries@);
    }
    out
}

/// Law: the running version's entry is never among the removals. No
/// name in the stale list reads as the current entry, whatever the
/// directory listing held.
pub proof fn lemma_current_entry_kept(entries: Seq<String>, current: Seq<char>, i: int)
    requires
        0 <= i < stale_seq(entries, current).len(),
    ensures
        stale_seq(entries, current)[i]@ != current,
    decreases entries.len(),
{
    reveal(Seq::filter);
    if entries.len() > 0 {
        let prefix = entries.drop_last();
        if entries.last()@ != current {
            if i < stale_seq(prefix, current).len() {
                lemma_current_entry_kept(prefix, current, i);
            }
        } else {
            lemma_current_entry_kept(prefix, current, i);
        }
    }
}

/// Law: the staged name of a boot entry differs from its final name,
/// so the entry becomes visible only at the rename, never partially.
pub proof fn lemma_staged_name_differs(path: Seq<char>)
    ensures
        path + ".new"@ != path,
{
    reveal_strlit(".new");
    assert((path + ".new"@).len() == path.len() + 4);
}

} // verus!
