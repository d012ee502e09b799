//! Small verified helpers over strings: equality, prefix test,
//! splitting, and the text that follows the first occurrence of a
//! separator (the version suffix of a volume name).

use vstd::prelude::*;

verus! {

/// `i` is the position of the first occurrence of `c` in `s`.
pub open spec fn is_first_index(s: Seq<char>, c: char, i: int) -> bool {
    0 <= i < s.len() && s[i] == c && (forall|j: int| 0 <= j < i ==> s[j] != c)
}

/// Two positions that are both "the first occurrence" are the same.
pub proof fn lemma_first_index_unique(s: Seq<char>, c: char, i: int, j: int)
    requires
        is_first_index(s, c, i),
        is_first_index(s, c, j),
    ensures
        i == j,
{
    if i < j {
        assert(s[i] != c);
    } else if j < i {
        assert(s[j] != c);
    }
}

/// The whole text after the first `sep` in `s`; `None` when `s` holds
/// no `sep` at all.
pub open spec fn suffix_after(s: Seq<char>, sep: char) -> Option<Seq<char>> {
    if exists|i: int| is_first_index(s, sep, i) {
        let i = choose|i: int| is_first_index(s, sep, i);
        Some(s.subrange(i + 1, s.len() as int))
    } else {
        None
    }
}

/// The pieces of `s` between occurrences of `sep`: always at least one
/// piece, and one more for every separator.
pub open spec fn split_sep(s: Seq<char>, sep: char) -> Seq<Seq<char>>
    decreases s.len(),
{
    if exists|i: int| is_first_index(s, sep, i) {
        let i = choose|i: int| is_first_index(s, sep, i);
        seq![s.subrange(0, i)] + split_sep(s.subrange(i + 1, s.len() as int), sep)
    } else {
        seq![s]
    }
}

/// String equality at the character level.
pub fn str_eq(a: &str, b: &str) -> (r: bool)
    ensures
        r == (a@ == b@),
{
    let an: usize = a.unicode_len();
    let bn: usize = b.unicode_len();
    if an != bn {
        return false;
    }
    let mut k: usize = 0;
    while k < an
        invariant
            0 <= k <= an,
            an == a@.len(),
            bn == b@.len(),
            an == bn,
            forall|j: int| 0 <= j < k ==> a@[j] == b@[j],
        decreases an - k,
    {
        if a.get_char(k) != b.get_char(k) {
            return false;
        }
        k = k + 1;
    }
    proof {
        assert(a@ =~= b@);
    }
    true
}

/// Does `s` begin with `p`?
pub fn str_starts_with(s: &str, p: &str) -> (r: bool)
    ensures
        r == (p@.len() <= s@.len() && s@.subrange(0, p@.len() as int) == p@),
{
    let sn: usize = s.unicode_len();
    let pn: usize = p.unicode_len();
    if pn > sn {
        return false;
    }
    let mut k: usize = 0;
    while k < pn
        invariant
            0 <= k <= pn,
            sn == s@.len(),
            pn == p@.len(),
            pn <= sn,
            forall|j: int| 0 <= j < k ==> s@[j] == p@[j],
        decreases pn - k,
    {
        if s.get_char(k) != p.get_char(k) {
            return false;
        }
        k = k + 1;
    }
    proof {
        assert(s@.subrange(0, p@.len() as int) =~= p@);
    }
    true
}

/// Position of the first occurrence of `c` in `s`, if any.
fn find_char(s: &str, c: char) -> (r: Option<usize>)
    ensures
        match r {
            Some(i) => is_first_index(s@, c, i as int),
            None => forall|j: int| 0 <= j < s@.len() ==> s@[j] != c,
        },
{
    let n: usize = s.unicode_len();
    let mut k: usize = 0;
    while k < n
        invariant
            0 <= k <= n,
            n == s@.len(),
            forall|j: int| 0 <= j < k ==> s@[j] != c,
        decreases n - k,
    {
        if s.get_char(k) == c {
            return Some(k);
        }
        k = k + 1;
    }
    None
}

/// Split `s` at every `sep`.
pub fn split_sep_exec(s: &str, sep: char) -> (r: Vec<String>)
    ensures
        r.deep_view() == split_sep(s@, sep),
    decreases s@.len(),
{
    let n: usize = s.unicode_len();
    match find_char(s, sep) {
        None => {
            proof {
                assert(!exists|i: int| is_first_index(s@, sep, i));
            }
            let mut out: Vec<String> = Vec::new();
            out.push(s.to_owned());
            proof {
                assert(out.deep_view() =~= split_sep(s@, sep));
            }
            out
        },
        Some(i) => {
            let ghost gi = choose|gi: int| is_first_index(s@, sep, gi);
            proof {
                lemma_first_index_unique(s@, sep, i as int, gi);
            }
            let head = s.substring_char(0, i).to_owned();
            let rest = split_sep_exec(s.substring_char(i + 1, n), sep);
            let mut out: Vec<String> = Vec::new();
            out.push(head);
            let mut k: usize = 0;
            while k < rest.len()
                invariant
                    0 <= k <= rest.len(),
                    out@.len() == k + 1,
                    out@[0]@ == s@.subrange(0, i as int),
                    i < s@.len(),
                    rest.deep_view() == split_sep(s@.subrange(i + 1, s@.len() as int), sep),
                    forall|j: int| 0 <= j < k ==> out@[j + 1]@ == rest.deep_view()[j],
                decreases rest.len() - k,
            {
                out.push(rest[k].clone());
                k = k + 1;
            }
            proof {
                assert(out.deep_view() =~= split_sep(s@, sep));
            }
            out
        },
    }
}

/// The whole text after the first `sep`, where `s` holds one.
pub fn suffix_after_sep(s: &str, sep: char) -> (r: Option<String>)
    ensures
        match r {
            Some(t) => suffix_after(s@, sep) == Some(t@),
            None => suffix_after(s@, sep) is None,
        },
{
    let n: usize = s.unicode_len();
    match find_char(s, sep) {
        None => {
            proof {
                assert(!exists|i: int| is_first_index(s@, sep, i));
            }
            None
        },
        Some(i) => {
            let rest: &str = s.substring_char(i + 1, n);
            let ghost gi = choose|gi: int| is_first_index(s@, sep, gi);
            proof {
                lemma_first_index_unique(s@, sep, i as int, gi);
            }
            Some(rest.to_owned())
        },
    }
}

} // verus!
