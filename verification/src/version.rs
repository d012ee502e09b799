//! Semantic versions as the updater sees them: a numeric triple with a
//! pre-release tag and build metadata. Parsing is delegated to the
//! `semver` crate behind a trusted wrapper; comparison, formatting and
//! build-metadata stripping are verified here.
//!
//! Ordering compares the numeric triple first; on a tie a release
//! outranks any pre-release, and two pre-release tags compare by their
//! dot-separated identifiers — numeric ones numerically and below
//! alphanumeric ones, alphanumeric ones by their characters. Build
//! metadata never takes part in ordering.

use vstd::prelude::*;
use crate::text::{split_sep, split_sep_exec};

verus! {

/// Mathematical value of a version.
#[verifier::ext_equal]
pub ghost struct VersionV {
    pub major: nat,
    pub minor: nat,
    pub patch: nat,
    pub pre: Seq<char>,
    pub build: Seq<char>,
}

/// A semantic version: `major.minor.patch`, an optional pre-release tag
/// and optional build metadata (both empty strings when absent).
#[derive(Debug, Clone)]
pub struct Version {
    pub major: u64,
    pub minor: u64,
    pub patch: u64,
    pub pre: String,
    pub build: String,
}

impl View for Version {
    type V = VersionV;

    open spec fn view(&self) -> VersionV {
        VersionV {
            major: self.major as nat,
            minor: self.minor as nat,
            patch: self.patch as nat,
            pre: self.pre@,
            build: self.build@,
        }
    }
}

/// What `semver::Version::parse` makes of a string: `None` when the
/// string is not a valid semantic version, otherwise the parsed value.
pub uninterp spec fn parsed_version(s: Seq<char>) -> Option<VersionV>;

/// Relies on `semver::Version::parse` to decide whether a string is a
/// well-formed semantic version and to split it into its parts.
#[verifier::external_body]
fn semver_parse(s: &str) -> (r: Option<Version>)
    ensures
        match r {
            Some(v) => parsed_version(s@) == Some(v@),
            None => parsed_version(s@) is None,
        },
{
    match semver::Version::parse(s) {
        Ok(v) => Some(Version {
            major: v.major,
            minor: v.minor,
            patch: v.patch,
            pre: String::from(v.pre.as_str()),
            build: String::from(v.build.as_str()),
        }),
        Err(_) => None,
    }
}

impl PartialEq for Version {
    fn eq(&self, o: &Version) -> (r: bool) {
        self.major == o.major && self.minor == o.minor && self.patch == o.patch
            && self.pre == o.pre && self.build == o.build
    }
}

impl vstd::std_specs::cmp::PartialEqSpecImpl for Version {
    open spec fn obeys_eq_spec() -> bool {
        true
    }

    open spec fn eq_spec(&self, o: &Version) -> bool {
        self@ =~= o@
    }
}

/// Character-by-character ordering of two texts.
pub open spec fn chars_before(a: Seq<char>, b: Seq<char>) -> bool
    decreases a.len(),
{
    if b.len() == 0 {
        false
    } else if a.len() == 0 {
        true
    } else if a[0] != b[0] {
        (a[0] as u32) < (b[0] as u32)
    } else {
        chars_before(a.subrange(1, a.len() as int), b.subrange(1, b.len() as int))
    }
}

/// Is the text all decimal digits?
pub open spec fn is_digits(s: Seq<char>) -> bool {
    forall|i: int| 0 <= i < s.len() ==> 48 <= #[trigger] (s[i] as u32) <= 57
}

/// Ordering of two pre-release identifiers: numeric identifiers rank
/// below alphanumeric ones and compare numerically — for the canonical
/// digit texts a version carries (no leading zeros), by length and
/// then by digits — while alphanumeric ones compare by characters.
pub open spec fn ident_before(a: Seq<char>, b: Seq<char>) -> bool {
    if is_digits(a) && is_digits(b) {
        a.len() < b.len() || (a.len() == b.len() && chars_before(a, b))
    } else if is_digits(a) {
        true
    } else if is_digits(b) {
        false
    } else {
        chars_before(a, b)
    }
}

/// Ordering of two dot-separated identifier lists: identifier by
/// identifier, a missing identifier ranking below any present one.
pub open spec fn idents_before(xs: Seq<Seq<char>>, ys: Seq<Seq<char>>) -> bool
    decreases xs.len(),
{
    if ys.len() == 0 {
        false
    } else if xs.len() == 0 {
        true
    } else if xs[0] != ys[0] {
        ident_before(xs[0], ys[0])
    } else {
        idents_before(xs.subrange(1, xs.len() as int), ys.subrange(1, ys.len() as int))
    }
}

/// Ordering of pre-release tags: absence ranks above any tag; two tags
/// compare by their dot-separated identifiers.
pub open spec fn pre_before(a: Seq<char>, b: Seq<char>) -> bool {
    if a.len() == 0 {
        false
    } else if b.len() == 0 {
        true
    } else {
        idents_before(split_sep(a, '.'), split_sep(b, '.'))
    }
}

/// The precedence order on versions. Build metadata is ignored.
pub open spec fn version_before(a: VersionV, b: VersionV) -> bool {
    if a.major != b.major {
        a.major < b.major
    } else if a.minor != b.minor {
        a.minor < b.minor
    } else if a.patch != b.patch {
        a.patch < b.patch
    } else {
        pre_before(a.pre, b.pre)
    }
}

fn is_digits_exec(s: &str) -> (r: bool)
    ensures
        r == is_digits(s@),
{
    let n: usize = s.unicode_len();
    let mut k: usize = 0;
    while k < n
        invariant
            0 <= k <= n,
            n == s@.len(),
            forall|i: int| 0 <= i < k ==> 48 <= #[trigger] (s@[i] as u32) <= 57,
        decreases n - k,
    {
        let c = s.get_char(k) as u32;
        if c < 48 || c > 57 {
            return false;
        }
        k = k + 1;
    }
    true
}

fn ident_before_exec(a: &str, b: &str) -> (r: bool)
    ensures
        r == ident_before(a@, b@),
{
    let da = is_digits_exec(a);
    let db = is_digits_exec(b);
    if da && db {
        let an: usize = a.unicode_len();
        let bn: usize = b.unicode_len();
        an < bn || (an == bn && chars_before_exec(a, b))
    } else if da {
        true
    } else if db {
        false
    } else {
        chars_before_exec(a, b)
    }
}

fn idents_before_exec(xs: &Vec<String>, ys: &Vec<String>, k: usize) -> (r: bool)
    requires
        k <= xs@.len(),
        k <= ys@.len(),
    ensures
        r == idents_before(
            xs.deep_view().subrange(k as int, xs.deep_view().len() as int),
            ys.deep_view().subrange(k as int, ys.deep_view().len() as int),
        ),
    decreases xs@.len() - k,
{
    let ghost gxs = xs.deep_view().subrange(k as int, xs.deep_view().len() as int);
    let ghost gys = ys.deep_view().subrange(k as int, ys.deep_view().len() as int);
    if k == ys.len() {
        false
    } else if k == xs.len() {
        true
    } else if !crate::text::str_eq(xs[k].as_str(), ys[k].as_str()) {
        proof {
            assert(gxs[0] == xs.deep_view()[k as int]);
            assert(gys[0] == ys.deep_view()[k as int]);
        }
        ident_before_exec(xs[k].as_str(), ys[k].as_str())
    } else {
        let r = idents_before_exec(xs, ys, k + 1);
        proof {
            assert(gxs[0] == gys[0]);
            assert(gxs.subrange(1, gxs.len() as int) =~= xs.deep_view().subrange(
                k + 1 as int,
                xs.deep_view().len() as int,
            ));
            assert(gys.subrange(1, gys.len() as int) =~= ys.deep_view().subrange(
                k + 1 as int,
                ys.deep_view().len() as int,
            ));
        }
        r
    }
}

fn chars_before_exec(a: &str, b: &str) -> (r: bool)
    ensures
        r == chars_before(a@, b@),
    decreases a@.len(),
{
    let an: usize = a.unicode_len();
    let bn: usize = b.unicode_len();
    if bn == 0 {
        false
    } else if an == 0 {
        true
    } else {
        let ca = a.get_char(0);
        let cb = b.get_char(0);
        if ca != cb {
            (ca as u32) < (cb as u32)
        } else {
            chars_before_exec(a.substring_char(1, an), b.substring_char(1, bn))
        }
    }
}

impl Version {
    /// A plain numeric version, with no pre-release tag and no build
    /// metadata.
    pub fn new(major: u64, minor: u64, patch: u64) -> (r: Version)
        ensures
            r@ == (VersionV {
                major: major as nat,
                minor: minor as nat,
                patch: patch as nat,
                pre: Seq::<char>::empty(),
                build: Seq::<char>::empty(),
            }),
    {
        let r = Version { major, minor, patch, pre: String::new(), build: String::new() };
        proof {
            assert(r@ =~= (VersionV {
                major: major as nat,
                minor: minor as nat,
                patch: patch as nat,
                pre: Seq::<char>::empty(),
                build: Seq::<char>::empty(),
            }));
        }
        r
    }

    /// Parse a string as a semantic version.
    pub fn parse(s: &str) -> (r: Option<Version>)
        ensures
            match r {
                Some(v) => parsed_version(s@) == Some(v@),
                None => parsed_version(s@) is None,
            },
    {
        semver_parse(s)
    }

    /// The same version with its build metadata dropped.
    pub fn strip_build(&self) -> (r: Version)
        ensures
            r@ == (VersionV { build: Seq::<char>::empty(), ..self@ }),
    {
        let r = Version {
            major: self.major,
            minor: self.minor,
            patch: self.patch,
            pre: self.pre.clone(),
            build: String::new(),
        };
        proof {
            assert(r@ =~= (VersionV { build: Seq::<char>::empty(), ..self@ }));
        }
        r
    }

    /// Does `self` precede `o` in the version order?
    pub fn precedes(&self, o: &Version) -> (r: bool)
        ensures
            r == version_before(self@, o@),
    {
        if self.major != o.major {
            self.major < o.major
        } else if self.minor != o.minor {
            self.minor < o.minor
        } else if self.patch != o.patch {
            self.patch < o.patch
        } else if self.pre.as_str().is_empty() {
            false
        } else if o.pre.as_str().is_empty() {
            true
        } else {
            let xs = split_sep_exec(self.pre.as_str(), '.');
            let ys = split_sep_exec(o.pre.as_str(), '.');
            proof {
                assert(xs.deep_view().subrange(0, xs.deep_view().len() as int) =~= xs.deep_view());
                assert(ys.deep_view().subrange(0, ys.deep_view().len() as int) =~= ys.deep_view());
            }
            idents_before_exec(&xs, &ys, 0)
        }
    }
}

/// The decimal digits of `n`, most significant first.
pub open spec fn dec_seq(n: nat) -> Seq<char>
    decreases n,
{
    if n < 10 {
        seq![dec_digit(n)]
    } else {
        dec_seq(n / 10).push(dec_digit(n % 10))
    }
}

/// The character for one decimal digit.
pub open spec fn dec_digit(n: nat) -> char {
    if n == 0 {
        '0'
    } else if n == 1 {
        '1'
    } else if n == 2 {
        '2'
    } else if n == 3 {
        '3'
    } else if n == 4 {
        '4'
    } else if n == 5 {
        '5'
    } else if n == 6 {
        '6'
    } else if n == 7 {
        '7'
    } else if n == 8 {
        '8'
    } else {
        '9'
    }
}

fn push_digit(s: &mut String, d: u64)
    requires
        d < 10,
    ensures
        final(s)@ == old(s)@.push(dec_digit(d as nat)),
{
    proof {
        reveal_strlit("0");
        reveal_strlit("1");
        reveal_strlit("2");
        reveal_strlit("3");
        reveal_strlit("4");
        reveal_strlit("5");
        reveal_strlit("6");
        reveal_strlit("7");
        reveal_strlit("8");
        reveal_strlit("9");
    }
    let c: &str = if d == 0 {
        "0"
    } else if d == 1 {
        "1"
    } else if d == 2 {
        "2"
    } else if d == 3 {
        "3"
    } else if d == 4 {
        "4"
    } else if d == 5 {
        "5"
    } else if d == 6 {
        "6"
    } else if d == 7 {
        "7"
    } else if d == 8 {
        "8"
    } else {
        "9"
    };
    s.append(c);
    proof {
        assert(final(s)@ =~= old(s)@.push(dec_digit(d as nat)));
    }
}

/// Write `n` in decimal.
pub fn fmt_u64(n: u64) -> (s: String)
    ensures
        s@ == dec_seq(n as nat),
    decreases n,
{
    if n < 10 {
        let mut s = String::new();
        push_digit(&mut s, n);
        proof {
            assert(s@ =~= dec_seq(n as nat));
        }
        s
    } else {
        let mut s = fmt_u64(n / 10);
        push_digit(&mut s, n % 10);
        proof {
            assert(s@ =~= dec_seq(n as nat));
        }
        s
    }
}

/// The canonical text of a version: the dotted triple, `-` before a
/// pre-release tag, `+` before build metadata.
pub open spec fn version_seq(v: VersionV) -> Seq<char> {
    dec_seq(v.major) + seq!['.'] + dec_seq(v.minor) + seq!['.'] + dec_seq(v.patch) + (if v.pre.len()
        > 0 {
        seq!['-'] + v.pre
    } else {
        Seq::<char>::empty()
    }) + (if v.build.len() > 0 {
        seq!['+'] + v.build
    } else {
        Seq::<char>::empty()
    })
}

impl Version {
    /// The canonical text of this version.
    pub fn render(&self) -> (s: String)
        ensures
            s@ == version_seq(self@),
    {
        proof {
            reveal_strlit(".");
            reveal_strlit("-");
            reveal_strlit("+");
        }
        let mut s = fmt_u64(self.major);
        s.append(".");
        let m = fmt_u64(self.minor);
        s.append(m.as_str());
        s.append(".");
        let p = fmt_u64(self.patch);
        s.append(p.as_str());
        if !self.pre.as_str().is_empty() {
            s.append("-");
            s.append(self.pre.as_str());
        }
        if !self.build.as_str().is_empty() {
            s.append("+");
            s.append(self.build.as_str());
        }
        proof {
            assert(s@ =~= version_seq(self@));
        }
        s
    }
}

} // verus!
