//! Three-part version numbers, compared as numbers (so `1.0.10` is newer
//! than `1.0.9`).

use vstd::prelude::*;

use crate::text::{
    after_first, before_any, chars_of, find_any_exec, is_ascii_digit, lemma_find_any_from, push_char,
    slice_of, trim, trim_exec,
};

verus! {

/// The version of this build; the same text as `version` in Cargo.toml.
pub const PACKAGE_VERSION: &'static str = "1.0.9";

/// A `major.minor.patch` version.
///
/// The derived order is the order of the fields, major first, which is
/// what [`version_lt`] states.
#[derive(Debug, Clone, Copy, PartialEq, Eq, PartialOrd, Ord)]
pub struct Version {
    pub major: u32,
    pub minor: u32,
    pub patch: u32,
}

// ---------------------------------------------------------------------------
// Specification
// ---------------------------------------------------------------------------

/// Numeric value of a sequence of decimal digits.
pub open spec fn digits_value(s: Seq<char>) -> nat
    decreases s.len(),
{
    if s.len() == 0 {
        0
    } else {
        digits_value(s.drop_last()) * 10 + ((s.last() as u32) - ('0' as u32)) as nat
    }
}

pub open spec fn all_digits(s: Seq<char>) -> bool {
    forall|i: int| 0 <= i < s.len() ==> is_ascii_digit(#[trigger] s[i])
}

/// What `str::parse::<u32>` gives for a text without a sign: the value of a
/// non-empty run of decimal digits that fits in 32 bits.
pub open spec fn parse_u32(s: Seq<char>) -> Option<u32> {
    if s.len() > 0 && all_digits(s) && digits_value(s) <= u32::MAX {
        Some(digits_value(s) as u32)
    } else {
        None
    }
}

/// The text that decides the version: trimmed, one leading `v` or `V`
/// removed, and cut at the first `-` or `+` (pre-release and build parts).
pub open spec fn version_core(text: Seq<char>) -> Seq<char> {
    let t = trim(text);
    let t = if t.len() > 0 && (t[0] == 'v' || t[0] == 'V') {
        t.drop_first()
    } else {
        t
    };
    before_any(t, seq!['-', '+'])
}

/// The first dot-separated field of `t`.
pub open spec fn field(t: Seq<char>) -> Seq<char> {
    before_any(t, seq!['.'])
}

/// A missing field reads as `0`.
pub open spec fn field_value(f: Option<Seq<char>>) -> Option<u32> {
    match f {
        Some(s) => parse_u32(field(s)),
        None => Some(0),
    }
}

/// `Version::parse`: `major[.minor[.patch]]`, further fields ignored.
pub open spec fn parse_version(text: Seq<char>) -> Option<Version> {
    let t = version_core(text);
    let rest1 = after_first(t, '.');
    let rest2 = match rest1 {
        Some(r) => after_first(r, '.'),
        None => None,
    };
    if t.len() == 0 {
        None
    } else {
        match (parse_u32(field(t)), field_value(rest1), field_value(rest2)) {
            (Some(major), Some(minor), Some(patch)) => Some(
                Version { major: major, minor: minor, patch: patch },
            ),
            _ => None,
        }
    }
}

/// `a` is older than `b`: the fields compared in order, major first.
pub open spec fn version_lt(a: Version, b: Version) -> bool {
    ||| a.major < b.major
    ||| a.major == b.major && a.minor < b.minor
    ||| a.major == b.major && a.minor == b.minor && a.patch < b.patch
}

pub open spec fn digit_char(d: nat) -> char {
    (d + ('0' as u32)) as char
}

/// Decimal text of `n`, without leading zeros.
pub open spec fn decimal(n: nat) -> Seq<char>
    decreases n,
{
    if n < 10 {
        seq![digit_char(n)]
    } else {
        decimal(n / 10).push(digit_char(n % 10))
    }
}

/// `major.minor.patch` in decimal.
pub open spec fn version_text(v: Version) -> Seq<char> {
    decimal(v.major as nat) + seq!['.'] + decimal(v.minor as nat) + seq!['.'] + decimal(
        v.patch as nat,
    )
}

pub open spec fn zero_version() -> Version {
    Version { major: 0, minor: 0, patch: 0 }
}

// ---------------------------------------------------------------------------
// Executable code
// ---------------------------------------------------------------------------

/// `v` cut at its first `c`, and what follows that `c` if there is one.
pub fn split_first_exec(v: &Vec<char>, c: char) -> (r: (Vec<char>, Option<Vec<char>>))
    ensures
        r.0@ == before_any(v@, seq![c]),
        r.1 matches Some(x) ==> after_first(v@, c) == Some(x@),
        r.1 is None ==> after_first(v@, c) is None,
{
    let set = [c];
    assert(set@ == seq![c]);
    match find_any_exec(v, &set, 0) {
        Some(i) => {
            proof {
                lemma_find_any_from(v@, seq![c], 0);
            }
            let head = slice_of(v, 0, i);
            let tail = slice_of(v, i + 1, v.len());
            assert(v@.subrange(0, i as int) == v@.take(i as int));
            assert(v@.subrange(i + 1, v@.len() as int) == v@.skip(i + 1));
            (head, Some(tail))
        },
        None => (v.clone(), None),
    }
}

/// `str::parse::<u32>` on a text that holds no sign.
pub fn parse_u32_exec(s: &Vec<char>) -> (r: Option<u32>)
    ensures
        r == parse_u32(s@),
{
    if s.len() == 0 {
        return None;
    }
    let mut acc: u64 = 0;
    let mut k: usize = 0;
    while k < s.len()
        invariant
            k <= s.len(),
            acc == digits_value(s@.take(k as int)),
            acc <= u32::MAX,
            all_digits(s@.take(k as int)),
        decreases s.len() - k,
    {
        let c = s[k];
        assert(s@.take(k + 1).drop_last() == s@.take(k as int));
        if !('0' <= c && c <= '9') {
            assert(!is_ascii_digit(s@[k as int]));
            return None;
        }
        let d = (c as u32 - '0' as u32) as u64;
        acc = acc * 10 + d;
        if acc > 0xffff_ffff {
            proof {
                lemma_digits_value_grows(s@, k + 1, s@.len() as int);
                assert(s@.take(s@.len() as int) == s@);
            }
            return None;
        }
        k += 1;
    }
    assert(s@.take(s@.len() as int) == s@);
    Some(acc as u32)
}

/// Reading more digits never makes the value smaller.
pub proof fn lemma_digits_value_grows(s: Seq<char>, i: int, j: int)
    requires
        0 <= i <= j <= s.len(),
    ensures
        digits_value(s.take(i)) <= digits_value(s.take(j)),
    decreases j - i,
{
    if i < j {
        lemma_digits_value_grows(s, i, j - 1);
        assert(s.take(j).drop_last() == s.take(j - 1));
    }
}

/// The value of a field that may be missing (then it reads as `0`).
fn field_value_exec(f: &Option<Vec<char>>) -> (r: Option<u32>)
    ensures
        r == field_value(match f {
            Some(x) => Some(x@),
            None => None,
        }),
{
    match f {
        Some(x) => {
            let (head, _) = split_first_exec(x, '.');
            parse_u32_exec(&head)
        },
        None => Some(0),
    }
}

impl Version {
    /// Reads `v1.2.3`, `1.2.3`, `1.2` and the like; a suffix such as
    /// `-beta` is ignored. A tag that is no version (`nightly`, `wip`)
    /// gives `None`.
    pub fn parse(text: &str) -> (r: Option<Version>)
        ensures
            r == parse_version(text@),
    {
        let chars = chars_of(text);
        let t = trim_exec(&chars);
        let t = if t.len() > 0 && (t[0] == 'v' || t[0] == 'V') {
            let d = slice_of(&t, 1, t.len());
            assert(t@.subrange(1, t@.len() as int) == t@.drop_first());
            d
        } else {
            t
        };
        let set = ['-', '+'];
        assert(set@ == seq!['-', '+']);
        let t = match find_any_exec(&t, &set, 0) {
            Some(i) => {
                let d = slice_of(&t, 0, i);
                assert(t@.subrange(0, i as int) == t@.take(i as int));
                d
            },
            None => t,
        };
        assert(t@ == version_core(text@));
        if t.len() == 0 {
            return None;
        }
        let (major_text, rest1) = split_first_exec(&t, '.');
        let rest2 = match &rest1 {
            Some(r) => split_first_exec(r, '.').1,
            None => None,
        };
        let major = parse_u32_exec(&major_text);
        let minor = field_value_exec(&rest1);
        let patch = field_value_exec(&rest2);
        match (major, minor, patch) {
            (Some(major), Some(minor), Some(patch)) => Some(
                Version { major: major, minor: minor, patch: patch },
            ),
            _ => None,
        }
    }

    /// The version of this build (`0.0.0` if its text could not be read).
    pub fn current() -> (r: Version)
        ensures
            r == (match parse_version(PACKAGE_VERSION@) {
                Some(v) => v,
                None => zero_version(),
            }),
    {
        match Version::parse(PACKAGE_VERSION) {
            Some(v) => v,
            None => Version { major: 0, minor: 0, patch: 0 },
        }
    }

    /// Whether `self` is a later version than `other`.
    pub fn is_newer_than(&self, other: &Version) -> (r: bool)
        ensures
            r == version_lt(*other, *self),
    {
        self.major > other.major || (self.major == other.major && self.minor > other.minor) || (
        self.major == other.major && self.minor == other.minor && self.patch > other.patch)
    }

    /// The version as `major.minor.patch`.
    pub fn to_text(&self) -> (r: String)
        ensures
            r@ == version_text(*self),
    {
        let mut s = String::new();
        push_decimal(&mut s, self.major as u64);
        push_char(&mut s, '.');
        push_decimal(&mut s, self.minor as u64);
        push_char(&mut s, '.');
        push_decimal(&mut s, self.patch as u64);
        s
    }
}

/// Appends the decimal text of `n`.
pub fn push_decimal(s: &mut String, n: u64)
    ensures
        final(s)@ == old(s)@ + decimal(n as nat),
    decreases n,
{
    if n >= 10 {
        push_decimal(s, n / 10);
    }
    let d = (n % 10) as u8;
    let c = (d + 48) as char;
    assert(c == digit_char((n % 10) as nat));
    push_char(s, c);
}

} // verus!
