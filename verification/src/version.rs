//! Four-part version numbers: parsing from dotted decimal strings,
//! ordering, and rendering.

use vstd::prelude::*;
use core::cmp::Ordering;
use crate::num::{append_dec_u64, dec_seq_val, is_dec_string, parse_dec_chars, spec_dec_digits,
    str_chars};

verus! {

/// Splits `s` at every occurrence of `sep`, as `str::split` does: `n`
/// separators yield `n + 1` parts, and adjacent separators yield empty
/// parts.
pub open spec fn spec_split(s: Seq<char>, sep: char) -> Seq<Seq<char>>
    decreases s.len(),
{
    if s.len() == 0 {
        seq![s]
    } else if s[0] == sep {
        seq![Seq::<char>::empty()] + spec_split(s.drop_first(), sep)
    } else {
        let rest = spec_split(s.drop_first(), sep);
        seq![seq![s[0]] + rest[0]] + rest.drop_first()
    }
}

/// A split always has at least one part.
pub proof fn lemma_split_nonempty(s: Seq<char>, sep: char)
    ensures
        spec_split(s, sep).len() >= 1,
    decreases s.len(),
{
    if s.len() != 0 {
        lemma_split_nonempty(s.drop_first(), sep);
    }
}

/// The views of a list of character vectors.
pub open spec fn views_of(ps: Seq<Vec<char>>) -> Seq<Seq<char>> {
    ps.map_values(|p: Vec<char>| p@)
}

/// Splits a character sequence at every `sep`.
pub fn split_chars(s: &Vec<char>, sep: char) -> (parts: Vec<Vec<char>>)
    ensures
        views_of(parts@) == spec_split(s@, sep),
{
    let n = s.len();
    let mut parts: Vec<Vec<char>> = Vec::new();
    let mut cur: Vec<char> = Vec::new();
    let mut i: usize = 0;
    proof {
        lemma_split_nonempty(s@, sep);
        assert(s@.subrange(0, n as int) =~= s@);
        let r = spec_split(s@, sep);
        assert(views_of(parts@) + (seq![cur@ + r[0]] + r.drop_first()) =~~= r);
    }
    while i < n
        invariant
            n == s@.len(),
            0 <= i <= n,
            spec_split(s@.subrange(i as int, n as int), sep).len() >= 1,
            views_of(parts@) + (seq![cur@ + spec_split(s@.subrange(i as int, n as int), sep)[0]]
                + spec_split(s@.subrange(i as int, n as int), sep).drop_first()) == spec_split(
                s@,
                sep,
            ),
        decreases n - i,
    {
        let ghost suffix = s@.subrange(i as int, n as int);
        let ghost suffix_next = s@.subrange(i + 1 as int, n as int);
        let ghost r = spec_split(suffix_next, sep);
        let ghost pre_parts = parts@;
        let ghost pre_cur = cur@;
        proof {
            assert(suffix.len() > 0);
            assert(suffix[0] == s@[i as int]);
            assert(suffix.drop_first() =~= suffix_next);
            lemma_split_nonempty(suffix_next, sep);
        }
        let c = s[i];
        if c == sep {
            proof {
                assert(spec_split(suffix, sep) =~~= seq![Seq::<char>::empty()] + r);
            }
            parts.push(cur);
            cur = Vec::new();
            proof {
                assert(views_of(parts@) =~~= views_of(pre_parts).push(pre_cur));
                assert((seq![Seq::<char>::empty()] + r)[0] =~= Seq::<char>::empty());
                assert((seq![Seq::<char>::empty()] + r).drop_first() =~~= r);
                assert(pre_cur + Seq::<char>::empty() =~= pre_cur);
                assert(views_of(parts@) + (seq![cur@ + r[0]] + r.drop_first())
                    =~~= views_of(pre_parts) + (seq![pre_cur + spec_split(suffix, sep)[0]]
                    + spec_split(suffix, sep).drop_first()));
            }
        } else {
            proof {
                assert(spec_split(suffix, sep) =~~= seq![seq![s@[i as int]] + r[0]]
                    + r.drop_first());
            }
            cur.push(c);
            proof {
                assert(cur@ =~= pre_cur + seq![c]);
                assert(cur@ + r[0] =~= pre_cur + (seq![c] + r[0]));
                assert(spec_split(suffix, sep)[0] =~= seq![c] + r[0]);
                assert(spec_split(suffix, sep).drop_first() =~~= r.drop_first());
                assert(views_of(parts@) + (seq![cur@ + r[0]] + r.drop_first())
                    =~~= views_of(pre_parts) + (seq![pre_cur + spec_split(suffix, sep)[0]]
                    + spec_split(suffix, sep).drop_first()));
            }
        }
        i = i + 1;
    }
    let ghost pre_parts = parts@;
    let ghost pre_cur = cur@;
    proof {
        let suffix = s@.subrange(n as int, n as int);
        assert(suffix =~= Seq::<char>::empty());
        assert(spec_split(suffix, sep)[0] =~= suffix);
        assert(pre_cur + suffix =~= pre_cur);
    }
    parts.push(cur);
    proof {
        assert(views_of(parts@) =~~= views_of(pre_parts).push(pre_cur));
        assert(views_of(parts@) =~~= spec_split(s@, sep));
    }
    parts
}

/// A four-part version number. A shorter dotted string leaves the missing
/// trailing parts at zero.
#[derive(Clone, Copy, Debug, PartialEq, Eq, Structural)]
pub struct Version {
    pub major: u64,
    pub minor: u64,
    pub build: u64,
    pub revision: u64,
}

/// Why a version string failed to parse.
#[derive(Clone, Copy, Debug, PartialEq, Eq, Structural)]
pub enum VersionParseError {
    /// More than four dot-separated parts.
    TooManyParts,
    /// A part is empty, holds a non-digit, or does not fit in 64 bits.
    InvalidPart,
}

/// Whether part `i` either is absent or parses as a 64-bit decimal.
pub open spec fn spec_part_ok(parts: Seq<Seq<char>>, i: int) -> bool {
    i >= parts.len() || (is_dec_string(parts[i]) && dec_seq_val(parts[i]) <= u64::MAX)
}

/// The value of part `i`, zero when absent.
pub open spec fn spec_part_val(parts: Seq<Seq<char>>, i: int) -> nat {
    if i < parts.len() {
        dec_seq_val(parts[i])
    } else {
        0
    }
}

/// The version denoted by a dotted decimal string: one to four parts, each
/// a decimal number fitting 64 bits, missing trailing parts read as zero.
pub open spec fn spec_version_parse(s: Seq<char>) -> Option<Version> {
    let parts = spec_split(s, '.');
    if parts.len() > 4 {
        None
    } else if !(spec_part_ok(parts, 0) && spec_part_ok(parts, 1) && spec_part_ok(parts, 2)
        && spec_part_ok(parts, 3)) {
        None
    } else {
        Some(
            Version {
                major: spec_part_val(parts, 0) as u64,
                minor: spec_part_val(parts, 1) as u64,
                build: spec_part_val(parts, 2) as u64,
                revision: spec_part_val(parts, 3) as u64,
            },
        )
    }
}

/// Lexicographic comparison of versions, major part first.
pub open spec fn spec_version_cmp(a: Version, b: Version) -> Ordering {
    if a.major != b.major {
        if a.major < b.major {
            Ordering::Less
        } else {
            Ordering::Greater
        }
    } else if a.minor != b.minor {
        if a.minor < b.minor {
            Ordering::Less
        } else {
            Ordering::Greater
        }
    } else if a.build != b.build {
        if a.build < b.build {
            Ordering::Less
        } else {
            Ordering::Greater
        }
    } else if a.revision != b.revision {
        if a.revision < b.revision {
            Ordering::Less
        } else {
            Ordering::Greater
        }
    } else {
        Ordering::Equal
    }
}

/// Whether `a` orders strictly before `b`.
pub open spec fn spec_version_lt(a: Version, b: Version) -> bool {
    spec_version_cmp(a, b) == Ordering::Less
}

/// The dotted decimal rendering of a version: three parts, or four when
/// the revision is non-zero.
pub open spec fn spec_version_string(v: Version) -> Seq<char> {
    let base = spec_dec_digits(v.major as nat) + seq!['.'] + spec_dec_digits(v.minor as nat)
        + seq!['.'] + spec_dec_digits(v.build as nat);
    if v.revision == 0 {
        base
    } else {
        base + seq!['.'] + spec_dec_digits(v.revision as nat)
    }
}

impl Version {
    /// A version from its four parts.
    pub fn new(major: u64, minor: u64, build: u64, revision: u64) -> (r: Version)
        ensures
            r == (Version { major, minor, build, revision }),
    {
        Version { major, minor, build, revision }
    }

    /// Parses a dotted decimal version string: one to four parts, missing
    /// trailing parts read as zero. Fails exactly when the string has more
    /// than four parts or a part that is not a 64-bit decimal number.
    pub fn from_string(version: &str) -> (r: Result<Version, VersionParseError>)
        ensures
            match r {
                Ok(v) => spec_version_parse(version@) == Some(v),
                Err(_) => spec_version_parse(version@) is None,
            },
            r == Err::<Version, VersionParseError>(VersionParseError::TooManyParts) <==> spec_split(
                version@,
                '.',
            ).len() > 4,
    {
        let chars = str_chars(version);
        let parts = split_chars(&chars, '.');
        let ghost sparts = spec_split(version@, '.');
        proof {
            assert(parts@.len() == sparts.len()) by {
                assert(views_of(parts@).len() == parts@.len());
            }
        }
        if parts.len() > 4 {
            return Err(VersionParseError::TooManyParts);
        }
        proof {
            lemma_split_nonempty(version@, '.');
        }
        let major = match parse_dec_chars(&parts[0]) {
            Ok(v) => v,
            Err(_) => {
                proof {
                    assert(parts@[0]@ == sparts[0]);
                }
                return Err(VersionParseError::InvalidPart);
            },
        };
        proof {
            assert(parts@[0]@ == sparts[0]);
        }
        let minor = if parts.len() > 1 {
            match parse_dec_chars(&parts[1]) {
                Ok(v) => v,
                Err(_) => {
                    proof {
                        assert(parts@[1]@ == sparts[1]);
                    }
                    return Err(VersionParseError::InvalidPart);
                },
            }
        } else {
            0
        };
        proof {
            if sparts.len() > 1 {
                assert(parts@[1]@ == sparts[1]);
            }
        }
        let build = if parts.len() > 2 {
            match parse_dec_chars(&parts[2]) {
                Ok(v) => v,
                Err(_) => {
                    proof {
                        assert(parts@[2]@ == sparts[2]);
                    }
                    return Err(VersionParseError::InvalidPart);
                },
            }
        } else {
            0
        };
        proof {
            if sparts.len() > 2 {
                assert(parts@[2]@ == sparts[2]);
            }
        }
        let revision = if parts.len() > 3 {
            match parse_dec_chars(&parts[3]) {
                Ok(v) => v,
                Err(_) => {
                    proof {
                        assert(parts@[3]@ == sparts[3]);
                    }
                    return Err(VersionParseError::InvalidPart);
                },
            }
        } else {
            0
        };
        proof {
            if sparts.len() > 3 {
                assert(parts@[3]@ == sparts[3]);
            }
        }
        Ok(Version { major, minor, build, revision })
    }

    /// The dotted decimal rendering: `major.minor.build`, with the
    /// revision appended when it is non-zero.
    pub fn to_version_string(&self) -> (r: String)
        ensures
            r@ == spec_version_string(*self),
    {
        proof {
            reveal_strlit(".");
        }
        let mut s = String::new();
        append_dec_u64(&mut s, self.major);
        s.append(".");
        append_dec_u64(&mut s, self.minor);
        s.append(".");
        append_dec_u64(&mut s, self.build);
        if self.revision != 0 {
            s.append(".");
            append_dec_u64(&mut s, self.revision);
        }
        proof {
            assert("."@ =~= seq!['.']);
            assert(s@ =~= spec_version_string(*self));
        }
        s
    }
}

impl PartialOrd for Version {
    /// Versions order lexicographically, major part first; the order is
    /// total.
    fn partial_cmp(&self, other: &Self) -> (r: Option<Ordering>) {
        if self.major != other.major {
            if self.major < other.major {
                Some(Ordering::Less)
            } else {
                Some(Ordering::Greater)
            }
        } else if self.minor != other.minor {
            if self.minor < other.minor {
                Some(Ordering::Less)
            } else {
                Some(Ordering::Greater)
            }
        } else if self.build != other.build {
            if self.build < other.build {
                Some(Ordering::Less)
            } else {
                Some(Ordering::Greater)
            }
        } else if self.revision != other.revision {
            if self.revision < other.revision {
                Some(Ordering::Less)
            } else {
                Some(Ordering::Greater)
            }
        } else {
            Some(Ordering::Equal)
        }
    }
}

impl vstd::std_specs::cmp::PartialOrdSpecImpl for Version {
    open spec fn obeys_partial_cmp_spec() -> bool {
        true
    }

    open spec fn partial_cmp_spec(&self, other: &Self) -> Option<Ordering> {
        Some(spec_version_cmp(*self, *other))
    }
}

} // verus!
