use vstd::prelude::*;
use vstd::string::StrSliceExecFns;

use crate::render::ColorTag;

verus! {

/// The whitespace characters stripped from a level name before it is
/// classified.
pub open spec fn is_space(c: char) -> bool {
    c == ' ' || c == '\t' || c == '\n' || c == '\r'
}

/// ASCII lowercasing of one character; other characters are unchanged.
pub open spec fn lower_char(c: char) -> char {
    if 'A' <= c && c <= 'Z' {
        ((c as u8) + 32) as char
    } else {
        c
    }
}

pub open spec fn lower_seq(s: Seq<char>) -> Seq<char> {
    Seq::new(s.len(), |i: int| lower_char(s[i]))
}

pub open spec fn trim_front(s: Seq<char>) -> Seq<char>
    decreases s.len(),
{
    if s.len() > 0 && is_space(s[0]) {
        trim_front(s.drop_first())
    } else {
        s
    }
}

pub open spec fn trim_back(s: Seq<char>) -> Seq<char>
    decreases s.len(),
{
    if s.len() > 0 && is_space(s.last()) {
        trim_back(s.drop_last())
    } else {
        s
    }
}

/// The level name with leading and trailing whitespace removed.
pub open spec fn trim_seq(s: Seq<char>) -> Seq<char> {
    trim_back(trim_front(s))
}

/// The fixed, case-insensitive map from a level name to its color:
/// trace and debug stay neutral, info and notice turn blue, warning turns
/// yellow, the error family turns red, and anything else stays neutral.
pub open spec fn spec_level_color(level: Seq<char>) -> ColorTag {
    let t = lower_seq(trim_seq(level));
    if t == "trace"@ || t == "debug"@ {
        ColorTag::Neutral
    } else if t == "info"@ || t == "notice"@ {
        ColorTag::Blue
    } else if t == "warning"@ {
        ColorTag::Yellow
    } else if t == "error"@ || t == "err"@ || t == "critical"@ || t == "crit"@ || t == "fatal"@
        || t == "emerg"@ || t == "emergency"@ || t == "alert"@ {
        ColorTag::Red
    } else {
        ColorTag::Neutral
    }
}

fn is_space_char(c: char) -> (r: bool)
    ensures
        r == is_space(c),
{
    c == ' ' || c == '\t' || c == '\n' || c == '\r'
}

fn lower_char_exec(c: char) -> (r: char)
    ensures
        r == lower_char(c),
{
    if 'A' <= c && c <= 'Z' {
        ((c as u8) + 32) as char
    } else {
        c
    }
}

/// The bounds of `s` with surrounding whitespace stripped: the trimmed text
/// is `s[start..end]`.
fn trim_bounds(s: &str) -> (r: (usize, usize))
    ensures
        r.0 <= r.1 <= s@.len(),
        trim_seq(s@) == s@.subrange(r.0 as int, r.1 as int),
{
    let n = s.unicode_len();
    let mut start: usize = 0;
    proof {
        assert(s@.skip(0) =~= s@);
    }
    while start < n && is_space_char(s.get_char(start))
        invariant
            0 <= start <= n == s@.len(),
            trim_front(s@) == trim_front(s@.skip(start as int)),
        decreases n - start,
    {
        proof {
            assert(s@.skip(start as int).drop_first() =~= s@.skip(start as int + 1));
        }
        start = start + 1;
    }
    proof {
        assert(trim_front(s@) == s@.skip(start as int));
    }
    let mut end: usize = n;
    proof {
        assert(s@.skip(start as int) =~= s@.subrange(start as int, end as int));
    }
    while end > start && is_space_char(s.get_char(end - 1))
        invariant
            start <= end <= n == s@.len(),
            trim_back(trim_front(s@)) == trim_back(s@.subrange(start as int, end as int)),
        decreases end,
    {
        proof {
            assert(s@.subrange(start as int, end as int).drop_last() =~= s@.subrange(
                start as int,
                end as int - 1,
            ));
        }
        end = end - 1;
    }
    (start, end)
}

/// Whether `s[start..end]`, lowercased, spells exactly `kw`.
fn matches_lower(s: &str, start: usize, end: usize, kw: &str) -> (r: bool)
    requires
        start <= end <= s@.len(),
    ensures
        r == (lower_seq(s@.subrange(start as int, end as int)) == kw@),
{
    let klen = kw.unicode_len();
    if end - start != klen {
        proof {
            assert(lower_seq(s@.subrange(start as int, end as int)).len() == end - start);
        }
        return false;
    }
    let ghost sub = s@.subrange(start as int, end as int);
    let mut i: usize = 0;
    while i < klen
        invariant
            0 <= i <= klen,
            start <= end <= s@.len(),
            end - start == klen == kw@.len(),
            sub == s@.subrange(start as int, end as int),
            forall|j: int| 0 <= j < i ==> lower_char(sub[j]) == kw@[j],
        decreases klen - i,
    {
        let c = lower_char_exec(s.get_char(start + i));
        let k = kw.get_char(i);
        if c != k {
            proof {
                assert(lower_seq(sub)[i as int] == lower_char(sub[i as int]));
            }
            return false;
        }
        i = i + 1;
    }
    proof {
        assert(lower_seq(sub) =~= kw@);
    }
    true
}

/// The color for a level name, per the fixed case-insensitive mapping.
pub fn level_color(level: &str) -> (c: ColorTag)
    ensures
        c == spec_level_color(level@),
{
    let (start, end) = trim_bounds(level);
    if matches_lower(level, start, end, "trace") || matches_lower(level, start, end, "debug") {
        ColorTag::Neutral
    } else if matches_lower(level, start, end, "info") || matches_lower(
        level,
        start,
        end,
        "notice",
    ) {
        ColorTag::Blue
    } else if matches_lower(level, start, end, "warning") {
        ColorTag::Yellow
    } else if matches_lower(level, start, end, "error") || matches_lower(level, start, end, "err")
        || matches_lower(level, start, end, "critical") || matches_lower(level, start, end, "crit")
        || matches_lower(level, start, end, "fatal") || matches_lower(level, start, end, "emerg")
        || matches_lower(level, start, end, "emergency") || matches_lower(
        level,
        start,
        end,
        "alert",
    ) {
        ColorTag::Red
    } else {
        ColorTag::Neutral
    }
}

} // verus!
