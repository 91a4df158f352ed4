//! Character-level helpers over std's string functions.

use vstd::prelude::*;

verus! {

/// What `str::to_lowercase` makes of a sequence of characters (full Unicode
/// case mapping).
pub uninterp spec fn lower_of(s: Seq<char>) -> Seq<char>;

/// Relies on `str::chars`: the characters of `s`, in order.
#[verifier::external_body]
pub(crate) fn chars_of(s: &str) -> (r: Vec<char>)
    ensures
        r@ == s@,
{
    s.chars().collect()
}

/// A character with ASCII `A`..`Z` mapped to `a`..`z`.
pub open spec fn ascii_lower_char(c: char) -> char {
    if 'A' <= c && c <= 'Z' {
        ((c as u32) + 32) as char
    } else {
        c
    }
}

/// Whether every character of `s` is ASCII.
pub open spec fn all_ascii(s: Seq<char>) -> bool {
    forall|i: int| 0 <= i < s.len() ==> (#[trigger] s[i] as u32) < 128
}

/// Relies on `str::to_lowercase`: the result depends on the characters alone,
/// the empty string stays empty, and ASCII text has its letters `A`..`Z`
/// mapped to `a`..`z`, one for one.
#[verifier::external_body]
pub(crate) fn lowercase(s: &str) -> (r: String)
    ensures
        r@ == lower_of(s@),
        s@.len() == 0 ==> r@.len() == 0,
        all_ascii(s@) ==> r@ == s@.map_values(|c: char| ascii_lower_char(c)),
{
    s.to_lowercase()
}

/// Whether two strings hold the same characters.
pub fn same_text(a: &str, b: &str) -> (r: bool)
    ensures
        r == (a@ == b@),
{
    let x = chars_of(a);
    let y = chars_of(b);
    if x.len() != y.len() {
        return false;
    }
    let mut i: usize = 0;
    while i < x.len()
        invariant
            x@ == a@,
            y@ == b@,
            x.len() == y.len(),
            i <= x.len(),
            forall|j: int| 0 <= j < i ==> x@[j] == y@[j],
        decreases x.len() - i,
    {
        if x[i] != y[i] {
            return false;
        }
        i += 1;
    }
    assert(a@ =~= b@);
    true
}

/// Joins three pieces with `sep` between the first two and `dash` between
/// the last two.
pub fn join3(first: &str, sep: &str, second: &str, dash: &str, third: &str) -> (r: String)
    ensures
        r@ == first@ + sep@ + second@ + dash@ + third@,
{
    let mut out = String::from_str(first);
    out.append(sep);
    out.append(second);
    out.append(dash);
    out.append(third);
    out
}

/// What `String::from_utf8_lossy` makes of a byte sequence: the text it
/// encodes, with each invalid sequence replaced by U+FFFD.
pub uninterp spec fn utf8_lossy_of(b: Seq<u8>) -> Seq<char>;

/// Relies on `String::from_utf8_lossy`: decodes bytes as UTF-8, replacing
/// invalid sequences; no bytes give no text.
#[verifier::external_body]
pub(crate) fn decode_lossy(b: &[u8]) -> (r: String)
    ensures
        r@ == utf8_lossy_of(b@),
        b@.len() == 0 ==> r@.len() == 0,
{
    String::from_utf8_lossy(b).into_owned()
}

/// Whether `needle` occurs in `hay` starting at `at`.
pub open spec fn occurs_at(hay: Seq<char>, needle: Seq<char>, at: int) -> bool {
    0 <= at && at + needle.len() <= hay.len() && hay.subrange(at, at + needle.len()) == needle
}

/// Whether `needle` occurs anywhere in `hay`.
pub open spec fn occurs_in(hay: Seq<char>, needle: Seq<char>) -> bool {
    exists|at: int| occurs_at(hay, needle, at)
}

/// Whether `needle` occurs in `hay`.
pub fn contains_text(hay: &str, needle: &str) -> (r: bool)
    ensures
        r == occurs_in(hay@, needle@),
{
    let h = chars_of(hay);
    let n = chars_of(needle);
    if n.len() > h.len() {
        assert forall|at: int| !occurs_at(hay@, needle@, at) by {}
        return false;
    }
    let mut at: usize = 0;
    while at <= h.len() - n.len()
        invariant
            h@ == hay@,
            n@ == needle@,
            n.len() <= h.len(),
            at <= h.len() - n.len() + 1,
            forall|a: int| 0 <= a < at ==> !occurs_at(hay@, needle@, a),
        decreases h.len() - n.len() + 1 - at,
    {
        let mut j: usize = 0;
        let mut same = true;
        while j < n.len()
            invariant
                h@ == hay@,
                n@ == needle@,
                at + n.len() <= h.len(),
                j <= n.len(),
                same == (forall|q: int| 0 <= q < j ==> h@[at + q] == n@[q]),
            decreases n.len() - j,
        {
            if h[at + j] != n[j] {
                same = false;
            }
            j += 1;
        }
        if same {
            assert(hay@.subrange(at as int, at + needle@.len()) =~= needle@);
            assert(occurs_at(hay@, needle@, at as int));
            return true;
        }
        assert(!occurs_at(hay@, needle@, at as int)) by {
            if occurs_at(hay@, needle@, at as int) {
                let q = choose|q: int| 0 <= q < n.len() && h@[at + q] != n@[q];
                assert(hay@.subrange(at as int, at + needle@.len())[q] == h@[at + q]);
            }
        }
        at += 1;
    }
    assert forall|a: int| !occurs_at(hay@, needle@, a) by {
        if a >= at {
            assert(a + needle@.len() > hay@.len());
        }
    }
    false
}

/// The characters of Unicode's White_Space property, which `str::trim`
/// strips.
pub open spec fn is_white_space(c: char) -> bool {
    ('\u{9}' <= c && c <= '\u{d}') || c == ' ' || c == '\u{85}' || c == '\u{a0}'
        || c == '\u{1680}' || ('\u{2000}' <= c && c <= '\u{200a}') || c == '\u{2028}'
        || c == '\u{2029}' || c == '\u{202f}' || c == '\u{205f}' || c == '\u{3000}'
}

pub open spec fn trim_start_of(s: Seq<char>) -> Seq<char>
    decreases s.len(),
{
    if s.len() > 0 && is_white_space(s[0]) {
        trim_start_of(s.drop_first())
    } else {
        s
    }
}

pub open spec fn trim_end_of(s: Seq<char>) -> Seq<char>
    decreases s.len(),
{
    if s.len() > 0 && is_white_space(s.last()) {
        trim_end_of(s.drop_last())
    } else {
        s
    }
}

/// `s` without its leading and trailing white space.
pub open spec fn trim_of(s: Seq<char>) -> Seq<char> {
    trim_end_of(trim_start_of(s))
}

fn white_space(c: char) -> (r: bool)
    ensures
        r == is_white_space(c),
{
    ('\u{9}' <= c && c <= '\u{d}') || c == ' ' || c == '\u{85}' || c == '\u{a0}'
        || c == '\u{1680}' || ('\u{2000}' <= c && c <= '\u{200a}') || c == '\u{2028}'
        || c == '\u{2029}' || c == '\u{202f}' || c == '\u{205f}' || c == '\u{3000}'
}

/// `s` without its leading and trailing white space.
pub fn trimmed(s: &str) -> (r: String)
    ensures
        r@ == trim_of(s@),
{
    let chars = chars_of(s);
    let n = chars.len();
    let mut i: usize = 0;
    assert(s@.subrange(0, n as int) =~= s@);
    while i < n && white_space(chars[i])
        invariant
            chars@ == s@,
            n == chars.len(),
            i <= n,
            trim_start_of(s@) == trim_start_of(s@.subrange(i as int, n as int)),
        decreases n - i,
    {
        assert(s@.subrange(i as int, n as int).drop_first() =~= s@.subrange(i + 1, n as int));
        i += 1;
    }
    let mut j: usize = n;
    assert(s@.subrange(i as int, j as int) == trim_start_of(s@));
    while j > i && white_space(chars[j - 1])
        invariant
            chars@ == s@,
            n == chars.len(),
            i <= j <= n,
            trim_of(s@) == trim_end_of(s@.subrange(i as int, j as int)),
        decreases j,
    {
        assert(s@.subrange(i as int, j as int).drop_last() =~= s@.subrange(i as int, j - 1));
        j -= 1;
    }
    String::from_str(s.substring_char(i, j))
}

/// What `std::str::from_utf8` reads from bytes: the text they encode, or
/// `None` where they are not valid UTF-8.
pub uninterp spec fn utf8_of(b: Seq<u8>) -> Option<Seq<char>>;

/// Relies on `std::str::from_utf8`; no bytes are the empty text.
#[verifier::external_body]
pub(crate) fn decode_strict(b: &[u8]) -> (r: Option<String>)
    ensures
        r.deep_view() == utf8_of(b@),
        b@.len() == 0 ==> r.deep_view() == Some(Seq::<char>::empty()),
{
    std::str::from_utf8(b).ok().map(|t| t.to_string())
}

/// Whether `s` ends with `suffix`.
pub fn ends_with_text(s: &str, suffix: &str) -> (r: bool)
    ensures
        r == (suffix@.len() <= s@.len() && s@.subrange(s@.len() - suffix@.len(), s@.len() as int)
            == suffix@),
{
    let x = chars_of(s);
    let y = chars_of(suffix);
    if y.len() > x.len() {
        return false;
    }
    let off = x.len() - y.len();
    let mut i: usize = 0;
    while i < y.len()
        invariant
            x@ == s@,
            y@ == suffix@,
            off + y.len() == x.len(),
            i <= y.len(),
            forall|j: int| 0 <= j < i ==> x@[off + j] == y@[j],
        decreases y.len() - i,
    {
        if x[off + i] != y[i] {
            assert(s@.subrange(off as int, s@.len() as int)[i as int] != suffix@[i as int]);
            return false;
        }
        i += 1;
    }
    assert(s@.subrange(off as int, s@.len() as int) =~= suffix@);
    true
}

} // verus!
