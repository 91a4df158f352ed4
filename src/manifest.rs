//! Reading the package manifest of a version, and choosing the packages to
//! install.
//!
//! A manifest is line-oriented text: its first line is the format marker
//! `v0`, and each package takes four lines, of which the first is the
//! package's file name. So the names stand at lines 1, 5, 9, ...

use vstd::prelude::*;
use crate::text::{chars_of, same_text, decode_lossy, utf8_lossy_of};
use crate::packages::{Os, BinaryType, fallback_of, fallback_packages};

verus! {

/// Scanning state after reading `t`: the lines closed by a newline, and the
/// line still open.
pub open spec fn line_state(t: Seq<char>) -> (Seq<Seq<char>>, Seq<char>)
    decreases t.len(),
{
    if t.len() == 0 {
        (Seq::empty(), Seq::empty())
    } else {
        let prev = line_state(t.drop_last());
        if t.last() == '\n' {
            (prev.0.push(prev.1), Seq::empty())
        } else {
            (prev.0, prev.1.push(t.last()))
        }
    }
}

/// A closed line without the carriage return that may end it.
pub open spec fn strip_cr(l: Seq<char>) -> Seq<char> {
    if l.len() > 0 && l.last() == '\r' {
        l.drop_last()
    } else {
        l
    }
}

/// The lines of `t`: each newline ends one (with a carriage return before
/// it dropped), and a last line without a newline counts when not empty.
pub open spec fn text_lines(t: Seq<char>) -> Seq<Seq<char>> {
    let st = line_state(t);
    let closed = st.0.map_values(|l: Seq<char>| strip_cr(l));
    if st.1.len() > 0 {
        closed.push(st.1)
    } else {
        closed
    }
}

/// The package names that a manifest of these lines lists.
pub open spec fn manifest_packages_of(lines: Seq<Seq<char>>) -> Seq<Seq<char>> {
    if lines.len() > 0 && lines[0] == "v0"@ {
        Seq::new(((lines.len() + 2) / 4) as nat, |j: int| lines[1 + 4 * j])
    } else {
        Seq::empty()
    }
}

/// Splits text into lines.
pub fn lines_of(t: &str) -> (r: Vec<String>)
    ensures
        r.deep_view() == text_lines(t@),
{
    let chars = chars_of(t);
    let mut out: Vec<String> = Vec::new();
    let mut start: usize = 0;
    let mut i: usize = 0;
    while i < chars.len()
        invariant
            chars@ == t@,
            start <= i <= chars.len(),
            line_state(t@.take(i as int)).1 == t@.subrange(start as int, i as int),
            out.deep_view() == line_state(t@.take(i as int)).0.map_values(
                |l: Seq<char>| strip_cr(l),
            ),
        decreases chars.len() - i,
    {
        assert(t@.take(i + 1).drop_last() == t@.take(i as int));
        if chars[i] == '\n' {
            let end: usize = if i > start && chars[i - 1] == '\r' {
                i - 1
            } else {
                i
            };
            let line = t.substring_char(start, end);
            let ghost before = out.deep_view();
            out.push(String::from_str(line));
            proof {
                let cur = t@.subrange(start as int, i as int);
                assert(line@ == strip_cr(cur)) by {
                    if i > start && t@[i - 1] == '\r' {
                        assert(cur.drop_last() =~= t@.subrange(start as int, end as int));
                    }
                }
                let ls = line_state(t@.take(i + 1)).0;
                assert(ls == line_state(t@.take(i as int)).0.push(cur));
                assert(out.deep_view() =~= before.push(line@));
                assert(out.deep_view() =~= ls.map_values(|l: Seq<char>| strip_cr(l)));
            }
            start = i + 1;
        } else {
            assert(t@.subrange(start as int, i + 1) == t@.subrange(start as int, i as int).push(
                t@[i as int],
            ));
        }
        i += 1;
    }
    assert(t@.take(i as int) == t@);
    if i > start {
        let line = t.substring_char(start, i);
        out.push(String::from_str(line));
    }
    proof {
        let st = line_state(t@);
        let closed = st.0.map_values(|l: Seq<char>| strip_cr(l));
        if i > start {
            assert(out.deep_view() =~= closed.push(st.1));
        } else {
            assert(out.deep_view() =~= closed);
        }
    }
    out
}

/// The package names listed by a manifest's lines: every fourth line from
/// the second on, provided the first line is the marker `v0`; none
/// otherwise.
pub fn manifest_packages(lines: &Vec<String>) -> (r: Vec<String>)
    ensures
        r.deep_view() == manifest_packages_of(lines.deep_view()),
{
    let ghost lv = lines.deep_view();
    let mut out: Vec<String> = Vec::new();
    if lines.len() == 0 || !same_text(lines[0].as_str(), "v0") {
        proof {
            if lines.len() > 0 {
                assert(lines[0]@ == lv[0]);
            }
        }
        assert(out.deep_view() =~= manifest_packages_of(lv));
        return out;
    }
    assert(lines[0]@ == lv[0]);
    let n = lines.len();
    let count: usize = n / 4 + if n % 4 >= 2 {
        1
    } else {
        0
    };
    assert(count == (n + 2) / 4) by (nonlinear_arith)
        requires
            count == n / 4 + if n % 4 >= 2 {
                1int
            } else {
                0int
            },
    ;
    let mut k: usize = 0;
    while k < count
        invariant
            lv == lines.deep_view(),
            n == lines.len(),
            count == (n + 2) / 4,
            k <= count,
            out.deep_view() == Seq::new(k as nat, |j: int| lv[1 + 4 * j]),
        decreases count - k,
    {
        assert(1 + 4 * k < n) by (nonlinear_arith)
            requires
                k < count,
                count == (n + 2) / 4,
        ;
        let idx: usize = 1 + 4 * k;
        assert(lines[idx as int]@ == lv[idx as int]);
        let ghost before = out.deep_view();
        let c = lines[idx].clone();
        out.push(c);
        assert(out.deep_view() =~= before.push(lv[idx as int]));
        assert(out.deep_view() =~= Seq::new((k + 1) as nat, |j: int| lv[1 + 4 * j]));
        k += 1;
    }
    assert(out.deep_view() =~= manifest_packages_of(lv));
    out
}

/// The packages listed by a manifest's text.
pub fn parse_manifest(text: &str) -> (r: Vec<String>)
    ensures
        r.deep_view() == manifest_packages_of(text_lines(text@)),
{
    let lines = lines_of(text);
    manifest_packages(&lines)
}

/// The packages to install: those the manifest lists, or the static list
/// for the platform when it lists none.
pub open spec fn chosen_packages(listed: Seq<Seq<char>>, os: Os, b: BinaryType) -> Seq<Seq<char>> {
    if listed.len() > 0 {
        listed
    } else {
        fallback_of(os, b)
    }
}

/// Chooses between the packages a manifest listed and the static list.
pub fn choose_packages(listed: Vec<String>, os: Os, b: BinaryType) -> (r: Vec<String>)
    ensures
        r.deep_view() == chosen_packages(listed.deep_view(), os, b),
{
    if listed.len() > 0 {
        return listed;
    }
    let fallback = fallback_packages(os, b);
    let mut out: Vec<String> = Vec::new();
    let mut i: usize = 0;
    while i < fallback.len()
        invariant
            i <= fallback.len(),
            out.deep_view() == fallback.deep_view().take(i as int),
        decreases fallback.len() - i,
    {
        let ghost before = out.deep_view();
        out.push(String::from_str(fallback[i]));
        assert(out.deep_view() =~= before.push(fallback.deep_view()[i as int]));
        assert(out.deep_view() =~= fallback.deep_view().take(i + 1));
        i += 1;
    }
    assert(out.deep_view() =~= fallback.deep_view());
    out
}

/// The packages listed by a manifest as fetched, decoding its bytes as
/// UTF-8 with invalid sequences replaced.
pub fn parse_manifest_bytes(bytes: &[u8]) -> (r: Vec<String>)
    ensures
        r.deep_view() == manifest_packages_of(text_lines(utf8_lossy_of(bytes@))),
{
    let text = decode_lossy(bytes);
    parse_manifest(text.as_str())
}

} // verus!
