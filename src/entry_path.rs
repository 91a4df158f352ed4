//! Where an archive entry lands inside an installation directory.
//!
//! A path is read as a sequence of components separated by `/` or `\`;
//! empty and `.` components carry no meaning and are dropped. A package's
//! target sub-path and an entry's name are both read this way. The entry's
//! leading components that match the target's, ignoring case, are stripped;
//! where none match, a first component that matches the target's last one
//! (its leaf), ignoring case, is stripped instead. What is left is placed
//! under the target. Anything that could climb out
//! of the installation directory is refused.

use vstd::prelude::*;
use crate::text::{chars_of, lowercase, lower_of};

verus! {

pub open spec fn is_separator(c: char) -> bool {
    c == '/' || c == '\\'
}

/// Scanning state after reading `s`: the pieces closed by a separator, and
/// the piece still open.
pub open spec fn split_state(s: Seq<char>) -> (Seq<Seq<char>>, Seq<char>)
    decreases s.len(),
{
    if s.len() == 0 {
        (Seq::empty(), Seq::empty())
    } else {
        let prev = split_state(s.drop_last());
        if is_separator(s.last()) {
            (prev.0.push(prev.1), Seq::empty())
        } else {
            (prev.0, prev.1.push(s.last()))
        }
    }
}

/// The pieces of `s` between separators, empty ones included.
pub open spec fn split_pieces(s: Seq<char>) -> Seq<Seq<char>> {
    split_state(s).0.push(split_state(s).1)
}

/// A piece that names something: not empty and not `.`.
pub open spec fn is_meaningful(p: Seq<char>) -> bool {
    p.len() > 0 && p != seq!['.']
}

/// The meaningful pieces of `ps`, in order.
pub open spec fn keep_meaningful(ps: Seq<Seq<char>>) -> Seq<Seq<char>>
    decreases ps.len(),
{
    if ps.len() == 0 {
        Seq::empty()
    } else {
        let prev = keep_meaningful(ps.drop_last());
        if is_meaningful(ps.last()) {
            prev.push(ps.last())
        } else {
            prev
        }
    }
}

/// The components of the path written `s`.
pub open spec fn components(s: Seq<char>) -> Seq<Seq<char>> {
    keep_meaningful(split_pieces(s))
}

/// Splits a path into its components.
pub fn path_components(s: &str) -> (r: Vec<String>)
    ensures
        r.deep_view() == components(s@),
{
    let chars = chars_of(s);
    let mut out: Vec<String> = Vec::new();
    let mut start: usize = 0;
    let mut i: usize = 0;
    while i < chars.len()
        invariant
            chars@ == s@,
            start <= i <= chars.len(),
            split_state(s@.take(i as int)).1 == s@.subrange(start as int, i as int),
            out.deep_view() == keep_meaningful(split_state(s@.take(i as int)).0),
        decreases chars.len() - i,
    {
        assert(s@.take(i + 1).drop_last() == s@.take(i as int));
        assert(s@.take(i + 1).last() == s@[i as int]);
        if chars[i] == '/' || chars[i] == '\\' {
            let piece = s.substring_char(start, i);
            if i > start && !(i == start + 1 && chars[start] == '.') {
                out.push(String::from_str(piece));
            }
            proof {
                let ps = split_state(s@.take(i + 1)).0;
                assert(ps.drop_last() == split_state(s@.take(i as int)).0);
                assert(ps.last() == s@.subrange(start as int, i as int));
                lemma_meaningful(ps.last());
                assert(out.deep_view() =~= keep_meaningful(ps));
            }
            start = i + 1;
        } else {
            assert(s@.subrange(start as int, i + 1) == s@.subrange(start as int, i as int).push(s@[i as int]));
        }
        i += 1;
    }
    assert(s@.take(i as int) == s@);
    let piece = s.substring_char(start, i);
    if i > start && !(i == start + 1 && chars[start] == '.') {
        out.push(String::from_str(piece));
    }
    proof {
        let ps = split_pieces(s@);
        assert(ps.drop_last() == split_state(s@).0);
        assert(ps.last() == s@.subrange(start as int, i as int));
        lemma_meaningful(ps.last());
        assert(out.deep_view() =~= keep_meaningful(ps));
    }
    out
}

proof fn lemma_meaningful(p: Seq<char>)
    ensures
        is_meaningful(p) == (p.len() > 0 && !(p.len() == 1 && p[0] == '.')),
{
    if p.len() == 1 && p[0] == '.' {
        assert(p =~= seq!['.']);
    }
}


/// From index `k` on, the index of the first component at which `e` and `p`
/// differ ignoring case, or at which one of them ends.
pub open spec fn shared_from(e: Seq<Seq<char>>, p: Seq<Seq<char>>, k: int) -> int
    decreases e.len() - k,
{
    if 0 <= k < e.len() && k < p.len() && lower_of(e[k]) == lower_of(p[k]) {
        shared_from(e, p, k + 1)
    } else {
        k
    }
}

/// How many leading components `e` and `p` share, ignoring case.
pub open spec fn shared_prefix_len(e: Seq<Seq<char>>, p: Seq<Seq<char>>) -> int {
    shared_from(e, p, 0)
}

/// A component that stays where it is joined: not `..`, and no drive or
/// stream marker `:`.
pub open spec fn is_safe_component(c: Seq<char>) -> bool {
    c != seq!['.', '.'] && !c.contains(':')
}

pub open spec fn all_safe(cs: Seq<Seq<char>>) -> bool {
    forall|i: int| 0 <= i < cs.len() ==> is_safe_component(#[trigger] cs[i])
}

/// Whether the entry name denotes a directory (it ends in a separator).
pub open spec fn names_directory(name: Seq<char>) -> bool {
    name.len() > 0 && is_separator(name.last())
}

/// How many leading components of the entry `e` are stripped below the
/// target `p`: those it shares with `p`, or, sharing none, a first one that
/// names `p`'s leaf, all ignoring case.
pub open spec fn strip_len(e: Seq<Seq<char>>, p: Seq<Seq<char>>) -> int {
    if shared_prefix_len(e, p) == 0 && e.len() > 0 && p.len() > 0 && lower_of(e[0]) == lower_of(
        p.last(),
    ) {
        1
    } else {
        shared_prefix_len(e, p)
    }
}

/// The entry's own path once its root matching the target is stripped.
pub open spec fn stripped_entry(name: Seq<char>, target: Seq<char>) -> Seq<Seq<char>> {
    let e = components(name);
    e.skip(strip_len(e, components(target)))
}

/// The components, relative to the installation directory, at which the
/// entry `name` of a package whose target sub-path is `target` is written;
/// `None` for an entry that is not written.
pub open spec fn entry_destination(name: Seq<char>, target: Seq<char>) -> Option<Seq<Seq<char>>> {
    let dest = components(target) + stripped_entry(name, target);
    if names_directory(name) || stripped_entry(name, target).len() == 0 || !all_safe(dest) {
        None
    } else {
        Some(dest)
    }
}

/// Whether `c` is neither `..` nor holds a `:`.
pub fn is_safe(c: &str) -> (r: bool)
    ensures
        r == is_safe_component(c@),
{
    let chars = chars_of(c);
    let mut i: usize = 0;
    while i < chars.len()
        invariant
            chars@ == c@,
            i <= chars.len(),
            forall|j: int| 0 <= j < i ==> chars@[j] != ':',
        decreases chars.len() - i,
    {
        if chars[i] == ':' {
            assert(c@.contains(':')) by {
                assert(c@[i as int] == ':');
            }
            return false;
        }
        i += 1;
    }
    if chars.len() == 2 && chars[0] == '.' && chars[1] == '.' {
        assert(c@ =~= seq!['.', '.']);
        false
    } else {
        assert(c@ != seq!['.', '.']) by {
            if c@ == seq!['.', '.'] {
                assert(c@.len() == 2 && c@[0] == '.' && c@[1] == '.');
            }
        }
        true
    }
}

/// Where the entry `name` of a package extracted to `target` is written, as
/// components relative to the installation directory; `None` where it is
/// skipped: a directory entry, an entry that is only the target itself, or
/// one whose path would leave the installation directory.
pub fn resolve_entry(name: &str, target: &str) -> (r: Option<Vec<String>>)
    ensures
        r.deep_view() == entry_destination(name@, target@),
{
    let name_chars = chars_of(name);
    if name_chars.len() > 0 && (name_chars[name_chars.len() - 1] == '/'
        || name_chars[name_chars.len() - 1] == '\\') {
        return None;
    }
    let e = path_components(name);
    let p = path_components(target);
    let ghost ev = e.deep_view();
    let ghost pv = p.deep_view();
    let mut k: usize = 0;
    while k < e.len() && k < p.len()
        invariant
            ev == e.deep_view(),
            pv == p.deep_view(),
            k <= e.len(),
            shared_from(ev, pv, k as int) == shared_prefix_len(ev, pv),
        ensures
            k <= e.len(),
            shared_prefix_len(ev, pv) == k,
        decreases e.len() - k,
    {
        let a = lowercase(e[k].as_str());
        let b = lowercase(p[k].as_str());
        assert(e[k as int]@ == ev[k as int] && p[k as int]@ == pv[k as int]);
        if a != b {
            break;
        }
        k += 1;
    }
    let mut strip: usize = k;
    if k == 0 && e.len() > 0 && p.len() > 0 {
        let a = lowercase(e[0].as_str());
        let b = lowercase(p[p.len() - 1].as_str());
        assert(e[0]@ == ev[0] && p[p.len() - 1]@ == pv.last());
        if a == b {
            strip = 1;
        }
    }
    assert(!names_directory(name@));
    if strip == e.len() {
        assert(ev.skip(strip as int).len() == 0);
        return None;
    }
    let mut out: Vec<String> = Vec::new();
    let mut j: usize = 0;
    while j < p.len()
        invariant
            pv == p.deep_view(),
            j <= p.len(),
            out.deep_view() == pv.take(j as int),
            ev == components(name@),
            pv == components(target@),
            !names_directory(name@),
            strip_len(ev, pv) == strip,
            strip < ev.len(),
            all_safe(out.deep_view()),
        decreases p.len() - j,
    {
        assert(p[j as int]@ == pv[j as int]);
        if !is_safe(p[j].as_str()) {
            assert(!all_safe(pv + ev.skip(strip as int))) by {
                assert((pv + ev.skip(strip as int))[j as int] == pv[j as int]);
            }
            return None;
        }
        let c = p[j].clone();
        let ghost before = out.deep_view();
        out.push(c);
        assert(out.deep_view() =~= before.push(pv[j as int]));
        assert(out.deep_view() =~= pv.take(j + 1));
        j += 1;
    }
    let mut m: usize = strip;
    while m < e.len()
        invariant
            ev == e.deep_view(),
            pv == p.deep_view(),
            strip <= m <= e.len(),
            strip < e.len(),
            out.deep_view() == pv + ev.subrange(strip as int, m as int),
            ev == components(name@),
            pv == components(target@),
            !names_directory(name@),
            strip_len(ev, pv) == strip,
            all_safe(out.deep_view()),
        decreases e.len() - m,
    {
        assert(e[m as int]@ == ev[m as int]);
        if !is_safe(e[m].as_str()) {
            assert(!all_safe(pv + ev.skip(strip as int))) by {
                assert((pv + ev.skip(strip as int))[pv.len() + m - strip] == ev[m as int]);
            }
            return None;
        }
        let c = e[m].clone();
        let ghost before = out.deep_view();
        out.push(c);
        assert(out.deep_view() =~= before.push(ev[m as int]));
        assert(out.deep_view() =~= pv + ev.subrange(strip as int, m + 1));
        m += 1;
    }
    assert(ev.subrange(strip as int, m as int) =~= ev.skip(strip as int));
    Some(out)
}

pub open spec fn has_separator(c: Seq<char>) -> bool {
    exists|j: int| 0 <= j < c.len() && is_separator(c[j])
}

/// A component that names a child of the directory it is joined to.
pub open spec fn is_normal_component(c: Seq<char>) -> bool {
    is_meaningful(c) && is_safe_component(c) && !has_separator(c)
}

proof fn lemma_split_state_pieces(s: Seq<char>)
    ensures
        !has_separator(split_state(s).1),
        forall|i: int|
            0 <= i < split_state(s).0.len() ==> !has_separator((#[trigger] split_state(s).0[i])),
    decreases s.len(),
{
    if s.len() > 0 {
        lemma_split_state_pieces(s.drop_last());
        let prev = split_state(s.drop_last());
        if !is_separator(s.last()) {
            let cur = prev.1.push(s.last());
            assert forall|j: int| 0 <= j < cur.len() implies !is_separator(cur[j]) by {
                if j < prev.1.len() {
                    assert(cur[j] == prev.1[j]);
                }
            }
        }
    }
}

proof fn lemma_keep_meaningful(ps: Seq<Seq<char>>)
    requires
        forall|i: int| 0 <= i < ps.len() ==> !has_separator((#[trigger] ps[i])),
    ensures
        forall|i: int|
            0 <= i < keep_meaningful(ps).len() ==> is_meaningful(#[trigger] keep_meaningful(ps)[i])
                && !has_separator(keep_meaningful(ps)[i]),
    decreases ps.len(),
{
    if ps.len() > 0 {
        assert forall|i: int| 0 <= i < ps.drop_last().len() implies !has_separator((
        #[trigger] ps.drop_last()[i])) by {
            assert(ps.drop_last()[i] == ps[i]);
        }
        lemma_keep_meaningful(ps.drop_last());
        assert(!has_separator(ps[ps.len() - 1]));
        let prev = keep_meaningful(ps.drop_last());
        let cur = keep_meaningful(ps);
        assert forall|i: int| 0 <= i < cur.len() implies is_meaningful(#[trigger] cur[i])
            && !has_separator(cur[i]) by {
            if i < prev.len() {
                assert(cur[i] == prev[i]);
            } else {
                assert(cur[i] == ps.last());
            }
        }
    }
}

/// Every component of a path is meaningful and holds no separator.
pub proof fn lemma_components_plain(s: Seq<char>)
    ensures
        forall|i: int|
            0 <= i < components(s).len() ==> is_meaningful(#[trigger] components(s)[i])
                && !has_separator(components(s)[i]),
{
    lemma_split_state_pieces(s);
    let ps = split_pieces(s);
    assert forall|i: int| 0 <= i < ps.len() implies !has_separator((#[trigger] ps[i])) by {
        if i < split_state(s).0.len() {
            assert(ps[i] == split_state(s).0[i]);
        }
    }
    lemma_keep_meaningful(ps);
}

/// No entry is ever placed outside the installation directory: each
/// component of a destination names a child of the one before it, so that
/// `..`, a drive or an absolute path in an entry name cannot climb out.
pub proof fn lemma_destination_stays_inside(name: Seq<char>, target: Seq<char>)
    ensures
        entry_destination(name, target) matches Some(d) ==> d.len() > 0 && forall|i: int|
            0 <= i < d.len() ==> is_normal_component(#[trigger] d[i]),
{
    if let Some(d) = entry_destination(name, target) {
        let p = components(target);
        let e = components(name);
        let rest = stripped_entry(name, target);
        lemma_components_plain(name);
        lemma_components_plain(target);
        lemma_shared_bounds(e, p, 0);
        assert forall|i: int| 0 <= i < d.len() implies is_normal_component(#[trigger] d[i]) by {
            assert(is_safe_component(d[i]));
            if i < p.len() {
                assert(d[i] == p[i]);
            } else {
                assert(d[i] == rest[i - p.len()]);
                assert(rest[i - p.len()] == e[i - p.len() + strip_len(e, p)]);
            }
        }
    }
}

proof fn lemma_shared_bounds(e: Seq<Seq<char>>, p: Seq<Seq<char>>, k: int)
    requires
        0 <= k <= e.len(),
    ensures
        k <= shared_from(e, p, k) <= e.len(),
    decreases e.len() - k,
{
    if k < e.len() && k < p.len() && lower_of(e[k]) == lower_of(p[k]) {
        lemma_shared_bounds(e, p, k + 1);
    }
}

proof fn lemma_shared_whole_target(e: Seq<Seq<char>>, p: Seq<Seq<char>>, k: int)
    requires
        0 <= k <= p.len() <= e.len(),
        forall|i: int| 0 <= i < p.len() ==> lower_of(#[trigger] e[i]) == lower_of(p[i]),
    ensures
        shared_from(e, p, k) == p.len(),
    decreases p.len() - k,
{
    if k < p.len() {
        lemma_shared_whole_target(e, p, k + 1);
    }
}

/// An entry rooted under the target sub-path itself, compared component by
/// component ignoring case, loses that root: it lands at the target joined
/// with the rest of its own path.
pub proof fn lemma_rooted_entry_stripped(name: Seq<char>, target: Seq<char>)
    requires
        components(target).len() <= components(name).len(),
        forall|i: int|
            0 <= i < components(target).len() ==> lower_of(#[trigger] components(name)[i])
                == lower_of(components(target)[i]),
    ensures
        stripped_entry(name, target) == components(name).skip(components(target).len() as int),
{
    lemma_shared_whole_target(components(name), components(target), 0);
}

/// An entry rooted under a folder named like the target's leaf, ignoring
/// case, where its first component is not the target's first, loses that
/// folder.
pub proof fn lemma_leaf_rooted_entry_stripped(name: Seq<char>, target: Seq<char>)
    requires
        components(name).len() > 0,
        components(target).len() > 0,
        lower_of(components(name)[0]) != lower_of(components(target)[0]),
        lower_of(components(name)[0]) == lower_of(components(target).last()),
    ensures
        stripped_entry(name, target) == components(name).skip(1),
{
}

/// An entry whose first component differs from the target's first, ignoring
/// case, keeps its whole path below the target.
pub proof fn lemma_unrooted_entry_kept(name: Seq<char>, target: Seq<char>)
    requires
        components(name).len() == 0 || components(target).len() == 0 || (lower_of(
            components(name)[0],
        ) != lower_of(components(target)[0]) && lower_of(components(name)[0]) != lower_of(
            components(target).last(),
        )),
    ensures
        stripped_entry(name, target) == components(name),
{
    assert(components(name).skip(0) =~= components(name));
}

} // verus!
