//! The directory of installed versions: which sibling directories to remove
//! before a new version of a family is installed, and what complete means.
//!
//! Player and studio are separate families, so that both can stay
//! installed: installing one removes the other versions of the same family
//! and directories that belong to no family, never those of the other one.

use vstd::prelude::*;
use crate::text::same_text;
use crate::packages::{BinaryType, is_studio_spec};

verus! {

/// A directory found beside the version being installed, with which
/// family's executable it holds.
#[derive(Debug)]
pub struct Sibling {
    pub name: String,
    pub has_player: bool,
    pub has_studio: bool,
}

pub struct SiblingView {
    pub name: Seq<char>,
    pub has_player: bool,
    pub has_studio: bool,
}

impl View for Sibling {
    type V = SiblingView;

    open spec fn view(&self) -> SiblingView {
        SiblingView { name: self.name@, has_player: self.has_player, has_studio: self.has_studio }
    }
}

/// Whether the sibling `s` goes when `version` of the studio family
/// (`studio`) or of the player family is installed.
pub open spec fn prunes(s: SiblingView, version: Seq<char>, studio: bool) -> bool {
    &&& s.name != version
    &&& if studio {
        s.has_studio || !s.has_player
    } else {
        s.has_player || !s.has_studio
    }
}

/// The names of the siblings that go, in listing order.
pub open spec fn pruned_names(sibs: Seq<SiblingView>, version: Seq<char>, studio: bool) -> Seq<
    Seq<char>,
>
    decreases sibs.len(),
{
    if sibs.len() == 0 {
        Seq::empty()
    } else {
        let prev = pruned_names(sibs.drop_last(), version, studio);
        if prunes(sibs.last(), version, studio) {
            prev.push(sibs.last().name)
        } else {
            prev
        }
    }
}

/// The siblings that stay.
pub open spec fn kept_siblings(sibs: Seq<SiblingView>, version: Seq<char>, studio: bool) -> Seq<
    SiblingView,
>
    decreases sibs.len(),
{
    if sibs.len() == 0 {
        Seq::empty()
    } else {
        let prev = kept_siblings(sibs.drop_last(), version, studio);
        if prunes(sibs.last(), version, studio) {
            prev
        } else {
            prev.push(sibs.last())
        }
    }
}

/// Whether `s` is the installed `version` of the family, complete: its
/// directory holds the family's executable.
pub open spec fn is_complete_as(s: SiblingView, version: Seq<char>, studio: bool) -> bool {
    s.name == version && if studio {
        s.has_studio
    } else {
        s.has_player
    }
}

/// Whether the sibling `sib` goes when `version` of `b` is installed.
pub fn should_prune(sib: &Sibling, version: &str, b: BinaryType) -> (r: bool)
    ensures
        r == prunes(sib@, version@, is_studio_spec(b)),
{
    if same_text(sib.name.as_str(), version) {
        return false;
    }
    if b.is_studio() {
        sib.has_studio || !sib.has_player
    } else {
        sib.has_player || !sib.has_studio
    }
}

pub open spec fn views_of(sibs: Seq<Sibling>) -> Seq<SiblingView> {
    sibs.map_values(|s: Sibling| s@)
}

/// The names of the directories to remove before `version` of `b` is
/// installed, in listing order.
pub fn prune_plan(siblings: &Vec<Sibling>, version: &str, b: BinaryType) -> (r: Vec<String>)
    ensures
        r.deep_view() == pruned_names(views_of(siblings@), version@, is_studio_spec(b)),
{
    let ghost studio = is_studio_spec(b);
    let mut out: Vec<String> = Vec::new();
    let mut i: usize = 0;
    while i < siblings.len()
        invariant
            i <= siblings.len(),
            studio == is_studio_spec(b),
            out.deep_view() == pruned_names(views_of(siblings@.take(i as int)), version@, studio),
        decreases siblings.len() - i,
    {
        let ghost before = out.deep_view();
        assert(views_of(siblings@.take(i + 1)).drop_last() =~= views_of(siblings@.take(i as int)));
        assert(views_of(siblings@.take(i + 1)).last() == siblings@[i as int]@);
        if should_prune(&siblings[i], version, b) {
            out.push(siblings[i].name.clone());
            assert(out.deep_view() =~= before.push(siblings@[i as int].name@));
        }
        i += 1;
    }
    assert(siblings@.take(i as int) =~= siblings@);
    out
}

/// The directory names whose presence marks a version directory as
/// holding the studio family (`studio`) or the player family.
pub fn family_markers(studio: bool) -> (r: Vec<&'static str>)
    ensures
        r.deep_view() == if studio {
            seq!["RobloxStudioBeta.exe"@, "RobloxStudio.app"@]
        } else {
            seq!["RobloxPlayerBeta.exe"@, "RobloxPlayer.app"@]
        },
{
    if studio {
        let v = vec!["RobloxStudioBeta.exe", "RobloxStudio.app"];
        assert(v.deep_view() =~= seq!["RobloxStudioBeta.exe"@, "RobloxStudio.app"@]);
        v
    } else {
        let v = vec!["RobloxPlayerBeta.exe", "RobloxPlayer.app"];
        assert(v.deep_view() =~= seq!["RobloxPlayerBeta.exe"@, "RobloxPlayer.app"@]);
        v
    }
}

proof fn lemma_kept_not_named(sibs: Seq<SiblingView>, version: Seq<char>, studio: bool)
    requires
        forall|i: int| 0 <= i < sibs.len() ==> (#[trigger] sibs[i]).name != version,
    ensures
        forall|i: int|
            0 <= i < kept_siblings(sibs, version, studio).len() ==> (#[trigger] kept_siblings(
                sibs,
                version,
                studio,
            )[i]).name != version,
    decreases sibs.len(),
{
    if sibs.len() > 0 {
        let prev = sibs.drop_last();
        assert forall|i: int| 0 <= i < prev.len() implies (#[trigger] prev[i]).name != version by {
            assert(prev[i] == sibs[i]);
        }
        lemma_kept_not_named(prev, version, studio);
        let k = kept_siblings(sibs, version, studio);
        let kp = kept_siblings(prev, version, studio);
        assert forall|i: int| 0 <= i < k.len() implies (#[trigger] k[i]).name != version by {
            if i < kp.len() {
                assert(k[i] == kp[i]);
            }
        }
    }
}

/// A store in which `version` was never installed is, once pruned, not
/// complete for it, whatever the family: the install must run in full.
pub proof fn lemma_fresh_version_incomplete(
    sibs: Seq<SiblingView>,
    version: Seq<char>,
    studio: bool,
)
    requires
        forall|i: int| 0 <= i < sibs.len() ==> (#[trigger] sibs[i]).name != version,
    ensures
        forall|i: int|
            0 <= i < kept_siblings(sibs, version, studio).len() ==> !is_complete_as(
                #[trigger] kept_siblings(sibs, version, studio)[i],
                version,
                studio,
            ),
{
    lemma_kept_not_named(sibs, version, studio);
}

/// Of two siblings, one an older version of the family being installed and
/// one holding only the other family, exactly the first is removed.
pub proof fn lemma_prune_spares_other_family(
    same: SiblingView,
    other: SiblingView,
    version: Seq<char>,
    studio: bool,
)
    requires
        same.name != version,
        if studio {
            same.has_studio
        } else {
            same.has_player
        },
        if studio {
            other.has_player && !other.has_studio
        } else {
            other.has_studio && !other.has_player
        },
    ensures
        pruned_names(seq![same, other], version, studio) == seq![same.name],
        kept_siblings(seq![same, other], version, studio) == seq![other],
{
    let s = seq![same, other];
    assert(s.drop_last() =~= seq![same]);
    assert(seq![same].drop_last() =~= Seq::<SiblingView>::empty());
    assert(seq![same].last() == same);
    assert(s.last() == other);
    assert(prunes(same, version, studio));
    assert(!prunes(other, version, studio));
    assert(pruned_names(Seq::<SiblingView>::empty(), version, studio) == Seq::<Seq<char>>::empty());
    assert(kept_siblings(Seq::<SiblingView>::empty(), version, studio) == Seq::<SiblingView>::empty());
    assert(pruned_names(seq![same], version, studio) =~= seq![same.name]);
    assert(kept_siblings(seq![same], version, studio) =~= Seq::<SiblingView>::empty());
    assert(kept_siblings(s, version, studio) =~= seq![other]);
}

proof fn lemma_pruned_none(sibs: Seq<SiblingView>, version: Seq<char>, studio: bool)
    requires
        forall|i: int| 0 <= i < sibs.len() ==> !prunes(#[trigger] sibs[i], version, studio),
    ensures
        pruned_names(sibs, version, studio) == Seq::<Seq<char>>::empty(),
    decreases sibs.len(),
{
    if sibs.len() > 0 {
        let prev = sibs.drop_last();
        assert forall|i: int| 0 <= i < prev.len() implies !prunes(#[trigger] prev[i], version, studio) by {
            assert(prev[i] == sibs[i]);
        }
        lemma_pruned_none(prev, version, studio);
        assert(!prunes(sibs[sibs.len() - 1], version, studio));
    }
}

proof fn lemma_kept_not_pruned(sibs: Seq<SiblingView>, version: Seq<char>, studio: bool)
    ensures
        forall|i: int|
            0 <= i < kept_siblings(sibs, version, studio).len() ==> !prunes(
                #[trigger] kept_siblings(sibs, version, studio)[i],
                version,
                studio,
            ),
    decreases sibs.len(),
{
    if sibs.len() > 0 {
        lemma_kept_not_pruned(sibs.drop_last(), version, studio);
        let k = kept_siblings(sibs, version, studio);
        let kp = kept_siblings(sibs.drop_last(), version, studio);
        assert forall|i: int| 0 <= i < k.len() implies !prunes(#[trigger] k[i], version, studio) by {
            if i < kp.len() {
                assert(k[i] == kp[i]);
            }
        }
    }
}

/// Pruning is idempotent: once the stale directories of a family are gone,
/// installing the same version again removes nothing more.
pub proof fn lemma_prune_idempotent(sibs: Seq<SiblingView>, version: Seq<char>, studio: bool)
    ensures
        pruned_names(kept_siblings(sibs, version, studio), version, studio) == Seq::<
            Seq<char>,
        >::empty(),
{
    lemma_kept_not_pruned(sibs, version, studio);
    lemma_pruned_none(kept_siblings(sibs, version, studio), version, studio);
}

/// Whether `s` holds only the other family's executable.
pub open spec fn only_other_family(s: SiblingView, studio: bool) -> bool {
    if studio {
        s.has_player && !s.has_studio
    } else {
        s.has_studio && !s.has_player
    }
}

/// In any listing, a directory holding only the other family's executable
/// stays, whatever else is listed: the two families coexist.
pub proof fn lemma_other_family_kept(sibs: Seq<SiblingView>, version: Seq<char>, studio: bool, i: int)
    requires
        0 <= i < sibs.len(),
        only_other_family(sibs[i], studio),
    ensures
        !prunes(sibs[i], version, studio),
        kept_siblings(sibs, version, studio).contains(sibs[i]),
    decreases sibs.len(),
{
    let k = kept_siblings(sibs, version, studio);
    if i == sibs.len() - 1 {
        assert(k[k.len() - 1] == sibs[i]);
    } else {
        let prev = sibs.drop_last();
        assert(prev[i] == sibs[i]);
        lemma_other_family_kept(prev, version, studio, i);
        let kp = kept_siblings(prev, version, studio);
        let j = choose|j: int| 0 <= j < kp.len() && kp[j] == sibs[i];
        assert(k[j] == kp[j]);
    }
}

} // verus!
