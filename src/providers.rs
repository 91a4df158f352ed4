//! The ordered provider probes used to obtain the Linux launchers: package
//! managers that can install flatpak, tried in order until one succeeds,
//! and the flatpak application a launch path refers to.

use vstd::prelude::*;
use crate::text::{contains_text, occurs_in};

verus! {

/// A package manager that can install flatpak: the command whose presence
/// is probed and the shell line that installs flatpak with it.
pub struct Provider {
    pub manager: &'static str,
    pub install: &'static str,
}

pub open spec fn provider_table() -> Seq<(Seq<char>, Seq<char>)> {
    seq![
        ("apt-get"@, "sudo apt-get update && sudo apt-get install -y flatpak"@),
        ("dnf"@, "sudo dnf install -y flatpak"@),
        ("pacman"@, "sudo pacman -S --noconfirm flatpak"@),
        ("zypper"@, "sudo zypper install -y flatpak"@),
    ]
}

/// The providers, in the order they are tried.
pub fn flatpak_providers() -> (r: Vec<Provider>)
    ensures
        r@.len() == provider_table().len(),
        forall|i: int|
            0 <= i < r@.len() ==> (#[trigger] r@[i]).manager@ == provider_table()[i].0
                && r@[i].install@ == provider_table()[i].1,
{
    let v = vec![
        Provider {
            manager: "apt-get",
            install: "sudo apt-get update && sudo apt-get install -y flatpak",
        },
        Provider { manager: "dnf", install: "sudo dnf install -y flatpak" },
        Provider { manager: "pacman", install: "sudo pacman -S --noconfirm flatpak" },
        Provider { manager: "zypper", install: "sudo zypper install -y flatpak" },
    ];
    v
}

/// What to do after probing providers up to index `i`: `Some(i)` runs the
/// installer of provider `i`, the first from `from` on whose manager is
/// present; `None` when none is left.
pub fn next_provider(present: &Vec<bool>, from: usize) -> (r: Option<usize>)
    ensures
        match r {
            Some(i) => from <= i < present@.len() && present@[i as int] && forall|j: int|
                from <= j < i ==> !(#[trigger] present@[j]),
            None => forall|j: int| from <= j < present@.len() ==> !(#[trigger] present@[j]),
        },
{
    let mut i: usize = from;
    while i < present.len()
        invariant
            from <= i,
            forall|j: int| from <= j < i && j < present@.len() ==> !(#[trigger] present@[j]),
        decreases present.len() - i,
    {
        if present[i] {
            return Some(i);
        }
        i += 1;
    }
    None
}

/// The flatpak application of the player launcher.
pub open spec fn sober_app() -> Seq<char> {
    "org.vinegarhq.Sober"@
}

/// The flatpak application of the studio launcher.
pub open spec fn vinegar_app() -> Seq<char> {
    "org.vinegarhq.Vinegar"@
}

/// The flatpak application that a launch path names, if any: the player
/// launcher's when the path mentions it, else the studio launcher's when
/// that one is mentioned.
pub fn flatpak_app_of(path: &str) -> (r: Option<&'static str>)
    ensures
        match r {
            Some(a) => (occurs_in(path@, sober_app()) && a@ == sober_app()) || (!occurs_in(
                path@,
                sober_app(),
            ) && occurs_in(path@, vinegar_app()) && a@ == vinegar_app()),
            None => !occurs_in(path@, sober_app()) && !occurs_in(path@, vinegar_app()),
        },
{
    if contains_text(path, "org.vinegarhq.Sober") {
        Some("org.vinegarhq.Sober")
    } else if contains_text(path, "org.vinegarhq.Vinegar") {
        Some("org.vinegarhq.Vinegar")
    } else {
        None
    }
}

} // verus!
