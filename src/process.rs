//! Recognising a running client among the processes of the machine.

use vstd::prelude::*;
use crate::text::{lowercase, lower_of, contains_text, occurs_in};

verus! {

/// The executable names of the player and studio clients on each platform.
pub open spec fn client_names() -> Seq<Seq<char>> {
    seq![
        "RobloxPlayerBeta.exe"@,
        "RobloxPlayer"@,
        "RobloxStudioBeta.exe"@,
        "RobloxStudio"@,
        "RobloxPlayerBeta"@,
        "RobloxStudioBeta"@,
    ]
}

/// A process is a client when its name, ignoring case, contains one of the
/// client names.
pub open spec fn is_client_process_spec(name: Seq<char>) -> bool {
    exists|k: int|
        0 <= k < client_names().len() && occurs_in(lower_of(name), lower_of(#[trigger] client_names()[k]))
}

/// Whether the process called `name` is a client.
pub fn is_client_process(name: &str) -> (r: bool)
    ensures
        r == is_client_process_spec(name@),
{
    let known = vec![
        "RobloxPlayerBeta.exe",
        "RobloxPlayer",
        "RobloxStudioBeta.exe",
        "RobloxStudio",
        "RobloxPlayerBeta",
        "RobloxStudioBeta",
    ];
    assert(known.deep_view() =~= client_names());
    let lowered = lowercase(name);
    let mut k: usize = 0;
    while k < known.len()
        invariant
            known.deep_view() == client_names(),
            lowered@ == lower_of(name@),
            k <= known.len(),
            forall|q: int| 0 <= q < k ==> !occurs_in(lower_of(name@), lower_of(#[trigger] client_names()[q])),
        decreases known.len() - k,
    {
        let pattern = lowercase(known[k]);
        assert(known[k as int]@ == client_names()[k as int]);
        if contains_text(lowered.as_str(), pattern.as_str()) {
            return true;
        }
        k += 1;
    }
    false
}

/// Whether any of the named processes is a client; while one is, its files
/// may not be replaced.
pub fn any_client_running(process_names: &Vec<String>) -> (r: bool)
    ensures
        r == exists|i: int|
            0 <= i < process_names@.len() && is_client_process_spec(#[trigger] process_names@[i]@),
{
    let mut i: usize = 0;
    while i < process_names.len()
        invariant
            i <= process_names.len(),
            forall|j: int| 0 <= j < i ==> !is_client_process_spec(#[trigger] process_names@[j]@),
        decreases process_names.len() - i,
    {
        if is_client_process(process_names[i].as_str()) {
            return true;
        }
        i += 1;
    }
    false
}

} // verus!
