//! Finding the game being played in the client's logs.

use vstd::prelude::*;
use crate::manifest::{lines_of, text_lines};
use crate::text::{contains_text, occurs_in};

verus! {

/// What `regex::Regex` finds in `text` for `pattern`: the text of the first
/// capture group of the leftmost match, or `None` where the pattern is not
/// valid or does not match or the group takes no part.
pub uninterp spec fn first_capture_of(pattern: Seq<char>, text: Seq<char>) -> Option<Seq<char>>;

/// Relies on `regex::Regex::new` and `Regex::captures`: the first capture
/// group of the leftmost match of `pattern` in `text`.
#[verifier::external_body]
fn first_capture(pattern: &str, text: &str) -> (r: Option<String>)
    ensures
        r.deep_view() == first_capture_of(pattern@, text@),
{
    let re = regex::Regex::new(pattern).ok()?;
    re.captures(text)?.get(1).map(|m| m.as_str().to_string())
}

/// The pattern that carries the place id on a join line.
pub open spec fn place_pattern() -> Seq<char> {
    "place (\\d+)"@
}

/// The place id on a log line, if it is a join line that names one.
pub open spec fn place_in_line(line: Seq<char>) -> Option<Seq<char>> {
    if occurs_in(line, "Joining game"@) {
        first_capture_of(place_pattern(), line)
    } else {
        None
    }
}

/// The place id of the last join line of a log that names one.
pub open spec fn last_place(lines: Seq<Seq<char>>) -> Option<Seq<char>>
    decreases lines.len(),
{
    if lines.len() == 0 {
        None
    } else {
        match place_in_line(lines.last()) {
            Some(p) => Some(p),
            None => last_place(lines.drop_last()),
        }
    }
}

/// The place id of the latest join in one log's text.
pub fn place_in_log(content: &str) -> (r: Option<String>)
    ensures
        r.deep_view() == last_place(text_lines(content@)),
{
    let lines = lines_of(content);
    let ghost lv = lines.deep_view();
    let mut i: usize = lines.len();
    assert(lv.take(i as int) =~= lv);
    while i > 0
        invariant
            lv == lines.deep_view(),
            lv == text_lines(content@),
            i <= lines.len(),
            last_place(lv) == last_place(lv.take(i as int)),
        decreases i,
    {
        let line = &lines[i - 1];
        assert(line@ == lv[i - 1]);
        assert(lv.take(i as int).drop_last() =~= lv.take(i - 1));
        assert(lv.take(i as int).last() == lv[i - 1]);
        if contains_text(line.as_str(), "Joining game") {
            let pattern = "place (\\d+)";
            match first_capture(pattern, line.as_str()) {
                Some(p) => {
                    return Some(p);
                },
                None => {},
            }
        }
        i -= 1;
    }
    assert(lv.take(0) =~= Seq::<Seq<char>>::empty());
    None
}

/// One log file: when it was last modified (in nanoseconds since the
/// epoch) and its text.
pub struct LogFile {
    pub modified: u128,
    pub content: String,
}

/// Whether index `i` holds the place chosen among logs whose places are
/// `places` and times `times`: the newest log that names a place, the first
/// listed among equally new ones.
pub open spec fn is_chosen_log(places: Seq<Option<Seq<char>>>, times: Seq<u128>, i: int) -> bool {
    &&& 0 <= i < places.len()
    &&& places[i] is Some
    &&& forall|j: int| 0 <= j < places.len() && (#[trigger] places[j]) is Some ==> times[j] <= times[i]
    &&& forall|j: int| 0 <= j < i && (#[trigger] places[j]) is Some ==> times[j] < times[i]
}

/// The place id of the game last joined according to the logs: the latest
/// join line of the newest log that has one.
pub fn place_from_logs(logs: &Vec<LogFile>) -> (r: Option<String>)
    ensures
        ({
            let places = logs@.map_values(|l: LogFile| last_place(text_lines(l.content@)));
            let times = logs@.map_values(|l: LogFile| l.modified);
            match r {
                Some(p) => exists|i: int| is_chosen_log(places, times, i) && places[i] == Some(p@),
                None => forall|j: int| 0 <= j < places.len() ==> (#[trigger] places[j]) is None,
            }
        }),
{
    let ghost places = logs@.map_values(|l: LogFile| last_place(text_lines(l.content@)));
    let ghost times = logs@.map_values(|l: LogFile| l.modified);
    let mut best: Option<String> = None;
    let mut best_i: usize = 0;
    let mut best_t: u128 = 0;
    let mut i: usize = 0;
    while i < logs.len()
        invariant
            i <= logs.len(),
            places == logs@.map_values(|l: LogFile| last_place(text_lines(l.content@))),
            times == logs@.map_values(|l: LogFile| l.modified),
            best is None ==> forall|j: int| 0 <= j < i ==> (#[trigger] places[j]) is None,
            best matches Some(p) ==> {
                &&& best_i < i
                &&& places[best_i as int] == Some(p@)
                &&& best_t == times[best_i as int]
                &&& forall|j: int| 0 <= j < i && (#[trigger] places[j]) is Some ==> times[j] <= best_t
                &&& forall|j: int| 0 <= j < best_i && (#[trigger] places[j]) is Some ==> times[j] < best_t
            },
        decreases logs.len() - i,
    {
        let found = place_in_log(logs[i].content.as_str());
        assert(places[i as int] == found.deep_view());
        match found {
            Some(p) => {
                let newer = match &best {
                    Some(_) => logs[i].modified > best_t,
                    None => true,
                };
                if newer {
                    best = Some(p);
                    best_i = i;
                    best_t = logs[i].modified;
                }
            },
            None => {},
        }
        i += 1;
    }
    proof {
        if best is Some {
            assert(is_chosen_log(places, times, best_i as int));
        }
    }
    best
}

/// The name shown for the game being played: its place id, or a
/// placeholder when none is known.
pub fn game_name(place: Option<String>) -> (r: String)
    ensures
        match place {
            Some(p) => r@ == p@,
            None => r@ == "Unknown Game"@,
        },
{
    match place {
        Some(p) => p,
        None => String::from_str("Unknown Game"),
    }
}

} // verus!
