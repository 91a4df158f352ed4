//! Deciding which old log and cache files to delete.

use vstd::prelude::*;
use crate::text::{same_text, chars_of};

verus! {

/// A kind of files the cleaner handles.
#[derive(Clone, Copy, Debug, PartialEq, Eq, Structural)]
pub enum CleanKind {
    Logs,
    Cache,
}

/// The kind named `s`, if the cleaner knows it.
pub fn clean_kind(s: &str) -> (r: Option<CleanKind>)
    ensures
        r == if s@ == "RobloxLogs"@ {
            Some(CleanKind::Logs)
        } else if s@ == "RobloxCache"@ {
            Some(CleanKind::Cache)
        } else {
            None
        },
{
    if same_text(s, "RobloxLogs") {
        Some(CleanKind::Logs)
    } else if same_text(s, "RobloxCache") {
        Some(CleanKind::Cache)
    } else {
        None
    }
}

/// The oldest age kept, in seconds.
pub open spec fn max_age_secs(days: u32) -> int {
    days as int * 86400
}

/// Whether a file of age `age_secs` seconds and `age_nanos` nanoseconds is
/// older than `max_age_days` days. A file modified in the future has age
/// zero.
pub fn is_expired(age_secs: u64, age_nanos: u32, max_age_days: u32) -> (r: bool)
    requires
        age_nanos < 1_000_000_000,
    ensures
        r == (age_secs > max_age_secs(max_age_days) || (age_secs == max_age_secs(max_age_days)
            && age_nanos > 0)),
{
    let limit: u64 = max_age_days as u64 * 86400;
    age_secs > limit || (age_secs == limit && age_nanos > 0)
}

/// `s` without the `/` characters that end it.
pub open spec fn without_trailing_slashes(s: Seq<char>) -> Seq<char>
    decreases s.len(),
{
    if s.len() > 0 && s.last() == '/' {
        without_trailing_slashes(s.drop_last())
    } else {
        s
    }
}

fn trim_trailing_slashes(s: &str) -> (r: String)
    ensures
        r@ == without_trailing_slashes(s@),
{
    let chars = chars_of(s);
    let mut end: usize = chars.len();
    assert(s@.take(end as int) =~= s@);
    while end > 0 && chars[end - 1] == '/'
        invariant
            chars@ == s@,
            end <= chars.len(),
            without_trailing_slashes(s@) == without_trailing_slashes(s@.take(end as int)),
        decreases end,
    {
        assert(s@.take(end as int).drop_last() =~= s@.take(end - 1));
        end -= 1;
    }
    assert(s@.take(end as int) =~= s@.subrange(0, end as int));
    String::from_str(s.substring_char(0, end))
}

fn joined(base: &str, tail: &str) -> (r: String)
    ensures
        r@ == base@ + tail@,
{
    let mut out = String::from_str(base);
    out.append(tail);
    out
}

/// The directories that hold client logs, from the values of the
/// `LOCALAPPDATA` and `HOME` environment variables.
pub fn log_dirs(local_app_data: Option<String>, home: Option<String>) -> (r: Vec<String>)
    ensures
        r.deep_view() == (match local_app_data {
            Some(l) => seq![l@ + "\\Roblox\\logs"@],
            None => Seq::empty(),
        }) + (match home {
            Some(h) => seq![
                h@ + "/Library/Logs/Roblox"@,
                h@ + "/.var/app/org.vinegarhq.Sober/data/sober/logs"@,
            ],
            None => Seq::empty(),
        }),
{
    let mut out: Vec<String> = Vec::new();
    if let Some(l) = &local_app_data {
        out.push(joined(l.as_str(), "\\Roblox\\logs"));
    }
    if let Some(h) = &home {
        out.push(joined(h.as_str(), "/Library/Logs/Roblox"));
        out.push(joined(h.as_str(), "/.var/app/org.vinegarhq.Sober/data/sober/logs"));
    }
    proof {
        let a = match local_app_data {
            Some(l) => seq![l@ + "\\Roblox\\logs"@],
            None => Seq::<Seq<char>>::empty(),
        };
        let b = match home {
            Some(h) => seq![
                h@ + "/Library/Logs/Roblox"@,
                h@ + "/.var/app/org.vinegarhq.Sober/data/sober/logs"@,
            ],
            None => Seq::<Seq<char>>::empty(),
        };
        assert(out.deep_view() =~= a + b);
    }
    out
}

/// The directories that hold client caches, from the values of the `TEMP`,
/// `TMPDIR` and `HOME` environment variables.
pub fn cache_dirs(temp: Option<String>, tmpdir: Option<String>, home: Option<String>) -> (r: Vec<
    String,
>)
    ensures
        r.deep_view() == (match temp {
            Some(t) => seq![t@ + "\\Roblox"@],
            None => Seq::empty(),
        }) + (match tmpdir {
            Some(t) => seq![without_trailing_slashes(t@) + "/Roblox"@],
            None => Seq::empty(),
        }) + (match home {
            Some(h) => seq![h@ + "/Library/Caches/Roblox"@, h@ + "/.cache/sober"@],
            None => Seq::empty(),
        }),
{
    let mut out: Vec<String> = Vec::new();
    if let Some(t) = &temp {
        out.push(joined(t.as_str(), "\\Roblox"));
    }
    if let Some(t) = &tmpdir {
        let base = trim_trailing_slashes(t.as_str());
        out.push(joined(base.as_str(), "/Roblox"));
    }
    if let Some(h) = &home {
        out.push(joined(h.as_str(), "/Library/Caches/Roblox"));
        out.push(joined(h.as_str(), "/.cache/sober"));
    }
    proof {
        let a = match temp {
            Some(t) => seq![t@ + "\\Roblox"@],
            None => Seq::<Seq<char>>::empty(),
        };
        let b = match tmpdir {
            Some(t) => seq![without_trailing_slashes(t@) + "/Roblox"@],
            None => Seq::<Seq<char>>::empty(),
        };
        let c = match home {
            Some(h) => seq![h@ + "/Library/Caches/Roblox"@, h@ + "/.cache/sober"@],
            None => Seq::<Seq<char>>::empty(),
        };
        assert(out.deep_view() =~= a + b + c);
    }
    out
}

} // verus!
