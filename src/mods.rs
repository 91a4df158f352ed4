//! Decisions behind the user's modifications of an installation: feature
//! flag overrides and sky textures.

use vstd::prelude::*;
use crate::text::{same_text, lowercase, lower_of, ends_with_text};

verus! {

/// Whether `s` ends with `suffix`.
pub open spec fn has_suffix(s: Seq<char>, suffix: Seq<char>) -> bool {
    suffix.len() <= s.len() && s.subrange(s.len() - suffix.len(), s.len() as int) == suffix
}

/// Whether a flags document holds anything to write: it is neither empty
/// nor the empty object `{}`.
pub fn should_write_flags(flags_json: &str) -> (r: bool)
    ensures
        r == (flags_json@.len() > 0 && flags_json@ != "{}"@),
{
    let empty = flags_json.unicode_len() == 0;
    !empty && !same_text(flags_json, "{}")
}

/// Whether a file is a sky texture, by its name's extension in any case.
pub fn is_texture_file(name: &str) -> (r: bool)
    ensures
        r == (has_suffix(lower_of(name@), ".tex"@) || has_suffix(lower_of(name@), ".png"@)
            || has_suffix(lower_of(name@), ".jpg"@)),
{
    let lower = lowercase(name);
    ends_with_text(lower.as_str(), ".tex") || ends_with_text(lower.as_str(), ".png")
        || ends_with_text(lower.as_str(), ".jpg")
}

/// Whether the flags mode `mode` addresses the studio (else the player).
pub fn mode_is_studio(mode: &str) -> (r: bool)
    ensures
        r == (mode@ == "studio"@),
{
    same_text(mode, "studio")
}

/// Where the published flag list for a mode is found.
pub fn flags_source_url(mode: &str) -> (r: &'static str)
    ensures
        r@ == if mode@ == "studio"@ {
            "https://raw.githubusercontent.com/MaximumADHD/Roblox-FFlag-Tracker/main/PCStudioApp.json"@
        } else {
            "https://raw.githubusercontent.com/MaximumADHD/Roblox-FFlag-Tracker/main/PCClientApp.json"@
        },
{
    if mode_is_studio(mode) {
        "https://raw.githubusercontent.com/MaximumADHD/Roblox-FFlag-Tracker/main/PCStudioApp.json"
    } else {
        "https://raw.githubusercontent.com/MaximumADHD/Roblox-FFlag-Tracker/main/PCClientApp.json"
    }
}

/// The configuration that flags go to on Linux, where the clients run
/// through other launchers.
#[derive(Clone, Copy, Debug, PartialEq, Eq, Structural)]
pub enum LinuxFlagsTarget {
    /// The `fflags` table of the studio launcher's TOML configuration.
    VinegarFlags,
    /// The top-level settings of the player launcher's JSON configuration.
    SoberSettings,
    /// The `fflags` entry of the player launcher's JSON configuration.
    SoberFlags,
}

/// Where flags of mode `mode` are saved on Linux.
pub fn linux_flags_target(mode: &str) -> (r: LinuxFlagsTarget)
    ensures
        r == if mode@ == "studio"@ {
            LinuxFlagsTarget::VinegarFlags
        } else if mode@ == "sober_main"@ {
            LinuxFlagsTarget::SoberSettings
        } else {
            LinuxFlagsTarget::SoberFlags
        },
{
    if same_text(mode, "studio") {
        LinuxFlagsTarget::VinegarFlags
    } else if same_text(mode, "sober_main") {
        LinuxFlagsTarget::SoberSettings
    } else {
        LinuxFlagsTarget::SoberFlags
    }
}

/// The product a flags mode addresses, as shown to the user.
pub fn product_label(mode: &str) -> (r: &'static str)
    ensures
        r@ == if mode@ == "studio"@ {
            "Roblox Studio"@
        } else {
            "Roblox Player"@
        },
{
    if mode_is_studio(mode) {
        "Roblox Studio"
    } else {
        "Roblox Player"
    }
}

/// The report after saving flags on Windows.
pub fn flags_saved_message(mode: &str, saved_any: bool) -> (r: String)
    ensures
        r@ == if saved_any {
            "Successfully saved Fast Flags to "@ + (if mode@ == "studio"@ {
                "Roblox Studio"@
            } else {
                "Roblox Player"@
            }) + " installation."@
        } else {
            "No "@ + (if mode@ == "studio"@ {
                "Roblox Studio"@
            } else {
                "Roblox Player"@
            }) + " installation found to patch."@
        },
{
    let label = product_label(mode);
    if saved_any {
        let mut out = String::from_str("Successfully saved Fast Flags to ");
        out.append(label);
        out.append(" installation.");
        out
    } else {
        let mut out = String::from_str("No ");
        out.append(label);
        out.append(" installation found to patch.");
        out
    }
}

/// Whether the flags of mode `mode` go to an installation holding the
/// player (`has_player`) and studio (`has_studio`) executables.
pub fn takes_flags(mode: &str, has_player: bool, has_studio: bool) -> (r: bool)
    ensures
        r == if mode@ == "studio"@ {
            has_studio
        } else {
            has_player
        },
{
    if mode_is_studio(mode) {
        has_studio
    } else {
        has_player
    }
}

/// The sky texture directory, relative to a version directory.
pub fn sky_dir() -> (r: Vec<&'static str>)
    ensures
        r.deep_view() == seq!["PlatformContent"@, "pc"@, "textures"@, "sky"@],
{
    let v = vec!["PlatformContent", "pc", "textures", "sky"];
    assert(v.deep_view() =~= seq!["PlatformContent"@, "pc"@, "textures"@, "sky"@]);
    v
}

} // verus!
