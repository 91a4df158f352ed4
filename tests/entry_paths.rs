use nullstrap::entry_path::{is_safe, path_components, resolve_entry};

fn comps(v: &[&str]) -> Vec<String> {
    v.iter().map(|s| s.to_string()).collect()
}

#[test]
fn components_drop_empty_and_dot() {
    assert_eq!(path_components("a//b/./c/"), comps(&["a", "b", "c"]));
    assert_eq!(path_components("a\\b"), comps(&["a", "b"]));
    assert_eq!(path_components(""), comps(&[]));
    assert_eq!(path_components("/"), comps(&[]));
    assert_eq!(path_components("../x"), comps(&["..", "x"]));
}

#[test]
fn rooted_entry_loses_its_root() {
    assert_eq!(resolve_entry("shaders/a.bin", "shaders"), Some(comps(&["shaders", "a.bin"])));
}

#[test]
fn rooted_entry_matches_ignoring_case() {
    assert_eq!(resolve_entry("SHADERS/sub/a.bin", "shaders"), Some(comps(&["shaders", "sub", "a.bin"])));
    assert_eq!(
        resolve_entry("RobloxPlayer.app/Contents/MacOS/RobloxPlayer", "RobloxPlayer.app"),
        Some(comps(&["RobloxPlayer.app", "Contents", "MacOS", "RobloxPlayer"]))
    );
}

#[test]
fn unrooted_entry_is_kept_below_target() {
    assert_eq!(resolve_entry("a.bin", "shaders"), Some(comps(&["shaders", "a.bin"])));
    assert_eq!(
        resolve_entry("ui/button.png", "content/textures"),
        Some(comps(&["content", "textures", "ui", "button.png"]))
    );
}

#[test]
fn partial_prefix_is_stripped() {
    assert_eq!(
        resolve_entry("content/fonts/a.ttf", "content/sky"),
        Some(comps(&["content", "sky", "fonts", "a.ttf"]))
    );
    assert_eq!(
        resolve_entry("PlatformContent/pc/textures/a.dds", "PlatformContent/pc/textures"),
        Some(comps(&["PlatformContent", "pc", "textures", "a.dds"]))
    );
}

#[test]
fn root_target_keeps_entry() {
    assert_eq!(resolve_entry("RobloxPlayerBeta.exe", ""), Some(comps(&["RobloxPlayerBeta.exe"])));
}

#[test]
fn directory_entries_are_skipped() {
    assert_eq!(resolve_entry("content/", ""), None);
    assert_eq!(resolve_entry("shaders/", "shaders"), None);
}

#[test]
fn entry_that_is_only_the_target_is_skipped() {
    assert_eq!(resolve_entry("shaders", "shaders"), None);
    assert_eq!(resolve_entry("", "ssl"), None);
}

#[test]
fn traversal_is_refused() {
    assert_eq!(resolve_entry("../evil.dll", "shaders"), None);
    assert_eq!(resolve_entry("a/../../evil.dll", ""), None);
    assert_eq!(resolve_entry("..\\evil.dll", "ssl"), None);
    assert_eq!(resolve_entry("C:/Windows/evil.dll", ""), None);
    assert_eq!(resolve_entry("ok.txt", "../outside"), None);
}

#[test]
fn absolute_entry_stays_inside() {
    assert_eq!(resolve_entry("/etc/passwd", "ssl"), Some(comps(&["ssl", "etc", "passwd"])));
}

#[test]
fn safe_component_check() {
    assert!(is_safe("abc"));
    assert!(is_safe("..."));
    assert!(!is_safe(".."));
    assert!(!is_safe("C:"));
}

#[test]
fn entry_rooted_at_target_leaf_loses_it() {
    assert_eq!(
        resolve_entry("textures/x.dds", "content/textures"),
        Some(comps(&["content", "textures", "x.dds"]))
    );
    assert_eq!(
        resolve_entry("Sky/x.tex", "content/sky"),
        Some(comps(&["content", "sky", "x.tex"]))
    );
    assert_eq!(
        resolve_entry("Shaders/d3d11/a.bin", "shaders"),
        Some(comps(&["shaders", "d3d11", "a.bin"]))
    );
}
