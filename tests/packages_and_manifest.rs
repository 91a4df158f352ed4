use nullstrap::manifest::{choose_packages, lines_of, parse_manifest, parse_manifest_bytes};
use nullstrap::packages::{
    fallback_packages, target_subpath, version_endpoint, version_file_url, BinaryType, Os,
};

fn strings(v: &[&str]) -> Vec<String> {
    v.iter().map(|s| s.to_string()).collect()
}

#[test]
fn package_table_lookups() {
    assert_eq!(target_subpath("RobloxApp.zip"), "");
    assert_eq!(target_subpath("shaders.zip"), "shaders");
    assert_eq!(target_subpath("content-textures2.zip"), "content/textures");
    assert_eq!(target_subpath("content-textures3.zip"), "PlatformContent/pc/textures");
    assert_eq!(
        target_subpath("content-platform-dictionaries.zip"),
        "PlatformContent/pc/shared_compression_dictionaries"
    );
    assert_eq!(target_subpath("Plugins.zip"), "plugins");
    assert_eq!(target_subpath("RobloxPlayer.zip"), "RobloxPlayer.app");
}

#[test]
fn unknown_package_goes_to_root() {
    assert_eq!(target_subpath("brand-new-package.zip"), "");
    assert_eq!(target_subpath(""), "");
}

#[test]
fn fallback_lists() {
    let player = fallback_packages(Os::Windows, BinaryType::WindowsPlayer);
    assert_eq!(player.len(), 20);
    assert_eq!(player[0], "RobloxApp.zip");
    let studio = fallback_packages(Os::Windows, BinaryType::WindowsStudio64);
    assert_eq!(studio.len(), 34);
    assert_eq!(studio[0], "RobloxStudio.zip");
    assert_eq!(fallback_packages(Os::Mac, BinaryType::MacPlayer), vec!["RobloxPlayer.zip"]);
    assert!(fallback_packages(Os::Linux, BinaryType::WindowsPlayer).is_empty());
}

#[test]
fn binary_type_names() {
    assert_eq!(BinaryType::WindowsStudio64.wire_name(), "WindowsStudio64");
    assert_eq!(BinaryType::from_wire("MacPlayer"), Some(BinaryType::MacPlayer));
    assert_eq!(BinaryType::from_wire("Linux"), None);
    assert!(BinaryType::MacStudio.is_studio());
    assert!(!BinaryType::WindowsPlayer.is_studio());
    assert_eq!(BinaryType::WindowsStudio.executable_path(), "RobloxStudioBeta.exe");
    assert_eq!(
        BinaryType::MacPlayer.executable_path(),
        "RobloxPlayer.app/Contents/MacOS/RobloxPlayer"
    );
}

#[test]
fn urls() {
    assert_eq!(
        version_endpoint(BinaryType::WindowsPlayer),
        "https://clientsettings.roblox.com/v2/client-version/WindowsPlayer"
    );
    assert_eq!(
        version_file_url(BinaryType::WindowsPlayer, "version-abc", "ssl.zip"),
        "https://setup.rbxcdn.com/version-abc-ssl.zip"
    );
    assert_eq!(
        version_file_url(BinaryType::MacPlayer, "version-abc", "RobloxPlayer.zip"),
        "https://setup.rbxcdn.com/mac/version-abc-RobloxPlayer.zip"
    );
}

#[test]
fn lines_follow_newlines() {
    assert_eq!(lines_of("a\r\nb\nc"), strings(&["a", "b", "c"]));
    assert_eq!(lines_of("a\n"), strings(&["a"]));
    assert_eq!(lines_of("\n\n"), strings(&["", ""]));
    assert_eq!(lines_of(""), strings(&[]));
}

#[test]
fn manifest_every_fourth_line() {
    let text = "v0\nRobloxApp.zip\nhash1\n10\n20\nssl.zip\nhash2\n30\n40\n";
    assert_eq!(parse_manifest(text), strings(&["RobloxApp.zip", "ssl.zip"]));
    let crlf = "v0\r\nRobloxApp.zip\r\nh\r\n1\r\n2\r\nshaders.zip\r\n";
    assert_eq!(parse_manifest(crlf), strings(&["RobloxApp.zip", "shaders.zip"]));
}

#[test]
fn manifest_without_marker_lists_nothing() {
    assert!(parse_manifest("v1\nRobloxApp.zip\n").is_empty());
    assert!(parse_manifest("").is_empty());
    assert!(parse_manifest("v0").is_empty());
}

#[test]
fn manifest_bytes_are_decoded() {
    let bytes = b"v0\nRobloxApp.zip\nx\n1\n2\n".to_vec();
    assert_eq!(parse_manifest_bytes(&bytes), strings(&["RobloxApp.zip"]));
    let bad = vec![b'v', b'0', b'\n', 0xff, b'.', b'z', b'i', b'p'];
    assert_eq!(parse_manifest_bytes(&bad), strings(&["\u{fffd}.zip"]));
}

#[test]
fn empty_manifest_falls_back() {
    let chosen = choose_packages(Vec::new(), Os::Windows, BinaryType::WindowsPlayer);
    assert_eq!(chosen.len(), 20);
    assert_eq!(chosen[1], "WebView2.zip");
    let listed = strings(&["a.zip"]);
    assert_eq!(choose_packages(listed.clone(), Os::Windows, BinaryType::WindowsPlayer), listed);
}
