use nullstrap::error::InstallError;
use nullstrap::install::{settings_document, strip_verbatim_prefix, Action, Event, Install};
use nullstrap::packages::{BinaryType, Os};
use nullstrap::store::{prune_plan, should_prune, Sibling};

fn sibling(name: &str, has_player: bool, has_studio: bool) -> Sibling {
    Sibling { name: name.to_string(), has_player, has_studio }
}

fn answer(version: &str) -> Event {
    Event::VersionAnswer {
        status: 200,
        status_text: "200 OK".to_string(),
        body: format!("{{\"version\":\"0.1\",\"clientVersionUpload\":\"{}\"}}", version),
    }
}

/// Drives an install up to the executable check.
fn up_to_executable_check(install: &mut Install, version: &str) -> Action {
    assert!(matches!(install.step(answer(version)), Action::CheckRunning));
    assert!(matches!(install.step(Event::Running(false)), Action::ListVersions));
    assert!(matches!(install.step(Event::Versions(Vec::new())), Action::RemoveVersions { .. }));
    install.step(Event::Removed)
}

#[test]
fn end_to_end_with_fallback_then_repair_only() {
    let (mut install, first) = Install::new(BinaryType::WindowsPlayer, Os::Windows);
    match first {
        Action::FetchVersion { url } => {
            assert_eq!(url, "https://clientsettings.roblox.com/v2/client-version/WindowsPlayer")
        }
        _ => panic!("expected a version request"),
    }
    match up_to_executable_check(&mut install, "0.1.2.3") {
        Action::CheckExecutable { path } => {
            assert_eq!(path, vec!["0.1.2.3".to_string(), "RobloxPlayerBeta.exe".to_string()])
        }
        _ => panic!("expected an executable check"),
    }
    match install.step(Event::Executable(false)) {
        Action::FetchManifests { version, urls, percent, .. } => {
            assert_eq!(version, "0.1.2.3");
            assert_eq!(urls[0], "https://setup.rbxcdn.com/0.1.2.3-rbxPkgManifest.txt");
            assert_eq!(urls[1], "https://setup.rbxcdn.com/0.1.2.3-rbxManifest.txt");
            assert_eq!(percent, 0);
        }
        _ => panic!("expected manifests"),
    }
    let mut action = install.step(Event::Manifest(Some(Vec::new())));
    let mut downloads: Vec<(String, String, String, u64)> = Vec::new();
    loop {
        match action {
            Action::Download { package, url, target, percent } => {
                downloads.push((package, url, target, percent));
                action = install.step(Event::PackageDone);
            }
            Action::Finalize { version, settings, client_settings, percent } => {
                assert_eq!(version, "0.1.2.3");
                assert!(settings);
                assert!(client_settings);
                assert_eq!(percent, 100);
                break;
            }
            _ => panic!("unexpected action"),
        }
    }
    assert_eq!(downloads.len(), 20);
    assert_eq!(downloads[0].0, "RobloxApp.zip");
    assert_eq!(downloads[0].1, "https://setup.rbxcdn.com/0.1.2.3-RobloxApp.zip");
    assert_eq!(downloads[0].2, "");
    assert_eq!(downloads[0].3, 5);
    assert_eq!(downloads[2].0, "ssl.zip");
    assert_eq!(downloads[2].2, "ssl");
    assert_eq!(downloads[19].3, 100);
    for w in downloads.windows(2) {
        assert!(w[0].3 <= w[1].3);
    }
    match install.step(Event::Written) {
        Action::Finished { executable } => {
            assert_eq!(executable, vec!["0.1.2.3".to_string(), "RobloxPlayerBeta.exe".to_string()])
        }
        _ => panic!("expected the end"),
    }
    assert!(matches!(install.step(Event::PackageDone), Action::Ignore));

    // A second run for the same version finds the executable and only repairs.
    let (mut again, _) = Install::new(BinaryType::WindowsPlayer, Os::Windows);
    assert!(matches!(up_to_executable_check(&mut again, "0.1.2.3"), Action::CheckExecutable { .. }));
    match again.step(Event::Executable(true)) {
        Action::RepairSettings { version, percent } => {
            assert_eq!(version, "0.1.2.3");
            assert_eq!(percent, 100);
        }
        _ => panic!("expected a repair"),
    }
    match again.step(Event::Written) {
        Action::Finished { executable } => {
            assert_eq!(executable, vec!["0.1.2.3".to_string(), "RobloxPlayerBeta.exe".to_string()])
        }
        _ => panic!("expected the same executable"),
    }
    assert!(matches!(again.step(Event::Manifest(None)), Action::Ignore));
}

#[test]
fn manifest_packages_are_used_and_runtime_installer_skipped() {
    let (mut install, _) = Install::new(BinaryType::WindowsStudio64, Os::Windows);
    up_to_executable_check(&mut install, "v1");
    install.step(Event::Executable(false));
    let manifest = b"v0\nRobloxStudio.zip\na\n1\n2\nWebView2RuntimeInstaller.zip\nb\n3\n4\nshaders.zip\nc\n5\n6\nssl.zip\n".to_vec();
    let mut percents = Vec::new();
    let mut packages = Vec::new();
    let mut action = install.step(Event::Manifest(Some(manifest)));
    loop {
        match action {
            Action::Download { package, percent, .. } => {
                packages.push(package);
                percents.push(percent);
                action = install.step(Event::PackageDone);
            }
            Action::Finalize { client_settings, percent, .. } => {
                assert!(!client_settings);
                percents.push(percent);
                break;
            }
            _ => panic!("unexpected action"),
        }
    }
    assert_eq!(packages, vec!["RobloxStudio.zip", "shaders.zip", "ssl.zip"]);
    assert_eq!(percents, vec![25, 75, 100, 100]);
}

#[test]
fn running_client_stops_the_install() {
    let (mut install, _) = Install::new(BinaryType::WindowsPlayer, Os::Windows);
    assert!(matches!(install.step(answer("v2")), Action::CheckRunning));
    match install.step(Event::Running(true)) {
        Action::Fail { error } => assert_eq!(error, InstallError::Precondition),
        _ => panic!("expected a failure"),
    }
    assert!(matches!(install.step(Event::Running(false)), Action::Ignore));
}

#[test]
fn version_failures_are_fatal() {
    let (mut install, _) = Install::new(BinaryType::WindowsPlayer, Os::Windows);
    match install.step(Event::VersionAnswer {
        status: 503,
        status_text: "503 Service Unavailable".to_string(),
        body: String::new(),
    }) {
        Action::Fail { error } => {
            assert_eq!(error.message(), "Failed to fetch version info: Status 503 Service Unavailable")
        }
        _ => panic!("expected a failure"),
    }
    let (mut second, _) = Install::new(BinaryType::WindowsPlayer, Os::Windows);
    match second.step(Event::VersionAnswer {
        status: 200,
        status_text: "200 OK".to_string(),
        body: "{}".to_string(),
    }) {
        Action::Fail { error } => assert_eq!(error, InstallError::Parse { detail: None }),
        _ => panic!("expected a failure"),
    }
    let (mut third, _) = Install::new(BinaryType::WindowsPlayer, Os::Windows);
    match third.step(Event::RequestFailed { detail: "dns error".to_string() }) {
        Action::Fail { error } => {
            assert_eq!(error, InstallError::Request { detail: "dns error".to_string() })
        }
        _ => panic!("expected a failure"),
    }
}

#[test]
fn studio_is_unsupported_on_mac() {
    let (_, first) = Install::new(BinaryType::MacStudio, Os::Mac);
    match first {
        Action::Fail { error } => assert_eq!(error, InstallError::Unsupported),
        _ => panic!("expected a failure"),
    }
}

#[test]
fn empty_package_list_finishes_at_once() {
    let (mut install, _) = Install::new(BinaryType::WindowsPlayer, Os::Linux);
    up_to_executable_check(&mut install, "v3");
    install.step(Event::Executable(false));
    match install.step(Event::Manifest(None)) {
        Action::Finalize { settings, percent, .. } => {
            assert!(!settings);
            assert_eq!(percent, 100);
        }
        _ => panic!("expected finalize"),
    }
}

#[test]
fn prune_spares_the_other_family() {
    let siblings = vec![
        sibling("old-player", true, false),
        sibling("studio-install", false, true),
        sibling("current", true, false),
        sibling("orphan", false, false),
    ];
    assert_eq!(prune_plan(&siblings, "current", BinaryType::WindowsPlayer), vec!["old-player", "orphan"]);
    assert_eq!(
        prune_plan(&siblings, "current", BinaryType::WindowsStudio64),
        vec!["studio-install", "orphan"]
    );
    assert!(!should_prune(&sibling("current", false, false), "current", BinaryType::WindowsPlayer));
    assert!(should_prune(&sibling("both", true, true), "current", BinaryType::WindowsStudio));
}

#[test]
fn fresh_store_is_incomplete() {
    let siblings = vec![sibling("older", true, false)];
    let (mut install, _) = Install::new(BinaryType::WindowsPlayer, Os::Windows);
    assert!(matches!(install.step(answer("newer")), Action::CheckRunning));
    assert!(matches!(install.step(Event::Running(false)), Action::ListVersions));
    match install.step(Event::Versions(siblings)) {
        Action::RemoveVersions { names } => assert_eq!(names, vec!["older"]),
        _ => panic!("expected removal"),
    }
}

#[test]
fn settings_and_paths() {
    assert!(settings_document().contains("<ContentFolder>content</ContentFolder>"));
    assert_eq!(strip_verbatim_prefix("\\\\?\\C:\\x\\a.exe"), "C:\\x\\a.exe");
    assert_eq!(strip_verbatim_prefix("/home/a"), "/home/a");
}

#[test]
fn second_prune_removes_nothing() {
    let siblings = vec![
        sibling("old-player", true, false),
        sibling("studio-install", false, true),
        sibling("current", true, false),
        sibling("orphan", false, false),
    ];
    let removed = prune_plan(&siblings, "current", BinaryType::WindowsPlayer);
    let kept: Vec<Sibling> = siblings
        .into_iter()
        .filter(|s| !removed.contains(&s.name))
        .collect();
    assert_eq!(kept.len(), 2);
    assert!(prune_plan(&kept, "current", BinaryType::WindowsPlayer).is_empty());
}
