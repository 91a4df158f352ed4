use nullstrap::cleaner::{cache_dirs, clean_kind, is_expired, log_dirs, CleanKind};
use nullstrap::error::InstallError;
use nullstrap::logs::{game_name, place_from_logs, place_in_log, LogFile};
use nullstrap::mods::{
    flags_saved_message, flags_source_url, is_texture_file, linux_flags_target, should_write_flags,
    sky_dir, takes_flags, LinuxFlagsTarget,
};
use nullstrap::process::{any_client_running, is_client_process};
use nullstrap::version::{parse_version_response, version_from_field};

#[test]
fn version_response_is_read() {
    let ok = "OK".to_string();
    assert_eq!(
        parse_version_response(200, ok.clone(), "{\"clientVersionUpload\":\"version-1a2b\"}"),
        Ok("version-1a2b".to_string())
    );
    let missing = parse_version_response(200, ok.clone(), "{\"clientVersionUpload\":5}").unwrap_err();
    assert_eq!(missing, InstallError::Parse { detail: None });
    assert_eq!(missing.message(), "Invalid version response");
    match parse_version_response(200, ok.clone(), "not json") {
        Err(InstallError::Parse { detail: Some(d) }) => assert!(d.contains("expected")),
        other => panic!("unexpected {:?}", other),
    }
    assert!(matches!(
        parse_version_response(200, ok.clone(), ""),
        Err(InstallError::Parse { detail: Some(_) })
    ));
    let not_found = parse_version_response(404, "404 Not Found".to_string(), "{\"clientVersionUpload\":\"v\"}")
        .unwrap_err();
    assert_eq!(
        not_found,
        InstallError::Network { status: 404, status_text: "404 Not Found".to_string() }
    );
    assert_eq!(not_found.message(), "Failed to fetch version info: Status 404 Not Found");
    assert_eq!(version_from_field(299, ok.clone(), Ok(Some("v".to_string()))), Ok("v".to_string()));
    assert_eq!(
        version_from_field(300, "300 Multiple Choices".to_string(), Ok(Some("v".to_string()))),
        Err(InstallError::Network { status: 300, status_text: "300 Multiple Choices".to_string() })
    );
    assert_eq!(version_from_field(200, ok.clone(), Ok(None)), Err(InstallError::Parse { detail: None }));
    assert_eq!(
        version_from_field(200, ok, Err("bad".to_string())),
        Err(InstallError::Parse { detail: Some("bad".to_string()) })
    );
}

#[test]
fn client_processes_are_recognised() {
    assert!(is_client_process("RobloxPlayerBeta.exe"));
    assert!(is_client_process("robloxstudio"));
    assert!(is_client_process("ROBLOXPLAYER helper"));
    assert!(!is_client_process("firefox"));
    assert!(!is_client_process(""));
    assert!(any_client_running(&vec!["bash".to_string(), "RobloxStudioBeta".to_string()]));
    assert!(!any_client_running(&vec!["bash".to_string()]));
}

#[test]
fn place_is_read_from_logs() {
    let log = "start\nJoining game 'x' place 123 at 1.2.3.4\nother\nJoining game 'y' place 456\nplace 999\n";
    assert_eq!(place_in_log(log), Some("456".to_string()));
    assert_eq!(place_in_log("place 5\n"), None);
    assert_eq!(place_in_log("Joining game without id\n"), None);
    let logs = vec![
        LogFile { modified: 10, content: "Joining game place 1\n".to_string() },
        LogFile { modified: 30, content: "nothing\n".to_string() },
        LogFile { modified: 20, content: "Joining game place 2\n".to_string() },
        LogFile { modified: 20, content: "Joining game place 3\n".to_string() },
    ];
    assert_eq!(place_from_logs(&logs), Some("2".to_string()));
    assert_eq!(place_from_logs(&Vec::new()), None);
    assert_eq!(game_name(None), "Unknown Game");
    assert_eq!(game_name(Some("77".to_string())), "77");
}

#[test]
fn cleaner_decisions() {
    assert_eq!(clean_kind("RobloxLogs"), Some(CleanKind::Logs));
    assert_eq!(clean_kind("RobloxCache"), Some(CleanKind::Cache));
    assert_eq!(clean_kind("Other"), None);
    assert!(!is_expired(86400, 0, 1));
    assert!(is_expired(86400, 1, 1));
    assert!(is_expired(1, 0, 0));
    assert!(!is_expired(0, 0, 0));
    assert_eq!(
        log_dirs(Some("C:\\L".to_string()), Some("/h".to_string())),
        vec![
            "C:\\L\\Roblox\\logs".to_string(),
            "/h/Library/Logs/Roblox".to_string(),
            "/h/.var/app/org.vinegarhq.Sober/data/sober/logs".to_string()
        ]
    );
    assert_eq!(
        cache_dirs(None, Some("/tmp//".to_string()), None),
        vec!["/tmp/Roblox".to_string()]
    );
    assert!(cache_dirs(None, None, None).is_empty());
}

#[test]
fn modification_decisions() {
    assert!(!should_write_flags(""));
    assert!(!should_write_flags("{}"));
    assert!(should_write_flags("{\"A\":1}"));
    assert!(is_texture_file("Sky512.TEX"));
    assert!(is_texture_file("a.png"));
    assert!(!is_texture_file("a.txt"));
    assert!(flags_source_url("studio").ends_with("PCStudioApp.json"));
    assert!(flags_source_url("player").ends_with("PCClientApp.json"));
    assert_eq!(linux_flags_target("studio"), LinuxFlagsTarget::VinegarFlags);
    assert_eq!(linux_flags_target("sober_main"), LinuxFlagsTarget::SoberSettings);
    assert_eq!(linux_flags_target("player"), LinuxFlagsTarget::SoberFlags);
    assert_eq!(flags_saved_message("studio", true), "Successfully saved Fast Flags to Roblox Studio installation.");
    assert_eq!(flags_saved_message("player", false), "No Roblox Player installation found to patch.");
    assert!(takes_flags("studio", false, true));
    assert!(!takes_flags("player", false, true));
    assert_eq!(sky_dir(), vec!["PlatformContent", "pc", "textures", "sky"]);
}

#[test]
fn every_error_has_a_message() {
    for e in [
        InstallError::Network { status: 500, status_text: "500 Internal Server Error".to_string() },
        InstallError::Request { detail: "connection refused".to_string() },
        InstallError::Parse { detail: None },
        InstallError::ArchiveCorrupt,
        InstallError::IoFailure,
        InstallError::Precondition,
        InstallError::Unsupported,
    ] {
        assert!(!e.message().is_empty());
    }
    assert_eq!(InstallError::Request { detail: "timed out".to_string() }.message(), "timed out");
    assert_eq!(
        InstallError::Precondition.message(),
        "Roblox or Roblox Studio is currently running. Please close it before updating."
    );
}
