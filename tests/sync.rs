use xivloader::addon::{AssetFile, FileRead};
use xivloader::sync::{
    AddonSync, AssetInfo, Changelog, Installation, SyncAction, SyncEvent, SyncPhase, VersionInfo,
};

fn version() -> VersionInfo {
    VersionInfo {
        key: String::new(),
        track: "release".to_string(),
        assembly_version: "9.0.0.1".to_string(),
        runtime_version: "8.0.0".to_string(),
        runtime_required: true,
        supported_game_ver: String::new(),
        is_applicable_for_current_game_ver: true,
        changelog: Changelog { date: String::new(), version: String::new(), changes: vec![] },
        download_url: "https://dl/host.zip".to_string(),
    }
}

fn assets(version: i32) -> AssetInfo {
    AssetInfo {
        version,
        package_url: "https://dl/assets.zip".to_string(),
        assets: vec![AssetFile { url: String::new(), file_name: "UIRes/a.png".to_string(), hash: None }],
    }
}

fn ok() -> SyncEvent {
    SyncEvent::StepDone(Ok(()))
}

#[test]
fn fresh_install_downloads_everything() {
    let (mut s, first) = AddonSync::start("R".to_string(), true);
    assert!(matches!(first, SyncAction::FetchVersionInfo { .. }));
    match s.next(SyncEvent::VersionFetched(Ok(version()))) {
        SyncAction::InspectInstallation { version_dir, manifest } => {
            assert_eq!(version_dir, "R/addon/Hooks/9.0.0.1");
            assert_eq!(manifest, "R/addon/Hooks/9.0.0.1/hashes.json");
        }
        _ => panic!("expected inspection"),
    }
    assert!(matches!(s.next(SyncEvent::Inspected(Installation::Absent)), SyncAction::FetchAssetInfo { .. }));
    assert!(s.needs_host_update);
    match s.next(SyncEvent::AssetsFetched(Ok(assets(5)))) {
        SyncAction::ReadText { path } => assert_eq!(path, "R/dalamudAssets/asset.ver"),
        _ => panic!("expected the asset version to be read"),
    }
    assert!(matches!(s.next(SyncEvent::TextRead(Some("4".to_string()))), SyncAction::CreateDirectories { .. }));
    assert!(s.needs_asset_update);
    match s.next(ok()) {
        SyncAction::Download { url, destination } => {
            assert_eq!(url, "https://dl/host.zip");
            assert_eq!(destination, "R/dalamud_temp.zip");
        }
        _ => panic!("expected the host download"),
    }
    assert!(matches!(s.next(ok()), SyncAction::Extract { ref destination, .. } if destination == "R/addon/Hooks/9.0.0.1"));
    assert!(matches!(s.next(ok()), SyncAction::WriteVersionMarker { ref path } if path == "R/addon/Hooks/9.0.0.1/version.json"));
    assert!(matches!(s.next(ok()), SyncAction::Download { ref url, .. } if url == "https://dl/assets.zip"));
    assert!(matches!(s.next(ok()), SyncAction::Extract { ref destination, .. } if destination == "R/dalamudAssets"));
    match s.next(ok()) {
        SyncAction::ReadFiles { paths } => assert_eq!(paths, vec!["R/dalamudAssets/UIRes/a.png".to_string()]),
        _ => panic!("expected the assets to be read"),
    }
    match s.next(SyncEvent::FilesRead(vec![FileRead::Contents(vec![1])])) {
        SyncAction::WriteText { path, contents } => {
            assert_eq!(path, "R/dalamudAssets/asset.ver");
            assert_eq!(contents, "5");
        }
        _ => panic!("expected the version to be recorded"),
    }
    match s.next(ok()) {
        SyncAction::CheckFiles { paths } => assert_eq!(
            paths,
            vec!["R/addon/Hooks/9.0.0.1/Dalamud.Injector.exe".to_string(), "R/addon/Hooks/9.0.0.1/FASMX64.DLL".to_string()]
        ),
        _ => panic!("expected the critical files to be checked"),
    }
    assert!(matches!(s.next(SyncEvent::FilesChecked(vec![true, true])), SyncAction::CheckFiles { .. }));
    match s.next(SyncEvent::FilesChecked(vec![true, false, false, false])) {
        SyncAction::CopyFiles { pairs } => assert_eq!(
            pairs,
            vec![("R/dalamudAssets/UIRes/FontAwesomeFreeSolid.otf".to_string(), "R/dalamudAssets/UIRes/FontAwesomeFreeSolid".to_string())]
        ),
        _ => panic!("expected font copies"),
    }
    assert!(matches!(s.next(SyncEvent::StepDone(Err("ignored".to_string()))), SyncAction::Finish(Ok(()))));
    assert_eq!(s.phase, SyncPhase::Finished);
}

#[test]
fn intact_install_with_current_assets_only_checks() {
    let (mut s, _) = AddonSync::start("R/addon".to_string(), false);
    s.next(SyncEvent::VersionFetched(Ok(version())));
    match s.next(SyncEvent::Inspected(Installation::Manifest(Ok(
        "{\"a.dll\":\"aaf4c61ddcc5e8a2dabede0f3b482cd9aea9434d\"}".to_string(),
    )))) {
        SyncAction::ReadFiles { paths } => assert_eq!(paths, vec!["R/addon/Hooks/9.0.0.1/a.dll".to_string()]),
        _ => panic!("expected the listed files to be read"),
    }
    s.next(SyncEvent::FilesRead(vec![FileRead::Contents(b"hello".to_vec())]));
    assert!(!s.needs_host_update);
    s.next(SyncEvent::AssetsFetched(Ok(assets(5))));
    match s.next(SyncEvent::TextRead(Some("5".to_string()))) {
        SyncAction::CheckFiles { paths } => assert_eq!(paths[1], "R/addon/Hooks/9.0.0.1/FASM.DLL"),
        _ => panic!("expected the critical files to be checked"),
    }
    match s.next(SyncEvent::FilesChecked(vec![false, true])) {
        SyncAction::Finish(Err(e)) => assert!(e.starts_with("Dalamud injector not found at R/addon/Hooks/9.0.0.1/Dalamud.Injector.exe")),
        _ => panic!("expected a failure"),
    }
}

#[test]
fn tampered_install_is_fetched_again() {
    let (mut s, _) = AddonSync::start("R".to_string(), true);
    s.next(SyncEvent::VersionFetched(Ok(version())));
    s.next(SyncEvent::Inspected(Installation::Manifest(Ok("{\"a.dll\":\"00\"}".to_string()))));
    s.next(SyncEvent::FilesRead(vec![FileRead::Contents(b"hello".to_vec())]));
    assert!(s.needs_host_update);
}

#[test]
fn failures_end_the_sync() {
    let (mut s, _) = AddonSync::start("R".to_string(), true);
    assert!(matches!(s.next(SyncEvent::VersionFetched(Err("offline".to_string()))), SyncAction::Finish(Err(ref e)) if e == "offline"));
    let (mut s, _) = AddonSync::start("R".to_string(), true);
    s.next(SyncEvent::VersionFetched(Ok(version())));
    assert!(matches!(
        s.next(SyncEvent::Inspected(Installation::Manifest(Err("denied".to_string())))),
        SyncAction::Finish(Err(ref e)) if e == "Failed to read hashes.json: denied"
    ));
}

#[test]
fn missing_support_library_is_fatal() {
    let (mut s, _) = AddonSync::start("R".to_string(), true);
    s.next(SyncEvent::VersionFetched(Ok(version())));
    s.next(SyncEvent::Inspected(Installation::Manifest(Ok("{}".to_string()))));
    s.next(SyncEvent::FilesRead(vec![]));
    assert!(!s.needs_host_update);
    s.next(SyncEvent::AssetsFetched(Ok(assets(1))));
    s.next(SyncEvent::TextRead(Some("1".to_string())));
    match s.next(SyncEvent::FilesChecked(vec![true, false])) {
        SyncAction::Finish(Err(e)) => assert_eq!(
            e,
            "FASM DLL not found at R/addon/Hooks/9.0.0.1/FASMX64.DLL. Please ensure Dalamud is properly installed."
        ),
        _ => panic!("expected a failure"),
    }
}
