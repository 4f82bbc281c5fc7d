use xivloader::launch::LaunchConfig;
use xivloader::orchestrator::{HttpFailure, Launch, LaunchAction, LaunchEvent, Stage};

fn config(enable_dalamud: bool) -> LaunchConfig {
    LaunchConfig {
        game_path: "C:/Game".to_string(),
        username: "user".to_string(),
        password: "pw".to_string(),
        otp: None,
        dx11: true,
        language: 1,
        region: 3,
        expansion_level: 4,
        is_steam: false,
        dpi_awareness: "Aware".to_string(),
        additional_launch_args: String::new(),
        enable_dalamud,
        dalamud_path: "C:/XL".to_string(),
        injection_delay: 5000,
    }
}

const LANDING: &str = "<form>\n<input type=\"hidden\" name=\"_STORED_\" value=\"abc123\">\n</form>";

fn through_login(launch: &mut Launch, reply: &str) -> LaunchAction {
    match launch.next(LaunchEvent::PathChecked { exists: true, now_ns: 1_000 }) {
        LaunchAction::FetchLanding { url, user_agent, timeout_secs } => {
            assert!(url.ends_with("issteam=0"));
            assert_eq!(user_agent, "UA");
            assert_eq!(timeout_secs, 30);
        }
        _ => panic!("expected the landing page fetch"),
    }
    match launch.next(LaunchEvent::LandingFetched { body: Ok(LANDING.to_string()), now_ns: 2_000 }) {
        LaunchAction::SubmitLogin { body, timeout_secs, referer, .. } => {
            assert_eq!(body, "_STORED_=abc123&sqexid=user&password=pw&otppw=");
            assert_eq!(timeout_secs, 200);
            assert!(referer.ends_with("issteam=0"));
        }
        _ => panic!("expected the login submission"),
    }
    match launch.next(LaunchEvent::LoginAnswered { body: Ok(reply.to_string()), now_ns: 5_000 }) {
        LaunchAction::ReportTime => launch.next(LaunchEvent::TimeReported { now_ns: 5_500 }),
        other => other,
    }
}

#[test]
fn direct_launch_reaches_done_with_five_timings() {
    let (mut launch, first) = Launch::start(config(false), "UA".to_string(), 0);
    assert!(matches!(first, LaunchAction::CheckGamePath { ref executable } if executable == "C:/Game/game/ffxiv_dx11.exe"));
    match through_login(&mut launch, "x,sid,XYZ-TOKEN,terms,y") {
        LaunchAction::StartGame { executable, arguments, environment } => {
            assert_eq!(executable, "C:/Game/game/ffxiv_dx11.exe");
            assert!(environment.is_empty());
            assert_eq!(
                arguments,
                "DEV.DataPathType=1 DEV.MaxEntitledExpansionID=4 DEV.TestSID=XYZ-TOKEN DEV.UseSqPack=1 SYS.Region=3 language=1"
            );
        }
        _ => panic!("expected the game to start"),
    }
    match launch.next(LaunchEvent::GameStarted { process: Ok(1234), now_ns: 9_000 }) {
        LaunchAction::Finish(Ok(summary)) => {
            assert!(summary.contains("launched successfully"));
            let lines: Vec<&str> = summary.lines().skip(1).collect();
            assert_eq!(lines.len(), 5);
            assert!(lines[0].starts_with("Path preparation: "));
            assert!(lines[1].starts_with("Session ID retrieval: "));
            assert_eq!(lines[2], "Arguments preparation: 500.00ns");
            assert!(lines[3].starts_with("Game process creation: "));
            assert_eq!(lines[4], "Total launch time: 9.00µs");
        }
        _ => panic!("expected success"),
    }
    assert_eq!(launch.stage, Stage::Done);
    assert!(matches!(launch.next(LaunchEvent::PathChecked { exists: true, now_ns: 10_000 }), LaunchAction::Ignore));
}

#[test]
fn missing_session_id_fails_before_any_process() {
    let (mut launch, _) = Launch::start(config(false), "UA".to_string(), 0);
    match through_login(&mut launch, "<html>login failed</html>") {
        LaunchAction::Finish(Err(e)) => {
            assert_eq!(e, "Failed to get session ID: Failed to extract session ID")
        }
        _ => panic!("expected a failure"),
    }
    assert_eq!(launch.stage, Stage::Failed);
    assert!(matches!(
        launch.next(LaunchEvent::GameStarted { process: Ok(1), now_ns: 6_000 }),
        LaunchAction::Ignore
    ));
}

#[test]
fn missing_game_executable_fails() {
    let (mut launch, _) = Launch::start(config(false), "UA".to_string(), 0);
    match launch.next(LaunchEvent::PathChecked { exists: false, now_ns: 1 }) {
        LaunchAction::Finish(Err(e)) => {
            assert_eq!(e, "Game executable not found at C:/Game/game/ffxiv_dx11.exe")
        }
        _ => panic!("expected a failure"),
    }
}

#[test]
fn landing_page_errors() {
    let (mut launch, _) = Launch::start(config(false), "UA".to_string(), 0);
    launch.next(LaunchEvent::PathChecked { exists: true, now_ns: 1 });
    match launch.next(LaunchEvent::LandingFetched { body: Ok("<p>".to_string()), now_ns: 2 }) {
        LaunchAction::Finish(Err(e)) => {
            assert_eq!(e, "Failed to get session ID: Could not find _STORED_ value")
        }
        _ => panic!("expected a failure"),
    }
    let (mut launch, _) = Launch::start(config(false), "UA".to_string(), 0);
    launch.next(LaunchEvent::PathChecked { exists: true, now_ns: 1 });
    match launch.next(LaunchEvent::LandingFetched {
        body: Err(HttpFailure::Send("dns".to_string())),
        now_ns: 2,
    }) {
        LaunchAction::Finish(Err(e)) => {
            assert_eq!(e, "Failed to get session ID: Failed to get stored value: dns")
        }
        _ => panic!("expected a failure"),
    }
}

#[test]
fn addon_launch_syncs_first_and_injects() {
    let (mut launch, first) = Launch::start(config(true), "UA".to_string(), 0);
    assert!(matches!(first, LaunchAction::SyncAddon));
    assert!(matches!(
        launch.next(LaunchEvent::AddonSynced { result: Ok(()), now_ns: 500 }),
        LaunchAction::CheckGamePath { .. }
    ));
    match through_login(&mut launch, "sid,S1,terms") {
        LaunchAction::Inject { arguments, .. } => assert!(arguments.contains("DEV.TestSID=S1 ")),
        _ => panic!("expected injection"),
    }
    match launch.next(LaunchEvent::Injected { result: Ok(()), now_ns: 8_000 }) {
        LaunchAction::Finish(Ok(summary)) => {
            assert_eq!(summary.lines().count(), 7);
            assert!(summary.contains("Dalamud setup: "));
            assert!(summary.contains("Dalamud injection and launch: "));
        }
        _ => panic!("expected success"),
    }
}

#[test]
fn addon_failure_stops_the_launch() {
    let (mut launch, _) = Launch::start(config(true), "UA".to_string(), 0);
    match launch.next(LaunchEvent::AddonSynced { result: Err("offline".to_string()), now_ns: 1 }) {
        LaunchAction::Finish(Err(e)) => assert_eq!(e, "Dalamud setup failed: offline"),
        _ => panic!("expected a failure"),
    }
}

#[test]
fn landing_page_status_failure() {
    let (mut launch, _) = Launch::start(config(false), "UA".to_string(), 0);
    launch.next(LaunchEvent::PathChecked { exists: true, now_ns: 1 });
    match launch.next(LaunchEvent::LandingFetched { body: Err(HttpFailure::Status(503)), now_ns: 2 }) {
        LaunchAction::Finish(Err(e)) => {
            assert_eq!(e, "Failed to get session ID: Failed to get stored value: HTTP status 503")
        }
        _ => panic!("expected a failure"),
    }
}

#[test]
fn login_transport_failure() {
    let (mut launch, _) = Launch::start(config(false), "UA".to_string(), 0);
    launch.next(LaunchEvent::PathChecked { exists: true, now_ns: 1 });
    launch.next(LaunchEvent::LandingFetched { body: Ok(LANDING.to_string()), now_ns: 2 });
    match launch.next(LaunchEvent::LoginAnswered { body: Err(HttpFailure::Read("reset".to_string())), now_ns: 3 }) {
        LaunchAction::Finish(Err(e)) => {
            assert_eq!(e, "Failed to get session ID: Failed to read response: reset")
        }
        _ => panic!("expected a failure"),
    }
}

#[test]
fn game_start_failure() {
    let (mut launch, _) = Launch::start(config(false), "UA".to_string(), 0);
    through_login(&mut launch, "sid,T,terms");
    match launch.next(LaunchEvent::GameStarted { process: Err("Failed to create process: denied".to_string()), now_ns: 9 }) {
        LaunchAction::Finish(Err(e)) => assert_eq!(e, "Failed to launch game: Failed to create process: denied"),
        _ => panic!("expected a failure"),
    }
    assert_eq!(launch.stage, Stage::Failed);
}

#[test]
fn storefront_marker_reaches_the_game() {
    let mut c = config(false);
    c.is_steam = true;
    let (mut launch, _) = Launch::start(c, "UA".to_string(), 0);
    launch.next(LaunchEvent::PathChecked { exists: true, now_ns: 1 });
    launch.next(LaunchEvent::LandingFetched { body: Ok(LANDING.to_string()), now_ns: 2 });
    assert!(matches!(
        launch.next(LaunchEvent::LoginAnswered { body: Ok("sid,Q,terms".to_string()), now_ns: 3 }),
        LaunchAction::ReportTime
    ));
    match launch.next(LaunchEvent::TimeReported { now_ns: 4 }) {
        LaunchAction::StartGame { arguments, environment, .. } => {
            assert_eq!(environment, vec![("IS_FFXIV_LAUNCH_FROM_STEAM".to_string(), "1".to_string())]);
            assert!(arguments.contains("DEV.TestSID=Q "));
        }
        _ => panic!("expected the game to start"),
    }
}
