use xivloader::console::{boot_files, boot_hashes, generate_hash, launch_error_message, password_key, KeyEcho};
use xivloader::addon::FileRead;
use xivloader::injector::{encode_start_info, injector_arguments, injector_environment, start_info, StartInfo};
use xivloader::launch::{
    default_dpi_awareness, default_dx11, default_expansion_level, default_injection_delay,
    default_language, default_region, game_executable, game_version_file, launch_arguments,
    launch_environment, LaunchConfig,
};
use xivloader::news::{banner_url, feed_language, headline_url, normalize_order, StringOrNumber};
use xivloader::text::{decimal_string, parse_i32};

fn config() -> LaunchConfig {
    LaunchConfig {
        game_path: "G".to_string(),
        username: String::new(),
        password: String::new(),
        otp: None,
        dx11: false,
        language: 2,
        region: 1,
        expansion_level: 5,
        is_steam: true,
        dpi_awareness: default_dpi_awareness(),
        additional_launch_args: String::new(),
        enable_dalamud: true,
        dalamud_path: "D".to_string(),
        injection_delay: 250,
    }
}

#[test]
fn defaults() {
    assert!(default_dx11());
    assert_eq!(default_language(), 1);
    assert_eq!(default_region(), 3);
    assert_eq!(default_expansion_level(), 4);
    assert_eq!(default_dpi_awareness(), "Aware");
    assert_eq!(default_injection_delay(), 5000);
}

#[test]
fn game_command_line() {
    let c = config();
    assert_eq!(game_executable("G", false), "G/game/ffxiv.exe");
    assert_eq!(game_version_file("G"), "G/game/ffxivgame.ver");
    assert_eq!(
        launch_arguments(&c, "S"),
        "DEV.DataPathType=1 DEV.MaxEntitledExpansionID=5 DEV.TestSID=S DEV.UseSqPack=1 SYS.Region=1 language=2"
    );
    assert_eq!(launch_environment(true), vec![("IS_FFXIV_LAUNCH_FROM_STEAM".to_string(), "1".to_string())]);
    assert!(launch_environment(false).is_empty());
}

#[test]
fn injector_command_line() {
    let c = config();
    let args = injector_arguments(&c, "D/addon/Hooks/1", "e30=", "ARGS");
    assert_eq!(
        args,
        vec![
            "launch", "--mode=entrypoint", "--game=G/game/ffxiv.exe",
            "--dalamud-working-directory=D/addon/Hooks/1", "--dalamud-configuration-path=D/config",
            "--dalamud-plugin-directory=D/installedPlugins", "--dalamud-asset-directory=D/dalamudAssets",
            "--logpath=D/logs", "--dalamud-client-language=2", "--dalamud-delay-initialize=250",
            "--dalamud-tspack-b64=e30=", "--", "ARGS",
        ]
    );
    assert_eq!(encode_start_info("{}"), "e30=");
    assert_eq!(encode_start_info("ab"), "YWI=");
    assert_eq!(encode_start_info("Man"), "TWFu");
    assert_eq!(encode_start_info("hello world"), "aGVsbG8gd29ybGQ=");
    let env = injector_environment("D", true);
    assert_eq!(env[0], ("DALAMUD_RUNTIME".to_string(), "D/runtime".to_string()));
    assert_eq!(env[1].1, "RunAsInvoker HighDPIAware");
    assert!(injector_environment("D", false).is_empty());
}

#[test]
fn start_descriptor() {
    let s = start_info(&config(), "V", "2024.01.01".to_string());
    assert_eq!(s.working_directory, "V");
    assert_eq!(s.configuration_path, "D/config");
    assert_eq!(s.logging_path, "D/logs");
    assert_eq!(s.client_language, 2);
    assert_eq!(s.troubleshooting_pack.as_deref(), Some("{}"));
    assert_eq!(s.delay_initialize_ms, 250);
    let d = StartInfo::default();
    assert_eq!(d.client_language, 1);
    assert!(d.troubleshooting_pack.is_none());
}

#[test]
fn order_fields() {
    assert_eq!(normalize_order(None), Ok(None));
    assert_eq!(normalize_order(Some(StringOrNumber::Number(7))), Ok(Some(7)));
    assert_eq!(normalize_order(Some(StringOrNumber::Text(String::new()))), Ok(Some(0)));
    assert_eq!(normalize_order(Some(StringOrNumber::Text("0".to_string()))), Ok(Some(0)));
    assert_eq!(normalize_order(Some(StringOrNumber::Text("12".to_string()))), Ok(Some(12)));
    assert_eq!(normalize_order(Some(StringOrNumber::Text("x".to_string()))), Err("x".to_string()));
}

#[test]
fn feed_addresses() {
    assert_eq!(feed_language(3), "fr-fr");
    assert_eq!(feed_language(0), "en-us");
    assert_eq!(headline_url(2, 1700000000000), "https://frontier.ffxiv.com/news/headline.json?lang=de-de&media=pcapp&_=1700000000000");
    assert_eq!(banner_url(1, 5), "https://frontier.ffxiv.com/v2/topics/en-us/banner.json?lang=en-us&media=pcapp&_=5");
}

#[test]
fn numbers() {
    assert_eq!(decimal_string(0), "0");
    assert_eq!(decimal_string(1234567890123), "1234567890123");
    assert_eq!(parse_i32("2147483647"), Some(i32::MAX));
    assert_eq!(parse_i32("-2147483648"), Some(i32::MIN));
    assert_eq!(parse_i32("2147483648"), None);
    assert_eq!(parse_i32("+7"), Some(7));
    assert_eq!(parse_i32("-"), None);
    assert_eq!(parse_i32(""), None);
    assert_eq!(parse_i32("1 "), None);
    assert_eq!(parse_i32("99999999999999999999"), None);
}

#[test]
fn password_entry() {
    let mut pw: Vec<char> = Vec::new();
    assert_eq!(password_key(&mut pw, 'a'), KeyEcho::Mask);
    assert_eq!(password_key(&mut pw, 'b'), KeyEcho::Mask);
    assert_eq!(password_key(&mut pw, '\x08'), KeyEcho::Erase);
    assert_eq!(password_key(&mut pw, 'c'), KeyEcho::Mask);
    assert_eq!(password_key(&mut pw, '\n'), KeyEcho::Finished);
    assert_eq!(pw, vec!['a', 'c']);
    let mut empty: Vec<char> = Vec::new();
    assert_eq!(password_key(&mut empty, '\x08'), KeyEcho::Erase);
    assert!(empty.is_empty());
}

#[test]
fn boot_file_hashes() {
    let names = boot_files();
    assert_eq!(names.len(), 6);
    assert_eq!(generate_hash(b"hello"), "aaf4c61ddcc5e8a2dabede0f3b482cd9aea9434d");
    let mut reads: Vec<FileRead> = (0..6).map(|_| FileRead::Missing).collect();
    reads[1] = FileRead::Contents(b"hello".to_vec());
    reads[4] = FileRead::Contents(b"hello".to_vec());
    assert_eq!(
        boot_hashes(&names, &reads),
        "ffxivboot64.exe/aaf4c61ddcc5e8a2dabede0f3b482cd9aea9434d,ffxivupdater.exe/aaf4c61ddcc5e8a2dabede0f3b482cd9aea9434d"
    );
}

#[test]
fn localized_launch_errors() {
    assert_eq!(launch_error_message(1, "x"), "Could not launch executable. Is your game path correct? x");
    assert!(launch_error_message(2, "x").starts_with("Die ausführbare Datei"));
    assert_eq!(launch_error_message(9, "x"), "Unknown language.");
}
