use xivloader::addon::{
    addon_base_path, check_critical_files, font_copies, font_paths, integrity_verdict,
    read_hash_manifest, recorded_asset_version, required_directories, support_library_path,
    verify_assets, version_dir, AssetFile, FileRead,
};

const HELLO_SHA1: &str = "aaf4c61ddcc5e8a2dabede0f3b482cd9aea9434d";
const EMPTY_SHA1_UPPER: &str = "DA39A3EE5E6B4B0D3255BFEF95601890AFD80709";

fn manifest() -> Vec<(String, String)> {
    vec![("a.dll".to_string(), HELLO_SHA1.to_string())]
}

#[test]
fn intact_when_every_file_matches() {
    let reads = vec![FileRead::Contents(b"hello".to_vec())];
    assert_eq!(integrity_verdict(&manifest(), &reads), Ok(true));
}

#[test]
fn not_intact_when_file_missing() {
    assert_eq!(integrity_verdict(&manifest(), &vec![FileRead::Missing]), Ok(false));
}

#[test]
fn not_intact_when_hash_differs() {
    let reads = vec![FileRead::Contents(b"hello!".to_vec())];
    assert_eq!(integrity_verdict(&manifest(), &reads), Ok(false));
}

#[test]
fn unreadable_file_is_an_error() {
    let reads = vec![FileRead::Unreadable("denied".to_string())];
    assert_eq!(
        integrity_verdict(&manifest(), &reads),
        Err("Failed to read file a.dll: denied".to_string())
    );
}

#[test]
fn empty_manifest_is_intact() {
    assert_eq!(integrity_verdict(&vec![], &vec![]), Ok(true));
}

#[test]
fn hash_manifest_parses_in_key_order() {
    let v = read_hash_manifest("{\"b.dll\": \"22\", \"a.dll\": \"11\"}").unwrap();
    assert_eq!(
        v,
        vec![("a.dll".to_string(), "11".to_string()), ("b.dll".to_string(), "22".to_string())]
    );
    let e = read_hash_manifest("[1, 2]").unwrap_err();
    assert!(e.starts_with("Failed to parse hashes.json: "));
}

#[test]
fn base_path_gets_addon_once() {
    assert_eq!(addon_base_path("C:/XIV"), "C:/XIV/addon");
    assert_eq!(addon_base_path("C:/XIV/addon"), "C:/XIV/addon");
    assert_eq!(addon_base_path("C:\\XIV\\addon"), "C:\\XIV\\addon");
    assert_eq!(addon_base_path(""), "/addon");
}

#[test]
fn layout_paths() {
    assert_eq!(version_dir("r/addon", "9.1.0.2"), "r/addon/Hooks/9.1.0.2");
    assert_eq!(support_library_path("v", true), "v/FASMX64.DLL");
    assert_eq!(support_library_path("v", false), "v/FASM.DLL");
    assert_eq!(
        required_directories("r", "r/addon"),
        vec![
            "r/addon", "r/dalamudAssets", "r/dalamudAssets/UIRes", "r/installedPlugins",
            "r/pluginConfigs", "r/runtime", "r/logs",
        ]
    );
}

#[test]
fn recorded_asset_version_defaults_to_zero() {
    assert_eq!(recorded_asset_version(&Some("42".to_string())), 42);
    assert_eq!(recorded_asset_version(&Some("42\n".to_string())), 0);
    assert_eq!(recorded_asset_version(&Some("-3".to_string())), -3);
    assert_eq!(recorded_asset_version(&None), 0);
}

fn asset(name: &str, hash: Option<&str>) -> AssetFile {
    AssetFile { url: String::new(), file_name: name.to_string(), hash: hash.map(|h| h.to_string()) }
}

#[test]
fn assets_verified_by_uppercase_hash() {
    let assets = vec![asset("x.bin", Some(EMPTY_SHA1_UPPER)), asset("y.bin", None)];
    let reads = vec![FileRead::Contents(vec![]), FileRead::Unreadable("busy".to_string())];
    assert_eq!(verify_assets(&assets, &reads), Ok(()));
}

#[test]
fn asset_failures_name_the_file() {
    let assets = vec![asset("x.bin", Some(EMPTY_SHA1_UPPER))];
    assert_eq!(
        verify_assets(&assets, &vec![FileRead::Missing]),
        Err("Missing required asset file: x.bin".to_string())
    );
    assert_eq!(
        verify_assets(&assets, &vec![FileRead::Contents(b"x".to_vec())]),
        Err("Hash verification failed for x.bin".to_string())
    );
    assert_eq!(
        verify_assets(&assets, &vec![FileRead::Unreadable("denied".to_string())]),
        Err("Failed to read file x.bin: denied".to_string())
    );
    let lower = vec![asset("x.bin", Some(&EMPTY_SHA1_UPPER.to_lowercase()))];
    assert!(verify_assets(&lower, &vec![FileRead::Contents(vec![])]).is_err());
}

#[test]
fn critical_files_must_exist() {
    assert_eq!(check_critical_files("i.exe", true, "f.dll", true), Ok(()));
    assert_eq!(
        check_critical_files("i.exe", false, "f.dll", false),
        Err("Dalamud injector not found at i.exe. Please ensure Dalamud is properly installed.".to_string())
    );
    assert_eq!(
        check_critical_files("i.exe", true, "f.dll", false),
        Err("FASM DLL not found at f.dll. Please ensure Dalamud is properly installed.".to_string())
    );
}

#[test]
fn fonts_copied_only_where_alias_missing() {
    let fonts = font_paths("u");
    assert_eq!(fonts[0], ("u/FontAwesomeFreeSolid.otf".to_string(), "u/FontAwesomeFreeSolid".to_string()));
    let copies = font_copies(&fonts, &vec![(true, false), (true, true)]);
    assert_eq!(copies, vec![fonts[0].clone()]);
    assert!(font_copies(&fonts, &vec![(false, false), (false, true)]).is_empty());
}
