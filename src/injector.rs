//! Starting the game through the add-on host's injector: the start
//! descriptor, its encoding for the command line, and the injector's
//! arguments and environment.

use vstd::prelude::*;
use vstd::utf8::encode_utf8;
use crate::digest::{base64_of, to_base64};
use crate::launch::{LaunchConfig, game_executable, game_executable_of};
use crate::text::{decimal, join_path, path_join, push_decimal};

verus! {

broadcast use vstd::string::group_string_axioms;

/// What the add-on host is told at start: its directories, the client's
/// language, the game's version and the initialisation delay.
pub struct StartInfo {
    pub working_directory: String,
    pub configuration_path: String,
    pub plugin_directory: String,
    pub asset_directory: String,
    pub client_language: u32,
    pub delay_initialize: bool,
    pub game_version: String,
    pub logging_path: String,
    pub troubleshooting_pack: Option<String>,
    pub delay_initialize_ms: i32,
}

impl Default for StartInfo {
    /// Empty paths, English, no delay and no troubleshooting pack.
    fn default() -> (r: StartInfo)
        ensures
            r.working_directory@.len() == 0,
            r.configuration_path@.len() == 0,
            r.plugin_directory@.len() == 0,
            r.asset_directory@.len() == 0,
            r.client_language == 1,
            !r.delay_initialize,
            r.game_version@.len() == 0,
            r.logging_path@.len() == 0,
            r.troubleshooting_pack is None,
            r.delay_initialize_ms == 0,
    {
        StartInfo {
            working_directory: String::new(),
            configuration_path: String::new(),
            plugin_directory: String::new(),
            asset_directory: String::new(),
            client_language: 1,
            delay_initialize: false,
            game_version: String::new(),
            logging_path: String::new(),
            troubleshooting_pack: None,
            delay_initialize_ms: 0,
        }
    }
}

/// The start descriptor for one injection: the host runs from its version
/// directory, its other directories lie under the configured add-on root,
/// and the delay is the configured one (as a 32-bit value).
pub fn start_info(config: &LaunchConfig, version_dir: &str, game_version: String) -> (r: StartInfo)
    ensures
        r.working_directory@ == version_dir@,
        r.configuration_path@ == path_join(config.dalamud_path@, "config"@),
        r.plugin_directory@ == path_join(config.dalamud_path@, "installedPlugins"@),
        r.asset_directory@ == path_join(config.dalamud_path@, "dalamudAssets"@),
        r.client_language == config.language,
        !r.delay_initialize,
        r.game_version@ == game_version@,
        r.logging_path@ == path_join(config.dalamud_path@, "logs"@),
        r.troubleshooting_pack matches Some(p) && p@ == "{}"@,
        r.delay_initialize_ms == config.injection_delay as i32,
{
    let root = config.dalamud_path.as_str();
    StartInfo {
        working_directory: String::from_str(version_dir),
        configuration_path: join_path(root, "config"),
        plugin_directory: join_path(root, "installedPlugins"),
        asset_directory: join_path(root, "dalamudAssets"),
        client_language: config.language,
        delay_initialize: false,
        game_version,
        logging_path: join_path(root, "logs"),
        troubleshooting_pack: Some(String::from_str("{}")),
        delay_initialize_ms: config.injection_delay as i32,
    }
}

/// The start descriptor's JSON text, made safe for a command line: its
/// UTF-8 bytes in Base64.
pub fn encode_start_info(json: &str) -> (r: String)
    ensures
        r@ == base64_of(encode_utf8(json@)),
{
    to_base64(json.as_bytes())
}

/// `prefix` followed by `value`.
fn flag(prefix: &str, value: &str) -> (r: String)
    ensures
        r@ == prefix@ + value@,
{
    let mut r = String::from_str(prefix);
    r.append(value);
    r
}

/// The injector's arguments for entrypoint injection, in which the injector
/// itself starts the game: the executable, the host's directories, language
/// and delay, the encoded start descriptor, a separator, and the game's own
/// command line.
pub fn injector_arguments(
    config: &LaunchConfig,
    version_dir: &str,
    start_info_b64: &str,
    game_args: &str,
) -> (r: Vec<String>)
    ensures
        r@.len() == 13,
        r@[0]@ == "launch"@,
        r@[1]@ == "--mode=entrypoint"@,
        r@[2]@ == "--game="@ + game_executable_of(config.game_path@, config.dx11),
        r@[3]@ == "--dalamud-working-directory="@ + version_dir@,
        r@[4]@ == "--dalamud-configuration-path="@ + path_join(config.dalamud_path@, "config"@),
        r@[5]@ == "--dalamud-plugin-directory="@ + path_join(
            config.dalamud_path@,
            "installedPlugins"@,
        ),
        r@[6]@ == "--dalamud-asset-directory="@ + path_join(config.dalamud_path@, "dalamudAssets"@),
        r@[7]@ == "--logpath="@ + path_join(config.dalamud_path@, "logs"@),
        r@[8]@ == "--dalamud-client-language="@ + decimal(config.language as nat),
        r@[9]@ == "--dalamud-delay-initialize="@ + decimal(config.injection_delay as nat),
        r@[10]@ == "--dalamud-tspack-b64="@ + start_info_b64@,
        r@[11]@ == "--"@,
        r@[12]@ == game_args@,
{
    let root = config.dalamud_path.as_str();
    let mut r: Vec<String> = Vec::new();
    r.push(String::from_str("launch"));
    r.push(String::from_str("--mode=entrypoint"));
    let exe = game_executable(config.game_path.as_str(), config.dx11);
    r.push(flag("--game=", exe.as_str()));
    r.push(flag("--dalamud-working-directory=", version_dir));
    let dir = join_path(root, "config");
    r.push(flag("--dalamud-configuration-path=", dir.as_str()));
    let dir = join_path(root, "installedPlugins");
    r.push(flag("--dalamud-plugin-directory=", dir.as_str()));
    let dir = join_path(root, "dalamudAssets");
    r.push(flag("--dalamud-asset-directory=", dir.as_str()));
    let dir = join_path(root, "logs");
    r.push(flag("--logpath=", dir.as_str()));
    let mut lang = String::from_str("--dalamud-client-language=");
    push_decimal(&mut lang, config.language as u128);
    r.push(lang);
    let mut delay = String::from_str("--dalamud-delay-initialize=");
    push_decimal(&mut delay, config.injection_delay as u128);
    r.push(delay);
    r.push(flag("--dalamud-tspack-b64=", start_info_b64));
    r.push(String::from_str("--"));
    r.push(String::from_str(game_args));
    r
}

/// The injector's extra environment, where the add-on root holds a managed
/// runtime: the runtime's location and the compatibility-layer hint.
pub fn injector_environment(dalamud_path: &str, runtime_present: bool) -> (r: Vec<(String, String)>)
    ensures
        runtime_present ==> r@.len() == 2 && r@[0].0@ == "DALAMUD_RUNTIME"@ && r@[0].1@ == path_join(
            dalamud_path@,
            "runtime"@,
        ) && r@[1].0@ == "__COMPAT_LAYER"@ && r@[1].1@ == "RunAsInvoker HighDPIAware"@,
        !runtime_present ==> r@.len() == 0,
{
    let mut r: Vec<(String, String)> = Vec::new();
    if runtime_present {
        r.push((String::from_str("DALAMUD_RUNTIME"), join_path(dalamud_path, "runtime")));
        r.push((String::from_str("__COMPAT_LAYER"), String::from_str("RunAsInvoker HighDPIAware")));
    }
    r
}

} // verus!
