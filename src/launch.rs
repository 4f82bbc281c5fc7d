//! What one launch attempt is given, and the game's command line.

use vstd::prelude::*;
use crate::text::{decimal, path_join, push_decimal};

verus! {

broadcast use vstd::string::group_string_axioms;

/// Everything one launch attempt is given. Built once by the caller and
/// never changed by the launcher.
pub struct LaunchConfig {
    pub game_path: String,
    pub username: String,
    pub password: String,
    pub otp: Option<String>,
    pub dx11: bool,
    pub language: u32,
    pub region: u32,
    pub expansion_level: u32,
    pub is_steam: bool,
    pub dpi_awareness: String,
    pub additional_launch_args: String,
    pub enable_dalamud: bool,
    pub dalamud_path: String,
    pub injection_delay: u64,
}

/// Timings of one launch, in milliseconds: the landing-page fetch, the
/// login submission that yields the session id, and starting the game.
pub struct GameLaunchMetrics {
    pub login_time_ms: u64,
    pub sid_fetch_time_ms: u64,
    pub game_start_time_ms: u64,
}

/// The renderer used when the caller does not choose: DirectX 11.
pub fn default_dx11() -> (r: bool)
    ensures
        r,
{
    true
}

/// The client language used when the caller does not choose: English.
pub fn default_language() -> (r: u32)
    ensures
        r == 1,
{
    1
}

/// The region used when the caller does not choose.
pub fn default_region() -> (r: u32)
    ensures
        r == 3,
{
    3
}

/// The expansion entitlement used when the caller does not choose.
pub fn default_expansion_level() -> (r: u32)
    ensures
        r == 4,
{
    4
}

/// The DPI-awareness setting used when the caller does not choose.
pub fn default_dpi_awareness() -> (r: String)
    ensures
        r@ == "Aware"@,
{
    String::from_str("Aware")
}

/// The add-on host's initialisation delay, in milliseconds, used when the
/// caller does not choose.
pub fn default_injection_delay() -> (r: u64)
    ensures
        r == 5000,
{
    5000
}

/// The game executable for the chosen renderer.
pub open spec fn game_executable_of(game_path: Seq<char>, dx11: bool) -> Seq<char> {
    path_join(
        game_path,
        if dx11 {
            "game/ffxiv_dx11.exe"@
        } else {
            "game/ffxiv.exe"@
        },
    )
}

/// The game executable for the chosen renderer.
pub fn game_executable(game_path: &str, dx11: bool) -> (r: String)
    ensures
        r@ == game_executable_of(game_path@, dx11),
{
    let mut r = String::from_str(game_path);
    r.append("/");
    if dx11 {
        r.append("game/ffxiv_dx11.exe");
    } else {
        r.append("game/ffxiv.exe");
    }
    r
}

/// The file that holds the installed game's version.
pub fn game_version_file(game_path: &str) -> (r: String)
    ensures
        r@ == path_join(game_path@, "game/ffxivgame.ver"@),
{
    let mut r = String::from_str(game_path);
    r.append("/");
    r.append("game/ffxivgame.ver");
    r
}

/// The game's command line: data-path mode, entitled expansion, session id,
/// region and language, as space-separated `key=value` tokens.
pub open spec fn launch_arguments_of(expansion: nat, sid: Seq<char>, region: nat, language: nat) -> Seq<
    char,
> {
    "DEV.DataPathType=1 DEV.MaxEntitledExpansionID="@ + decimal(expansion) + " DEV.TestSID="@ + sid
        + " DEV.UseSqPack=1 SYS.Region="@ + decimal(region) + " language="@ + decimal(language)
}

/// The game's command line for this attempt's session id.
pub fn launch_arguments(config: &LaunchConfig, sid: &str) -> (r: String)
    ensures
        r@ == launch_arguments_of(
            config.expansion_level as nat,
            sid@,
            config.region as nat,
            config.language as nat,
        ),
{
    let mut r = String::from_str("DEV.DataPathType=1 DEV.MaxEntitledExpansionID=");
    push_decimal(&mut r, config.expansion_level as u128);
    r.append(" DEV.TestSID=");
    r.append(sid);
    r.append(" DEV.UseSqPack=1 SYS.Region=");
    push_decimal(&mut r, config.region as u128);
    r.append(" language=");
    push_decimal(&mut r, config.language as u128);
    assert(r@ =~= launch_arguments_of(
        config.expansion_level as nat,
        sid@,
        config.region as nat,
        config.language as nat,
    ));
    r
}

/// Name and value pairs as character sequences.
pub open spec fn env_views(v: Seq<(String, String)>) -> Seq<(Seq<char>, Seq<char>)> {
    v.map_values(|p: (String, String)| (p.0@, p.1@))
}

/// The extra environment of the game: the storefront marker where the game
/// is the storefront's distribution, nothing otherwise.
pub open spec fn launch_environment_of(is_steam: bool) -> Seq<(Seq<char>, Seq<char>)> {
    if is_steam {
        seq![("IS_FFXIV_LAUNCH_FROM_STEAM"@, "1"@)]
    } else {
        seq![]
    }
}

/// The environment the game is started with: the storefront marker where
/// the game is the storefront's distribution, nothing otherwise.
pub fn launch_environment(is_steam: bool) -> (r: Vec<(String, String)>)
    ensures
        env_views(r@) == launch_environment_of(is_steam),
        is_steam ==> r@.len() == 1 && r@[0].0@ == "IS_FFXIV_LAUNCH_FROM_STEAM"@ && r@[0].1@ == "1"@,
        !is_steam ==> r@.len() == 0,
{
    let mut r: Vec<(String, String)> = Vec::new();
    if is_steam {
        r.push((String::from_str("IS_FFXIV_LAUNCH_FROM_STEAM"), String::from_str("1")));
    }
    assert(env_views(r@) =~= launch_environment_of(is_steam));
    r
}

/// The menu entry for the Japanese client; the launch itself happens through
/// the configuration that the menu fills in.
pub fn japan_launch() {
}

/// The menu entry for the English client.
pub fn english_launch() {
}

/// The menu entry for the German client.
pub fn german_launch() {
}

/// The menu entry for the French client.
pub fn french_launch() {
}

/// The menu entry for the Russian option, which runs the English client.
pub fn russian_launch() {
}

/// Trust in the login service's certificates comes from the HTTP client's
/// own root store; there is nothing to set up beforehand.
pub fn initiate_ssl_trust() {
}

} // verus!
