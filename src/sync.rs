//! Bringing the add-on host up to date, step by step.
//!
//! The remote version manifest names the host version to run; its directory
//! is trusted only if every file that its hash manifest lists is present and
//! matches. The shared assets are updated when the remote bundle's version
//! is greater than the recorded one. Whatever was fetched, the injector and
//! the support library must exist at the end. The caller performs each
//! action and reports its outcome.

use vstd::prelude::*;
use crate::addon::{
    AssetFile, FileRead, addon_base_of, addon_base_path, asset_error, assets_intact_before,
    check_critical_files, font_copies, missing_critical_of, font_names, required_dir_names, copies_of, font_paths, injector_path, integrity_verdict,
    intact_before, read_hash_manifest, recorded_asset_version, recorded_asset_version_of,
    string_map_of, support_library_name, support_library_path, required_directories,
    verify_assets, version_dir, version_dir_of,
};
use crate::text::{concat, join_path, path_join, push_signed_decimal, signed_decimal};

verus! {

broadcast use vstd::string::group_string_axioms;

/// Where the release track's version manifest is published.
pub const VERSION_INFO_URL: &'static str = "https://kamori.goats.dev/Dalamud/Release/VersionInfo?track=release";

/// Where the asset bundle's manifest is published.
pub const ASSET_META_URL: &'static str = "https://kamori.goats.dev/Dalamud/Asset/Meta";

/// How long a manifest fetch may take, in seconds.
pub const MANIFEST_TIMEOUT_SECS: u64 = 30;

/// One change listed in a changelog.
pub struct Change {
    pub message: String,
    pub author: String,
    pub sha: String,
    pub date: String,
}

/// The changelog of a host release.
pub struct Changelog {
    pub date: String,
    pub version: String,
    pub changes: Vec<Change>,
}

/// The remote version manifest of the host runtime.
pub struct VersionInfo {
    pub key: String,
    pub track: String,
    pub assembly_version: String,
    pub runtime_version: String,
    pub runtime_required: bool,
    pub supported_game_ver: String,
    pub is_applicable_for_current_game_ver: bool,
    pub changelog: Changelog,
    pub download_url: String,
}

/// The remote manifest of the shared asset bundle.
pub struct AssetInfo {
    pub version: i32,
    pub package_url: String,
    pub assets: Vec<AssetFile>,
}

/// What was found at the version directory.
pub enum Installation {
    /// The directory does not exist.
    Absent,
    /// The directory exists without a hash manifest.
    NoManifest,
    /// The hash manifest's text, or why it could not be read.
    Manifest(Result<String, String>),
}

/// The outcome of the last action.
pub enum SyncEvent {
    VersionFetched(Result<VersionInfo, String>),
    Inspected(Installation),
    FilesRead(Vec<FileRead>),
    AssetsFetched(Result<AssetInfo, String>),
    TextRead(Option<String>),
    StepDone(Result<(), String>),
    FilesChecked(Vec<bool>),
}

/// What to do next.
pub enum SyncAction {
    /// GET a JSON manifest.
    FetchVersionInfo { url: String, timeout_secs: u64 },
    /// Say whether the directory exists and, if so, read its hash manifest.
    InspectInstallation { version_dir: String, manifest: String },
    /// Read each of these files.
    ReadFiles { paths: Vec<String> },
    /// GET the asset bundle's manifest.
    FetchAssetInfo { url: String, timeout_secs: u64 },
    /// Read this text file, if it can be read.
    ReadText { path: String },
    /// Create each of these directories with its parents.
    CreateDirectories { paths: Vec<String> },
    /// Download `url` to `destination`, following redirects.
    Download { url: String, destination: String },
    /// Create `destination`, extract the archive into it, then delete the
    /// archive.
    Extract { archive: String, destination: String },
    /// Write the version manifest that was fetched to this file.
    WriteVersionMarker { path: String },
    /// Write this text to this file.
    WriteText { path: String, contents: String },
    /// Say whether each of these files exists.
    CheckFiles { paths: Vec<String> },
    /// Copy each file to its pair; failures are only logged.
    CopyFiles { pairs: Vec<(String, String)> },
    /// The synchronisation is over.
    Finish(Result<(), String>),
    /// The event did not fit the step; nothing to do.
    Ignore,
}

/// Where a synchronisation stands.
#[derive(PartialEq, Eq, Structural, Clone, Copy, Debug)]
pub enum SyncPhase {
    VersionInfo,
    Inspecting,
    Verifying,
    AssetInfo,
    AssetVersion,
    CreatingDirs,
    DownloadingHost,
    ExtractingHost,
    WritingMarker,
    DownloadingAssets,
    ExtractingAssets,
    VerifyingAssets,
    WritingAssetVersion,
    CheckingCritical,
    CheckingFonts,
    CopyingFonts,
    Finished,
}

/// One synchronisation of the add-on host.
pub struct AddonSync {
    /// The configured add-on root.
    pub root: String,
    /// The root normalised to end in `addon`.
    pub base: String,
    /// Whether the support library for 64-bit processors is wanted.
    pub x64: bool,
    pub phase: SyncPhase,
    pub version_dir: String,
    pub download_url: String,
    pub entries: Vec<(String, String)>,
    pub needs_host_update: bool,
    pub asset_version: i32,
    pub package_url: String,
    pub assets: Vec<AssetFile>,
    pub needs_asset_update: bool,
}

/// The version file of the asset bundle.
pub open spec fn asset_version_file_of(root: Seq<char>) -> Seq<char> {
    path_join(root, "dalamudAssets/asset.ver"@)
}

/// The host's package is downloaded here before extraction.
pub open spec fn host_archive_of(root: Seq<char>) -> Seq<char> {
    path_join(root, "dalamud_temp.zip"@)
}

/// The asset package is downloaded here before extraction.
pub open spec fn asset_archive_of(root: Seq<char>) -> Seq<char> {
    path_join(root, "asset_package_temp.zip"@)
}

/// The phases that wait for a step to be done, and end on its failure.
pub open spec fn awaits_step(p: SyncPhase) -> bool {
    p == SyncPhase::CreatingDirs || p == SyncPhase::DownloadingHost || p == SyncPhase::ExtractingHost
        || p == SyncPhase::WritingMarker || p == SyncPhase::DownloadingAssets || p
        == SyncPhase::ExtractingAssets || p == SyncPhase::WritingAssetVersion
}

/// Whether `action` ends the synchronisation with an error reading `m`.
pub open spec fn sync_fails_with(action: SyncAction, m: Seq<char>) -> bool {
    action matches SyncAction::Finish(Err(e)) && e@ == m
}

/// The action that checks the injector and the support library.
pub open spec fn checks_critical(s: AddonSync, action: SyncAction) -> bool {
    &&& s.phase == SyncPhase::CheckingCritical
    &&& action matches SyncAction::CheckFiles { paths } && paths@.len() == 2 && paths@[0]@
        == path_join(s.version_dir@, "Dalamud.Injector.exe"@) && paths@[1]@ == path_join(
        s.version_dir@,
        support_library_name(s.x64),
    )
}

/// The action that downloads the asset package.
pub open spec fn downloads_assets(s: AddonSync, action: SyncAction) -> bool {
    &&& s.phase == SyncPhase::DownloadingAssets
    &&& action matches SyncAction::Download { url, destination } && url@ == s.package_url@
        && destination@ == asset_archive_of(s.root@)
}

/// Everything but the phase is the same in `a` and `b`.
pub open spec fn same_data(a: AddonSync, b: AddonSync) -> bool {
    &&& a.root == b.root
    &&& a.base == b.base
    &&& a.x64 == b.x64
    &&& a.version_dir == b.version_dir
    &&& a.download_url == b.download_url
    &&& a.entries == b.entries
    &&& a.needs_host_update == b.needs_host_update
    &&& a.asset_version == b.asset_version
    &&& a.package_url == b.package_url
    &&& a.assets == b.assets
    &&& a.needs_asset_update == b.needs_asset_update
}

/// The pairs of paths as character sequences.
pub open spec fn pair_views(pairs: Seq<(String, String)>) -> Seq<(Seq<char>, Seq<char>)> {
    pairs.map_values(|p: (String, String)| (p.0@, p.1@))
}

/// One font's file and alias inside `uires`.
pub open spec fn font_pair(uires: Seq<char>, i: int) -> (Seq<char>, Seq<char>) {
    (path_join(uires, font_names()[i].0), path_join(uires, font_names()[i].1))
}

/// The font copies to make, given for each font whether its file and its
/// alias exist (`found` holds file, alias, file, alias): each font whose file
/// is there and whose alias is not.
pub open spec fn wanted_font_copies(uires: Seq<char>, found: Seq<bool>) -> Seq<(Seq<char>, Seq<char>)> {
    (if found[0] && !found[1] {
        seq![font_pair(uires, 0)]
    } else {
        seq![]
    }) + (if found[2] && !found[3] {
        seq![font_pair(uires, 1)]
    } else {
        seq![]
    })
}

/// One step of a synchronisation: from `s0`, on `event`, to `s1` with
/// action `r`.
pub open spec fn sync_transition(s0: AddonSync, event: SyncEvent, s1: AddonSync, r: SyncAction) -> bool {
    &&& s1.root == s0.root
    &&& s1.base == s0.base
    &&& s1.x64 == s0.x64
    &&& s0.phase != SyncPhase::VersionInfo ==> s1.version_dir == s0.version_dir
        && s1.download_url == s0.download_url
    &&& s0.phase != SyncPhase::Inspecting ==> s1.entries == s0.entries
    &&& s0.phase != SyncPhase::Inspecting && s0.phase != SyncPhase::Verifying
        ==> s1.needs_host_update == s0.needs_host_update
    &&& s0.phase != SyncPhase::AssetInfo ==> s1.asset_version == s0.asset_version
        && s1.assets == s0.assets && s1.package_url == s0.package_url
    &&& s0.phase != SyncPhase::AssetVersion ==> s1.needs_asset_update == s0.needs_asset_update
    &&& r is Ignore ==> s1.phase == s0.phase
    &&& s0.phase == SyncPhase::Finished ==> r is Ignore
    &&& r is Finish <==> s1.phase == SyncPhase::Finished && s0.phase
        != SyncPhase::Finished
    &&& match (s0.phase, event) {
        (SyncPhase::VersionInfo, SyncEvent::VersionFetched(Err(e))) => r == SyncAction::Finish(Err(e)),
        (SyncPhase::VersionInfo, SyncEvent::VersionFetched(Ok(v))) => {
            &&& s1.phase == SyncPhase::Inspecting
            &&& s1.version_dir@ == version_dir_of(s0.base@, v.assembly_version@)
            &&& s1.download_url == v.download_url
            &&& r matches SyncAction::InspectInstallation { version_dir, manifest }
                && version_dir@ == s1.version_dir@ && manifest@ == path_join(
                version_dir@,
                "hashes.json"@,
            )
        },
        (SyncPhase::Inspecting, SyncEvent::Inspected(Installation::Manifest(Err(e)))) => sync_fails_with(
            r,
            "Failed to read hashes.json: "@ + e@,
        ),
        (SyncPhase::Inspecting, SyncEvent::Inspected(Installation::Manifest(Ok(text)))) => if string_map_of(text@) is Some {
            &&& s1.phase == SyncPhase::Verifying
            &&& s1.entries@.len() == string_map_of(text@)->0.len()
            &&& forall|i: int| 0 <= i < s1.entries@.len() ==> (#[trigger] s1.entries@[i]).0@
                == string_map_of(text@)->0[i].0 && s1.entries@[i].1@ == string_map_of(text@)->0[i].1
            &&& r matches SyncAction::ReadFiles { paths } && paths@.len() == s1.entries@.len()
                && forall|i: int| 0 <= i < paths@.len() ==> (#[trigger] paths@[i])@ == path_join(
                s0.version_dir@,
                s1.entries@[i].0@,
            )
        } else {
            exists|e: Seq<char>| sync_fails_with(r, "Failed to parse hashes.json: "@ + e)
        },
        (SyncPhase::Inspecting, SyncEvent::Inspected(_)) => {
            &&& s1.phase == SyncPhase::AssetInfo
            &&& s1.needs_host_update
            &&& r matches SyncAction::FetchAssetInfo { url, timeout_secs } && url@ == ASSET_META_URL@
        },
        (SyncPhase::Verifying, SyncEvent::FilesRead(reads)) => if reads@.len()
            == s0.entries@.len() {
            if exists|i: int| 0 <= i < reads@.len() && intact_before(s0.entries@, reads@, i)
                && #[trigger] reads@[i] is Unreadable {
                exists|i: int|
                    0 <= i < reads@.len() && intact_before(s0.entries@, reads@, i) && (
                    #[trigger] reads@[i] matches FileRead::Unreadable(e) && sync_fails_with(
                        r,
                        "Failed to read file "@ + s0.entries@[i].0@ + ": "@ + e@,
                    ))
            } else {
                &&& s1.phase == SyncPhase::AssetInfo
                &&& s1.needs_host_update == !intact_before(
                    s0.entries@,
                    reads@,
                    reads@.len() as int,
                )
                &&& r matches SyncAction::FetchAssetInfo { url, timeout_secs } && url@
                    == ASSET_META_URL@
            }
        } else {
            r is Ignore
        },
        (SyncPhase::AssetInfo, SyncEvent::AssetsFetched(Err(e))) => r == SyncAction::Finish(Err(e)),
        (SyncPhase::AssetInfo, SyncEvent::AssetsFetched(Ok(a))) => {
            &&& s1.phase == SyncPhase::AssetVersion
            &&& s1.asset_version == a.version
            &&& s1.assets == a.assets
            &&& s1.package_url == a.package_url
            &&& r matches SyncAction::ReadText { path } && path@ == asset_version_file_of(
                s0.root@,
            )
        },
        (SyncPhase::AssetVersion, SyncEvent::TextRead(t)) => {
            &&& s1.needs_asset_update == (recorded_asset_version_of(t)
                < s0.asset_version)
            &&& s1.needs_host_update == s0.needs_host_update
            &&& if s1.needs_host_update || s1.needs_asset_update {
                &&& s1.phase == SyncPhase::CreatingDirs
                &&& r matches SyncAction::CreateDirectories { paths } && paths@.len() == 7
                    && paths@[0]@ == s0.base@ && forall|i: int| 0 <= i < 6 ==> (#[trigger] paths@[i + 1])@
                    == path_join(s0.root@, required_dir_names()[i])
            } else {
                checks_critical(s1, r)
            }
        },
        (SyncPhase::CreatingDirs, SyncEvent::StepDone(Ok(_))) => if s0.needs_host_update {
            &&& s1.phase == SyncPhase::DownloadingHost
            &&& r matches SyncAction::Download { url, destination } && url@
                == s0.download_url@ && destination@ == host_archive_of(s0.root@)
        } else {
            downloads_assets(s1, r)
        },
        (SyncPhase::DownloadingHost, SyncEvent::StepDone(Ok(_))) => {
            &&& s1.phase == SyncPhase::ExtractingHost
            &&& r matches SyncAction::Extract { archive, destination } && archive@
                == host_archive_of(s0.root@) && destination@ == s0.version_dir@
        },
        (SyncPhase::ExtractingHost, SyncEvent::StepDone(Ok(_))) => {
            &&& s1.phase == SyncPhase::WritingMarker
            &&& r matches SyncAction::WriteVersionMarker { path } && path@ == path_join(
                s0.version_dir@,
                "version.json"@,
            )
        },
        (SyncPhase::WritingMarker, SyncEvent::StepDone(Ok(_))) => if s0.needs_asset_update {
            downloads_assets(s1, r)
        } else {
            checks_critical(s1, r)
        },
        (SyncPhase::DownloadingAssets, SyncEvent::StepDone(Ok(_))) => {
            &&& s1.phase == SyncPhase::ExtractingAssets
            &&& r matches SyncAction::Extract { archive, destination } && archive@
                == asset_archive_of(s0.root@) && destination@ == path_join(
                s0.root@,
                "dalamudAssets"@,
            )
        },
        (SyncPhase::ExtractingAssets, SyncEvent::StepDone(Ok(_))) => {
            &&& s1.phase == SyncPhase::VerifyingAssets
            &&& r matches SyncAction::ReadFiles { paths } && paths@.len() == s0.assets@.len()
                && forall|i: int| 0 <= i < paths@.len() ==> (#[trigger] paths@[i])@ == path_join(
                path_join(s0.root@, "dalamudAssets"@),
                s0.assets@[i].file_name@,
            )
        },
        (SyncPhase::VerifyingAssets, SyncEvent::FilesRead(reads)) => if reads@.len()
            == s0.assets@.len() {
            if assets_intact_before(s0.assets@, reads@, reads@.len() as int) {
                &&& s1.phase == SyncPhase::WritingAssetVersion
                &&& r matches SyncAction::WriteText { path, contents } && path@
                    == asset_version_file_of(s0.root@) && contents@ == signed_decimal(
                    s0.asset_version as int,
                )
            } else {
                s1.phase == SyncPhase::Finished && exists|i: int|
                    0 <= i < reads@.len() && assets_intact_before(
                        s0.assets@,
                        reads@,
                        i,
                    ) && sync_fails_with(r, asset_error(s0.assets@[i], #[trigger] reads@[i]))
            }
        } else {
            r is Ignore
        },
        (SyncPhase::WritingAssetVersion, SyncEvent::StepDone(Ok(_))) => checks_critical(
            s1,
            r,
        ),
        (SyncPhase::CheckingCritical, SyncEvent::FilesChecked(found)) => if found@.len() == 2 {
            if found@[0] && found@[1] {
                s1.phase == SyncPhase::CheckingFonts && (r matches SyncAction::CheckFiles { paths }
                    && paths@.len() == 4)
            } else if !found@[0] {
                sync_fails_with(
                    r,
                    missing_critical_of(
                        "Dalamud injector"@,
                        path_join(s0.version_dir@, "Dalamud.Injector.exe"@),
                    ),
                )
            } else {
                sync_fails_with(
                    r,
                    missing_critical_of(
                        "FASM DLL"@,
                        path_join(s0.version_dir@, support_library_name(s0.x64)),
                    ),
                )
            }
        } else {
            r is Ignore
        },
        (SyncPhase::CheckingFonts, SyncEvent::FilesChecked(found)) => if found@.len() == 4 {
            s1.phase == SyncPhase::CopyingFonts && (r matches SyncAction::CopyFiles { pairs }
                && pair_views(pairs@) == wanted_font_copies(
                path_join(s0.root@, "dalamudAssets/UIRes"@),
                found@,
            ))
        } else {
            r is Ignore
        },
        (SyncPhase::CopyingFonts, SyncEvent::StepDone(_)) => r == SyncAction::Finish(Ok(())),
        (SyncPhase::Finished, _) => r is Ignore,
        (p, SyncEvent::StepDone(Err(e))) => if awaits_step(p) {
            r == SyncAction::Finish(Err(e))
        } else {
            r is Ignore
        },
        _ => r is Ignore,
    }
}

/// The position of a phase in a synchronisation.
pub open spec fn phase_rank(p: SyncPhase) -> nat {
    match p {
        SyncPhase::VersionInfo => 0,
        SyncPhase::Inspecting => 1,
        SyncPhase::Verifying => 2,
        SyncPhase::AssetInfo => 3,
        SyncPhase::AssetVersion => 4,
        SyncPhase::CreatingDirs => 5,
        SyncPhase::DownloadingHost => 6,
        SyncPhase::ExtractingHost => 7,
        SyncPhase::WritingMarker => 8,
        SyncPhase::DownloadingAssets => 9,
        SyncPhase::ExtractingAssets => 10,
        SyncPhase::VerifyingAssets => 11,
        SyncPhase::WritingAssetVersion => 12,
        SyncPhase::CheckingCritical => 13,
        SyncPhase::CheckingFonts => 14,
        SyncPhase::CopyingFonts => 15,
        SyncPhase::Finished => 16,
    }
}

/// A synchronisation only moves forward: every step that does something
/// goes to a later phase, so no step is repeated and nothing is retried;
/// a finished one ignores every event. The host's package is downloaded
/// only when an update of it is due; updating starts only when the host or
/// the assets are due; and after the host's update the asset package is
/// downloaded only when the assets are due.
pub proof fn lemma_sync_advances(s0: AddonSync, event: SyncEvent, s1: AddonSync, r: SyncAction)
    requires
        sync_transition(s0, event, s1, r),
    ensures
        r is Ignore ==> s1.phase == s0.phase,
        !(r is Ignore) ==> phase_rank(s1.phase) > phase_rank(s0.phase),
        s0.phase == SyncPhase::Finished ==> r is Ignore,
        s1.phase == SyncPhase::DownloadingHost && s0.phase != SyncPhase::DownloadingHost ==> s0.needs_host_update,
        s1.phase == SyncPhase::DownloadingAssets && s0.phase == SyncPhase::WritingMarker ==> s0.needs_asset_update,
        s1.phase == SyncPhase::CreatingDirs && s0.phase != SyncPhase::CreatingDirs ==> s1.needs_host_update || s1.needs_asset_update,
{
}

impl AddonSync {
    /// Starts a synchronisation of the add-on host under `dalamud_path`: the
    /// first step fetches the version manifest.
    pub fn start(dalamud_path: String, x64: bool) -> (r: (AddonSync, SyncAction))
        ensures
            r.0.root@ == dalamud_path@,
            r.0.base@ == addon_base_of(dalamud_path@),
            r.0.x64 == x64,
            r.0.phase == SyncPhase::VersionInfo,
            r.1 matches SyncAction::FetchVersionInfo { url, timeout_secs } && url@ == VERSION_INFO_URL@
                && timeout_secs == MANIFEST_TIMEOUT_SECS,
    {
        let base = addon_base_path(dalamud_path.as_str());
        let sync = AddonSync {
            root: dalamud_path,
            base,
            x64,
            phase: SyncPhase::VersionInfo,
            version_dir: String::new(),
            download_url: String::new(),
            entries: Vec::new(),
            needs_host_update: false,
            asset_version: 0,
            package_url: String::new(),
            assets: Vec::new(),
            needs_asset_update: false,
        };
        (
            sync,
            SyncAction::FetchVersionInfo {
                url: String::from_str(VERSION_INFO_URL),
                timeout_secs: MANIFEST_TIMEOUT_SECS,
            },
        )
    }

    fn finish(&mut self, result: Result<(), String>) -> (r: SyncAction)
        ensures
            same_data(*final(self), *old(self)),
            final(self).phase == SyncPhase::Finished,
            final(self).root == old(self).root,
            final(self).base == old(self).base,
            final(self).x64 == old(self).x64,
            final(self).needs_host_update == old(self).needs_host_update,
            final(self).needs_asset_update == old(self).needs_asset_update,
            r == SyncAction::Finish(result),
    {
        self.phase = SyncPhase::Finished;
        SyncAction::Finish(result)
    }

    fn check_critical(&mut self) -> (r: SyncAction)
        ensures
            same_data(*final(self), *old(self)),
            final(self).phase == SyncPhase::CheckingCritical,
            final(self).root == old(self).root,
            final(self).base == old(self).base,
            final(self).x64 == old(self).x64,
            final(self).version_dir == old(self).version_dir,
            final(self).needs_host_update == old(self).needs_host_update,
            final(self).needs_asset_update == old(self).needs_asset_update,
            checks_critical(*final(self), r),
    {
        let mut paths: Vec<String> = Vec::new();
        paths.push(injector_path(self.version_dir.as_str()));
        paths.push(support_library_path(self.version_dir.as_str(), self.x64));
        self.phase = SyncPhase::CheckingCritical;
        SyncAction::CheckFiles { paths }
    }

    fn download_assets(&mut self) -> (r: SyncAction)
        ensures
            same_data(*final(self), *old(self)),
            final(self).phase == SyncPhase::DownloadingAssets,
            final(self).root == old(self).root,
            final(self).base == old(self).base,
            final(self).x64 == old(self).x64,
            final(self).package_url == old(self).package_url,
            final(self).needs_host_update == old(self).needs_host_update,
            final(self).needs_asset_update == old(self).needs_asset_update,
            downloads_assets(*final(self), r),
    {
        self.phase = SyncPhase::DownloadingAssets;
        SyncAction::Download {
            url: self.package_url.clone(),
            destination: join_path(self.root.as_str(), "asset_package_temp.zip"),
        }
    }

    /// Takes the outcome of the last action and says what to do next.
    pub fn next(&mut self, event: SyncEvent) -> (r: SyncAction)
        ensures
            sync_transition(*old(self), event, *final(self), r),
    {
        match event {
            SyncEvent::VersionFetched(result) => {
                if self.phase != SyncPhase::VersionInfo {
                    return SyncAction::Ignore;
                }
                match result {
                    Err(e) => self.finish(Err(e)),
                    Ok(v) => {
                        self.version_dir = version_dir(self.base.as_str(), v.assembly_version.as_str());
                        self.download_url = v.download_url;
                        self.phase = SyncPhase::Inspecting;
                        SyncAction::InspectInstallation {
                            version_dir: self.version_dir.clone(),
                            manifest: join_path(self.version_dir.as_str(), "hashes.json"),
                        }
                    },
                }
            },
            SyncEvent::Inspected(found) => {
                if self.phase != SyncPhase::Inspecting {
                    return SyncAction::Ignore;
                }
                match found {
                    Installation::Manifest(Err(e)) => self.finish(
                        Err(concat("Failed to read hashes.json: ", e.as_str())),
                    ),
                    Installation::Manifest(Ok(text)) => match read_hash_manifest(text.as_str()) {
                        Err(m) => self.finish(Err(m)),
                        Ok(entries) => {
                            let mut paths: Vec<String> = Vec::new();
                            let mut i: usize = 0;
                            while i < entries.len()
                                invariant
                                    i <= entries@.len(),
                                    paths@.len() == i,
                                    forall|j: int| 0 <= j < i ==> (#[trigger] paths@[j])@ == path_join(
                                        self.version_dir@,
                                        entries@[j].0@,
                                    ),
                                decreases entries@.len() - i,
                            {
                                paths.push(join_path(self.version_dir.as_str(), entries[i].0.as_str()));
                                i = i + 1;
                            }
                            self.entries = entries;
                            self.phase = SyncPhase::Verifying;
                            SyncAction::ReadFiles { paths }
                        },
                    },
                    _ => {
                        self.needs_host_update = true;
                        self.phase = SyncPhase::AssetInfo;
                        SyncAction::FetchAssetInfo {
                            url: String::from_str(ASSET_META_URL),
                            timeout_secs: MANIFEST_TIMEOUT_SECS,
                        }
                    },
                }
            },
            SyncEvent::FilesRead(reads) => {
                if self.phase == SyncPhase::Verifying {
                    if reads.len() != self.entries.len() {
                        return SyncAction::Ignore;
                    }
                    match integrity_verdict(&self.entries, &reads) {
                        Err(m) => self.finish(Err(m)),
                        Ok(intact) => {
                            self.needs_host_update = !intact;
                            self.phase = SyncPhase::AssetInfo;
                            SyncAction::FetchAssetInfo {
                                url: String::from_str(ASSET_META_URL),
                                timeout_secs: MANIFEST_TIMEOUT_SECS,
                            }
                        },
                    }
                } else if self.phase == SyncPhase::VerifyingAssets {
                    if reads.len() != self.assets.len() {
                        return SyncAction::Ignore;
                    }
                    match verify_assets(&self.assets, &reads) {
                        Err(m) => self.finish(Err(m)),
                        Ok(()) => {
                            self.phase = SyncPhase::WritingAssetVersion;
                            let mut contents = String::new();
                            push_signed_decimal(&mut contents, self.asset_version as i64);
                            assert(contents@ =~= signed_decimal(self.asset_version as int));
                            SyncAction::WriteText {
                                path: join_path(self.root.as_str(), "dalamudAssets/asset.ver"),
                                contents,
                            }
                        },
                    }
                } else {
                    SyncAction::Ignore
                }
            },
            SyncEvent::AssetsFetched(result) => {
                if self.phase != SyncPhase::AssetInfo {
                    return SyncAction::Ignore;
                }
                match result {
                    Err(e) => self.finish(Err(e)),
                    Ok(a) => {
                        self.asset_version = a.version;
                        self.assets = a.assets;
                        self.package_url = a.package_url;
                        self.phase = SyncPhase::AssetVersion;
                        SyncAction::ReadText {
                            path: join_path(self.root.as_str(), "dalamudAssets/asset.ver"),
                        }
                    },
                }
            },
            SyncEvent::TextRead(t) => {
                if self.phase != SyncPhase::AssetVersion {
                    return SyncAction::Ignore;
                }
                let current = recorded_asset_version(&t);
                self.needs_asset_update = current < self.asset_version;
                if self.needs_host_update || self.needs_asset_update {
                    self.phase = SyncPhase::CreatingDirs;
                    SyncAction::CreateDirectories {
                        paths: required_directories(self.root.as_str(), self.base.as_str()),
                    }
                } else {
                    self.check_critical()
                }
            },
            SyncEvent::StepDone(result) => {
                if self.phase == SyncPhase::CopyingFonts {
                    return self.finish(Ok(()));
                }
                if !(self.phase == SyncPhase::CreatingDirs || self.phase == SyncPhase::DownloadingHost
                    || self.phase == SyncPhase::ExtractingHost || self.phase == SyncPhase::WritingMarker
                    || self.phase == SyncPhase::DownloadingAssets || self.phase
                    == SyncPhase::ExtractingAssets || self.phase == SyncPhase::WritingAssetVersion) {
                    return SyncAction::Ignore;
                }
                match result {
                    Err(e) => self.finish(Err(e)),
                    Ok(()) => {
                        if self.phase == SyncPhase::CreatingDirs {
                            if self.needs_host_update {
                                self.phase = SyncPhase::DownloadingHost;
                                SyncAction::Download {
                                    url: self.download_url.clone(),
                                    destination: join_path(self.root.as_str(), "dalamud_temp.zip"),
                                }
                            } else {
                                self.download_assets()
                            }
                        } else if self.phase == SyncPhase::DownloadingHost {
                            self.phase = SyncPhase::ExtractingHost;
                            SyncAction::Extract {
                                archive: join_path(self.root.as_str(), "dalamud_temp.zip"),
                                destination: self.version_dir.clone(),
                            }
                        } else if self.phase == SyncPhase::ExtractingHost {
                            self.phase = SyncPhase::WritingMarker;
                            SyncAction::WriteVersionMarker {
                                path: join_path(self.version_dir.as_str(), "version.json"),
                            }
                        } else if self.phase == SyncPhase::WritingMarker {
                            if self.needs_asset_update {
                                self.download_assets()
                            } else {
                                self.check_critical()
                            }
                        } else if self.phase == SyncPhase::DownloadingAssets {
                            self.phase = SyncPhase::ExtractingAssets;
                            SyncAction::Extract {
                                archive: join_path(self.root.as_str(), "asset_package_temp.zip"),
                                destination: join_path(self.root.as_str(), "dalamudAssets"),
                            }
                        } else if self.phase == SyncPhase::ExtractingAssets {
                            let dir = join_path(self.root.as_str(), "dalamudAssets");
                            let mut paths: Vec<String> = Vec::new();
                            let mut i: usize = 0;
                            while i < self.assets.len()
                                invariant
                                    i <= self.assets@.len(),
                                    paths@.len() == i,
                                    dir@ == path_join(self.root@, "dalamudAssets"@),
                                    forall|j: int| 0 <= j < i ==> (#[trigger] paths@[j])@ == path_join(
                                        dir@,
                                        self.assets@[j].file_name@,
                                    ),
                                decreases self.assets@.len() - i,
                            {
                                paths.push(join_path(dir.as_str(), self.assets[i].file_name.as_str()));
                                i = i + 1;
                            }
                            self.phase = SyncPhase::VerifyingAssets;
                            SyncAction::ReadFiles { paths }
                        } else {
                            self.check_critical()
                        }
                    },
                }
            },
            SyncEvent::FilesChecked(found) => {
                if self.phase == SyncPhase::CheckingCritical {
                    if found.len() != 2 {
                        return SyncAction::Ignore;
                    }
                    let injector = injector_path(self.version_dir.as_str());
                    let library = support_library_path(self.version_dir.as_str(), self.x64);
                    match check_critical_files(injector.as_str(), found[0], library.as_str(), found[1]) {
                        Err(m) => self.finish(Err(m)),
                        Ok(()) => {
                            let uires = join_path(self.root.as_str(), "dalamudAssets/UIRes");
                            let fonts = font_paths(uires.as_str());
                            let mut paths: Vec<String> = Vec::new();
                            paths.push(fonts[0].0.clone());
                            paths.push(fonts[0].1.clone());
                            paths.push(fonts[1].0.clone());
                            paths.push(fonts[1].1.clone());
                            self.phase = SyncPhase::CheckingFonts;
                            SyncAction::CheckFiles { paths }
                        },
                    }
                } else if self.phase == SyncPhase::CheckingFonts {
                    if found.len() != 4 {
                        return SyncAction::Ignore;
                    }
                    let uires = join_path(self.root.as_str(), "dalamudAssets/UIRes");
                    let fonts = font_paths(uires.as_str());
                    let mut present: Vec<(bool, bool)> = Vec::new();
                    present.push((found[0], found[1]));
                    present.push((found[2], found[3]));
                    let pairs = font_copies(&fonts, &present);
                    proof {
                        reveal_with_fuel(copies_of, 3);
                        let c = copies_of(fonts@, present@);
                        assert(fonts@.take(1).take(0) =~= fonts@.take(0));
                        assert(present@.take(1).take(0) =~= present@.take(0));
                        let uires_v = path_join(self.root@, "dalamudAssets/UIRes"@);
                        assert(fonts@[0].0@ == font_pair(uires_v, 0).0);
                        assert(fonts@[1].0@ == font_pair(uires_v, 1).0);
                        assert(pair_views(pairs@) =~= wanted_font_copies(uires_v, found@));
                    }
                    self.phase = SyncPhase::CopyingFonts;
                    SyncAction::CopyFiles { pairs }
                } else {
                    SyncAction::Ignore
                }
            },
        }
    }
}

} // verus!
