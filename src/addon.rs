//! The add-on host's on-disk layout, and the checks that decide whether its
//! installation and its shared assets can be trusted or must be fetched anew.

use vstd::prelude::*;
use crate::digest::{hex_lower, hex_upper, sha1_digest, sha1_of, to_hex, to_hex_upper};
use crate::text::{concat, ends_with, has_suffix, join_path, parse_i32, parsed_i32, path_join};

verus! {

broadcast use vstd::string::group_string_axioms;

/// The subdirectory that holds the host's own files.
pub open spec fn addon_dir_name() -> Seq<char> {
    "addon"@
}

/// The configured add-on path, ending in the `addon` subdirectory exactly
/// once: kept as it is where it already ends in `/addon` or `\addon`.
pub open spec fn addon_base_of(path: Seq<char>) -> Seq<char> {
    if ends_with(path, "/addon"@) || ends_with(path, "\\addon"@) {
        path
    } else {
        path_join(path, addon_dir_name())
    }
}

/// Normalises the configured add-on path so that it ends in `addon`.
pub fn addon_base_path(dalamud_path: &str) -> (r: String)
    ensures
        r@ == addon_base_of(dalamud_path@),
{
    if has_suffix(dalamud_path, "/addon") || has_suffix(dalamud_path, "\\addon") {
        String::from_str(dalamud_path)
    } else {
        join_path(dalamud_path, "addon")
    }
}

/// The directory of one host version: `<base>/Hooks/<version>`.
pub open spec fn version_dir_of(base: Seq<char>, version: Seq<char>) -> Seq<char> {
    path_join(path_join(base, "Hooks"@), version)
}

pub fn version_dir(base: &str, version: &str) -> (r: String)
    ensures
        r@ == version_dir_of(base@, version@),
{
    let hooks = join_path(base, "Hooks");
    join_path(hooks.as_str(), version)
}

/// The injector inside a version directory.
pub fn injector_path(version_dir: &str) -> (r: String)
    ensures
        r@ == path_join(version_dir@, "Dalamud.Injector.exe"@),
{
    join_path(version_dir, "Dalamud.Injector.exe")
}

/// The support library's file name for the CPU architecture.
pub open spec fn support_library_name(x64: bool) -> Seq<char> {
    if x64 {
        "FASMX64.DLL"@
    } else {
        "FASM.DLL"@
    }
}

/// The support library inside a version directory.
pub fn support_library_path(version_dir: &str, x64: bool) -> (r: String)
    ensures
        r@ == path_join(version_dir@, support_library_name(x64)),
{
    if x64 {
        join_path(version_dir, "FASMX64.DLL")
    } else {
        join_path(version_dir, "FASM.DLL")
    }
}

/// The directories under the add-on root that a synchronisation creates.
pub open spec fn required_dir_names() -> Seq<Seq<char>> {
    seq![
        "dalamudAssets"@,
        "dalamudAssets/UIRes"@,
        "installedPlugins"@,
        "pluginConfigs"@,
        "runtime"@,
        "logs"@,
    ]
}

/// Every directory that must exist before an update: the host's base
/// directory, then each of the required directories under the root.
pub fn required_directories(root: &str, base: &str) -> (r: Vec<String>)
    ensures
        r@.len() == 7,
        r@[0]@ == base@,
        forall|i: int| 0 <= i < 6 ==> (#[trigger] r@[i + 1])@ == path_join(root@, required_dir_names()[i]),
{
    let mut r: Vec<String> = Vec::new();
    r.push(String::from_str(base));
    r.push(join_path(root, "dalamudAssets"));
    r.push(join_path(root, "dalamudAssets/UIRes"));
    r.push(join_path(root, "installedPlugins"));
    r.push(join_path(root, "pluginConfigs"));
    r.push(join_path(root, "runtime"));
    r.push(join_path(root, "logs"));
    assert forall|i: int| 0 <= i < 6 implies (#[trigger] r@[i + 1])@ == path_join(root@, required_dir_names()[i]) by {
        if i == 0 {
        } else if i == 1 {
        } else if i == 2 {
        } else if i == 3 {
        } else if i == 4 {
        } else {
        }
    }
    r
}

/// What reading one file gave.
pub enum FileRead {
    /// The file does not exist.
    Missing,
    /// The file exists but could not be read; the reason.
    Unreadable(String),
    /// The file's bytes.
    Contents(Vec<u8>),
}

/// An installed file matches its manifest entry: it was read and its
/// SHA-1 digest, in lowercase hexadecimal, is the recorded hash.
pub open spec fn entry_intact(expected: Seq<char>, read: FileRead) -> bool {
    read matches FileRead::Contents(c) && hex_lower(sha1_of(c@)) == expected
}

/// The manifest entries before `i` all match.
pub open spec fn intact_before(entries: Seq<(String, String)>, reads: Seq<FileRead>, i: int) -> bool {
    forall|j: int| 0 <= j < i ==> entry_intact(entries[j].1@, #[trigger] reads[j])
}

/// The installation's integrity, given its manifest entries (relative path,
/// expected hash) and what reading each listed file gave, in the same order.
/// It is intact exactly when every listed file was read and matches; the
/// check fails with an error where a file could not be read before any
/// missing or mismatching one was found.
pub fn integrity_verdict(entries: &Vec<(String, String)>, reads: &Vec<FileRead>) -> (r: Result<
    bool,
    String,
>)
    requires
        reads@.len() == entries@.len(),
    ensures
        r == Ok::<bool, String>(true) <==> intact_before(entries@, reads@, entries@.len() as int),
        r is Err <==> exists|i: int|
            0 <= i < entries@.len() && intact_before(entries@, reads@, i) && #[trigger] reads@[i] is Unreadable,
        r matches Err(m) ==> exists|i: int|
            0 <= i < entries@.len() && intact_before(entries@, reads@, i) && (#[trigger] reads@[i] matches FileRead::Unreadable(e)
                && m@ == "Failed to read file "@ + entries@[i].0@ + ": "@ + e@),
{
    let mut i: usize = 0;
    while i < entries.len()
        invariant
            reads@.len() == entries@.len(),
            i <= entries@.len(),
            intact_before(entries@, reads@, i as int),
        decreases entries@.len() - i,
    {
        match &reads[i] {
            FileRead::Missing => {
                assert(!entry_intact(entries@[i as int].1@, reads@[i as int]));
                return Ok(false);
            },
            FileRead::Unreadable(e) => {
                let mut m = String::from_str("Failed to read file ");
                m.append(entries[i].0.as_str());
                m.append(": ");
                m.append(e.as_str());
                assert(!entry_intact(entries@[i as int].1@, reads@[i as int]));
                return Err(m);
            },
            FileRead::Contents(c) => {
                let digest = sha1_digest(c.as_slice());
                let hash = to_hex(digest.as_slice());
                if hash != entries[i].1 {
                    assert(!entry_intact(entries@[i as int].1@, reads@[i as int]));
                    return Ok(false);
                }
            },
        }
        i = i + 1;
    }
    Ok(true)
}

/// The relative path of each manifest entry, in order.
pub fn manifest_files(entries: &Vec<(String, String)>) -> (r: Vec<String>)
    ensures
        r@.len() == entries@.len(),
        forall|i: int| 0 <= i < r@.len() ==> (#[trigger] r@[i])@ == entries@[i].0@,
{
    let mut r: Vec<String> = Vec::new();
    let mut i: usize = 0;
    while i < entries.len()
        invariant
            i <= entries@.len(),
            r@.len() == i,
            forall|j: int| 0 <= j < i ==> (#[trigger] r@[j])@ == entries@[j].0@,
        decreases entries@.len() - i,
    {
        r.push(entries[i].0.clone());
        i = i + 1;
    }
    r
}

/// The asset-bundle version recorded on disk: the number written in the
/// version file, or 0 where the file could not be read or holds no number.
pub open spec fn recorded_asset_version_of(text: Option<String>) -> i32 {
    match text {
        Some(t) => match parsed_i32(t@) {
            Some(v) => v,
            None => 0,
        },
        None => 0,
    }
}

/// Reads the recorded asset-bundle version from the version file's text.
pub fn recorded_asset_version(text: &Option<String>) -> (r: i32)
    ensures
        r == recorded_asset_version_of(*text),
{
    match text {
        Some(t) => match parse_i32(t.as_str()) {
            Some(v) => v,
            None => 0,
        },
        None => 0,
    }
}

/// One file of the asset bundle, as its manifest lists it.
pub struct AssetFile {
    pub url: String,
    pub file_name: String,
    pub hash: Option<String>,
}

/// An installed asset is acceptable: it exists, and where the manifest
/// records a hash it was read and its SHA-1 digest, in uppercase
/// hexadecimal, is that hash.
pub open spec fn asset_intact(asset: AssetFile, read: FileRead) -> bool {
    &&& !(read is Missing)
    &&& asset.hash matches Some(h) ==> (read matches FileRead::Contents(c) && hex_upper(sha1_of(c@))
        == h@)
}

/// The error for the first asset that is not acceptable.
pub open spec fn asset_error(asset: AssetFile, read: FileRead) -> Seq<char> {
    match read {
        FileRead::Missing => "Missing required asset file: "@ + asset.file_name@,
        FileRead::Unreadable(e) => "Failed to read file "@ + asset.file_name@ + ": "@ + e@,
        FileRead::Contents(_) => "Hash verification failed for "@ + asset.file_name@,
    }
}

pub open spec fn assets_intact_before(assets: Seq<AssetFile>, reads: Seq<FileRead>, i: int) -> bool {
    forall|j: int| 0 <= j < i ==> asset_intact(assets[j], #[trigger] reads[j])
}

/// Checks the freshly extracted asset bundle against its manifest, given
/// what reading each listed file gave, in the same order: every file must
/// exist and match its recorded hash; the first that does not is reported.
pub fn verify_assets(assets: &Vec<AssetFile>, reads: &Vec<FileRead>) -> (r: Result<(), String>)
    requires
        reads@.len() == assets@.len(),
    ensures
        r is Ok <==> assets_intact_before(assets@, reads@, assets@.len() as int),
        r matches Err(m) ==> exists|i: int|
            0 <= i < assets@.len() && assets_intact_before(assets@, reads@, i) && !asset_intact(
                assets@[i],
                #[trigger] reads@[i],
            ) && m@ == asset_error(assets@[i], reads@[i]),
{
    let mut i: usize = 0;
    while i < assets.len()
        invariant
            reads@.len() == assets@.len(),
            i <= assets@.len(),
            assets_intact_before(assets@, reads@, i as int),
        decreases assets@.len() - i,
    {
        let name = assets[i].file_name.as_str();
        match &reads[i] {
            FileRead::Missing => {
                return Err(concat("Missing required asset file: ", name));
            },
            FileRead::Unreadable(e) => {
                if assets[i].hash.is_some() {
                    let mut m = String::from_str("Failed to read file ");
                    m.append(name);
                    m.append(": ");
                    m.append(e.as_str());
                    return Err(m);
                }
            },
            FileRead::Contents(c) => {
                match &assets[i].hash {
                    Some(h) => {
                        let digest = sha1_digest(c.as_slice());
                        let hash = to_hex_upper(digest.as_slice());
                        if hash != *h {
                            return Err(concat("Hash verification failed for ", name));
                        }
                    },
                    None => {},
                }
            },
        }
        i = i + 1;
    }
    Ok(())
}

/// The entries of a JSON object whose values are all strings, in the order
/// of their keys; nothing where the text is not such an object.
pub uninterp spec fn string_map_of(text: Seq<char>) -> Option<Seq<(Seq<char>, Seq<char>)>>;

/// Relies on `serde_json::from_str` into a `BTreeMap<String, String>`: the
/// entries depend on the text alone, and iterating the map yields them in
/// key order. The error is serde_json's message.
#[verifier::external_body]
fn parse_string_map(text: &str) -> (r: Result<Vec<(String, String)>, String>)
    ensures
        r is Ok <==> string_map_of(text@) is Some,
        r matches Ok(v) ==> v@.len() == string_map_of(text@)->0.len() && forall|i: int|
            0 <= i < v@.len() ==> (#[trigger] v@[i]).0@ == string_map_of(text@)->0[i].0 && v@[i].1@
                == string_map_of(text@)->0[i].1,
{
    serde_json::from_str::<std::collections::BTreeMap<String, String>>(text).map(
        |m| m.into_iter().collect(),
    ).map_err(|e| e.to_string())
}

/// Reads an installation's hash manifest (`hashes.json`): each relative
/// path with its expected hash.
pub fn read_hash_manifest(text: &str) -> (r: Result<Vec<(String, String)>, String>)
    ensures
        r is Ok <==> string_map_of(text@) is Some,
        r matches Ok(v) ==> v@.len() == string_map_of(text@)->0.len() && forall|i: int|
            0 <= i < v@.len() ==> (#[trigger] v@[i]).0@ == string_map_of(text@)->0[i].0 && v@[i].1@
                == string_map_of(text@)->0[i].1,
        r matches Err(m) ==> exists|e: Seq<char>| m@ == "Failed to parse hashes.json: "@ + e,
{
    match parse_string_map(text) {
        Ok(v) => Ok(v),
        Err(e) => Err(concat("Failed to parse hashes.json: ", e.as_str())),
    }
}

/// The error for a critical file that is missing after synchronisation.
pub open spec fn missing_critical_of(what: Seq<char>, path: Seq<char>) -> Seq<char> {
    what + " not found at "@ + path + ". Please ensure Dalamud is properly installed."@
}

/// The two files without which injection cannot work must both exist: the
/// injector first, then the support library.
pub fn check_critical_files(
    injector: &str,
    injector_exists: bool,
    library: &str,
    library_exists: bool,
) -> (r: Result<(), String>)
    ensures
        r is Ok <==> injector_exists && library_exists,
        !injector_exists ==> (r matches Err(m) && m@ == missing_critical_of(
            "Dalamud injector"@,
            injector@,
        )),
        injector_exists && !library_exists ==> (r matches Err(m) && m@ == missing_critical_of(
            "FASM DLL"@,
            library@,
        )),
{
    if !injector_exists {
        let mut m = String::from_str("Dalamud injector");
        m.append(" not found at ");
        m.append(injector);
        m.append(". Please ensure Dalamud is properly installed.");
        return Err(m);
    }
    if !library_exists {
        let mut m = String::from_str("FASM DLL");
        m.append(" not found at ");
        m.append(library);
        m.append(". Please ensure Dalamud is properly installed.");
        return Err(m);
    }
    Ok(())
}

/// The bundled font files and the names the host looks for them under.
pub open spec fn font_names() -> Seq<(Seq<char>, Seq<char>)> {
    seq![
        ("FontAwesomeFreeSolid.otf"@, "FontAwesomeFreeSolid"@),
        ("NotoSansCJKjp-Medium.otf"@, "NotoSansJpMedium"@),
    ]
}

/// Each bundled font and its alias, as paths inside the UI-resource
/// directory.
pub fn font_paths(uires: &str) -> (r: Vec<(String, String)>)
    ensures
        r@.len() == 2,
        forall|i: int| 0 <= i < 2 ==> (#[trigger] r@[i]).0@ == path_join(uires@, font_names()[i].0)
            && r@[i].1@ == path_join(uires@, font_names()[i].1),
{
    let mut r: Vec<(String, String)> = Vec::new();
    r.push((join_path(uires, "FontAwesomeFreeSolid.otf"), join_path(uires, "FontAwesomeFreeSolid")));
    r.push((join_path(uires, "NotoSansCJKjp-Medium.otf"), join_path(uires, "NotoSansJpMedium")));
    assert forall|i: int| 0 <= i < 2 implies (#[trigger] r@[i]).0@ == path_join(uires@, font_names()[i].0)
        && r@[i].1@ == path_join(uires@, font_names()[i].1) by {
        if i == 0 {
        } else {
        }
    }
    r
}

/// Whether the font at `i` is to be copied: its file is present and its
/// alias is not.
pub open spec fn wants_copy(present: Seq<(bool, bool)>, i: int) -> bool {
    present[i].0 && !present[i].1
}

/// The pairs whose font is to be copied, in order.
pub open spec fn copies_of(fonts: Seq<(String, String)>, present: Seq<(bool, bool)>) -> Seq<(String, String)>
    decreases fonts.len(),
{
    if fonts.len() == 0 {
        seq![]
    } else {
        let n = (fonts.len() - 1) as int;
        let earlier = copies_of(fonts.take(n), present.take(n));
        if wants_copy(present, n) {
            earlier.push(fonts[n])
        } else {
            earlier
        }
    }
}

/// The copies to make: each font whose file is present (`present[i].0`)
/// and whose alias is not (`present[i].1`), in order.
pub fn font_copies(fonts: &Vec<(String, String)>, present: &Vec<(bool, bool)>) -> (r: Vec<(String, String)>)
    requires
        present@.len() == fonts@.len(),
    ensures
        r@.len() == copies_of(fonts@, present@).len(),
        forall|k: int| 0 <= k < r@.len() ==> (#[trigger] r@[k]).0@ == copies_of(fonts@, present@)[k].0@
            && r@[k].1@ == copies_of(fonts@, present@)[k].1@,
{
    let mut r: Vec<(String, String)> = Vec::new();
    let mut i: usize = 0;
    while i < fonts.len()
        invariant
            present@.len() == fonts@.len(),
            i <= fonts@.len(),
            r@.len() == copies_of(fonts@.take(i as int), present@.take(i as int)).len(),
            forall|k: int| 0 <= k < r@.len() ==> (#[trigger] r@[k]).0@ == copies_of(
                fonts@.take(i as int),
                present@.take(i as int),
            )[k].0@ && r@[k].1@ == copies_of(fonts@.take(i as int), present@.take(i as int))[k].1@,
        decreases fonts@.len() - i,
    {
        let ghost before = copies_of(fonts@.take(i as int), present@.take(i as int));
        assert(fonts@.take(i + 1).take(i as int) =~= fonts@.take(i as int));
        assert(present@.take(i + 1).take(i as int) =~= present@.take(i as int));
        if present[i].0 && !present[i].1 {
            let pair = (fonts[i].0.clone(), fonts[i].1.clone());
            r.push(pair);
        }
        i = i + 1;
    }
    assert(fonts@.take(fonts@.len() as int) =~= fonts@);
    assert(present@.take(present@.len() as int) =~= present@);
    r
}

} // verus!
