//! The console front end's small rules: password entry with masking and
//! backspace, and the boot files hashed to prove the client's version.

use vstd::prelude::*;
use crate::addon::FileRead;
use crate::digest::{hex_lower, sha1_digest, sha1_of, to_hex};

verus! {

broadcast use vstd::string::group_string_axioms;

/// What the console shows after one key of a password.
#[derive(PartialEq, Eq, Structural, Clone, Copy, Debug)]
pub enum KeyEcho {
    /// Enter: the password is complete.
    Finished,
    /// Backspace: rub out the last mask character.
    Erase,
    /// Any other key: show a mask character.
    Mask,
}

/// Applies one key to the password typed so far: a line break ends it, a
/// backspace removes its last character (if any), any other character is
/// appended.
pub fn password_key(password: &mut Vec<char>, key: char) -> (r: KeyEcho)
    ensures
        key == '\n' ==> r == KeyEcho::Finished && final(password)@ == old(password)@,
        key == '\x08' ==> r == KeyEcho::Erase && final(password)@ == if old(password)@.len() > 0 {
            old(password)@.drop_last()
        } else {
            old(password)@
        },
        key != '\n' && key != '\x08' ==> r == KeyEcho::Mask && final(password)@ == old(
            password,
        )@.push(key),
{
    if key == '\n' {
        KeyEcho::Finished
    } else if key == '\x08' {
        password.pop();
        KeyEcho::Erase
    } else {
        password.push(key);
        KeyEcho::Mask
    }
}

/// The launcher's boot files, whose digests prove the client's version.
pub open spec fn boot_file_names() -> Seq<Seq<char>> {
    seq![
        "ffxivboot.exe"@,
        "ffxivboot64.exe"@,
        "ffxivlauncher.exe"@,
        "ffxivlauncher64.exe"@,
        "ffxivupdater.exe"@,
        "ffxivupdater64.exe"@,
    ]
}

/// The SHA-1 digest of a file's bytes in lowercase hexadecimal.
pub fn generate_hash(data: &[u8]) -> (r: String)
    ensures
        r@ == hex_lower(sha1_of(data@)),
{
    let digest = sha1_digest(data);
    to_hex(digest.as_slice())
}

/// `name/hash` for each file that could be read, separated by commas.
pub open spec fn hash_list_of(names: Seq<String>, reads: Seq<FileRead>) -> Seq<char>
    decreases names.len(),
{
    if names.len() == 0 || reads.len() == 0 {
        seq![]
    } else {
        let n = (names.len() - 1) as int;
        let earlier = hash_list_of(names.take(n), reads.take(n));
        match reads[n] {
            FileRead::Contents(c) => {
                let item = names[n]@ + "/"@ + hex_lower(sha1_of(c@));
                if earlier.len() == 0 {
                    item
                } else {
                    earlier + ","@ + item
                }
            },
            _ => earlier,
        }
    }
}

/// The version proof: `name/hash` for each boot file that could be read, in
/// order, separated by commas; files that could not be read are left out.
pub fn boot_hashes(names: &Vec<String>, reads: &Vec<FileRead>) -> (r: String)
    requires
        reads@.len() == names@.len(),
    ensures
        r@ == hash_list_of(names@, reads@),
{
    let mut r = String::new();
    let mut i: usize = 0;
    while i < names.len()
        invariant
            reads@.len() == names@.len(),
            i <= names@.len(),
            r@ == hash_list_of(names@.take(i as int), reads@.take(i as int)),
        decreases names@.len() - i,
    {
        assert(names@.take(i + 1).take(i as int) =~= names@.take(i as int));
        assert(reads@.take(i + 1).take(i as int) =~= reads@.take(i as int));
        match &reads[i] {
            FileRead::Contents(c) => {
                if r.as_str().unicode_len() > 0 {
                    r.append(",");
                }
                r.append(names[i].as_str());
                r.append("/");
                let h = generate_hash(c.as_slice());
                r.append(h.as_str());
            },
            _ => {},
        }
        i = i + 1;
    }
    assert(names@.take(names@.len() as int) =~= names@);
    assert(reads@.take(reads@.len() as int) =~= reads@);
    r
}

/// The names of the boot files, in the order they are hashed.
pub fn boot_files() -> (r: Vec<String>)
    ensures
        r@.len() == 6,
        forall|i: int| 0 <= i < 6 ==> (#[trigger] r@[i])@ == boot_file_names()[i],
{
    let mut r: Vec<String> = Vec::new();
    r.push(String::from_str("ffxivboot.exe"));
    r.push(String::from_str("ffxivboot64.exe"));
    r.push(String::from_str("ffxivlauncher.exe"));
    r.push(String::from_str("ffxivlauncher64.exe"));
    r.push(String::from_str("ffxivupdater.exe"));
    r.push(String::from_str("ffxivupdater64.exe"));
    assert forall|i: int| 0 <= i < 6 implies (#[trigger] r@[i])@ == boot_file_names()[i] by {
        if i == 0 {
        } else if i == 1 {
        } else if i == 2 {
        } else if i == 3 {
        } else if i == 4 {
        } else {
        }
    }
    r
}

/// The message shown when the game cannot be started, in the client
/// language (0 Japanese, 1 English, 2 German, 3 French, 4 Russian), with
/// the operating system's reason after it.
pub open spec fn launch_error_text(language: u32, detail: Seq<char>) -> Seq<char> {
    if language == 0 {
        "実行可能ファイルを起動できませんでした。 ゲームパスは正しいですか? "@ + detail
    } else if language == 2 {
        "Die ausführbare Datei konnte nicht gestartet werden. Ist dein Spielpfad korrekt? "@ + detail
    } else if language == 3 {
        "Impossible de lancer l'exécutable. Votre chemin de jeu est-il correct? "@ + detail
    } else if language == 4 {
        "Не удалось запустить файл. Ввели ли вы корректный путь к игре? "@ + detail
    } else if language == 1 {
        "Could not launch executable. Is your game path correct? "@ + detail
    } else {
        "Unknown language."@
    }
}

/// The launch failure message in the client language; where the language
/// is not one of the five, only a note saying so.
pub fn launch_error_message(language: u32, detail: &str) -> (r: String)
    ensures
        r@ == launch_error_text(language, detail@),
{
    let mut r = if language == 0 {
        String::from_str("実行可能ファイルを起動できませんでした。 ゲームパスは正しいですか? ")
    } else if language == 2 {
        String::from_str(
            "Die ausführbare Datei konnte nicht gestartet werden. Ist dein Spielpfad korrekt? ",
        )
    } else if language == 3 {
        String::from_str("Impossible de lancer l'exécutable. Votre chemin de jeu est-il correct? ")
    } else if language == 4 {
        String::from_str("Не удалось запустить файл. Ввели ли вы корректный путь к игре? ")
    } else if language == 1 {
        String::from_str("Could not launch executable. Is your game path correct? ")
    } else {
        return String::from_str("Unknown language.");
    };
    r.append(detail);
    r
}

} // verus!
