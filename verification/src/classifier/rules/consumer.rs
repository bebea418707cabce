use vstd::prelude::*;
use crate::classifier::rules::{found, verdict_view};
use crate::model::category::ArtifactCategory;
use crate::model::file_record::FileRecord;
use crate::paths::{documented_extension, file_extension, plain_name};
use crate::scanner::index::{IndexView, ScanIndex};
use crate::text::{
    has_prefix, has_substring, has_suffix, lowercase, str_contains, str_ends_with, str_eq, str_starts_with,
    to_lowercase,
};

verus! {

/// Recognizes download and shader caches of game launchers.
pub struct GameCacheRule;

/// The verdict of the game-cache rule on a lower-cased name and path.
pub open spec fn game_cache_verdict_of(is_dir: bool, name: Seq<char>, path: Seq<char>) -> Option<(ArtifactCategory, Seq<char>)> {
    let steam_download = name == "downloading"@ && (has_substring(path, "\\steam\\"@) || has_substring(path, "\\steamapps\\"@));
    let steam_shader = name == "shadercache"@ && has_substring(path, "\\steam\\"@);
    let epic = name == ".egstore"@ && (has_substring(path, "\\epic games\\"@) || has_substring(path, "\\epicgames\\"@));
    let gog = name == "delivery"@ && has_substring(path, "\\gog galaxy\\"@);
    let ea = name == "__donotdelete"@ && (has_substring(path, "\\origin\\"@) || has_substring(path, "\\ea app\\"@));
    let generic_shader = (name == "shadercache"@ || name == "shader cache"@ || name == "dx12shadercache"@)
        && (has_substring(path, "\\steam\\"@) || has_substring(path, "\\epic games\\"@) || has_substring(path, "\\gog galaxy\\"@));
    if !is_dir {
        None
    } else if steam_download {
        Some((ArtifactCategory::GameCache, "Steam incomplete / staged downloads cache — safe to clear"@))
    } else if steam_shader || generic_shader {
        Some((ArtifactCategory::GameCache, "Game shader cache — games may take a bit longer to start once, then return to normal"@))
    } else if epic {
        Some((ArtifactCategory::GameCache, "Epic Games download staging folder — incomplete downloads, not installed games"@))
    } else if gog {
        Some((ArtifactCategory::GameCache, "GOG Galaxy delivery cache — your installed games and saves are unaffected"@))
    } else if ea {
        Some((ArtifactCategory::GameCache, "EA App download staging cache — installed games are untouched"@))
    } else {
        None
    }
}

/// The verdict of the game-cache rule.
pub open spec fn game_cache_verdict(v: IndexView, r: FileRecord) -> Option<(ArtifactCategory, Seq<char>)> {
    game_cache_verdict_of(r.is_dir, lowercase(r.name@), lowercase(r.path@))
}

/// Steam's `downloading` and shader caches, shader caches under Epic or GOG,
/// Epic's `.egstore`, GOG's `delivery` and the EA App's `__donotdelete`
/// (lower-cased names and paths) are game caches; a file never is.
pub proof fn law_known_game_caches(v: IndexView, r: FileRecord)
    ensures
        ({
            let n = lowercase(r.name@);
            let p = lowercase(r.path@);
            &&& r.is_dir
            &&& (n == "downloading"@ && (has_substring(p, "\\steam\\"@) || has_substring(p, "\\steamapps\\"@))
                || (n == "shadercache"@ || n == "shader cache"@ || n == "dx12shadercache"@) && (has_substring(
                p,
                "\\steam\\"@,
            ) || has_substring(p, "\\epic games\\"@) || has_substring(p, "\\gog galaxy\\"@)) || n == ".egstore"@
                && (has_substring(p, "\\epic games\\"@) || has_substring(p, "\\epicgames\\"@)) || n == "delivery"@
                && has_substring(p, "\\gog galaxy\\"@) || n == "__donotdelete"@ && (has_substring(p, "\\origin\\"@)
                || has_substring(p, "\\ea app\\"@)))
        }) ==> (game_cache_verdict(v, r) matches Some((c, _)) && c == ArtifactCategory::GameCache),
        !r.is_dir ==> game_cache_verdict(v, r) is None,
{
}

/// A folder inside a Windows temp directory (`\\appdata\\local\\temp\\` or
/// `\\windows\\temp\\` in its lower-cased path) is leftover temp data unless
/// its name is wrapped in braces (an installer in progress); a `.dmp` file (any
/// case) in a Windows Error Reporting folder is a crash dump; nothing else is.
pub proof fn law_temp_folders_and_crash_dumps(v: IndexView, r: FileRecord, e: Seq<char>)
    ensures
        r.is_dir && (has_substring(lowercase(r.path@), "\\appdata\\local\\temp\\"@) || has_substring(
            lowercase(r.path@),
            "\\windows\\temp\\"@,
        )) && !(has_prefix(lowercase(r.name@), "{"@) && has_suffix(lowercase(r.name@), "}"@)) ==> temp_files_verdict(
            v,
            r,
        ) == Some((ArtifactCategory::TempFiles, "Leftover temporary folder from Windows or an installer — safe to remove"@)),
        r.is_dir && has_prefix(lowercase(r.name@), "{"@) && has_suffix(lowercase(r.name@), "}"@) ==> temp_files_verdict(
            v,
            r,
        ) is None,
        !r.is_dir && (has_substring(lowercase(r.path@), "\\microsoft\\windows\\wer\\"@) || has_substring(
            lowercase(r.path@),
            "\\crashdumps\\"@,
        )) && documented_extension(r.name@) == Some(e) && lowercase(e) == "dmp"@ ==> temp_files_verdict(v, r) == Some(
            (ArtifactCategory::CrashDumps, "Windows crash dump file from a previous app crash — safe to delete"@),
        ),
        !r.is_dir && !has_substring(lowercase(r.path@), "\\microsoft\\windows\\wer\\"@) && !has_substring(
            lowercase(r.path@),
            "\\crashdumps\\"@,
        ) ==> temp_files_verdict(v, r) is None,
{
}

impl GameCacheRule {
    pub fn name(&self) -> (r: &'static str)
        ensures
            r@ == "Game Launcher Cache"@,
    {
        "Game Launcher Cache"
    }

    /// Steam, Epic, GOG Galaxy and EA App staging and shader caches.
    pub fn evaluate(&self, _index: &ScanIndex, record: &FileRecord) -> (r: Option<(ArtifactCategory, String)>)
        ensures
            verdict_view(r) == game_cache_verdict(_index@, *record),
    {
        if !record.is_dir {
            return None;
        }
        let name = to_lowercase(record.name.as_str());
        let path_lower = to_lowercase(record.path.as_str());
        let n = name.as_str();
        let p = path_lower.as_str();
        let is_steam_download_cache = str_eq(n, "downloading") && (str_contains(p, "\\steam\\") || str_contains(
            p,
            "\\steamapps\\",
        ));
        let is_steam_shader_cache = str_eq(n, "shadercache") && str_contains(p, "\\steam\\");
        let is_epic_cache = str_eq(n, ".egstore") && (str_contains(p, "\\epic games\\") || str_contains(
            p,
            "\\epicgames\\",
        ));
        let is_gog_cache = str_eq(n, "delivery") && str_contains(p, "\\gog galaxy\\");
        let is_ea_cache = str_eq(n, "__donotdelete") && (str_contains(p, "\\origin\\") || str_contains(p, "\\ea app\\"));
        let is_generic_shader = (str_eq(n, "shadercache") || str_eq(n, "shader cache") || str_eq(n, "dx12shadercache"))
            && (str_contains(p, "\\steam\\") || str_contains(p, "\\epic games\\") || str_contains(p, "\\gog galaxy\\"));
        if is_steam_download_cache {
            found(ArtifactCategory::GameCache, "Steam incomplete / staged downloads cache — safe to clear")
        } else if is_steam_shader_cache || is_generic_shader {
            found(
                ArtifactCategory::GameCache,
                "Game shader cache — games may take a bit longer to start once, then return to normal",
            )
        } else if is_epic_cache {
            found(
                ArtifactCategory::GameCache,
                "Epic Games download staging folder — incomplete downloads, not installed games",
            )
        } else if is_gog_cache {
            found(
                ArtifactCategory::GameCache,
                "GOG Galaxy delivery cache — your installed games and saves are unaffected",
            )
        } else if is_ea_cache {
            found(ArtifactCategory::GameCache, "EA App download staging cache — installed games are untouched")
        } else {
            None
        }
    }
}

/// Recognizes leftover folders in the Windows temp directories and crash dump files.
pub struct TempFilesRule;

/// Whether a lower-cased path lies in a Windows Error Reporting folder: the
/// report store under `Microsoft\Windows\WER` or the local `CrashDumps` folder.
pub open spec fn in_error_reporting_folder(path: Seq<char>) -> bool {
    has_substring(path, "\\microsoft\\windows\\wer\\"@) || has_substring(path, "\\crashdumps\\"@)
}

/// The verdict of the temp-files rule.
pub open spec fn temp_files_verdict(v: IndexView, r: FileRecord) -> Option<(ArtifactCategory, Seq<char>)> {
    let path = lowercase(r.path@);
    let in_temp = has_substring(path, "\\appdata\\local\\temp\\"@) || has_substring(path, "\\windows\\temp\\"@);
    let name = lowercase(r.name@);
    if r.is_dir && in_temp {
        if has_prefix(name, "{"@) && has_suffix(name, "}"@) {
            None
        } else {
            Some((ArtifactCategory::TempFiles, "Leftover temporary folder from Windows or an installer — safe to remove"@))
        }
    } else if !r.is_dir && in_error_reporting_folder(path) && (documented_extension(r.name@) matches Some(e)
        && lowercase(e) == "dmp"@) {
        Some((ArtifactCategory::CrashDumps, "Windows crash dump file from a previous app crash — safe to delete"@))
    } else {
        None
    }
}

impl TempFilesRule {
    pub fn name(&self) -> (r: &'static str)
        ensures
            r@ == "Temporary Files & Crash Dumps"@,
    {
        "Temporary Files & Crash Dumps"
    }

    /// Folders inside the Windows temp directories (except GUID-named ones, which
    /// may be active installs), and `.dmp` files in Windows Error Reporting folders.  The dump test reads the file
    /// extension, so the verdict is stated for records whose name is a plain file name.
    pub fn evaluate(&self, _index: &ScanIndex, record: &FileRecord) -> (r: Option<(ArtifactCategory, String)>)
        ensures
            plain_name(record.name@) ==> verdict_view(r) == temp_files_verdict(_index@, *record),
            record.is_dir ==> verdict_view(r) == temp_files_verdict(_index@, *record),
    {
        let path_lower = to_lowercase(record.path.as_str());
        let p = path_lower.as_str();
        let in_windows_temp = str_contains(p, "\\appdata\\local\\temp\\") || str_contains(p, "\\windows\\temp\\");
        if record.is_dir && in_windows_temp {
            let name = to_lowercase(record.name.as_str());
            if str_starts_with(name.as_str(), "{") && str_ends_with(name.as_str(), "}") {
                return None;
            }
            return found(
                ArtifactCategory::TempFiles,
                "Leftover temporary folder from Windows or an installer — safe to remove",
            );
        }
        let in_wer = str_contains(p, "\\microsoft\\windows\\wer\\") || str_contains(p, "\\crashdumps\\");
        if !record.is_dir && in_wer {
            match file_extension(record.name.as_str()) {
                Some(e) => {
                    let ext = to_lowercase(e.as_str());
                    if str_eq(ext.as_str(), "dmp") {
                        return found(
                            ArtifactCategory::CrashDumps,
                            "Windows crash dump file from a previous app crash — safe to delete",
                        );
                    }
                },
                None => {},
            }
        }
        None
    }
}

} // verus!
