use vstd::prelude::*;
use crate::classifier::rules::{found, verdict_view};
use crate::model::category::ArtifactCategory;
use crate::model::file_record::FileRecord;
use crate::scanner::index::{IndexView, ScanIndex};
use crate::text::{has_substring, lowercase, str_contains, str_eq, to_lowercase};

verus! {

/// Recognizes offline caches of Discord, Spotify, Teams, Slack, WhatsApp and Zoom.
pub struct AppCacheRule;

/// The verdict of the app-cache rule on a lower-cased name and path.
pub open spec fn app_cache_verdict_of(is_dir: bool, name: Seq<char>, path: Seq<char>) -> Option<(ArtifactCategory, Seq<char>)> {
    let discord = (name == "cache"@ || name == "gpucache"@ || name == "code cache"@) && has_substring(path, "\\discord\\"@);
    let spotify = (name == "storage"@ || name == "data"@) && has_substring(path, "\\spotify\\"@)
        && !has_substring(path, "\\spotify\\users\\"@);
    let teams = name == "cache"@ && (has_substring(path, "\\microsoft\\teams\\"@) || has_substring(path, "\\teamsupdater\\"@));
    let slack = (name == "cache"@ || name == "gpucache"@) && has_substring(path, "\\slack\\"@);
    let whatsapp = name == "cache"@ && has_substring(path, "\\whatsapp\\"@);
    let zoom = name == "data"@ && has_substring(path, "\\zoom\\"@);
    if !is_dir {
        None
    } else if discord {
        Some((ArtifactCategory::AppCache, "Discord media cache — Discord will re-download images and videos as needed"@))
    } else if spotify {
        Some((ArtifactCategory::AppCache, "Spotify offline cache — songs will stream fresh from Spotify's servers"@))
    } else if teams {
        Some((ArtifactCategory::AppCache, "Microsoft Teams cache — Teams will rebuild it on next sign-in"@))
    } else if slack {
        Some((ArtifactCategory::AppCache, "Slack cache — Slack will re-download files and images as you use it"@))
    } else if whatsapp {
        Some((ArtifactCategory::AppCache, "WhatsApp Desktop cache — messages and media remain on your phone"@))
    } else if zoom {
        Some((ArtifactCategory::AppCache, "Zoom cache — your meetings and recordings are unaffected"@))
    } else {
        None
    }
}

/// The verdict of the app-cache rule.
pub open spec fn app_cache_verdict(v: IndexView, r: FileRecord) -> Option<(ArtifactCategory, Seq<char>)> {
    app_cache_verdict_of(r.is_dir, lowercase(r.name@), lowercase(r.path@))
}

/// The cache folders of Discord (`cache`, `gpucache`, `code cache` under
/// `\\discord\\`), Spotify (`storage`, `data` under `\\spotify\\` but not
/// its `users`), Teams (`cache` under `\\microsoft\\teams\\` or
/// `\\teamsupdater\\`), Slack (`cache`, `gpucache` under `\\slack\\`),
/// WhatsApp (`cache` under `\\whatsapp\\`) and Zoom (`data` under
/// `\\zoom\\`), matched on lower-cased names and paths, are app caches; a
/// file never is.
pub proof fn law_known_app_caches(v: IndexView, r: FileRecord)
    ensures
        ({
            let n = lowercase(r.name@);
            let p = lowercase(r.path@);
            &&& r.is_dir
            &&& ((n == "cache"@ || n == "gpucache"@ || n == "code cache"@) && has_substring(p, "\\discord\\"@)
                || (n == "storage"@ || n == "data"@) && has_substring(p, "\\spotify\\"@) && !has_substring(
                p,
                "\\spotify\\users\\"@,
            ) || n == "cache"@ && (has_substring(p, "\\microsoft\\teams\\"@) || has_substring(p, "\\teamsupdater\\"@))
                || (n == "cache"@ || n == "gpucache"@) && has_substring(p, "\\slack\\"@) || n == "cache"@
                && has_substring(p, "\\whatsapp\\"@) || n == "data"@ && has_substring(p, "\\zoom\\"@))
        }) ==> (app_cache_verdict(v, r) matches Some((c, _)) && c == ArtifactCategory::AppCache),
        !r.is_dir ==> app_cache_verdict(v, r) is None,
        r.is_dir && lowercase(r.name@) == "data"@ && has_substring(lowercase(r.path@), "\\zoom\\"@)
            && !has_substring(lowercase(r.path@), "\\spotify\\"@) ==> app_cache_verdict(v, r) == Some(
            (ArtifactCategory::AppCache, "Zoom cache — your meetings and recordings are unaffected"@),
        ),
{
    reveal_strlit("data");
    assert("data"@.len() == 4);
    reveal_strlit("cache");
    assert("cache"@.len() == 5);
    reveal_strlit("gpucache");
    assert("gpucache"@.len() == 8);
    reveal_strlit("code cache");
    assert("code cache"@.len() == 10);
}

impl AppCacheRule {
    pub fn name(&self) -> (r: &'static str)
        ensures
            r@ == "App Junk & Offline Cache"@,
    {
        "App Junk & Offline Cache"
    }

    /// Known cache sub-directories inside each app's data folder.
    pub fn evaluate(&self, _index: &ScanIndex, record: &FileRecord) -> (r: Option<(ArtifactCategory, String)>)
        ensures
            verdict_view(r) == app_cache_verdict(_index@, *record),
    {
        if !record.is_dir {
            return None;
        }
        let name = to_lowercase(record.name.as_str());
        let path_lower = to_lowercase(record.path.as_str());
        let n = name.as_str();
        let p = path_lower.as_str();
        let is_discord_cache = (str_eq(n, "cache") || str_eq(n, "gpucache") || str_eq(n, "code cache"))
            && str_contains(p, "\\discord\\");
        let is_spotify_cache = (str_eq(n, "storage") || str_eq(n, "data")) && str_contains(p, "\\spotify\\")
            && !str_contains(p, "\\spotify\\users\\");
        let is_teams_cache = str_eq(n, "cache") && (str_contains(p, "\\microsoft\\teams\\") || str_contains(
            p,
            "\\teamsupdater\\",
        ));
        let is_slack_cache = (str_eq(n, "cache") || str_eq(n, "gpucache")) && str_contains(p, "\\slack\\");
        let is_whatsapp_cache = str_eq(n, "cache") && str_contains(p, "\\whatsapp\\");
        let is_zoom_cache = str_eq(n, "data") && str_contains(p, "\\zoom\\");
        if is_discord_cache {
            found(ArtifactCategory::AppCache, "Discord media cache — Discord will re-download images and videos as needed")
        } else if is_spotify_cache {
            found(ArtifactCategory::AppCache, "Spotify offline cache — songs will stream fresh from Spotify's servers")
        } else if is_teams_cache {
            found(ArtifactCategory::AppCache, "Microsoft Teams cache — Teams will rebuild it on next sign-in")
        } else if is_slack_cache {
            found(ArtifactCategory::AppCache, "Slack cache — Slack will re-download files and images as you use it")
        } else if is_whatsapp_cache {
            found(ArtifactCategory::AppCache, "WhatsApp Desktop cache — messages and media remain on your phone")
        } else if is_zoom_cache {
            found(ArtifactCategory::AppCache, "Zoom cache — your meetings and recordings are unaffected")
        } else {
            None
        }
    }
}

} // verus!
