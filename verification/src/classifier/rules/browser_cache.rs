use vstd::prelude::*;
use crate::classifier::rules::{found, verdict_view};
use crate::model::category::ArtifactCategory;
use crate::model::file_record::FileRecord;
use crate::scanner::index::{IndexView, ScanIndex};
use crate::text::{has_substring, lowercase, str_contains, str_eq, to_lowercase};

verus! {

/// Recognizes cache folders of Chromium-family browsers and Firefox.
pub struct BrowserCacheRule;

/// Whether a lower-cased name and path denote a browser cache folder.
pub open spec fn is_browser_cache(name: Seq<char>, path: Seq<char>) -> bool {
    if name == "cache"@ {
        has_substring(path, "\\google\\chrome\\"@) || has_substring(path, "\\microsoft\\edge\\"@)
            || has_substring(path, "\\brave\\brave-browser\\"@) || has_substring(path, "\\vivaldi\\"@)
            || has_substring(path, "\\chromium\\"@)
    } else if name == "code cache"@ {
        has_substring(path, "\\google\\chrome\\"@) || has_substring(path, "\\microsoft\\edge\\"@)
            || has_substring(path, "\\brave\\brave-browser\\"@)
    } else if name == "gpucache"@ || name == "shader cache"@ {
        has_substring(path, "\\google\\chrome\\"@) || has_substring(path, "\\microsoft\\edge\\"@)
            || has_substring(path, "\\brave\\"@)
    } else if name == "cache2"@ {
        has_substring(path, "\\mozilla\\firefox\\"@)
    } else if name == "startupcache"@ {
        has_substring(path, "\\mozilla\\firefox\\"@)
    } else {
        false
    }
}

/// The verdict of the browser-cache rule.
pub open spec fn browser_cache_verdict(v: IndexView, r: FileRecord) -> Option<(ArtifactCategory, Seq<char>)> {
    if r.is_dir && is_browser_cache(lowercase(r.name@), lowercase(r.path@)) {
        Some((ArtifactCategory::BrowserCache, "Browser cache folder — safe to clear, won't affect bookmarks or passwords"@))
    } else {
        None
    }
}

/// Chromium-family `cache`, `code cache`, `gpucache` and `shader cache`
/// folders under Chrome, Edge or Brave, `cache` under Vivaldi or Chromium,
/// and Firefox's `cache2` and `startupcache` under `\\mozilla\\firefox\\`
/// (lower-cased names and paths) are browser caches; a file never is.
pub proof fn law_known_browser_caches(v: IndexView, r: FileRecord)
    ensures
        ({
            let n = lowercase(r.name@);
            let p = lowercase(r.path@);
            &&& r.is_dir
            &&& ((n == "cache"@ || n == "code cache"@ || n == "gpucache"@ || n == "shader cache"@) && (has_substring(
                p,
                "\\google\\chrome\\"@,
            ) || has_substring(p, "\\microsoft\\edge\\"@)) || (n == "cache"@ || n == "code cache"@) && has_substring(
                p,
                "\\brave\\brave-browser\\"@,
            ) || n == "cache"@ && (has_substring(p, "\\vivaldi\\"@) || has_substring(p, "\\chromium\\"@))
                || (n == "cache2"@ || n == "startupcache"@) && has_substring(p, "\\mozilla\\firefox\\"@))
        }) ==> browser_cache_verdict(v, r) == Some(
            (ArtifactCategory::BrowserCache, "Browser cache folder — safe to clear, won't affect bookmarks or passwords"@),
        ),
        !r.is_dir ==> browser_cache_verdict(v, r) is None,
{
    reveal_strlit("cache");
    assert("cache"@.len() == 5);
    reveal_strlit("code cache");
    assert("code cache"@.len() == 10);
    reveal_strlit("gpucache");
    assert("gpucache"@.len() == 8);
    reveal_strlit("shader cache");
    assert("shader cache"@.len() == 12);
    reveal_strlit("cache2");
    assert("cache2"@.len() == 6);
    reveal_strlit("startupcache");
    assert("startupcache"@.len() == 12);
    assert("startupcache"@[1] != "shader cache"@[1]);
}

impl BrowserCacheRule {
    pub fn name(&self) -> (r: &'static str)
        ensures
            r@ == "Web Browser Cache"@,
    {
        "Web Browser Cache"
    }

    /// Known cache sub-folders of browser profiles, never profile roots.
    pub fn evaluate(&self, _index: &ScanIndex, record: &FileRecord) -> (r: Option<(ArtifactCategory, String)>)
        ensures
            verdict_view(r) == browser_cache_verdict(_index@, *record),
    {
        if !record.is_dir {
            return None;
        }
        let name = to_lowercase(record.name.as_str());
        let path_lower = to_lowercase(record.path.as_str());
        let n = name.as_str();
        let p = path_lower.as_str();
        let is_cache = if str_eq(n, "cache") {
            str_contains(p, "\\google\\chrome\\") || str_contains(p, "\\microsoft\\edge\\") || str_contains(
                p,
                "\\brave\\brave-browser\\",
            ) || str_contains(p, "\\vivaldi\\") || str_contains(p, "\\chromium\\")
        } else if str_eq(n, "code cache") {
            str_contains(p, "\\google\\chrome\\") || str_contains(p, "\\microsoft\\edge\\") || str_contains(
                p,
                "\\brave\\brave-browser\\",
            )
        } else if str_eq(n, "gpucache") || str_eq(n, "shader cache") {
            str_contains(p, "\\google\\chrome\\") || str_contains(p, "\\microsoft\\edge\\") || str_contains(
                p,
                "\\brave\\",
            )
        } else if str_eq(n, "cache2") {
            str_contains(p, "\\mozilla\\firefox\\")
        } else if str_eq(n, "startupcache") {
            str_contains(p, "\\mozilla\\firefox\\")
        } else {
            false
        };
        if is_cache {
            found(
                ArtifactCategory::BrowserCache,
                "Browser cache folder — safe to clear, won't affect bookmarks or passwords",
            )
        } else {
            None
        }
    }
}

} // verus!
