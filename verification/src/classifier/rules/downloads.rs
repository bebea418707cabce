use vstd::prelude::*;
use vstd::string::StringExecFns;
use crate::classifier::rules::verdict_view;
use crate::model::category::ArtifactCategory;
use crate::model::file_record::{FileRecord, NANOS_PER_DAY, Timestamp, now_timestamp, timestamp_in_range};
use crate::paths::{documented_extension, file_extension, plain_name};
use crate::scanner::index::{IndexView, ScanIndex};
use crate::text::{
    decimal, eq_ascii_folded, eq_ignore_ascii_case, has_substring, has_suffix, lowercase, push_char,
    push_decimal, str_contains, str_ends_with, str_eq, to_lowercase,
};

verus! {

/// Recognizes installers in a Downloads folder that are older than a number of days.
pub struct DownloadsRule {
    pub stale_days: i64,
}

/// `TimeDelta::days(d)` is representable (it panics otherwise).
pub open spec fn stale_days_valid(d: i64) -> bool {
    -9223372036854775 <= d * 86400 <= 9223372036854775
}

/// An integer written in decimal, with a leading minus sign when negative.
pub open spec fn signed_decimal(i: int) -> Seq<char> {
    if i < 0 {
        seq!['-'] + decimal((-i) as nat)
    } else {
        decimal(i as nat)
    }
}

/// Whole days in a signed span of nanoseconds, rounded toward zero.
pub open spec fn whole_days(nanos: int) -> int {
    if nanos >= 0 {
        nanos / (NANOS_PER_DAY as int)
    } else {
        -((-nanos) / (NANOS_PER_DAY as int))
    }
}

/// Within `steps` parent steps from `curr` there is a record named "downloads"
/// (ASCII case-insensitively).
pub open spec fn downloads_ancestor(v: IndexView, curr: u64, steps: nat) -> bool
    decreases steps,
{
    steps > 0 && v.records.contains_key(curr) && (eq_ascii_folded(v.records[curr].name@, "downloads"@)
        || downloads_ancestor(v, v.records[curr].parent_id, (steps - 1) as nat))
}

/// The record lies in a Downloads folder: by its stored path when it has one,
/// otherwise by the names of its first five ancestors.
pub open spec fn in_downloads(v: IndexView, r: FileRecord) -> bool {
    if r.path@.len() > 0 {
        has_substring(r.path@, "/Downloads/"@) || has_substring(r.path@, "\\Downloads\\"@)
            || has_suffix(r.path@, "/Downloads"@) || has_suffix(r.path@, "\\Downloads"@)
    } else {
        downloads_ancestor(v, r.parent_id, 5)
    }
}

/// Installer extensions (lower case).
pub open spec fn installer_ext(e: Seq<char>) -> bool {
    e == "exe"@ || e == "msi"@ || e == "iso"@ || e == "dmg"@ || e == "pkg"@
}

/// The verdict of the Downloads rule at time `now`.
pub open spec fn downloads_verdict(rule: DownloadsRule, v: IndexView, r: FileRecord, now: Timestamp) -> Option<(ArtifactCategory, Seq<char>)> {
    if r.is_dir || !in_downloads(v, r) {
        None
    } else {
        match documented_extension(r.name@) {
            None => None,
            Some(e) => if !installer_ext(lowercase(e)) {
                None
            } else {
                match r.modified_at {
                    None => None,
                    Some(m) => {
                        let age = now.unix_nanos - m.unix_nanos;
                        if age > rule.stale_days * (NANOS_PER_DAY as int) {
                            Some((ArtifactCategory::StaleInstaller, "Downloaded installer older than "@
                                + signed_decimal(rule.stale_days as int) + " days ("@ + signed_decimal(
                                whole_days(age),
                            ) + " days old)"@))
                        } else {
                            None
                        }
                    },
                }
            },
        }
    }
}

/// A file with a stored path in a Downloads folder (`/Downloads/` or
/// `\Downloads\` inside it, or `/Downloads` or `\Downloads` at its end), whose
/// extension is an installer's (exe, msi, iso, dmg or pkg, in any case that
/// lower-cases to them) and whose age at `now` exceeds the threshold in days,
/// is a stale installer, with the threshold and its age in whole days in the
/// reason; a directory never is.
pub proof fn law_old_installers_in_downloads_are_stale(rule: DownloadsRule, v: IndexView, r: FileRecord, now: Timestamp, e: Seq<char>, m: Timestamp)
    requires
        !r.is_dir,
        has_substring(r.path@, "\\Downloads\\"@) || has_suffix(r.path@, "\\Downloads"@) || has_substring(
            r.path@,
            "/Downloads/"@,
        ) || has_suffix(r.path@, "/Downloads"@),
        documented_extension(r.name@) == Some(e),
        lowercase(e) == "exe"@ || lowercase(e) == "msi"@ || lowercase(e) == "iso"@ || lowercase(e) == "dmg"@
            || lowercase(e) == "pkg"@,
        r.modified_at == Some(m),
        now.unix_nanos - m.unix_nanos > rule.stale_days * 86_400_000_000_000,
    ensures
        downloads_verdict(rule, v, r, now) == Some(
            (
                ArtifactCategory::StaleInstaller,
                "Downloaded installer older than "@ + signed_decimal(rule.stale_days as int) + " days ("@
                    + signed_decimal(whole_days(now.unix_nanos - m.unix_nanos)) + " days old)"@,
            ),
        ),
{
    if r.path@.len() == 0 {
        reveal_strlit("\\Downloads\\");
        reveal_strlit("\\Downloads");
        reveal_strlit("/Downloads/");
        reveal_strlit("/Downloads");
        if has_substring(r.path@, "\\Downloads\\"@) {
            let i = choose|i: int| crate::text::occurs_at(r.path@, "\\Downloads\\"@, i);
        }
        if has_substring(r.path@, "/Downloads/"@) {
            let i = choose|i: int| crate::text::occurs_at(r.path@, "/Downloads/"@, i);
        }
        assert(false);
    }
}

/// A record without a stored path lies in a Downloads folder when its parent,
/// or one of the next four records up its parent chain, is named "downloads"
/// in any ASCII case; past five steps, or with none so named, it does not.
pub proof fn law_downloads_found_by_ancestor_names(v: IndexView, r: FileRecord)
    ensures
        r.path@.len() == 0 && v.records.contains_key(r.parent_id) && eq_ascii_folded(
            v.records[r.parent_id].name@,
            "downloads"@,
        ) ==> in_downloads(v, r),
        r.path@.len() == 0 && v.records.contains_key(r.parent_id) && v.records.contains_key(
            v.records[r.parent_id].parent_id,
        ) && eq_ascii_folded(v.records[v.records[r.parent_id].parent_id].name@, "downloads"@) ==> in_downloads(v, r),
        r.path@.len() == 0 && !v.records.contains_key(r.parent_id) ==> !in_downloads(v, r),
{
    reveal_with_fuel(downloads_ancestor, 3);
}

/// The Downloads rule never flags a directory, nor a file whose extension is
/// not an installer's.
pub proof fn law_only_installer_files_are_stale(rule: DownloadsRule, v: IndexView, r: FileRecord, now: Timestamp)
    ensures
        r.is_dir ==> downloads_verdict(rule, v, r, now) is None,
        documented_extension(r.name@) is None ==> downloads_verdict(rule, v, r, now) is None,
        (documented_extension(r.name@) matches Some(e) && lowercase(e) != "exe"@ && lowercase(e) != "msi"@
            && lowercase(e) != "iso"@ && lowercase(e) != "dmg"@ && lowercase(e) != "pkg"@) ==> downloads_verdict(
            rule,
            v,
            r,
            now,
        ) is None,
{
}

/// Appends an integer in decimal, with a minus sign when negative.
fn push_signed_decimal(s: &mut String, i: i128)
    requires
        i > i128::MIN,
    ensures
        final(s)@ == old(s)@ + signed_decimal(i as int),
{
    if i < 0 {
        push_char(s, '-');
        push_decimal(s, (-i) as u128);
        assert(final(s)@ =~= old(s)@ + signed_decimal(i as int));
    } else {
        push_decimal(s, i as u128);
    }
}

impl Default for DownloadsRule {
    /// The rule with its default threshold of 30 days.
    fn default() -> (r: Self)
        ensures
            r.stale_days == 30,
    {
        DownloadsRule { stale_days: 30 }
    }
}

impl DownloadsRule {
    /// A rule with the given staleness threshold in days.
    pub fn new(stale_days: i64) -> (r: Self)
        ensures
            r.stale_days == stale_days,
    {
        DownloadsRule { stale_days }
    }


    pub fn name(&self) -> (r: &'static str)
        ensures
            r@ == "Stale Downloaded Installers"@,
    {
        "Stale Downloaded Installers"
    }

    /// The record's parent chain (up to five steps) passes a folder named Downloads.
    fn ancestor_is_downloads(index: &ScanIndex, start: u64) -> (r: bool)
        ensures
            r == downloads_ancestor(index@, start, 5),
    {
        let mut curr = start;
        let mut i: usize = 0;
        while i < 5
            invariant
                i <= 5,
                downloads_ancestor(index@, start, 5) == downloads_ancestor(index@, curr, (5 - i) as nat),
            decreases 5 - i,
        {
            match index.get_record(curr) {
                Some(parent) => {
                    if eq_ignore_ascii_case(parent.name.as_str(), "downloads") {
                        return true;
                    }
                    curr = parent.parent_id;
                },
                None => {
                    return false;
                },
            }
            i = i + 1;
        }
        false
    }

    /// A file in a Downloads folder with an installer extension
    /// (exe, msi, iso, dmg, pkg; any case) whose age at `now` exceeds the
    /// threshold.  The extension is read by the platform's path rules, so the
    /// verdict is stated for records whose name is a plain file name.
    pub fn evaluate_at(&self, index: &ScanIndex, record: &FileRecord, now: Timestamp) -> (r: Option<(ArtifactCategory, String)>)
        requires
            stale_days_valid(self.stale_days),
            timestamp_in_range(now),
            record.modified_at matches Some(m) ==> timestamp_in_range(m),
        ensures
            plain_name(record.name@) ==> verdict_view(r) == downloads_verdict(*self, index@, *record, now),
            record.is_dir ==> r is None,
    {
        if record.is_dir {
            return None;
        }
        let in_downloads = if !record.path.as_str().is_empty() {
            let p = record.path.as_str();
            str_contains(p, "/Downloads/") || str_contains(p, "\\Downloads\\") || str_ends_with(p, "/Downloads")
                || str_ends_with(p, "\\Downloads")
        } else {
            Self::ancestor_is_downloads(index, record.parent_id)
        };
        if !in_downloads {
            return None;
        }
        let ext = match file_extension(record.name.as_str()) {
            Some(e) => to_lowercase(e.as_str()),
            None => {
                return None;
            },
        };
        let is_installer = str_eq(ext.as_str(), "exe") || str_eq(ext.as_str(), "msi") || str_eq(ext.as_str(), "iso")
            || str_eq(ext.as_str(), "dmg") || str_eq(ext.as_str(), "pkg");
        if !is_installer {
            return None;
        }
        match record.modified_at {
            Some(modified) => {
                let age: i128 = now.unix_nanos - modified.unix_nanos;
                let threshold: i128 = (self.stale_days as i128) * NANOS_PER_DAY;
                if age > threshold {
                    let days: i128 = if age >= 0 {
                        age / NANOS_PER_DAY
                    } else {
                        -((-age) / NANOS_PER_DAY)
                    };
                    let mut reason = String::from_str("Downloaded installer older than ");
                    push_signed_decimal(&mut reason, self.stale_days as i128);
                    reason.append(" days (");
                    push_signed_decimal(&mut reason, days);
                    reason.append(" days old)");
                    return Some((ArtifactCategory::StaleInstaller, reason));
                }
            },
            None => {},
        }
        None
    }

    /// `evaluate_at` with the current time read from the clock; no verdict when
    /// the clock gives no time.
    pub fn evaluate(&self, index: &ScanIndex, record: &FileRecord) -> (r: Option<(ArtifactCategory, String)>)
        requires
            stale_days_valid(self.stale_days),
            record.modified_at matches Some(m) ==> timestamp_in_range(m),
        ensures
            record.is_dir ==> r is None,
            plain_name(record.name@) ==> r is None || exists|now: Timestamp|
                timestamp_in_range(now) && verdict_view(r) == downloads_verdict(*self, index@, *record, now),
    {
        match now_timestamp() {
            Some(now) => self.evaluate_at(index, record, now),
            None => None,
        }
    }
}

} // verus!
