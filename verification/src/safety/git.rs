use vstd::prelude::*;
use vstd::string::StringExecFns;
use crate::model::candidate::GitRepoStatus;
use crate::paths::{path_join, path_starts_with, relative_text, slash_path, slash_under, verbatim_path};
use crate::text::{decimal, push_decimal, str_eq};

verus! {

/// The dirty files of one repository, relative to its working directory.
#[derive(Debug)]
pub struct CachedRepoStatus {
    pub repo_workdir: String,
    pub dirty_files: Vec<String>,
}

/// Caches Git answers: the working directories already examined (with their
/// dirty files, or the error met reading them), and the paths known to lie
/// outside any repository.
pub struct GitSafetyChecker {
    pub repo_cache: Vec<(String, Result<CachedRepoStatus, String>)>,
    pub not_in_repo: Vec<String>,
}

/// The reason given for a dirty working tree.
pub open spec fn dirty_reason(workdir: Seq<char>, n: nat) -> Seq<char> {
    "Git repository at '"@ + workdir + "' has "@ + decimal(n)
        + " uncommitted change(s). Commit or stash before cleaning."@
}

/// The verdict for `n` uncommitted changes outside the candidate: dirty with a
/// reason when there is at least one, clean otherwise.
pub open spec fn is_dirty_verdict(r: (GitRepoStatus, Option<String>), workdir: Seq<char>, n: usize) -> bool {
    if n > 0 {
        r.0 == (GitRepoStatus::Dirty { modified_count: n }) && (r.1 matches Some(s) && s@ == dirty_reason(workdir, n as nat))
    } else {
        r.0 == GitRepoStatus::Clean && r.1 is None
    }
}

/// The verdict for a repository whose status could not be read.
pub open spec fn is_error_verdict(r: (GitRepoStatus, Option<String>), message: String) -> bool {
    r.0 == (GitRepoStatus::Error { message }) && r.1 == Some(message)
}

/// The working directory, the target and the dirty files are written so that
/// every platform joins and compares them alike: the working directory ends
/// with `/` and is not a verbatim path, each dirty file is a relative path
/// without backslashes or drive characters, and the target and each joined
/// path are slash paths.
pub open spec fn slash_setting(target: Seq<char>, st: CachedRepoStatus) -> bool {
    &&& st.repo_workdir@.len() > 0
    &&& st.repo_workdir@.last() == '/'
    &&& !verbatim_path(st.repo_workdir@)
    &&& slash_path(target)
    &&& forall|k: int|
        0 <= k < st.dirty_files@.len() ==> relative_text(#[trigger] st.dirty_files@[k]@) && slash_path(
            st.repo_workdir@ + st.dirty_files@[k]@,
        )
}

/// For each dirty file, whether the working directory joined with it lies
/// under the target, component by component.
pub open spec fn containment(target: Seq<char>, workdir: Seq<char>, files: Seq<String>) -> Seq<bool> {
    files.map_values(|f: String| slash_under(workdir + f@, target))
}

/// The number of dirty files outside the target.
pub open spec fn changes_outside(target: Seq<char>, st: CachedRepoStatus) -> nat {
    count_outside(containment(target, st.repo_workdir@, st.dirty_files@))
}

/// `r` is the verdict a cached repository result gives for `target`: dirty or
/// clean for some count of changes (at most the number of dirty files) when
/// the status was read, exactly the number of dirty files outside the target
/// when the paths are slash paths, and the error verdict when it could not be
/// read.
pub open spec fn is_verdict_for(r: (GitRepoStatus, Option<String>), target: Seq<char>, status: Result<CachedRepoStatus, String>) -> bool {
    match status {
        Ok(st) => {
            &&& exists|n: usize| n <= st.dirty_files@.len() && is_dirty_verdict(r, st.repo_workdir@, n)
            &&& slash_setting(target, st) ==> is_dirty_verdict(r, st.repo_workdir@, changes_outside(target, st) as usize)
        },
        Err(m) => is_error_verdict(r, m),
    }
}

/// The verdict is a function of the target and the repository's status (for
/// slash paths): so answering from a cached status gives what reading the same
/// status afresh gives.
pub proof fn law_verdict_follows_from_target_and_status(
    r1: (GitRepoStatus, Option<String>),
    r2: (GitRepoStatus, Option<String>),
    target: Seq<char>,
    status: Result<CachedRepoStatus, String>,
)
    requires
        is_verdict_for(r1, target, status),
        is_verdict_for(r2, target, status),
        status matches Ok(st) ==> slash_setting(target, st),
    ensures
        r1.0 == r2.0,
        r1.1 is None <==> r2.1 is None,
        r1.1 matches Some(a) ==> (r2.1 matches Some(b) && a@ == b@),
{
}

/// Some flag is false exactly when the count of false flags is positive.
proof fn lemma_count_outside_positive(inside: Seq<bool>)
    ensures
        count_outside(inside) > 0 <==> exists|i: int| 0 <= i < inside.len() && !inside[i],
        count_outside(inside) <= inside.len(),
    decreases inside.len(),
{
    if inside.len() > 0 {
        let prev = inside.drop_last();
        lemma_count_outside_positive(prev);
        if exists|i: int| 0 <= i < prev.len() && !prev[i] {
            let i = choose|i: int| 0 <= i < prev.len() && !prev[i];
            assert(!inside[i]);
        }
        if exists|i: int| 0 <= i < inside.len() && !inside[i] {
            let i = choose|i: int| 0 <= i < inside.len() && !inside[i];
            if i < prev.len() {
                assert(!prev[i]);
            }
        }
    }
}

/// For slash paths, a repository with a dirty file outside the target makes
/// the verdict dirty, with a reason; one whose dirty files all lie inside the
/// target (or that has none) is clean.
pub proof fn law_changes_outside_the_target_make_it_dirty(
    r: (GitRepoStatus, Option<String>),
    target: Seq<char>,
    st: CachedRepoStatus,
)
    requires
        is_verdict_for(r, target, Ok(st)),
        slash_setting(target, st),
    ensures
        (exists|k: int|
            0 <= k < st.dirty_files@.len() && !slash_under(st.repo_workdir@ + #[trigger] st.dirty_files@[k]@, target))
            ==> (r.0 matches GitRepoStatus::Dirty { modified_count } && modified_count > 0 && r.1 is Some),
        (forall|k: int|
            0 <= k < st.dirty_files@.len() ==> slash_under(st.repo_workdir@ + #[trigger] st.dirty_files@[k]@, target))
            ==> r == (GitRepoStatus::Clean, None::<String>),
{
    let c = containment(target, st.repo_workdir@, st.dirty_files@);
    lemma_count_outside_positive(c);
    if exists|k: int| 0 <= k < st.dirty_files@.len() && !slash_under(st.repo_workdir@ + #[trigger] st.dirty_files@[k]@, target) {
        let k = choose|k: int| 0 <= k < st.dirty_files@.len() && !slash_under(st.repo_workdir@ + #[trigger] st.dirty_files@[k]@, target);
        assert(!c[k]);
        let n = changes_outside(target, st);
        assert(n > 0);
        assert(c.len() == st.dirty_files@.len());
        assert(st.dirty_files@.len() == st.dirty_files.len());
        assert(n as usize == n);
    }
    if exists|i: int| 0 <= i < c.len() && !c[i] {
        let i = choose|i: int| 0 <= i < c.len() && !c[i];
        assert(!slash_under(st.repo_workdir@ + st.dirty_files@[i]@, target));
    }
}

/// The paths of the status entries that count as uncommitted changes (entries
/// without a readable path are left out), in order.
pub open spec fn dirty_paths_of(es: Seq<(u32, Option<String>)>) -> Seq<String>
    decreases es.len(),
{
    if es.len() == 0 {
        Seq::empty()
    } else {
        let rest = dirty_paths_of(es.drop_last());
        match es.last().1 {
            Some(p) => if dirty_bits(es.last().0) { rest.push(p) } else { rest },
            None => rest,
        }
    }
}

/// The number of entries that are false.
pub open spec fn count_outside(inside: Seq<bool>) -> nat
    decreases inside.len(),
{
    if inside.len() == 0 {
        0
    } else {
        count_outside(inside.drop_last()) + if inside.last() { 0nat } else { 1nat }
    }
}

/// The prefix of the message cached for a repository whose status could not be read.
pub open spec fn status_error_text(m: Seq<char>) -> Seq<char> {
    "Git error reading repository status: "@ + m
}

pub const GIT_STATUS_INDEX_NEW: u32 = 1;
pub const GIT_STATUS_INDEX_MODIFIED: u32 = 2;
pub const GIT_STATUS_INDEX_DELETED: u32 = 4;
pub const GIT_STATUS_INDEX_RENAMED: u32 = 8;
pub const GIT_STATUS_WT_NEW: u32 = 128;
pub const GIT_STATUS_WT_MODIFIED: u32 = 256;
pub const GIT_STATUS_WT_DELETED: u32 = 512;
pub const GIT_STATUS_WT_RENAMED: u32 = 2048;

/// A status entry counts as an uncommitted change when it is new, modified,
/// deleted or renamed, in the index or in the working tree.
pub open spec fn dirty_bits(bits: u32) -> bool {
    bits & (GIT_STATUS_INDEX_NEW | GIT_STATUS_INDEX_MODIFIED | GIT_STATUS_INDEX_DELETED
        | GIT_STATUS_INDEX_RENAMED | GIT_STATUS_WT_NEW | GIT_STATUS_WT_MODIFIED | GIT_STATUS_WT_DELETED
        | GIT_STATUS_WT_RENAMED) != 0
}

/// libgit2's change flags decide whether a status entry is an uncommitted
/// change: an entry carrying any of the index-new, index-modified,
/// index-deleted, index-renamed, worktree-new, worktree-modified,
/// worktree-deleted or worktree-renamed flags is one, and an entry carrying
/// none of them (clean, ignored, or only a type or conflict flag) is not.
pub proof fn law_change_flags_make_an_entry_dirty(bits: u32)
    ensures
        bits & GIT_STATUS_INDEX_NEW != 0 ==> dirty_bits(bits),
        bits & GIT_STATUS_INDEX_MODIFIED != 0 ==> dirty_bits(bits),
        bits & GIT_STATUS_INDEX_DELETED != 0 ==> dirty_bits(bits),
        bits & GIT_STATUS_INDEX_RENAMED != 0 ==> dirty_bits(bits),
        bits & GIT_STATUS_WT_NEW != 0 ==> dirty_bits(bits),
        bits & GIT_STATUS_WT_MODIFIED != 0 ==> dirty_bits(bits),
        bits & GIT_STATUS_WT_DELETED != 0 ==> dirty_bits(bits),
        bits & GIT_STATUS_WT_RENAMED != 0 ==> dirty_bits(bits),
        dirty_bits(bits) ==> bits & 1u32 != 0 || bits & 2u32 != 0 || bits & 4u32 != 0 || bits & 8u32 != 0
            || bits & 128u32 != 0 || bits & 256u32 != 0 || bits & 512u32 != 0 || bits & 2048u32 != 0,
{
    assert(GIT_STATUS_INDEX_NEW == 1u32 && GIT_STATUS_INDEX_MODIFIED == 2u32 && GIT_STATUS_INDEX_DELETED == 4u32
        && GIT_STATUS_INDEX_RENAMED == 8u32 && GIT_STATUS_WT_NEW == 128u32 && GIT_STATUS_WT_MODIFIED == 256u32
        && GIT_STATUS_WT_DELETED == 512u32 && GIT_STATUS_WT_RENAMED == 2048u32);
    let all: u32 = GIT_STATUS_INDEX_NEW | GIT_STATUS_INDEX_MODIFIED | GIT_STATUS_INDEX_DELETED
        | GIT_STATUS_INDEX_RENAMED | GIT_STATUS_WT_NEW | GIT_STATUS_WT_MODIFIED | GIT_STATUS_WT_DELETED
        | GIT_STATUS_WT_RENAMED;
    assert(dirty_bits(bits) == (bits & all != 0));
    assert(all == 2959u32) by (bit_vector)
        requires
            all == 1u32 | 2u32 | 4u32 | 8u32 | 128u32 | 256u32 | 512u32 | 2048u32,
    ;
    assert(
        (bits & 2959u32 != 0) <==> (bits & 1u32 != 0 || bits & 2u32 != 0 || bits & 4u32 != 0 || bits & 8u32 != 0
            || bits & 128u32 != 0 || bits & 256u32 != 0 || bits & 512u32 != 0 || bits & 2048u32 != 0)
    ) by (bit_vector);
}

/// A status entry with a readable path and any change flag is listed among the
/// uncommitted changes.
pub proof fn law_flagged_entries_are_listed(es: Seq<(u32, Option<String>)>, i: int)
    requires
        0 <= i < es.len(),
        es[i].1 is Some,
        es[i].0 & GIT_STATUS_INDEX_NEW != 0 || es[i].0 & GIT_STATUS_INDEX_MODIFIED != 0 || es[i].0
            & GIT_STATUS_INDEX_DELETED != 0 || es[i].0 & GIT_STATUS_INDEX_RENAMED != 0 || es[i].0 & GIT_STATUS_WT_NEW
            != 0 || es[i].0 & GIT_STATUS_WT_MODIFIED != 0 || es[i].0 & GIT_STATUS_WT_DELETED != 0 || es[i].0
            & GIT_STATUS_WT_RENAMED != 0,
    ensures
        dirty_paths_of(es).contains(es[i].1.unwrap()),
    decreases es.len(),
{
    law_change_flags_make_an_entry_dirty(es[i].0);
    let rest = dirty_paths_of(es.drop_last());
    if i < es.len() - 1 {
        assert(es.drop_last()[i] == es[i]);
        law_flagged_entries_are_listed(es.drop_last(), i);
        let k = choose|k: int| 0 <= k < rest.len() && rest[k] == es[i].1.unwrap();
        assert(dirty_paths_of(es)[k] == rest[k]);
    } else {
        assert(dirty_paths_of(es) == rest.push(es[i].1.unwrap()));
        assert(dirty_paths_of(es)[rest.len() as int] == es[i].1.unwrap());
    }
}

/// The path is recorded, as text, among those outside any repository.
pub open spec fn recorded_outside(not_in_repo: Seq<String>, target: Seq<char>) -> bool {
    exists|i: int| 0 <= i < not_in_repo.len() && #[trigger] not_in_repo[i]@ == target
}

/// What the cache lookup knows of a working directory that does not cover the
/// target: the two texts differ, and for slash paths the target does not lie
/// under it.
pub open spec fn covers_text(workdir: Seq<char>, target: Seq<char>) -> bool {
    workdir == target || (slash_path(workdir) && slash_path(target) && slash_under(target, workdir))
}

/// What the cache lookup knows of a working directory that covers the target:
/// for slash paths, the target lies under it.
pub open spec fn may_cover(workdir: Seq<char>, target: Seq<char>) -> bool {
    slash_path(workdir) && slash_path(target) ==> slash_under(target, workdir)
}

/// `i` is the first cache entry recorded for the working directory `w`.
pub open spec fn first_entry_for(cache: Seq<(String, Result<CachedRepoStatus, String>)>, w: Seq<char>, i: int) -> bool {
    &&& 0 <= i < cache.len()
    &&& cache[i].0@ == w
    &&& forall|k: int| 0 <= k < i ==> cache[k].0@ != w
}

/// Every cached working directory is a slash path, and entry `j` is the first
/// whose working directory the slash path `target` lies under.
pub open spec fn slash_cache_cover(cache: Seq<(String, Result<CachedRepoStatus, String>)>, target: Seq<char>, j: int) -> bool {
    &&& slash_path(target)
    &&& forall|k: int| 0 <= k < cache.len() ==> slash_path(#[trigger] cache[k].0@)
    &&& 0 <= j < cache.len()
    &&& slash_under(target, cache[j].0@)
    &&& forall|k: int| 0 <= k < j ==> !slash_under(target, #[trigger] cache[k].0@)
}

/// The cache entry `repo_status_from` builds from a status read.
pub open spec fn status_read_from(st: Result<CachedRepoStatus, String>, workdir: Seq<char>, entries: Result<Vec<(u32, Option<String>)>, String>) -> bool {
    match entries {
        Ok(es) => st matches Ok(c) && c.repo_workdir@ == workdir && c.dirty_files@ == dirty_paths_of(es@),
        Err(m) => st matches Err(t) && t@ == status_error_text(m@),
    }
}

impl CachedRepoStatus {
    /// A copy of the status.
    pub fn copy(&self) -> (r: Self)
        ensures
            r.repo_workdir == self.repo_workdir,
            r.dirty_files@ == self.dirty_files@,
    {
        let mut files: Vec<String> = Vec::new();
        let mut i: usize = 0;
        while i < self.dirty_files.len()
            invariant
                i <= self.dirty_files.len(),
                files@ == self.dirty_files@.take(i as int),
            decreases self.dirty_files.len() - i,
        {
            files.push(self.dirty_files[i].clone());
            assert(self.dirty_files@.take(i + 1) =~= self.dirty_files@.take(i as int).push(self.dirty_files@[i as int]));
            i = i + 1;
        }
        assert(self.dirty_files@.take(self.dirty_files.len() as int) =~= self.dirty_files@);
        CachedRepoStatus { repo_workdir: self.repo_workdir.clone(), dirty_files: files }
    }
}

impl Default for GitSafetyChecker {
    /// An empty cache.
    fn default() -> (r: Self)
        ensures
            r.repo_cache@.len() == 0,
            r.not_in_repo@.len() == 0,
    {
        Self::new()
    }
}

impl GitSafetyChecker {
    /// An empty cache.
    pub fn new() -> (r: Self)
        ensures
            r.repo_cache@.len() == 0,
            r.not_in_repo@.len() == 0,
    {
        GitSafetyChecker { repo_cache: Vec::new(), not_in_repo: Vec::new() }
    }

    /// Whether a status entry's bits (libgit2's `GIT_STATUS_*` flags) count as an
    /// uncommitted change.
    pub fn is_dirty_status(bits: u32) -> (r: bool)
        ensures
            r == dirty_bits(bits),
            r <==> (bits & GIT_STATUS_INDEX_NEW != 0 || bits & GIT_STATUS_INDEX_MODIFIED != 0 || bits
                & GIT_STATUS_INDEX_DELETED != 0 || bits & GIT_STATUS_INDEX_RENAMED != 0 || bits & GIT_STATUS_WT_NEW
                != 0 || bits & GIT_STATUS_WT_MODIFIED != 0 || bits & GIT_STATUS_WT_DELETED != 0 || bits
                & GIT_STATUS_WT_RENAMED != 0),
    {
        proof {
            law_change_flags_make_an_entry_dirty(bits);
        }
        (bits & (GIT_STATUS_INDEX_NEW | GIT_STATUS_INDEX_MODIFIED | GIT_STATUS_INDEX_DELETED
            | GIT_STATUS_INDEX_RENAMED | GIT_STATUS_WT_NEW | GIT_STATUS_WT_MODIFIED | GIT_STATUS_WT_DELETED
            | GIT_STATUS_WT_RENAMED)) != 0
    }

    /// The verdict for `count` uncommitted changes outside the candidate.
    pub fn dirty_verdict(workdir: &str, count: usize) -> (r: (GitRepoStatus, Option<String>))
        ensures
            is_dirty_verdict(r, workdir@, count),
    {
        if count > 0 {
            let mut reason = String::from_str("Git repository at '");
            reason.append(workdir);
            reason.append("' has ");
            push_decimal(&mut reason, count as u128);
            reason.append(" uncommitted change(s). Commit or stash before cleaning.");
            (GitRepoStatus::Dirty { modified_count: count }, Some(reason))
        } else {
            (GitRepoStatus::Clean, None)
        }
    }

    /// The verdict for a repository whose status could not be read.
    pub fn error_verdict(message: &String) -> (r: (GitRepoStatus, Option<String>))
        ensures
            is_error_verdict(r, *message),
    {
        (GitRepoStatus::Error { message: message.clone() }, Some(message.clone()))
    }

    /// The verdict from which dirty files lie inside the candidate: the ones
    /// that do not are uncommitted changes that block it.
    pub fn verdict_from_containment(workdir: &str, inside: &Vec<bool>) -> (r: (GitRepoStatus, Option<String>))
        ensures
            count_outside(inside@) <= inside@.len(),
            is_dirty_verdict(r, workdir@, count_outside(inside@) as usize),
    {
        let mut n: usize = 0;
        let mut i: usize = 0;
        while i < inside.len()
            invariant
                i <= inside.len(),
                n == count_outside(inside@.take(i as int)),
                n <= i,
            decreases inside.len() - i,
        {
            assert(inside@.take(i + 1).drop_last() =~= inside@.take(i as int));
            if !inside[i] {
                n = n + 1;
            }
            i = i + 1;
        }
        assert(inside@.take(inside.len() as int) =~= inside@);
        Self::dirty_verdict(workdir, n)
    }

    /// Tells for each dirty file whether it lies inside the candidate (the
    /// working directory joined with the file, tested by the platform's path
    /// rules), and gives the verdict for the ones outside it: exactly the
    /// files outside the target, component by component, when the paths are
    /// slash paths.
    pub fn evaluate_candidate_against_dirty_files(target_path: &str, status: &CachedRepoStatus) -> (r: (
        GitRepoStatus,
        Option<String>,
    ))
        ensures
            exists|inside: Seq<bool>|
                inside.len() == status.dirty_files@.len() && #[trigger] count_outside(inside)
                    <= inside.len() && is_dirty_verdict(r, status.repo_workdir@, count_outside(inside) as usize),
            slash_setting(target_path@, *status) ==> changes_outside(target_path@, *status)
                <= status.dirty_files@.len() && is_dirty_verdict(
                r,
                status.repo_workdir@,
                changes_outside(target_path@, *status) as usize,
            ),
    {
        let ghost setting = slash_setting(target_path@, *status);
        let ghost want = containment(target_path@, status.repo_workdir@, status.dirty_files@);
        let mut inside: Vec<bool> = Vec::new();
        let mut i: usize = 0;
        while i < status.dirty_files.len()
            invariant
                i <= status.dirty_files.len(),
                inside@.len() == i,
                setting == slash_setting(target_path@, *status),
                want == containment(target_path@, status.repo_workdir@, status.dirty_files@),
                setting ==> forall|j: int| 0 <= j < i ==> inside@[j] == #[trigger] want[j],
            decreases status.dirty_files.len() - i,
        {
            let full_path = path_join(status.repo_workdir.as_str(), status.dirty_files[i].as_str());
            proof {
                if setting {
                    assert(relative_text(status.dirty_files@[i as int]@));
                    assert(full_path@ == status.repo_workdir@ + status.dirty_files@[i as int]@);
                }
            }
            inside.push(path_starts_with(full_path.as_str(), target_path));
            i = i + 1;
        }
        proof {
            if setting {
                assert(inside@ =~= want);
            }
        }
        Self::verdict_from_containment(status.repo_workdir.as_str(), &inside)
    }

    /// The verdict for a cached repository result.
    pub fn verdict_for(target_path: &str, status: &Result<CachedRepoStatus, String>) -> (r: (GitRepoStatus, Option<String>))
        ensures
            is_verdict_for(r, target_path@, *status),
    {
        match status {
            Ok(st) => Self::evaluate_candidate_against_dirty_files(target_path, st),
            Err(m) => Self::error_verdict(m),
        }
    }

    /// The cached answer for a path, if any: outside any repository when the path
    /// itself is recorded as such; otherwise the verdict of the first cached
    /// working directory the path lies under; `None` when nothing cached covers it.
    fn lookup(&self, target_path: &str) -> (r: Option<(GitRepoStatus, Option<String>)>)
        ensures
            recorded_outside(self.not_in_repo@, target_path@) <==> r == Some((GitRepoStatus::NotInRepo, None::<String>)),
            r is None ==> forall|k: int| 0 <= k < self.repo_cache@.len() ==> !covers_text(#[trigger] self.repo_cache@[k].0@, target_path@),
            !recorded_outside(self.not_in_repo@, target_path@) ==> (r matches Some(v) ==> exists|j: int|
                0 <= j < self.repo_cache@.len() && is_verdict_for(v, target_path@, #[trigger] self.repo_cache@[j].1)
                    && may_cover(self.repo_cache@[j].0@, target_path@) && forall|k: int|
                    0 <= k < j ==> !covers_text(#[trigger] self.repo_cache@[k].0@, target_path@)),
    {
        let mut i: usize = 0;
        while i < self.not_in_repo.len()
            invariant
                i <= self.not_in_repo.len(),
                forall|k: int| 0 <= k < i ==> self.not_in_repo@[k]@ != target_path@,
            decreases self.not_in_repo.len() - i,
        {
            if str_eq(target_path, self.not_in_repo[i].as_str()) {
                return Some((GitRepoStatus::NotInRepo, None));
            }
            i = i + 1;
        }
        let mut j: usize = 0;
        while j < self.repo_cache.len()
            invariant
                j <= self.repo_cache.len(),
                !recorded_outside(self.not_in_repo@, target_path@),
                forall|k: int| 0 <= k < j ==> !covers_text(#[trigger] self.repo_cache@[k].0@, target_path@),
            decreases self.repo_cache.len() - j,
        {
            let entry = &self.repo_cache[j];
            if path_starts_with(target_path, entry.0.as_str()) {
                let v = Self::verdict_for(target_path, &entry.1);
                assert(is_verdict_for(v, target_path@, self.repo_cache@[j as int].1));
                return Some(v);
            }
            j = j + 1;
        }
        None
    }

    /// The verdict from the first cache entry recorded for exactly this working
    /// directory (as text), if one was recorded meanwhile.
    fn lookup_workdir(&self, target_path: &str, workdir: &str) -> (r: Option<(GitRepoStatus, Option<String>)>)
        ensures
            r is None <==> forall|i: int| 0 <= i < self.repo_cache@.len() ==> self.repo_cache@[i].0@ != workdir@,
            r matches Some(v) ==> exists|i: int|
                first_entry_for(self.repo_cache@, workdir@, i) && is_verdict_for(v, target_path@, #[trigger] self.repo_cache@[i].1),
    {
        let mut j: usize = 0;
        while j < self.repo_cache.len()
            invariant
                j <= self.repo_cache.len(),
                forall|k: int| 0 <= k < j ==> self.repo_cache@[k].0@ != workdir@,
            decreases self.repo_cache.len() - j,
        {
            let entry = &self.repo_cache[j];
            if str_eq(entry.0.as_str(), workdir) {
                let v = Self::verdict_for(target_path, &entry.1);
                assert(first_entry_for(self.repo_cache@, workdir@, j as int));
                assert(is_verdict_for(v, target_path@, self.repo_cache@[j as int].1));
                return Some(v);
            }
            j = j + 1;
        }
        None
    }

    /// What follows repository discovery: with no working directory (no
    /// repository, or a bare one) the target is recorded as outside any
    /// repository and that is the answer; with a working directory cached
    /// already, the verdict of its first entry; otherwise `None` (its status
    /// must be read) with nothing changed.
    pub fn answer_from_workdir(&mut self, target_path: &str, workdir: &Option<String>) -> (r: Option<(GitRepoStatus, Option<String>)>)
        ensures
            final(self).repo_cache@ == old(self).repo_cache@,
            match workdir {
                None => {
                    &&& r == Some((GitRepoStatus::NotInRepo, None::<String>))
                    &&& final(self).not_in_repo@.len() == old(self).not_in_repo@.len() + 1
                    &&& final(self).not_in_repo@.drop_last() == old(self).not_in_repo@
                    &&& final(self).not_in_repo@.last()@ == target_path@
                },
                Some(w) => {
                    &&& final(self).not_in_repo@ == old(self).not_in_repo@
                    &&& (r is None <==> forall|i: int| 0 <= i < old(self).repo_cache@.len() ==> old(self).repo_cache@[i].0@ != w@)
                    &&& r matches Some(v) ==> exists|i: int|
                        first_entry_for(old(self).repo_cache@, w@, i) && is_verdict_for(
                            v,
                            target_path@,
                            #[trigger] old(self).repo_cache@[i].1,
                        )
                },
            },
    {
        match workdir {
            None => {
                self.remember_not_in_repo(target_path.to_string());
                Some((GitRepoStatus::NotInRepo, None))
            },
            Some(w) => self.lookup_workdir(target_path, w.as_str()),
        }
    }

    /// What follows reading the status of a working directory not cached yet:
    /// the cache entry built from the read (`repo_status_from`) is recorded
    /// after the others, and the answer is its verdict for the target.
    pub fn answer_with_status(&mut self, target_path: &str, workdir: String, entries: Result<Vec<(u32, Option<String>)>, String>) -> (r: (
        GitRepoStatus,
        Option<String>,
    ))
        ensures
            final(self).not_in_repo@ == old(self).not_in_repo@,
            final(self).repo_cache@.len() == old(self).repo_cache@.len() + 1,
            final(self).repo_cache@.drop_last() == old(self).repo_cache@,
            final(self).repo_cache@.last().0 == workdir,
            status_read_from(final(self).repo_cache@.last().1, workdir@, entries),
            is_verdict_for(r, target_path@, final(self).repo_cache@.last().1),
    {
        let status = Self::repo_status_from(workdir.as_str(), entries);
        let verdict = Self::verdict_for(target_path, &status);
        let ghost old_cache = self.repo_cache@;
        self.remember_status(workdir, status);
        assert(self.repo_cache@.drop_last() =~= old_cache);
        verdict
    }

    /// Records that a path lies outside any repository.
    fn remember_not_in_repo(&mut self, target_path: String)
        ensures
            final(self).not_in_repo@ == old(self).not_in_repo@.push(target_path),
            final(self).repo_cache@ == old(self).repo_cache@,
    {
        self.not_in_repo.push(target_path);
    }

    /// Records the status read for a working directory.
    fn remember_status(&mut self, workdir: String, status: Result<CachedRepoStatus, String>)
        ensures
            final(self).repo_cache@ == old(self).repo_cache@.push((workdir, status)),
            final(self).not_in_repo@ == old(self).not_in_repo@,
    {
        self.repo_cache.push((workdir, status));
    }
}


/// `git2::Repository`, carried through opaquely.
#[verifier::external_type_specification]
#[verifier::external_body]
pub struct ExRepository(git2::Repository);

/// `git2::Statuses`, carried through opaquely.
#[verifier::external_type_specification]
#[verifier::external_body]
pub struct ExStatuses<'repo>(git2::Statuses<'repo>);

/// Calls `git2::Repository::discover`: opens the repository that contains
/// `path`, searching upwards through its parents; `None` on any error.  What
/// it finds depends on the disk, so nothing is stated.
#[verifier::external_body]
fn discover_repository(path: &str) -> (r: Option<git2::Repository>) {
    git2::Repository::discover(path).ok()
}

/// Calls `git2::Repository::workdir`: the working directory, as text (lossily
/// converted), or `None` for a bare repository.  Nothing is stated.
#[verifier::external_body]
fn repository_workdir(repo: &git2::Repository) -> (r: Option<String>) {
    match repo.workdir() {
        Some(w) => Some(w.to_string_lossy().into_owned()),
        None => None,
    }
}

/// Calls `git2::Repository::statuses` with untracked files included (without
/// recursing into untracked directories) and ignored files left out; on error,
/// the error's text.  The result depends on the disk; nothing is stated.
#[verifier::external_body]
fn repository_statuses<'r>(repo: &'r git2::Repository) -> (r: Result<git2::Statuses<'r>, String>) {
    let mut opts = git2::StatusOptions::new();
    opts.include_untracked(true);
    opts.include_ignored(false);
    opts.recurse_untracked_dirs(false);
    match repo.statuses(Some(&mut opts)) {
        Ok(st) => Ok(st),
        Err(e) => Err(format!("{e}")),
    }
}

/// What a status list holds: each entry's status bits and its path (when the
/// path is valid UTF-8), in the list's order.
pub uninterp spec fn status_list(st: &git2::Statuses) -> Seq<(u32, Option<Seq<char>>)>;

/// A status entry with its path as text.
pub open spec fn entry_view(e: (u32, Option<String>)) -> (u32, Option<Seq<char>>) {
    (e.0, match e.1 {
        Some(p) => Some(p@),
        None => None,
    })
}

/// Calls `git2::Statuses::len`: the number of entries the list holds.
#[verifier::external_body]
fn statuses_len(st: &git2::Statuses) -> (r: usize)
    ensures
        r == status_list(st).len(),
{
    st.len()
}

/// Calls `git2::Statuses::get`: the entry at `index` as its status bits and
/// its path (when the path is valid UTF-8); `None` exactly past the end.
#[verifier::external_body]
fn status_entry(st: &git2::Statuses, index: usize) -> (r: Option<(u32, Option<String>)>)
    ensures
        index < status_list(st).len() ==> r.is_some() && entry_view(r.unwrap()) == status_list(st)[index as int],
        index >= status_list(st).len() ==> r.is_none(),
{
    match st.get(index) {
        Some(e) => Some((e.status().bits(), e.path().map(String::from))),
        None => None,
    }
}

/// The entries of a status list, in order.
fn collect_status_entries(st: &git2::Statuses) -> (r: Vec<(u32, Option<String>)>)
    ensures
        r@.map_values(|e: (u32, Option<String>)| entry_view(e)) == status_list(st),
{
    let n = statuses_len(st);
    let mut v: Vec<(u32, Option<String>)> = Vec::new();
    let mut i: usize = 0;
    while i < n
        invariant
            i <= n,
            n == status_list(st).len(),
            v@.map_values(|e: (u32, Option<String>)| entry_view(e)) == status_list(st).take(i as int),
        ensures
            i == n,
        decreases n - i,
    {
        match status_entry(st, i) {
            Some(e) => {
                let ghost before = v@;
                v.push(e);
                assert(v@.map_values(|e: (u32, Option<String>)| entry_view(e)) =~= before.map_values(
                    |e: (u32, Option<String>)| entry_view(e),
                ).push(entry_view(e)));
                assert(status_list(st).take(i + 1) =~= status_list(st).take(i as int).push(
                    status_list(st)[i as int],
                ));
            },
            None => {
                assert(false);
                break ;
            },
        }
        i = i + 1;
    }
    assert(status_list(st).take(n as int) =~= status_list(st));
    v
}

impl GitSafetyChecker {
    /// The paths of the status entries that count as uncommitted changes.
    pub fn dirty_paths(entries: &Vec<(u32, Option<String>)>) -> (r: Vec<String>)
        ensures
            r@ == dirty_paths_of(entries@),
    {
        let mut out: Vec<String> = Vec::new();
        let mut i: usize = 0;
        while i < entries.len()
            invariant
                i <= entries.len(),
                out@ == dirty_paths_of(entries@.take(i as int)),
            decreases entries.len() - i,
        {
            assert(entries@.take(i + 1).drop_last() =~= entries@.take(i as int));
            let e = &entries[i];
            match &e.1 {
                Some(p) => {
                    if Self::is_dirty_status(e.0) {
                        out.push(p.clone());
                    }
                },
                None => {},
            }
            i = i + 1;
        }
        assert(entries@.take(entries.len() as int) =~= entries@);
        out
    }

    /// The cache entry for a working directory from what its status read gave:
    /// the dirty files, or the error message with its prefix.
    pub fn repo_status_from(workdir: &str, entries: Result<Vec<(u32, Option<String>)>, String>) -> (r:
        Result<CachedRepoStatus, String>)
        ensures
            match entries {
                Ok(es) => r matches Ok(st) && st.repo_workdir@ == workdir@ && st.dirty_files@
                    == dirty_paths_of(es@),
                Err(m) => r matches Err(t) && t@ == status_error_text(m@),
            },
    {
        match entries {
            Ok(es) => {
                let dirty_files = Self::dirty_paths(&es);
                Ok(CachedRepoStatus { repo_workdir: workdir.to_string(), dirty_files })
            },
            Err(m) => {
                let mut t = String::from_str("Git error reading repository status: ");
                t.append(m.as_str());
                Err(t)
            },
        }
    }

    /// Whether `target_path` is inside a Git repository with uncommitted
    /// changes.  Answers from the cache when the path itself was recorded as
    /// outside any repository, or when a cached working directory covers it;
    /// otherwise discovers the repository and goes on with
    /// `answer_from_workdir` and, when its status must be read,
    /// `answer_with_status`.  What discovery and the status read find depends
    /// on the disk.
    pub fn check_path(&mut self, target_path: &str) -> (r: (GitRepoStatus, Option<String>))
        ensures
            recorded_outside(old(self).not_in_repo@, target_path@) ==> r == (GitRepoStatus::NotInRepo, None::<String>)
                && final(self).not_in_repo@ == old(self).not_in_repo@ && final(self).repo_cache@ == old(self).repo_cache@,
            !recorded_outside(old(self).not_in_repo@, target_path@) && (exists|i: int|
                0 <= i < old(self).repo_cache@.len() && #[trigger] old(self).repo_cache@[i].0@ == target_path@) ==> {
                &&& final(self).not_in_repo@ == old(self).not_in_repo@
                &&& final(self).repo_cache@ == old(self).repo_cache@
                &&& exists|j: int|
                    0 <= j < old(self).repo_cache@.len() && is_verdict_for(r, target_path@, #[trigger] old(self).repo_cache@[j].1)
                        && forall|i: int| 0 <= i < old(self).repo_cache@.len() && old(self).repo_cache@[i].0@ == target_path@ ==> j <= i
            },
            forall|j: int|
                !recorded_outside(old(self).not_in_repo@, target_path@) && slash_cache_cover(old(self).repo_cache@, target_path@, j) ==> {
                    &&& final(self).not_in_repo@ == old(self).not_in_repo@
                    &&& final(self).repo_cache@ == old(self).repo_cache@
                    &&& is_verdict_for(r, target_path@, #[trigger] old(self).repo_cache@[j].1)
                },
            r == (GitRepoStatus::NotInRepo, None::<String>) ==> recorded_outside(old(self).not_in_repo@, target_path@)
                || final(self).not_in_repo@.len() == old(self).not_in_repo@.len() + 1,
            final(self).not_in_repo@ == old(self).not_in_repo@ || (final(self).not_in_repo@.len()
                == old(self).not_in_repo@.len() + 1 && final(self).not_in_repo@.last()@ == target_path@
                && final(self).not_in_repo@.drop_last() == old(self).not_in_repo@),
            final(self).not_in_repo@.len() > old(self).not_in_repo@.len() ==> r == (GitRepoStatus::NotInRepo, None::<String>)
                && final(self).repo_cache@ == old(self).repo_cache@,
            r == (GitRepoStatus::NotInRepo, None::<String>) || exists|i: int|
                0 <= i < final(self).repo_cache@.len() && is_verdict_for(r, target_path@, #[trigger] final(self).repo_cache@[i].1),
            final(self).repo_cache@ == old(self).repo_cache@ || ({
                let last = final(self).repo_cache@.last();
                &&& final(self).repo_cache@.len() == old(self).repo_cache@.len() + 1
                &&& final(self).repo_cache@.drop_last() == old(self).repo_cache@
                &&& final(self).not_in_repo@ == old(self).not_in_repo@
                &&& is_verdict_for(r, target_path@, last.1)
                &&& (last.1 matches Ok(st) ==> st.repo_workdir@ == last.0@)
                &&& forall|i: int| 0 <= i < old(self).repo_cache@.len() ==> old(self).repo_cache@[i].0@ != last.0@
            }),
    {
        let ghost old_cache = self.repo_cache@;
        match self.lookup(target_path) {
            Some(v) => {
                proof {
                    if !recorded_outside(self.not_in_repo@, target_path@) {
                        let j = choose|j: int|
                            0 <= j < old_cache.len() && is_verdict_for(v, target_path@, #[trigger] old_cache[j].1)
                                && may_cover(old_cache[j].0@, target_path@) && forall|k: int|
                                0 <= k < j ==> !covers_text(#[trigger] old_cache[k].0@, target_path@);
                        assert forall|i: int| 0 <= i < old_cache.len() && old_cache[i].0@ == target_path@ implies j <= i by {
                            if i < j {
                                assert(!covers_text(old_cache[i].0@, target_path@));
                            }
                        }
                        assert forall|j2: int| slash_cache_cover(old_cache, target_path@, j2) implies is_verdict_for(
                            v,
                            target_path@,
                            #[trigger] old_cache[j2].1,
                        ) by {
                            if j2 < j {
                                assert(!covers_text(old_cache[j2].0@, target_path@));
                            } else if j < j2 {
                                assert(slash_path(old_cache[j].0@));
                                assert(!slash_under(target_path@, old_cache[j].0@));
                            }
                        }
                    }
                }
                return v;
            },
            None => {},
        }
        proof {
            assert forall|i: int| 0 <= i < old_cache.len() implies #[trigger] old_cache[i].0@ != target_path@ by {
                assert(!covers_text(old_cache[i].0@, target_path@));
            }
            assert forall|j: int| !slash_cache_cover(old_cache, target_path@, j) by {
                if 0 <= j < old_cache.len() {
                    assert(!covers_text(old_cache[j].0@, target_path@));
                }
            }
        }
        let repo = discover_repository(target_path);
        let workdir = match &repo {
            Some(rp) => repository_workdir(rp),
            None => None,
        };
        match self.answer_from_workdir(target_path, &workdir) {
            Some(v) => {
                return v;
            },
            None => {},
        }
        match (repo, workdir) {
            (Some(rp), Some(w)) => {
                let entries = match repository_statuses(&rp) {
                    Ok(st) => Ok(collect_status_entries(&st)),
                    Err(e) => Err(e),
                };
                let ghost wd = w@;
                let v = self.answer_with_status(target_path, w, entries);
                proof {
                    let last = self.repo_cache@.last();
                    assert(last.0@ == wd);
                }
                v
            },
            _ => {
                proof {
                    assert(false);
                }
                (GitRepoStatus::NotInRepo, None)
            },
        }
    }

    /// A one-off check with a fresh cache: outside any repository, or the
    /// verdict for the target of the status read for its repository.
    pub fn check_path_once(target_path: &str) -> (r: (GitRepoStatus, Option<String>))
        ensures
            r == (GitRepoStatus::NotInRepo, None::<String>) || exists|st: Result<CachedRepoStatus, String>|
                is_verdict_for(r, target_path@, st),
    {
        let mut checker = Self::new();
        checker.check_path(target_path)
    }
}

} // verus!
