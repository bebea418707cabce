pub mod cloud_storage;
pub mod git;
pub mod in_use;
pub mod reparse;

use vstd::prelude::*;
use crate::model::candidate::{GitRepoStatus, ReclaimCandidate};
use crate::safety::git::{GitSafetyChecker, is_verdict_for};

verus! {

/// The order of the safety checks and what a failed check does to a candidate.
pub struct SafetyPipeline;

/// The candidate marked unsafe for `reason`: not selected by default, every
/// other field unchanged.
pub open spec fn marked_unsafe(c: ReclaimCandidate, reason: String) -> ReclaimCandidate {
    ReclaimCandidate { is_safe: false, safety_reason: reason, default_selected: false, ..c }
}

/// A candidate that fails a check is neither safe nor selected, and keeps the
/// failure as its reason.
pub proof fn law_failed_candidate_is_not_offered(c: ReclaimCandidate, reason: String)
    ensures
        !marked_unsafe(c, reason).is_safe,
        !marked_unsafe(c, reason).default_selected,
        marked_unsafe(c, reason).safety_reason == reason,
{
}

/// The checks that run after the Git check, in their order.
#[derive(Debug, Clone, Copy, PartialEq, Eq, Structural)]
pub enum LaterCheck {
    Cloud,
    Lock,
    Junction,
}

/// Where the checks of a candidate stand: a later check runs next, or they are done.
#[derive(Debug, Clone, Copy, PartialEq, Eq, Structural)]
pub enum CheckStage {
    Run(LaterCheck),
    Done,
}

impl SafetyPipeline {
    /// Records the Git verdict on a candidate.  A Git error or a dirty tree marks
    /// it unsafe with that reason and ends the checks (returns false); otherwise
    /// the remaining checks run (returns true).
    pub fn apply_git_verdict(candidate: &mut ReclaimCandidate, status: GitRepoStatus, error: Option<String>) -> (r: bool)
        ensures
            r == error is None,
            match error {
                Some(e) => *final(candidate) == marked_unsafe(ReclaimCandidate { git_status: status, ..*old(candidate) }, e),
                None => *final(candidate) == (ReclaimCandidate { git_status: status, ..*old(candidate) }),
            },
    {
        candidate.git_status = status;
        match error {
            Some(e) => {
                candidate.is_safe = false;
                candidate.safety_reason = e;
                candidate.default_selected = false;
                false
            },
            None => true,
        }
    }

    /// The first check of a candidate: asks the (caching) Git checker about the
    /// candidate's path and records its verdict; returns whether the remaining
    /// checks should run.
    pub fn check_git(candidate: &mut ReclaimCandidate, git_checker: &mut GitSafetyChecker) -> (r: bool)
        ensures
            ({
                let verdict = (final(candidate).git_status, if r {
                    None::<String>
                } else {
                    Some(final(candidate).safety_reason)
                });
                verdict == (GitRepoStatus::NotInRepo, None::<String>) || exists|i: int|
                    0 <= i < final(git_checker).repo_cache@.len() && is_verdict_for(
                        verdict,
                        old(candidate).path@,
                        #[trigger] final(git_checker).repo_cache@[i].1,
                    )
            }),
            r ==> *final(candidate) == (ReclaimCandidate {
                git_status: final(candidate).git_status,
                ..*old(candidate)
            }),
            !r ==> *final(candidate) == marked_unsafe(
                ReclaimCandidate { git_status: final(candidate).git_status, ..*old(candidate) },
                final(candidate).safety_reason,
            ),
    {
        let (status, error) = git_checker.check_path(candidate.path.as_str());
        Self::apply_git_verdict(candidate, status, error)
    }

    /// Records the verdict of one of the later checks (cloud placeholder, file
    /// lock, junction): a failure marks the candidate unsafe with that reason and
    /// ends the checks (returns false).
    pub fn apply_check(candidate: &mut ReclaimCandidate, failure: Option<String>) -> (r: bool)
        ensures
            r == failure is None,
            match failure {
                Some(e) => *final(candidate) == marked_unsafe(*old(candidate), e),
                None => *final(candidate) == *old(candidate),
            },
    {
        match failure {
            Some(e) => {
                candidate.is_safe = false;
                candidate.safety_reason = e;
                candidate.default_selected = false;
                false
            },
            None => true,
        }
    }

    /// What follows the Git check: the cloud check when the Git check passed,
    /// nothing otherwise.
    pub fn after_git(go_on: bool) -> (r: CheckStage)
        ensures
            r == (if go_on { CheckStage::Run(LaterCheck::Cloud) } else { CheckStage::Done }),
    {
        if go_on {
            CheckStage::Run(LaterCheck::Cloud)
        } else {
            CheckStage::Done
        }
    }

    /// Records what a later check reported and says what follows: a failure
    /// marks the candidate unsafe and ends the checks; a pass moves on to the
    /// next check (cloud, then lock, then junction), and after the last one
    /// marks the candidate safe and selected.
    pub fn after_check(candidate: &mut ReclaimCandidate, check: LaterCheck, failure: Option<String>) -> (r: CheckStage)
        ensures
            match failure {
                Some(e) => r == CheckStage::Done && *final(candidate) == marked_unsafe(*old(candidate), e),
                None => match check {
                    LaterCheck::Cloud => r == CheckStage::Run(LaterCheck::Lock) && *final(candidate) == *old(candidate),
                    LaterCheck::Lock => r == CheckStage::Run(LaterCheck::Junction) && *final(candidate) == *old(candidate),
                    LaterCheck::Junction => r == CheckStage::Done && *final(candidate) == (ReclaimCandidate {
                        is_safe: true,
                        default_selected: true,
                        ..*old(candidate)
                    }),
                },
            },
    {
        if !Self::apply_check(candidate, failure) {
            return CheckStage::Done;
        }
        match check {
            LaterCheck::Cloud => CheckStage::Run(LaterCheck::Lock),
            LaterCheck::Lock => CheckStage::Run(LaterCheck::Junction),
            LaterCheck::Junction => {
                Self::mark_safe(candidate);
                CheckStage::Done
            },
        }
    }

    /// Marks a candidate that passed every check as safe and selected.
    pub fn mark_safe(candidate: &mut ReclaimCandidate)
        ensures
            *final(candidate) == (ReclaimCandidate { is_safe: true, default_selected: true, ..*old(candidate) }),
    {
        candidate.is_safe = true;
        candidate.default_selected = true;
    }

    /// The verdict of the re-check before deletion: the first failure among the
    /// Git, cloud, lock and junction checks, in that order.
    pub fn first_failure(git: Option<String>, cloud: Option<String>, lock: Option<String>, reparse: Option<String>) -> (r: Option<String>)
        ensures
            r == (if git is Some { git } else if cloud is Some { cloud } else if lock is Some { lock } else { reparse }),
    {
        if git.is_some() {
            git
        } else if cloud.is_some() {
            cloud
        } else if lock.is_some() {
            lock
        } else {
            reparse
        }
    }
}

} // verus!
