pub mod history;

use vstd::prelude::*;
use vstd::string::StringExecFns;
use crate::model::candidate::{format_size, size_text};
use crate::model::file_record::Timestamp;
use crate::output::line_views;
use crate::text::{decimal, lowercase, push_decimal, str_eq, to_lowercase, trim_text, trimmed};
use crate::cleaner::history::{report_heavy_rule, report_light_rule};

verus! {

/// A target that was removed (or would be, in a dry run).
#[derive(Debug)]
pub struct CleanItemSuccess {
    pub path: String,
    pub bytes_reclaimed: u64,
}

/// A target that was not removed, and why.
#[derive(Debug)]
pub struct CleanItemFailure {
    pub path: String,
    pub error_message: String,
}

/// The outcome of a cleanup.
#[derive(Debug)]
pub struct CleanReport {
    pub total_reclaimed_bytes: u64,
    pub human_total_reclaimed: String,
    pub succeeded: Vec<CleanItemSuccess>,
    pub failed: Vec<CleanItemFailure>,
    pub is_dry_run: bool,
    pub was_permanent: bool,
    pub timestamp: Timestamp,
}

/// Removes targets: Recycle Bin by default, permanently on request, never in a
/// dry run.  It decides; the caller touches the disk and reports back.
pub struct CleanExecutor {
    pub permanent: bool,
    pub dry_run: bool,
    pub total_reclaimed: u64,
    pub succeeded: Vec<CleanItemSuccess>,
    pub failed: Vec<CleanItemFailure>,
    /// Where the handling of the current target stands.
    pub stage: CleanStage,
}

/// Where the handling of the current target stands.
#[derive(Debug, Clone, Copy, PartialEq, Eq, Structural)]
pub enum CleanStage {
    /// No target is being handled.
    Idle,
    /// The target exists; its safety re-check is awaited.
    AwaitingSafety,
    /// The target passed the re-check; the result of its deletion is awaited.
    AwaitingDelete,
}

/// What the caller does next for the current target.
#[derive(Debug, Clone, Copy, PartialEq, Eq, Structural)]
pub enum CleanStep {
    /// Nothing more for this target.
    Done,
    /// Run the safety re-check and report its verdict.
    CheckSafety,
    /// Delete the target and report the result.
    Delete,
}

/// The successes as (path, bytes) pairs.
pub open spec fn successes(v: Seq<CleanItemSuccess>) -> Seq<(Seq<char>, u64)> {
    v.map_values(|s: CleanItemSuccess| (s.path@, s.bytes_reclaimed))
}

/// The total of the sizes in a list of successes.
pub open spec fn bytes_sum(v: Seq<(Seq<char>, u64)>) -> nat
    decreases v.len(),
{
    if v.len() == 0 {
        0
    } else {
        bytes_sum(v.drop_last()) + v.last().1 as nat
    }
}

/// The failures as (path, message) pairs.
pub open spec fn failures(v: Seq<CleanItemFailure>) -> Seq<(Seq<char>, Seq<char>)> {
    v.map_values(|f: CleanItemFailure| (f.path@, f.error_message@))
}

/// A deletion is only ever awaited outside a dry run, after the target's
/// safety re-check passed.
pub proof fn law_no_deletion_in_a_dry_run(e: CleanExecutor)
    requires
        e.wf(),
        e.stage == CleanStage::AwaitingDelete,
    ensures
        !e.dry_run,
{
}

impl CleanExecutor {
    /// A target is only ever past its existence check outside a dry run, and
    /// the running total is the sum of the sizes of the targets removed.
    pub open spec fn wf(&self) -> bool {
        &&& self.stage != CleanStage::Idle ==> !self.dry_run
        &&& self.total_reclaimed == bytes_sum(successes(self.succeeded@))
    }

    /// A cleanup that has handled no target yet.
    pub fn start(permanent: bool, dry_run: bool) -> (r: Self)
        ensures
            r.wf(),
            r.stage == CleanStage::Idle,
            r.permanent == permanent,
            r.dry_run == dry_run,
            r.total_reclaimed == 0,
            r.succeeded@.len() == 0,
            r.failed@.len() == 0,
    {
        CleanExecutor {
            permanent,
            dry_run,
            total_reclaimed: 0,
            succeeded: Vec::new(),
            failed: Vec::new(),
            stage: CleanStage::Idle,
        }
    }

    /// Whether the target exists decides first: a missing target fails; in a dry
    /// run an existing one counts as reclaimed; otherwise the safety re-check comes
    /// next.  A dry run never asks for a deletion.
    pub fn on_existence(&mut self, path: &str, size: u64, exists: bool) -> (r: CleanStep)
        requires
            old(self).stage == CleanStage::Idle,
            exists && old(self).dry_run ==> old(self).total_reclaimed + size <= u64::MAX,
        ensures
            old(self).wf() ==> final(self).wf(),
            final(self).stage == (if r == CleanStep::CheckSafety {
                CleanStage::AwaitingSafety
            } else {
                CleanStage::Idle
            }),
            final(self).permanent == old(self).permanent,
            final(self).dry_run == old(self).dry_run,
            !exists ==> r == CleanStep::Done && final(self).total_reclaimed == old(self).total_reclaimed
                && successes(final(self).succeeded@) == successes(old(self).succeeded@)
                && failures(final(self).failed@) == failures(old(self).failed@).push((path@, "Path does not exist"@)),
            exists && old(self).dry_run ==> r == CleanStep::Done && final(self).total_reclaimed
                == old(self).total_reclaimed + size && successes(final(self).succeeded@) == successes(
                old(self).succeeded@,
            ).push((path@, size)) && failures(final(self).failed@) == failures(old(self).failed@),
            exists && !old(self).dry_run ==> r == CleanStep::CheckSafety && final(self).total_reclaimed
                == old(self).total_reclaimed && successes(final(self).succeeded@) == successes(old(self).succeeded@)
                && failures(final(self).failed@) == failures(old(self).failed@),
    {
        let ghost s0 = self.succeeded@;
        let ghost f0 = self.failed@;
        if !exists {
            self.failed.push(
                CleanItemFailure { path: String::from_str(path), error_message: String::from_str("Path does not exist") },
            );
            assert(failures(self.failed@) =~= failures(f0).push((path@, "Path does not exist"@)));
            return CleanStep::Done;
        }
        if self.dry_run {
            self.total_reclaimed = self.total_reclaimed + size;
            self.succeeded.push(CleanItemSuccess { path: String::from_str(path), bytes_reclaimed: size });
            assert(successes(self.succeeded@) =~= successes(s0).push((path@, size)));
            assert(successes(s0).push((path@, size)).drop_last() =~= successes(s0));
            return CleanStep::Done;
        }
        self.stage = CleanStage::AwaitingSafety;
        CleanStep::CheckSafety
    }

    /// The safety re-check decides next: a failure is reported with its reason;
    /// otherwise the target is deleted.
    pub fn on_safety_check(&mut self, path: &str, reason: Option<String>) -> (r: CleanStep)
        requires
            old(self).stage == CleanStage::AwaitingSafety,
        ensures
            old(self).wf() ==> final(self).wf(),
            final(self).stage == (if r == CleanStep::Delete {
                CleanStage::AwaitingDelete
            } else {
                CleanStage::Idle
            }),
            final(self).permanent == old(self).permanent,
            final(self).dry_run == old(self).dry_run,
            final(self).total_reclaimed == old(self).total_reclaimed,
            successes(final(self).succeeded@) == successes(old(self).succeeded@),
            match reason {
                Some(m) => r == CleanStep::Done && failures(final(self).failed@) == failures(old(self).failed@).push(
                    (path@, "Safety re-check failed: "@ + m@),
                ),
                None => r == CleanStep::Delete && failures(final(self).failed@) == failures(old(self).failed@),
            },
    {
        let ghost f0 = self.failed@;
        match reason {
            Some(m) => {
                let mut msg = String::from_str("Safety re-check failed: ");
                msg.append(m.as_str());
                self.failed.push(CleanItemFailure { path: String::from_str(path), error_message: msg });
                assert(failures(self.failed@) =~= failures(f0).push((path@, "Safety re-check failed: "@ + m@)));
                self.stage = CleanStage::Idle;
                CleanStep::Done
            },
            None => {
                self.stage = CleanStage::AwaitingDelete;
                CleanStep::Delete
            },
        }
    }

    /// The deletion's result decides last: success counts the target's size as
    /// reclaimed, an error is reported with its message.
    pub fn on_delete(&mut self, path: &str, size: u64, result: Result<(), String>)
        requires
            old(self).stage == CleanStage::AwaitingDelete,
            result is Ok ==> old(self).total_reclaimed + size <= u64::MAX,
        ensures
            old(self).wf() ==> final(self).wf(),
            final(self).stage == CleanStage::Idle,
            final(self).permanent == old(self).permanent,
            final(self).dry_run == old(self).dry_run,
            match result {
                Ok(()) => final(self).total_reclaimed == old(self).total_reclaimed + size && successes(
                    final(self).succeeded@,
                ) == successes(old(self).succeeded@).push((path@, size)) && failures(final(self).failed@)
                    == failures(old(self).failed@),
                Err(m) => final(self).total_reclaimed == old(self).total_reclaimed && successes(
                    final(self).succeeded@,
                ) == successes(old(self).succeeded@) && failures(final(self).failed@) == failures(
                    old(self).failed@,
                ).push((path@, m@)),
            },
    {
        let ghost s0 = self.succeeded@;
        let ghost f0 = self.failed@;
        self.stage = CleanStage::Idle;
        match result {
            Ok(()) => {
                self.total_reclaimed = self.total_reclaimed + size;
                self.succeeded.push(CleanItemSuccess { path: String::from_str(path), bytes_reclaimed: size });
                assert(successes(self.succeeded@) =~= successes(s0).push((path@, size)));
                assert(successes(s0).push((path@, size)).drop_last() =~= successes(s0));
            },
            Err(m) => {
                self.failed.push(CleanItemFailure { path: String::from_str(path), error_message: m });
                assert(failures(self.failed@) =~= failures(f0).push((path@, m@)));
            },
        }
    }

    /// Whether the cleanup is logged to the history: only a real cleanup that
    /// removed something.
    pub fn should_record_history(&self) -> (r: bool)
        ensures
            r == (!self.dry_run && self.succeeded@.len() > 0),
    {
        !self.dry_run && self.succeeded.len() > 0
    }

    /// The paths removed, in order.
    pub fn succeeded_paths(&self) -> (r: Vec<String>)
        ensures
            r@.len() == self.succeeded@.len(),
            forall|i: int| 0 <= i < r@.len() ==> r@[i] == self.succeeded@[i].path,
    {
        let mut r: Vec<String> = Vec::new();
        let mut i: usize = 0;
        while i < self.succeeded.len()
            invariant
                i <= self.succeeded.len(),
                r@.len() == i,
                forall|k: int| 0 <= k < i ==> r@[k] == self.succeeded@[k].path,
            decreases self.succeeded.len() - i,
        {
            r.push(self.succeeded[i].path.clone());
            i = i + 1;
        }
        r
    }

    /// The report of the cleanup, stamped with the given time.
    pub fn finish(self, timestamp: Timestamp) -> (r: CleanReport)
        ensures
            r.total_reclaimed_bytes == self.total_reclaimed,
            self.wf() ==> r.total_reclaimed_bytes == bytes_sum(successes(r.succeeded@)),
            r.human_total_reclaimed@ == size_text(self.total_reclaimed as nat),
            r.succeeded@ == self.succeeded@,
            r.failed@ == self.failed@,
            r.is_dry_run == self.dry_run,
            r.was_permanent == self.permanent,
            r.timestamp == timestamp,
    {
        let human = format_size(self.total_reclaimed);
        CleanReport {
            total_reclaimed_bytes: self.total_reclaimed,
            human_total_reclaimed: human,
            succeeded: self.succeeded,
            failed: self.failed,
            is_dry_run: self.dry_run,
            was_permanent: self.permanent,
            timestamp,
        }
    }
}

/// How the targets will be removed.
pub open spec fn mode_text(dry_run: bool, permanent: bool) -> Seq<char> {
    if dry_run {
        "SIMULATION (Dry-Run)"@
    } else if permanent {
        "PERMANENT DELETION"@
    } else {
        "Recycle Bin (Default & Safe)"@
    }
}

/// The numbered list of targets, from `[1]`.
pub open spec fn target_lines(paths: Seq<String>) -> Seq<Seq<char>>
    decreases paths.len(),
{
    if paths.len() == 0 {
        Seq::empty()
    } else {
        target_lines(paths.drop_last()).push("  ["@ + decimal(paths.len()) + "] "@ + paths.last()@)
    }
}

/// The review shown before a cleanup, line by line.
pub open spec fn review_report(paths: Seq<String>, dry_run: bool, permanent: bool) -> Seq<Seq<char>> {
    seq![
        Seq::<char>::empty(),
        report_heavy_rule(),
        "  UNDRIFT CLEANUP REVIEW"@,
        report_heavy_rule(),
        "  Mode: "@ + mode_text(dry_run, permanent),
        "  Items to remove: "@ + decimal(paths.len()),
        report_light_rule(),
    ] + target_lines(paths) + seq![report_light_rule()]
}

/// The lines reporting each failure.
pub open spec fn failure_lines(fs: Seq<CleanItemFailure>) -> Seq<Seq<char>> {
    fs.map_values(|f: CleanItemFailure| "    - "@ + f.path@ + ": "@ + f.error_message@)
}

/// The summary shown after a cleanup, line by line.
pub open spec fn summary_report(r: CleanReport) -> Seq<Seq<char>> {
    seq![Seq::<char>::empty(), "  Cleanup complete! Successfully reclaimed: "@ + r.human_total_reclaimed@] + (
    if r.failed@.len() > 0 {
        seq!["  Encountered "@ + decimal(r.failed@.len()) + " failure(s):"@] + failure_lines(r.failed@)
    } else {
        Seq::empty()
    }) + seq![Seq::<char>::empty()]
}

/// Whether an answer to the confirmation prompt accepts: "y" or "yes", ignoring
/// case and surrounding white space.
pub open spec fn accepts(answer: Seq<char>) -> bool {
    lowercase(trimmed(answer)) == "y"@ || lowercase(trimmed(answer)) == "yes"@
}

/// Appends a line to a list of lines.
fn push_clean_line(lines: &mut Vec<String>, line: String)
    ensures
        line_views(final(lines)@) == line_views(old(lines)@).push(line@),
{
    let ghost before = lines@;
    lines.push(line);
    assert(line_views(lines@) =~= line_views(before).push(line@));
}

impl CleanExecutor {
    /// The review shown before a cleanup.
    pub fn review_lines(paths: &Vec<String>, dry_run: bool, permanent: bool) -> (r: Vec<String>)
        ensures
            line_views(r@) == review_report(paths@, dry_run, permanent),
    {
        let mut lines: Vec<String> = Vec::new();
        push_clean_line(&mut lines, String::new());
        push_clean_line(&mut lines, String::from_str("════════════════════════════════════════════════════════════════════════════════════════"));
        push_clean_line(&mut lines, String::from_str("  UNDRIFT CLEANUP REVIEW"));
        push_clean_line(&mut lines, String::from_str("════════════════════════════════════════════════════════════════════════════════════════"));
        let mut mode = String::from_str("  Mode: ");
        if dry_run {
            mode.append("SIMULATION (Dry-Run)");
        } else if permanent {
            mode.append("PERMANENT DELETION");
        } else {
            mode.append("Recycle Bin (Default & Safe)");
        }
        push_clean_line(&mut lines, mode);
        let mut count = String::from_str("  Items to remove: ");
        push_decimal(&mut count, paths.len() as u128);
        push_clean_line(&mut lines, count);
        push_clean_line(&mut lines, String::from_str("────────────────────────────────────────────────────────────────────────────────────────"));
        let ghost start = line_views(lines@);
        let mut i: usize = 0;
        while i < paths.len()
            invariant
                i <= paths.len(),
                line_views(lines@) == start + target_lines(paths@.take(i as int)),
            decreases paths.len() - i,
        {
            assert(paths@.take(i + 1).drop_last() =~= paths@.take(i as int));
            let mut line = String::from_str("  [");
            push_decimal(&mut line, (i + 1) as u128);
            line.append("] ");
            line.append(paths[i].as_str());
            push_clean_line(&mut lines, line);
            assert(line_views(lines@) =~= start + target_lines(paths@.take(i + 1)));
            i = i + 1;
        }
        assert(paths@.take(paths.len() as int) =~= paths@);
        push_clean_line(&mut lines, String::from_str("────────────────────────────────────────────────────────────────────────────────────────"));
        assert(line_views(lines@) =~= review_report(paths@, dry_run, permanent));
        lines
    }

    /// Whether an answer to the confirmation prompt accepts the cleanup.
    pub fn is_confirmation(answer: &str) -> (r: bool)
        ensures
            r == accepts(answer@),
    {
        let t = trim_text(answer);
        let lower = to_lowercase(t.as_str());
        str_eq(lower.as_str(), "y") || str_eq(lower.as_str(), "yes")
    }
}

impl CleanReport {
    /// The summary shown after a cleanup.
    pub fn summary_lines(&self) -> (r: Vec<String>)
        ensures
            line_views(r@) == summary_report(*self),
    {
        let mut lines: Vec<String> = Vec::new();
        push_clean_line(&mut lines, String::new());
        let mut done = String::from_str("  Cleanup complete! Successfully reclaimed: ");
        done.append(self.human_total_reclaimed.as_str());
        push_clean_line(&mut lines, done);
        let ghost start = line_views(lines@);
        if self.failed.len() > 0 {
            let mut head = String::from_str("  Encountered ");
            push_decimal(&mut head, self.failed.len() as u128);
            head.append(" failure(s):");
            push_clean_line(&mut lines, head);
            let ghost with_head = line_views(lines@);
            let ghost fl = failure_lines(self.failed@);
            let mut i: usize = 0;
            while i < self.failed.len()
                invariant
                    i <= self.failed.len(),
                    fl == failure_lines(self.failed@),
                    line_views(lines@) == with_head + fl.take(i as int),
                decreases self.failed.len() - i,
            {
                let f = &self.failed[i];
                let mut line = String::from_str("    - ");
                line.append(f.path.as_str());
                line.append(": ");
                line.append(f.error_message.as_str());
                push_clean_line(&mut lines, line);
                assert(fl.take(i + 1) =~= fl.take(i as int).push(fl[i as int]));
                i = i + 1;
            }
            assert(fl.take(self.failed.len() as int) =~= fl);
        }
        push_clean_line(&mut lines, String::new());
        assert(line_views(lines@) =~= summary_report(*self));
        lines
    }
}

} // verus!
