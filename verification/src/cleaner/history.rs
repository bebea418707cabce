use vstd::prelude::*;
use vstd::string::StringExecFns;
use crate::model::candidate::{format_size, size_text};
use crate::model::file_record::Timestamp;
use crate::output::{date_text, format_date, line_views};
use crate::text::{decimal, push_decimal};

verus! {

/// One logged cleanup.
#[derive(Debug)]
pub struct HistoryRecord {
    pub timestamp: Timestamp,
    pub items_count: usize,
    pub reclaimed_bytes: u64,
    pub human_reclaimed: String,
    pub permanent: bool,
    pub paths: Vec<String>,
}

/// Keeps the log of past cleanups.
pub struct HistoryManager;

impl HistoryManager {
    /// The log entry for a cleanup.
    pub fn history_record(
        timestamp: Timestamp,
        items_count: usize,
        reclaimed_bytes: u64,
        permanent: bool,
        paths: Vec<String>,
    ) -> (r: HistoryRecord)
        ensures
            r.timestamp == timestamp,
            r.items_count == items_count,
            r.reclaimed_bytes == reclaimed_bytes,
            r.human_reclaimed@ == size_text(reclaimed_bytes as nat),
            r.permanent == permanent,
            r.paths@ == paths@,
    {
        HistoryRecord {
            timestamp,
            items_count,
            reclaimed_bytes,
            human_reclaimed: format_size(reclaimed_bytes),
            permanent,
            paths,
        }
    }

    /// The total bytes reclaimed over a history.
    pub fn total_reclaimed(records: &Vec<HistoryRecord>) -> (r: u128)
        requires
            records@.len() < 0x1_0000_0000_0000_0000,
        ensures
            r == reclaimed_sum(records@),
    {
        let mut total: u128 = 0;
        let mut i: usize = 0;
        while i < records.len()
            invariant
                i <= records.len(),
                records@.len() < 0x1_0000_0000_0000_0000,
                total == reclaimed_sum(records@.take(i as int)),
                total <= i * 0xFFFF_FFFF_FFFF_FFFF,
            decreases records.len() - i,
        {
            assert(records@.take(i + 1).drop_last() =~= records@.take(i as int));
            total = total + records[i].reclaimed_bytes as u128;
            i = i + 1;
        }
        assert(records@.take(records.len() as int) =~= records@);
        total
    }
}

/// The sum of the reclaimed bytes of a history.
pub open spec fn reclaimed_sum(rs: Seq<HistoryRecord>) -> nat
    decreases rs.len(),
{
    if rs.len() == 0 {
        0
    } else {
        reclaimed_sum(rs.drop_last()) + rs.last().reclaimed_bytes as nat
    }
}

/// The heavy rule of the command-line reports.
pub open spec fn report_heavy_rule() -> Seq<char> {
    "════════════════════════════════════════════════════════════════════════════════════════"@
}

/// The light rule of the command-line reports.
pub open spec fn report_light_rule() -> Seq<char> {
    "────────────────────────────────────────────────────────────────────────────────────────"@
}

/// The lines listing one logged cleanup (numbered `n`): its time, space,
/// item count and method, then its paths.
pub open spec fn history_entry_lines(n: nat, r: HistoryRecord) -> Seq<Seq<char>> {
    seq![
        "  ["@ + decimal(n) + "] "@ + date_text(Some(r.timestamp), "%Y-%m-%d %H:%M:%S UTC"@) + " | Reclaimed: "@
            + r.human_reclaimed@ + " ("@ + decimal(r.items_count as nat) + " items, "@ + (if r.permanent {
            "Permanent"@
        } else {
            "Recycle Bin"@
        }) + ")"@,
    ] + r.paths@.map_values(|p: String| "      ↳ "@ + p@)
}

/// The lines listing the logged cleanups, numbered from 1.
pub open spec fn history_entries_lines(rs: Seq<HistoryRecord>) -> Seq<Seq<char>>
    decreases rs.len(),
{
    if rs.len() == 0 {
        Seq::empty()
    } else {
        history_entries_lines(rs.drop_last()) + history_entry_lines(rs.len(), rs.last())
    }
}

/// The history report, line by line.
pub open spec fn history_report(rs: Seq<HistoryRecord>) -> Seq<Seq<char>> {
    let head = seq![Seq::<char>::empty(), report_heavy_rule(), "  UNDRIFT CLEANUP HISTORY"@, report_heavy_rule()];
    if rs.len() == 0 {
        head + seq!["  No previous cleanup actions recorded."@, report_light_rule()]
    } else {
        head + seq![
            "  Total cleanups: "@ + decimal(rs.len()) + "  |  Lifetime space reclaimed: "@ + size_text(
                reclaimed_sum(rs),
            ),
            report_light_rule(),
        ] + history_entries_lines(rs) + seq![report_light_rule(), Seq::<char>::empty()]
    }
}

/// Appends a line to a list of lines.
fn push_report_line(lines: &mut Vec<String>, line: String)
    ensures
        line_views(final(lines)@) == line_views(old(lines)@).push(line@),
{
    let ghost before = lines@;
    lines.push(line);
    assert(line_views(lines@) =~= line_views(before).push(line@));
}

impl HistoryManager {
    /// The lines listing one logged cleanup.
    fn entry_lines(n: usize, r: &HistoryRecord) -> (out: Vec<String>)
        ensures
            line_views(out@) == history_entry_lines(n as nat, *r),
    {
        let mut out: Vec<String> = Vec::new();
        let mut head = String::from_str("  [");
        push_decimal(&mut head, n as u128);
        head.append("] ");
        let when = format_date(Some(r.timestamp), "%Y-%m-%d %H:%M:%S UTC");
        head.append(when.as_str());
        head.append(" | Reclaimed: ");
        head.append(r.human_reclaimed.as_str());
        head.append(" (");
        push_decimal(&mut head, r.items_count as u128);
        head.append(" items, ");
        if r.permanent {
            head.append("Permanent");
        } else {
            head.append("Recycle Bin");
        }
        head.append(")");
        push_report_line(&mut out, head);
        let ghost first = line_views(out@);
        let ghost ps = r.paths@.map_values(|p: String| "      ↳ "@ + p@);
        let mut i: usize = 0;
        while i < r.paths.len()
            invariant
                i <= r.paths.len(),
                ps == r.paths@.map_values(|p: String| "      ↳ "@ + p@),
                line_views(out@) == first + ps.take(i as int),
            decreases r.paths.len() - i,
        {
            let mut line = String::from_str("      ↳ ");
            line.append(r.paths[i].as_str());
            push_report_line(&mut out, line);
            assert(ps.take(i + 1) =~= ps.take(i as int).push(ps[i as int]));
            i = i + 1;
        }
        assert(ps.take(r.paths.len() as int) =~= ps);
        out
    }

    /// The history report for the logged cleanups.
    pub fn history_lines(records: &Vec<HistoryRecord>) -> (r: Vec<String>)
        requires
            reclaimed_sum(records@) <= u64::MAX,
        ensures
            line_views(r@) == history_report(records@),
    {
        let mut lines: Vec<String> = Vec::new();
        push_report_line(&mut lines, String::new());
        push_report_line(&mut lines, String::from_str("════════════════════════════════════════════════════════════════════════════════════════"));
        push_report_line(&mut lines, String::from_str("  UNDRIFT CLEANUP HISTORY"));
        push_report_line(&mut lines, String::from_str("════════════════════════════════════════════════════════════════════════════════════════"));
        if records.len() == 0 {
            push_report_line(&mut lines, String::from_str("  No previous cleanup actions recorded."));
            push_report_line(&mut lines, String::from_str("────────────────────────────────────────────────────────────────────────────────────────"));
            assert(line_views(lines@) =~= history_report(records@));
            return lines;
        }
        let total = Self::total_reclaimed(records);
        let mut summary = String::from_str("  Total cleanups: ");
        push_decimal(&mut summary, records.len() as u128);
        summary.append("  |  Lifetime space reclaimed: ");
        let human = format_size(total as u64);
        summary.append(human.as_str());
        push_report_line(&mut lines, summary);
        push_report_line(&mut lines, String::from_str("────────────────────────────────────────────────────────────────────────────────────────"));
        let ghost start = line_views(lines@);
        let mut i: usize = 0;
        while i < records.len()
            invariant
                i <= records.len(),
                line_views(lines@) == start + history_entries_lines(records@.take(i as int)),
            decreases records.len() - i,
        {
            assert(records@.take(i + 1).drop_last() =~= records@.take(i as int));
            let entry = Self::entry_lines(i + 1, &records[i]);
            let mut j: usize = 0;
            let ghost before = line_views(lines@);
            let ghost ev = line_views(entry@);
            while j < entry.len()
                invariant
                    j <= entry.len(),
                    ev == line_views(entry@),
                    line_views(lines@) == before + ev.take(j as int),
                decreases entry.len() - j,
            {
                push_report_line(&mut lines, entry[j].clone());
                assert(ev.take(j + 1) =~= ev.take(j as int).push(ev[j as int]));
                j = j + 1;
            }
            assert(ev.take(entry.len() as int) =~= ev);
            assert(line_views(lines@) =~= start + history_entries_lines(records@.take(i + 1)));
            i = i + 1;
        }
        assert(records@.take(records.len() as int) =~= records@);
        push_report_line(&mut lines, String::from_str("────────────────────────────────────────────────────────────────────────────────────────"));
        push_report_line(&mut lines, String::new());
        assert(line_views(lines@) =~= history_report(records@));
        lines
    }
}

} // verus!
