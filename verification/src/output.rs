use vstd::prelude::*;
use vstd::string::{StringExecFns, StringSliceAdditionalSpecFns};
use vstd::utf8::{decode_utf8, encode_utf8, is_char_boundary};
use crate::model::candidate::{ReclaimCandidate, format_size, size_text};
use crate::model::category::display_name_of;
use crate::model::file_record::Timestamp;
use crate::text::{decimal, push_char, push_decimal};

verus! {

/// The summary of a scan.
#[derive(Debug)]
pub struct ScanResultJson {
    pub total_files_scanned: usize,
    pub scan_time_ms: u128,
    pub total_reclaimable_bytes: u64,
    pub human_total_reclaimable: String,
    pub safe_count: usize,
    pub unsafe_count: usize,
    pub candidates: Vec<ReclaimCandidate>,
}

/// The total size of the safe candidates.
pub open spec fn safe_bytes(cs: Seq<ReclaimCandidate>) -> nat
    decreases cs.len(),
{
    if cs.len() == 0 {
        0
    } else {
        safe_bytes(cs.drop_last()) + if cs.last().is_safe { cs.last().size_bytes as nat } else { 0 }
    }
}

/// The number of safe candidates.
pub open spec fn safe_count_of(cs: Seq<ReclaimCandidate>) -> nat
    decreases cs.len(),
{
    if cs.len() == 0 {
        0
    } else {
        safe_count_of(cs.drop_last()) + if cs.last().is_safe { 1nat } else { 0 }
    }
}

proof fn lemma_safe_count_bound(cs: Seq<ReclaimCandidate>)
    ensures
        safe_count_of(cs) <= cs.len(),
    decreases cs.len(),
{
    if cs.len() > 0 {
        lemma_safe_count_bound(cs.drop_last());
    }
}

impl ScanResultJson {
    /// The summary of a scan: the safe candidates' total size and count, and the
    /// count of the others.
    pub fn new(candidates: Vec<ReclaimCandidate>, total_files_scanned: usize, scan_time_ms: u128) -> (r: Self)
        requires
            safe_bytes(candidates@) <= u64::MAX,
        ensures
            r.total_files_scanned == total_files_scanned,
            r.scan_time_ms == scan_time_ms,
            r.total_reclaimable_bytes == safe_bytes(candidates@),
            r.human_total_reclaimable@ == size_text(safe_bytes(candidates@)),
            r.safe_count == safe_count_of(candidates@),
            r.unsafe_count == candidates@.len() - safe_count_of(candidates@),
            r.candidates@ == candidates@,
    {
        let mut total: u64 = 0;
        let mut safe: usize = 0;
        let mut unsafe_count: usize = 0;
        let mut i: usize = 0;
        while i < candidates.len()
            invariant
                i <= candidates.len(),
                safe_bytes(candidates@) <= u64::MAX,
                total == safe_bytes(candidates@.take(i as int)),
                safe == safe_count_of(candidates@.take(i as int)),
                safe + unsafe_count == i,
                safe_bytes(candidates@.take(i as int)) <= safe_bytes(candidates@),
            decreases candidates.len() - i,
        {
            assert(candidates@.take(i + 1).drop_last() =~= candidates@.take(i as int));
            proof {
                lemma_safe_bytes_prefix(candidates@, i + 1);
            }
            if candidates[i].is_safe {
                total = total + candidates[i].size_bytes;
                safe = safe + 1;
            } else {
                unsafe_count = unsafe_count + 1;
            }
            i = i + 1;
        }
        assert(candidates@.take(candidates.len() as int) =~= candidates@);
        proof {
            lemma_safe_count_bound(candidates@);
        }
        let human = format_size(total);
        ScanResultJson {
            total_files_scanned,
            scan_time_ms,
            total_reclaimable_bytes: total,
            human_total_reclaimable: human,
            safe_count: safe,
            unsafe_count,
            candidates,
        }
    }
}

/// The safe total of a prefix is at most the safe total of the whole.
proof fn lemma_safe_bytes_prefix(cs: Seq<ReclaimCandidate>, n: int)
    requires
        0 <= n <= cs.len(),
    ensures
        safe_bytes(cs.take(n)) <= safe_bytes(cs),
    decreases cs.len() - n,
{
    if n < cs.len() {
        lemma_safe_bytes_prefix(cs, n + 1);
        let longer = cs.take(n + 1);
        assert(longer.drop_last() =~= cs.take(n));
        assert(safe_bytes(longer) >= safe_bytes(longer.drop_last()));
    } else {
        assert(cs.take(n) =~= cs);
    }
}

/// The text `s` padded on the right with `fill` to `width` characters.
pub open spec fn padded(s: Seq<char>, width: nat, fill: char) -> Seq<char> {
    if s.len() >= width {
        s
    } else {
        s + Seq::new((width - s.len()) as nat, |i: int| fill)
    }
}

/// Appends `text` padded on the right with `fill` to `width` characters.
pub fn push_padded(out: &mut String, text: &str, width: usize, fill: char)
    ensures
        final(out)@ == old(out)@ + padded(text@, width as nat, fill),
{
    let ghost start = out@;
    out.append(text);
    let n = crate::text::chars_of(text).len();
    let mut k: usize = n;
    while k < width
        invariant
            n == text@.len(),
            n <= k <= width || (k == n && n >= width),
            out@ == start + text@ + Seq::new((k - n) as nat, |i: int| fill),
        decreases width - k,
    {
        push_char(out, fill);
        assert(Seq::new((k + 1 - n) as nat, |i: int| fill) =~= Seq::new((k - n) as nat, |i: int| fill).push(fill));
        k = k + 1;
    }
    proof {
        if n >= width {
            assert(Seq::new(0nat, |i: int| fill) =~= Seq::<char>::empty());
            assert(out@ =~= start + padded(text@, width as nat, fill));
        } else {
            assert(out@ =~= start + padded(text@, width as nat, fill));
        }
    }
}

/// The status column of a table row.
pub open spec fn status_tag_of(is_safe: bool) -> Seq<char> {
    if is_safe { "[SAFE]"@ } else { "[SKIP]"@ }
}

/// A path shown in the table: when its UTF-8 form is longer than 45 bytes,
/// "..." followed by its last 42 bytes.
pub open spec fn shown_path_text(p: Seq<char>) -> Seq<char> {
    let b = encode_utf8(p);
    if b.len() > 45 {
        "..."@ + decode_utf8(b.subrange(b.len() - 42, b.len() as int))
    } else {
        p
    }
}

/// The path's UTF-8 form fits in memory, and when it is longer than 45 bytes
/// its last 42 bytes start a character.
pub open spec fn shown_path_cuttable(p: Seq<char>) -> bool {
    let b = encode_utf8(p);
    &&& b.len() <= usize::MAX
    &&& b.len() > 45 ==> is_char_boundary(b, b.len() - 42)
}

/// A formatting of a UTC time (seconds and nanoseconds since the epoch) by a
/// `chrono` format string; `None` when the time is out of `chrono`'s range.
pub uninterp spec fn utc_text(secs: i64, nanos: u32, format: Seq<char>) -> Option<Seq<char>>;

/// Calls `chrono::DateTime::<Utc>::from_timestamp` and formats the time with
/// one of the two format strings the tables use; `None` when the time is out
/// of range.  The text is named `utc_text`, not spelled out.
#[verifier::external_body]
fn format_utc(secs: i64, nanos: u32, format: &str) -> (r: Option<String>)
    requires
        nanos < 1_000_000_000,
        format@ == "%Y-%m-%d"@ || format@ == "%Y-%m-%d %H:%M:%S UTC"@,
    ensures
        match r {
            Some(t) => utc_text(secs, nanos, format@) == Some(t@),
            None => utc_text(secs, nanos, format@) is None,
        },
{
    match chrono::DateTime::<chrono::Utc>::from_timestamp(secs, nanos) {
        Some(d) => Some(d.format(format).to_string()),
        None => None,
    }
}

/// Whole seconds of a timestamp (rounded down), when they fit an `i64`.
pub open spec fn epoch_secs(t: Timestamp) -> int {
    t.unix_nanos / 1_000_000_000
}

/// The date text of a time by `format`, or "unknown" without a time or when
/// the time cannot be shown.
pub open spec fn date_text(t: Option<Timestamp>, format: Seq<char>) -> Seq<char> {
    match t {
        Some(ts) => if i64::MIN <= epoch_secs(ts) <= i64::MAX {
            match utc_text(epoch_secs(ts) as i64, (ts.unix_nanos % 1_000_000_000) as u32, format) {
                Some(x) => x,
                None => "unknown"@,
            }
        } else {
            "unknown"@
        },
        None => "unknown"@,
    }
}

/// The date of a time, formatted by one of the table formats.
pub fn format_date(t: Option<Timestamp>, format: &str) -> (r: String)
    requires
        format@ == "%Y-%m-%d"@ || format@ == "%Y-%m-%d %H:%M:%S UTC"@,
    ensures
        r@ == date_text(t, format@),
{
    match t {
        Some(ts) => {
            let n = ts.unix_nanos;
            let lo: i128 = -9_223_372_036_854_775_808_000_000_000;
            let hi: i128 = 9_223_372_036_854_775_808_000_000_000;
            if n < lo || n >= hi {
                assert(!(i64::MIN <= epoch_secs(ts) <= i64::MAX)) by (nonlinear_arith)
                    requires
                        n == ts.unix_nanos,
                        n < lo || n >= hi,
                        lo == -9_223_372_036_854_775_808_000_000_000int,
                        hi == 9_223_372_036_854_775_808_000_000_000int,
                ;
                return String::from_str("unknown");
            }
            let d: i128 = 1_000_000_000;
            let secs: i128;
            let rem: i128;
            if n >= 0 {
                secs = n / d;
                rem = n % d;
                assert(secs * 1_000_000_000 + rem == n && 0 <= rem < 1_000_000_000) by (nonlinear_arith)
                    requires
                        d == 1_000_000_000,
                        n >= 0,
                        secs == n / d,
                        rem == n % d,
                ;
            } else {
                let m = -n;
                let q = m / d;
                let r = m % d;
                assert(q * 1_000_000_000 + r == m && 0 <= r < 1_000_000_000) by (nonlinear_arith)
                    requires
                        d == 1_000_000_000,
                        m > 0,
                        q == m / d,
                        r == m % d,
                ;
                if r == 0 {
                    secs = -q;
                    rem = 0;
                } else {
                    secs = -q - 1;
                    rem = d - r;
                }
                assert(secs * 1_000_000_000 + rem == n && 0 <= rem < 1_000_000_000);
            }
            assert(secs == epoch_secs(ts) && rem == ts.unix_nanos % 1_000_000_000) by (nonlinear_arith)
                requires
                    n == ts.unix_nanos,
                    secs * 1_000_000_000 + rem == n,
                    0 <= rem < 1_000_000_000,
            ;
            assert(i64::MIN <= secs <= i64::MAX) by (nonlinear_arith)
                requires
                    secs * 1_000_000_000 + rem == n,
                    0 <= rem < 1_000_000_000,
                    -9_223_372_036_854_775_808_000_000_000int <= n < 9_223_372_036_854_775_808_000_000_000int,
            ;
            match format_utc(secs as i64, rem as u32, format) {
                Some(x) => x,
                None => String::from_str("unknown"),
            }
        },
        None => String::from_str("unknown"),
    }
}

/// The path shown for a candidate in the table.
pub fn shown_path(p: &str) -> (r: String)
    requires
        shown_path_cuttable(p@),
    ensures
        r@ == shown_path_text(p@),
{
    let n = p.len();
    assert(p.spec_bytes() == encode_utf8(p@));
    if n > 45 {
        let (_, tail) = p.split_at(n - 42);
        proof {
            vstd::utf8::encode_utf8_decode_utf8(tail@);
            assert(tail.spec_bytes() == encode_utf8(tail@));
        }
        let mut out = String::from_str("...");
        out.append(tail);
        out
    } else {
        p.to_string()
    }
}

/// The heavy rule framing the table's title.
pub open spec fn heavy_rule() -> Seq<char> {
    "═════════════════════════════════════════════════════════════════════════════════════════════════"@
}

/// The light rule between the table's parts.
pub open spec fn light_rule() -> Seq<char> {
    "─────────────────────────────────────────────────────────────────────────────────────────────────"@
}

/// The column titles of the table.
pub open spec fn column_titles() -> Seq<char> {
    "  "@ + padded("STATUS"@, 10, ' ') + " "@ + padded("CATEGORY"@, 24, ' ') + " "@ + padded("SIZE"@, 10, ' ')
        + " "@ + padded("MODIFIED"@, 12, ' ') + " "@ + padded("PATH"@, 40, ' ')
}

/// The dashes under the column titles.
pub open spec fn column_dashes() -> Seq<char> {
    "  "@ + padded(""@, 10, '-') + " "@ + padded(""@, 24, '-') + " "@ + padded(""@, 10, '-') + " "@ + padded(
        ""@,
        12,
        '-',
    ) + " "@ + padded(""@, 40, '-')
}

/// The table row of a candidate.
pub open spec fn row_text(c: ReclaimCandidate) -> Seq<char> {
    "  "@ + padded(status_tag_of(c.is_safe), 10, ' ') + " "@ + padded(display_name_of(c.category), 24, ' ')
        + " "@ + padded(c.human_size@, 10, ' ') + " "@ + padded(date_text(c.last_modified, "%Y-%m-%d"@), 12, ' ')
        + " "@ + shown_path_text(c.display_path@)
}

/// The line under a skipped candidate's row.
pub open spec fn reason_text(c: ReclaimCandidate) -> Seq<char> {
    "             ↳ Reason: "@ + c.safety_reason@
}

/// The lines shown for the candidates: safe ones, or all with `show_all`;
/// each skipped one shown is followed by its reason.
pub open spec fn candidate_lines(cs: Seq<ReclaimCandidate>, show_all: bool) -> Seq<Seq<char>>
    decreases cs.len(),
{
    if cs.len() == 0 {
        Seq::empty()
    } else {
        let rest = candidate_lines(cs.drop_last(), show_all);
        let c = cs.last();
        if show_all || c.is_safe {
            if c.is_safe {
                rest.push(row_text(c))
            } else {
                rest.push(row_text(c)).push(reason_text(c))
            }
        } else {
            rest
        }
    }
}

/// The text of each line.
pub open spec fn line_views(v: Seq<String>) -> Seq<Seq<char>> {
    v.map_values(|s: String| s@)
}

/// The human-readable table of a scan's result, line by line; `timing` is
/// the line with the scan time, file count and reclaimable space.
pub open spec fn table_lines(r: ScanResultJson, show_all: bool, timing: Seq<char>) -> Seq<Seq<char>> {
    let head = seq![
        Seq::<char>::empty(),
        heavy_rule(),
        "  SWEEPIE — High-Performance Disk Space Reclaimer"@,
        heavy_rule(),
        timing,
        light_rule(),
    ];
    let body = candidate_lines(r.candidates@, show_all);
    if body.len() == 0 {
        head + seq!["  No reclaimable build artifacts or dead caches found."@, light_rule()]
    } else {
        head + seq![column_titles(), column_dashes()] + body + seq![
            light_rule(),
            "  Found "@ + decimal(r.safe_count as nat) + " safe items ("@ + r.human_total_reclaimable@
                + "). Review carefully before cleaning."@,
        ] + (if r.unsafe_count > 0 && !show_all {
            seq![
                "  Note: "@ + decimal(r.unsafe_count as nat)
                    + " item(s) skipped due to active locks or dirty git trees. Use --all to view."@,
            ]
        } else {
            Seq::empty()
        }) + seq![Seq::<char>::empty()]
    }
}

/// Appends a line to a list of lines.
fn push_line(lines: &mut Vec<String>, line: String)
    ensures
        line_views(final(lines)@) == line_views(old(lines)@).push(line@),
{
    let ghost before = lines@;
    lines.push(line);
    assert(line_views(lines@) =~= line_views(before).push(line@));
}

impl ScanResultJson {
    /// The table row of one candidate.
    fn row_line(c: &ReclaimCandidate) -> (r: String)
        requires
            shown_path_cuttable(c.display_path@),
        ensures
            r@ == row_text(*c),
    {
        let mut out = String::from_str("  ");
        let tag = if c.is_safe { "[SAFE]" } else { "[SKIP]" };
        push_padded(&mut out, tag, 10, ' ');
        out.append(" ");
        push_padded(&mut out, c.category.display_name(), 24, ' ');
        out.append(" ");
        push_padded(&mut out, c.human_size.as_str(), 10, ' ');
        out.append(" ");
        let modified = format_date(c.last_modified, "%Y-%m-%d");
        push_padded(&mut out, modified.as_str(), 12, ' ');
        out.append(" ");
        let shown = shown_path(c.display_path.as_str());
        out.append(shown.as_str());
        out
    }

    /// The lines of the human-readable table, given the line with the scan
    /// time, file count and reclaimable space.
    pub fn human_table_lines(&self, show_all: bool, timing: String) -> (r: Vec<String>)
        requires
            forall|i: int|
                0 <= i < self.candidates@.len() && (show_all || self.candidates@[i].is_safe)
                    ==> shown_path_cuttable(#[trigger] self.candidates@[i].display_path@),
        ensures
            line_views(r@) == table_lines(*self, show_all, timing@),
    {
        let mut lines: Vec<String> = Vec::new();
        push_line(&mut lines, String::new());
        push_line(&mut lines, String::from_str("═════════════════════════════════════════════════════════════════════════════════════════════════"));
        push_line(&mut lines, String::from_str("  SWEEPIE — High-Performance Disk Space Reclaimer"));
        push_line(&mut lines, String::from_str("═════════════════════════════════════════════════════════════════════════════════════════════════"));
        push_line(&mut lines, timing);
        push_line(&mut lines, String::from_str("─────────────────────────────────────────────────────────────────────────────────────────────────"));
        let ghost head = line_views(lines@);
        let mut body: Vec<String> = Vec::new();
        let mut i: usize = 0;
        while i < self.candidates.len()
            invariant
                i <= self.candidates.len(),
                forall|k: int|
                    0 <= k < self.candidates@.len() && (show_all || self.candidates@[k].is_safe)
                        ==> shown_path_cuttable(#[trigger] self.candidates@[k].display_path@),
                line_views(body@) == candidate_lines(self.candidates@.take(i as int), show_all),
            decreases self.candidates.len() - i,
        {
            assert(self.candidates@.take(i + 1).drop_last() =~= self.candidates@.take(i as int));
            let c = &self.candidates[i];
            if show_all || c.is_safe {
                let row = Self::row_line(c);
                push_line(&mut body, row);
                if !c.is_safe {
                    let mut reason = String::from_str("             ↳ Reason: ");
                    reason.append(c.safety_reason.as_str());
                    push_line(&mut body, reason);
                }
            }
            i = i + 1;
        }
        assert(self.candidates@.take(self.candidates.len() as int) =~= self.candidates@);
        let ghost b = line_views(body@);
        if body.len() == 0 {
            push_line(&mut lines, String::from_str("  No reclaimable build artifacts or dead caches found."));
            push_line(&mut lines, String::from_str("─────────────────────────────────────────────────────────────────────────────────────────────────"));
            assert(line_views(lines@) =~= table_lines(*self, show_all, timing@));
            return lines;
        }
        push_line(&mut lines, Self::column_titles_line());
        push_line(&mut lines, Self::column_dashes_line());
        let ghost with_titles = line_views(lines@);
        let mut j: usize = 0;
        while j < body.len()
            invariant
                j <= body.len(),
                b == line_views(body@),
                line_views(lines@) == with_titles + b.take(j as int),
            decreases body.len() - j,
        {
            let line = body[j].clone();
            push_line(&mut lines, line);
            assert(b.take(j + 1) =~= b.take(j as int).push(b[j as int]));
            j = j + 1;
        }
        assert(b.take(body.len() as int) =~= b);
        push_line(&mut lines, String::from_str("─────────────────────────────────────────────────────────────────────────────────────────────────"));
        let mut found = String::from_str("  Found ");
        push_decimal(&mut found, self.safe_count as u128);
        found.append(" safe items (");
        found.append(self.human_total_reclaimable.as_str());
        found.append("). Review carefully before cleaning.");
        push_line(&mut lines, found);
        let ghost before_note = line_views(lines@);
        if self.unsafe_count > 0 && !show_all {
            let mut note = String::from_str("  Note: ");
            push_decimal(&mut note, self.unsafe_count as u128);
            note.append(" item(s) skipped due to active locks or dirty git trees. Use --all to view.");
            push_line(&mut lines, note);
        }
        push_line(&mut lines, String::new());
        assert(line_views(lines@) =~= table_lines(*self, show_all, timing@));
        lines
    }

    /// The column titles line.
    fn column_titles_line() -> (r: String)
        ensures
            r@ == column_titles(),
    {
        let mut out = String::from_str("  ");
        push_padded(&mut out, "STATUS", 10, ' ');
        out.append(" ");
        push_padded(&mut out, "CATEGORY", 24, ' ');
        out.append(" ");
        push_padded(&mut out, "SIZE", 10, ' ');
        out.append(" ");
        push_padded(&mut out, "MODIFIED", 12, ' ');
        out.append(" ");
        push_padded(&mut out, "PATH", 40, ' ');
        out
    }

    /// The dashes line under the column titles.
    fn column_dashes_line() -> (r: String)
        ensures
            r@ == column_dashes(),
    {
        let mut out = String::from_str("  ");
        push_padded(&mut out, "", 10, '-');
        out.append(" ");
        push_padded(&mut out, "", 24, '-');
        out.append(" ");
        push_padded(&mut out, "", 10, '-');
        out.append(" ");
        push_padded(&mut out, "", 12, '-');
        out.append(" ");
        push_padded(&mut out, "", 40, '-');
        out
    }
}

} // verus!
