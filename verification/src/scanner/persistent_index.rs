use vstd::prelude::*;
use vstd::string::StringExecFns;
use crate::model::file_record::{FileRecord, Timestamp, now_timestamp, timestamp_in_range};
use crate::paths::{joined_path, lemma_joined_path_ends, path_join, plain_component, plain_name, verbatim_path};
use crate::scanner::index::{IndexView, ScanIndex, ids_consistent};
use crate::text::{has_prefix, has_suffix, push_char, str_starts_with};

verus! {

/// Why a saved index cannot be used or updated.
#[derive(Debug)]
pub enum IncrementalIndexError {
    NotFound(String),
    JournalWrapped { saved_usn: i64, lowest_usn: i64 },
    JournalIdMismatch { saved_id: u64, current_id: u64 },
    Io(String),
    Json(String),
    UnsupportedPlatform(String),
    JournalError(String),
}

/// What a saved index records about the volume and journal it was built from.
#[derive(Debug)]
pub struct PersistentIndexMetadata {
    pub volume_id: String,
    pub usn_journal_id: u64,
    pub last_usn: i64,
    pub saved_at: Timestamp,
    pub total_records: usize,
}

/// A scan index in the form that is saved between runs.
#[derive(Debug)]
pub struct PersistentIndex {
    pub metadata: PersistentIndexMetadata,
    pub records: Vec<FileRecord>,
}

/// The state of a volume's change journal.
#[derive(Debug, Clone, Copy)]
pub struct UsnCheckpoint {
    pub journal_id: u64,
    pub lowest_usn: i64,
    pub next_usn: i64,
}

/// One change read from the journal.
#[derive(Debug, PartialEq, Eq)]
pub enum UsnDeltaRecord {
    Created(FileRecord),
    Deleted { id: u64 },
    Renamed { id: u64, new_parent_id: u64, new_name: String },
    Modified { id: u64, new_size: u64 },
}

/// The index after one change.
pub open spec fn apply_delta(v: IndexView, d: UsnDeltaRecord) -> IndexView {
    match d {
        UsnDeltaRecord::Created(rec) => v.with_record_inserted(rec),
        UsnDeltaRecord::Deleted { id } => v.with_record_removed(id),
        UsnDeltaRecord::Renamed { id, new_parent_id, new_name } => v.with_record_updated(
            id,
            Some(new_name),
            Some(new_parent_id),
            None,
        ),
        UsnDeltaRecord::Modified { id, new_size } => v.with_record_updated(id, None, None, Some(new_size)),
    }
}

/// The index after a sequence of changes, applied in order.
pub open spec fn apply_deltas_spec(v: IndexView, ds: Seq<UsnDeltaRecord>) -> IndexView
    decreases ds.len(),
{
    if ds.len() == 0 {
        v
    } else {
        apply_delta(apply_deltas_spec(v, ds.drop_last()), ds.last())
    }
}

/// The index after inserting the records in order.
pub open spec fn insert_all(v: IndexView, rs: Seq<FileRecord>) -> IndexView
    decreases rs.len(),
{
    if rs.len() == 0 {
        v
    } else {
        insert_all(v, rs.drop_last()).with_record_inserted(rs.last())
    }
}

/// The result of checking a saved cursor against the journal's state.
pub open spec fn continuity(saved_journal: u64, saved_usn: i64, c: UsnCheckpoint) -> Result<(), IncrementalIndexError> {
    if c.journal_id != saved_journal {
        Err(IncrementalIndexError::JournalIdMismatch { saved_id: saved_journal, current_id: c.journal_id })
    } else if saved_usn < c.lowest_usn {
        Err(IncrementalIndexError::JournalWrapped { saved_usn, lowest_usn: c.lowest_usn })
    } else {
        Ok(())
    }
}

/// `rs` holds each record of `v` once.
pub open spec fn holds_records_of(rs: Seq<FileRecord>, v: IndexView) -> bool {
    exists|ks: Seq<u64>|
        #![trigger ks.to_set()]
        ks.no_duplicates() && ks.to_set() == v.records.dom() && rs == ks.map_values(|k: u64| v.records[k])
}

fn copy_delta(d: &UsnDeltaRecord) -> (r: UsnDeltaRecord)
    ensures
        r == *d,
{
    match d {
        UsnDeltaRecord::Created(rec) => UsnDeltaRecord::Created(rec.copy()),
        UsnDeltaRecord::Deleted { id } => UsnDeltaRecord::Deleted { id: *id },
        UsnDeltaRecord::Renamed { id, new_parent_id, new_name } => UsnDeltaRecord::Renamed {
            id: *id,
            new_parent_id: *new_parent_id,
            new_name: new_name.clone(),
        },
        UsnDeltaRecord::Modified { id, new_size } => UsnDeltaRecord::Modified { id: *id, new_size: *new_size },
    }
}

impl ScanIndex {
    /// Applies one journal change to the index.
    pub fn apply_delta(&mut self, delta: &UsnDeltaRecord)
        requires
            old(self).total_files_scanned < usize::MAX,
        ensures
            final(self)@ == apply_delta(old(self)@, *delta),
            final(self).total_files_scanned <= old(self).total_files_scanned + 1,
    {
        match copy_delta(delta) {
            UsnDeltaRecord::Created(rec) => {
                self.insert_record(rec);
            },
            UsnDeltaRecord::Deleted { id } => {
                self.remove_record(id);
            },
            UsnDeltaRecord::Renamed { id, new_parent_id, new_name } => {
                self.update_record(id, Some(new_name), Some(new_parent_id), None);
            },
            UsnDeltaRecord::Modified { id, new_size } => {
                self.update_record(id, None, None, Some(new_size));
            },
        }
    }
}

impl PersistentIndex {
    /// The time a saved index is stamped with: the current time, or the epoch
    /// when the clock gives none.
    fn stamp() -> (r: Timestamp)
        ensures
            timestamp_in_range(r),
    {
        match now_timestamp() {
            Some(t) => t,
            None => Timestamp { unix_nanos: 0 },
        }
    }

    /// A saved form of `index`: its records (each once, in the map's order) with
    /// the volume, journal id and cursor given, stamped with the current time
    /// (the epoch when the clock reads before 1970).
    pub fn new(volume_id: &str, usn_journal_id: u64, last_usn: i64, index: &ScanIndex) -> (r: Self)
        ensures
            r.metadata.volume_id@ == volume_id@,
            r.metadata.usn_journal_id == usn_journal_id,
            r.metadata.last_usn == last_usn,
            timestamp_in_range(r.metadata.saved_at),
            r.metadata.total_records == index@.records.len(),
            holds_records_of(r.records@, index@),
    {
        let records = index.records_in_some_order();
        let total = index.records.len();
        PersistentIndex {
            metadata: PersistentIndexMetadata {
                volume_id: String::from_str(volume_id),
                usn_journal_id,
                last_usn,
                saved_at: Self::stamp(),
                total_records: total,
            },
            records,
        }
    }

    /// A scan index rebuilt by inserting the saved records in order.
    pub fn to_scan_index(&self, root_path: String) -> (r: ScanIndex)
        requires
            self.records.len() < usize::MAX,
        ensures
            r@ == insert_all(ScanIndex::new_spec(root_path@), self.records@),
    {
        let mut index = ScanIndex::new(root_path);
        let ghost start = index@;
        let mut i: usize = 0;
        while i < self.records.len()
            invariant
                i <= self.records.len(),
                self.records.len() < usize::MAX,
                index.total_files_scanned == i,
                index@ == insert_all(start, self.records@.take(i as int)),
            decreases self.records.len() - i,
        {
            assert(self.records@.take(i + 1).drop_last() =~= self.records@.take(i as int));
            index.insert_record(self.records[i].copy());
            i = i + 1;
        }
        assert(self.records@.take(self.records.len() as int) =~= self.records@);
        index
    }

    /// Whether the saved cursor can still be followed in the journal: an error when
    /// the journal was recreated (its id changed) or has wrapped past the cursor.
    pub fn verify_journal_continuity(&self, checkpoint: &UsnCheckpoint) -> (r: Result<(), IncrementalIndexError>)
        ensures
            r == continuity(self.metadata.usn_journal_id, self.metadata.last_usn, *checkpoint),
    {
        if checkpoint.journal_id != self.metadata.usn_journal_id {
            return Err(
                IncrementalIndexError::JournalIdMismatch {
                    saved_id: self.metadata.usn_journal_id,
                    current_id: checkpoint.journal_id,
                },
            );
        }
        if self.metadata.last_usn < checkpoint.lowest_usn {
            return Err(
                IncrementalIndexError::JournalWrapped {
                    saved_usn: self.metadata.last_usn,
                    lowest_usn: checkpoint.lowest_usn,
                },
            );
        }
        Ok(())
    }

    /// Applies journal changes to the in-memory index in order, then takes the new
    /// cursor, the current time, and the index's records and count.
    pub fn apply_deltas(&mut self, index: &mut ScanIndex, deltas: &[UsnDeltaRecord], new_next_usn: i64)
        requires
            old(index).total_files_scanned + deltas@.len() < usize::MAX,
        ensures
            final(index)@ == apply_deltas_spec(old(index)@, deltas@),
            final(self).metadata.volume_id == old(self).metadata.volume_id,
            final(self).metadata.usn_journal_id == old(self).metadata.usn_journal_id,
            final(self).metadata.last_usn == new_next_usn,
            timestamp_in_range(final(self).metadata.saved_at),
            final(self).metadata.total_records == final(index)@.records.len(),
            holds_records_of(final(self).records@, final(index)@),
    {
        let ghost start = index@;
        let ghost start_total = index.total_files_scanned;
        let mut i: usize = 0;
        while i < deltas.len()
            invariant
                i <= deltas@.len(),
                start_total + deltas@.len() < usize::MAX,
                index.total_files_scanned <= start_total + i,
                index@ == apply_deltas_spec(start, deltas@.take(i as int)),
            decreases deltas@.len() - i,
        {
            assert(deltas@.take(i + 1).drop_last() =~= deltas@.take(i as int));
            index.apply_delta(&deltas[i]);
            i = i + 1;
        }
        assert(deltas@.take(deltas@.len() as int) =~= deltas@);
        self.metadata.last_usn = new_next_usn;
        self.metadata.saved_at = Self::stamp();
        self.metadata.total_records = index.records.len();
        self.records = index.records_in_some_order();
    }
}

/// Inserting the records of the first `n` keys rebuilds the records of those keys.
proof fn lemma_insert_prefix(v: IndexView, ks: Seq<u64>, root: Seq<char>, n: int)
    requires
        ids_consistent(v),
        ks.to_set() == v.records.dom(),
        0 <= n <= ks.len(),
    ensures
        insert_all(ScanIndex::new_spec(root), ks.map_values(|k: u64| v.records[k]).take(n)).records
            == Map::new(|k: u64| ks.take(n).contains(k), |k: u64| v.records[k]),
    decreases n,
{
    let rs = ks.map_values(|k: u64| v.records[k]);
    if n == 0 {
        assert(insert_all(ScanIndex::new_spec(root), rs.take(0)).records =~= Map::new(
            |k: u64| ks.take(0).contains(k),
            |k: u64| v.records[k],
        ));
    } else {
        lemma_insert_prefix(v, ks, root, n - 1);
        assert(rs.take(n).drop_last() =~= rs.take(n - 1));
        let k0 = ks[n - 1];
        assert(ks.to_set().contains(k0));
        assert(v.records.contains_key(k0));
        assert(rs.take(n).last() == v.records[k0]);
        assert(v.records[k0].id == k0);
        assert forall|k: u64| ks.take(n).contains(k) <==> (ks.take(n - 1).contains(k) || k == k0) by {
            if ks.take(n).contains(k) {
                let i = choose|i: int| 0 <= i < n && #[trigger] ks.take(n)[i] == k;
                if i < n - 1 {
                    assert(ks.take(n - 1)[i] == k);
                }
            }
            if ks.take(n - 1).contains(k) {
                let i = choose|i: int| 0 <= i < n - 1 && #[trigger] ks.take(n - 1)[i] == k;
                assert(ks.take(n)[i] == k);
            }
            if k == k0 {
                assert(ks.take(n)[n - 1] == k);
            }
        }
        assert(insert_all(ScanIndex::new_spec(root), rs.take(n)).records =~= Map::new(
            |k: u64| ks.take(n).contains(k),
            |k: u64| v.records[k],
        ));
    }
}

/// Rebuilding an index from the records saved of it gives back the same
/// records, each under its own id.
pub proof fn law_saved_records_rebuild_records(v: IndexView, rs: Seq<FileRecord>, root: Seq<char>)
    requires
        ids_consistent(v),
        holds_records_of(rs, v),
    ensures
        insert_all(ScanIndex::new_spec(root), rs).records == v.records,
{
    let ks = choose|ks: Seq<u64>|
        #![trigger ks.to_set()]
        ks.no_duplicates() && ks.to_set() == v.records.dom() && rs == ks.map_values(|k: u64| v.records[k]);
    lemma_insert_prefix(v, ks, root, ks.len() as int);
    assert(rs.take(ks.len() as int) =~= rs);
    assert(ks.take(ks.len() as int) =~= ks);
    assert forall|k: u64| ks.contains(k) <==> v.records.contains_key(k) by {
        assert(ks.to_set().contains(k) == ks.contains(k));
    }
    assert(Map::new(|k: u64| ks.contains(k), |k: u64| v.records[k]) =~= v.records);
}

/// Applying journal changes in two batches gives the index that applying them
/// all at once gives.
pub proof fn law_delta_batches_compose(v: IndexView, first: Seq<UsnDeltaRecord>, second: Seq<UsnDeltaRecord>)
    ensures
        apply_deltas_spec(apply_deltas_spec(v, first), second) == apply_deltas_spec(v, first + second),
    decreases second.len(),
{
    if second.len() == 0 {
        assert(first + second =~= first);
    } else {
        law_delta_batches_compose(v, first, second.drop_last());
        assert((first + second).drop_last() =~= first + second.drop_last());
        assert((first + second).last() == second.last());
    }
}

/// The saved cursor can be followed exactly when the journal is the same one
/// and has not wrapped past the cursor; otherwise the index must be rebuilt.
pub proof fn law_continuity_ok_iff(saved_journal: u64, saved_usn: i64, c: UsnCheckpoint)
    ensures
        continuity(saved_journal, saved_usn, c) is Ok <==> (c.journal_id == saved_journal && saved_usn
            >= c.lowest_usn),
        c.journal_id == saved_journal && saved_usn < c.lowest_usn ==> continuity(saved_journal, saved_usn, c)
            == Err::<(), IncrementalIndexError>(
            IncrementalIndexError::JournalWrapped { saved_usn, lowest_usn: c.lowest_usn },
        ),
{
}

/// Calls `char::is_alphanumeric` (Unicode alphabetic or numeric).
pub uninterp spec fn unicode_alphanumeric(c: char) -> bool;

/// Calls `char::is_alphanumeric`; the answer follows the Unicode tables built
/// into std, named `unicode_alphanumeric` and not spelled out, except that
/// ASCII letters and digits are alphanumeric and other ASCII characters are not.
#[verifier::external_body]
fn is_alphanumeric(c: char) -> (r: bool)
    ensures
        r == unicode_alphanumeric(c),
        (c as u32) < 128 ==> (r <==> (ascii_alpha(c) || ('0' <= c && c <= '9'))),
{
    c.is_alphanumeric()
}

/// The volume name with every character that is not alphanumeric replaced by `_`.
pub open spec fn sanitized_volume(volume: Seq<char>) -> Seq<char> {
    volume.map_values(|c: char| if unicode_alphanumeric(c) { c } else { '_' })
}

/// The file name of the saved index of a volume.
pub open spec fn index_file_name_of(volume: Seq<char>) -> Seq<char> {
    "index_"@ + sanitized_volume(volume) + ".json"@
}

/// The file name of the saved index of a volume: `index_<volume>.json`, with the
/// volume's non-alphanumeric characters replaced by `_`.
pub fn index_file_name(volume: &str) -> (r: String)
    ensures
        r@ == index_file_name_of(volume@),
        plain_component(r@),
{
    let chars = crate::text::chars_of(volume);
    let mut r = String::from_str("index_");
    let ghost start = r@;
    proof {
        reveal_strlit("index_");
        reveal_strlit(".json");
    }
    let mut i: usize = 0;
    while i < chars.len()
        invariant
            chars@ == volume@,
            i <= chars.len(),
            start == "index_"@,
            r@ == start + sanitized_volume(volume@).take(i as int),
            plain_name(r@),
            r@.len() >= 6,
        decreases chars.len() - i,
    {
        let c = chars[i];
        let ghost before = r@;
        if is_alphanumeric(c) {
            push_char(&mut r, c);
            assert(c != '/' && c != '\\' && c != ':');
        } else {
            push_char(&mut r, '_');
        }
        assert(forall|k: int| 0 <= k < before.len() ==> r@[k] == before[k]);
        assert(sanitized_volume(volume@).take(i + 1) =~= sanitized_volume(volume@).take(i as int).push(
            sanitized_volume(volume@)[i as int],
        ));
        i = i + 1;
    }
    assert(sanitized_volume(volume@).take(chars.len() as int) =~= sanitized_volume(volume@));
    let ghost body = r@;
    r.append(".json");
    assert(r@ =~= body + ".json"@);
    assert(r@.len() > 2);
    r
}

/// The path of the saved index of a volume inside the index directory: the
/// directory joined with the index's file name by the platform's path rules,
/// so the path ends with that file name and, unless the directory is a
/// verbatim path, is the directory, at most one separator, and the file name.
pub fn get_index_path_for_volume(volume: &str, index_dir: &str) -> (r: String)
    ensures
        has_suffix(r@, index_file_name_of(volume@)),
        !verbatim_path(index_dir@) ==> joined_path(r@, index_dir@, index_file_name_of(volume@)),
        !verbatim_path(index_dir@) ==> has_prefix(r@, index_dir@),
{
    let name = index_file_name(volume);
    let r = path_join(index_dir, name.as_str());
    proof {
        if !verbatim_path(index_dir@) {
            lemma_joined_path_ends(r@, index_dir@, name@);
        }
    }
    r
}

/// Whether a character is an ASCII letter.
pub open spec fn ascii_alpha(c: char) -> bool {
    ('a' <= c && c <= 'z') || ('A' <= c && c <= 'Z')
}

/// The first ASCII letter of the text, or 'C' when it has none.
pub open spec fn first_ascii_alpha(p: Seq<char>) -> char
    decreases p.len(),
{
    if p.len() == 0 {
        'C'
    } else if ascii_alpha(p[0]) {
        p[0]
    } else {
        first_ascii_alpha(p.drop_first())
    }
}

/// The device path of the volume whose USN journal is queried: a path that
/// already starts with "\\.\" is kept; otherwise "\\.\X:" for the first ASCII
/// letter X of the path ('C' when there is none).
pub open spec fn usn_volume_root_text(p: Seq<char>) -> Seq<char> {
    if has_prefix(p, seq!['\\', '\\', '.', '\\']) {
        p
    } else {
        seq!['\\', '\\', '.', '\\', first_ascii_alpha(p), ':']
    }
}

/// The device path to open for a drive path's USN journal.
pub fn usn_volume_root(drive_path: &str) -> (r: String)
    ensures
        r@ == usn_volume_root_text(drive_path@),
{
    let prefix = "\\\\.\\";
    proof {
        reveal_strlit("\\\\.\\");
        assert(prefix@ =~= seq!['\\', '\\', '.', '\\']);
    }
    if str_starts_with(drive_path, prefix) {
        return drive_path.to_string();
    }
    let cs = crate::text::chars_of(drive_path);
    let mut letter: char = 'C';
    let mut i: usize = 0;
    assert(drive_path@.skip(0) =~= drive_path@);
    while i < cs.len()
        invariant_except_break
            letter == 'C',
        invariant
            cs@ == drive_path@,
            i <= cs.len(),
            first_ascii_alpha(drive_path@) == first_ascii_alpha(drive_path@.skip(i as int)),
        ensures
            letter == first_ascii_alpha(drive_path@),
        decreases cs.len() - i,
    {
        let c = cs[i];
        if ('a' <= c && c <= 'z') || ('A' <= c && c <= 'Z') {
            letter = c;
            assert(drive_path@.skip(i as int)[0] == c);
            break ;
        }
        assert(drive_path@.skip(i as int).drop_first() =~= drive_path@.skip(i + 1));
        i = i + 1;
        proof {
            if i == cs.len() {
                assert(drive_path@.skip(i as int).len() == 0);
            }
        }
    }
    let mut r = String::new();
    push_char(&mut r, '\\');
    push_char(&mut r, '\\');
    push_char(&mut r, '.');
    push_char(&mut r, '\\');
    push_char(&mut r, letter);
    push_char(&mut r, ':');
    assert(r@ =~= usn_volume_root_text(drive_path@));
    r
}

/// How a query of a volume's change journal went.
pub enum UsnQueryOutcome {
    /// The platform has no change journal.
    Unsupported,
    /// The volume path could not be handed to the system (with the reason).
    InvalidPath(String),
    /// The volume could not be opened (with the system's message).
    OpenFailed(String),
    /// The volume opened without a usable handle.
    InvalidHandle,
    /// The journal query was refused.
    QueryFailed,
    /// The journal's id, lowest valid USN and next USN.
    Journal { journal_id: u64, lowest_usn: i64, next_usn: i64 },
}

/// The journal state, or the error, a query outcome gives.
pub open spec fn checkpoint_of(o: UsnQueryOutcome) -> Result<UsnCheckpoint, Seq<char>> {
    match o {
        UsnQueryOutcome::Unsupported => Err("USN Change Journal is an NTFS/Windows feature"@),
        UsnQueryOutcome::InvalidPath(m) => Err("Invalid volume path: "@ + m@),
        UsnQueryOutcome::OpenFailed(m) => Err("Failed to open volume: "@ + m@),
        UsnQueryOutcome::InvalidHandle => Err("Failed to acquire volume handle for USN query"@),
        UsnQueryOutcome::QueryFailed => Err("FSCTL_QUERY_USN_JOURNAL failed"@),
        UsnQueryOutcome::Journal { journal_id, lowest_usn, next_usn } => Ok(
            UsnCheckpoint { journal_id, lowest_usn, next_usn },
        ),
    }
}

/// The journal state from a query's outcome: the checkpoint when the journal
/// was read, an unsupported-platform error where there is no journal, and a
/// journal error with its message otherwise.
pub fn checkpoint_from_query(outcome: UsnQueryOutcome) -> (r: Result<UsnCheckpoint, IncrementalIndexError>)
    ensures
        match (r, checkpoint_of(outcome)) {
            (Ok(c), Ok(d)) => c == d,
            (Err(IncrementalIndexError::UnsupportedPlatform(m)), Err(t)) => outcome is Unsupported && m@ == t,
            (Err(IncrementalIndexError::JournalError(m)), Err(t)) => !(outcome is Unsupported) && m@ == t,
            _ => false,
        },
{
    match outcome {
        UsnQueryOutcome::Unsupported => Err(
            IncrementalIndexError::UnsupportedPlatform(String::from_str("USN Change Journal is an NTFS/Windows feature")),
        ),
        UsnQueryOutcome::InvalidPath(m) => {
            let mut t = String::from_str("Invalid volume path: ");
            t.append(m.as_str());
            Err(IncrementalIndexError::JournalError(t))
        },
        UsnQueryOutcome::OpenFailed(m) => {
            let mut t = String::from_str("Failed to open volume: ");
            t.append(m.as_str());
            Err(IncrementalIndexError::JournalError(t))
        },
        UsnQueryOutcome::InvalidHandle => Err(
            IncrementalIndexError::JournalError(String::from_str("Failed to acquire volume handle for USN query")),
        ),
        UsnQueryOutcome::QueryFailed => Err(
            IncrementalIndexError::JournalError(String::from_str("FSCTL_QUERY_USN_JOURNAL failed")),
        ),
        UsnQueryOutcome::Journal { journal_id, lowest_usn, next_usn } => Ok(
            UsnCheckpoint { journal_id, lowest_usn, next_usn },
        ),
    }
}

} // verus!
