use vstd::prelude::*;

verus! {

pub const FILE_ATTRIBUTE_READONLY: u32 = 0x00000001;
pub const FILE_ATTRIBUTE_HIDDEN: u32 = 0x00000002;
pub const FILE_ATTRIBUTE_SYSTEM: u32 = 0x00000004;
pub const FILE_ATTRIBUTE_DIRECTORY: u32 = 0x00000010;
pub const FILE_ATTRIBUTE_ARCHIVE: u32 = 0x00000020;
pub const FILE_ATTRIBUTE_REPARSE_POINT: u32 = 0x00000400;
pub const FILE_ATTRIBUTE_OFFLINE: u32 = 0x00001000;
pub const FILE_ATTRIBUTE_RECALL_ON_OPEN: u32 = 0x00040000;
pub const FILE_ATTRIBUTE_RECALL_ON_DATA_ACCESS: u32 = 0x00400000;

/// A point in time, as nanoseconds since the UNIX epoch (UTC).
#[derive(Debug, Clone, Copy, PartialEq, Eq, Structural, Hash)]
pub struct Timestamp {
    pub unix_nanos: i128,
}

/// The later of two optional timestamps; `None` counts as "no time".
pub open spec fn latest_of(a: Option<Timestamp>, b: Option<Timestamp>) -> Option<Timestamp> {
    match (a, b) {
        (Some(x), Some(y)) => if x.unix_nanos >= y.unix_nanos { Some(x) } else { Some(y) },
        (Some(x), None) => Some(x),
        (None, _) => b,
    }
}

/// Computes `latest_of`.
pub fn latest(a: Option<Timestamp>, b: Option<Timestamp>) -> (r: Option<Timestamp>)
    ensures
        r == latest_of(a, b),
{
    match (a, b) {
        (Some(x), Some(y)) => if x.unix_nanos >= y.unix_nanos { Some(x) } else { Some(y) },
        (Some(x), None) => Some(x),
        (None, _) => b,
    }
}

/// One file or directory seen by a scan.
#[derive(Debug, Clone, PartialEq, Eq)]
pub struct FileRecord {
    pub id: u64,
    pub parent_id: u64,
    pub name: String,
    /// The full path as text; empty when it is resolved lazily from the parent chain.
    pub path: String,
    pub is_dir: bool,
    pub size_bytes: u64,
    pub modified_at: Option<Timestamp>,
    pub created_at: Option<Timestamp>,
    pub attributes: u32,
    pub is_reparse_point: bool,
    pub is_cloud_placeholder: bool,
    pub hard_link_count: u32,
}

/// Whether the attribute bits mark a reparse point.
pub open spec fn attrs_reparse(attributes: u32) -> bool {
    attributes & FILE_ATTRIBUTE_REPARSE_POINT != 0
}

/// Whether the attribute bits mark an online-only (recall / offline) placeholder.
pub open spec fn attrs_cloud(attributes: u32) -> bool {
    attributes & (FILE_ATTRIBUTE_RECALL_ON_DATA_ACCESS | FILE_ATTRIBUTE_RECALL_ON_OPEN
        | FILE_ATTRIBUTE_OFFLINE) != 0
}

impl FileRecord {
    /// Builds a record; the reparse and cloud-placeholder flags are derived from
    /// the attribute bits, and the hard-link count starts at one.
    pub fn new(
        id: u64,
        parent_id: u64,
        name: String,
        path: String,
        is_dir: bool,
        size_bytes: u64,
        modified_at: Option<Timestamp>,
        created_at: Option<Timestamp>,
        attributes: u32,
    ) -> (r: Self)
        ensures
            r == (FileRecord {
                id,
                parent_id,
                name,
                path,
                is_dir,
                size_bytes,
                modified_at,
                created_at,
                attributes,
                is_reparse_point: attrs_reparse(attributes),
                is_cloud_placeholder: attrs_cloud(attributes),
                hard_link_count: 1,
            }),
    {
        let is_reparse_point = (attributes & FILE_ATTRIBUTE_REPARSE_POINT) != 0;
        let is_cloud_placeholder = (attributes & (FILE_ATTRIBUTE_RECALL_ON_DATA_ACCESS
            | FILE_ATTRIBUTE_RECALL_ON_OPEN | FILE_ATTRIBUTE_OFFLINE)) != 0;
        FileRecord {
            id,
            parent_id,
            name,
            path,
            is_dir,
            size_bytes,
            modified_at,
            created_at,
            attributes,
            is_reparse_point,
            is_cloud_placeholder,
            hard_link_count: 1,
        }
    }

    /// The same record with its hard-link count set.
    pub fn with_hard_links(self, count: u32) -> (r: Self)
        ensures
            r == (FileRecord { hard_link_count: count, ..self }),
    {
        FileRecord { hard_link_count: count, ..self }
    }

    /// A field-for-field copy.
    pub fn copy(&self) -> (r: Self)
        ensures
            r == *self,
    {
        FileRecord {
            id: self.id,
            parent_id: self.parent_id,
            name: self.name.clone(),
            path: self.path.clone(),
            is_dir: self.is_dir,
            size_bytes: self.size_bytes,
            modified_at: self.modified_at,
            created_at: self.created_at,
            attributes: self.attributes,
            is_reparse_point: self.is_reparse_point,
            is_cloud_placeholder: self.is_cloud_placeholder,
            hard_link_count: self.hard_link_count,
        }
    }
}


/// Nanoseconds in one day.
pub const NANOS_PER_DAY: i128 = 86_400_000_000_000;

/// Within the span `chrono` can represent (about ±262,000 years around 1970),
/// with room to spare.
pub open spec fn timestamp_in_range(t: Timestamp) -> bool {
    -10_000_000_000_000_000_000_000 <= t.unix_nanos <= 10_000_000_000_000_000_000_000
}

/// `std::time::SystemTime`, carried through opaquely.
#[verifier::external_type_specification]
#[verifier::external_body]
pub struct ExSystemTime(std::time::SystemTime);

/// Calls `SystemTime::now`: the system clock's current reading.  It depends on
/// the clock, so nothing is stated.
#[verifier::external_body]
fn system_now() -> (r: std::time::SystemTime) {
    std::time::SystemTime::now()
}

/// Calls `SystemTime::duration_since` with `UNIX_EPOCH`: `Some` holds the whole
/// seconds and sub-second nanoseconds of the time since the epoch
/// (`Duration::subsec_nanos` is below one billion); `None` for a time before
/// the epoch (the call's error).  The reading is opaque here, so nothing ties
/// the result to it beyond that bound.
#[verifier::external_body]
fn since_epoch(t: &std::time::SystemTime) -> (r: Option<(u64, u32)>)
    ensures
        r matches Some(p) ==> p.1 < 1_000_000_000,
{
    match t.duration_since(std::time::UNIX_EPOCH) {
        Ok(d) => Some((d.as_secs(), d.subsec_nanos())),
        Err(_) => None,
    }
}

/// The latest second this library stamps: later clock readings are not taken
/// as a time (they lie beyond the span `chrono` represents).
pub const MAX_CLOCK_SECONDS: u64 = 8_000_000_000_000;

/// The time a clock reading stands for: seconds and nanoseconds since the
/// epoch, when the reading exists and its seconds are at most `MAX_CLOCK_SECONDS`.
pub open spec fn reading_time(reading: Option<(u64, u32)>) -> Option<Timestamp> {
    match reading {
        Some((secs, nanos)) => if secs <= MAX_CLOCK_SECONDS {
            Some(Timestamp { unix_nanos: (secs * 1_000_000_000 + nanos) as i128 })
        } else {
            None
        },
        None => None,
    }
}

/// Turns a clock reading into a timestamp.
pub fn timestamp_from_clock(reading: Option<(u64, u32)>) -> (r: Option<Timestamp>)
    ensures
        r == reading_time(reading),
        r matches Some(t) ==> timestamp_in_range(t) && t.unix_nanos >= 0,
{
    match reading {
        Some((secs, nanos)) => {
            if secs <= MAX_CLOCK_SECONDS {
                Some(Timestamp { unix_nanos: (secs as i128) * 1_000_000_000 + (nanos as i128) })
            } else {
                None
            }
        },
        None => None,
    }
}

/// The current time, read from the system clock: `None` when the clock reads
/// before 1970 or beyond `MAX_CLOCK_SECONDS`.
pub fn now_timestamp() -> (r: Option<Timestamp>)
    ensures
        r matches Some(t) ==> timestamp_in_range(t) && t.unix_nanos >= 0,
{
    timestamp_from_clock(since_epoch(&system_now()))
}

} // verus!
