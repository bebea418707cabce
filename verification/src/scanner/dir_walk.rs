use vstd::prelude::*;
use vstd::hash_map::StringHashMap;
use crate::model::file_record::{
    FileRecord, Timestamp, FILE_ATTRIBUTE_DIRECTORY, FILE_ATTRIBUTE_REPARSE_POINT, attrs_reparse,
    attrs_cloud,
};
use crate::scanner::index::{IndexView, ScanIndex, ids_consistent, parent_walk_ends, resolve_stops};
use crate::classifier::ancestry_ends;

verus! {

broadcast use vstd::std_specs::hash::group_hash_axioms;

/// Builds a scan index by walking a directory tree, one entry at a time.
pub struct DirWalkScanner;

impl Default for DirWalkScanner {
    fn default() -> (r: Self) {
        Self::new()
    }
}

impl DirWalkScanner {
    /// A walking scanner.
    pub fn new() -> (r: Self) {
        DirWalkScanner
    }
}

/// What the directory walk reports about one entry below the root.
pub struct WalkEntry {
    pub path: String,
    /// The entry's parent directory, when its path has one.
    pub parent_path: Option<String>,
    pub file_name: String,
    pub is_dir: bool,
    pub is_symlink: bool,
    /// The length from the entry's metadata, when the metadata could be read.
    pub len: Option<u64>,
    pub modified_at: Option<Timestamp>,
    pub created_at: Option<Timestamp>,
    /// The number of hard links, when it could be read.
    pub hard_link_count: Option<u32>,
}

/// The attribute bits of a walked entry: directory and/or reparse point.
pub open spec fn walk_attributes(is_dir: bool, is_symlink: bool) -> u32 {
    (if is_dir { FILE_ATTRIBUTE_DIRECTORY } else { 0u32 }) | (if is_symlink {
        FILE_ATTRIBUTE_REPARSE_POINT
    } else {
        0u32
    })
}

/// The record made for a walked entry with the given id and parent id:
/// directories have size 0, files the metadata length (0 when unknown), and
/// the hard-link count defaults to 1.
pub open spec fn walk_record(e: WalkEntry, id: u64, parent_id: u64) -> FileRecord {
    let attributes = walk_attributes(e.is_dir, e.is_symlink);
    FileRecord {
        id,
        parent_id,
        name: e.file_name,
        path: e.path,
        is_dir: e.is_dir,
        size_bytes: if e.is_dir {
            0
        } else {
            match e.len {
                Some(n) => n,
                None => 0,
            }
        },
        modified_at: e.modified_at,
        created_at: e.created_at,
        attributes,
        is_reparse_point: attrs_reparse(attributes),
        is_cloud_placeholder: attrs_cloud(attributes),
        hard_link_count: match e.hard_link_count {
            Some(n) => n,
            None => 1,
        },
    }
}

/// The record of the walk's root: id 0, its own parent, a directory.
pub open spec fn root_record(
    root_path: String,
    root_name: String,
    modified_at: Option<Timestamp>,
    created_at: Option<Timestamp>,
) -> FileRecord {
    FileRecord {
        id: 0,
        parent_id: 0,
        name: root_name,
        path: root_path,
        is_dir: true,
        size_bytes: 0,
        modified_at,
        created_at,
        attributes: FILE_ATTRIBUTE_DIRECTORY,
        is_reparse_point: attrs_reparse(FILE_ATTRIBUTE_DIRECTORY),
        is_cloud_placeholder: attrs_cloud(FILE_ATTRIBUTE_DIRECTORY),
        hard_link_count: 1,
    }
}

/// The state of a directory walk in progress: the index built so far, the id
/// given to each path seen, and the next id to hand out.
pub struct DirWalkIngest {
    pub index: ScanIndex,
    pub path_to_id: StringHashMap<u64>,
    pub root_path: String,
    pub next_id: u64,
}

impl DirWalkIngest {
    /// Every id handed out, to a path or to a record, is below `next_id`; every
    /// record is stored under its own id, and its parent's id is below its own
    /// (the root is its own parent, with id 0).
    pub open spec fn wf(&self) -> bool {
        &&& self.next_id >= 1
        &&& forall|p: Seq<char>| #[trigger]
            self.path_to_id@.contains_key(p) ==> self.path_to_id@[p] < self.next_id
        &&& forall|id: u64| #[trigger] self.index@.records.contains_key(id) ==> id < self.next_id
        &&& ids_consistent(self.index@)
        &&& forall|id: u64| #[trigger]
            self.index@.records.contains_key(id) ==> self.index@.records[id].parent_id < id || (id == 0
                && self.index@.records[id].parent_id == 0)
    }

    /// The parent id a walked entry gets: the id of its parent path (the root's
    /// when it has none), or 0 when that path was never seen.
    pub open spec fn parent_id_of(&self, e: WalkEntry) -> u64 {
        let pp = match e.parent_path {
            Some(p) => p@,
            None => self.root_path@,
        };
        if self.path_to_id@.contains_key(pp) {
            self.path_to_id@[pp]
        } else {
            0
        }
    }

    /// Starts a walk at `root_path`: the root gets id 0 and a directory record.
    pub fn start(
        root_path: String,
        root_name: String,
        modified_at: Option<Timestamp>,
        created_at: Option<Timestamp>,
    ) -> (r: Self)
        ensures
            r.wf(),
            r.root_path == root_path,
            r.next_id == 1,
            r.path_to_id@ == map![root_path@ => 0u64],
            r.index@ == ScanIndex::new_spec(root_path@).with_record_inserted(
                root_record(root_path, root_name, modified_at, created_at),
            ),
    {
        let mut index = ScanIndex::new(root_path.clone());
        let mut path_to_id: StringHashMap<u64> = StringHashMap::new();
        path_to_id.insert(root_path.clone(), 0);
        let record = FileRecord::new(
            0,
            0,
            root_name,
            root_path.clone(),
            true,
            0,
            modified_at,
            created_at,
            FILE_ATTRIBUTE_DIRECTORY,
        );
        index.insert_record(record);
        let r = DirWalkIngest { index, path_to_id, root_path, next_id: 1 };
        assert(r.path_to_id@ =~= map![r.root_path@ => 0u64]);
        r
    }

    /// Adds one walked entry: it takes the next id, its parent's id, and a
    /// record built from what the walk reported.
    pub fn add_entry(&mut self, entry: WalkEntry) -> (id: u64)
        requires
            old(self).next_id < u64::MAX,
            old(self).index.total_files_scanned < usize::MAX,
        ensures
            id == old(self).next_id,
            final(self).next_id == id + 1,
            final(self).root_path == old(self).root_path,
            final(self).path_to_id@ == old(self).path_to_id@.insert(entry.path@, id),
            final(self).index@ == old(self).index@.with_record_inserted(
                walk_record(entry, id, old(self).parent_id_of(entry)),
            ),
            old(self).wf() ==> final(self).wf() && !old(self).index@.records.contains_key(id),
    {
        let parent_id: u64 = match &entry.parent_path {
            Some(pp) => match self.path_to_id.get(pp.as_str()) {
                Some(v) => *v,
                None => 0,
            },
            None => match self.path_to_id.get(self.root_path.as_str()) {
                Some(v) => *v,
                None => 0,
            },
        };
        let current_id = self.next_id;
        self.next_id = self.next_id + 1;
        self.path_to_id.insert(entry.path.clone(), current_id);
        let size_bytes: u64 = if entry.is_dir {
            0
        } else {
            match entry.len {
                Some(n) => n,
                None => 0,
            }
        };
        let attributes: u32 = (if entry.is_dir { FILE_ATTRIBUTE_DIRECTORY } else { 0u32 }) | (
        if entry.is_symlink {
            FILE_ATTRIBUTE_REPARSE_POINT
        } else {
            0u32
        });
        let hard_links: u32 = match entry.hard_link_count {
            Some(n) => n,
            None => 1,
        };
        let ghost e = entry;
        let record = FileRecord::new(
            current_id,
            parent_id,
            entry.file_name,
            entry.path,
            entry.is_dir,
            size_bytes,
            entry.modified_at,
            entry.created_at,
            attributes,
        ).with_hard_links(hard_links);
        assert(record == walk_record(e, current_id, parent_id));
        self.index.insert_record(record);
        current_id
    }

    /// Ends the walk, recording how long it took.
    pub fn finish(self, scan_duration_nanos: u128) -> (r: ScanIndex)
        ensures
            r@ == (IndexView { scan_duration_nanos: scan_duration_nanos as nat, ..self.index@ }),
    {
        let mut index = self.index;
        index.scan_duration_nanos = scan_duration_nanos;
        index
    }
}

/// In an index built by a directory walk every parent chain ends: the walk up
/// from any record stops within as many steps as its id, both for the ancestor
/// test of classification and for building paths.
pub proof fn law_walked_parent_chains_end(w: DirWalkIngest, id: u64, fuel: nat)
    requires
        w.wf(),
        fuel >= id,
    ensures
        ancestry_ends(w.index@, id, fuel),
        parent_walk_ends(w.index@, id, fuel),
    decreases id,
{
    let v = w.index@;
    if v.records.contains_key(id) {
        let p = v.records[id].parent_id;
        if p != id && p != 0 && p != 5 {
            assert(p < id);
            law_walked_parent_chains_end(w, p, (fuel - 1) as nat);
        } else if p != id && id != 0 && id != 5 {
            assert(ancestry_ends(v, p, (fuel - 1) as nat));
        }
    }
}

} // verus!
