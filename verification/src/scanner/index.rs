use vstd::prelude::*;
use vstd::hash_map::StringHashMap;
use std::collections::HashMap;
use vstd::std_specs::iter::IteratorSpec;
use crate::model::file_record::FileRecord;
use crate::text::{lowercase, to_lowercase, eq_ascii_folded, eq_ignore_ascii_case};
use crate::paths::{documented_extension, file_extension, joined_path, path_join, plain_component, plain_name};
use crate::text::{has_prefix, has_suffix};

verus! {

broadcast use vstd::std_specs::hash::group_hash_axioms;

/// Removes every occurrence of `x` from `s`, keeping the order of the rest.
pub open spec fn remove_all(s: Seq<u64>, x: u64) -> Seq<u64>
    decreases s.len(),
{
    if s.len() == 0 {
        s
    } else {
        let rest = remove_all(s.drop_last(), x);
        if s.last() == x {
            rest
        } else {
            rest.push(s.last())
        }
    }
}

/// The abstract content of a scan index.
#[verifier::ext_equal]
pub struct IndexView {
    pub root_path: Seq<char>,
    /// Every record, by id.
    pub records: Map<u64, FileRecord>,
    /// For each parent id, the ids registered under it, in order of registration.
    pub children: Map<u64, Seq<u64>>,
    /// For each parent id, the lower-cased child names and the id each was last registered with.
    pub names: Map<u64, Map<Seq<char>, u64>>,
    /// The running count of files ingested.
    pub total: nat,
    pub scan_duration_nanos: nat,
}

impl IndexView {
    /// The ids registered under `p` (none if the parent is unknown).
    pub open spec fn children_of(self, p: u64) -> Seq<u64> {
        if self.children.contains_key(p) {
            self.children[p]
        } else {
            Seq::empty()
        }
    }

    /// The name table of parent `p` (empty if the parent is unknown).
    pub open spec fn names_of(self, p: u64) -> Map<Seq<char>, u64> {
        if self.names.contains_key(p) {
            self.names[p]
        } else {
            Map::empty()
        }
    }

    /// The index after `insert_record(r)`.
    pub open spec fn with_record_inserted(self, r: FileRecord) -> IndexView {
        IndexView {
            records: self.records.insert(r.id, r),
            children: self.children.insert(r.parent_id, self.children_of(r.parent_id).push(r.id)),
            names: self.names.insert(
                r.parent_id,
                self.names_of(r.parent_id).insert(lowercase(r.name@), r.id),
            ),
            total: self.total + 1,
            ..self
        }
    }

    /// The index with `id` dropped from the child list of `p`, if `p` has one.
    pub open spec fn without_child(self, p: u64, id: u64) -> IndexView {
        IndexView {
            children: if self.children.contains_key(p) {
                self.children.insert(p, remove_all(self.children[p], id))
            } else {
                self.children
            },
            ..self
        }
    }

    /// The index with `n` dropped from the name table of `p`, if `p` has one.
    pub open spec fn without_name(self, p: u64, n: Seq<char>) -> IndexView {
        IndexView {
            names: if self.names.contains_key(p) {
                self.names.insert(p, self.names[p].remove(n))
            } else {
                self.names
            },
            ..self
        }
    }

    /// The index after `remove_record(id)`.
    pub open spec fn with_record_removed(self, id: u64) -> IndexView {
        if !self.records.contains_key(id) {
            self
        } else {
            let r = self.records[id];
            let v = self.without_child(r.parent_id, id).without_name(r.parent_id, lowercase(r.name@));
            IndexView {
                records: self.records.remove(id),
                total: if self.total > 0 { (self.total - 1) as nat } else { 0 },
                ..v
            }
        }
    }

    /// The index with `id` appended to the child list of `p` (created if absent).
    pub open spec fn with_child(self, p: u64, id: u64) -> IndexView {
        IndexView { children: self.children.insert(p, self.children_of(p).push(id)), ..self }
    }

    /// The index with `n` registered as `id` in the name table of `p` (created if absent).
    pub open spec fn with_name(self, p: u64, n: Seq<char>, id: u64) -> IndexView {
        IndexView { names: self.names.insert(p, self.names_of(p).insert(n, id)), ..self }
    }

    /// The index after `update_record(id, new_name, new_parent, new_size)`: the size is
    /// replaced when given; when the parent or the name really changes, the record
    /// moves in the child lists and name tables and takes the final parent and name.
    pub open spec fn with_record_updated(
        self,
        id: u64,
        new_name: Option<String>,
        new_parent: Option<u64>,
        new_size: Option<u64>,
    ) -> IndexView {
        if !self.records.contains_key(id) {
            self
        } else {
            let rec = self.records[id];
            let old_parent = rec.parent_id;
            let old_lower = lowercase(rec.name@);
            let sized = match new_size {
                Some(sz) => FileRecord { size_bytes: sz, ..rec },
                None => rec,
            };
            let parent_changed = new_parent matches Some(p) && p != old_parent;
            let name_changed = new_name matches Some(n) && n@ != rec.name@;
            if !(parent_changed || name_changed) {
                IndexView { records: self.records.insert(id, sized), ..self }
            } else {
                let final_parent = match new_parent {
                    Some(p) => p,
                    None => old_parent,
                };
                let final_name = match new_name {
                    Some(n) => n,
                    None => rec.name,
                };
                let moved = if parent_changed {
                    self.without_child(old_parent, id).without_name(old_parent, old_lower).with_child(
                        final_parent,
                        id,
                    )
                } else {
                    self.without_name(old_parent, old_lower)
                };
                IndexView {
                    records: self.records.insert(
                        id,
                        FileRecord { parent_id: final_parent, name: final_name, ..sized },
                    ),
                    ..moved.with_name(final_parent, lowercase(final_name@), id)
                }
            }
        }
    }
}


/// The record `c` exists and its name's extension equals `ext_lower`, ignoring ASCII case.
pub open spec fn child_has_extension(v: IndexView, c: u64, ext_lower: Seq<char>) -> bool {
    &&& v.records.contains_key(c)
    &&& documented_extension(v.records[c].name@) matches Some(e)
    &&& eq_ascii_folded(e, ext_lower)
}

/// The parent walk that builds a path stops at `id`: the record is unknown, or its
/// parent is 0, itself, or 5 (the NTFS root).
pub open spec fn resolve_stops(v: IndexView, id: u64) -> bool {
    !v.records.contains_key(id) || {
        let p = v.records[id].parent_id;
        p == 0 || p == id || p == 5
    }
}

/// The parent walk from `id` stops within `fuel` steps.
pub open spec fn parent_walk_ends(v: IndexView, id: u64, fuel: nat) -> bool
    decreases fuel,
{
    resolve_stops(v, id) || (fuel > 0 && parent_walk_ends(v, v.records[id].parent_id, (fuel - 1) as nat))
}

/// A name that contributes a path component.
pub open spec fn kept_name(n: Seq<char>) -> bool {
    n.len() > 0 && n != seq!['.'] && n != seq!['\\']
}

/// The names met on the parent walk from `id`, nearest first.
pub open spec fn walk_names(v: IndexView, id: u64, fuel: nat) -> Seq<String>
    decreases fuel,
{
    if !v.records.contains_key(id) {
        Seq::empty()
    } else {
        let r = v.records[id];
        let own = if kept_name(r.name@) { seq![r.name] } else { Seq::empty() };
        if resolve_stops(v, id) || fuel == 0 {
            own
        } else {
            own + walk_names(v, r.parent_id, (fuel - 1) as nat)
        }
    }
}

/// Two sufficient fuels give the same walk.
pub proof fn lemma_walk_names_fuel(v: IndexView, id: u64, f1: nat, f2: nat)
    requires
        parent_walk_ends(v, id, f1),
        parent_walk_ends(v, id, f2),
    ensures
        walk_names(v, id, f1) == walk_names(v, id, f2),
    decreases f1,
{
    if v.records.contains_key(id) && !resolve_stops(v, id) {
        lemma_walk_names_fuel(v, v.records[id].parent_id, (f1 - 1) as nat, (f2 - 1) as nat);
    }
}

/// The parent walk from `id` ends.
pub open spec fn path_resolvable(v: IndexView, id: u64) -> bool {
    exists|f: nat| parent_walk_ends(v, id, f)
}

/// The names on the parent walk from `id`, nearest first.
pub open spec fn path_names(v: IndexView, id: u64) -> Seq<String> {
    walk_names(v, id, choose|f: nat| parent_walk_ends(v, id, f))
}

/// `ps` lists the paths met while joining `names` onto `base`, the last name
/// first: `ps[k]` is `ps[k + 1]` with `names[k]` joined on as `joined_path`
/// allows, and the last entry is the base.
pub open spec fn join_chain(ps: Seq<Seq<char>>, base: Seq<char>, names: Seq<String>) -> bool {
    &&& ps.len() == names.len() + 1
    &&& ps.last() == base
    &&& forall|k: int| 0 <= k < names.len() ==> joined_path(#[trigger] ps[k], ps[k + 1], names[k]@)
}

/// What `resolve_path` gives for a record: its stored path when it has one;
/// otherwise a path ending with the nearest name of the parent walk (when
/// that is a single relative component) and, for names that all are and a
/// root that is not a UNC or verbatim path, the root with the names joined on.
pub open spec fn resolved_path_of(v: IndexView, id: u64, p: Seq<char>) -> bool {
    if v.records.contains_key(id) && v.records[id].path@.len() > 0 {
        p == v.records[id].path@
    } else {
        let names = path_names(v, id);
        &&& names.len() > 0 && plain_component(names[0]@) ==> has_suffix(p, names[0]@)
        &&& (!double_backslash_prefixed(v.root_path) && forall|k: int|
            0 <= k < names.len() ==> plain_component(#[trigger] names[k]@)) ==> exists|ps: Seq<Seq<char>>|
            join_chain(ps, v.root_path, names) && ps[0] == p
    }
}

/// Joining one more name onto the start of a chain extends it by one step.
proof fn lemma_chain_step(chain: Seq<Seq<char>>, root: Seq<char>, names: Seq<String>, i: int, next: Seq<char>)
    requires
        0 <= i < names.len(),
        join_chain(chain, root, names.subrange(i + 1, names.len() as int)),
        joined_path(next, chain[0], names[i]@),
    ensures
        join_chain(seq![next] + chain, root, names.subrange(i, names.len() as int)),
{
    let old_names = names.subrange(i + 1, names.len() as int);
    let new_names = names.subrange(i, names.len() as int);
    let c = seq![next] + chain;
    assert forall|k: int| 0 <= k < new_names.len() implies joined_path(#[trigger] c[k], c[k + 1], new_names[k]@) by {
        if k > 0 {
            assert(c[k] == chain[k - 1]);
            assert(c[k + 1] == chain[k]);
            assert(new_names[k] == old_names[k - 1]);
        } else {
            assert(c[1] == chain[0]);
            assert(new_names[0] == names[i]);
        }
    }
    assert(c.last() == chain.last());
}

/// The path begins with two backslashes (a Windows UNC or verbatim path).
pub open spec fn double_backslash_prefixed(s: Seq<char>) -> bool {
    has_prefix(s, seq!['\\', '\\'])
}

/// Joining a relative component keeps a path from beginning with two backslashes.
proof fn lemma_join_keeps_single_backslash(r: Seq<char>, b: Seq<char>, c: Seq<char>)
    requires
        joined_path(r, b, c),
        plain_component(c),
        !double_backslash_prefixed(b),
    ensures
        !double_backslash_prefixed(r),
{
    if r.len() >= 2 && r[0] == '\\' && r[1] == '\\' {
        if b.len() == 0 {
            assert(r[0] == c[0]);
        } else if b.len() == 1 {
            assert(r[0] == b[0]);
            assert(b.last() == '\\');
            if r == b + c {
                assert(r[1] == c[0]);
            } else {
                assert(r[1] == '/');
            }
        } else {
            assert(r[0] == b[0] && r[1] == b[1]);
            assert(b.subrange(0, 2) =~= seq!['\\', '\\']);
        }
        assert(r.subrange(0, 2) =~= seq!['\\', '\\']);
    }
}

/// An in-memory index of scanned files: records by id, children by parent, and a
/// case-insensitive name table per parent.
pub struct ScanIndex {
    pub root_path: String,
    pub records: HashMap<u64, FileRecord>,
    pub children_by_parent: HashMap<u64, Vec<u64>>,
    pub name_index: HashMap<u64, StringHashMap<u64>>,
    pub scan_duration_nanos: u128,
    pub total_files_scanned: usize,
}

impl View for ScanIndex {
    type V = IndexView;

    open spec fn view(&self) -> IndexView {
        IndexView {
            root_path: self.root_path@,
            records: self.records@,
            children: self.children_by_parent@.map_values(|v: Vec<u64>| v@),
            names: self.name_index@.map_values(|m: StringHashMap<u64>| m@),
            total: self.total_files_scanned as nat,
            scan_duration_nanos: self.scan_duration_nanos as nat,
        }
    }
}

/// Removes every occurrence of `x` from `v`.
pub fn retain_other_than(v: &Vec<u64>, x: u64) -> (r: Vec<u64>)
    ensures
        r@ == remove_all(v@, x),
{
    let mut r: Vec<u64> = Vec::new();
    let mut i: usize = 0;
    while i < v.len()
        invariant
            i <= v.len(),
            r@ == remove_all(v@.take(i as int), x),
        decreases v.len() - i,
    {
        assert(v@.take(i + 1).drop_last() =~= v@.take(i as int));
        if v[i] != x {
            r.push(v[i]);
        }
        i = i + 1;
    }
    assert(v@.take(v.len() as int) =~= v@);
    r
}

impl ScanIndex {
    /// The empty index rooted at `root`.
    pub open spec fn new_spec(root: Seq<char>) -> IndexView {
        IndexView {
            root_path: root,
            records: Map::empty(),
            children: Map::empty(),
            names: Map::empty(),
            total: 0,
            scan_duration_nanos: 0,
        }
    }

    /// An empty index rooted at `root_path`.
    pub fn new(root_path: String) -> (r: Self)
        ensures
            r@ == Self::new_spec(root_path@),
    {
        let r = ScanIndex {
            root_path,
            records: HashMap::new(),
            children_by_parent: HashMap::new(),
            name_index: HashMap::new(),
            scan_duration_nanos: 0,
            total_files_scanned: 0,
        };
        assert(r@.children =~= Map::empty());
        assert(r@.names =~= Map::empty());
        r
    }

    /// Appends `id` to the child list of `p`.
    fn attach_child(&mut self, p: u64, id: u64)
        ensures
            final(self)@ == old(self)@.with_child(p, id),
    {
        let ghost old_view = self@;
        let mut children = match self.children_by_parent.remove(&p) {
            Some(v) => v,
            None => Vec::new(),
        };
        children.push(id);
        self.children_by_parent.insert(p, children);
        assert(self@.children =~= old_view.with_child(p, id).children);
        assert(self@ =~= old_view.with_child(p, id));
    }

    /// Registers `n` as `id` in the name table of `p`.
    fn attach_name(&mut self, p: u64, n: String, id: u64)
        ensures
            final(self)@ == old(self)@.with_name(p, n@, id),
    {
        let ghost old_view = self@;
        let ghost nv = n@;
        let mut names = match self.name_index.remove(&p) {
            Some(m) => m,
            None => StringHashMap::new(),
        };
        names.insert(n, id);
        self.name_index.insert(p, names);
        assert(self@.names =~= old_view.with_name(p, nv, id).names);
        assert(self@ =~= old_view.with_name(p, nv, id));
    }

    /// Drops `id` from the child list of `p`, if there is one.
    fn detach_child(&mut self, p: u64, id: u64)
        ensures
            final(self)@ == old(self)@.without_child(p, id),
    {
        let ghost old_view = self@;
        match self.children_by_parent.remove(&p) {
            Some(v) => {
                let kept = retain_other_than(&v, id);
                self.children_by_parent.insert(p, kept);
            },
            None => {},
        }
        assert(self@.children =~= old_view.without_child(p, id).children);
        assert(self@ =~= old_view.without_child(p, id));
    }

    /// Drops `n` from the name table of `p`, if there is one.
    fn detach_name(&mut self, p: u64, n: &str)
        ensures
            final(self)@ == old(self)@.without_name(p, n@),
    {
        let ghost old_view = self@;
        match self.name_index.remove(&p) {
            Some(m) => {
                let mut m = m;
                m.remove(n);
                self.name_index.insert(p, m);
            },
            None => {},
        }
        assert(self@.names =~= old_view.without_name(p, n@).names);
        assert(self@ =~= old_view.without_name(p, n@));
    }


    /// The record with this id, if any.
    pub fn get_record(&self, id: u64) -> (r: Option<&FileRecord>)
        ensures
            match r {
                Some(x) => self@.records.contains_key(id) && *x == self@.records[id],
                None => !self@.records.contains_key(id),
            },
    {
        self.records.get(&id)
    }

    /// The child registered under `name` (case-insensitively) in `parent_id`'s name
    /// table, if the table has the name and the record still exists.
    pub fn get_child_by_name(&self, parent_id: u64, name: &str) -> (r: Option<&FileRecord>)
        ensures
            ({
                let n = lowercase(name@);
                let t = self@.names_of(parent_id);
                match r {
                    Some(x) => t.contains_key(n) && self@.records.contains_key(t[n]) && *x
                        == self@.records[t[n]],
                    None => !(t.contains_key(n) && self@.records.contains_key(t[n])),
                }
            }),
    {
        let name_lower = to_lowercase(name);
        let table = match self.name_index.get(&parent_id) {
            Some(t) => t,
            None => {
                return None;
            },
        };
        let child_id = match table.get(name_lower.as_str()) {
            Some(c) => *c,
            None => {
                return None;
            },
        };
        self.records.get(&child_id)
    }

    /// Whether `parent_id`'s name table holds `name` (case-insensitively).
    pub fn has_child_with_name(&self, parent_id: u64, name: &str) -> (r: bool)
        ensures
            r == self@.names_of(parent_id).contains_key(lowercase(name@)),
    {
        let name_lower = to_lowercase(name);
        match self.name_index.get(&parent_id) {
            Some(t) => t.contains_key(name_lower.as_str()),
            None => false,
        }
    }

    /// Whether some child of `parent_id` has the given extension, ignoring ASCII case
    /// after lower-casing the wanted extension.  Exact when the children's names are
    /// plain file names; a child with a name holding a separator or drive character
    /// is judged by the platform's path syntax.
    pub fn has_child_with_extension(&self, parent_id: u64, extension: &str) -> (r: bool)
        ensures
            ({
                let ch = self@.children_of(parent_id);
                let e = lowercase(extension@);
                &&& (exists|i: int|
                    0 <= i < ch.len() && child_has_extension(self@, ch[i], e) && plain_name(
                        self@.records[ch[i]].name@,
                    )) ==> r
                &&& r ==> exists|i: int|
                    0 <= i < ch.len() && self@.records.contains_key(ch[i]) && (child_has_extension(
                        self@,
                        ch[i],
                        e,
                    ) || !plain_name(self@.records[ch[i]].name@))
            }),
    {
        let ext_lower = to_lowercase(extension);
        let children = match self.children_by_parent.get(&parent_id) {
            Some(c) => c,
            None => {
                return false;
            },
        };
        let ghost ch = self@.children_of(parent_id);
        assert(children@ == ch);
        let mut i: usize = 0;
        while i < children.len()
            invariant
                children@ == ch,
                ch == self@.children_of(parent_id),
                ext_lower@ == lowercase(extension@),
                i <= children.len(),
                forall|k: int|
                    0 <= k < i ==> !(child_has_extension(self@, ch[k], ext_lower@) && plain_name(
                        self@.records[ch[k]].name@,
                    )),
            decreases children.len() - i,
        {
            let child_id = children[i];
            match self.records.get(&child_id) {
                Some(child) => {
                    match file_extension(child.name.as_str()) {
                        Some(ext) => {
                            if eq_ignore_ascii_case(ext.as_str(), ext_lower.as_str()) {
                                return true;
                            }
                        },
                        None => {},
                    }
                },
                None => {},
            }
            i = i + 1;
        }
        false
    }

    /// The names on the parent walk from `record_id`, nearest first, skipping
    /// empty names, "." and "\\".
    pub fn lazy_path_names(&self, record_id: u64) -> (r: Vec<String>)
        requires
            path_resolvable(self@, record_id),
        ensures
            r@ == path_names(self@, record_id),
    {
        let ghost f0 = choose|f: nat| parent_walk_ends(self@, record_id, f);
        let ghost mut fuel = f0;
        let mut names: Vec<String> = Vec::new();
        let mut curr = record_id;
        loop
            invariant_except_break
                parent_walk_ends(self@, curr, fuel),
                names@ + walk_names(self@, curr, fuel) == walk_names(self@, record_id, f0),
            invariant
                f0 == choose|f: nat| parent_walk_ends(self@, record_id, f),
            ensures
                names@ == walk_names(self@, record_id, f0),
            decreases fuel,
        {
            match self.records.get(&curr) {
                None => {
                    assert(names@ + Seq::<String>::empty() =~= names@);
                    break ;
                },
                Some(record) => {
                    let ghost before = names@;
                    let keep = !record.name.as_str().is_empty() && !crate::text::str_eq(record.name.as_str(), ".")
                        && !crate::text::str_eq(record.name.as_str(), "\\");
                    proof {
                        reveal_strlit(".");
                        reveal_strlit("\\");
                        assert("."@ =~= seq!['.']);
                        assert("\\"@ =~= seq!['\\']);
                        assert(keep == kept_name(record.name@));
                    }
                    if keep {
                        names.push(record.name.clone());
                    }
                    let p = record.parent_id;
                    if p == 0 || p == curr || p == 5 {
                        assert(names@ =~= before + walk_names(self@, curr, fuel));
                        break ;
                    }
                    assert(before + walk_names(self@, curr, fuel) =~= names@ + walk_names(self@, p, (fuel - 1) as nat));
                    curr = p;
                    proof {
                        fuel = (fuel - 1) as nat;
                    }
                },
            }
        }
        names
    }

    /// The full path of a record: its stored path when it has one, otherwise the
    /// root path with the names from the parent walk joined on, farthest first.
    /// Each join is by the platform's path rules: for names that are single
    /// relative components the path ends with the nearest name (the record's
    /// own, when kept), and onto a root that is not a UNC or verbatim path each
    /// name follows the path so far after at most one separator.
    pub fn resolve_path(&self, record_id: u64) -> (r: String)
        requires
            (self@.records.contains_key(record_id) && self@.records[record_id].path@.len() > 0)
                || path_resolvable(self@, record_id),
        ensures
            self@.records.contains_key(record_id) && self@.records[record_id].path@.len() > 0 ==> r
                == self@.records[record_id].path,
            resolved_path_of(self@, record_id, r@),
            self@.records.contains_key(record_id) && kept_name(self@.records[record_id].name@) ==> path_names(
                self@,
                record_id,
            ).len() > 0 && path_names(self@, record_id)[0] == self@.records[record_id].name,
    {
        proof {
            if self@.records.contains_key(record_id) && kept_name(self@.records[record_id].name@) && path_resolvable(self@, record_id) {
                let f = choose|f: nat| parent_walk_ends(self@, record_id, f);
                assert(walk_names(self@, record_id, f)[0] == self@.records[record_id].name);
            }
        }
        match self.records.get(&record_id) {
            Some(record) => {
                if !record.path.as_str().is_empty() {
                    return record.path.clone();
                }
            },
            None => {},
        }
        let names = self.lazy_path_names(record_id);
        let ghost root = self@.root_path;
        let ghost plain = !double_backslash_prefixed(root) && forall|k: int|
            0 <= k < names@.len() ==> plain_component(#[trigger] names@[k]@);
        let mut path = self.root_path.clone();
        let mut i = names.len();
        let ghost mut chain: Seq<Seq<char>> = seq![root];
        while i > 0
            invariant
                i <= names.len(),
                plain == (!double_backslash_prefixed(root) && forall|k: int|
                    0 <= k < names@.len() ==> plain_component(#[trigger] names@[k]@)),
                plain ==> join_chain(chain, root, names@.subrange(i as int, names@.len() as int)) && chain[0] == path@,
                plain ==> !double_backslash_prefixed(path@),
                i < names.len() && plain_component(names@[i as int]@) ==> has_suffix(path@, names@[i as int]@),
            decreases i,
        {
            i = i - 1;
            let ghost before = path@;
            path = path_join(path.as_str(), names[i].as_str());
            proof {
                if plain {
                    assert(plain_component(names@[i as int]@));
                    if has_prefix(before, seq!['\\', '\\', '?', '\\']) {
                        assert(before.subrange(0, 2) =~= seq!['\\', '\\']);
                    }
                    assert(joined_path(path@, before, names@[i as int]@));
                    lemma_join_keeps_single_backslash(path@, before, names@[i as int]@);
                    lemma_chain_step(chain, root, names@, i as int, path@);
                    chain = seq![path@] + chain;
                }
            }
        }
        assert(names@.subrange(0, names@.len() as int) =~= names@);
        proof {
            if plain {
                assert(join_chain(chain, root, names@) && chain[0] == path@);
            }
        }
        path
    }

    /// Copies of all records, each once, in the map's iteration order.
    pub fn records_in_some_order(&self) -> (r: Vec<FileRecord>)
        ensures
            exists|ks: Seq<u64>|
                #![trigger ks.to_set()]
                ks.no_duplicates() && ks.to_set() == self@.records.dom() && r@ == ks.map_values(
                    |k: u64| self@.records[k],
                ),
    {
        let ghost v = self@;
        let ghost keys = vstd::std_specs::hash::spec_keys_iter(&self.records).remaining();
        proof {
            broadcast use vstd::std_specs::hash::axiom_spec_keys_iter;
        }
        let mut out: Vec<FileRecord> = Vec::new();
        for k in it: self.records.keys()
            invariant
                v == self@,
                it.seq() == keys,
                out@ == keys.unref().take(it.index() as int).map_values(|k: u64| v.records[k]),
        {
            let ghost idx = it.index();
            proof {
                broadcast use vstd::std_specs::hash::axiom_spec_keys_iter;
                assert(keys.unref()[idx as int] == *k);
                assert(keys.unref().to_set().contains(*k)) by {
                    assert(keys.unref().contains(*k));
                }
            }
            match self.records.get(k) {
                Some(rec) => {
                    out.push(rec.copy());
                },
                None => {
                    assert(false);
                },
            }
            assert(keys.unref().take(idx + 1).map_values(|k: u64| v.records[k]) =~= keys.unref().take(
                idx as int,
            ).map_values(|k: u64| v.records[k]).push(v.records[*k]));
        }
        proof {
            broadcast use vstd::std_specs::hash::axiom_spec_keys_iter;
            assert(keys.unref().take(keys.len() as int) =~= keys.unref());
            assert(keys.unref().no_duplicates()) by {
                assert forall|i: int, j: int| 0 <= i < keys.len() && 0 <= j < keys.len() && i != j implies keys.unref()[i] != keys.unref()[j] by {
                    assert(keys[i] != keys[j]);
                }
            }
        }
        out
    }

    /// Adds a record: it is stored under its id, appended to its parent's child
    /// list, registered under its lower-cased name in the parent's name table,
    /// and counted.
    pub fn insert_record(&mut self, record: FileRecord)
        requires
            old(self).total_files_scanned < usize::MAX,
        ensures
            final(self)@ == old(self)@.with_record_inserted(record),
    {
        let ghost old_view = self@;
        let id = record.id;
        let parent_id = record.parent_id;
        let name_lower = to_lowercase(record.name.as_str());
        self.attach_child(parent_id, id);
        self.attach_name(parent_id, name_lower, id);
        self.records.insert(id, record);
        self.total_files_scanned = self.total_files_scanned + 1;
        assert(self@ =~= old_view.with_record_inserted(record));
    }

    /// Removes a record, its entry in its parent's child list and its name in the
    /// parent's name table; returns it, or `None` if the id is unknown.
    pub fn remove_record(&mut self, id: u64) -> (r: Option<FileRecord>)
        ensures
            final(self)@ == old(self)@.with_record_removed(id),
            r == (if old(self)@.records.contains_key(id) {
                Some(old(self)@.records[id])
            } else {
                None::<FileRecord>
            }),
    {
        let ghost old_view = self@;
        match self.records.remove(&id) {
            Some(record) => {
                let parent_id = record.parent_id;
                let name_lower = to_lowercase(record.name.as_str());
                self.detach_child(parent_id, id);
                self.detach_name(parent_id, name_lower.as_str());
                if self.total_files_scanned > 0 {
                    self.total_files_scanned = self.total_files_scanned - 1;
                }
                assert(self@ =~= old_view.with_record_removed(id));
                Some(record)
            },
            None => {
                assert(self@.records =~= old_view.records);
                assert(self@ =~= old_view.with_record_removed(id));
                None
            },
        }
    }

    /// Updates a record's size, and moves it to a new parent and/or name when
    /// those differ from the current ones.  Unknown ids are ignored.
    pub fn update_record(
        &mut self,
        id: u64,
        new_name: Option<String>,
        new_parent_id: Option<u64>,
        new_size: Option<u64>,
    )
        ensures
            final(self)@ == old(self)@.with_record_updated(id, new_name, new_parent_id, new_size),
    {
        let ghost old_view = self@;
        let mut record = match self.records.remove(&id) {
            Some(r) => r,
            None => {
                assert(self@.records =~= old_view.records);
                assert(self@ =~= old_view.with_record_updated(id, new_name, new_parent_id, new_size));
                return ;
            },
        };
        let old_parent_id = record.parent_id;
        let old_name_lower = to_lowercase(record.name.as_str());
        match new_size {
            Some(size) => {
                record.size_bytes = size;
            },
            None => {},
        }
        let parent_changed = match new_parent_id {
            Some(p) => p != old_parent_id,
            None => false,
        };
        let name_changed = match &new_name {
            Some(n) => !crate::text::str_eq(n.as_str(), record.name.as_str()),
            None => false,
        };
        if parent_changed || name_changed {
            let final_parent = match new_parent_id {
                Some(p) => p,
                None => old_parent_id,
            };
            let final_name = match new_name {
                Some(n) => n,
                None => record.name.clone(),
            };
            let final_name_lower = to_lowercase(final_name.as_str());
            if parent_changed {
                self.detach_child(old_parent_id, id);
                self.detach_name(old_parent_id, old_name_lower.as_str());
                self.attach_child(final_parent, id);
            } else {
                self.detach_name(old_parent_id, old_name_lower.as_str());
            }
            self.attach_name(final_parent, final_name_lower, id);
            record.parent_id = final_parent;
            record.name = final_name;
        }
        self.records.insert(id, record);
        assert(self@.records =~= old_view.with_record_updated(id, new_name, new_parent_id, new_size).records);
        assert(self@ =~= old_view.with_record_updated(id, new_name, new_parent_id, new_size));
    }
}

/// Every record is stored under its own id.
pub open spec fn ids_consistent(v: IndexView) -> bool {
    forall|k: u64| #[trigger] v.records.contains_key(k) ==> v.records[k].id == k
}

/// Removing every occurrence of an absent value changes nothing.
proof fn lemma_remove_all_absent(s: Seq<u64>, x: u64)
    requires
        !s.contains(x),
    ensures
        remove_all(s, x) == s,
    decreases s.len(),
{
    if s.len() > 0 {
        assert(!s.drop_last().contains(x)) by {
            if s.drop_last().contains(x) {
                let i = choose|i: int| 0 <= i < s.drop_last().len() && s.drop_last()[i] == x;
                assert(s[i] == x);
            }
        }
        lemma_remove_all_absent(s.drop_last(), x);
        assert(s.last() != x) by {
            assert(s[s.len() - 1] == s.last());
        }
        assert(s.drop_last().push(s.last()) =~= s);
    }
}

/// Inserting, removing and updating records keep every record stored under
/// its own id.
pub proof fn law_operations_keep_ids_consistent(
    v: IndexView,
    r: FileRecord,
    id: u64,
    new_name: Option<String>,
    new_parent: Option<u64>,
    new_size: Option<u64>,
)
    requires
        ids_consistent(v),
    ensures
        ids_consistent(v.with_record_inserted(r)),
        ids_consistent(v.with_record_removed(id)),
        ids_consistent(v.with_record_updated(id, new_name, new_parent, new_size)),
{
}

/// Inserting a record whose id, child-list entry and lower-cased name are all
/// new, then removing it again, gives back the same records, child lists, name
/// tables and count.
pub proof fn law_insert_then_remove_restores(v: IndexView, r: FileRecord)
    requires
        !v.records.contains_key(r.id),
        !v.children_of(r.parent_id).contains(r.id),
        !v.names_of(r.parent_id).contains_key(lowercase(r.name@)),
    ensures
        ({
            let w = v.with_record_inserted(r).with_record_removed(r.id);
            &&& w.records == v.records
            &&& forall|p: u64| #[trigger] w.children_of(p) == v.children_of(p)
            &&& forall|p: u64| #[trigger] w.names_of(p) == v.names_of(p)
            &&& w.total == v.total
            &&& w.root_path == v.root_path
            &&& w.scan_duration_nanos == v.scan_duration_nanos
        }),
{
    let u = v.with_record_inserted(r);
    let w = u.with_record_removed(r.id);
    let p0 = r.parent_id;
    let n0 = lowercase(r.name@);
    assert(u.records.contains_key(r.id));
    assert(u.records[r.id] == r);
    assert(w.records =~= v.records);
    lemma_remove_all_absent(v.children_of(p0), r.id);
    let pushed = v.children_of(p0).push(r.id);
    assert(pushed.drop_last() =~= v.children_of(p0));
    assert(pushed.last() == r.id);
    assert(remove_all(pushed, r.id) == remove_all(pushed.drop_last(), r.id));
    assert(remove_all(pushed, r.id) == v.children_of(p0));
    assert forall|p: u64| #[trigger] w.children_of(p) == v.children_of(p) by {
        if p == p0 {
            assert(w.children.contains_key(p0));
            assert(w.children[p0] == remove_all(v.children_of(p0).push(r.id), r.id));
        }
    }
    assert(v.names_of(p0).insert(n0, r.id).remove(n0) =~= v.names_of(p0));
    assert forall|p: u64| #[trigger] w.names_of(p) == v.names_of(p) by {
        if p == p0 {
            assert(w.names.contains_key(p0));
            assert(w.names[p0] == v.names_of(p0).insert(n0, r.id).remove(n0));
        }
    }
}

/// An update that names no new name, parent or size leaves the index as it is.
pub proof fn law_empty_update_is_identity(v: IndexView, id: u64)
    ensures
        v.with_record_updated(id, None, None, None) == v,
{
    if v.records.contains_key(id) {
        assert(v.records.insert(id, v.records[id]) =~= v.records);
        assert(v.with_record_updated(id, None, None, None) =~= v);
    }
}

} // verus!
