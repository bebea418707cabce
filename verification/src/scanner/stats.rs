use vstd::prelude::*;
use crate::model::file_record::{FileRecord, Timestamp, latest, latest_of};
use crate::scanner::index::{IndexView, ScanIndex};

verus! {

broadcast use vstd::std_specs::hash::group_hash_axioms;

/// Totals over a directory subtree.
#[derive(Debug, Clone, Copy)]
pub struct SubtreeStats {
    pub total_bytes: u64,
    pub total_files: u64,
    pub latest_modified: Option<Timestamp>,
    pub hardlink_shared_bytes: u64,
}

/// Unbounded totals over a set of visited entries; `nodes` counts the entries taken
/// from the work list (it measures the work left).
pub struct Tally {
    pub bytes: nat,
    pub files: nat,
    pub shared: nat,
    pub latest: Option<Timestamp>,
    pub nodes: nat,
}

pub open spec fn tally_zero() -> Tally {
    Tally { bytes: 0, files: 0, shared: 0, latest: None, nodes: 0 }
}

/// An entry that is taken from the work list and contributes nothing.
pub open spec fn tally_skip() -> Tally {
    Tally { bytes: 0, files: 0, shared: 0, latest: None, nodes: 1 }
}

pub open spec fn tally_add(a: Tally, b: Tally) -> Tally {
    Tally {
        bytes: a.bytes + b.bytes,
        files: a.files + b.files,
        shared: a.shared + b.shared,
        latest: latest_of(a.latest, b.latest),
        nodes: a.nodes + b.nodes,
    }
}

/// What one record contributes: a file its size, one file, and its size again as
/// shared bytes when it has more than one hard link; any record its modification time.
pub open spec fn own_tally(r: FileRecord) -> Tally {
    Tally {
        bytes: if r.is_dir { 0 } else { r.size_bytes as nat },
        files: if r.is_dir { 0 } else { 1 },
        shared: if !r.is_dir && r.hard_link_count > 1 { r.size_bytes as nat } else { 0 },
        latest: r.modified_at,
        nodes: 1,
    }
}

/// The ids of `s` other than `x`, in order.
pub open spec fn without(s: Seq<u64>, x: u64) -> Seq<u64>
    decreases s.len(),
{
    if s.len() == 0 {
        s
    } else {
        let rest = without(s.drop_last(), x);
        if s.last() == x {
            rest
        } else {
            rest.push(s.last())
        }
    }
}

/// The children a visit enters from `id`: those listed under it, except `id`
/// itself (a root that is its own parent is listed under itself).
pub open spec fn entered_children(v: IndexView, id: u64) -> Seq<u64> {
    without(v.children_of(id), id)
}

/// The totals of the subtree under `id`, visiting child lists; records other than
/// the root that are reparse points are not entered, nor a record listed under
/// itself; `None` when `fuel` runs out.
pub open spec fn visit(v: IndexView, root: u64, id: u64, fuel: nat) -> Option<Tally>
    decreases fuel, 0nat, 0nat,
{
    if !v.records.contains_key(id) {
        Some(tally_skip())
    } else if id != root && v.records[id].is_reparse_point {
        Some(tally_skip())
    } else if fuel == 0 {
        None
    } else {
        match visit_all(v, root, entered_children(v, id), (fuel - 1) as nat) {
            Some(t) => Some(tally_add(own_tally(v.records[id]), t)),
            None => None,
        }
    }
}

/// The totals of the subtrees under each id of `ids`, added up.
pub open spec fn visit_all(v: IndexView, root: u64, ids: Seq<u64>, fuel: nat) -> Option<Tally>
    decreases fuel, 1nat, ids.len(),
{
    if ids.len() == 0 {
        Some(tally_zero())
    } else {
        match (visit_all(v, root, ids.drop_last(), fuel), visit(v, root, ids.last(), fuel)) {
            (Some(a), Some(b)) => Some(tally_add(a, b)),
            _ => None,
        }
    }
}

/// More fuel does not change a finished visit.
pub proof fn lemma_visit_mono(v: IndexView, root: u64, id: u64, fuel: nat)
    requires
        visit(v, root, id, fuel) is Some,
    ensures
        visit(v, root, id, fuel + 1) == visit(v, root, id, fuel),
    decreases fuel, 0nat, 0nat,
{
    if v.records.contains_key(id) && !(id != root && v.records[id].is_reparse_point) {
        lemma_visit_all_mono(v, root, entered_children(v, id), (fuel - 1) as nat);
    }
}

/// More fuel does not change a finished visit of a list.
pub proof fn lemma_visit_all_mono(v: IndexView, root: u64, ids: Seq<u64>, fuel: nat)
    requires
        visit_all(v, root, ids, fuel) is Some,
    ensures
        visit_all(v, root, ids, fuel + 1) == visit_all(v, root, ids, fuel),
    decreases fuel, 1nat, ids.len(),
{
    if ids.len() > 0 {
        lemma_visit_all_mono(v, root, ids.drop_last(), fuel);
        lemma_visit_mono(v, root, ids.last(), fuel);
    }
}

/// Any larger fuel gives the same finished visit.
pub proof fn lemma_visit_mono_to(v: IndexView, root: u64, id: u64, f: nat, g: nat)
    requires
        visit(v, root, id, f) is Some,
        f <= g,
    ensures
        visit(v, root, id, g) == visit(v, root, id, f),
    decreases g - f,
{
    if f < g {
        lemma_visit_mono(v, root, id, f);
        lemma_visit_mono_to(v, root, id, f + 1, g);
    }
}

/// A list visit splits over concatenation.
pub proof fn lemma_visit_all_append(v: IndexView, root: u64, a: Seq<u64>, b: Seq<u64>, fuel: nat)
    requires
        visit_all(v, root, a, fuel) is Some,
        visit_all(v, root, b, fuel) is Some,
    ensures
        visit_all(v, root, a + b, fuel) == Some(
            tally_add(visit_all(v, root, a, fuel)->0, visit_all(v, root, b, fuel)->0),
        ),
    decreases b.len(),
{
    if b.len() == 0 {
        assert(a + b =~= a);
    } else {
        assert((a + b).drop_last() =~= a + b.drop_last());
        assert((a + b).last() == b.last());
        lemma_visit_all_append(v, root, a, b.drop_last(), fuel);
    }
}


/// Regrouping of tallies: `a + (x + (o + c)) == (a + o) + (x + c)`.
pub proof fn lemma_tally_regroup(a: Tally, x: Tally, o: Tally, c: Tally)
    ensures
        tally_add(a, tally_add(x, tally_add(o, c))) == tally_add(tally_add(a, o), tally_add(x, c)),
{
}

/// Taking the last id off a list splits its visit.
pub proof fn lemma_visit_all_pop(v: IndexView, root: u64, ids: Seq<u64>, fuel: nat)
    requires
        ids.len() > 0,
        visit_all(v, root, ids, fuel) is Some,
    ensures
        visit_all(v, root, ids.drop_last(), fuel) is Some,
        visit(v, root, ids.last(), fuel) is Some,
        visit_all(v, root, ids, fuel)->0 == tally_add(
            visit_all(v, root, ids.drop_last(), fuel)->0,
            visit(v, root, ids.last(), fuel)->0,
        ),
{
}

/// Opening an entered record: its visit is its own tally plus its children's.
pub proof fn lemma_visit_open(v: IndexView, root: u64, id: u64, fuel: nat)
    requires
        visit(v, root, id, fuel + 1) is Some,
        v.records.contains_key(id),
        !(id != root && v.records[id].is_reparse_point),
    ensures
        visit_all(v, root, entered_children(v, id), fuel + 1) is Some,
        visit(v, root, id, fuel + 1)->0 == tally_add(
            own_tally(v.records[id]),
            visit_all(v, root, entered_children(v, id), fuel + 1)->0,
        ),
{
    lemma_visit_all_mono(v, root, entered_children(v, id), fuel);
}

/// The subtree under `root` is finite: its visit finishes with some fuel.
pub open spec fn subtree_finite(v: IndexView, root: u64) -> bool {
    exists|f: nat| visit(v, root, root, f) is Some
}

/// The totals of the subtree under `root`.
pub open spec fn subtree_tally(v: IndexView, root: u64) -> Tally {
    visit(v, root, root, choose|f: nat| visit(v, root, root, f) is Some)->0
}

/// The totals fit the 64-bit counters.
pub open spec fn tally_fits(t: Tally) -> bool {
    t.bytes <= u64::MAX && t.files <= u64::MAX && t.shared <= u64::MAX
}

/// The stats value that carries a tally.
pub open spec fn stats_of(t: Tally) -> SubtreeStats {
    SubtreeStats {
        total_bytes: t.bytes as u64,
        total_files: t.files as u64,
        latest_modified: t.latest,
        hardlink_shared_bytes: t.shared as u64,
    }
}

impl ScanIndex {
    /// Total bytes, file count, latest modification time and hard-link shared bytes
    /// of the subtree under `root_record_id`, following child lists, not entering
    /// reparse points below the root, and not entering a record again from its
    /// own child list (where a root that is its own parent lists itself).
    pub fn calculate_subtree_stats(&self, root_record_id: u64) -> (r: SubtreeStats)
        requires
            subtree_finite(self@, root_record_id),
            tally_fits(subtree_tally(self@, root_record_id)),
        ensures
            r == stats_of(subtree_tally(self@, root_record_id)),
    {
        let ghost v = self@;
        let ghost root = root_record_id;
        let ghost f = choose|f: nat| visit(v, root, root, f) is Some;
        let ghost total = subtree_tally(v, root);
        let mut bytes: u64 = 0;
        let mut files: u64 = 0;
        let mut shared: u64 = 0;
        let mut latest_mod: Option<Timestamp> = None;
        let ghost mut done: nat = 0;
        let mut stack: Vec<u64> = Vec::new();
        stack.push(root_record_id);
        proof {
            assert(visit(v, root, root, f) is Some);
            assert(visit(v, root, root, f) == Some(total));
            lemma_visit_mono(v, root, root, f);
            assert(stack@.drop_last() =~= Seq::<u64>::empty());
            assert(stack@.last() == root);
            assert(visit_all(v, root, stack@.drop_last(), f + 1) == Some(tally_zero()));
            assert(visit_all(v, root, stack@, f + 1) == Some(tally_add(tally_zero(), total)));
        }
        while stack.len() > 0
            invariant
                v == self@,
                root == root_record_id,
                visit_all(v, root, stack@, f + 1) is Some,
                tally_fits(total),
                tally_add(
                    Tally { bytes: bytes as nat, files: files as nat, shared: shared as nat, latest: latest_mod, nodes: done },
                    visit_all(v, root, stack@, f + 1)->0,
                ) == total,
            decreases visit_all(v, root, stack@, f + 1)->0.nodes,
        {
            let ghost before = stack@;
            let ghost acc = Tally { bytes: bytes as nat, files: files as nat, shared: shared as nat, latest: latest_mod, nodes: done };
            let id = stack.pop().unwrap();
            proof {
                lemma_visit_all_pop(v, root, before, f + 1);
                assert(before.drop_last() == stack@);
            }
            let ghost rest = visit_all(v, root, stack@, f + 1)->0;
            let ghost here = visit(v, root, id, f + 1)->0;
            assert(tally_add(acc, tally_add(rest, here)) == total);
            match self.records.get(&id) {
                None => {
                    proof {
                        done = done + 1;
                        lemma_tally_regroup(acc, rest, tally_skip(), tally_zero());
                    }
                },
                Some(record) => {
                    if id != root_record_id && record.is_reparse_point {
                        proof {
                            done = done + 1;
                            lemma_tally_regroup(acc, rest, tally_skip(), tally_zero());
                        }
                    } else {
                        let ghost ch = v.children_of(id);
                        let ghost entered = entered_children(v, id);
                        proof {
                            lemma_visit_open(v, root, id, f);
                        }
                        let ghost below = visit_all(v, root, entered, f + 1)->0;
                        proof {
                            lemma_tally_regroup(acc, rest, own_tally(*record), below);
                        }
                        if !record.is_dir {
                            bytes = bytes + record.size_bytes;
                            files = files + 1;
                            if record.hard_link_count > 1 {
                                shared = shared + record.size_bytes;
                            }
                        }
                        latest_mod = latest(latest_mod, record.modified_at);
                        proof {
                            done = done + 1;
                        }
                        match self.children_by_parent.get(&id) {
                            Some(children) => {
                                let ghost base = stack@;
                                assert(children@ == ch);
                                let mut j: usize = 0;
                                while j < children.len()
                                    invariant
                                        children@ == ch,
                                        j <= children.len(),
                                        stack@ == base + without(ch.take(j as int), id),
                                    decreases children.len() - j,
                                {
                                    assert(ch.take(j + 1).drop_last() =~= ch.take(j as int));
                                    if children[j] != id {
                                        stack.push(children[j]);
                                        assert(base + without(ch.take(j + 1), id) =~= (base + without(
                                            ch.take(j as int),
                                            id,
                                        )).push(ch[j as int]));
                                    }
                                    j = j + 1;
                                }
                                assert(ch.take(children.len() as int) =~= ch);
                                proof {
                                    lemma_visit_all_append(v, root, base, entered, f + 1);
                                }
                            },
                            None => {
                                assert(ch =~= Seq::<u64>::empty());
                                assert(entered =~= Seq::<u64>::empty());
                                assert(stack@ =~= stack@ + entered);
                                proof {
                                    lemma_visit_all_append(v, root, stack@, entered, f + 1);
                                }
                            },
                        }
                    }
                },
            }
        }
        proof {
            assert(visit_all(v, root, stack@, f + 1)->0 == tally_zero());
        }
        SubtreeStats {
            total_bytes: bytes,
            total_files: files,
            latest_modified: latest_mod,
            hardlink_shared_bytes: shared,
        }
    }
}

} // verus!
