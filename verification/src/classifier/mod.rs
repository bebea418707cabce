pub mod pipeline;
pub mod rules;

use vstd::prelude::*;
use std::collections::HashSet;
use vstd::std_specs::iter::IteratorSpec;
use crate::classifier::pipeline::{PipelineRule, rule_evaluable, rule_name, rule_possible, rule_verdict};
use crate::classifier::rules::{plain_names, verdict_view};
use crate::classifier::rules::dotnet_java::DotnetJavaRule;
use crate::classifier::rules::downloads::DownloadsRule;
use crate::classifier::rules::ide::IdeRule;
use crate::classifier::rules::node::NodeRule;
use crate::classifier::rules::python::PythonRule;
use crate::classifier::rules::rust::RustRule;
use crate::classifier::rules::unity::UnityRule;
use crate::classifier::rules::windows_update::WindowsUpdateRule;
use crate::model::candidate::{GitRepoStatus, ReclaimCandidate, hardlink_caveat, size_text};
use crate::model::category::ArtifactCategory;
use crate::model::file_record::{FileRecord, Timestamp, timestamp_in_range};
use crate::scanner::index::{IndexView, ScanIndex, ids_consistent, path_resolvable, resolved_path_of};
use crate::model::file_record::now_timestamp;
use crate::scanner::stats::{SubtreeStats, stats_of, subtree_finite, subtree_tally, tally_fits};

verus! {

broadcast use vstd::std_specs::hash::group_hash_axioms;

/// Runs the classification rules over a scan index.
pub struct ClassifierPipeline {
    pub rules: Vec<PipelineRule>,
    pub min_size_bytes: u64,
}

/// The rules a new pipeline starts with, in order.
pub open spec fn default_rules() -> Seq<PipelineRule> {
    seq![
        PipelineRule::Node(NodeRule),
        PipelineRule::Rust(RustRule),
        PipelineRule::Python(PythonRule),
        PipelineRule::DotnetJava(DotnetJavaRule),
        PipelineRule::Ide(IdeRule),
        PipelineRule::Unity(UnityRule),
        PipelineRule::Downloads(DownloadsRule { stale_days: 30 }),
        PipelineRule::WindowsUpdate(WindowsUpdateRule),
    ]
}

/// `rules` without the rules named `name`, in order.
pub open spec fn without_rule_named(rules: Seq<PipelineRule>, name: Seq<char>) -> Seq<PipelineRule>
    decreases rules.len(),
{
    if rules.len() == 0 {
        rules
    } else {
        let rest = without_rule_named(rules.drop_last(), name);
        if rule_name(rules.last()) == name {
            rest
        } else {
            rest.push(rules.last())
        }
    }
}

/// Each rule left after removing those of a name is one of the rules.
proof fn lemma_without_rule_members(rules: Seq<PipelineRule>, name: Seq<char>)
    ensures
        forall|j: int|
            0 <= j < without_rule_named(rules, name).len() ==> exists|i: int|
                0 <= i < rules.len() && rules[i] == #[trigger] without_rule_named(rules, name)[j],
    decreases rules.len(),
{
    if rules.len() > 0 {
        let prev = rules.drop_last();
        lemma_without_rule_members(prev, name);
        let w = without_rule_named(rules, name);
        let pw = without_rule_named(prev, name);
        assert forall|j: int| 0 <= j < w.len() implies exists|i: int| 0 <= i < rules.len() && rules[i] == #[trigger] w[j] by {
            if j < pw.len() {
                assert(w[j] == pw[j]);
                let i = choose|i: int| 0 <= i < prev.len() && prev[i] == pw[j];
                assert(rules[i] == prev[i]);
            } else {
                assert(w[j] == rules[rules.len() - 1]);
            }
        }
    }
}

/// The first verdict, from rule `j` on, that is a match.
pub open spec fn first_match_from(rules: Seq<PipelineRule>, j: nat, v: IndexView, r: FileRecord, now: Timestamp) -> Option<(ArtifactCategory, Seq<char>)>
    decreases rules.len() - j,
{
    if j >= rules.len() {
        None
    } else {
        match rule_verdict(rules[j as int], v, r, now) {
            Some(x) => Some(x),
            None => first_match_from(rules, j + 1, v, r, now),
        }
    }
}

/// Size, file count, latest modification and shared bytes of what a record
/// stands for: its subtree for a directory, itself for a file.
pub open spec fn record_measure(v: IndexView, r: FileRecord) -> SubtreeStats {
    if r.is_dir {
        stats_of(subtree_tally(v, r.id))
    } else {
        SubtreeStats {
            total_bytes: r.size_bytes,
            total_files: 1,
            latest_modified: r.modified_at,
            hardlink_shared_bytes: 0,
        }
    }
}

/// The ancestor walk from `curr` stops within `fuel` steps: at 0, at 5 (the NTFS
/// root), at an unknown record, or at a record that is its own parent.
pub open spec fn ancestry_ends(v: IndexView, curr: u64, fuel: nat) -> bool
    decreases fuel,
{
    curr == 0 || curr == 5 || !v.records.contains_key(curr) || v.records[curr].parent_id == curr || (
    fuel > 0 && ancestry_ends(v, v.records[curr].parent_id, (fuel - 1) as nat))
}

/// The ancestor walk from `curr` meets an accepted id before it stops.
pub open spec fn dominated_walk(v: IndexView, accepted: Set<u64>, curr: u64, fuel: nat) -> bool
    decreases fuel,
{
    if curr == 0 || curr == 5 {
        false
    } else if accepted.contains(curr) {
        true
    } else if !v.records.contains_key(curr) || v.records[curr].parent_id == curr || fuel == 0 {
        false
    } else {
        dominated_walk(v, accepted, v.records[curr].parent_id, (fuel - 1) as nat)
    }
}

/// Two sufficient fuels give the same answer.
pub proof fn lemma_dominated_fuel(v: IndexView, accepted: Set<u64>, curr: u64, f1: nat, f2: nat)
    requires
        ancestry_ends(v, curr, f1),
        ancestry_ends(v, curr, f2),
    ensures
        dominated_walk(v, accepted, curr, f1) == dominated_walk(v, accepted, curr, f2),
    decreases f1,
{
    if !(curr == 0 || curr == 5 || accepted.contains(curr) || !v.records.contains_key(curr)
        || v.records[curr].parent_id == curr) {
        lemma_dominated_fuel(v, accepted, v.records[curr].parent_id, (f1 - 1) as nat, (f2 - 1) as nat);
    }
}

/// The ancestor walk from `curr` meets an accepted id.
pub open spec fn dominated(v: IndexView, accepted: Set<u64>, curr: u64) -> bool {
    dominated_walk(v, accepted, curr, choose|f: nat| ancestry_ends(v, curr, f))
}

/// Accepting more ids can only make the ancestor test true more often.
proof fn lemma_dominated_walk_mono(v: IndexView, a: Set<u64>, b: Set<u64>, curr: u64, fuel: nat)
    requires
        a.subset_of(b),
        dominated_walk(v, a, curr, fuel),
    ensures
        dominated_walk(v, b, curr, fuel),
    decreases fuel,
{
    if !(curr == 0 || curr == 5) && !a.contains(curr) && v.records.contains_key(curr)
        && v.records[curr].parent_id != curr && fuel > 0 {
        lemma_dominated_walk_mono(v, a, b, v.records[curr].parent_id, (fuel - 1) as nat);
    }
}

/// A candidate as classification finds it.
pub struct Found {
    pub record_id: u64,
    pub category: ArtifactCategory,
    pub reason: Seq<char>,
    pub stats: SubtreeStats,
}

/// The ids accepted so far and the candidates found, in order.
pub struct ClassifyState {
    pub accepted: Set<u64>,
    pub found: Seq<Found>,
}

/// Classification of one record: skipped when unknown or below an accepted
/// candidate; otherwise the first matching rule decides, unless the record's
/// measured size is below the minimum.
pub open spec fn classify_step(rules: Seq<PipelineRule>, min_size: u64, v: IndexView, s: ClassifyState, id: u64, now: Timestamp) -> ClassifyState {
    if !v.records.contains_key(id) {
        s
    } else {
        let r = v.records[id];
        if dominated(v, s.accepted, r.parent_id) {
            s
        } else {
            match first_match_from(rules, 0, v, r, now) {
                None => s,
                Some((category, reason)) => {
                    let m = record_measure(v, r);
                    if m.total_bytes < min_size {
                        s
                    } else {
                        ClassifyState {
                            accepted: s.accepted.insert(r.id),
                            found: s.found.push(Found { record_id: id, category, reason, stats: m }),
                        }
                    }
                },
            }
        }
    }
}

/// Classification of the records in `order`, one after the other.
pub open spec fn classify_from(rules: Seq<PipelineRule>, min_size: u64, v: IndexView, order: Seq<u64>, now: Timestamp) -> ClassifyState
    decreases order.len(),
{
    if order.len() == 0 {
        ClassifyState { accepted: Set::empty(), found: Seq::empty() }
    } else {
        classify_step(rules, min_size, v, classify_from(rules, min_size, v, order.drop_last(), now), order.last(), now)
    }
}

/// Every record classification finds is a record of the index, accepted, the
/// first match of the rules, and measured at least the minimum size.
pub proof fn law_found_candidates_match_and_meet_minimum(
    rules: Seq<PipelineRule>,
    min_size: u64,
    v: IndexView,
    order: Seq<u64>,
    now: Timestamp,
)
    requires
        ids_consistent(v),
    ensures
        ({
            let s = classify_from(rules, min_size, v, order, now);
            forall|i: int|
                0 <= i < s.found.len() ==> {
                    let f = #[trigger] s.found[i];
                    &&& s.accepted.contains(f.record_id)
                    &&& v.records.contains_key(f.record_id)
                    &&& first_match_from(rules, 0, v, v.records[f.record_id], now) == Some((f.category, f.reason))
                    &&& f.stats == record_measure(v, v.records[f.record_id])
                    &&& f.stats.total_bytes >= min_size
                }
        }),
    decreases order.len(),
{
    if order.len() > 0 {
        law_found_candidates_match_and_meet_minimum(rules, min_size, v, order.drop_last(), now);
    }
}

/// No candidate is found below a candidate found before it: the parent chain
/// of each found record passes through none of the records found earlier.
pub proof fn law_no_candidate_below_an_earlier_one(
    rules: Seq<PipelineRule>,
    min_size: u64,
    v: IndexView,
    order: Seq<u64>,
    now: Timestamp,
    i: int,
    j: int,
)
    requires
        ids_consistent(v),
        0 <= i < j < classify_from(rules, min_size, v, order, now).found.len(),
    ensures
        ({
            let f = classify_from(rules, min_size, v, order, now).found;
            !dominated(v, set![f[i].record_id], v.records[f[j].record_id].parent_id)
        }),
    decreases order.len(),
{
    let s = classify_from(rules, min_size, v, order, now);
    let prev = classify_from(rules, min_size, v, order.drop_last(), now);
    assert(order.len() > 0);
    assert(s == classify_step(rules, min_size, v, prev, order.last(), now));
    if j < prev.found.len() {
        law_no_candidate_below_an_earlier_one(rules, min_size, v, order.drop_last(), now, i, j);
        assert(s.found[i] == prev.found[i]);
        assert(s.found[j] == prev.found[j]);
    } else {
        let id = order.last();
        let r = v.records[id];
        assert(s.found[j].record_id == id);
        law_found_candidates_match_and_meet_minimum(rules, min_size, v, order.drop_last(), now);
        assert(s.found[i] == prev.found[i]);
        let x = prev.found[i].record_id;
        assert(prev.accepted.contains(x));
        assert(set![x].subset_of(prev.accepted));
        assert(!dominated(v, prev.accepted, r.parent_id));
        if dominated(v, set![x], r.parent_id) {
            let f = choose|f: nat| ancestry_ends(v, r.parent_id, f);
            lemma_dominated_walk_mono(v, set![x], prev.accepted, r.parent_id, f);
        }
    }
}

/// Every record of the order comes after the records on its parent chain that
/// the order also holds.
pub open spec fn ancestors_first(v: IndexView, order: Seq<u64>) -> bool {
    forall|a: int, b: int|
        #![trigger order[a], order[b]]
        0 <= a < order.len() && 0 <= b < order.len() && dominated(
            v,
            set![order[a]],
            v.records[order[b]].parent_id,
        ) ==> a < b
}

/// Each record found was taken from the order.
proof fn lemma_found_from_order(
    rules: Seq<PipelineRule>,
    min_size: u64,
    v: IndexView,
    order: Seq<u64>,
    now: Timestamp,
)
    ensures
        ({
            let f = classify_from(rules, min_size, v, order, now).found;
            forall|k: int|
                0 <= k < f.len() ==> exists|p: int| 0 <= p < order.len() && order[p] == (#[trigger] f[k]).record_id
        }),
    decreases order.len(),
{
    if order.len() > 0 {
        let prev = order.drop_last();
        lemma_found_from_order(rules, min_size, v, prev, now);
        let f = classify_from(rules, min_size, v, order, now).found;
        let pf = classify_from(rules, min_size, v, prev, now).found;
        assert forall|k: int| 0 <= k < f.len() implies exists|p: int|
            0 <= p < order.len() && order[p] == (#[trigger] f[k]).record_id by {
            if k < pf.len() {
                assert(f[k] == pf[k]);
                let p = choose|p: int| 0 <= p < prev.len() && prev[p] == pf[k].record_id;
                assert(order[p] == prev[p]);
            } else {
                assert(order[order.len() - 1] == f[k].record_id);
            }
        }
    }
}

/// When every record is classified after the records above it, no candidate
/// is found inside another: the parent chain of each found record passes
/// through no other found record.
pub proof fn law_no_candidate_inside_another(
    rules: Seq<PipelineRule>,
    min_size: u64,
    v: IndexView,
    order: Seq<u64>,
    now: Timestamp,
    i: int,
    j: int,
)
    requires
        ids_consistent(v),
        ancestors_first(v, order),
        0 <= i < classify_from(rules, min_size, v, order, now).found.len(),
        0 <= j < classify_from(rules, min_size, v, order, now).found.len(),
        i != j,
    ensures
        ({
            let f = classify_from(rules, min_size, v, order, now).found;
            !dominated(v, set![f[i].record_id], v.records[f[j].record_id].parent_id)
        }),
    decreases order.len(),
{
    if i < j {
        law_no_candidate_below_an_earlier_one(rules, min_size, v, order, now, i, j);
    } else {
        let s = classify_from(rules, min_size, v, order, now);
        let prev_order = order.drop_last();
        let prev = classify_from(rules, min_size, v, prev_order, now);
        assert(ancestors_first(v, prev_order)) by {
            assert forall|a: int, b: int|
                #![trigger prev_order[a], prev_order[b]]
                0 <= a < prev_order.len() && 0 <= b < prev_order.len() && dominated(
                    v,
                    set![prev_order[a]],
                    v.records[prev_order[b]].parent_id,
                ) implies a < b by {
                assert(order[a] == prev_order[a]);
                assert(order[b] == prev_order[b]);
            }
        }
        if i < prev.found.len() {
            law_no_candidate_inside_another(rules, min_size, v, prev_order, now, i, j);
            assert(s.found[i] == prev.found[i]);
            assert(s.found[j] == prev.found[j]);
        } else {
            // `i` is the record taken last; `j` was found before it.
            let last = order.len() - 1;
            assert(s.found[i].record_id == order[last]);
            assert(s.found[j] == prev.found[j]);
            lemma_found_from_order(rules, min_size, v, prev_order, now);
            let p = choose|p: int| 0 <= p < prev_order.len() && prev_order[p] == (#[trigger] prev.found[j]).record_id;
            assert(order[p] == prev_order[p]);
            if dominated(v, set![order[last]], v.records[order[p]].parent_id) {
                assert(last < p);
            }
        }
    }
}

/// The number of steps of the parent walk from `curr` that the ordering of
/// classification counts, with at most `budget` steps: it stops at 0 or 5, and
/// after counting an unknown record or one that is its own parent.
pub open spec fn steps_from(v: IndexView, curr: u64, budget: nat) -> nat
    decreases budget,
{
    if curr == 0 || curr == 5 || budget == 0 {
        0
    } else if !v.records.contains_key(curr) || v.records[curr].parent_id == curr {
        1
    } else {
        1 + steps_from(v, v.records[curr].parent_id, (budget - 1) as nat)
    }
}

/// `depths` gives, position by position, the depth `order` is sorted by: it
/// never decreases, and for a record without a stored path it is the number
/// of parent steps counted from its parent.
pub open spec fn ordered_by_depth(v: IndexView, order: Seq<u64>, depths: Seq<usize>) -> bool {
    &&& depths.len() == order.len()
    &&& forall|a: int, b: int| 0 <= a <= b < depths.len() ==> depths[a] <= depths[b]
    &&& forall|i: int|
        0 <= i < order.len() && v.records.contains_key(order[i]) && v.records[order[i]].path@.len() == 0
            ==> depths[i] == steps_from(v, v.records[order[i]].parent_id, 64)
}

/// One more step of budget adds at most one step.
proof fn lemma_steps_budget(v: IndexView, c: u64, n: nat)
    requires
        n >= 1,
    ensures
        steps_from(v, c, (n - 1) as nat) <= steps_from(v, c, n) <= steps_from(v, c, (n - 1) as nat) + 1,
    decreases n,
{
    if !(c == 0 || c == 5) && v.records.contains_key(c) && v.records[c].parent_id != c {
        let p = v.records[c].parent_id;
        if n >= 2 {
            lemma_steps_budget(v, p, (n - 1) as nat);
        } else {
            assert(steps_from(v, p, 0) == 0);
            assert(steps_from(v, c, 1) == 1);
            assert(steps_from(v, c, 0) == 0);
        }
    }
}

/// Once the parent walk has ended, more budget changes nothing.
proof fn lemma_steps_settled(v: IndexView, c: u64, m: nat, n1: nat, n2: nat)
    requires
        ancestry_ends(v, c, m),
        n1 > m,
        n2 > m,
    ensures
        steps_from(v, c, n1) == steps_from(v, c, n2),
    decreases m,
{
    if !(c == 0 || c == 5) && v.records.contains_key(c) && v.records[c].parent_id != c {
        lemma_steps_settled(v, v.records[c].parent_id, (m - 1) as nat, (n1 - 1) as nat, (n2 - 1) as nat);
    }
}

/// A walk that meets `x` counts at least as many steps as the walk from `x`.
proof fn lemma_steps_through(v: IndexView, x: u64, c: u64, f: nat, n: nat)
    requires
        dominated_walk(v, set![x], c, f),
    ensures
        x != 0 && x != 5,
        steps_from(v, c, n) >= steps_from(v, x, n),
    decreases f,
{
    if c != x {
        let p = v.records[c].parent_id;
        if n >= 1 {
            lemma_steps_through(v, x, p, (f - 1) as nat, (n - 1) as nat);
            lemma_steps_budget(v, x, n);
        } else {
            lemma_steps_through(v, x, p, (f - 1) as nat, 0);
        }
    }
}

/// Without stored paths, with no record but 0 and 5 its own parent, and with
/// every parent walk ending within 62 steps, sorting by classification depth
/// puts every record after the records above it.
pub proof fn law_depth_order_puts_ancestors_first(v: IndexView, order: Seq<u64>, depths: Seq<usize>)
    requires
        ordered_by_depth(v, order, depths),
        forall|i: int| 0 <= i < order.len() ==> v.records.contains_key(#[trigger] order[i]),
        forall|k: u64|
            #[trigger] v.records.contains_key(k) ==> v.records[k].path@.len() == 0 && (v.records[k].parent_id
                != k || k == 0 || k == 5) && ancestry_ends(v, v.records[k].parent_id, 62),
    ensures
        ancestors_first(v, order),
{
    assert forall|a: int, b: int|
        #![trigger order[a], order[b]]
        0 <= a < order.len() && 0 <= b < order.len() && dominated(
            v,
            set![order[a]],
            v.records[order[b]].parent_id,
        ) implies a < b by {
        let x = order[a];
        let y = order[b];
        let c = v.records[y].parent_id;
        let f = choose|f: nat| ancestry_ends(v, c, f);
        assert(v.records.contains_key(x));
        assert(v.records.contains_key(y));
        lemma_steps_through(v, x, c, f, 64);
        let px = v.records[x].parent_id;
        assert(steps_from(v, x, 64) == 1 + steps_from(v, px, 63));
        lemma_steps_settled(v, px, 62, 63, 64);
        assert(depths[b] == steps_from(v, c, 64));
        assert(depths[a] == steps_from(v, px, 64));
        assert(depths[a] < depths[b]);
        if a >= b {
            assert(depths[b] <= depths[a]);
        }
    }
}

/// For an index without stored paths, where no record but 0 and 5 is its own
/// parent and every parent walk ends within 62 steps, classifying in the order
/// `classify` uses (sorted by depth) finds no candidate inside another.
pub proof fn law_depth_ordered_classification_nests_no_candidates(
    rules: Seq<PipelineRule>,
    min_size: u64,
    v: IndexView,
    order: Seq<u64>,
    depths: Seq<usize>,
    now: Timestamp,
    i: int,
    j: int,
)
    requires
        ids_consistent(v),
        ordered_by_depth(v, order, depths),
        forall|k: int| 0 <= k < order.len() ==> v.records.contains_key(#[trigger] order[k]),
        forall|k: u64|
            #[trigger] v.records.contains_key(k) ==> v.records[k].path@.len() == 0 && (v.records[k].parent_id
                != k || k == 0 || k == 5) && ancestry_ends(v, v.records[k].parent_id, 62),
        0 <= i < classify_from(rules, min_size, v, order, now).found.len(),
        0 <= j < classify_from(rules, min_size, v, order, now).found.len(),
        i != j,
    ensures
        ({
            let f = classify_from(rules, min_size, v, order, now).found;
            !dominated(v, set![f[i].record_id], v.records[f[j].record_id].parent_id)
        }),
{
    law_depth_order_puts_ancestors_first(v, order, depths);
    law_no_candidate_inside_another(rules, min_size, v, order, now, i, j);
}

/// The record ids of a list of findings.
pub open spec fn found_ids(f: Seq<Found>) -> Set<u64> {
    f.map_values(|x: Found| x.record_id).to_set()
}

/// A finding lies inside another finding of `ids`: the parent walk from its
/// record meets one of the other records.
pub open spec fn inside_another(v: IndexView, ids: Set<u64>, x: Found) -> bool {
    dominated(v, ids.remove(x.record_id), v.records[x.record_id].parent_id)
}

/// The findings, in order, that lie inside no other finding of `ids`.
pub open spec fn outermost(v: IndexView, ids: Set<u64>, f: Seq<Found>) -> Seq<Found>
    decreases f.len(),
{
    if f.len() == 0 {
        f
    } else {
        let rest = outermost(v, ids, f.drop_last());
        if inside_another(v, ids, f.last()) {
            rest
        } else {
            rest.push(f.last())
        }
    }
}

/// Each kept finding is one of the findings, and lies inside no other one.
proof fn lemma_outermost_members(v: IndexView, ids: Set<u64>, f: Seq<Found>)
    ensures
        forall|k: int|
            0 <= k < outermost(v, ids, f).len() ==> !inside_another(v, ids, #[trigger] outermost(v, ids, f)[k])
                && exists|p: int| 0 <= p < f.len() && f[p] == outermost(v, ids, f)[k],
    decreases f.len(),
{
    if f.len() > 0 {
        let prev = f.drop_last();
        lemma_outermost_members(v, ids, prev);
        let o = outermost(v, ids, f);
        let po = outermost(v, ids, prev);
        assert forall|k: int| 0 <= k < o.len() implies !inside_another(v, ids, #[trigger] o[k])
            && exists|p: int| 0 <= p < f.len() && f[p] == o[k] by {
            if k < po.len() {
                assert(o[k] == po[k]);
                let p = choose|p: int| 0 <= p < prev.len() && prev[p] == po[k];
                assert(f[p] == prev[p]);
            } else {
                assert(o[k] == f[f.len() - 1]);
            }
        }
    }
}

/// Of the findings of a classification, those kept as outermost nest in no
/// other: the parent walk from a kept record meets no other kept record.
pub proof fn law_outermost_findings_nest_in_none(v: IndexView, f: Seq<Found>, i: int, j: int)
    requires
        0 <= i < outermost(v, found_ids(f), f).len(),
        0 <= j < outermost(v, found_ids(f), f).len(),
        outermost(v, found_ids(f), f)[i].record_id != outermost(v, found_ids(f), f)[j].record_id,
    ensures
        ({
            let o = outermost(v, found_ids(f), f);
            !dominated(v, set![o[i].record_id], v.records[o[j].record_id].parent_id)
        }),
{
    let ids = found_ids(f);
    let o = outermost(v, ids, f);
    lemma_outermost_members(v, ids, f);
    assert(!inside_another(v, ids, o[j]));
    let p = choose|p: int| 0 <= p < f.len() && f[p] == o[i];
    assert(f.map_values(|x: Found| x.record_id)[p] == o[i].record_id);
    assert(ids.contains(o[i].record_id));
    let big = ids.remove(o[j].record_id);
    assert(set![o[i].record_id].subset_of(big));
    let c = v.records[o[j].record_id].parent_id;
    if dominated(v, set![o[i].record_id], c) {
        let fuel = choose|fl: nat| ancestry_ends(v, c, fl);
        lemma_dominated_walk_mono(v, set![o[i].record_id], big, c, fuel);
    }
}

/// A walk that meets a set meets one of its members.
proof fn lemma_dominated_walk_member(v: IndexView, a: Set<u64>, curr: u64, fuel: nat)
    requires
        dominated_walk(v, a, curr, fuel),
    ensures
        exists|y: u64| a.contains(y) && dominated_walk(v, set![y], curr, fuel),
    decreases fuel,
{
    if a.contains(curr) {
        assert(set![curr].contains(curr));
        assert(dominated_walk(v, set![curr], curr, fuel));
    } else {
        let next = v.records[curr].parent_id;
        lemma_dominated_walk_member(v, a, next, (fuel - 1) as nat);
        let y = choose|y: u64| a.contains(y) && dominated_walk(v, set![y], next, (fuel - 1) as nat);
        assert(!set![y].contains(curr));
        assert(dominated_walk(v, set![y], curr, fuel));
    }
}

/// When every record is classified after the records above it, keeping the
/// outermost findings keeps them all: no finding lies inside another.
pub proof fn law_outermost_keeps_ancestor_first_findings(
    rules: Seq<PipelineRule>,
    min_size: u64,
    v: IndexView,
    order: Seq<u64>,
    now: Timestamp,
)
    requires
        ids_consistent(v),
        ancestors_first(v, order),
    ensures
        ({
            let f = classify_from(rules, min_size, v, order, now).found;
            outermost(v, found_ids(f), f) == f
        }),
{
    let f = classify_from(rules, min_size, v, order, now).found;
    let ids = found_ids(f);
    assert forall|j: int| 0 <= j < f.len() implies !inside_another(v, ids, #[trigger] f[j]) by {
        let c = v.records[f[j].record_id].parent_id;
        let rest = ids.remove(f[j].record_id);
        if dominated(v, rest, c) {
            let fuel = choose|fl: nat| ancestry_ends(v, c, fl);
            lemma_dominated_walk_member(v, rest, c, fuel);
            let y = choose|y: u64| rest.contains(y) && dominated_walk(v, set![y], c, fuel);
            let m = f.map_values(|x: Found| x.record_id);
            assert(m.contains(y));
            let i = choose|i: int| 0 <= i < m.len() && #[trigger] m[i] == y;
            assert(f[i].record_id == y);
            law_no_candidate_inside_another(rules, min_size, v, order, now, i, j);
        }
    }
    lemma_outermost_keeps_all(v, ids, f);
}

/// Keeping the findings that lie inside no other keeps a list none of which does.
proof fn lemma_outermost_keeps_all(v: IndexView, ids: Set<u64>, f: Seq<Found>)
    requires
        forall|j: int| 0 <= j < f.len() ==> !inside_another(v, ids, #[trigger] f[j]),
    ensures
        outermost(v, ids, f) == f,
    decreases f.len(),
{
    if f.len() > 0 {
        let prev = f.drop_last();
        assert forall|j: int| 0 <= j < prev.len() implies !inside_another(v, ids, #[trigger] prev[j]) by {
            assert(prev[j] == f[j]);
        }
        lemma_outermost_keeps_all(v, ids, prev);
        assert(!inside_another(v, ids, f[f.len() - 1]));
        assert(prev.push(f.last()) =~= f);
    }
}

/// A record qualifies as a candidate on its own: some rule matches it and it
/// measures at least the minimum size.
pub open spec fn qualifies(rules: Seq<PipelineRule>, min_size: u64, v: IndexView, x: u64, now: Timestamp) -> bool {
    &&& v.records.contains_key(x)
    &&& first_match_from(rules, 0, v, v.records[x], now) is Some
    &&& record_measure(v, v.records[x]).total_bytes >= min_size
}

/// A record qualifies and no other record on its parent walk does.
pub open spec fn topmost_qualifying(rules: Seq<PipelineRule>, min_size: u64, v: IndexView, x: u64, now: Timestamp) -> bool {
    &&& qualifies(rules, min_size, v, x, now)
    &&& forall|y: u64|
        y != x && #[trigger] qualifies(rules, min_size, v, y, now) ==> !dominated(v, set![y], v.records[x].parent_id)
}

/// The ids accepted are the ids of the findings.
proof fn lemma_accepted_are_found(rules: Seq<PipelineRule>, min_size: u64, v: IndexView, order: Seq<u64>, now: Timestamp)
    requires
        ids_consistent(v),
    ensures
        classify_from(rules, min_size, v, order, now).accepted == found_ids(classify_from(rules, min_size, v, order, now).found),
    decreases order.len(),
{
    if order.len() > 0 {
        let prev = classify_from(rules, min_size, v, order.drop_last(), now);
        let s = classify_from(rules, min_size, v, order, now);
        lemma_accepted_are_found(rules, min_size, v, order.drop_last(), now);
        if s.found.len() > prev.found.len() {
            let x = s.found.last();
            assert(s.found == prev.found.push(x));
            assert(s.accepted == prev.accepted.insert(x.record_id));
            let pm = prev.found.map_values(|f: Found| f.record_id);
            let sm = s.found.map_values(|f: Found| f.record_id);
            assert(sm =~= pm.push(x.record_id));
            assert forall|y: u64| sm.to_set().contains(y) <==> pm.to_set().insert(x.record_id).contains(y) by {
                if sm.contains(y) {
                    let i = choose|i: int| 0 <= i < sm.len() && sm[i] == y;
                    if i < pm.len() {
                        assert(pm[i] == y);
                    }
                }
                if pm.contains(y) {
                    let i = choose|i: int| 0 <= i < pm.len() && pm[i] == y;
                    assert(sm[i] == y);
                }
                assert(sm[pm.len() as int] == x.record_id);
            }
            assert(sm.to_set() =~= pm.to_set().insert(x.record_id));
        } else {
            assert(s == prev);
        }
    }
}

/// A record that qualifies, taken in the order, is found unless a record found
/// before it lies on its parent walk; so a topmost qualifying record is found.
proof fn lemma_topmost_is_found(
    rules: Seq<PipelineRule>,
    min_size: u64,
    v: IndexView,
    order: Seq<u64>,
    now: Timestamp,
    x: u64,
)
    requires
        ids_consistent(v),
        order.contains(x),
        topmost_qualifying(rules, min_size, v, x, now),
    ensures
        found_ids(classify_from(rules, min_size, v, order, now).found).contains(x),
    decreases order.len(),
{
    let prev_order = order.drop_last();
    let prev = classify_from(rules, min_size, v, prev_order, now);
    let s = classify_from(rules, min_size, v, order, now);
    let pm = prev.found.map_values(|f: Found| f.record_id);
    let sm = s.found.map_values(|f: Found| f.record_id);
    // The findings only grow.
    assert(prev.found.len() <= s.found.len() && forall|i: int| 0 <= i < prev.found.len() ==> s.found[i] == prev.found[i]);
    if prev_order.contains(x) {
        lemma_topmost_is_found(rules, min_size, v, prev_order, now, x);
        let i = choose|i: int| 0 <= i < pm.len() && pm[i] == x;
        assert(sm[i] == x);
    } else {
        assert(order.last() == x) by {
            let i = choose|i: int| 0 <= i < order.len() && order[i] == x;
            if i < order.len() - 1 {
                assert(prev_order[i] == x);
            }
        }
        let c = v.records[x].parent_id;
        lemma_accepted_are_found(rules, min_size, v, prev_order, now);
        if dominated(v, prev.accepted, c) {
            let fuel = choose|fl: nat| ancestry_ends(v, c, fl);
            lemma_dominated_walk_member(v, prev.accepted, c, fuel);
            let y = choose|y: u64| prev.accepted.contains(y) && dominated_walk(v, set![y], c, fuel);
            assert(pm.contains(y));
            let i = choose|i: int| 0 <= i < pm.len() && #[trigger] pm[i] == y;
            law_found_candidates_match_and_meet_minimum(rules, min_size, v, prev_order, now);
            assert(prev.found[i].record_id == y);
            lemma_found_from_order(rules, min_size, v, prev_order, now);
            let p = choose|p: int| 0 <= p < prev_order.len() && prev_order[p] == (#[trigger] prev.found[i]).record_id;
            assert(y != x);
            assert(qualifies(rules, min_size, v, y, now));
            assert(false);
        }
        assert(s.found.len() == prev.found.len() + 1);
        assert(s.found[prev.found.len() as int].record_id == x);
        assert(sm[prev.found.len() as int] == x);
    }
}

/// A finding that lies inside no other is kept.
proof fn lemma_outermost_keeps(v: IndexView, ids: Set<u64>, f: Seq<Found>, j: int)
    requires
        0 <= j < f.len(),
        !inside_another(v, ids, f[j]),
    ensures
        exists|k: int| 0 <= k < outermost(v, ids, f).len() && outermost(v, ids, f)[k] == f[j],
    decreases f.len(),
{
    let prev = f.drop_last();
    let o = outermost(v, ids, f);
    if j < f.len() - 1 {
        assert(prev[j] == f[j]);
        lemma_outermost_keeps(v, ids, prev, j);
        let k = choose|k: int| 0 <= k < outermost(v, ids, prev).len() && outermost(v, ids, prev)[k] == prev[j];
        assert(o[k] == f[j]);
    } else {
        assert(o[o.len() - 1] == f[j]);
    }
}

/// Classifying an order that holds a record which qualifies while no record
/// above it does keeps a candidate for it: whatever the order, no such record
/// is lost to a candidate below it.
pub proof fn law_topmost_qualifying_records_are_kept(
    rules: Seq<PipelineRule>,
    min_size: u64,
    v: IndexView,
    order: Seq<u64>,
    now: Timestamp,
    x: u64,
)
    requires
        ids_consistent(v),
        order.contains(x),
        topmost_qualifying(rules, min_size, v, x, now),
    ensures
        ({
            let f = classify_from(rules, min_size, v, order, now).found;
            let o = outermost(v, found_ids(f), f);
            exists|k: int| 0 <= k < o.len() && o[k].record_id == x
        }),
{
    let f = classify_from(rules, min_size, v, order, now).found;
    let ids = found_ids(f);
    lemma_topmost_is_found(rules, min_size, v, order, now, x);
    let m = f.map_values(|g: Found| g.record_id);
    let j = choose|j: int| 0 <= j < m.len() && #[trigger] m[j] == x;
    assert(f[j].record_id == x);
    if inside_another(v, ids, f[j]) {
        let c = v.records[x].parent_id;
        let rest = ids.remove(x);
        let fuel = choose|fl: nat| ancestry_ends(v, c, fl);
        lemma_dominated_walk_member(v, rest, c, fuel);
        let y = choose|y: u64| rest.contains(y) && dominated_walk(v, set![y], c, fuel);
        let i = choose|i: int| 0 <= i < m.len() && #[trigger] m[i] == y;
        law_found_candidates_match_and_meet_minimum(rules, min_size, v, order, now);
        assert(f[i].record_id == y);
        assert(qualifies(rules, min_size, v, y, now));
        assert(false);
    }
    lemma_outermost_keeps(v, ids, f, j);
}

/// A walk that finishes and meets a qualifying record meets a topmost one.
proof fn lemma_topmost_on_walk(rules: Seq<PipelineRule>, min_size: u64, v: IndexView, now: Timestamp, c: u64, fuel: nat)
    requires
        ancestry_ends(v, c, fuel),
        exists|y: u64| #[trigger] qualifies(rules, min_size, v, y, now) && dominated_walk(v, set![y], c, fuel),
    ensures
        exists|t: u64| #[trigger] topmost_qualifying(rules, min_size, v, t, now) && dominated_walk(v, set![t], c, fuel),
    decreases fuel,
{
    let y = choose|y: u64| #[trigger] qualifies(rules, min_size, v, y, now) && dominated_walk(v, set![y], c, fuel);
    if c == 0 || c == 5 {
        assert(false);
    } else if !v.records.contains_key(c) || v.records[c].parent_id == c || fuel == 0 {
        assert(y == c);
        assert(v.records[c].parent_id == c);
        assert forall|z: u64|
            z != c && #[trigger] qualifies(rules, min_size, v, z, now) implies !dominated(v, set![z], v.records[c].parent_id) by {
            let g = choose|g: nat| ancestry_ends(v, c, g);
            assert(!set![z].contains(c));
        }
        assert(topmost_qualifying(rules, min_size, v, c, now));
        assert(set![c].contains(c));
    } else {
        let p = v.records[c].parent_id;
        let g = (fuel - 1) as nat;
        if exists|y2: u64| #[trigger] qualifies(rules, min_size, v, y2, now) && dominated_walk(v, set![y2], p, g) {
            lemma_topmost_on_walk(rules, min_size, v, now, p, g);
            let t = choose|t: u64| #[trigger] topmost_qualifying(rules, min_size, v, t, now) && dominated_walk(v, set![t], p, g);
            assert(dominated_walk(v, set![t], c, fuel));
        } else {
            assert(y == c) by {
                if y != c {
                    assert(!set![y].contains(c));
                    assert(dominated_walk(v, set![y], p, g));
                }
            }
            assert forall|z: u64|
                z != c && #[trigger] qualifies(rules, min_size, v, z, now) implies !dominated(v, set![z], p) by {
                assert(ancestry_ends(v, p, g));
                let h = choose|h: nat| ancestry_ends(v, p, h);
                lemma_dominated_fuel(v, set![z], p, h, g);
            }
            assert(topmost_qualifying(rules, min_size, v, c, now));
            assert(set![c].contains(c));
        }
    }
}

/// A finished walk that meets `x` leaves fuel for a finished walk from `x`'s
/// parent, when `x` is a known record that is not its own parent.
proof fn lemma_walk_through(v: IndexView, x: u64, u: u64, g: nat) -> (h: nat)
    requires
        v.records.contains_key(x),
        v.records[x].parent_id != x,
        ancestry_ends(v, u, g),
        dominated_walk(v, set![x], u, g),
    ensures
        h < g,
        ancestry_ends(v, v.records[x].parent_id, h),
    decreases g,
{
    if u == x {
        (g - 1) as nat
    } else {
        assert(!set![x].contains(u));
        lemma_walk_through(v, x, v.records[u].parent_id, (g - 1) as nat)
    }
}

/// A known record that is not its own parent is not met by the finished walk
/// from its parent.
proof fn lemma_walk_not_back(v: IndexView, x: u64, g: nat)
    requires
        v.records.contains_key(x),
        v.records[x].parent_id != x,
        ancestry_ends(v, v.records[x].parent_id, g),
    ensures
        !dominated_walk(v, set![x], v.records[x].parent_id, g),
    decreases g,
{
    let c = v.records[x].parent_id;
    if dominated_walk(v, set![x], c, g) {
        let h = lemma_walk_through(v, x, c, g);
        lemma_dominated_fuel(v, set![x], c, g, h);
        lemma_walk_not_back(v, x, h);
    }
}

/// Classifying an order that holds every record keeps only records that
/// qualify while no other record above them does.
pub proof fn law_kept_findings_are_topmost_qualifying(
    rules: Seq<PipelineRule>,
    min_size: u64,
    v: IndexView,
    order: Seq<u64>,
    now: Timestamp,
    k: int,
)
    requires
        ids_consistent(v),
        forall|key: u64| v.records.contains_key(key) ==> order.contains(key),
        forall|key: u64| #[trigger] v.records.contains_key(key) ==> exists|f: nat|
            ancestry_ends(v, v.records[key].parent_id, f),
        0 <= k < ({
            let f = classify_from(rules, min_size, v, order, now).found;
            outermost(v, found_ids(f), f).len()
        }),
    ensures
        ({
            let f = classify_from(rules, min_size, v, order, now).found;
            topmost_qualifying(rules, min_size, v, outermost(v, found_ids(f), f)[k].record_id, now)
        }),
{
    let f = classify_from(rules, min_size, v, order, now).found;
    let ids = found_ids(f);
    let o = outermost(v, ids, f);
    let x = o[k].record_id;
    lemma_outermost_members(v, ids, f);
    let p = choose|p: int| 0 <= p < f.len() && f[p] == o[k];
    law_found_candidates_match_and_meet_minimum(rules, min_size, v, order, now);
    assert(f[p].record_id == x);
    assert(qualifies(rules, min_size, v, x, now));
    assert forall|y: u64|
        y != x && #[trigger] qualifies(rules, min_size, v, y, now) implies !dominated(v, set![y], v.records[x].parent_id) by {
        let c = v.records[x].parent_id;
        if dominated(v, set![y], c) {
            let fuel = choose|fl: nat| ancestry_ends(v, c, fl);
            if c == x {
                assert(!set![y].contains(x));
                assert(false);
            }
            lemma_topmost_on_walk(rules, min_size, v, now, c, fuel);
            let t = choose|t: u64| #[trigger] topmost_qualifying(rules, min_size, v, t, now) && dominated_walk(v, set![t], c, fuel);
            lemma_walk_not_back(v, x, fuel);
            assert(t != x);
            lemma_topmost_is_found(rules, min_size, v, order, now, t);
            assert(ids.remove(x).contains(t));
            assert(set![t].subset_of(ids.remove(x)));
            lemma_dominated_walk_mono(v, set![t], ids.remove(x), c, fuel);
            assert(inside_another(v, ids, o[k]));
            assert(false);
        }
    }
}

/// What classification needs of the index to terminate and stay in range:
/// records under their own ids, finite ancestor walks and resolvable paths,
/// timestamps in range, and finite subtrees that fit the counters for every
/// directory some rule could match.
pub open spec fn classifiable(rules: Seq<PipelineRule>, v: IndexView, now: Timestamp) -> bool {
    &&& ids_consistent(v)
    &&& timestamp_in_range(now)
    &&& forall|j: int| 0 <= j < rules.len() ==> rule_evaluable(#[trigger] rules[j])
    &&& forall|k: u64| #[trigger] v.records.contains_key(k) ==> {
        &&& exists|f: nat| ancestry_ends(v, v.records[k].parent_id, f)
        &&& v.records[k].path@.len() > 0 || path_resolvable(v, k)
        &&& v.records[k].modified_at matches Some(m) ==> timestamp_in_range(m)
        &&& (v.records[k].is_dir && exists|j: int| 0 <= j < rules.len() && rule_possible(rules[j], v, v.records[k], now))
            ==> subtree_finite(v, k) && tally_fits(subtree_tally(v, k))
    }
}

/// What classifying the index at `now` gives: the classification of an
/// ordering of all records (each once) sorted by depth, of whose findings the
/// outermost become the candidates (stated for indexes whose names are plain
/// file names).
pub open spec fn classified(rules: Seq<PipelineRule>, min_size: u64, v: IndexView, now: Timestamp, r: Seq<ReclaimCandidate>) -> bool {
    exists|order: Seq<u64>, depths: Seq<usize>|
        #![trigger classify_from(rules, min_size, v, order, now), ordered_by_depth(v, order, depths)]
    {
        let s = classify_from(rules, min_size, v, order, now);
        let o = outermost(v, found_ids(s.found), s.found);
        &&& order.len() == v.records.dom().len()
        &&& forall|i: int| 0 <= i < order.len() ==> v.records.contains_key(#[trigger] order[i])
        &&& forall|k: u64| v.records.contains_key(k) ==> order.contains(k)
        &&& ordered_by_depth(v, order, depths)
        &&& plain_names(v) ==> {
            &&& r.len() == o.len()
            &&& forall|i: int| 0 <= i < r.len() ==> candidate_for(#[trigger] r[i], o[i], v)
        }
    }
}

/// A candidate built for record `id`, whatever the rules decided: its size and
/// file count are the record's measure, and its path is the record's resolved path.
pub open spec fn record_candidate(c: ReclaimCandidate, v: IndexView, id: u64) -> bool {
    &&& v.records.contains_key(id)
    &&& c.size_bytes == record_measure(v, v.records[id]).total_bytes
    &&& c.file_count == record_measure(v, v.records[id]).total_files
    &&& resolved_path_of(v, id, c.path@)
}

/// `r` holds one candidate per record of `rids` (no record twice), and no
/// candidate's record lies on the parent walk of another's.
pub open spec fn nest_free(v: IndexView, r: Seq<ReclaimCandidate>, rids: Seq<u64>) -> bool {
    &&& rids.len() == r.len()
    &&& rids.no_duplicates()
    &&& forall|j: int| 0 <= j < r.len() ==> record_candidate(#[trigger] r[j], v, rids[j])
    &&& forall|j1: int, j2: int|
        0 <= j1 < r.len() && 0 <= j2 < r.len() && j1 != j2 ==> !dominated(
            v,
            set![#[trigger] rids[j1]],
            v.records[#[trigger] rids[j2]].parent_id,
        )
}

/// `r` keeps, in order, the candidates at positions `kp` of `cands` (whose
/// records are `ids`): each kept record lies below none of the others.
pub open spec fn kept_from(kp: Seq<int>, r: Seq<ReclaimCandidate>, cands: Seq<ReclaimCandidate>, ids: Seq<u64>, v: IndexView) -> bool {
    &&& kp.len() == r.len()
    &&& forall|j: int| 0 <= j < kp.len() ==> 0 <= #[trigger] kp[j] < ids.len() && kp[j] < cands.len() && r[j] == cands[kp[j]]
    &&& forall|a: int, b: int| 0 <= a < b < kp.len() ==> kp[a] < kp[b]
    &&& forall|j: int|
        0 <= j < kp.len() && v.records.contains_key(ids[#[trigger] kp[j]]) ==> !dominated(
            v,
            ids.to_set().remove(ids[kp[j]]),
            v.records[ids[kp[j]]].parent_id,
        )
}

/// What every candidate of classification is, whatever the rules decided: safe
/// and selected by default (the safety checks come later), outside any
/// repository as far as classification knows, and at least the minimum size.
pub open spec fn emitted_candidate(c: ReclaimCandidate, min_size: u64) -> bool {
    &&& c.is_safe
    &&& c.default_selected
    &&& c.git_status == GitRepoStatus::NotInRepo
    &&& c.size_bytes >= min_size
}

/// The candidate built for a finding.
pub open spec fn candidate_for(c: ReclaimCandidate, f: Found, v: IndexView) -> bool {
    let r = v.records[f.record_id];
    let size = f.stats.total_bytes;
    let shared = f.stats.hardlink_shared_bytes;
    &&& c.category == f.category
    &&& (r.path@.len() > 0 ==> c.path == r.path)
    &&& resolved_path_of(v, f.record_id, c.path@)
    &&& c.display_path@ == c.path@
    &&& c.size_bytes == size
    &&& c.human_size@ == size_text(size as nat)
    &&& c.last_modified == (if f.stats.latest_modified is Some { f.stats.latest_modified } else { r.modified_at })
    &&& c.file_count == f.stats.total_files
    &&& c.is_safe
    &&& c.default_selected
    &&& c.safety_reason@ == f.reason
    &&& c.git_status == GitRepoStatus::NotInRepo
    &&& c.hardlink_shared_bytes == shared
    &&& c.has_hardlinks == (shared > 0)
    &&& (if shared > 0 { c.size_caveat matches Some(t) && t@ == hardlink_caveat(shared) } else { c.size_caveat is None })
}

impl Default for ClassifierPipeline {
    /// The default rules with a minimum size of 1 MiB.
    fn default() -> (r: Self)
        ensures
            r.rules@ == default_rules(),
            r.min_size_bytes == 1024 * 1024,
    {
        Self::new(1024 * 1024)
    }
}

impl ClassifierPipeline {
    /// A pipeline with the default rules and the given minimum size.
    pub fn new(min_size_bytes: u64) -> (r: Self)
        ensures
            r.rules@ == default_rules(),
            r.min_size_bytes == min_size_bytes,
    {
        let mut rules: Vec<PipelineRule> = Vec::new();
        rules.push(PipelineRule::Node(NodeRule));
        rules.push(PipelineRule::Rust(RustRule));
        rules.push(PipelineRule::Python(PythonRule));
        rules.push(PipelineRule::DotnetJava(DotnetJavaRule));
        rules.push(PipelineRule::Ide(IdeRule));
        rules.push(PipelineRule::Unity(UnityRule));
        rules.push(PipelineRule::Downloads(DownloadsRule::default()));
        rules.push(PipelineRule::WindowsUpdate(WindowsUpdateRule));
        assert(rules@ =~= default_rules());
        ClassifierPipeline { rules, min_size_bytes }
    }

    /// The pipeline with its Downloads rule replaced by one with the given
    /// threshold (removed wherever it stands, added at the end).
    pub fn with_stale_days(self, stale_days: i64) -> (r: Self)
        ensures
            r.rules@ == without_rule_named(self.rules@, "Stale Downloaded Installers"@).push(
                PipelineRule::Downloads(DownloadsRule { stale_days }),
            ),
            r.min_size_bytes == self.min_size_bytes,
    {
        let mut p = self.without_downloads();
        p.rules.push(PipelineRule::Downloads(DownloadsRule::new(stale_days)));
        p
    }

    /// The pipeline without its Downloads rule, the one rule that reads the time.
    pub fn without_downloads(&self) -> (r: Self)
        ensures
            r.rules@ == without_rule_named(self.rules@, "Stale Downloaded Installers"@),
            r.min_size_bytes == self.min_size_bytes,
    {
        let mut kept: Vec<PipelineRule> = Vec::new();
        let mut i: usize = 0;
        while i < self.rules.len()
            invariant
                i <= self.rules.len(),
                kept@ == without_rule_named(self.rules@.take(i as int), "Stale Downloaded Installers"@),
            decreases self.rules.len() - i,
        {
            assert(self.rules@.take(i + 1).drop_last() =~= self.rules@.take(i as int));
            let rule = &self.rules[i];
            if !crate::text::str_eq(rule.name(), "Stale Downloaded Installers") {
                kept.push(rule.copy());
            }
            i = i + 1;
        }
        assert(self.rules@.take(self.rules.len() as int) =~= self.rules@);
        ClassifierPipeline { rules: kept, min_size_bytes: self.min_size_bytes }
    }

    /// Sets the minimum candidate size.
    pub fn set_min_size(&mut self, min_size_bytes: u64)
        ensures
            final(self).min_size_bytes == min_size_bytes,
            final(self).rules@ == old(self).rules@,
    {
        self.min_size_bytes = min_size_bytes;
    }

    /// Whether the ancestor walk from `start` meets an accepted id.
    fn is_dominated(index: &ScanIndex, accepted: &HashSet<u64>, start: u64) -> (r: bool)
        requires
            exists|f: nat| ancestry_ends(index@, start, f),
        ensures
            r == dominated(index@, accepted@, start),
    {
        let ghost v = index@;
        let ghost f0 = choose|f: nat| ancestry_ends(v, start, f);
        let ghost mut fuel = f0;
        let mut curr = start;
        let mut found = false;
        loop
            invariant_except_break
                ancestry_ends(v, curr, fuel),
                dominated_walk(v, accepted@, curr, fuel) == dominated_walk(v, accepted@, start, f0),
                !found,
            invariant
                v == index@,
            ensures
                found == dominated_walk(v, accepted@, start, f0),
            decreases fuel,
        {
            if curr == 0 || curr == 5 {
                break ;
            }
            if accepted.contains(&curr) {
                found = true;
                break ;
            }
            match index.get_record(curr) {
                Some(parent) => {
                    if parent.parent_id == curr {
                        break ;
                    }
                    curr = parent.parent_id;
                    proof {
                        fuel = (fuel - 1) as nat;
                    }
                },
                None => {
                    break ;
                },
            }
        }
        found
    }

    /// Size, file count, latest modification and shared bytes of a record.
    fn measure(index: &ScanIndex, record: &FileRecord) -> (r: SubtreeStats)
        requires
            index@.records.contains_key(record.id),
            record.is_dir ==> subtree_finite(index@, record.id) && tally_fits(subtree_tally(index@, record.id)),
        ensures
            r == record_measure(index@, *record),
    {
        if record.is_dir {
            index.calculate_subtree_stats(record.id)
        } else {
            SubtreeStats {
                total_bytes: record.size_bytes,
                total_files: 1,
                latest_modified: record.modified_at,
                hardlink_shared_bytes: 0,
            }
        }
    }
}

impl ClassifierPipeline {
    /// The candidate for one record that is not below an accepted one: built from
    /// the first rule that matches, unless the record's measured size is below the
    /// minimum.
    fn first_candidate(&self, index: &ScanIndex, record: &FileRecord, now: Timestamp) -> (r: Option<ReclaimCandidate>)
        requires
            classifiable(self.rules@, index@, now),
            index@.records.contains_key(record.id),
            *record == index@.records[record.id],
        ensures
            r matches Some(c) ==> emitted_candidate(c, self.min_size_bytes) && record_candidate(c, index@, record.id),
            plain_names(index@) ==> match r {
                Some(c) => first_match_from(self.rules@, 0, index@, *record, now) matches Some((cat, reason))
                    && record_measure(index@, *record).total_bytes >= self.min_size_bytes
                    && candidate_for(c, Found { record_id: record.id, category: cat, reason, stats: record_measure(index@, *record) }, index@),
                None => first_match_from(self.rules@, 0, index@, *record, now) is None
                    || record_measure(index@, *record).total_bytes < self.min_size_bytes,
            },
    {
        let ghost v = index@;
        let ghost rules = self.rules@;
        let ghost mut matched_any = false;
        proof {
            assert(plain_names(v) ==> crate::paths::plain_name(record.name@));
            assert(plain_names(v) ==> crate::classifier::rules::plain_children(v, record.parent_id));
        }
        let mut j: usize = 0;
        while j < self.rules.len()
            invariant
                v == index@,
                rules == self.rules@,
                classifiable(rules, v, now),
                v.records.contains_key(record.id),
                *record == v.records[record.id],
                j <= self.rules.len(),
                plain_names(v) ==> crate::paths::plain_name(record.name@),
                plain_names(v) ==> (if !matched_any {
                    first_match_from(rules, 0, v, *record, now) == first_match_from(rules, j as nat, v, *record, now)
                } else {
                    first_match_from(rules, 0, v, *record, now) is Some
                        && record_measure(v, *record).total_bytes < self.min_size_bytes
                }),
            decreases self.rules.len() - j,
        {
            assert(rule_evaluable(rules[j as int]));
            let verdict = self.rules[j].evaluate_at(index, record, now);
            match verdict {
                Some((category, reason)) => {
                    proof {
                        if record.is_dir {
                            assert(rule_possible(rules[j as int], v, v.records[record.id], now));
                        }
                    }
                    let stats = Self::measure(index, record);
                    if stats.total_bytes >= self.min_size_bytes {
                        let modified = match stats.latest_modified {
                            Some(t) => Some(t),
                            None => record.modified_at,
                        };
                        let path = index.resolve_path(record.id);
                        let c = ReclaimCandidate::new(
                            category,
                            path,
                            stats.total_bytes,
                            modified,
                            stats.total_files,
                            true,
                            reason,
                            GitRepoStatus::NotInRepo,
                        ).with_hardlink_info(stats.hardlink_shared_bytes);
                        return Some(c);
                    } else {
                        proof {
                            matched_any = true;
                        }
                    }
                },
                None => {},
            }
            j = j + 1;
        }
        None
    }

    /// Classifies the records in the given order: each record that is not below an
    /// already accepted candidate (by its parent chain) and that some rule matches
    /// becomes a candidate, unless its measured size is below the minimum.
    /// Exact for indexes whose names are plain file names.
    pub fn classify_ordered(&self, index: &ScanIndex, order: &Vec<u64>, now: Timestamp) -> (r: Vec<ReclaimCandidate>)
        requires
            classifiable(self.rules@, index@, now),
        ensures
            forall|i: int| 0 <= i < r.len() ==> emitted_candidate(#[trigger] r[i], self.min_size_bytes),
            plain_names(index@) ==> ({
                let s = classify_from(self.rules@, self.min_size_bytes, index@, order@, now);
                &&& r.len() == s.found.len()
                &&& forall|i: int| 0 <= i < r.len() ==> candidate_for(#[trigger] r[i], s.found[i], index@)
            }),
    {
        let (candidates, _ids) = self.classify_ordered_with_ids(index, order, now);
        candidates
    }

    /// `classify_ordered`, with the record id of each candidate.
    fn classify_ordered_with_ids(&self, index: &ScanIndex, order: &Vec<u64>, now: Timestamp) -> (r: (Vec<ReclaimCandidate>, Vec<u64>))
        requires
            classifiable(self.rules@, index@, now),
        ensures
            r.1.len() == r.0.len(),
            forall|k: int| 0 <= k < r.1.len() ==> index@.records.contains_key(#[trigger] r.1@[k]),
            forall|k: int| 0 <= k < r.0.len() ==> emitted_candidate(#[trigger] r.0[k], self.min_size_bytes),
            forall|k: int| 0 <= k < r.0.len() ==> record_candidate(#[trigger] r.0[k], index@, r.1@[k]),
            order@.no_duplicates() ==> r.1@.no_duplicates(),
            plain_names(index@) ==> ({
                let s = classify_from(self.rules@, self.min_size_bytes, index@, order@, now);
                &&& r.0.len() == s.found.len()
                &&& forall|i: int| 0 <= i < r.0.len() ==> candidate_for(#[trigger] r.0[i], s.found[i], index@)
                &&& forall|i: int| 0 <= i < r.1.len() ==> #[trigger] r.1@[i] == s.found[i].record_id
            }),
    {
        let ghost v = index@;
        let ghost rules = self.rules@;
        let mut candidates: Vec<ReclaimCandidate> = Vec::new();
        let mut ids: Vec<u64> = Vec::new();
        let mut accepted: HashSet<u64> = HashSet::new();
        let mut i: usize = 0;
        while i < order.len()
            invariant
                v == index@,
                rules == self.rules@,
                classifiable(rules, v, now),
                i <= order.len(),
                ids.len() == candidates.len(),
                forall|k: int| 0 <= k < ids.len() ==> v.records.contains_key(#[trigger] ids@[k]),
                forall|k: int| 0 <= k < candidates.len() ==> emitted_candidate(#[trigger] candidates[k], self.min_size_bytes),
                forall|k: int| 0 <= k < candidates.len() ==> record_candidate(#[trigger] candidates[k], v, ids@[k]),
                forall|k: int| 0 <= k < ids.len() ==> exists|p: int| 0 <= p < i && order@[p] == #[trigger] ids@[k],
                order@.no_duplicates() ==> ids@.no_duplicates(),
                plain_names(v) ==> ({
                    let s = classify_from(rules, self.min_size_bytes, v, order@.take(i as int), now);
                    &&& accepted@ == s.accepted
                    &&& candidates.len() == s.found.len()
                    &&& forall|k: int| 0 <= k < candidates.len() ==> candidate_for(#[trigger] candidates[k], s.found[k], v)
                    &&& forall|k: int| 0 <= k < ids.len() ==> #[trigger] ids@[k] == s.found[k].record_id
                }),
            decreases order.len() - i,
        {
            assert(order@.take(i + 1).drop_last() =~= order@.take(i as int));
            let id = order[i];
            match index.get_record(id) {
                None => {},
                Some(record) => {
                    assert(record.id == id);
                    if !Self::is_dominated(index, &accepted, record.parent_id) {
                        match self.first_candidate(index, record, now) {
                            Some(c) => {
                                let ghost before = ids@;
                                accepted.insert(record.id);
                                candidates.push(c);
                                ids.push(record.id);
                                proof {
                                    assert forall|k: int| 0 <= k < ids.len() implies exists|p: int|
                                        0 <= p < i + 1 && order@[p] == #[trigger] ids@[k] by {
                                        if k < before.len() {
                                            assert(ids@[k] == before[k]);
                                        } else {
                                            assert(order@[i as int] == ids@[k]);
                                        }
                                    }
                                    if order@.no_duplicates() {
                                        assert forall|a: int, b: int| 0 <= a < ids.len() && 0 <= b < ids.len() && a != b implies ids@[a] != ids@[b] by {
                                            if a < before.len() && b < before.len() {
                                                assert(ids@[a] == before[a] && ids@[b] == before[b]);
                                            } else if a < before.len() {
                                                assert(ids@[a] == before[a]);
                                                let p = choose|p: int| 0 <= p < i && order@[p] == #[trigger] before[a];
                                                assert(ids@[b] == order@[i as int]);
                                            } else {
                                                assert(ids@[b] == before[b]);
                                                let p = choose|p: int| 0 <= p < i && order@[p] == #[trigger] before[b];
                                                assert(ids@[a] == order@[i as int]);
                                            }
                                        }
                                    }
                                }
                            },
                            None => {},
                        }
                    }
                },
            }
            i = i + 1;
        }
        assert(order@.take(order.len() as int) =~= order@);
        (candidates, ids)
    }

    /// Keeps the candidates whose record lies inside no other candidate's record
    /// (by the parent chain), in order.
    fn keep_outermost(index: &ScanIndex, cands: &Vec<ReclaimCandidate>, ids: &Vec<u64>, Ghost(found): Ghost<Seq<Found>>, Ghost(min_size): Ghost<u64>) -> (r: Vec<ReclaimCandidate>)
        requires
            cands.len() == ids.len(),
            forall|k: int| 0 <= k < cands.len() ==> emitted_candidate(#[trigger] cands[k], min_size),
            forall|k: int|
                0 <= k < ids.len() && index@.records.contains_key(#[trigger] ids@[k]) ==> exists|f: nat|
                    ancestry_ends(index@, index@.records[ids@[k]].parent_id, f),
        ensures
            forall|k: int| 0 <= k < r.len() ==> emitted_candidate(#[trigger] r[k], min_size),
            exists|kp: Seq<int>| kept_from(kp, r@, cands@, ids@, index@),
            ({
                &&& found.len() == ids.len()
                &&& forall|k: int| 0 <= k < ids.len() ==> #[trigger] ids@[k] == found[k].record_id
                &&& forall|k: int| 0 <= k < ids.len() ==> index@.records.contains_key(#[trigger] ids@[k])
                &&& forall|k: int| 0 <= k < cands.len() ==> candidate_for(#[trigger] cands[k], found[k], index@)
            }) ==> ({
                let o = outermost(index@, found_ids(found), found);
                &&& r.len() == o.len()
                &&& forall|k: int| 0 <= k < r.len() ==> candidate_for(#[trigger] r[k], o[k], index@)
            }),
    {
        let ghost v = index@;
        let ghost premise = {
            &&& found.len() == ids.len()
            &&& forall|k: int| 0 <= k < ids.len() ==> #[trigger] ids@[k] == found[k].record_id
            &&& forall|k: int| 0 <= k < ids.len() ==> v.records.contains_key(#[trigger] ids@[k])
            &&& forall|k: int| 0 <= k < cands.len() ==> candidate_for(#[trigger] cands[k], found[k], v)
        };
        let mut all: HashSet<u64> = HashSet::new();
        let mut i: usize = 0;
        while i < ids.len()
            invariant
                i <= ids.len(),
                all@ == ids@.take(i as int).to_set(),
            decreases ids.len() - i,
        {
            proof {
                let a = ids@.take(i + 1);
                let b = ids@.take(i as int);
                assert forall|x: u64| a.to_set().contains(x) <==> b.to_set().insert(ids@[i as int]).contains(x) by {
                    if a.contains(x) {
                        let j = choose|j: int| 0 <= j < a.len() && a[j] == x;
                        if j < i {
                            assert(b[j] == x);
                        }
                    }
                    if b.contains(x) {
                        let j = choose|j: int| 0 <= j < b.len() && b[j] == x;
                        assert(a[j] == x);
                    }
                    assert(a[i as int] == ids@[i as int]);
                }
                assert(a.to_set() =~= b.to_set().insert(ids@[i as int]));
            }
            all.insert(ids[i]);
            i = i + 1;
        }
        assert(ids@.take(ids.len() as int) =~= ids@);
        proof {
            if premise {
                assert(ids@ =~= found.map_values(|x: Found| x.record_id));
            }
        }
        let mut kept: Vec<ReclaimCandidate> = Vec::new();
        let ghost mut kp: Seq<int> = Seq::empty();
        let mut k: usize = 0;
        while k < ids.len()
            invariant
                kept_from(kp, kept@, cands@, ids@, v),
                forall|j: int| 0 <= j < kp.len() ==> kp[j] < k,
                v == index@,
                k <= ids.len(),
                cands.len() == ids.len(),
                forall|j: int| 0 <= j < cands.len() ==> emitted_candidate(#[trigger] cands[j], min_size),
                forall|j: int| 0 <= j < kept.len() ==> emitted_candidate(#[trigger] kept[j], min_size),
                all@ == ids@.to_set(),
                forall|j: int|
                    0 <= j < ids.len() && v.records.contains_key(#[trigger] ids@[j]) ==> exists|f: nat|
                        ancestry_ends(v, v.records[ids@[j]].parent_id, f),
                premise == ({
                    &&& found.len() == ids.len()
                    &&& forall|j: int| 0 <= j < ids.len() ==> #[trigger] ids@[j] == found[j].record_id
                    &&& forall|j: int| 0 <= j < ids.len() ==> v.records.contains_key(#[trigger] ids@[j])
                    &&& forall|j: int| 0 <= j < cands.len() ==> candidate_for(#[trigger] cands[j], found[j], v)
                }),
                premise ==> all@ == found_ids(found),
                premise ==> ({
                    let o = outermost(v, found_ids(found), found.take(k as int));
                    &&& kept.len() == o.len()
                    &&& forall|j: int| 0 <= j < kept.len() ==> candidate_for(#[trigger] kept[j], o[j], v)
                }),
            decreases ids.len() - k,
        {
            proof {
                if premise {
                    assert(found.take(k + 1).drop_last() =~= found.take(k as int));
                }
            }
            let id = ids[k];
            let inside = match index.get_record(id) {
                Some(record) => {
                    assert(ids@.to_set().contains(ids@[k as int]));
                    all.remove(&id);
                    let d = Self::is_dominated(index, &all, record.parent_id);
                    all.insert(id);
                    assert(all@ =~= ids@.to_set());
                    d
                },
                None => false,
            };
            if !inside {
                let ghost before = kept@;
                let ghost kb = kp;
                kept.push(cands[k].copy());
                proof {
                    kp = kp.push(k as int);
                    assert forall|j: int| 0 <= j < kp.len() implies 0 <= #[trigger] kp[j] < ids.len() && kp[j]
                        < cands.len() && kept@[j] == cands@[kp[j]] by {
                        if j < kb.len() {
                            assert(kp[j] == kb[j]);
                            assert(kept@[j] == before[j]);
                        }
                    }
                    assert forall|j: int|
                        0 <= j < kp.len() && v.records.contains_key(ids@[#[trigger] kp[j]]) implies !dominated(
                            v,
                            ids@.to_set().remove(ids@[kp[j]]),
                            v.records[ids@[kp[j]]].parent_id,
                        ) by {
                        if j < kb.len() {
                            assert(kp[j] == kb[j]);
                        }
                    }
                    assert(kept_from(kp, kept@, cands@, ids@, v));
                }
            }
            k = k + 1;
        }
        proof {
            if premise {
                assert(found.take(ids.len() as int) =~= found);
            }
        }
        kept
    }
}

/// Sorting triples that carry their distinct positions, then taking their
/// ids, which were distinct, gives distinct ids.
proof fn lemma_sorted_ids_distinct(
    before: Seq<(usize, usize, u64)>,
    sorted: Seq<(usize, usize, u64)>,
    keys: Seq<u64>,
    order: Seq<u64>,
)
    requires
        before.len() == keys.len(),
        forall|j: int| 0 <= j < before.len() ==> (#[trigger] before[j]).1 == j && before[j].2 == keys[j],
        keys.no_duplicates(),
        sorted.to_multiset() == before.to_multiset(),
        order.len() == sorted.len(),
        forall|i: int| 0 <= i < order.len() ==> order[i] == (#[trigger] sorted[i]).2,
    ensures
        order.no_duplicates(),
{
    assert(before.no_duplicates()) by {
        assert forall|a: int, b: int| 0 <= a < before.len() && 0 <= b < before.len() && a != b implies before[a] != before[b] by {
            assert(before[a].1 == a && before[b].1 == b);
        }
    }
    before.lemma_multiset_has_no_duplicates();
    sorted.lemma_multiset_has_no_duplicates_conv();
    sorted.to_multiset_ensures();
    before.to_multiset_ensures();
    assert forall|a: int, b: int| 0 <= a < order.len() && 0 <= b < order.len() && a != b implies order[a] != order[b] by {
        assert(sorted.contains(sorted[a]));
        assert(sorted.contains(sorted[b]));
        assert(sorted.to_multiset().count(sorted[a]) > 0);
        assert(sorted.to_multiset().count(sorted[b]) > 0);
        assert(before.to_multiset().count(sorted[a]) > 0);
        assert(before.to_multiset().count(sorted[b]) > 0);
        assert(before.contains(sorted[a]));
        assert(before.contains(sorted[b]));
        let p = choose|j: int| 0 <= j < before.len() && before[j] == sorted[a];
        let q = choose|j: int| 0 <= j < before.len() && before[j] == sorted[b];
        assert(sorted[a] != sorted[b]);
        if p == q {
            assert(false);
        }
        assert(keys[p] != keys[q]);
    }
}

/// The kept candidates, with the records they were kept for, nest in none
/// other and name no record twice.
proof fn lemma_kept_nest_free(v: IndexView, r: Seq<ReclaimCandidate>, cands: Seq<ReclaimCandidate>, ids: Seq<u64>, kp: Seq<int>)
    requires
        kept_from(kp, r, cands, ids, v),
        ids.no_duplicates(),
        cands.len() == ids.len(),
        forall|k: int| 0 <= k < ids.len() ==> v.records.contains_key(#[trigger] ids[k]),
        forall|k: int| 0 <= k < cands.len() ==> record_candidate(#[trigger] cands[k], v, ids[k]),
    ensures
        nest_free(v, r, Seq::new(kp.len(), |j: int| ids[kp[j]])),
{
    let rids = Seq::new(kp.len(), |j: int| ids[kp[j]]);
    assert forall|a: int, b: int| 0 <= a < rids.len() && 0 <= b < rids.len() && a != b implies rids[a] != rids[b] by {
        assert(kp[a] != kp[b]) by {
            if a < b {
                assert(kp[a] < kp[b]);
            } else {
                assert(kp[b] < kp[a]);
            }
        }
        assert(0 <= kp[a] < ids.len() && 0 <= kp[b] < ids.len());
    }
    assert forall|j: int| 0 <= j < r.len() implies record_candidate(#[trigger] r[j], v, rids[j]) by {
        assert(0 <= kp[j] < ids.len());
        assert(r[j] == cands[kp[j]]);
    }
    assert forall|j1: int, j2: int|
        0 <= j1 < r.len() && 0 <= j2 < r.len() && j1 != j2 implies !dominated(
            v,
            set![#[trigger] rids[j1]],
            v.records[#[trigger] rids[j2]].parent_id,
        ) by {
        let x = rids[j2];
        let y = rids[j1];
        assert(0 <= kp[j2] < ids.len() && 0 <= kp[j1] < ids.len());
        assert(v.records.contains_key(ids[kp[j2]]));
        let big = ids.to_set().remove(x);
        assert(ids.contains(y)) by {
            assert(ids[kp[j1]] == y);
        }
        assert(y != x);
        assert(set![y].subset_of(big));
        let c = v.records[x].parent_id;
        assert(!dominated(v, big, c));
        if dominated(v, set![y], c) {
            let fuel = choose|fl: nat| ancestry_ends(v, c, fl);
            lemma_dominated_walk_mono(v, set![y], big, c, fuel);
        }
    }
}

/// Lexicographic order on (depth, position, id) triples.
pub open spec fn triple_le(a: (usize, usize, u64), b: (usize, usize, u64)) -> bool {
    a.0 < b.0 || (a.0 == b.0 && (a.1 < b.1 || (a.1 == b.1 && a.2 <= b.2)))
}

/// Calls `slice::sort_unstable` on (depth, position, id) triples: the result
/// is a permutation of the triples (the same multiset), ordered
/// lexicographically (std's order on tuples).
#[verifier::external_body]
fn sort_triples(v: &mut Vec<(usize, usize, u64)>)
    ensures
        final(v)@.len() == old(v)@.len(),
        final(v)@.to_multiset() == old(v)@.to_multiset(),
        forall|i: int| 0 <= i < final(v)@.len() ==> exists|j: int| 0 <= j < old(v)@.len() && #[trigger] final(v)@[i] == old(v)@[j],
        forall|j: int| 0 <= j < old(v)@.len() ==> exists|i: int| 0 <= i < final(v)@.len() && final(v)@[i] == #[trigger] old(v)@[j],
        forall|i: int, j: int| 0 <= i <= j < final(v)@.len() ==> triple_le(final(v)@[i], final(v)@[j]),
{
    v.sort_unstable()
}

/// Calls `Path::components().count()`: the number of components of a path by
/// the platform's path syntax (which differs between platforms, so nothing is
/// stated of it).
#[verifier::external_body]
fn path_component_count(path: &str) -> (r: usize) {
    std::path::Path::new(path).components().count()
}

impl ClassifierPipeline {
    /// The depth of a record used to order classification: the number of
    /// components of its stored path, or, without one, the number of parent
    /// steps to the root (at most 64).
    fn depth_key(index: &ScanIndex, record: &FileRecord) -> (r: usize)
        ensures
            record.path@.len() == 0 ==> r == steps_from(index@, record.parent_id, 64),
    {
        if !record.path.as_str().is_empty() {
            path_component_count(record.path.as_str())
        } else {
            let ghost v = index@;
            let mut depth: usize = 0;
            let mut curr = record.parent_id;
            while curr != 0 && curr != 5 && depth < 64
                invariant_except_break
                    depth <= 64,
                    depth + steps_from(v, curr, (64 - depth) as nat) == steps_from(v, record.parent_id, 64),
                invariant
                    v == index@,
                ensures
                    depth == steps_from(v, record.parent_id, 64),
                decreases 64 - depth,
            {
                depth = depth + 1;
                match index.get_record(curr) {
                    Some(parent) => {
                        if parent.parent_id == curr {
                            break ;
                        }
                        curr = parent.parent_id;
                    },
                    None => {
                        break ;
                    },
                }
            }
            depth
        }
    }

    /// Evaluates all records of the index at the time `now` and returns the
    /// candidates found.  Records are taken shallowest first, so a candidate
    /// suppresses the candidates below it; the depth of a record with a stored
    /// path is counted by the platform's path syntax, the depth of one without
    /// by its parent steps.  Of the candidates found, those whose record lies
    /// below another candidate's record are then dropped, so no candidate lies
    /// inside another whatever the stored paths say.  Exact for indexes whose
    /// names are plain file names.
    pub fn classify_at(&self, index: &ScanIndex, now: Timestamp) -> (r: Vec<ReclaimCandidate>)
        requires
            classifiable(self.rules@, index@, now),
        ensures
            forall|i: int| 0 <= i < r.len() ==> emitted_candidate(#[trigger] r[i], self.min_size_bytes),
            exists|rids: Seq<u64>| nest_free(index@, r@, rids),
            classified(self.rules@, self.min_size_bytes, index@, now, r@),
    {
        let ghost v = index@;
        let ghost keys = vstd::std_specs::hash::spec_keys_iter(&index.records).remaining();
        proof {
            broadcast use vstd::std_specs::hash::axiom_spec_keys_iter;
        }
        let n = index.records.len();
        let mut keyed: Vec<(usize, usize, u64)> = Vec::new();
        let mut pos: usize = 0;
        for k in it: index.records.keys()
            invariant
                v == index@,
                it.seq() == keys,
                keys.len() == n,
                pos == it.index(),
                keyed.len() == pos,
                forall|j: int| 0 <= j < pos ==> (#[trigger] keyed@[j]).1 == j && keyed@[j].2 == *it.seq()[j],
                forall|j: int|
                    0 <= j < pos && v.records.contains_key((#[trigger] keyed@[j]).2) && v.records[keyed@[j].2].path@.len()
                        == 0 ==> keyed@[j].0 == steps_from(v, v.records[keyed@[j].2].parent_id, 64),
        {
            assert(pos < keys.len());
            let id: u64 = *k;
            match index.get_record(id) {
                Some(record) => {
                    let d = Self::depth_key(index, record);
                    keyed.push((d, pos, id));
                },
                None => {
                    keyed.push((0, pos, id));
                },
            }
            pos = pos + 1;
        }
        assert(keyed@.len() == keys.len());
        let ghost before = keyed@;
        sort_triples(&mut keyed);
        let ghost depths = keyed@.map_values(|t: (usize, usize, u64)| t.0);
        let mut order: Vec<u64> = Vec::new();
        let mut i: usize = 0;
        while i < keyed.len()
            invariant
                i <= keyed.len(),
                order.len() == i,
                forall|j: int| 0 <= j < i ==> order@[j] == (#[trigger] keyed@[j]).2,
            decreases keyed.len() - i,
        {
            order.push(keyed[i].2);
            i = i + 1;
        }
        proof {
            broadcast use vstd::std_specs::hash::axiom_spec_keys_iter;
            assert(keys.unref().no_duplicates()) by {
                assert forall|a: int, b: int| 0 <= a < keys.len() && 0 <= b < keys.len() && a != b implies keys.unref()[a]
                    != keys.unref()[b] by {
                    assert(keys[a] != keys[b]);
                }
            }
            assert forall|j: int| 0 <= j < before.len() implies (#[trigger] before[j]).1 == j && before[j].2
                == keys.unref()[j] by {
                assert(keys.unref()[j] == *keys[j]);
            }
            lemma_sorted_ids_distinct(before, keyed@, keys.unref(), order@);
        }
        let (cands, ids) = self.classify_ordered_with_ids(index, &order, now);
        let ghost s = classify_from(self.rules@, self.min_size_bytes, v, order@, now);
        proof {
            law_found_candidates_match_and_meet_minimum(self.rules@, self.min_size_bytes, v, order@, now);
        }
        let r = Self::keep_outermost(index, &cands, &ids, Ghost(s.found), Ghost(self.min_size_bytes));
        proof {
            let kp = choose|kp: Seq<int>| kept_from(kp, r@, cands@, ids@, v);
            lemma_kept_nest_free(v, r@, cands@, ids@, kp);
        }
        proof {
            broadcast use vstd::std_specs::hash::axiom_spec_keys_iter;
            assert(keys.len() == v.records.dom().len());
            assert forall|i: int| 0 <= i < order@.len() implies v.records.contains_key(#[trigger] order@[i]) by {
                let j = choose|j: int| 0 <= j < before.len() && keyed@[i] == before[j];
                assert(keys.unref()[j] == *keys[j]);
                assert(keys.unref().contains(keys.unref()[j]));
                assert(keys.unref().to_set().contains(*keys[j]));
            }
            assert forall|j: int|
                0 <= j < order@.len() && v.records.contains_key(order@[j]) && v.records[order@[j]].path@.len() == 0
                    implies depths[j] == steps_from(v, v.records[order@[j]].parent_id, 64) by {
                let k = choose|k: int| 0 <= k < before.len() && keyed@[j] == before[k];
                assert(before[k] == keyed@[j]);
                assert(depths[j] == keyed@[j].0);
                assert(before[k].2 == order@[j]);
            }
            assert forall|a: int, b: int| 0 <= a <= b < depths.len() implies depths[a] <= depths[b] by {
                assert(triple_le(keyed@[a], keyed@[b]));
                assert(depths[a] == keyed@[a].0);
                assert(depths[b] == keyed@[b].0);
            }
            assert(depths.len() == order@.len());
            assert(ordered_by_depth(v, order@, depths));
            assert forall|key: u64| v.records.contains_key(key) implies order@.contains(key) by {
                assert(keys.unref().to_set().contains(key));
                let j = choose|j: int| 0 <= j < keys.len() && keys.unref()[j] == key;
                assert(before[j].2 == key);
                let i = choose|i: int| 0 <= i < keyed@.len() && keyed@[i] == before[j];
                assert(order@[i] == key);
            }
            let o = outermost(v, found_ids(s.found), s.found);
            assert(plain_names(v) ==> r.len() == o.len() && forall|i: int|
                0 <= i < r.len() ==> candidate_for(#[trigger] r[i], o[i], v));
            assert(classify_from(self.rules@, self.min_size_bytes, v, order@, now) == s);
            assert(ordered_by_depth(v, order@, depths));
        }
        r
    }

    /// Evaluates all records of the index at the current time, read once from
    /// the clock (`classify_at`); when the clock gives no time, evaluates them
    /// without the Downloads rule, the one rule that reads the time.
    pub fn classify(&self, index: &ScanIndex) -> (r: Vec<ReclaimCandidate>)
        requires
            forall|t: Timestamp| timestamp_in_range(t) ==> classifiable(self.rules@, index@, t),
        ensures
            forall|i: int| 0 <= i < r.len() ==> emitted_candidate(#[trigger] r[i], self.min_size_bytes),
            exists|rids: Seq<u64>| nest_free(index@, r@, rids),
            (exists|now: Timestamp| timestamp_in_range(now) && classified(self.rules@, self.min_size_bytes, index@, now, r@))
                || classified(
                without_rule_named(self.rules@, "Stale Downloaded Installers"@),
                self.min_size_bytes,
                index@,
                Timestamp { unix_nanos: 0 },
                r@,
            ),
    {
        match now_timestamp() {
            Some(now) => self.classify_at(index, now),
            None => {
                let timeless = self.without_downloads();
                let t0 = Timestamp { unix_nanos: 0 };
                proof {
                    assert(timestamp_in_range(t0));
                    assert(classifiable(self.rules@, index@, t0));
                    lemma_without_rule_members(self.rules@, "Stale Downloaded Installers"@);
                    let w = timeless.rules@;
                    assert forall|j: int| 0 <= j < w.len() implies rule_evaluable(#[trigger] w[j]) by {
                        let i = choose|i: int| 0 <= i < self.rules@.len() && self.rules@[i] == w[j];
                        assert(rule_evaluable(self.rules@[i]));
                    }
                    assert forall|k: u64| #[trigger] index@.records.contains_key(k) && index@.records[k].is_dir && (exists|j: int|
                        0 <= j < w.len() && rule_possible(w[j], index@, index@.records[k], t0)) implies subtree_finite(index@, k)
                        && tally_fits(subtree_tally(index@, k)) by {
                        let j = choose|j: int| 0 <= j < w.len() && rule_possible(w[j], index@, index@.records[k], t0);
                        let i = choose|i: int| 0 <= i < self.rules@.len() && self.rules@[i] == w[j];
                        assert(rule_possible(self.rules@[i], index@, index@.records[k], t0));
                    }
                    assert(classifiable(w, index@, t0));
                }
                timeless.classify_at(index, t0)
            },
        }
    }
}

} // verus!
