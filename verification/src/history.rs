//! The list of recent projects: newest first, at most a dozen entries.
use vstd::prelude::*;

use crate::project::Project;

verus! {

/// The number of recent projects that are kept.
pub const HISTORY_LIMIT: usize = 12;

/// The list cut down to its first `HISTORY_LIMIT` entries.
pub open spec fn capped(history: Seq<Project>) -> Seq<Project> {
    if history.len() <= HISTORY_LIMIT {
        history
    } else {
        history.take(HISTORY_LIMIT as int)
    }
}

/// Every entry is at least as recent as the entries after it.
pub open spec fn newest_first(history: Seq<Project>) -> bool {
    forall|i: int, j: int|
        0 <= i < j < history.len() ==> history[i].updated_at >= history[j].updated_at
}

/// `sorted` with `project` placed after every entry that is at least as recent.
pub open spec fn insert_by_recency(sorted: Seq<Project>, project: Project) -> Seq<Project>
    decreases sorted.len(),
{
    if sorted.len() == 0 {
        seq![project]
    } else if sorted[0].updated_at < project.updated_at {
        seq![project] + sorted
    } else {
        seq![sorted[0]] + insert_by_recency(sorted.drop_first(), project)
    }
}

/// The stable ordering of `history` from the most to the least recently changed:
/// entries changed at the same time keep their relative order.
pub open spec fn order_by_recency(history: Seq<Project>) -> Seq<Project>
    decreases history.len(),
{
    if history.len() == 0 {
        history
    } else {
        insert_by_recency(order_by_recency(history.drop_last()), history.last())
    }
}

/// Some entry of the list carries the identifier `id`.
pub open spec fn has_id(history: Seq<Project>, id: Seq<char>) -> bool {
    exists|i: int| 0 <= i < history.len() && history[i].id@ == id
}

/// The position of the first entry that carries the identifier `id`.
pub open spec fn first_index_of(history: Seq<Project>, id: Seq<char>) -> int {
    choose|i: int|
        0 <= i < history.len() && history[i].id@ == id && forall|j: int|
            0 <= j < i ==> history[j].id@ != id
}

/// The list after `project` has been changed: it takes the place of the first entry
/// with its identifier, or goes in front when there is none.
pub open spec fn replace_or_prepend(history: Seq<Project>, project: Project) -> Seq<Project> {
    if has_id(history, project.id@) {
        history.update(first_index_of(history, project.id@), project)
    } else {
        seq![project] + history
    }
}

/// The list after a newly imported project has been added in front.
pub open spec fn with_new_project(history: Seq<Project>, project: Project) -> Seq<Project> {
    capped(seq![project] + history)
}

/// The list after `project` has been changed: replaced or prepended, ordered from
/// the most recent change, and capped.
pub open spec fn with_changed_project(history: Seq<Project>, project: Project) -> Seq<Project> {
    capped(order_by_recency(replace_or_prepend(history, project)))
}

/// Whether an entry does not carry the identifier `id`.
pub open spec fn lacks_id(id: Seq<char>) -> spec_fn(Project) -> bool {
    |p: Project| p.id@ != id
}

/// The list without the entries that carry the identifier `id`.
pub open spec fn without_id(history: Seq<Project>, id: Seq<char>) -> Seq<Project> {
    history.filter(lacks_id(id))
}

/// The first entry with a key below `stamp` is at `k`; `k` is the length when there is none.
pub open spec fn is_insertion_point(sorted: Seq<Project>, stamp: u64, k: int) -> bool {
    &&& 0 <= k <= sorted.len()
    &&& forall|j: int| 0 <= j < k ==> sorted[j].updated_at >= stamp
    &&& k < sorted.len() ==> sorted[k].updated_at < stamp
}

proof fn lemma_insert_at_point(sorted: Seq<Project>, project: Project, k: int)
    requires
        is_insertion_point(sorted, project.updated_at, k),
    ensures
        insert_by_recency(sorted, project) == sorted.insert(k, project),
    decreases sorted.len(),
{
    if sorted.len() == 0 {
        assert(sorted.insert(k, project) =~= seq![project]);
    } else if sorted[0].updated_at < project.updated_at {
        assert(k == 0);
        assert(sorted.insert(k, project) =~= seq![project] + sorted);
    } else {
        let rest = sorted.drop_first();
        assert(is_insertion_point(rest, project.updated_at, k - 1));
        lemma_insert_at_point(rest, project, k - 1);
        assert(sorted.insert(k, project) =~= seq![sorted[0]] + rest.insert(k - 1, project));
    }
}

/// Inserting by recency keeps every entry and adds `project`; the result stays newest
/// first when `sorted` was.
pub proof fn lemma_insert_by_recency(sorted: Seq<Project>, project: Project)
    ensures
        insert_by_recency(sorted, project).len() == sorted.len() + 1,
        insert_by_recency(sorted, project).to_multiset() =~= sorted.to_multiset().insert(project),
        forall|i: int|
            0 <= i < insert_by_recency(sorted, project).len() ==> #[trigger] insert_by_recency(
                sorted,
                project,
            )[i] == project || sorted.contains(insert_by_recency(sorted, project)[i]),
        newest_first(sorted) ==> newest_first(insert_by_recency(sorted, project)),
    decreases sorted.len(),
{
    broadcast use vstd::seq_lib::group_to_multiset_ensures;
    broadcast use vstd::multiset::group_multiset_axioms;

    let result = insert_by_recency(sorted, project);
    if sorted.len() == 0 {
        assert(seq![project] =~= sorted.push(project));
    } else if sorted[0].updated_at < project.updated_at {
        vstd::seq_lib::lemma_multiset_commutative(seq![project], sorted);
        assert(seq![project] =~= Seq::<Project>::empty().push(project));
        assert(result.to_multiset() =~= sorted.to_multiset().insert(project));
        assert forall|i: int| 0 <= i < result.len() implies #[trigger] result[i] == project
            || sorted.contains(result[i]) by {
            if i > 0 {
                assert(result[i] == sorted[i - 1]);
            }
        }
    } else {
        let first = sorted[0];
        let rest = sorted.drop_first();
        let inner = insert_by_recency(rest, project);
        lemma_insert_by_recency(rest, project);
        assert(sorted =~= seq![first] + rest);
        vstd::seq_lib::lemma_multiset_commutative(seq![first], rest);
        vstd::seq_lib::lemma_multiset_commutative(seq![first], inner);
        assert(result.to_multiset() =~= sorted.to_multiset().insert(project));
        assert forall|i: int| 0 <= i < result.len() implies #[trigger] result[i] == project
            || sorted.contains(result[i]) by {
            if i > 0 {
                assert(result[i] == inner[i - 1]);
                if inner[i - 1] != project {
                    let j = choose|j: int| 0 <= j < rest.len() && rest[j] == inner[i - 1];
                    assert(sorted[j + 1] == rest[j]);
                }
            } else {
                assert(sorted[0] == first);
            }
        }
        if newest_first(sorted) {
            assert(newest_first(rest));
            assert forall|i: int, j: int| 0 <= i < j < result.len() implies result[i].updated_at
                >= result[j].updated_at by {
                if i == 0 {
                    let e = inner[j - 1];
                    if e != project {
                        let k = choose|k: int| 0 <= k < rest.len() && rest[k] == e;
                        assert(sorted[k + 1] == e);
                    }
                } else {
                    assert(result[i] == inner[i - 1]);
                    assert(result[j] == inner[j - 1]);
                }
            }
        }
    }
}

/// Ordering by recency keeps exactly the same entries and puts them newest first.
pub proof fn lemma_order_by_recency(history: Seq<Project>)
    ensures
        order_by_recency(history).len() == history.len(),
        order_by_recency(history).to_multiset() =~= history.to_multiset(),
        newest_first(order_by_recency(history)),
    decreases history.len(),
{
    broadcast use vstd::seq_lib::group_to_multiset_ensures;

    if history.len() > 0 {
        let front = history.drop_last();
        lemma_order_by_recency(front);
        lemma_insert_by_recency(order_by_recency(front), history.last());
        assert(history =~= front.push(history.last()));
    }
}

/// No two entries carry the same identifier.
pub open spec fn distinct_ids(history: Seq<Project>) -> bool {
    forall|i: int, j: int| 0 <= i < j < history.len() ==> history[i].id@ != history[j].id@
}

/// Inserting a project whose identifier is new keeps the identifiers distinct.
pub proof fn lemma_insert_by_recency_distinct(sorted: Seq<Project>, project: Project)
    requires
        distinct_ids(sorted),
        !has_id(sorted, project.id@),
    ensures
        distinct_ids(insert_by_recency(sorted, project)),
    decreases sorted.len(),
{
    let result = insert_by_recency(sorted, project);
    lemma_insert_by_recency(sorted, project);
    if sorted.len() == 0 {
    } else if sorted[0].updated_at < project.updated_at {
        assert forall|i: int, j: int| 0 <= i < j < result.len() implies result[i].id@
            != result[j].id@ by {
            if i == 0 {
                assert(result[j] == sorted[j - 1]);
            } else {
                assert(result[i] == sorted[i - 1]);
                assert(result[j] == sorted[j - 1]);
            }
        }
    } else {
        let first = sorted[0];
        let rest = sorted.drop_first();
        let inner = insert_by_recency(rest, project);
        assert(!has_id(rest, project.id@)) by {
            if has_id(rest, project.id@) {
                let k = choose|k: int| 0 <= k < rest.len() && rest[k].id@ == project.id@;
                assert(sorted[k + 1] == rest[k]);
            }
        }
        assert(distinct_ids(rest)) by {
            assert forall|i: int, j: int| 0 <= i < j < rest.len() implies rest[i].id@
                != rest[j].id@ by {
                assert(rest[i] == sorted[i + 1]);
                assert(rest[j] == sorted[j + 1]);
            }
        }
        lemma_insert_by_recency_distinct(rest, project);
        lemma_insert_by_recency(rest, project);
        assert forall|i: int, j: int| 0 <= i < j < result.len() implies result[i].id@
            != result[j].id@ by {
            assert(result[j] == inner[j - 1]);
            if i == 0 {
                let e = inner[j - 1];
                if e == project {
                    assert(sorted[0].id@ != project.id@);
                } else {
                    let k = choose|k: int| 0 <= k < rest.len() && rest[k] == e;
                    assert(sorted[k + 1] == e);
                }
            } else {
                assert(result[i] == inner[i - 1]);
            }
        }
    }
}

/// Every entry of the ordered list comes from the list, and distinct identifiers stay
/// distinct.
pub proof fn lemma_order_by_recency_members(history: Seq<Project>)
    ensures
        forall|i: int|
            0 <= i < order_by_recency(history).len() ==> history.contains(
                #[trigger] order_by_recency(history)[i],
            ),
        distinct_ids(history) ==> distinct_ids(order_by_recency(history)),
    decreases history.len(),
{
    lemma_order_by_recency(history);
    if history.len() > 0 {
        let front = history.drop_last();
        let last = history.last();
        let ordered_front = order_by_recency(front);
        let result = order_by_recency(history);
        lemma_order_by_recency_members(front);
        lemma_order_by_recency(front);
        lemma_insert_by_recency(ordered_front, last);
        assert forall|i: int| 0 <= i < result.len() implies history.contains(#[trigger] result[i]) by {
            if result[i] == last {
                assert(history[history.len() - 1] == last);
            } else {
                assert(ordered_front.contains(result[i]));
                let k = choose|k: int| 0 <= k < ordered_front.len() && ordered_front[k] == result[i];
                assert(front.contains(ordered_front[k]));
                let m = choose|m: int| 0 <= m < front.len() && front[m] == result[i];
                assert(history[m] == front[m]);
            }
        }
        if distinct_ids(history) {
            assert(distinct_ids(front)) by {
                assert forall|i: int, j: int| 0 <= i < j < front.len() implies front[i].id@
                    != front[j].id@ by {
                    assert(front[i] == history[i]);
                    assert(front[j] == history[j]);
                }
            }
            assert(!has_id(ordered_front, last.id@)) by {
                if has_id(ordered_front, last.id@) {
                    let k = choose|k: int|
                        0 <= k < ordered_front.len() && ordered_front[k].id@ == last.id@;
                    assert(front.contains(ordered_front[k]));
                    let m = choose|m: int| 0 <= m < front.len() && front[m] == ordered_front[k];
                    assert(history[m] == front[m]);
                }
            }
            lemma_insert_by_recency_distinct(ordered_front, last);
        }
    }
}

/// Removing the entries with an identifier keeps the rest in their order: every kept
/// entry comes from the list, and the list stays newest first with distinct identifiers.
pub proof fn lemma_without_id(history: Seq<Project>, id: Seq<char>)
    ensures
        forall|i: int|
            0 <= i < without_id(history, id).len() ==> history.contains(
                #[trigger] without_id(history, id)[i],
            ),
        newest_first(history) ==> newest_first(without_id(history, id)),
        distinct_ids(history) ==> distinct_ids(without_id(history, id)),
    decreases history.len(),
{
    reveal_with_fuel(Seq::<_>::filter, 1);
    if history.len() > 0 {
        let front = history.drop_last();
        let last = history.last();
        let kept_front = without_id(front, id);
        let kept = without_id(history, id);
        lemma_without_id(front, id);
        assert(kept == if lacks_id(id)(last) {
            kept_front.push(last)
        } else {
            kept_front
        });
        assert forall|i: int| 0 <= i < kept.len() implies history.contains(#[trigger] kept[i]) by {
            if i < kept_front.len() {
                assert(kept[i] == kept_front[i]);
                assert(front.contains(kept_front[i]));
                let m = choose|m: int| 0 <= m < front.len() && front[m] == kept_front[i];
                assert(history[m] == front[m]);
            } else {
                assert(history[history.len() - 1] == last);
            }
        }
        if newest_first(history) {
            assert(newest_first(front));
        }
        if distinct_ids(history) {
            assert(distinct_ids(front)) by {
                assert forall|i: int, j: int| 0 <= i < j < front.len() implies front[i].id@
                    != front[j].id@ by {
                    assert(front[i] == history[i]);
                    assert(front[j] == history[j]);
                }
            }
        }
        if lacks_id(id)(last) {
            assert forall|i: int| 0 <= i < kept_front.len() implies (newest_first(history)
                ==> kept_front[i].updated_at >= last.updated_at) && (distinct_ids(history)
                ==> kept_front[i].id@ != last.id@) by {
                assert(front.contains(kept_front[i]));
                let m = choose|m: int| 0 <= m < front.len() && front[m] == kept_front[i];
                assert(history[m] == front[m]);
            }
            if newest_first(history) {
                assert forall|i: int, j: int| 0 <= i < j < kept.len() implies kept[i].updated_at
                    >= kept[j].updated_at by {
                    assert(kept[i] == kept_front[i]);
                    if j < kept_front.len() {
                        assert(kept[j] == kept_front[j]);
                    }
                }
            }
            if distinct_ids(history) {
                assert forall|i: int, j: int| 0 <= i < j < kept.len() implies kept[i].id@
                    != kept[j].id@ by {
                    assert(kept[i] == kept_front[i]);
                    if j < kept_front.len() {
                        assert(kept[j] == kept_front[j]);
                    }
                }
            }
        }
    }
}

fn insertion_point(sorted: &Vec<Project>, stamp: u64) -> (k: usize)
    ensures
        is_insertion_point(sorted@, stamp, k as int),
{
    let mut k: usize = 0;
    while k < sorted.len()
        invariant
            k <= sorted@.len(),
            forall|j: int| 0 <= j < k ==> sorted@[j].updated_at >= stamp,
        decreases sorted@.len() - k,
    {
        if sorted[k].updated_at < stamp {
            return k;
        }
        k = k + 1;
    }
    k
}

/// Orders the projects from the most to the least recently changed; projects changed
/// at the same time keep their relative order.
pub fn sort_by_recency(projects: Vec<Project>) -> (sorted: Vec<Project>)
    ensures
        sorted@ == order_by_recency(projects@),
{
    let ghost original = projects@;
    let mut rest = projects;
    let mut sorted: Vec<Project> = Vec::new();
    let mut i: usize = 0;
    assert(original.len() == rest.len());
    while rest.len() > 0
        invariant
            i <= original.len(),
            original.len() <= usize::MAX,
            rest@ == original.skip(i as int),
            sorted@ == order_by_recency(original.take(i as int)),
        decreases rest@.len(),
    {
        assert(rest@.len() == original.len() - i);
        let project = rest.remove(0);
        assert(project == original[i as int]);
        let k = insertion_point(&sorted, project.updated_at);
        proof {
            lemma_insert_at_point(sorted@, project, k as int);
            assert(original.take(i + 1).drop_last() =~= original.take(i as int));
            assert(original.take(i + 1).last() == project);
        }
        sorted.insert(k, project);
        i = i + 1;
        assert(rest@ =~= original.skip(i as int));
    }
    assert(original.take(i as int) =~= original);
    sorted
}

/// Adds a newly imported project in front of the list and keeps the first dozen.
pub fn add_new_project(history: Vec<Project>, project: Project) -> (updated: Vec<Project>)
    ensures
        updated@ == with_new_project(history@, project),
{
    let mut updated = history;
    updated.insert(0, project);
    updated.truncate(HISTORY_LIMIT);
    updated
}

/// The position of the first project with the identifier `id`, if there is one.
pub fn position_of_id(history: &Vec<Project>, id: &String) -> (found: Option<usize>)
    ensures
        found is None <==> !has_id(history@, id@),
        found matches Some(i) ==> i == first_index_of(history@, id@) && i < history@.len()
            && history@[i as int].id@ == id@,
{
    let mut i: usize = 0;
    while i < history.len()
        invariant
            i <= history@.len(),
            forall|j: int| 0 <= j < i ==> history@[j].id@ != id@,
        decreases history@.len() - i,
    {
        if history[i].id == *id {
            let ghost chosen = first_index_of(history@, id@);
            assert(history@[i as int].id@ == id@);
            assert(0 <= chosen < history@.len() && history@[chosen].id@ == id@);
            assert(chosen == i) by {
                if chosen < i {
                } else if chosen > i {
                    assert(history@[i as int].id@ != id@);
                }
            }
            return Some(i);
        }
        i = i + 1;
    }
    None
}

/// Records a change of `project`: it replaces the first entry with its identifier, or
/// goes in front when there is none; the list is then ordered from the most recent
/// change and cut down to a dozen entries.
pub fn record_change(history: Vec<Project>, project: Project) -> (updated: Vec<Project>)
    ensures
        updated@ == with_changed_project(history@, project),
{
    let mut next = history;
    let ghost before = next@;
    match position_of_id(&next, &project.id) {
        Some(i) => {
            next.set(i, project);
        },
        None => {
            next.insert(0, project);
            assert(next@ =~= seq![project] + before);
        },
    }
    assert(next@ == replace_or_prepend(before, project));
    let mut sorted = sort_by_recency(next);
    sorted.truncate(HISTORY_LIMIT);
    sorted
}

/// The list without the projects that carry the identifier `id`, in their order.
pub fn remove_id(history: Vec<Project>, id: &String) -> (kept: Vec<Project>)
    ensures
        kept@ == without_id(history@, id@),
{
    let ghost original = history@;
    let mut rest = history;
    let mut kept: Vec<Project> = Vec::new();
    let mut i: usize = 0;
    assert(original.len() == rest.len());
    while rest.len() > 0
        invariant
            i <= original.len(),
            original.len() <= usize::MAX,
            rest@ == original.skip(i as int),
            kept@ == original.take(i as int).filter(lacks_id(id@)),
        decreases rest@.len(),
    {
        assert(rest@.len() == original.len() - i);
        let project = rest.remove(0);
        proof {
            reveal_with_fuel(Seq::<_>::filter, 1);
            assert(original.take(i + 1).drop_last() =~= original.take(i as int));
            assert(original.take(i + 1).last() == project);
        }
        let ghost before = kept@;
        let keep_it = !(project.id == *id);
        assert(keep_it == (project.id@ != id@));
        assert(lacks_id(id@)(project) == (project.id@ != id@));
        if keep_it {
            kept.push(project);
        }
        proof {
            reveal_with_fuel(Seq::<_>::filter, 1);
            let grown = original.take(i + 1);
            assert(grown.filter(lacks_id(id@)) == if lacks_id(id@)(grown.last()) {
                grown.drop_last().filter(lacks_id(id@)).push(grown.last())
            } else {
                grown.drop_last().filter(lacks_id(id@))
            });
        }
        i = i + 1;
        assert(rest@ =~= original.skip(i as int));
    }
    assert(original.take(i as int) =~= original);
    kept
}

} // verus!
