//! Aggregation of per-kind list results, tolerating per-kind failures.
//!
//! Each resolved (version, kind) pair gets one cluster-wide list call; a
//! call that fails contributes nothing and never aborts the aggregate
//! result. Relative order across kinds is call order; order within a kind
//! is whatever the cluster returned.

use vstd::prelude::*;

use crate::document::GenericObject;

verus! {

/// What one cluster-wide list call over a single resource kind produced:
/// the objects the cluster returned, or a failure (permission, network,
/// server) whose contribution is dropped.
pub enum ListOutcome {
    Listed(Vec<GenericObject>),
    Failed,
}

/// The recorded outcome of listing one (version, kind) pair.
pub struct ListEntry {
    pub version: String,
    pub kind: String,
    pub outcome: ListOutcome,
}

/// The objects an outcome contributes: none when the call failed.
pub open spec fn outcome_items(o: ListOutcome) -> Seq<GenericObject> {
    match o {
        ListOutcome::Listed(v) => v@,
        ListOutcome::Failed => Seq::empty(),
    }
}

/// The concatenation, in call order, of what every outcome contributed.
pub open spec fn spec_aggregate(outcomes: Seq<ListOutcome>) -> Seq<GenericObject>
    decreases outcomes.len(),
{
    if outcomes.len() == 0 {
        Seq::empty()
    } else {
        outcome_items(outcomes[0]) + spec_aggregate(outcomes.skip(1))
    }
}

/// Concatenates the objects of the successful outcomes, in call order,
/// dropping every failed one. Aggregation itself never fails: a failure to
/// list one of several resource kinds never aborts the aggregate result.
pub fn aggregate(outcomes: Vec<ListOutcome>) -> (r: Vec<GenericObject>)
    ensures
        r@ == spec_aggregate(outcomes@),
{
    let ghost orig: Seq<ListOutcome> = outcomes@;
    let mut rest: Vec<ListOutcome> = outcomes;
    let mut r: Vec<GenericObject> = Vec::new();
    while rest.len() > 0
        invariant
            spec_aggregate(orig) == r@ + spec_aggregate(rest@),
        decreases rest.len(),
    {
        let ghost pre: Seq<ListOutcome> = rest@;
        let first: ListOutcome = rest.remove(0);
        proof {
            assert(rest@ =~= pre.skip(1));
        }
        match first {
            ListOutcome::Listed(mut objs) => {
                r.append(&mut objs);
            },
            ListOutcome::Failed => {},
        }
        proof {
            assert(r@ + spec_aggregate(rest@) =~= spec_aggregate(orig));
        }
    }
    proof {
        assert(r@ =~= spec_aggregate(orig));
    }
    r
}

/// The first recorded entry for a (version, kind) pair, if any.
pub open spec fn find_entry(entries: Seq<ListEntry>, ver: Seq<char>, kind: Seq<char>) -> Option<
    ListEntry,
>
    decreases entries.len(),
{
    if entries.len() == 0 {
        None
    } else if entries[0].version@ == ver && entries[0].kind@ == kind {
        Some(entries[0])
    } else {
        find_entry(entries.skip(1), ver, kind)
    }
}

/// What one resolved pair contributes: the items its entry listed, and
/// nothing when the entry failed or is missing.
pub open spec fn items_for(entries: Seq<ListEntry>, gvk: (Seq<char>, Seq<char>)) -> Seq<
    GenericObject,
> {
    match find_entry(entries, gvk.0, gvk.1) {
        Some(e) => outcome_items(e.outcome),
        None => Seq::empty(),
    }
}

/// The aggregate over a resolved sequence of pairs, in resolution order.
pub open spec fn spec_gather(
    entries: Seq<ListEntry>,
    gvks: Seq<(Seq<char>, Seq<char>)>,
) -> Seq<GenericObject>
    decreases gvks.len(),
{
    if gvks.len() == 0 {
        Seq::empty()
    } else {
        items_for(entries, gvks[0]) + spec_gather(entries, gvks.skip(1))
    }
}

proof fn lemma_aggregate_drop_failed(outcomes: Seq<ListOutcome>, i: int)
    requires
        0 <= i < outcomes.len(),
        outcomes[i] is Failed,
    ensures
        spec_aggregate(outcomes.remove(i)) == spec_aggregate(outcomes),
    decreases i,
{
    if i == 0 {
        assert(outcomes.remove(0) =~= outcomes.skip(1));
        assert(outcome_items(outcomes[0]) =~= Seq::<GenericObject>::empty());
        assert(outcome_items(outcomes[0]) + spec_aggregate(outcomes.skip(1)) =~= spec_aggregate(
            outcomes.skip(1),
        ));
    } else {
        assert(outcomes.skip(1)[i - 1] == outcomes[i]);
        lemma_aggregate_drop_failed(outcomes.skip(1), i - 1);
        assert(outcomes.remove(i).skip(1) =~= outcomes.skip(1).remove(i - 1));
        assert(outcomes.remove(i)[0] == outcomes[0]);
        assert(spec_aggregate(outcomes.remove(i)) == outcome_items(outcomes[0]) + spec_aggregate(
            outcomes.remove(i).skip(1),
        ));
        assert(spec_aggregate(outcomes) == outcome_items(outcomes[0]) + spec_aggregate(
            outcomes.skip(1),
        ));
    }
}

/// Law: partial-failure tolerance. When, among at least two per-kind list
/// calls, exactly one fails, the aggregate equals the concatenation of
/// the successful calls' items — and aggregation itself never fails, so
/// the operation goes on.
pub proof fn lemma_partial_failure_tolerated(outcomes: Seq<ListOutcome>, i: int)
    requires
        outcomes.len() >= 2,
        0 <= i < outcomes.len(),
        outcomes[i] is Failed,
        forall|j: int| 0 <= j < outcomes.len() && j != i ==> outcomes[j] is Listed,
    ensures
        spec_aggregate(outcomes) == spec_aggregate(outcomes.remove(i)),
{
    lemma_aggregate_drop_failed(outcomes, i);
}

/// The outcome each resolved pair selects: its entry's outcome, or a
/// failed call when no entry exists for it.
pub open spec fn outcomes_for(
    entries: Seq<ListEntry>,
    gvks: Seq<(Seq<char>, Seq<char>)>,
) -> Seq<ListOutcome> {
    gvks.map_values(
        |g: (Seq<char>, Seq<char>)|
            match find_entry(entries, g.0, g.1) {
                Some(e) => e.outcome,
                None => ListOutcome::Failed,
            },
    )
}

/// Gathering over resolved pairs is exactly the aggregate of the
/// outcomes those pairs select: the facade composes resolution, one list
/// call per pair, and this aggregation.
pub proof fn lemma_gather_is_aggregate(
    entries: Seq<ListEntry>,
    gvks: Seq<(Seq<char>, Seq<char>)>,
)
    ensures
        spec_gather(entries, gvks) == spec_aggregate(outcomes_for(entries, gvks)),
    decreases gvks.len(),
{
    if gvks.len() == 0 {
        assert(outcomes_for(entries, gvks) =~= Seq::<ListOutcome>::empty());
    } else {
        lemma_gather_is_aggregate(entries, gvks.skip(1));
        assert(outcomes_for(entries, gvks).skip(1) =~= outcomes_for(entries, gvks.skip(1)));
        assert(items_for(entries, gvks[0]) =~= outcome_items(outcomes_for(entries, gvks)[0]));
    }
}

/// Splitting a gather at any point splits its result at the same point.
pub proof fn lemma_gather_split(
    entries: Seq<ListEntry>,
    gvks: Seq<(Seq<char>, Seq<char>)>,
    k: int,
)
    requires
        0 <= k <= gvks.len(),
    ensures
        spec_gather(entries, gvks) == spec_gather(entries, gvks.take(k)) + spec_gather(
            entries,
            gvks.skip(k),
        ),
    decreases k,
{
    if k == 0 {
        assert(gvks.skip(0) =~= gvks);
        assert(spec_gather(entries, gvks.take(0)) + spec_gather(entries, gvks) =~= spec_gather(
            entries,
            gvks,
        ));
    } else {
        lemma_gather_split(entries, gvks.skip(1), k - 1);
        assert(gvks.skip(1).take(k - 1) =~= gvks.take(k).skip(1));
        assert(gvks.skip(1).skip(k - 1) =~= gvks.skip(k));
        assert(gvks.take(k)[0] == gvks[0]);
        assert(items_for(entries, gvks[0]) + (spec_gather(entries, gvks.take(k).skip(1))
            + spec_gather(entries, gvks.skip(k))) =~= (items_for(entries, gvks[0])
            + spec_gather(entries, gvks.take(k).skip(1))) + spec_gather(entries, gvks.skip(k)));
    }
}

/// Extending a gather by one pair appends exactly that pair's items.
pub proof fn lemma_gather_snoc(
    entries: Seq<ListEntry>,
    gvks: Seq<(Seq<char>, Seq<char>)>,
    k: int,
)
    requires
        0 <= k < gvks.len(),
    ensures
        spec_gather(entries, gvks.take(k + 1)) == spec_gather(entries, gvks.take(k)) + items_for(
            entries,
            gvks[k],
        ),
{
    lemma_gather_split(entries, gvks.take(k + 1), k);
    assert(gvks.take(k + 1).take(k) =~= gvks.take(k));
    let tail = gvks.take(k + 1).skip(k);
    assert(tail.len() == 1);
    assert(tail[0] == gvks[k]);
    assert(tail.skip(1) =~= Seq::<(Seq<char>, Seq<char>)>::empty());
    assert(spec_gather(entries, tail.skip(1)) =~= Seq::<GenericObject>::empty());
    assert(spec_gather(entries, tail) == items_for(entries, tail[0]) + spec_gather(
        entries,
        tail.skip(1),
    ));
    assert(items_for(entries, gvks[k]) + Seq::<GenericObject>::empty() =~= items_for(
        entries,
        gvks[k],
    ));
}

} // verus!
