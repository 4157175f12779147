//! Which inactive runs are kept, and which of them is reported.
use vstd::prelude::*;

#[allow(unused_imports)]
use crate::diagnostics::record::ExitRecordView;
use crate::diagnostics::record::{ExitRecord, ExitStatus};
use crate::text::text_before;
#[allow(unused_imports)]
use crate::text::{precedes_text, precedes_text_irreflexive, precedes_text_total, precedes_text_transitive};

verus! {

/// Clean and failed runs are each kept up to this number.
pub const MAX_INACTIVE_RUNS_PER_CLASS: usize = 5;

/// Record `a` is newer than record `b`: it ended later, or at the same time
/// with the greater run identifier.
pub open spec fn newer(a: ExitRecordView, b: ExitRecordView) -> bool {
    ||| a.ended_at_unix_ms > b.ended_at_unix_ms
    ||| a.ended_at_unix_ms == b.ended_at_unix_ms && precedes_text(b.run_id, a.run_id)
}

/// Run `i` comes before run `j`, newest first; runs that tie keep their order.
pub open spec fn comes_before(runs: Seq<ExitRecord>, i: int, j: int) -> bool {
    ||| newer(runs[i]@, runs[j]@)
    ||| !newer(runs[j]@, runs[i]@) && i < j
}

pub open spec fn same_class(a: ExitRecord, b: ExitRecord) -> bool {
    (a.status == ExitStatus::Clean) == (b.status == ExitStatus::Clean)
}

/// How many of the first `n` runs are of the class of run `i` and come before it.
pub open spec fn ahead_in_class(runs: Seq<ExitRecord>, i: int, n: nat) -> nat
    decreases n,
{
    if n == 0 {
        0
    } else {
        ahead_in_class(runs, i, (n - 1) as nat) + if same_class(runs[n - 1], runs[i])
            && comes_before(runs, n - 1, i) {
            1nat
        } else {
            0nat
        }
    }
}

/// Run `i` is kept: fewer than the quota of its class come before it.
pub open spec fn retained(runs: Seq<ExitRecord>, i: int) -> bool {
    ahead_in_class(runs, i, runs.len()) < MAX_INACTIVE_RUNS_PER_CLASS
}

/// Run `i` is the one to report: the newest that did not end cleanly, or the
/// newest of all where every run ended cleanly.
pub open spec fn reported(runs: Seq<ExitRecord>, i: int) -> bool {
    &&& 0 <= i < runs.len()
    &&& if runs[i].status != ExitStatus::Clean {
        forall|j: int|
            0 <= j < runs.len() && j != i && runs[j].status != ExitStatus::Clean
                ==> #[trigger] comes_before(runs, i, j)
    } else {
        forall|j: int|
            0 <= j < runs.len() && j != i ==> {
                &&& (#[trigger] runs[j]).status == ExitStatus::Clean
                &&& comes_before(runs, i, j)
            }
    }
}

/// The outcome of looking through the inactive runs.
pub struct Retention {
    /// The run to report at this start.
    pub previous: Option<usize>,
    /// The runs to delete, newest first.
    pub removed: Vec<usize>,
}

proof fn newer_irreflexive(a: ExitRecordView)
    ensures
        !newer(a, a),
{
    precedes_text_irreflexive(a.run_id);
}

proof fn newer_transitive(a: ExitRecordView, b: ExitRecordView, c: ExitRecordView)
    requires
        newer(a, b),
        newer(b, c),
    ensures
        newer(a, c),
{
    if a.ended_at_unix_ms == b.ended_at_unix_ms && b.ended_at_unix_ms == c.ended_at_unix_ms {
        precedes_text_transitive(c.run_id, b.run_id, a.run_id);
    }
}

/// Records of which neither is newer are interchangeable in the order.
proof fn newer_weak(a: ExitRecordView, b: ExitRecordView, c: ExitRecordView)
    requires
        !newer(a, b),
        !newer(b, c),
    ensures
        !newer(a, c),
{
    if newer(a, c) {
        precedes_text_total(a.run_id, b.run_id);
        precedes_text_total(b.run_id, c.run_id);
        if newer(b, a) {
            newer_transitive(b, a, c);
        } else if newer(c, b) {
            newer_transitive(a, c, b);
        } else {
            assert(a.run_id == b.run_id && b.run_id == c.run_id);
            precedes_text_irreflexive(a.run_id);
        }
    }
}

/// The order of runs is strict and total: of two different runs exactly one
/// comes before the other, and what comes before is passed on.
pub proof fn order_is_total(runs: Seq<ExitRecord>, i: int, j: int)
    requires
        0 <= i < runs.len(),
        0 <= j < runs.len(),
        i != j,
    ensures
        comes_before(runs, i, j) != comes_before(runs, j, i),
        !comes_before(runs, i, i),
{
    newer_irreflexive(runs[i]@);
    if newer(runs[i]@, runs[j]@) && newer(runs[j]@, runs[i]@) {
        newer_transitive(runs[i]@, runs[j]@, runs[i]@);
    }
}

pub proof fn order_is_transitive(runs: Seq<ExitRecord>, i: int, j: int, k: int)
    requires
        0 <= i < runs.len(),
        0 <= j < runs.len(),
        0 <= k < runs.len(),
        comes_before(runs, i, j),
        comes_before(runs, j, k),
    ensures
        comes_before(runs, i, k),
{
    let (a, b, c) = (runs[i]@, runs[j]@, runs[k]@);
    newer_irreflexive(a);
    newer_irreflexive(b);
    if newer(a, b) && newer(b, a) {
        newer_transitive(a, b, a);
    }
    if newer(b, c) && newer(c, b) {
        newer_transitive(b, c, b);
    }
    newer_weak(c, b, a);
    if !newer(a, c) {
        if newer(a, b) {
            newer_weak(a, c, b);
        } else if newer(b, c) {
            newer_weak(b, a, c);
        }
    }
}

fn is_clean(record: &ExitRecord) -> (clean: bool)
    ensures
        clean == (record.status == ExitStatus::Clean),
{
    match record.status {
        ExitStatus::Clean => true,
        _ => false,
    }
}

fn is_newer(a: &ExitRecord, b: &ExitRecord) -> (result: bool)
    ensures
        result == newer(a@, b@),
{
    a.ended_at_unix_ms > b.ended_at_unix_ms || (a.ended_at_unix_ms == b.ended_at_unix_ms
        && text_before(b.run_id.as_str(), a.run_id.as_str()))
}

fn is_before(runs: &Vec<ExitRecord>, i: usize, j: usize) -> (result: bool)
    requires
        i < runs.len(),
        j < runs.len(),
    ensures
        result == comes_before(runs@, i as int, j as int),
{
    is_newer(&runs[i], &runs[j]) || (!is_newer(&runs[j], &runs[i]) && i < j)
}

/// The runs from the newest to the oldest.
pub fn newest_first(runs: &Vec<ExitRecord>) -> (order: Vec<usize>)
    ensures
        order@.len() == runs@.len(),
        forall|p: int| 0 <= p < order@.len() ==> (#[trigger] order@[p]) < runs@.len(),
        forall|i: usize| i < runs@.len() ==> #[trigger] order@.contains(i),
        forall|p: int, q: int|
            0 <= p < q < order@.len() ==> comes_before(
                runs@,
                #[trigger] order@[p] as int,
                #[trigger] order@[q] as int,
            ),
{
    let mut order: Vec<usize> = Vec::new();
    let mut next: usize = 0;
    while next < runs.len()
        invariant
            next <= runs@.len(),
            order@.len() == next,
            forall|p: int| 0 <= p < order@.len() ==> (#[trigger] order@[p]) < next,
            forall|i: usize| i < next ==> #[trigger] order@.contains(i),
            forall|p: int, q: int|
                0 <= p < q < order@.len() ==> comes_before(
                    runs@,
                    #[trigger] order@[p] as int,
                    #[trigger] order@[q] as int,
                ),
        decreases runs@.len() - next,
    {
        let mut place: usize = 0;
        while place < order.len() && is_before(runs, order[place], next)
            invariant
                next < runs@.len(),
                place <= order@.len(),
                forall|p: int| 0 <= p < order@.len() ==> (#[trigger] order@[p]) < next,
                forall|p: int|
                    0 <= p < place ==> comes_before(runs@, #[trigger] order@[p] as int, next as int),
            ensures
                place < order@.len() ==> !comes_before(runs@, order@[place as int] as int, next as int),
            decreases order@.len() - place,
        {
            place = place + 1;
        }
        let ghost before = order@;
        order.insert(place, next);
        proof {
            assert(order@ == before.insert(place as int, next));
            assert forall|i: usize| i < next + 1 implies #[trigger] order@.contains(i) by {
                if i == next {
                    assert(order@[place as int] == i);
                } else {
                    assert(before.contains(i));
                    let p = before.index_of(i);
                    assert(order@[if p < place { p } else { p + 1 }] == i);
                }
            }
            if place < before.len() {
                order_is_total(runs@, before[place as int] as int, next as int);
            }
            assert forall|p: int, q: int| 0 <= p < q < order@.len() implies comes_before(
                runs@,
                #[trigger] order@[p] as int,
                #[trigger] order@[q] as int,
            ) by {
                if p == place {
                    assert(order@[q] == before[q - 1]);
                    if q - 1 > place {
                        order_is_transitive(
                            runs@,
                            next as int,
                            before[place as int] as int,
                            before[q - 1] as int,
                        );
                    }
                } else if q == place {
                    assert(order@[p] == before[p]);
                } else {
                    let pp = if p < place { p } else { p - 1 };
                    let qq = if q < place { q } else { q - 1 };
                    assert(order@[p] == before[pp] && order@[q] == before[qq]);
                }
            }
        }
        next = next + 1;
    }
    order
}

fn runs_ahead(runs: &Vec<ExitRecord>, i: usize) -> (count: usize)
    requires
        i < runs.len(),
    ensures
        count == ahead_in_class(runs@, i as int, runs@.len()),
{
    let mut count: usize = 0;
    let mut n: usize = 0;
    while n < runs.len()
        invariant
            i < runs@.len(),
            count <= n <= runs@.len(),
            count == ahead_in_class(runs@, i as int, n as nat),
        decreases runs@.len() - n,
    {
        if is_clean(&runs[n]) == is_clean(&runs[i]) && is_before(runs, n, i) {
            count = count + 1;
        }
        n = n + 1;
    }
    count
}

/// Picks the inactive run to report and the ones to delete. Clean and failed
/// runs have quotas of their own, so that clean runs cannot displace the
/// evidence of a failure.
pub fn scan_and_prune(runs: &Vec<ExitRecord>) -> (outcome: Retention)
    ensures
        match outcome.previous {
            Some(i) => reported(runs@, i as int),
            None => runs@.len() == 0,
        },
        forall|i: usize| #[trigger]
            outcome.removed@.contains(i) <==> i < runs@.len() && !retained(runs@, i as int),
        forall|p: int, q: int|
            0 <= p < q < outcome.removed@.len() ==> comes_before(
                runs@,
                #[trigger] outcome.removed@[p] as int,
                #[trigger] outcome.removed@[q] as int,
            ),
{
    let order = newest_first(runs);
    let mut previous: Option<usize> = None;
    let mut removed: Vec<usize> = Vec::new();
    let mut p: usize = 0;
    while p < order.len()
        invariant
            p <= order@.len() == runs@.len(),
            forall|q: int| 0 <= q < order@.len() ==> (#[trigger] order@[q]) < runs@.len(),
            forall|q: int, r: int|
                0 <= q < r < order@.len() ==> comes_before(
                    runs@,
                    #[trigger] order@[q] as int,
                    #[trigger] order@[r] as int,
                ),
            match previous {
                Some(i) => exists|q: int|
                    {
                        &&& 0 <= q < p
                        &&& order@[q] == i
                        &&& runs@[i as int].status != ExitStatus::Clean
                        &&& forall|r: int|
                            0 <= r < q ==> runs@[(#[trigger] order@[r]) as int].status
                                == ExitStatus::Clean
                    },
                None => forall|r: int|
                    0 <= r < p ==> runs@[(#[trigger] order@[r]) as int].status
                        == ExitStatus::Clean,
            },
            forall|q: int|
                0 <= q < removed@.len() ==> exists|r: int|
                    0 <= r < p && order@[r] == #[trigger] removed@[q],
            forall|q: int| 0 <= q < removed@.len() ==> !retained(runs@, (#[trigger] removed@[q]) as int),
            forall|r: int|
                0 <= r < p && !retained(runs@, (#[trigger] order@[r]) as int) ==> removed@.contains(
                    order@[r],
                ),
            forall|q: int, r: int|
                0 <= q < r < removed@.len() ==> comes_before(
                    runs@,
                    #[trigger] removed@[q] as int,
                    #[trigger] removed@[r] as int,
                ),
        decreases order@.len() - p,
    {
        let i: usize = order[p];
        if previous.is_none() && !is_clean(&runs[i]) {
            previous = Some(i);
            assert(order@[p as int] == i);
        }
        if runs_ahead(runs, i) >= MAX_INACTIVE_RUNS_PER_CLASS {
            let ghost earlier = removed@;
            removed.push(i);
            proof {
                assert(removed@[earlier.len() as int] == i);
                assert forall|r: int|
                    0 <= r < p + 1 && !retained(
                        runs@,
                        (#[trigger] order@[r]) as int,
                    ) implies removed@.contains(order@[r]) by {
                    if r < p {
                        assert(earlier.contains(order@[r]));
                        let q = earlier.index_of(order@[r]);
                        assert(removed@[q] == order@[r]);
                    }
                }
            }
        }
        p = p + 1;
    }
    if previous.is_none() && order.len() > 0 {
        previous = Some(order[0]);
    }
    proof {
        if previous is Some {
            let i = previous->Some_0 as int;
            let q = choose|q: int|
                {
                    &&& 0 <= q < order@.len()
                    &&& order@[q] == i
                    &&& runs@[i].status != ExitStatus::Clean ==> forall|r: int|
                        0 <= r < q ==> runs@[(#[trigger] order@[r]) as int].status
                            == ExitStatus::Clean
                    &&& runs@[i].status == ExitStatus::Clean ==> q == 0
                };
            assert forall|j: int| 0 <= j < runs@.len() && j != i implies {
                ||| comes_before(runs@, i, j)
                ||| runs@[i].status != ExitStatus::Clean && runs@[j].status == ExitStatus::Clean
            } by {
                assert(order@.contains(j as usize));
                let r = order@.index_of(j as usize);
                assert(order@[q] == i && order@[r] == j);
            }
            assert forall|j: int| 0 <= j < runs@.len() implies runs@[i].status
                != ExitStatus::Clean || (#[trigger] runs@[j]).status == ExitStatus::Clean by {
                assert(order@.contains(j as usize));
            }
        }
        assert forall|i: usize| #[trigger]
            removed@.contains(i) <==> i < runs@.len() && !retained(runs@, i as int) by {
            if i < runs@.len() && !retained(runs@, i as int) {
                assert(order@.contains(i));
                let r = order@.index_of(i);
                assert(order@[r] == i);
            }
        }
    }
    Retention { previous, removed }
}

proof fn ahead_grows(runs: Seq<ExitRecord>, i: int, j: int, n: nat)
    requires
        0 <= i < runs.len(),
        0 <= j < runs.len(),
        n <= runs.len(),
        same_class(runs[i], runs[j]),
        comes_before(runs, i, j),
    ensures
        ahead_in_class(runs, i, n) + (if i < n {
            1nat
        } else {
            0nat
        }) <= ahead_in_class(runs, j, n),
    decreases n,
{
    if n > 0 {
        ahead_grows(runs, i, j, (n - 1) as nat);
        if n - 1 != i {
            order_is_total(runs, n - 1, i);
            if comes_before(runs, n - 1, i) {
                order_is_transitive(runs, n - 1, i, j);
            }
        } else {
            newer_irreflexive(runs[i]@);
        }
    }
}

proof fn none_ahead(runs: Seq<ExitRecord>, i: int, n: nat)
    requires
        0 <= i < runs.len(),
        n <= runs.len(),
        forall|j: int|
            0 <= j < runs.len() && j != i && same_class(runs[j], runs[i]) ==> #[trigger] comes_before(
                runs,
                i,
                j,
            ),
    ensures
        ahead_in_class(runs, i, n) == 0,
    decreases n,
{
    if n > 0 {
        none_ahead(runs, i, (n - 1) as nat);
        if n - 1 != i {
            order_is_total(runs, i, n - 1);
        } else {
            newer_irreflexive(runs[i]@);
        }
    }
}

/// The run that is reported is never among those deleted.
pub proof fn reported_run_is_retained(runs: Seq<ExitRecord>, i: int)
    requires
        reported(runs, i),
    ensures
        retained(runs, i),
{
    none_ahead(runs, i, runs.len());
}

/// A run is only deleted after all older runs of its class.
pub proof fn newer_runs_outlive_older_ones(runs: Seq<ExitRecord>, i: int, j: int)
    requires
        0 <= i < runs.len(),
        0 <= j < runs.len(),
        same_class(runs[i], runs[j]),
        comes_before(runs, i, j),
        retained(runs, j),
    ensures
        retained(runs, i),
{
    ahead_grows(runs, i, j, runs.len());
}

/// However many runs there are, at most the quota of either class stays.
pub proof fn quota_bounds_each_class(runs: Seq<ExitRecord>, kept: Seq<int>)
    requires
        kept.no_duplicates(),
        forall|p: int|
            0 <= p < kept.len() ==> {
                &&& 0 <= #[trigger] kept[p] < runs.len()
                &&& retained(runs, kept[p])
                &&& same_class(runs[kept[p]], runs[kept[0]])
            },
    ensures
        kept.len() <= MAX_INACTIVE_RUNS_PER_CLASS,
{
    if kept.len() > MAX_INACTIVE_RUNS_PER_CLASS {
        let rank = |p: int| ahead_in_class(runs, kept[p], runs.len());
        assert forall|p: int, q: int| 0 <= p < q < kept.len() implies #[trigger] rank(p)
            != #[trigger] rank(q) by {
            order_is_total(runs, kept[p], kept[q]);
            if comes_before(runs, kept[p], kept[q]) {
                ahead_grows(runs, kept[p], kept[q], runs.len());
            } else {
                ahead_grows(runs, kept[q], kept[p], runs.len());
            }
        }
        assert(forall|p: int| 0 <= p < kept.len() ==> retained(runs, #[trigger] kept[p]));
        assert(rank(0) < 5 && rank(1) < 5 && rank(2) < 5 && rank(3) < 5 && rank(4) < 5 && rank(5)
            < 5) by {
            assert(retained(runs, kept[0]) && retained(runs, kept[1]) && retained(runs, kept[2])
                && retained(runs, kept[3]) && retained(runs, kept[4]) && retained(runs, kept[5]));
        }
        assert(rank(0) != rank(1) && rank(0) != rank(2) && rank(0) != rank(3) && rank(0) != rank(4)
            && rank(0) != rank(5) && rank(1) != rank(2) && rank(1) != rank(3) && rank(1) != rank(4)
            && rank(1) != rank(5) && rank(2) != rank(3) && rank(2) != rank(4) && rank(2) != rank(5)
            && rank(3) != rank(4) && rank(3) != rank(5) && rank(4) != rank(5));
    }
}

proof fn ahead_after_push(runs: Seq<ExitRecord>, record: ExitRecord, i: int, n: nat)
    requires
        0 <= i < runs.len(),
        n <= runs.len(),
    ensures
        ahead_in_class(runs.push(record), i, n) == ahead_in_class(runs, i, n),
    decreases n,
{
    if n > 0 {
        ahead_after_push(runs, record, i, (n - 1) as nat);
    }
}

/// Later clean runs never hide a failure: it stays the reported run, and the
/// clean run takes no place from the failures that are kept.
pub proof fn clean_run_never_hides_a_failure(runs: Seq<ExitRecord>, clean: ExitRecord, i: int)
    requires
        0 <= i < runs.len(),
        runs[i].status != ExitStatus::Clean,
        clean.status == ExitStatus::Clean,
    ensures
        reported(runs.push(clean), i) == reported(runs, i),
        retained(runs.push(clean), i) == retained(runs, i),
{
    let more = runs.push(clean);
    assert forall|j: int| 0 <= j < runs.len() implies #[trigger] comes_before(more, i, j)
        == comes_before(runs, i, j) by {}
    if reported(more, i) {
        assert forall|j: int|
            0 <= j < runs.len() && j != i && runs[j].status
                != ExitStatus::Clean implies #[trigger] comes_before(runs, i, j) by {
            assert(more[j] == runs[j]);
            assert(comes_before(more, i, j));
        }
    }
    ahead_after_push(runs, clean, i, runs.len());
}

/// Of two runs the one that ended later is the newer; where they ended together,
/// their identifiers decide.
pub proof fn later_ends_are_newer(a: ExitRecordView, b: ExitRecordView)
    ensures
        a.ended_at_unix_ms > b.ended_at_unix_ms ==> newer(a, b) && !newer(b, a),
        a.ended_at_unix_ms == b.ended_at_unix_ms && a.run_id != b.run_id ==> newer(a, b) != newer(
            b,
            a,
        ),
        a.ended_at_unix_ms == b.ended_at_unix_ms && a.run_id == b.run_id ==> !newer(a, b),
        a.ended_at_unix_ms == b.ended_at_unix_ms ==> (newer(a, b) <==> precedes_text(
            b.run_id,
            a.run_id,
        )),
{
    precedes_text_irreflexive(a.run_id);
    precedes_text_total(a.run_id, b.run_id);
    if precedes_text(a.run_id, b.run_id) && precedes_text(b.run_id, a.run_id) {
        precedes_text_transitive(a.run_id, b.run_id, a.run_id);
    }
}

/// A failure is reported wherever there is one, and no run of the reported run's
/// class ended after it.
pub proof fn the_latest_failure_is_reported(runs: Seq<ExitRecord>, i: int, j: int)
    requires
        reported(runs, i),
        0 <= j < runs.len(),
    ensures
        runs[j].status != ExitStatus::Clean ==> runs[i].status != ExitStatus::Clean,
        runs[j].status != ExitStatus::Clean ==> runs[j].ended_at_unix_ms
            <= runs[i].ended_at_unix_ms,
        runs[i].status == ExitStatus::Clean ==> runs[j].ended_at_unix_ms
            <= runs[i].ended_at_unix_ms,
{
    if j != i && (runs[j].status != ExitStatus::Clean || runs[i].status == ExitStatus::Clean) {
        assert(runs[j].status == runs[j].status);
        assert(runs[i].status != ExitStatus::Clean || runs[j].status == ExitStatus::Clean);
        assert(comes_before(runs, i, j));
        later_ends_are_newer(runs[j]@, runs[i]@);
    }
}

/// Only one run is reported.
pub proof fn one_run_is_reported(runs: Seq<ExitRecord>, i: int, j: int)
    requires
        reported(runs, i),
        reported(runs, j),
    ensures
        i == j,
{
    if i != j {
        the_latest_failure_is_reported(runs, i, j);
        the_latest_failure_is_reported(runs, j, i);
        assert(runs[i].status == runs[i].status && runs[j].status == runs[j].status);
        assert(comes_before(runs, i, j));
        assert(comes_before(runs, j, i));
        order_is_total(runs, i, j);
    }
}

proof fn ahead_is_bounded(runs: Seq<ExitRecord>, i: int, n: nat)
    requires
        0 <= i < runs.len(),
        n <= runs.len(),
    ensures
        ahead_in_class(runs, i, n) + (if i < n {
            1nat
        } else {
            0nat
        }) <= n,
    decreases n,
{
    if n > 0 {
        ahead_is_bounded(runs, i, (n - 1) as nat);
        if n - 1 == i {
            newer_irreflexive(runs[i]@);
        }
    }
}

/// Nothing is deleted as long as there are no more runs than the quota.
pub proof fn few_runs_are_all_kept(runs: Seq<ExitRecord>, i: int)
    requires
        0 <= i < runs.len(),
        runs.len() <= 5,
    ensures
        retained(runs, i),
{
    ahead_is_bounded(runs, i, runs.len());
}

/// Which runs come before run `i` in its class, among the first `n`.
pub open spec fn class_ahead(runs: Seq<ExitRecord>, i: int, n: nat) -> Seq<int>
    decreases n,
{
    if n == 0 {
        Seq::empty()
    } else if same_class(runs[n - 1], runs[i]) && comes_before(runs, n - 1, i) {
        class_ahead(runs, i, (n - 1) as nat).push(n - 1)
    } else {
        class_ahead(runs, i, (n - 1) as nat)
    }
}

proof fn class_is_counted(runs: Seq<ExitRecord>, i: int, n: nat)
    requires
        0 <= i < runs.len(),
        n <= runs.len(),
    ensures
        class_ahead(runs, i, n).len() == ahead_in_class(runs, i, n),
        forall|p: int|
            0 <= p < class_ahead(runs, i, n).len() ==> {
                let j = #[trigger] class_ahead(runs, i, n)[p];
                &&& 0 <= j < n
                &&& same_class(runs[j], runs[i])
                &&& comes_before(runs, j, i)
            },
        class_ahead(runs, i, n).no_duplicates(),
    decreases n,
{
    if n > 0 {
        class_is_counted(runs, i, (n - 1) as nat);
        let earlier = class_ahead(runs, i, (n - 1) as nat);
        let all = class_ahead(runs, i, n);
        if same_class(runs[n - 1], runs[i]) && comes_before(runs, n - 1, i) {
            assert forall|p: int| 0 <= p < all.len() implies {
                let j = #[trigger] all[p];
                &&& 0 <= j < n
                &&& same_class(runs[j], runs[i])
                &&& comes_before(runs, j, i)
            } by {
                if p < earlier.len() {
                    assert(all[p] == earlier[p]);
                }
            }
            assert forall|p: int, q: int|
                0 <= p < all.len() && 0 <= q < all.len() && p != q implies all[p] != all[q] by {
                if p < earlier.len() {
                    assert(all[p] == earlier[p]);
                }
                if q < earlier.len() {
                    assert(all[q] == earlier[q]);
                }
            }
        }
    }
}

/// A run is deleted only where at least as many others of its class as the quota
/// allows come before it, none of which ended earlier.
pub proof fn deleted_runs_make_room_for_newer_ones(runs: Seq<ExitRecord>, i: int) -> (ahead: Seq<
    int,
>)
    requires
        0 <= i < runs.len(),
        !retained(runs, i),
    ensures
        ahead.len() >= 5,
        ahead.no_duplicates(),
        forall|p: int|
            0 <= p < ahead.len() ==> {
                &&& 0 <= #[trigger] ahead[p] < runs.len()
                &&& ahead[p] != i
                &&& same_class(runs[ahead[p]], runs[i])
                &&& runs[ahead[p]].ended_at_unix_ms >= runs[i].ended_at_unix_ms
            },
{
    class_is_counted(runs, i, runs.len());
    let ahead = class_ahead(runs, i, runs.len());
    assert forall|p: int| 0 <= p < ahead.len() implies {
        &&& 0 <= #[trigger] ahead[p] < runs.len()
        &&& ahead[p] != i
        &&& same_class(runs[ahead[p]], runs[i])
        &&& runs[ahead[p]].ended_at_unix_ms >= runs[i].ended_at_unix_ms
    } by {
        newer_irreflexive(runs[i]@);
        later_ends_are_newer(runs[i]@, runs[ahead[p]]@);
    }
    ahead
}

} // verus!
