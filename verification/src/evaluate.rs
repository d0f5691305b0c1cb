use vstd::prelude::*;
use crate::model::{BackupWindowStatus, TimeWindow};

verus! {

/// A window is relevant when it is one of the three most recent day-buckets.
pub open spec fn spec_is_relevant(w: TimeWindow) -> bool {
    w == TimeWindow::Between0dAnd1d
        || w == TimeWindow::Between1dAnd2d
        || w == TimeWindow::Between2dAnd3d
}

/// Decides whether a time window takes part in the alert evaluation.
pub fn is_relevant(w: TimeWindow) -> (r: bool)
    ensures
        r == spec_is_relevant(w),
{
    match w {
        TimeWindow::Between0dAnd1d => true,
        TimeWindow::Between1dAnd2d => true,
        TimeWindow::Between2dAnd3d => true,
        TimeWindow::Other => false,
    }
}

/// An entry counts as a failure when its status is anything but "Perfect".
pub open spec fn is_window_failure(e: BackupWindowStatus) -> bool {
    e.status@ != "Perfect"@
}

/// The relevant entries of a history, in source order.
pub open spec fn relevant_entries(h: Seq<BackupWindowStatus>) -> Seq<BackupWindowStatus> {
    h.filter(|e: BackupWindowStatus| spec_is_relevant(e.time_window))
}

/// The relevant entries of a history that failed, in source order.
pub open spec fn failing_relevant(h: Seq<BackupWindowStatus>) -> Seq<BackupWindowStatus> {
    h.filter(
        |e: BackupWindowStatus| spec_is_relevant(e.time_window) && is_window_failure(e),
    )
}

/// How many relevant entries of the history failed.
pub open spec fn failure_count(h: Seq<BackupWindowStatus>) -> int {
    failing_relevant(h).len() as int
}

/// The alert decision: it fires exactly when the relevant-window failure
/// count equals three.
pub open spec fn alert_fires(h: Seq<BackupWindowStatus>) -> bool {
    failure_count(h) == 3
}

/// What a correct evaluation of a history returns: the relevant entries when
/// the alert fires, and nothing otherwise.
pub open spec fn evaluation_result(
    h: Seq<BackupWindowStatus>,
    r: Option<Seq<BackupWindowStatus>>,
) -> bool {
    match r {
        Some(v) => alert_fires(h) && v == relevant_entries(h),
        None => !alert_fires(h),
    }
}

/// The view of an optional vector of history entries.
pub open spec fn opt_windows_view(r: Option<Vec<BackupWindowStatus>>) -> Option<
    Seq<BackupWindowStatus>,
> {
    match r {
        Some(v) => Some(v@),
        None => None,
    }
}

/// Inspects the backup history of one application type and decides whether
/// to alert. Returns the relevant entries, in source order, exactly when the
/// failure count among them equals three.
pub fn evaluate_history(history: &Vec<BackupWindowStatus>) -> (r: Option<Vec<BackupWindowStatus>>)
    ensures
        evaluation_result(history@, opt_windows_view(r)),
        r is Some <==> failure_count(history@) == 3,
{
    let perfect: String = "Perfect".to_owned();
    let mut relevant: Vec<BackupWindowStatus> = Vec::new();
    let mut failures: usize = 0;
    let n = history.len();
    for i in 0..n
        invariant
            n == history@.len(),
            relevant@ == relevant_entries(history@.take(i as int)),
            failures == failure_count(history@.take(i as int)),
            failures <= i,
            perfect@ == "Perfect"@,
    {
        let e = &history[i];
        proof {
            reveal(Seq::filter);
            assert(history@.take(i as int + 1).drop_last() =~= history@.take(i as int));
            assert(history@.take(i as int + 1).last() == history@[i as int]);
        }
        if is_relevant(e.time_window) {
            relevant.push(e.clone());
            if !(e.status == perfect) {
                failures = failures + 1;
            }
        }
    }
    proof {
        assert(history@.take(n as int) =~= history@);
    }
    if failures == 3 {
        Some(relevant)
    } else {
        None
    }
}

/// The failing relevant entries are exactly the failures among the relevant
/// entries: counting failures after selection agrees with selecting failing
/// relevant entries in one pass.
pub proof fn lemma_failing_from_relevant(h: Seq<BackupWindowStatus>)
    ensures
        failing_relevant(h) == relevant_entries(h).filter(
            |e: BackupWindowStatus| is_window_failure(e),
        ),
    decreases h.len(),
{
    reveal(Seq::filter);
    if h.len() > 0 {
        let d = h.drop_last();
        let l = h.last();
        lemma_failing_from_relevant(d);
        if spec_is_relevant(l.time_window) {
            assert(relevant_entries(h) == relevant_entries(d).push(l));
            assert(relevant_entries(d).push(l).drop_last() =~= relevant_entries(d));
            assert(relevant_entries(d).push(l).last() == l);
        }
    }
}

/// Entries outside the three relevant buckets never influence the decision:
/// two histories with the same relevant entries decide alike.
pub proof fn lemma_only_relevant_windows_matter(
    h1: Seq<BackupWindowStatus>,
    h2: Seq<BackupWindowStatus>,
)
    requires
        relevant_entries(h1) == relevant_entries(h2),
    ensures
        alert_fires(h1) == alert_fires(h2),
        failure_count(h1) == failure_count(h2),
{
    lemma_failing_from_relevant(h1);
    lemma_failing_from_relevant(h2);
}

/// Appending an entry outside the relevant buckets changes neither the
/// selected windows nor the decision.
pub proof fn lemma_irrelevant_entry_ignored(h: Seq<BackupWindowStatus>, e: BackupWindowStatus)
    requires
        !spec_is_relevant(e.time_window),
    ensures
        relevant_entries(h.push(e)) == relevant_entries(h),
        alert_fires(h.push(e)) == alert_fires(h),
{
    reveal(Seq::filter);
    assert(h.push(e).drop_last() =~= h);
    assert(h.push(e).last() == e);
}

/// Evaluating the same history twice yields the same decision and the same
/// reported windows: the outcome is a pure function of the history.
pub proof fn lemma_evaluation_deterministic(
    h: Seq<BackupWindowStatus>,
    r1: Option<Seq<BackupWindowStatus>>,
    r2: Option<Seq<BackupWindowStatus>>,
)
    requires
        evaluation_result(h, r1),
        evaluation_result(h, r2),
    ensures
        r1 == r2,
{
}

} // verus!
