//! The library's stated laws, proved over the registry model.

use vstd::prelude::*;

use crate::errors::PrintError;
use crate::job::{job_wf, JobView};
use crate::policy::{
    has_failure_marker, has_missing_marker, printer_resolves, submit_file_error,
};
use crate::registry::{
    active_jobs_of, age_seconds, ids_strictly_increasing, records_wf, select_pred, sweep_pred,
};
use crate::state::PrinterJobState;

verus! {

/// Filtering keeps a sequence unchanged when every element satisfies the
/// predicate.
proof fn lemma_filter_all<A>(s: Seq<A>, pred: spec_fn(A) -> bool)
    requires
        forall|i: int| 0 <= i < s.len() ==> pred(#[trigger] s[i]),
    ensures
        s.filter(pred) == s,
    decreases s.len(),
{
    reveal(Seq::filter);
    if s.len() > 0 {
        assert(forall|i: int| 0 <= i < s.len() - 1 ==> s.drop_last()[i] == s[i]);
        lemma_filter_all(s.drop_last(), pred);
        assert(s.filter(pred) =~= s);
    } else {
        assert(s.filter(pred) =~= s);
    }
}

/// Two predicates that agree on every element filter a sequence identically.
proof fn lemma_filter_congruence<A>(s: Seq<A>, p1: spec_fn(A) -> bool, p2: spec_fn(A) -> bool)
    requires
        forall|i: int| 0 <= i < s.len() ==> p1(#[trigger] s[i]) == p2(s[i]),
    ensures
        s.filter(p1) == s.filter(p2),
    decreases s.len(),
{
    reveal(Seq::filter);
    if s.len() > 0 {
        assert(forall|i: int| 0 <= i < s.len() - 1 ==> s.drop_last()[i] == s[i]);
        lemma_filter_congruence(s.drop_last(), p1, p2);
    }
}

/// For every well-formed record the recorded times are ordered along the
/// lifecycle: creation, then processing start, then completion, whenever the
/// later ones are present.
pub proof fn lemma_job_timestamps_ordered(jobs: Seq<JobView>)
    requires
        records_wf(jobs),
    ensures
        forall|i: int|
            0 <= i < jobs.len() ==> match ((#[trigger] jobs[i]).processed_at,
            jobs[i].completed_at) {
                (Some(p), Some(c)) => jobs[i].created_at <= p && p <= c,
                (Some(p), None) => jobs[i].created_at <= p,
                _ => true,
            },
{
}

/// A well-formed record carries a failure message exactly when its state is
/// `CANCELLED`.
pub proof fn lemma_error_message_iff_cancelled(jobs: Seq<JobView>)
    requires
        records_wf(jobs),
    ensures
        forall|i: int|
            0 <= i < jobs.len() ==> ((#[trigger] jobs[i]).error_message is Some <==> jobs[i].state
                == PrinterJobState::CANCELLED),
{
}

/// A sweep with a zero age threshold removes exactly the terminal records:
/// what survives is precisely the active listing.
pub proof fn lemma_sweep_zero_keeps_exactly_active(jobs: Seq<JobView>, now: u64)
    requires
        records_wf(jobs),
    ensures
        jobs.filter(sweep_pred(0, now)) == active_jobs_of(jobs),
{
    assert forall|i: int| 0 <= i < jobs.len() implies sweep_pred(0, now)(#[trigger] jobs[i])
        == select_pred(Some(true), None)(jobs[i]) by {
        assert(job_wf(jobs[i]));
        assert(!(age_seconds(jobs[i], now) < 0));
    }
    lemma_filter_congruence(jobs, sweep_pred(0, now), select_pred(Some(true), None));
}

/// Sweeping is idempotent: a second sweep with the same threshold and clock
/// reading finds nothing left to remove.
pub proof fn lemma_sweep_idempotent(jobs: Seq<JobView>, max_age_seconds: u64, now: u64)
    ensures
        jobs.filter(sweep_pred(max_age_seconds, now)).filter(sweep_pred(max_age_seconds, now))
            == jobs.filter(sweep_pred(max_age_seconds, now)),
{
    broadcast use vstd::seq_lib::group_filter_ensures;

    let pred = sweep_pred(max_age_seconds, now);
    let kept = jobs.filter(pred);
    lemma_filter_all(kept, pred);
}

/// Identifiers of tracked records are pairwise distinct, being strictly
/// increasing in issuance order.
pub proof fn lemma_job_ids_distinct(jobs: Seq<JobView>)
    requires
        ids_strictly_increasing(jobs),
    ensures
        forall|i: int, j: int|
            0 <= i < jobs.len() && 0 <= j < jobs.len() && i != j ==> (#[trigger] jobs[i]).id != (
            #[trigger] jobs[j]).id,
{
}

/// Under simulation, for any printer name that resolves, a payload identifier
/// carrying the missing-file marker is always rejected with `FileNotFound`.
pub proof fn lemma_simulated_missing_marker(
    printer_name: Seq<char>,
    file_path: Seq<char>,
    printer_found: bool,
    file_exists: bool,
)
    requires
        printer_resolves(true, printer_name, printer_found),
        has_missing_marker(file_path),
    ensures
        submit_file_error(true, printer_name, file_path, printer_found, file_exists) == Some(
            PrintError::FileNotFound,
        ),
{
}

/// Under simulation, for any printer name that resolves, a payload identifier
/// carrying the forced-failure marker — and not the missing-file marker,
/// which takes precedence — is always rejected with `SimulatedFailure`.
pub proof fn lemma_simulated_failure_marker(
    printer_name: Seq<char>,
    file_path: Seq<char>,
    printer_found: bool,
    file_exists: bool,
)
    requires
        printer_resolves(true, printer_name, printer_found),
        has_failure_marker(file_path),
        !has_missing_marker(file_path),
    ensures
        submit_file_error(true, printer_name, file_path, printer_found, file_exists) == Some(
            PrintError::SimulatedFailure,
        ),
{
}

} // verus!
