//! The job registry and its transitions.
//!
//! A `PrinterCore` owns every tracked record. Identifiers are issued from a
//! monotone counter seeded above zero, submissions append `PENDING` records,
//! the owning worker drives each record through `PROCESSING` to a terminal
//! state, and the retention sweep evicts old terminal records. The registry is
//! an explicitly owned context object: the embedding layer wraps it in its own
//! mutual-exclusion region and hands every operation a clock reading.

use vstd::prelude::*;

use crate::errors::PrintError;
use crate::job::{job_wf, JobView, PrinterJob};
use crate::media::{detect_media_type, media_type_of};
use crate::naming::{fresh_job_name, lemma_bytes_descriptor_is_raw, make_bytes_descriptor};
use crate::options::PrinterJobOptions;
use crate::policy::{check_file_submission, submit_bytes_error, submit_file_error, SubmitEnv};
use crate::state::{is_active, is_terminal, PrinterJobState};
use crate::text::chars_eq;
use crate::JOB_ID_SEED;

verus! {

/// Every record of the sequence is well-formed.
pub open spec fn records_wf(jobs: Seq<JobView>) -> bool {
    forall|i: int| 0 <= i < jobs.len() ==> job_wf(#[trigger] jobs[i])
}

/// Identifiers are strictly increasing along the sequence (hence pairwise
/// distinct), reflecting issuance order.
pub open spec fn ids_strictly_increasing(jobs: Seq<JobView>) -> bool {
    forall|i: int, j: int|
        0 <= i < j < jobs.len() ==> (#[trigger] jobs[i]).id < (#[trigger] jobs[j]).id
}

/// Every identifier in the sequence lies below `bound`.
pub open spec fn ids_below(jobs: Seq<JobView>, bound: u64) -> bool {
    forall|i: int| 0 <= i < jobs.len() ==> (#[trigger] jobs[i]).id < bound
}

/// Index of the first record with identifier `id`, or -1 when absent.
pub open spec fn job_index_of(jobs: Seq<JobView>, id: u64) -> int
    decreases jobs.len(),
{
    if jobs.len() == 0 {
        -1
    } else if jobs[0].id == id {
        0
    } else {
        let rest = job_index_of(jobs.drop_first(), id);
        if rest == -1 {
            -1
        } else {
            rest + 1
        }
    }
}

/// Whether some record carries identifier `id`.
pub open spec fn has_job(jobs: Seq<JobView>, id: u64) -> bool {
    job_index_of(jobs, id) >= 0
}

/// `job_index_of` points at the first record with the identifier: that index
/// carries it and no earlier one does; -1 means no record does.
pub proof fn lemma_job_index_of(jobs: Seq<JobView>, id: u64)
    ensures
        job_index_of(jobs, id) >= -1,
        job_index_of(jobs, id) < jobs.len(),
        job_index_of(jobs, id) == -1 ==> forall|i: int|
            0 <= i < jobs.len() ==> (#[trigger] jobs[i]).id != id,
        job_index_of(jobs, id) >= 0 ==> jobs[job_index_of(jobs, id)].id == id,
        job_index_of(jobs, id) >= 0 ==> forall|i: int|
            0 <= i < job_index_of(jobs, id) ==> (#[trigger] jobs[i]).id != id,
    decreases jobs.len(),
{
    if jobs.len() > 0 && jobs[0].id != id {
        lemma_job_index_of(jobs.drop_first(), id);
        let rest = job_index_of(jobs.drop_first(), id);
        if rest == -1 {
            assert forall|i: int| 0 <= i < jobs.len() implies (#[trigger] jobs[i]).id != id by {
                if i > 0 {
                    assert(jobs.drop_first()[i - 1] == jobs[i]);
                }
            }
        } else {
            assert(jobs.drop_first()[rest] == jobs[rest + 1]);
            assert forall|i: int| 0 <= i < rest + 1 implies (#[trigger] jobs[i]).id != id by {
                if i > 0 {
                    assert(jobs.drop_first()[i - 1] == jobs[i]);
                }
            }
        }
    }
}

/// The view of a freshly submitted record.
pub open spec fn pending_job_view(
    id: u64,
    name: Seq<char>,
    media_type: Seq<char>,
    created_at: u64,
    printer_name: Seq<char>,
) -> JobView {
    JobView {
        id,
        name,
        state: PrinterJobState::PENDING,
        media_type,
        created_at,
        processed_at: None,
        completed_at: None,
        printer_name,
        error_message: None,
    }
}

/// The larger of two clock readings.
pub open spec fn max_time(a: u64, b: u64) -> u64 {
    if a < b {
        b
    } else {
        a
    }
}

/// A record after the worker's start transition. The recorded start time is
/// clamped to the creation time, so the timestamps stay ordered even under a
/// clock that stepped backwards.
pub open spec fn processing_view(j: JobView, now: u64) -> JobView {
    JobView {
        state: PrinterJobState::PROCESSING,
        processed_at: Some(max_time(j.created_at, now)),
        ..j
    }
}

/// A record after its terminal transition: `COMPLETED` without a message on
/// success, `CANCELLED` with the failure message otherwise. The completion
/// time is clamped to the recorded start time.
pub open spec fn terminal_view(j: JobView, success: bool, message: Seq<char>, now: u64) -> JobView {
    JobView {
        state: if success {
            PrinterJobState::COMPLETED
        } else {
            PrinterJobState::CANCELLED
        },
        completed_at: Some(
            max_time(
                match j.processed_at {
                    Some(p) => p,
                    None => j.created_at,
                },
                now,
            ),
        ),
        error_message: if success {
            None
        } else {
            Some(message)
        },
        ..j
    }
}

/// Age of a record in seconds at clock reading `now`; a record created in the
/// future counts as fresh.
pub open spec fn age_seconds(j: JobView, now: u64) -> u64 {
    if now >= j.created_at {
        (now - j.created_at) as u64
    } else {
        0
    }
}

/// The retention rule: a record survives a sweep when it is still active, or
/// still younger than the threshold.
pub open spec fn keep_after_sweep(j: JobView, max_age_seconds: u64, now: u64) -> bool {
    !is_terminal(j.state) || age_seconds(j, now) < max_age_seconds
}

/// The sweep rule as a predicate value.
pub open spec fn sweep_pred(max_age_seconds: u64, now: u64) -> spec_fn(JobView) -> bool {
    |j: JobView| keep_after_sweep(j, max_age_seconds, now)
}

/// The retention rule scoped to one printer: only terminal records of that
/// printer that have reached the threshold are evicted.
pub open spec fn keep_after_printer_sweep(
    j: JobView,
    printer: Seq<char>,
    max_age_seconds: u64,
    now: u64,
) -> bool {
    j.printer_name != printer || keep_after_sweep(j, max_age_seconds, now)
}

/// The printer-scoped sweep rule as a predicate value.
pub open spec fn printer_sweep_pred(printer: Seq<char>, max_age_seconds: u64, now: u64) -> spec_fn(
    JobView,
) -> bool {
    |j: JobView| keep_after_printer_sweep(j, printer, max_age_seconds, now)
}

/// The listing rule as a predicate value: an optional state class (active or
/// terminal) and an optional exact printer name.
pub open spec fn select_pred(want_active: Option<bool>, printer: Option<Seq<char>>) -> spec_fn(
    JobView,
) -> bool {
    |j: JobView|
        (match want_active {
            Some(true) => is_active(j.state),
            Some(false) => is_terminal(j.state),
            None => true,
        }) && (match printer {
            Some(p) => j.printer_name == p,
            None => true,
        })
}

/// Most-recent-first ordering of records by creation time.
pub open spec fn created_desc() -> spec_fn(JobView, JobView) -> bool {
    |a: JobView, b: JobView| a.created_at >= b.created_at
}

/// Moving the element at `i` back to position `p` in an otherwise sorted
/// prefix keeps the contents and sorts the longer prefix: used by the
/// insertion step of the history ordering.
#[verifier::rlimit(50)]
proof fn lemma_move_back_sorted(before: Seq<JobView>, after: Seq<JobView>, i: int, p: int)
    requires
        0 <= p < i < before.len(),
        after == before.remove(i).insert(p, before[i]),
        vstd::relations::sorted_by(before.subrange(0, i), created_desc()),
        forall|q: int| 0 <= q < p ==> (#[trigger] before[q]).created_at >= before[i].created_at,
        before[p].created_at < before[i].created_at,
    ensures
        after.len() == before.len(),
        after.to_multiset() == before.to_multiset(),
        vstd::relations::sorted_by(after.subrange(0, i + 1), created_desc()),
{
    let x = before[i];
    before.remove_ensures(i);
    before.remove(i).insert_ensures(p, x);
    assert(after.to_multiset() =~= before.to_multiset()) by {
        broadcast use vstd::seq_lib::group_to_multiset_ensures;

        assert(before.remove(i).to_multiset() =~= before.to_multiset().remove(x));
        vstd::seq_lib::to_multiset_insert(before.remove(i), p, x);
        assert(before.contains(x));
        assert(before.to_multiset().count(x) > 0);
    }
    assert forall|a: int, b: int| 0 <= a < b < i + 1 implies created_desc()(
        #[trigger] after.subrange(0, i + 1)[a],
        #[trigger] after.subrange(0, i + 1)[b],
    ) by {
        let av = after[a];
        let bv = after[b];
        if a < p {
            assert(av == before[a]);
        } else if a == p {
            assert(av == x);
        } else {
            assert(av == before[a - 1]);
        }
        if b < p {
            assert(bv == before[b]);
        } else if b == p {
            assert(bv == x);
        } else {
            assert(bv == before[b - 1]);
        }
        let s = before.subrange(0, i);
        if b < p {
            assert(created_desc()(s[a], s[b]));
        } else if b == p {
            assert(before[a].created_at >= x.created_at);
        } else if a < p {
            // a < p < b gives a < b - 1, so both sit in the sorted prefix.
            assert(created_desc()(s[a], s[b - 1]));
        } else if a == p {
            if p < b - 1 {
                assert(created_desc()(s[p], s[b - 1]));
            }
        } else {
            assert(created_desc()(s[a - 1], s[b - 1]));
        }
    }
}

/// The records a listing of active jobs reports, in registry order.
pub open spec fn active_jobs_of(jobs: Seq<JobView>) -> Seq<JobView> {
    jobs.filter(select_pred(Some(true), None))
}

/// The records a history listing reports, in registry order.
pub open spec fn terminal_jobs_of(jobs: Seq<JobView>) -> Seq<JobView> {
    jobs.filter(select_pred(Some(false), None))
}

/// Filtering preserves well-formedness, identifier order and identifier
/// bounds, and every surviving record was present before.
pub proof fn lemma_filter_preserves_registry(
    jobs: Seq<JobView>,
    pred: spec_fn(JobView) -> bool,
    bound: u64,
)
    requires
        records_wf(jobs),
        ids_strictly_increasing(jobs),
        ids_below(jobs, bound),
    ensures
        records_wf(jobs.filter(pred)),
        ids_strictly_increasing(jobs.filter(pred)),
        ids_below(jobs.filter(pred), bound),
        forall|i: int|
            0 <= i < jobs.filter(pred).len() ==> exists|k: int|
                0 <= k < jobs.len() && jobs[k] == #[trigger] jobs.filter(pred)[i],
    decreases jobs.len(),
{
    reveal(Seq::filter);
    if jobs.len() > 0 {
        let rest = jobs.drop_last();
        let last = jobs.last();
        assert(forall|i: int| 0 <= i < rest.len() ==> rest[i] == jobs[i]);
        lemma_filter_preserves_registry(rest, pred, bound);
        let fr = rest.filter(pred);
        if pred(last) {
            assert(jobs.filter(pred) == fr.push(last));
            assert forall|i: int|
                0 <= i < jobs.filter(pred).len() implies exists|k: int|
                0 <= k < jobs.len() && jobs[k] == #[trigger] jobs.filter(pred)[i] by {
                if i < fr.len() {
                    let k = choose|k: int| 0 <= k < rest.len() && rest[k] == fr[i];
                    assert(jobs[k] == jobs.filter(pred)[i]);
                } else {
                    assert(jobs[jobs.len() - 1] == jobs.filter(pred)[i]);
                }
            }
            assert forall|i: int, j: int|
                0 <= i < j < jobs.filter(pred).len() implies (#[trigger] jobs.filter(pred)[i]).id
                < (#[trigger] jobs.filter(pred)[j]).id by {
                if j < fr.len() {
                } else {
                    if i < fr.len() {
                        let k = choose|k: int| 0 <= k < rest.len() && rest[k] == fr[i];
                        assert(jobs[k].id < last.id);
                    }
                }
            }
        } else {
            assert(jobs.filter(pred) == fr);
            assert forall|i: int|
                0 <= i < jobs.filter(pred).len() implies exists|k: int|
                0 <= k < jobs.len() && jobs[k] == #[trigger] jobs.filter(pred)[i] by {
                let k = choose|k: int| 0 <= k < rest.len() && rest[k] == fr[i];
                assert(jobs[k] == jobs.filter(pred)[i]);
            }
        }
    }
}

/// The shared registry of print jobs, the identifier counter, and the
/// process-wide cancellation flag.
pub struct PrinterCore {
    jobs: Vec<PrinterJob>,
    next_job_id: u64,
    shutdown_requested: bool,
}

impl PrinterCore {
    /// The tracked records, in insertion order.
    pub closed spec fn jobs(self) -> Seq<JobView> {
        self.jobs.deep_view()
    }

    /// The next identifier the allocator will issue.
    pub closed spec fn next_id(self) -> u64 {
        self.next_job_id
    }

    /// Whether process-wide cancellation has been requested.
    pub closed spec fn shutting_down(self) -> bool {
        self.shutdown_requested
    }

    /// Registry invariant: every record is well-formed, identifiers strictly
    /// increase in insertion order, all of them lie below the counter, and the
    /// counter never falls below its seed.
    pub closed spec fn wf(self) -> bool {
        &&& records_wf(self.jobs())
        &&& ids_strictly_increasing(self.jobs())
        &&& ids_below(self.jobs(), self.next_job_id)
        &&& JOB_ID_SEED <= self.next_job_id
    }

    /// What the registry invariant gives every caller.
    pub proof fn lemma_wf_properties(self)
        requires
            self.wf(),
        ensures
            records_wf(self.jobs()),
            ids_strictly_increasing(self.jobs()),
            ids_below(self.jobs(), self.next_id()),
            JOB_ID_SEED <= self.next_id(),
    {
    }

    /// A fresh, empty registry.
    pub fn new() -> (r: Self)
        ensures
            r.wf(),
            r.jobs() == Seq::<JobView>::empty(),
            r.next_id() == JOB_ID_SEED,
            !r.shutting_down(),
    {
        let r = PrinterCore { jobs: Vec::new(), next_job_id: JOB_ID_SEED, shutdown_requested: false };
        proof {
            assert(r.jobs() =~= Seq::<JobView>::empty());
        }
        r
    }

    /// The identifier the allocator will issue next.
    pub fn peek_next_id(&self) -> (r: u64)
        ensures
            r == self.next_id(),
    {
        self.next_job_id
    }

    /// How many records are currently tracked.
    pub fn job_count(&self) -> (r: usize)
        ensures
            r == self.jobs().len(),
    {
        self.jobs.len()
    }

    /// Issue the next job identifier: strictly larger than every identifier
    /// issued before, never reused.
    pub fn generate_job_id(&mut self) -> (id: u64)
        requires
            old(self).wf(),
            old(self).next_id() < u64::MAX,
        ensures
            final(self).wf(),
            id == old(self).next_id(),
            final(self).next_id() == id + 1,
            final(self).jobs() == old(self).jobs(),
            final(self).shutting_down() == old(self).shutting_down(),
    {
        let id = self.next_job_id;
        self.next_job_id = id + 1;
        id
    }

    /// A snapshot of the record with this identifier, when one is tracked.
    pub fn get_job_status(&self, job_id: u64) -> (r: Option<PrinterJob>)
        ensures
            match r {
                Some(j) => has_job(self.jobs(), job_id) && j@ == self.jobs()[job_index_of(
                    self.jobs(),
                    job_id,
                )],
                None => !has_job(self.jobs(), job_id),
            },
    {
        match find_job_index(&self.jobs, job_id) {
            Some(i) => Some(self.jobs[i].clone()),
            None => None,
        }
    }

    /// One polling step of job completion: whether the record is gone or has
    /// reached a terminal state, so the poller may stop waiting.
    pub fn poll_job_completion(&self, job_id: u64) -> (done: bool)
        ensures
            done == {
                let k = job_index_of(self.jobs(), job_id);
                k == -1 || is_terminal(self.jobs()[k].state)
            },
    {
        match find_job_index(&self.jobs, job_id) {
            Some(i) => self.jobs[i].state.is_terminal_state(),
            None => true,
        }
    }

    /// A snapshot of the record with this identifier, provided it targets
    /// exactly this printer.
    pub fn get_job_for_printer(&self, printer_name: &str, job_id: u64) -> (r: Option<PrinterJob>)
        ensures
            ({
                let k = job_index_of(self.jobs(), job_id);
                match r {
                    Some(j) => k >= 0 && j@ == self.jobs()[k] && j@.printer_name == printer_name@,
                    None => k == -1 || self.jobs()[k].printer_name != printer_name@,
                }
            }),
    {
        proof {
            lemma_job_index_of(self.jobs(), job_id);
        }
        match self.get_job_status(job_id) {
            Some(j) => {
                if chars_eq(j.printer_name.as_str(), printer_name) {
                    Some(j)
                } else {
                    None
                }
            },
            None => None,
        }
    }

    /// The worker's start transition: a tracked record still in `PENDING`
    /// moves to `PROCESSING` with its start time recorded; anything else
    /// (the record was evicted concurrently, or already past `PENDING`) is a
    /// no-op, not an error.
    pub fn mark_processing(&mut self, job_id: u64, now: u64)
        requires
            old(self).wf(),
        ensures
            final(self).wf(),
            final(self).next_id() == old(self).next_id(),
            final(self).shutting_down() == old(self).shutting_down(),
            ({
                let k = job_index_of(old(self).jobs(), job_id);
                if k >= 0 && old(self).jobs()[k].state == PrinterJobState::PENDING {
                    final(self).jobs() == old(self).jobs().update(
                        k,
                        processing_view(old(self).jobs()[k], now),
                    )
                } else {
                    final(self).jobs() == old(self).jobs()
                }
            }),
    {
        match find_job_index(&self.jobs, job_id) {
            Some(i) => {
                let pending = match self.jobs[i].state {
                    PrinterJobState::PENDING => true,
                    _ => false,
                };
                if pending {
                    let j = self.jobs[i].clone();
                    let ts = if now < j.created_at {
                        j.created_at
                    } else {
                        now
                    };
                    let updated = PrinterJob {
                        state: PrinterJobState::PROCESSING,
                        processed_at: Some(ts),
                        ..j
                    };
                    proof {
                        assert(updated@ == processing_view(old(self).jobs()[i as int], now));
                    }
                    self.jobs[i] = updated;
                    proof {
                        assert(self.jobs() =~= old(self).jobs().update(
                            i as int,
                            processing_view(old(self).jobs()[i as int], now),
                        ));
                        assert(self.wf()) by {
                            assert(forall|k: int|
                                0 <= k < self.jobs().len() && k != i ==> self.jobs()[k] == old(
                                    self,
                                ).jobs()[k]);
                        }
                    }
                }
            },
            None => {},
        }
    }

    /// The worker's terminal transition: a tracked record in an active,
    /// already-started state (`PROCESSING` or `PAUSED`) moves to `COMPLETED`
    /// on `Ok`, or to `CANCELLED` with the failure message on `Err`, with its
    /// completion time recorded. Anything else is a no-op, not an error.
    pub fn mark_terminal(&mut self, job_id: u64, outcome: Result<(), String>, now: u64)
        requires
            old(self).wf(),
        ensures
            final(self).wf(),
            final(self).next_id() == old(self).next_id(),
            final(self).shutting_down() == old(self).shutting_down(),
            ({
                let k = job_index_of(old(self).jobs(), job_id);
                let message = match outcome {
                    Ok(_) => Seq::<char>::empty(),
                    Err(m) => m@,
                };
                if k >= 0 && (old(self).jobs()[k].state == PrinterJobState::PROCESSING || old(
                    self,
                ).jobs()[k].state == PrinterJobState::PAUSED) {
                    final(self).jobs() == old(self).jobs().update(
                        k,
                        terminal_view(old(self).jobs()[k], outcome is Ok, message, now),
                    )
                } else {
                    final(self).jobs() == old(self).jobs()
                }
            }),
    {
        match find_job_index(&self.jobs, job_id) {
            Some(i) => {
                let started = match self.jobs[i].state {
                    PrinterJobState::PROCESSING => true,
                    PrinterJobState::PAUSED => true,
                    _ => false,
                };
                if started {
                    let j = self.jobs[i].clone();
                    let base = match j.processed_at {
                        Some(p) => p,
                        None => j.created_at,
                    };
                    let ts = if now < base {
                        base
                    } else {
                        now
                    };
                    let ghost success = outcome is Ok;
                    let ghost message = match &outcome {
                        Ok(_) => Seq::<char>::empty(),
                        Err(m) => m@,
                    };
                    let updated = match outcome {
                        Ok(_) => PrinterJob {
                            state: PrinterJobState::COMPLETED,
                            completed_at: Some(ts),
                            error_message: None,
                            ..j
                        },
                        Err(m) => PrinterJob {
                            state: PrinterJobState::CANCELLED,
                            completed_at: Some(ts),
                            error_message: Some(m),
                            ..j
                        },
                    };
                    self.jobs[i] = updated;
                    proof {
                        assert(self.jobs() =~= old(self).jobs().update(
                            i as int,
                            terminal_view(old(self).jobs()[i as int], success, message, now),
                        ));
                        assert(self.wf()) by {
                            assert(forall|k: int|
                                0 <= k < self.jobs().len() && k != i ==> self.jobs()[k] == old(
                                    self,
                                ).jobs()[k]);
                        }
                    }
                }
            },
            None => {},
        }
    }
}

impl PrinterCore {
    /// Snapshot the records selected by an optional state class and an
    /// optional exact printer name, in registry order.
    fn select_jobs(&self, want_active: Option<bool>, printer: Option<&str>) -> (r: Vec<PrinterJob>)
        ensures
            r.deep_view() == self.jobs().filter(
                select_pred(
                    want_active,
                    match printer {
                        Some(p) => Some(p@),
                        None => None,
                    },
                ),
            ),
    {
        let ghost pred = select_pred(
            want_active,
            match printer {
                Some(p) => Some(p@),
                None => None,
            },
        );
        let n = self.jobs.len();
        let mut out: Vec<PrinterJob> = Vec::new();
        let mut i: usize = 0;
        while i < n
            invariant
                n == self.jobs@.len(),
                i <= n,
                pred == select_pred(
                    want_active,
                    match printer {
                        Some(p) => Some(p@),
                        None => None,
                    },
                ),
                out.deep_view() =~= self.jobs.deep_view().subrange(0, i as int).filter(pred),
            decreases n - i,
        {
            let class_ok = match want_active {
                Some(true) => self.jobs[i].state.is_active_state(),
                Some(false) => self.jobs[i].state.is_terminal_state(),
                None => true,
            };
            let printer_ok = match printer {
                Some(p) => chars_eq(self.jobs[i].printer_name.as_str(), p),
                None => true,
            };
            proof {
                let x = self.jobs.deep_view()[i as int];
                assert(x == self.jobs@[i as int]@);
                assert(pred(x) == ((match want_active {
                    Some(true) => is_active(x.state),
                    Some(false) => is_terminal(x.state),
                    None => true,
                }) && (match printer {
                    Some(p) => x.printer_name == p@,
                    None => true,
                })));
                assert((class_ok && printer_ok) == pred(self.jobs.deep_view()[i as int]));
                self.jobs.deep_view().subrange(0, i as int).lemma_filter_push(
                    self.jobs.deep_view()[i as int],
                    pred,
                );
                assert(self.jobs.deep_view().subrange(0, i as int).push(
                    self.jobs.deep_view()[i as int],
                ) =~= self.jobs.deep_view().subrange(0, i + 1 as int));
            }
            if class_ok && printer_ok {
                out.push(self.jobs[i].clone());
            }
            i = i + 1;
        }
        proof {
            assert(self.jobs.deep_view().subrange(0, n as int) =~= self.jobs.deep_view());
        }
        out
    }

    /// All records whose state is active (`PENDING`, `PROCESSING` or
    /// `PAUSED`), in registry order.
    pub fn get_active_jobs(&self) -> (r: Vec<PrinterJob>)
        ensures
            r.deep_view() == active_jobs_of(self.jobs()),
    {
        self.select_jobs(Some(true), None)
    }

    /// The active records targeting exactly this printer name.
    pub fn get_active_jobs_for_printer(&self, printer_name: &str) -> (r: Vec<PrinterJob>)
        ensures
            r.deep_view() == self.jobs().filter(select_pred(Some(true), Some(printer_name@))),
    {
        self.select_jobs(Some(true), Some(printer_name))
    }

    /// All records whose state is terminal (`COMPLETED` or `CANCELLED`), in
    /// registry order.
    pub fn get_job_history(&self) -> (r: Vec<PrinterJob>)
        ensures
            r.deep_view() == terminal_jobs_of(self.jobs()),
    {
        self.select_jobs(Some(false), None)
    }

    /// The terminal records targeting exactly this printer name.
    pub fn get_job_history_for_printer(&self, printer_name: &str) -> (r: Vec<PrinterJob>)
        ensures
            r.deep_view() == self.jobs().filter(select_pred(Some(false), Some(printer_name@))),
    {
        self.select_jobs(Some(false), Some(printer_name))
    }

    /// Every record targeting exactly this printer name, whatever its state.
    pub fn get_all_jobs_for_printer(&self, printer_name: &str) -> (r: Vec<PrinterJob>)
        ensures
            r.deep_view() == self.jobs().filter(select_pred(None, Some(printer_name@))),
    {
        self.select_jobs(None, Some(printer_name))
    }

    /// The terminal records targeting this printer, ordered most recent
    /// first by creation time (records created at the same time may come in
    /// any order): the same records as `get_job_history_for_printer`,
    /// rearranged.
    pub fn get_job_history_sorted(&self, printer_name: &str) -> (r: Vec<PrinterJob>)
        ensures
            r.deep_view().to_multiset() == self.jobs().filter(
                select_pred(Some(false), Some(printer_name@)),
            ).to_multiset(),
            vstd::relations::sorted_by(r.deep_view(), created_desc()),
    {
        let mut v = self.get_job_history_for_printer(printer_name);
        let ghost target = v.deep_view().to_multiset();
        let ghost n = v@.len();
        let mut i: usize = 1;
        while i < v.len()
            invariant
                n == v@.len(),
                v.deep_view().to_multiset() == target,
                1 <= i,
                i <= n || n == 0,
                vstd::relations::sorted_by(
                    v.deep_view().subrange(0, if i as int <= n { i as int } else { n as int }),
                    created_desc(),
                ),
            decreases n - i,
        {
            let cur_created = v[i].created_at;
            let mut p: usize = 0;
            while p < i && v[p].created_at >= cur_created
                invariant
                    n == v@.len(),
                    v.deep_view().to_multiset() == target,
                    i < n,
                    p <= i,
                    vstd::relations::sorted_by(
                        v.deep_view().subrange(0, i as int),
                        created_desc(),
                    ),
                    cur_created == v.deep_view()[i as int].created_at,
                    forall|q: int|
                        0 <= q < p ==> (#[trigger] v.deep_view()[q]).created_at >= cur_created,
                decreases i - p,
            {
                p = p + 1;
            }
            if p < i {
                let ghost before = v.deep_view();
                let x = v.remove(i);
                v.insert(p, x);
                proof {
                    let moved = before[i as int];
                    assert(v.deep_view() =~= before.remove(i as int).insert(p as int, moved));
                    lemma_move_back_sorted(before, v.deep_view(), i as int, p as int);
                }
            } else {
                proof {
                    assert forall|a: int, b: int| 0 <= a < b < i + 1 implies created_desc()(
                        #[trigger] v.deep_view().subrange(0, i + 1)[a],
                        #[trigger] v.deep_view().subrange(0, i + 1)[b],
                    ) by {
                        if b == i as int {
                            assert(v.deep_view()[a].created_at >= cur_created);
                        }
                    }
                }
            }
            i = i + 1;
        }
        proof {
            if n > 0 {
                assert(v.deep_view().subrange(0, n as int) =~= v.deep_view());
            }
        }
        v
    }

    /// The retention sweep: evict every terminal record whose age has reached
    /// `max_age_seconds`; active records survive regardless of age. Returns
    /// how many records were evicted. A threshold of zero evicts every
    /// terminal record.
    pub fn cleanup_old_jobs(&mut self, max_age_seconds: u64, now: u64) -> (removed: u32)
        requires
            old(self).wf(),
            old(self).jobs().len() < u32::MAX,
        ensures
            final(self).wf(),
            final(self).next_id() == old(self).next_id(),
            final(self).shutting_down() == old(self).shutting_down(),
            final(self).jobs() == old(self).jobs().filter(sweep_pred(max_age_seconds, now)),
            removed as int == old(self).jobs().len() - final(self).jobs().len(),
    {
        let ghost pred = sweep_pred(max_age_seconds, now);
        let n = self.jobs.len();
        let mut kept: Vec<PrinterJob> = Vec::new();
        let mut removed: u32 = 0;
        let mut i: usize = 0;
        while i < n
            invariant
                n == self.jobs@.len(),
                n < u32::MAX,
                i <= n,
                pred == sweep_pred(max_age_seconds, now),
                kept.deep_view() =~= self.jobs.deep_view().subrange(0, i as int).filter(pred),
                removed as int == i - kept@.len(),
                kept@.len() <= i,
            decreases n - i,
        {
            let keep = if self.jobs[i].state.is_terminal_state() {
                let age = if now >= self.jobs[i].created_at {
                    now - self.jobs[i].created_at
                } else {
                    0
                };
                age < max_age_seconds
            } else {
                true
            };
            proof {
                let x = self.jobs.deep_view()[i as int];
                assert(x == self.jobs@[i as int]@);
                assert(pred(x) == keep_after_sweep(x, max_age_seconds, now));
                assert(keep == pred(self.jobs.deep_view()[i as int]));
                self.jobs.deep_view().subrange(0, i as int).lemma_filter_push(
                    self.jobs.deep_view()[i as int],
                    pred,
                );
                assert(self.jobs.deep_view().subrange(0, i as int).push(
                    self.jobs.deep_view()[i as int],
                ) =~= self.jobs.deep_view().subrange(0, i + 1 as int));
            }
            if keep {
                kept.push(self.jobs[i].clone());
            } else {
                removed = removed + 1;
            }
            i = i + 1;
        }
        proof {
            assert(self.jobs.deep_view().subrange(0, n as int) =~= self.jobs.deep_view());
            lemma_filter_preserves_registry(self.jobs.deep_view(), pred, self.next_job_id);
            self.jobs.deep_view().lemma_filter_len(pred);
        }
        self.jobs = kept;
        removed
    }

    /// The retention sweep scoped to one printer: evict that printer's
    /// terminal records whose age has reached `max_age_seconds`; every other
    /// record survives. Returns how many records were evicted.
    pub fn cleanup_old_jobs_for_printer(
        &mut self,
        printer_name: &str,
        max_age_seconds: u64,
        now: u64,
    ) -> (removed: u32)
        requires
            old(self).wf(),
            old(self).jobs().len() < u32::MAX,
        ensures
            final(self).wf(),
            final(self).next_id() == old(self).next_id(),
            final(self).shutting_down() == old(self).shutting_down(),
            final(self).jobs() == old(self).jobs().filter(
                printer_sweep_pred(printer_name@, max_age_seconds, now),
            ),
            removed as int == old(self).jobs().len() - final(self).jobs().len(),
    {
        let ghost pred = printer_sweep_pred(printer_name@, max_age_seconds, now);
        let n = self.jobs.len();
        let mut kept: Vec<PrinterJob> = Vec::new();
        let mut removed: u32 = 0;
        let mut i: usize = 0;
        while i < n
            invariant
                n == self.jobs@.len(),
                n < u32::MAX,
                i <= n,
                pred == printer_sweep_pred(printer_name@, max_age_seconds, now),
                kept.deep_view() =~= self.jobs.deep_view().subrange(0, i as int).filter(pred),
                removed as int == i - kept@.len(),
                kept@.len() <= i,
            decreases n - i,
        {
            let keep = if chars_eq(self.jobs[i].printer_name.as_str(), printer_name)
                && self.jobs[i].state.is_terminal_state() {
                let age = if now >= self.jobs[i].created_at {
                    now - self.jobs[i].created_at
                } else {
                    0
                };
                age < max_age_seconds
            } else {
                true
            };
            proof {
                let x = self.jobs.deep_view()[i as int];
                assert(x == self.jobs@[i as int]@);
                assert(pred(x) == keep_after_printer_sweep(x, printer_name@, max_age_seconds, now));
                assert(keep == pred(self.jobs.deep_view()[i as int]));
                self.jobs.deep_view().subrange(0, i as int).lemma_filter_push(
                    self.jobs.deep_view()[i as int],
                    pred,
                );
                assert(self.jobs.deep_view().subrange(0, i as int).push(
                    self.jobs.deep_view()[i as int],
                ) =~= self.jobs.deep_view().subrange(0, i + 1 as int));
            }
            if keep {
                kept.push(self.jobs[i].clone());
            } else {
                removed = removed + 1;
            }
            i = i + 1;
        }
        proof {
            assert(self.jobs.deep_view().subrange(0, n as int) =~= self.jobs.deep_view());
            lemma_filter_preserves_registry(self.jobs.deep_view(), pred, self.next_job_id);
            self.jobs.deep_view().lemma_filter_len(pred);
        }
        self.jobs = kept;
        removed
    }

    /// Set the process-wide cancellation flag; every worker observes it at its
    /// next poll point.
    pub fn begin_shutdown(&mut self)
        requires
            old(self).wf(),
        ensures
            final(self).wf(),
            final(self).jobs() == old(self).jobs(),
            final(self).next_id() == old(self).next_id(),
            final(self).shutting_down(),
    {
        self.shutdown_requested = true;
    }

    /// Whether process-wide cancellation has been requested; the capability
    /// workers poll while waiting.
    pub fn is_cancelled(&self) -> (r: bool)
        ensures
            r == self.shutting_down(),
    {
        self.shutdown_requested
    }

    /// Unconditionally empty the registry. Used only during shutdown.
    pub fn clear(&mut self)
        requires
            old(self).wf(),
        ensures
            final(self).wf(),
            final(self).jobs() == Seq::<JobView>::empty(),
            final(self).next_id() == old(self).next_id(),
            final(self).shutting_down() == old(self).shutting_down(),
    {
        self.jobs.clear();
        proof {
            assert(self.jobs() =~= Seq::<JobView>::empty());
        }
    }

    /// Conclude a shutdown after the drain: empty the registry and reset the
    /// cancellation flag, so the context is reusable for a subsequent run.
    pub fn finish_shutdown(&mut self)
        requires
            old(self).wf(),
        ensures
            final(self).wf(),
            final(self).jobs() == Seq::<JobView>::empty(),
            final(self).next_id() == old(self).next_id(),
            !final(self).shutting_down(),
    {
        self.clear();
        self.shutdown_requested = false;
    }
}

/// The display name a submission records: the one the options carry, or the
/// fallback when they carry none.
pub open spec fn submitted_name(options: Option<PrinterJobOptions>, fallback: Seq<char>) -> Seq<
    char,
> {
    match options {
        Some(o) => match o.name {
            Some(n) => n@,
            None => fallback,
        },
        None => fallback,
    }
}

/// The display name the options themselves carry, when they carry one.
pub open spec fn options_name(options: Option<PrinterJobOptions>) -> Option<Seq<char>> {
    match options {
        Some(o) => match o.name {
            Some(n) => Some(n@),
            None => None,
        },
        None => None,
    }
}

impl PrinterCore {
    /// Submit a file job, with `fallback_name` as display name when the
    /// options choose none. A rejected submission leaves no trace; an accepted
    /// one issues the next identifier and appends a `PENDING` record carrying
    /// it.
    pub fn print_file_named(
        &mut self,
        printer_name: &str,
        file_path: &str,
        job_options: Option<PrinterJobOptions>,
        fallback_name: String,
        env: &SubmitEnv,
        now: u64,
    ) -> (r: Result<u64, PrintError>)
        requires
            old(self).wf(),
            old(self).next_id() < u64::MAX,
        ensures
            final(self).wf(),
            final(self).shutting_down() == old(self).shutting_down(),
            ({
                let err = submit_file_error(
                    env.simulate,
                    printer_name@,
                    file_path@,
                    env.printer_found,
                    env.file_exists,
                );
                match err {
                    Some(e) => r == Err::<u64, PrintError>(e) && final(self).jobs() == old(
                        self,
                    ).jobs() && final(self).next_id() == old(self).next_id(),
                    None => {
                        &&& r == Ok::<u64, PrintError>(old(self).next_id())
                        &&& final(self).next_id() == old(self).next_id() + 1
                        &&& final(self).jobs() == old(self).jobs().push(
                            pending_job_view(
                                old(self).next_id(),
                                submitted_name(job_options, fallback_name@),
                                media_type_of(file_path@),
                                now,
                                printer_name@,
                            ),
                        )
                    },
                }
            }),
    {
        let resolves = if env.simulate {
            chars_eq(printer_name, "Simulated Printer")
        } else {
            env.printer_found
        };
        if !resolves {
            return Err(PrintError::PrinterNotFound);
        }
        match check_file_submission(file_path, env) {
            Some(e) => Err(e),
            None => {
                let id = self.generate_job_id();
                let name = match job_options {
                    Some(o) => match o.name {
                        Some(n) => n,
                        None => fallback_name,
                    },
                    None => fallback_name,
                };
                let media_type = detect_media_type(file_path);
                let record = PrinterJob {
                    id,
                    name,
                    state: PrinterJobState::PENDING,
                    media_type,
                    created_at: now,
                    processed_at: None,
                    completed_at: None,
                    printer_name: String::from_str(printer_name),
                    error_message: None,
                };
                self.push_pending(record);
                Ok(id)
            },
        }
    }

    /// Submit a file job. When the options choose no display name, a fresh
    /// random 32-character identifier is used instead.
    pub fn print_file(
        &mut self,
        printer_name: &str,
        file_path: &str,
        job_options: Option<PrinterJobOptions>,
        env: &SubmitEnv,
        now: u64,
    ) -> (r: Result<u64, PrintError>)
        requires
            old(self).wf(),
            old(self).next_id() < u64::MAX,
        ensures
            final(self).wf(),
            final(self).shutting_down() == old(self).shutting_down(),
            ({
                let err = submit_file_error(
                    env.simulate,
                    printer_name@,
                    file_path@,
                    env.printer_found,
                    env.file_exists,
                );
                match err {
                    Some(e) => r == Err::<u64, PrintError>(e) && final(self).jobs() == old(
                        self,
                    ).jobs() && final(self).next_id() == old(self).next_id(),
                    None => {
                        &&& r == Ok::<u64, PrintError>(old(self).next_id())
                        &&& final(self).next_id() == old(self).next_id() + 1
                        &&& final(self).jobs().len() == old(self).jobs().len() + 1
                        &&& final(self).jobs().drop_last() == old(self).jobs()
                        &&& final(self).jobs().last() == pending_job_view(
                            old(self).next_id(),
                            final(self).jobs().last().name,
                            media_type_of(file_path@),
                            now,
                            printer_name@,
                        )
                        &&& match options_name(job_options) {
                            Some(n) => final(self).jobs().last().name == n,
                            None => final(self).jobs().last().name.len() == 32,
                        }
                    },
                }
            }),
    {
        let needs_fallback = match &job_options {
            Some(o) => o.name.is_none(),
            None => true,
        };
        let fallback = if needs_fallback {
            fresh_job_name()
        } else {
            String::new()
        };
        let r = self.print_file_named(printer_name, file_path, job_options, fallback, env, now);
        proof {
            if r is Ok {
                assert(self.jobs().drop_last() =~= old(self).jobs());
            }
        }
        r
    }

    /// Submit a byte payload. Only printer resolution can reject it; the
    /// record is tracked under a descriptor naming the payload length and
    /// carries the raw-bytes media type.
    pub fn print_bytes(
        &mut self,
        printer_name: &str,
        data: &[u8],
        job_options: Option<PrinterJobOptions>,
        env: &SubmitEnv,
        now: u64,
    ) -> (r: Result<u64, PrintError>)
        requires
            old(self).wf(),
            old(self).next_id() < u64::MAX,
        ensures
            final(self).wf(),
            final(self).shutting_down() == old(self).shutting_down(),
            ({
                let err = submit_bytes_error(env.simulate, printer_name@, env.printer_found);
                match err {
                    Some(e) => r == Err::<u64, PrintError>(e) && final(self).jobs() == old(
                        self,
                    ).jobs() && final(self).next_id() == old(self).next_id(),
                    None => {
                        &&& r == Ok::<u64, PrintError>(old(self).next_id())
                        &&& final(self).next_id() == old(self).next_id() + 1
                        &&& final(self).jobs() == old(self).jobs().push(
                            pending_job_view(
                                old(self).next_id(),
                                submitted_name(job_options, "Raw Bytes Print Job"@),
                                "application/vnd.cups-raw"@,
                                now,
                                printer_name@,
                            ),
                        )
                    },
                }
            }),
    {
        let resolves = if env.simulate {
            chars_eq(printer_name, "Simulated Printer")
        } else {
            env.printer_found
        };
        if !resolves {
            return Err(PrintError::PrinterNotFound);
        }
        let id = self.generate_job_id();
        let descriptor = make_bytes_descriptor(data.len());
        let media_type = detect_media_type(descriptor.as_str());
        proof {
            lemma_bytes_descriptor_is_raw(data@.len() as int);
        }
        let name = match job_options {
            Some(o) => match o.name {
                Some(n) => n,
                None => String::from_str("Raw Bytes Print Job"),
            },
            None => String::from_str("Raw Bytes Print Job"),
        };
        let record = PrinterJob {
            id,
            name,
            state: PrinterJobState::PENDING,
            media_type,
            created_at: now,
            processed_at: None,
            completed_at: None,
            printer_name: String::from_str(printer_name),
            error_message: None,
        };
        self.push_pending(record);
        Ok(id)
    }

    /// Append a freshly created `PENDING` record carrying the identifier the
    /// allocator just issued.
    fn push_pending(&mut self, record: PrinterJob)
        requires
            old(self).wf(),
            record@.state == PrinterJobState::PENDING,
            record@.processed_at is None,
            record@.completed_at is None,
            record@.error_message is None,
            record@.id == old(self).next_id() - 1,
            old(self).next_id() >= 1,
            ids_below(old(self).jobs(), (old(self).next_id() - 1) as u64),
        ensures
            final(self).wf(),
            final(self).next_id() == old(self).next_id(),
            final(self).shutting_down() == old(self).shutting_down(),
            final(self).jobs() == old(self).jobs().push(record@),
    {
        proof {
            assert(job_wf(record@));
        }
        self.jobs.push(record);
        proof {
            assert(self.jobs() =~= old(self).jobs().push(record@));
            assert(self.wf()) by {
                assert(forall|k: int|
                    0 <= k < old(self).jobs().len() ==> self.jobs()[k] == old(self).jobs()[k]);
            }
        }
    }
}

/// Index of the first tracked record carrying `job_id`, if any.
fn find_job_index(jobs: &Vec<PrinterJob>, job_id: u64) -> (r: Option<usize>)
    ensures
        match r {
            Some(i) => i as int == job_index_of(jobs.deep_view(), job_id) && i < jobs@.len(),
            None => job_index_of(jobs.deep_view(), job_id) == -1,
        },
{
    let n = jobs.len();
    let mut i: usize = 0;
    while i < n
        invariant
            n == jobs@.len(),
            i <= n,
            forall|j: int| 0 <= j < i ==> (#[trigger] jobs.deep_view()[j]).id != job_id,
        decreases n - i,
    {
        if jobs[i].id == job_id {
            proof {
                lemma_job_index_of(jobs.deep_view(), job_id);
                let k = job_index_of(jobs.deep_view(), job_id);
                if k > i as int {
                    assert(jobs.deep_view()[i as int].id != job_id);
                } else if k == -1 {
                    assert(jobs.deep_view()[i as int].id != job_id);
                } else if k < i as int {
                    assert(jobs.deep_view()[k].id != job_id);
                    assert(jobs.deep_view()[k].id == job_id);
                }
            }
            return Some(i);
        }
        i = i + 1;
    }
    proof {
        lemma_job_index_of(jobs.deep_view(), job_id);
        let k = job_index_of(jobs.deep_view(), job_id);
        if k >= 0 {
            assert(jobs.deep_view()[k].id != job_id);
            assert(jobs.deep_view()[k].id == job_id);
        }
    }
    None
}

} // verus!
