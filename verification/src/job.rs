//! The tracked record of one print submission.

use vstd::prelude::*;

use crate::state::{is_terminal, PrinterJobState};

verus! {

/// Mathematical view of one job record.
pub ghost struct JobView {
    pub id: u64,
    pub name: Seq<char>,
    pub state: PrinterJobState,
    pub media_type: Seq<char>,
    pub created_at: u64,
    pub processed_at: Option<u64>,
    pub completed_at: Option<u64>,
    pub printer_name: Seq<char>,
    pub error_message: Option<Seq<char>>,
}

/// One tracked print job.
///
/// Timestamps are seconds since the epoch, supplied by the caller's clock at
/// each transition: `created_at` at submission, `processed_at` when the worker
/// starts, `completed_at` on the terminal transition.
pub struct PrinterJob {
    /// Identifier, unique for the registry's lifetime.
    pub id: u64,
    /// Display name.
    pub name: String,
    /// Current lifecycle state.
    pub state: PrinterJobState,
    /// Media type derived once at submission.
    pub media_type: String,
    /// Submission time.
    pub created_at: u64,
    /// When the worker began active execution, once it has.
    pub processed_at: Option<u64>,
    /// When the job reached a terminal state, once it has.
    pub completed_at: Option<u64>,
    /// Target printer, as named at submission.
    pub printer_name: String,
    /// Failure detail, populated exactly on cancellation.
    pub error_message: Option<String>,
}

impl View for PrinterJob {
    type V = JobView;

    open spec fn view(&self) -> JobView {
        JobView {
            id: self.id,
            name: self.name@,
            state: self.state,
            media_type: self.media_type@,
            created_at: self.created_at,
            processed_at: self.processed_at,
            completed_at: self.completed_at,
            printer_name: self.printer_name@,
            error_message: match self.error_message {
                Some(m) => Some(m@),
                None => None,
            },
        }
    }
}

impl DeepView for PrinterJob {
    type V = JobView;

    open spec fn deep_view(&self) -> JobView {
        self.view()
    }
}

/// Well-formedness of a single record:
/// - a processing start time is recorded exactly once the state has moved past
///   `PENDING`;
/// - a completion time is recorded exactly in the terminal states;
/// - a failure message is recorded exactly in `CANCELLED`;
/// - the defensive `UNKNOWN` state never appears;
/// - the recorded timestamps never decrease along the lifecycle.
pub open spec fn job_wf(j: JobView) -> bool {
    &&& (j.processed_at is Some <==> j.state != PrinterJobState::PENDING)
    &&& (j.completed_at is Some <==> is_terminal(j.state))
    &&& (j.error_message is Some <==> j.state == PrinterJobState::CANCELLED)
    &&& j.state != PrinterJobState::UNKNOWN
    &&& match j.processed_at {
        Some(p) => j.created_at <= p,
        None => true,
    }
    &&& match (j.processed_at, j.completed_at) {
        (Some(p), Some(c)) => p <= c,
        _ => true,
    }
}

impl Clone for PrinterJob {
    /// A snapshot copy of the record.
    fn clone(&self) -> (r: Self)
        ensures
            r == *self,
    {
        PrinterJob {
            id: self.id,
            name: self.name.clone(),
            state: self.state,
            media_type: self.media_type.clone(),
            created_at: self.created_at,
            processed_at: self.processed_at,
            completed_at: self.completed_at,
            printer_name: self.printer_name.clone(),
            error_message: match &self.error_message {
                Some(m) => Some(m.clone()),
                None => None,
            },
        }
    }
}

} // verus!
