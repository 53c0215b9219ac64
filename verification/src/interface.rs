//! Plain data carriers for the binding layers.
//!
//! These types hold only plain values; the binding adapters copy them across
//! the process boundary and attach their own marshaling there.

use vstd::prelude::*;

use crate::options::PrinterJobOptions;

verus! {

/// A deferred file submission, as handed to an asynchronous binding task.
pub struct PrintTask {
    /// Target printer name.
    pub printer_name: String,
    /// Path of the payload file.
    pub file_path: String,
    /// Caller-supplied options, when any.
    pub job_options: Option<PrinterJobOptions>,
    /// Whether the task should poll the job to completion before resolving.
    pub wait_for_completion: bool,
}

/// A deferred byte submission, as handed to an asynchronous binding task.
pub struct PrintBytesTask {
    /// Target printer name.
    pub printer_name: String,
    /// The payload bytes.
    pub data: Vec<u8>,
    /// Caller-supplied options, when any.
    pub job_options: Option<PrinterJobOptions>,
    /// Whether the task should poll the job to completion before resolving.
    pub wait_for_completion: bool,
}

/// A printer's descriptive attributes, as reported by the subsystem.
pub struct PrinterInfo {
    pub name: String,
    pub system_name: String,
    pub driver_name: String,
    pub uri: String,
    pub port_name: String,
    pub processor: String,
    pub data_type: String,
    pub description: String,
    pub location: String,
    pub is_default: bool,
    pub is_shared: bool,
    pub state: String,
    pub state_reasons: Vec<String>,
}

/// A printer handle exposed to object-style bindings: operations resolve the
/// printer by this name on every call.
pub struct Printer {
    /// The printer's identifying name.
    pub name: String,
}

/// Legacy status shape kept for callers of the older polling interface.
pub struct JobStatus {
    pub id: u32,
    pub printer_name: String,
    pub file_path: String,
    pub job_name: Option<String>,
    pub status: String,
    pub error_message: Option<String>,
    pub age_seconds: u32,
}

/// A change observed by printer state monitoring.
pub struct PrinterStateChangeEvent {
    /// One of the monitoring event kinds: connected, disconnected, state
    /// changed, or state reasons changed.
    pub event_type: String,
    pub printer_name: String,
    pub old_state: Option<String>,
    pub new_state: Option<String>,
    pub old_reasons: Option<Vec<String>>,
    pub new_reasons: Option<Vec<String>>,
}

} // verus!
