//! The simulation policy and the submission-time checks.
//!
//! A single configuration toggle selects between real execution and a
//! deterministic simulated one. Under simulation, printer resolution is
//! short-circuited to one synthetic printer name and file existence checks are
//! replaced by filename marker heuristics, so the whole state machine can be
//! exercised without a printing subsystem.

use vstd::prelude::*;

use crate::errors::PrintError;
use crate::media::{extension_of, file_extension};
use crate::text::{chars_eq, contains_seq, contains_substr, folds_to, folds_to_lower};

verus! {

/// Base part of the fixed simulated execution delay, in milliseconds.
pub const SIMULATION_BASE_TIME_MS: u64 = 1000;

/// Variable part of the simulated execution delay, in milliseconds; the fixed
/// delay uses half of it.
pub const SIMULATION_VARIABLE_TIME_MS: u64 = 2000;

/// How often a worker polls the cancellation signal while waiting, in
/// milliseconds.
pub const WORKER_POLL_INTERVAL_MS: u64 = 100;

/// Overall bound on the shutdown drain, in milliseconds.
pub const SHUTDOWN_TIMEOUT_MS: u64 = 5000;

/// The configuration value that the caller read, when one is set.
///
/// The toggle is re-read before every decision point rather than cached, so
/// tests may flip it mid-run; callers hand the freshly read value in.
pub open spec fn simulation_chosen(value: Option<Seq<char>>) -> bool {
    match value {
        Some(v) => v == "true"@ || v == "1"@,
        None => false,
    }
}

/// Decide the simulation policy from the configuration value the caller read:
/// only the two truthy tokens select simulation; anything else, or an absent
/// value, means real execution.
pub fn should_simulate_printing(value: Option<&str>) -> (r: bool)
    ensures
        r == simulation_chosen(match value {
            Some(v) => Some(v@),
            None => None,
        }),
{
    match value {
        Some(v) => chars_eq(v, "true") || chars_eq(v, "1"),
        None => false,
    }
}

/// The one printer name that resolves under simulation.
pub open spec fn sim_printer_name() -> Seq<char> {
    "Simulated Printer"@
}

/// Whether the target printer resolves: under simulation exactly the synthetic
/// name does; otherwise resolution is whatever the printing subsystem
/// reported.
pub open spec fn printer_resolves(simulate: bool, name: Seq<char>, subsystem_found: bool) -> bool {
    if simulate {
        name == sim_printer_name()
    } else {
        subsystem_found
    }
}

/// A payload identifier carrying a missing-file marker.
pub open spec fn has_missing_marker(path: Seq<char>) -> bool {
    contains_seq(path, "nonexistent"@) || contains_seq(path, "does_not_exist"@)
}

/// A payload identifier carrying a forced-failure marker.
pub open spec fn has_failure_marker(path: Seq<char>) -> bool {
    contains_seq(path, "fail-test"@)
}

/// The submission-time file check: under simulation the marker heuristics
/// decide (the missing-file marker wins over the forced-failure one);
/// otherwise the filesystem report decides.
pub open spec fn file_check_error(simulate: bool, path: Seq<char>, file_exists: bool) -> Option<
    PrintError,
> {
    if simulate {
        if has_missing_marker(path) {
            Some(PrintError::FileNotFound)
        } else if has_failure_marker(path) {
            Some(PrintError::SimulatedFailure)
        } else {
            None
        }
    } else if !file_exists {
        Some(PrintError::FileNotFound)
    } else {
        None
    }
}

/// The synchronous outcome of a file submission: printer resolution is checked
/// first, then the payload.
pub open spec fn submit_file_error(
    simulate: bool,
    printer_name: Seq<char>,
    file_path: Seq<char>,
    printer_found: bool,
    file_exists: bool,
) -> Option<PrintError> {
    if !printer_resolves(simulate, printer_name, printer_found) {
        Some(PrintError::PrinterNotFound)
    } else {
        file_check_error(simulate, file_path, file_exists)
    }
}

/// The synchronous outcome of a byte submission: only printer resolution can
/// reject it.
pub open spec fn submit_bytes_error(
    simulate: bool,
    printer_name: Seq<char>,
    printer_found: bool,
) -> Option<PrintError> {
    if !printer_resolves(simulate, printer_name, printer_found) {
        Some(PrintError::PrinterNotFound)
    } else {
        None
    }
}

/// Run the submission-time file check, as executable code.
pub fn check_file_submission(file_path: &str, env: &SubmitEnv) -> (r: Option<PrintError>)
    ensures
        r == file_check_error(env.simulate, file_path@, env.file_exists),
{
    if env.simulate {
        if contains_substr(file_path, "nonexistent") || contains_substr(
            file_path,
            "does_not_exist",
        ) {
            Some(PrintError::FileNotFound)
        } else if contains_substr(file_path, "fail-test") {
            Some(PrintError::SimulatedFailure)
        } else {
            None
        }
    } else if !env.file_exists {
        Some(PrintError::FileNotFound)
    } else {
        None
    }
}

/// Facts about the outside world gathered by the caller's adapter just before
/// a submission: the configured policy, and what the printing subsystem and
/// the filesystem reported for this request. Under simulation the two reports
/// are ignored.
pub struct SubmitEnv {
    /// Whether the simulation policy is selected.
    pub simulate: bool,
    /// Whether the printing subsystem resolved the target printer (real mode).
    pub printer_found: bool,
    /// Whether the payload file exists (real mode, file submissions).
    pub file_exists: bool,
}

/// The size-proportional part of the keep-alive delay: one second per whole
/// mebibyte, capped at thirty seconds.
pub open spec fn size_delay_ms(size: int) -> int {
    let d = (size / 1048576) * 1000;
    if d < 30000 {
        d
    } else {
        30000
    }
}

/// The extension bonus of the keep-alive delay for file payloads: image
/// formats get three extra seconds, page-description documents two.
pub open spec fn file_delay_bonus_ms(path: Seq<char>) -> int {
    match extension_of(path) {
        Some(ext) => {
            if folds_to(ext, "jpg"@) || folds_to(ext, "jpeg"@) || folds_to(ext, "png"@)
                || folds_to(ext, "gif"@) || folds_to(ext, "bmp"@) || folds_to(ext, "tiff"@)
                || folds_to(ext, "tif"@) {
                3000
            } else if folds_to(ext, "pdf"@) {
                2000
            } else {
                0
            }
        },
        None => 0,
    }
}

/// Keep-alive delay after a successful real file submission.
pub open spec fn file_keep_alive_ms(file_size: u64, path: Seq<char>) -> int {
    2000 + size_delay_ms(file_size as int) + file_delay_bonus_ms(path)
}

/// The size bonus of the keep-alive delay for byte payloads.
pub open spec fn bytes_delay_bonus_ms(size: int) -> int {
    if size > 5242880 {
        3000
    } else if size > 1048576 {
        1500
    } else {
        0
    }
}

/// Keep-alive delay after a successful real byte submission.
pub open spec fn bytes_keep_alive_ms(size: int) -> int {
    2000 + size_delay_ms(size) + bytes_delay_bonus_ms(size)
}

/// The fixed duration of a simulated execution, in milliseconds.
pub fn simulated_print_delay_ms() -> (r: u64)
    ensures
        r == SIMULATION_BASE_TIME_MS + SIMULATION_VARIABLE_TIME_MS / 2,
{
    SIMULATION_BASE_TIME_MS + SIMULATION_VARIABLE_TIME_MS / 2
}

use crate::registry::PrinterCore;

impl PrinterCore {
    /// Whether a printer with this name currently resolves, given the
    /// subsystem's report.
    pub fn printer_exists(name: &str, env: &SubmitEnv) -> (r: bool)
        ensures
            r == printer_resolves(env.simulate, name@, env.printer_found),
    {
        if env.simulate {
            chars_eq(name, "Simulated Printer")
        } else {
            env.printer_found
        }
    }

    /// The printer names visible to callers: under simulation the synthetic
    /// printer alone, otherwise whatever the subsystem enumerated.
    pub fn get_all_printer_names(simulate: bool, subsystem_names: Vec<String>) -> (r: Vec<String>)
        ensures
            simulate ==> r.deep_view() == seq![sim_printer_name()],
            !simulate ==> r == subsystem_names,
    {
        if simulate {
            let mut names: Vec<String> = Vec::new();
            names.push(String::from_str("Simulated Printer"));
            proof {
                assert(names.deep_view() =~= seq![sim_printer_name()]);
            }
            names
        } else {
            subsystem_names
        }
    }

    /// Keep-alive delay applied after a successful real file submission, from
    /// the payload's size and name.
    pub fn calculate_print_delay(file_size: u64, file_path: &str) -> (r: u64)
        ensures
            r == file_keep_alive_ms(file_size, file_path@),
    {
        let size_mb = file_size / 1048576;
        let size_delay: u64 = if size_mb < 30 {
            size_mb * 1000
        } else {
            30000
        };
        let mut delay_ms: u64 = 2000 + size_delay;
        match file_extension(file_path) {
            Some(ext) => {
                if folds_to_lower(ext, "jpg") || folds_to_lower(ext, "jpeg") || folds_to_lower(
                    ext,
                    "png",
                ) || folds_to_lower(ext, "gif") || folds_to_lower(ext, "bmp") || folds_to_lower(
                    ext,
                    "tiff",
                ) || folds_to_lower(ext, "tif") {
                    delay_ms = delay_ms + 3000;
                } else if folds_to_lower(ext, "pdf") {
                    delay_ms = delay_ms + 2000;
                }
            },
            None => {},
        }
        delay_ms
    }

    /// Keep-alive delay applied after a successful real byte submission, from
    /// the payload's size.
    pub fn calculate_bytes_print_delay(data_size: usize) -> (r: u64)
        ensures
            r == bytes_keep_alive_ms(data_size as int),
    {
        let size_mb = data_size / 1048576;
        let size_delay: u64 = if size_mb < 30 {
            (size_mb as u64) * 1000
        } else {
            30000
        };
        let mut delay_ms: u64 = 2000 + size_delay;
        if data_size > 5242880 {
            delay_ms = delay_ms + 3000;
        } else if data_size > 1048576 {
            delay_ms = delay_ms + 1500;
        }
        delay_ms
    }
}

} // verus!
