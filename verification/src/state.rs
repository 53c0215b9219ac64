//! The closed set of job states and its classification.

use vstd::prelude::*;

verus! {

/// Lifecycle state of one print job record.
///
/// `PENDING` and `PROCESSING` are the active states reached by normal
/// submissions; `PAUSED` is a reachable-but-unused intermediate state kept for
/// future use; `CANCELLED` and `COMPLETED` are terminal; `UNKNOWN` is a
/// defensive default that no transition of this library produces.
#[allow(non_camel_case_types)]
#[derive(Clone, Copy, Debug, PartialEq, Eq, Structural)]
pub enum PrinterJobState {
    PENDING,
    PAUSED,
    PROCESSING,
    CANCELLED,
    COMPLETED,
    UNKNOWN,
}

/// A terminal record never transitions again.
pub open spec fn is_terminal(s: PrinterJobState) -> bool {
    s == PrinterJobState::COMPLETED || s == PrinterJobState::CANCELLED
}

/// Active records are the ones listings report as in flight.
pub open spec fn is_active(s: PrinterJobState) -> bool {
    s == PrinterJobState::PENDING || s == PrinterJobState::PROCESSING || s
        == PrinterJobState::PAUSED
}

/// The name of each state in the older polling interface: active states are
/// queued or printing, terminal ones completed or failed.
pub open spec fn legacy_status_name(s: PrinterJobState) -> Seq<char> {
    match s {
        PrinterJobState::PENDING => "queued"@,
        PrinterJobState::PROCESSING => "printing"@,
        PrinterJobState::COMPLETED => "completed"@,
        PrinterJobState::CANCELLED => "failed"@,
        _ => "unknown"@,
    }
}

/// The display name of each state.
pub open spec fn state_name(s: PrinterJobState) -> Seq<char> {
    match s {
        PrinterJobState::PENDING => "pending"@,
        PrinterJobState::PAUSED => "paused"@,
        PrinterJobState::PROCESSING => "processing"@,
        PrinterJobState::CANCELLED => "cancelled"@,
        PrinterJobState::COMPLETED => "completed"@,
        PrinterJobState::UNKNOWN => "unknown"@,
    }
}

impl PrinterJobState {
    /// Whether the state is terminal, as executable code.
    pub fn is_terminal_state(&self) -> (r: bool)
        ensures
            r == is_terminal(*self),
    {
        match self {
            PrinterJobState::COMPLETED => true,
            PrinterJobState::CANCELLED => true,
            _ => false,
        }
    }

    /// Whether the state counts as active, as executable code.
    pub fn is_active_state(&self) -> (r: bool)
        ensures
            r == is_active(*self),
    {
        match self {
            PrinterJobState::PENDING => true,
            PrinterJobState::PROCESSING => true,
            PrinterJobState::PAUSED => true,
            _ => false,
        }
    }

    /// The name of the state in the older polling interface, which knew only
    /// queued, printing, completed and failed.
    pub fn as_legacy_status(&self) -> (r: String)
        ensures
            r@ == legacy_status_name(*self),
    {
        match self {
            PrinterJobState::PENDING => String::from_str("queued"),
            PrinterJobState::PROCESSING => String::from_str("printing"),
            PrinterJobState::COMPLETED => String::from_str("completed"),
            PrinterJobState::CANCELLED => String::from_str("failed"),
            _ => String::from_str("unknown"),
        }
    }

    /// The display name of the state.
    pub fn as_string(&self) -> (r: String)
        ensures
            r@ == state_name(*self),
    {
        match self {
            PrinterJobState::PENDING => String::from_str("pending"),
            PrinterJobState::PAUSED => String::from_str("paused"),
            PrinterJobState::PROCESSING => String::from_str("processing"),
            PrinterJobState::CANCELLED => String::from_str("cancelled"),
            PrinterJobState::COMPLETED => String::from_str("completed"),
            PrinterJobState::UNKNOWN => String::from_str("unknown"),
        }
    }
}

} // verus!
