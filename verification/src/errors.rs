//! Error taxonomy of the submission path.

use vstd::prelude::*;

verus! {

/// Why a submission was rejected synchronously.
///
/// `PrinterNotFound` and `FileNotFound` are the rejections the registry itself
/// produces; the remaining variants are reserved for the binding layers that
/// marshal caller input (malformed parameters or option payloads).
#[derive(Clone, Copy, Debug, PartialEq, Eq, Structural)]
pub enum PrintError {
    InvalidParams,
    InvalidPrinterName,
    InvalidFilePath,
    InvalidJson,
    InvalidJsonEncoding,
    PrinterNotFound,
    FileNotFound,
    SimulatedFailure,
}

/// The stable numeric code of each error.
pub open spec fn error_code(e: PrintError) -> i32 {
    match e {
        PrintError::InvalidParams => 1,
        PrintError::InvalidPrinterName => 2,
        PrintError::InvalidFilePath => 3,
        PrintError::InvalidJson => 4,
        PrintError::InvalidJsonEncoding => 5,
        PrintError::PrinterNotFound => 6,
        PrintError::FileNotFound => 7,
        PrintError::SimulatedFailure => 8,
    }
}

impl PrintError {
    /// The numeric code handed across language boundaries.
    pub fn as_i32(self) -> (r: i32)
        ensures
            r == error_code(self),
    {
        match self {
            PrintError::InvalidParams => 1,
            PrintError::InvalidPrinterName => 2,
            PrintError::InvalidFilePath => 3,
            PrintError::InvalidJson => 4,
            PrintError::InvalidJsonEncoding => 5,
            PrintError::PrinterNotFound => 6,
            PrintError::FileNotFound => 7,
            PrintError::SimulatedFailure => 8,
        }
    }
}

/// The same taxonomy as `PrintError`, under the names the object-style
/// bindings expose.
#[derive(Clone, Copy, Debug, PartialEq, Eq, Structural)]
pub enum PrintErrorCode {
    InvalidParams,
    InvalidPrinterName,
    InvalidFilePath,
    InvalidJson,
    InvalidJsonEncoding,
    PrinterNotFound,
    FileNotFound,
}

/// The registry error that each binding-level code stands for.
pub open spec fn print_error_of_code(c: PrintErrorCode) -> PrintError {
    match c {
        PrintErrorCode::InvalidParams => PrintError::InvalidParams,
        PrintErrorCode::InvalidPrinterName => PrintError::InvalidPrinterName,
        PrintErrorCode::InvalidFilePath => PrintError::InvalidFilePath,
        PrintErrorCode::InvalidJson => PrintError::InvalidJson,
        PrintErrorCode::InvalidJsonEncoding => PrintError::InvalidJsonEncoding,
        PrintErrorCode::PrinterNotFound => PrintError::PrinterNotFound,
        PrintErrorCode::FileNotFound => PrintError::FileNotFound,
    }
}

impl PrintErrorCode {
    /// The numeric code, matching `PrintError` on the shared variants.
    pub fn as_i32(self) -> (r: i32)
        ensures
            r == error_code(print_error_of_code(self)),
    {
        self.as_print_error().as_i32()
    }

    /// The corresponding registry error.
    pub fn as_print_error(self) -> (r: PrintError)
        ensures
            r == print_error_of_code(self),
    {
        match self {
            PrintErrorCode::InvalidParams => PrintError::InvalidParams,
            PrintErrorCode::InvalidPrinterName => PrintError::InvalidPrinterName,
            PrintErrorCode::InvalidFilePath => PrintError::InvalidFilePath,
            PrintErrorCode::InvalidJson => PrintError::InvalidJson,
            PrintErrorCode::InvalidJsonEncoding => PrintError::InvalidJsonEncoding,
            PrintErrorCode::PrinterNotFound => PrintError::PrinterNotFound,
            PrintErrorCode::FileNotFound => PrintError::FileNotFound,
        }
    }
}

} // verus!
