//! Failures of one append call.  Malformed rows and missing documents or
//! sections are not errors (the codec treats them as empty input); these
//! variants cover the fatal cases the caller must see.

use vstd::prelude::*;

verus! {

/// Why an append call failed.
#[derive(Debug)]
pub enum Error {
    /// Any other failure, described in text.
    Generic(String),
    /// The document writer refused an operation (a cell write rejected, a
    /// malformed table region, a failed render).
    WorkStationError(String),
    /// An existing document could not be opened as a workbook.
    CalamaineXlsxError(String),
}

impl Error {
    /// A short description of the failure.
    pub fn message(&self) -> (r: &str)
        ensures
            (match self {
                Error::Generic(m) => r@ == m@,
                Error::WorkStationError(m) => r@ == m@,
                Error::CalamaineXlsxError(m) => r@ == m@,
            }),
    {
        match self {
            Error::Generic(m) => m.as_str(),
            Error::WorkStationError(m) => m.as_str(),
            Error::CalamaineXlsxError(m) => m.as_str(),
        }
    }
}

} // verus!
