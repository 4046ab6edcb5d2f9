//! The ways an invocation can fail. Every one of them is terminal.
use vstd::prelude::*;

verus! {

/// Why no license file was produced.
#[derive(Debug, Clone, PartialEq, Eq)]
pub enum LicenseError {
    /// The configuration file could not be read; holds its path.
    ConfigFileUnreadable(String),
    /// The configuration file could not be decoded; holds its path.
    ConfigFileUnparseable(String),
    /// A year entry was not a number; holds the entry.
    InvalidYearInput(String),
    /// The copyright holder's name is empty.
    EmptyCopyrightHolder,
    /// The license kind is neither MIT nor ISC; holds it as given.
    UnsupportedLicenseKind(String),
    /// The output file could not be written; holds its path.
    OutputUnwritable(String),
}

/// Whether `e` reports `license` as an unsupported kind.
pub open spec fn is_unsupported(e: LicenseError, license: Seq<char>) -> bool {
    match e {
        LicenseError::UnsupportedLicenseKind(l) => l@ == license,
        _ => false,
    }
}

/// Whether `e` reports `entry` as an invalid year.
pub open spec fn is_invalid_year(e: LicenseError, entry: Seq<char>) -> bool {
    match e {
        LicenseError::InvalidYearInput(s) => s@ == entry,
        _ => false,
    }
}

} // verus!
