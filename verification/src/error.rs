//! The kinds of failure that the system reports.

use vstd::prelude::*;

verus! {

/// What can go wrong. The library itself returns `DuplicateName`, `NotFound`
/// and, for an activation reported as failed, `ExternalProcessError`; the other
/// kinds name failures of the outside work, for the caller to report.
#[derive(Clone, Copy, Debug, PartialEq, Eq, Structural)]
pub enum Error {
    /// A configuration of that name is already stored.
    DuplicateName,
    /// No configuration at that index or of that name.
    NotFound,
    /// A persisted file could not be read or written.
    IOError,
    /// A persisted record is malformed.
    ParseError,
    /// The redirector or the NAT tool could not be run, or reported failure.
    ExternalProcessError,
    /// Elevated privileges could not be obtained.
    PrivilegeError,
}

impl Error {
    /// A one-line description for the status display.
    pub fn message(&self) -> (r: &'static str)
        ensures
            r@ == match *self {
                Error::DuplicateName => "a configuration with this name already exists"@,
                Error::NotFound => "no such configuration"@,
                Error::IOError => "a configuration file could not be read or written"@,
                Error::ParseError => "a configuration record is malformed"@,
                Error::ExternalProcessError => "an external command failed"@,
                Error::PrivilegeError => "elevated privileges could not be obtained"@,
            },
    {
        match self {
            Error::DuplicateName => "a configuration with this name already exists",
            Error::NotFound => "no such configuration",
            Error::IOError => "a configuration file could not be read or written",
            Error::ParseError => "a configuration record is malformed",
            Error::ExternalProcessError => "an external command failed",
            Error::PrivilegeError => "elevated privileges could not be obtained",
        }
    }
}

} // verus!
