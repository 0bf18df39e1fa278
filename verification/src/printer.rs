//! The printing surface the unverified plumbing implements: a printer
//! that can send a file to a device.

use vstd::prelude::*;

verus! {

/// A printer that can print files of some format.
pub trait FilePrinter {
    /// The options the printer takes with a job.
    type Options;

    /// The error the printer reports.
    type Error;

    /// Print the file at the given path with the given options.
    fn print(&self, path: &str, options: Self::Options) -> Result<(), Self::Error>;
}

} // verus!
