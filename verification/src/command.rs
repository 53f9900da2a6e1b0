//! What is known of an external program once it was asked to run.

use vstd::prelude::*;

verus! {

/// The outcome of running an external program to its end.
#[derive(Debug, Clone)]
pub enum ProcessReport {
    /// The program could not be started, or waiting for it failed.
    NotStarted,
    /// The program ran and ended.
    Exited {
        /// It ended with exit status 0.
        success: bool,
        /// What it wrote to its standard output.
        stdout: Vec<u8>,
    },
}

} // verus!
