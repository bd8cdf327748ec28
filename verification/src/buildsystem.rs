//! The provisioning backends a user can pick. Each value selects how the
//! generated pipeline is installed and started; the work itself (writing
//! install scripts, spawning the engine) lives with the caller that owns
//! the process and file-system boundary.

use vstd::prelude::*;

verus! {

/// The backend that writes a shell install script for the user to run.
pub struct Bash;

impl Bash {
    /// The shell-script backend.
    pub fn new() -> Bash {
        Bash {  }
    }
}

/// The backend that writes a makefile for the user to run.
pub struct Makefile;

impl Makefile {
    /// The makefile backend.
    pub fn new() -> Makefile {
        Makefile {  }
    }
}

/// The backend that asks the user nothing: for scripts that automate the
/// pipeline.
#[derive(Default)]
pub struct Quiet;

impl Quiet {
    /// The non-interactive backend.
    pub fn new() -> Quiet {
        Quiet {  }
    }
}

/// The backend with every step at its default.
#[derive(Default)]
pub struct DefaultBuildSystem;

} // verus!
