use vstd::prelude::*;

use crate::errors::Error;

verus! {

/// Capability: probe whether an executable exists on the search path,
/// without running it. A failure names the missing tool.
pub trait CommandChecker {
    fn check(&self, cmd: &str) -> (r: Result<(), Error>)
        ensures
            r matches Err(e) ==> (e matches Error::CommandNotFound(name) && name@ == cmd@),
    ;
}

/// Capability: run an external program with arguments, wait for it, and
/// return its captured standard output as text. Implementations fail with
/// `Error::CommandFailed` when the process exits non-zero or cannot be
/// spawned.
pub trait CommandRunner {
    fn run(&self, cmd: &str, args: &[&str]) -> Result<String, Error>;
}

/// Relies on which::which: returns Ok exactly when the search path holds an
/// executable of that name. The outcome depends on the machine, so nothing
/// more is claimed of it.
#[verifier::external_body]
fn executable_on_path(cmd: &str) -> bool {
    which::which(cmd).is_ok()
}

/// Probes the real search path through the `which` crate.
pub struct SystemCommandChecker;

impl CommandChecker for SystemCommandChecker {
    fn check(&self, cmd: &str) -> Result<(), Error> {
        if executable_on_path(cmd) {
            Ok(())
        } else {
            Err(Error::CommandNotFound(cmd.to_owned()))
        }
    }
}

} // verus!
