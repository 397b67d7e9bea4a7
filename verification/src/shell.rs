use vstd::prelude::*;

use crate::errors::Error;

verus! {

/// Capability: replace the current process image with the given shell.
/// A successful replacement never returns; implementations return
/// `Error::CommandFailed` when the replacement fails.
pub trait ShellExecutor {
    fn exec(&self, shell: &str) -> Result<(), Error>;
}

} // verus!
