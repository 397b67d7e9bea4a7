use vstd::prelude::*;

use crate::errors::Error;

verus! {

/// Capability: read process-wide environment variables and change the
/// current working directory. Implementations fail `set_current_dir` with
/// `Error::CommandFailed` when the directory cannot be entered.
pub trait Environment {
    fn var(&self, key: &str) -> Option<String>;
    fn set_current_dir(&self, path: &str) -> Result<(), Error>;
}

} // verus!
