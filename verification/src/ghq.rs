use vstd::prelude::*;

use crate::errors::Error;
use crate::text::lines_of;
use crate::text::split_lines;

verus! {

/// Capability: the external repository tracker. `roots` returns the
/// configured root directories, `list_full_path` the absolute paths of all
/// tracked repositories, both in the order the tracker reports them.
/// Implementations propagate `Error::CommandFailed` from the tool verbatim.
pub trait GhqClient {
    fn roots(&self) -> Result<Vec<String>, Error>;
    fn list_full_path(&self) -> Result<Vec<String>, Error>;
}

/// Turns the tracker's raw output into its list of lines, exactly as the
/// tracker's one-path-per-line format asks for.
pub fn parse_tracker_output(output: &str) -> (r: Vec<String>)
    ensures
        r.deep_view() == lines_of(output@),
{
    split_lines(output)
}

} // verus!
