use vstd::prelude::*;

verus! {

/// The error kinds the tool can surface. Each variant carries the name or
/// text it is about: the missing tool, the tool that failed, the offending
/// path, or a description of the rejected flag combination.
#[derive(Debug)]
pub enum Error {
    /// A required external tool is absent from the search path.
    CommandNotFound(String),
    /// An external tool ran but exited non-zero, or could not be spawned.
    CommandFailed(String),
    /// A selected path is not representable as text. Paths reach this
    /// library already as text, so nothing in it constructs this variant;
    /// it marks the boundary where raw bytes would have to be rejected.
    InvalidPath(String),
    /// The requested flags contradict each other.
    InvalidFlagCombination(String),
}

} // verus!
