use vstd::prelude::*;

use crate::errors::Error;

verus! {

/// What a new window is made of: its title and the directory its shell
/// starts in.
pub struct WindowConfig {
    pub name: String,
    pub start_dir: String,
}

impl WindowConfig {
    pub fn new(name: String, start_dir: String) -> (r: WindowConfig)
        ensures
            r.name@ == name@,
            r.start_dir@ == start_dir@,
    {
        WindowConfig { name, start_dir }
    }
}

/// Capability: the two window operations the current-pane flow needs from
/// the surrounding multiplexer session. A failed window creation is
/// reported as `Error::CommandFailed`; renaming is best-effort throughout —
/// a cosmetic failure is swallowed, so the operation always comes back Ok.
pub trait TmuxClient {
    fn new_window(&self, cfg: &WindowConfig) -> (r: Result<(), Error>)
        ensures
            r matches Err(e) ==> e is CommandFailed,
    ;

    fn rename_window(&self, name: &str) -> (r: Result<(), Error>)
        ensures
            r is Ok,
    ;
}

/// The stand-in used outside any multiplexer session: both operations
/// succeed immediately without doing anything.
pub struct NoopTmuxClient;

impl TmuxClient for NoopTmuxClient {
    fn new_window(&self, cfg: &WindowConfig) -> Result<(), Error> {
        Ok(())
    }

    fn rename_window(&self, name: &str) -> Result<(), Error> {
        Ok(())
    }
}

} // verus!
