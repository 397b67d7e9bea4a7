//! Interactive directory-jump helper library.
//!
//! The library models the two parts of the tool that carry real policy:
//! the terminal-multiplexer command synthesis (window and pane layout) and
//! the selection pipeline that turns tracked repository paths into an
//! interactively chosen path. Everything here is pure with respect to the
//! outside world: external processes are described as command plans and
//! side effects are reached only through capability traits.

pub mod app;
pub mod command;
pub mod environment;
pub mod errors;
pub mod ghq;
pub mod multiplexer;
pub mod selection;
pub mod shell;
pub mod text;
pub mod tmux;
