//! Failure kinds of the viewer.
//!
//! None of these is retried: each propagates to the top of the event loop,
//! which aborts and lets the owner tear the terminal session down.

use vstd::prelude::*;

verus! {

/// What went wrong, by the phase it belongs to.
#[derive(Clone, Copy, Debug, PartialEq, Eq)]
pub enum ErrorKind {
    /// The file named at startup could not be opened or read.
    StartupIo,
    /// Querying the terminal size, writing output, or toggling a terminal
    /// mode failed.
    TerminalIo,
    /// Reading the next input event failed.
    InputIo,
}

} // verus!
