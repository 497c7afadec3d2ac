//! The terminal session lifecycle: entering and leaving the raw,
//! alternate-screen display mode.
//!
//! A [`Session`] is a two-state machine: normal (initial) and raw/alternate
//! (entered by `setup`). When `setup` fails, the session is never considered
//! entered. `teardown` is safe to call more than once: every call makes the
//! same best-effort restoration and leaves the session in the normal state.

use vstd::prelude::*;

use crate::errors::ErrorKind;
use crate::term::{
    flush_output, print_text_line, q_clear_all, q_enter_alternate, q_leave_alternate, raw_mode_off,
    raw_mode_on,
};

verus! {

/// The farewell line printed when the session ends.
pub const FAREWELL: &'static str = "Goodbye.";

/// Ownership of the terminal's display and input mode.
pub struct Session {
    /// True exactly while the terminal is in the raw/alternate state.
    pub entered: bool,
}

impl Session {
    /// A session in the normal state: the terminal is untouched.
    pub fn new() -> (s: Session)
        ensures
            !s.entered,
    {
        Session { entered: false }
    }

    /// Enter the alternate screen buffer, enable raw input, and clear the
    /// screen. On failure the session is not considered entered and no
    /// teardown is owed from this attempt.
    pub fn setup(&mut self) -> (r: Result<(), ErrorKind>)
        requires
            !old(self).entered,
        ensures
            final(self).entered == (r is Ok),
            r matches Err(e) ==> e is TerminalIo,
    {
        match q_enter_alternate() {
            Ok(()) => (),
            Err(e) => {
                return Err(e);
            },
        }
        match raw_mode_on() {
            Ok(()) => (),
            Err(e) => {
                return Err(e);
            },
        }
        match q_clear_all() {
            Ok(()) => (),
            Err(e) => {
                return Err(e);
            },
        }
        self.entered = true;
        Ok(())
    }

    /// Leave the raw/alternate state, best effort: afterwards the session
    /// counts as normal whatever happened. Safe to call more than once.
    pub fn teardown(&mut self) -> (r: Result<(), ErrorKind>)
        ensures
            !final(self).entered,
            r matches Err(e) ==> e is TerminalIo,
    {
        self.entered = false;
        restore_terminal()
    }
}

/// The restoration sequence itself: clear the screen, leave the alternate
/// screen buffer, flush, disable raw mode, and print the farewell line. The
/// first failure is reported and the remaining steps are skipped. Stateless,
/// so an abnormal-termination hook can run it too.
pub fn restore_terminal() -> (r: Result<(), ErrorKind>)
    ensures
        r matches Err(e) ==> e is TerminalIo,
{
    match q_clear_all() {
        Ok(()) => (),
        Err(e) => {
            return Err(e);
        },
    }
    match q_leave_alternate() {
        Ok(()) => (),
        Err(e) => {
            return Err(e);
        },
    }
    match flush_output() {
        Ok(()) => (),
        Err(e) => {
            return Err(e);
        },
    }
    match raw_mode_off() {
        Ok(()) => (),
        Err(e) => {
            return Err(e);
        },
    }
    print_text_line(FAREWELL)
}

} // verus!
