//! Trusted wrappers around the terminal: each wrapper holds one call into
//! crossterm or std, and maps its error to an [`ErrorKind`] of the library.
//! The wrappers themselves are believed, not verified; everything that
//! decides or computes takes the values they return as arguments and is
//! verified there.

use vstd::prelude::*;

use crossterm::QueueableCommand;
use crossterm::event::KeyCode;
use std::io::Write;

use crate::errors::ErrorKind;
use crate::events::{InputEvent, KeyInput, KeyName};

verus! {

/// A key code of crossterm, carried opaquely between the wrappers below.
#[verifier::external_type_specification]
#[verifier::external_body]
pub struct ExKeyCode(KeyCode);

/// Relies on crossterm::terminal::size: the current terminal dimensions as
/// (columns, rows). The result depends on the live terminal, so nothing is
/// promised of it.
#[verifier::external_body]
pub(crate) fn term_size() -> (r: Result<(u16, u16), ErrorKind>)
    ensures
        r matches Err(e) ==> e is TerminalIo,
{
    match crossterm::terminal::size() {
        Ok(p) => Ok(p),
        Err(_) => Err(ErrorKind::TerminalIo),
    }
}

/// Relies on crossterm::cursor::Hide: queues hiding the cursor.
#[verifier::external_body]
pub(crate) fn q_hide_cursor() -> (r: Result<(), ErrorKind>)
    ensures
        r matches Err(e) ==> e is TerminalIo,
{
    match std::io::stdout().queue(crossterm::cursor::Hide) {
        Ok(_) => Ok(()),
        Err(_) => Err(ErrorKind::TerminalIo),
    }
}

/// Relies on crossterm::cursor::Show: queues showing the cursor.
#[verifier::external_body]
pub(crate) fn q_show_cursor() -> (r: Result<(), ErrorKind>)
    ensures
        r matches Err(e) ==> e is TerminalIo,
{
    match std::io::stdout().queue(crossterm::cursor::Show) {
        Ok(_) => Ok(()),
        Err(_) => Err(ErrorKind::TerminalIo),
    }
}

/// Relies on crossterm::cursor::MoveTo: queues moving the cursor to column
/// `x`, row `y` (zero-based). MoveTo writes the one-based position, adding
/// one to each coordinate in `u16`, so `u16::MAX` is excluded: there the
/// addition would overflow.
#[verifier::external_body]
pub(crate) fn q_move_to(x: u16, y: u16) -> (r: Result<(), ErrorKind>)
    requires
        x < u16::MAX,
        y < u16::MAX,
    ensures
        r matches Err(e) ==> e is TerminalIo,
{
    match std::io::stdout().queue(crossterm::cursor::MoveTo(x, y)) {
        Ok(_) => Ok(()),
        Err(_) => Err(ErrorKind::TerminalIo),
    }
}

/// Relies on crossterm::style::Print: queues writing `s` at the cursor.
#[verifier::external_body]
pub(crate) fn q_print(s: &str) -> (r: Result<(), ErrorKind>)
    ensures
        r matches Err(e) ==> e is TerminalIo,
{
    match std::io::stdout().queue(crossterm::style::Print(s)) {
        Ok(_) => Ok(()),
        Err(_) => Err(ErrorKind::TerminalIo),
    }
}

/// Relies on crossterm::terminal::Clear with ClearType::All: queues clearing
/// the whole screen.
#[verifier::external_body]
pub(crate) fn q_clear_all() -> (r: Result<(), ErrorKind>)
    ensures
        r matches Err(e) ==> e is TerminalIo,
{
    match std::io::stdout().queue(crossterm::terminal::Clear(crossterm::terminal::ClearType::All)) {
        Ok(_) => Ok(()),
        Err(_) => Err(ErrorKind::TerminalIo),
    }
}

/// Relies on crossterm::terminal::Clear with ClearType::FromCursorDown:
/// queues clearing from the cursor to the end of the screen.
#[verifier::external_body]
pub(crate) fn q_clear_down() -> (r: Result<(), ErrorKind>)
    ensures
        r matches Err(e) ==> e is TerminalIo,
{
    match std::io::stdout().queue(
        crossterm::terminal::Clear(crossterm::terminal::ClearType::FromCursorDown),
    ) {
        Ok(_) => Ok(()),
        Err(_) => Err(ErrorKind::TerminalIo),
    }
}

/// Relies on crossterm::terminal::EnterAlternateScreen: queues switching to
/// the alternate screen buffer.
#[verifier::external_body]
pub(crate) fn q_enter_alternate() -> (r: Result<(), ErrorKind>)
    ensures
        r matches Err(e) ==> e is TerminalIo,
{
    match std::io::stdout().queue(crossterm::terminal::EnterAlternateScreen) {
        Ok(_) => Ok(()),
        Err(_) => Err(ErrorKind::TerminalIo),
    }
}

/// Relies on crossterm::terminal::LeaveAlternateScreen: queues switching
/// back to the main screen buffer.
#[verifier::external_body]
pub(crate) fn q_leave_alternate() -> (r: Result<(), ErrorKind>)
    ensures
        r matches Err(e) ==> e is TerminalIo,
{
    match std::io::stdout().queue(crossterm::terminal::LeaveAlternateScreen) {
        Ok(_) => Ok(()),
        Err(_) => Err(ErrorKind::TerminalIo),
    }
}

/// Relies on crossterm::terminal::enable_raw_mode: individual key events,
/// no line buffering, no echo.
#[verifier::external_body]
pub(crate) fn raw_mode_on() -> (r: Result<(), ErrorKind>)
    ensures
        r matches Err(e) ==> e is TerminalIo,
{
    match crossterm::terminal::enable_raw_mode() {
        Ok(()) => Ok(()),
        Err(_) => Err(ErrorKind::TerminalIo),
    }
}

/// Relies on crossterm::terminal::disable_raw_mode: restore cooked input.
#[verifier::external_body]
pub(crate) fn raw_mode_off() -> (r: Result<(), ErrorKind>)
    ensures
        r matches Err(e) ==> e is TerminalIo,
{
    match crossterm::terminal::disable_raw_mode() {
        Ok(()) => Ok(()),
        Err(_) => Err(ErrorKind::TerminalIo),
    }
}

/// Relies on std::io::Write::flush on stdout: everything queued becomes
/// visible before the call returns.
#[verifier::external_body]
pub(crate) fn flush_output() -> (r: Result<(), ErrorKind>)
    ensures
        r matches Err(e) ==> e is TerminalIo,
{
    match std::io::Write::flush(&mut std::io::stdout()) {
        Ok(()) => Ok(()),
        Err(_) => Err(ErrorKind::TerminalIo),
    }
}

/// Relies on the writeln macro over stdout: writes `s` and a newline.
#[verifier::external_body]
pub(crate) fn print_text_line(s: &str) -> (r: Result<(), ErrorKind>)
    ensures
        r matches Err(e) ==> e is TerminalIo,
{
    match writeln!(std::io::stdout(), "{}", s) {
        Ok(()) => Ok(()),
        Err(_) => Err(ErrorKind::TerminalIo),
    }
}

/// An event of crossterm, carried opaquely from [`read_raw`] to
/// [`split_event`].
#[verifier::external_type_specification]
#[verifier::external_body]
pub struct ExEvent(crossterm::event::Event);

/// An event with its key code still opaque: what [`split_event`] extracts
/// before [`key_name`] reduces the code.
pub(crate) enum RawEvent {
    Key(RawKey),
    Resize(u16, u16),
    Other,
}

/// A key event of crossterm, with the press kind and the modifier set
/// already reduced to the two facts the event loop reads.
pub(crate) struct RawKey {
    /// True for a key press; releases and repeats are ignored.
    pub press: bool,
    /// True when the modifier set is exactly the control key.
    pub ctrl: bool,
    pub code: KeyCode,
}

/// Relies on crossterm::event::read: blocks for the next event. The result
/// depends on the user, so nothing is promised of it.
#[verifier::external_body]
pub(crate) fn read_raw() -> (r: Result<crossterm::event::Event, ErrorKind>)
    ensures
        r matches Err(e) ==> e is InputIo,
{
    match crossterm::event::read() {
        Ok(e) => Ok(e),
        Err(_) => Err(ErrorKind::InputIo),
    }
}

/// Relies on crossterm::event::Event: a key event keeps its code, whether
/// its kind is a press, and whether its modifier set is exactly control; a
/// resize event keeps its dimensions; everything else becomes `Other`.
#[verifier::external_body]
pub(crate) fn split_event(ev: crossterm::event::Event) -> RawEvent {
    match ev {
        crossterm::event::Event::Key(k) => RawEvent::Key(RawKey {
            press: k.kind == crossterm::event::KeyEventKind::Press,
            ctrl: k.modifiers == crossterm::event::KeyModifiers::CONTROL,
            code: k.code,
        }),
        crossterm::event::Event::Resize(w, h) => RawEvent::Resize(w, h),
        _ => RawEvent::Other,
    }
}

/// Relies on crossterm::event::KeyCode: each navigation variant maps to its
/// [`KeyName`]; every other key maps to `Other`.
#[verifier::external_body]
pub(crate) fn key_name(code: KeyCode) -> KeyName {
    match code {
        KeyCode::Char(c) => KeyName::Char(c),
        KeyCode::Up => KeyName::Up,
        KeyCode::Down => KeyName::Down,
        KeyCode::Left => KeyName::Left,
        KeyCode::Right => KeyName::Right,
        KeyCode::PageUp => KeyName::PageUp,
        KeyCode::PageDown => KeyName::PageDown,
        KeyCode::Home => KeyName::Home,
        KeyCode::End => KeyName::End,
        _ => KeyName::Other,
    }
}

/// Block for the next input event and assemble its tagged form.
pub(crate) fn read_input() -> (r: Result<InputEvent, ErrorKind>)
    ensures
        r matches Err(e) ==> e is InputIo,
{
    let raw = match read_raw() {
        Ok(e) => e,
        Err(e) => {
            return Err(e);
        },
    };
    Ok(
        match split_event(raw) {
            RawEvent::Key(k) => InputEvent::Key(
                KeyInput { press: k.press, ctrl: k.ctrl, code: key_name(k.code) },
            ),
            RawEvent::Resize(w, h) => InputEvent::Resize(w, h),
            RawEvent::Other => InputEvent::Other,
        },
    )
}

} // verus!
