//! The tagged input events the event loop dispatches on.

use vstd::prelude::*;

verus! {

/// The key itself, reduced to the keys this viewer reacts to.
#[derive(Clone, Copy, Debug)]
pub enum KeyName {
    /// A printable character key.
    Char(char),
    Up,
    Down,
    Left,
    Right,
    PageUp,
    PageDown,
    Home,
    End,
    /// Any other key; ignored.
    Other,
}

/// A keyboard event.
#[derive(Clone, Copy, Debug)]
pub struct KeyInput {
    /// True for a key press; releases and repeats are ignored.
    pub press: bool,
    /// True when the modifier set is exactly the control key.
    pub ctrl: bool,
    pub code: KeyName,
}

/// One input event, as the event loop sees it.
#[derive(Clone, Copy, Debug)]
pub enum InputEvent {
    Key(KeyInput),
    /// New terminal dimensions after a resize, as (width, height).
    Resize(u16, u16),
    /// Any other event kind; ignored.
    Other,
}

} // verus!
