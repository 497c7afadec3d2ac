//! The event loop: block for an input event, dispatch it to the viewport,
//! repeat until the quit chord arrives or an I/O failure propagates.

use vstd::prelude::*;

use crate::errors::ErrorKind;
use crate::events::{InputEvent, KeyName};
use crate::term::read_input;
use crate::view::View;

verus! {

/// The two states of the event loop.
#[derive(Clone, Copy, Debug)]
pub enum LoopState {
    Running,
    Terminating,
}

/// The top-level control loop over a viewport.
pub struct Editor {
    pub view: View,
    pub state: LoopState,
}

/// Whether a key input is the quit chord: control held alone, with the
/// plain `q` key.
pub open spec fn is_quit(code: KeyName, ctrl: bool) -> bool {
    code == KeyName::Char('q') && ctrl
}

/// How one successfully handled event relates the editor states before and
/// after it. Key presses dispatch to the cursor operations, with the quit
/// chord moving the loop to `Terminating`; a resize re-clamps the cursor
/// and forces a redraw; key releases, repeats, unknown keys and other
/// events change nothing. The dimensions a dispatched operation saw are
/// existentially quantified: they were queried live from the terminal.
pub open spec fn event_step(pre: Editor, post: Editor, ev: InputEvent) -> bool {
    match ev {
        InputEvent::Key(k) => {
            if !k.press {
                post == pre
            } else if is_quit(k.code, k.ctrl) {
                post.view == pre.view && post.state is Terminating
            } else if k.code is Up {
                post.state == pre.state && post.view == pre.view.up_spec()
            } else if k.code is Down {
                post.state == pre.state && (exists|h: u16| post.view == pre.view.down_spec(h))
            } else if k.code is Left {
                post.state == pre.state && post.view == pre.view.left_spec()
            } else if k.code is Right {
                post.state == pre.state && (exists|w: u16| post.view == pre.view.right_spec(w))
            } else if k.code is PageUp {
                post.state == pre.state && (exists|h: u16| post.view == pre.view.page_up_spec(h))
            } else if k.code is PageDown {
                post.state == pre.state && (exists|h: u16| post.view == pre.view.page_down_spec(h))
            } else if k.code is Home {
                post.state == pre.state && post.view == pre.view.home_spec()
            } else if k.code is End {
                post.state == pre.state && (exists|w: u16| post.view == pre.view.end_spec(w))
            } else {
                post == pre
            }
        },
        InputEvent::Resize(w, h) => post.state == pre.state && post.view == (if w >= 1 && h >= 1 {
            pre.view.resize_spec(w, h).with_redraw()
        } else {
            pre.view.with_redraw()
        }),
        InputEvent::Other => post == pre,
    }
}

impl Editor {
    /// An editor over a freshly created viewport, in the running state.
    pub fn new(buf: crate::buffer::Buffer) -> (e: Editor)
        ensures
            e.view == View::init_spec(buf),
            e.state is Running,
    {
        Editor { view: View::new(buf), state: LoopState::Running }
    }

    /// Dispatch one input event. On success the editor steps as
    /// [`event_step`] says; on failure (a cursor operation could not query
    /// the terminal size) nothing has changed. Only the dispatched
    /// operations that query the terminal size can fail: every other event
    /// — the quit chord and any other character, releases and repeats,
    /// up, left, home, unknown keys, resizes, and other event kinds — is
    /// owed success, and gets it.
    pub fn handle_event(&mut self, ev: InputEvent) -> (r: Result<(), ErrorKind>)
        ensures
            r is Ok ==> event_step(*old(self), *final(self), ev),
            r matches Err(e) ==> e is TerminalIo && *final(self) == *old(self),
            (ev matches InputEvent::Key(k) && (!k.press || k.code is Char || k.code is Up
                || k.code is Left || k.code is Home || k.code is Other)) ==> r is Ok,
            ev is Resize ==> r is Ok,
            ev is Other ==> r is Ok,
    {
        match ev {
            InputEvent::Key(k) => {
                if !k.press {
                    return Ok(());
                }
                match k.code {
                    KeyName::Char(c) => {
                        if c == 'q' && k.ctrl {
                            self.state = LoopState::Terminating;
                        }
                        Ok(())
                    },
                    KeyName::Up => self.view.cursor_up(),
                    KeyName::Down => self.view.cursor_down(),
                    KeyName::Left => self.view.cursor_left(),
                    KeyName::Right => self.view.cursor_right(),
                    KeyName::PageUp => self.view.cursor_page_up(),
                    KeyName::PageDown => self.view.cursor_page_down(),
                    KeyName::Home => self.view.cursor_home(),
                    KeyName::End => self.view.cursor_end(),
                    KeyName::Other => Ok(()),
                }
            },
            InputEvent::Resize(w, h) => {
                if w >= 1 && h >= 1 {
                    self.view.handle_resize(w, h);
                }
                self.view.force_redraw();
                Ok(())
            },
            InputEvent::Other => Ok(()),
        }
    }

    /// One iteration of the event loop: render, block for the next event,
    /// dispatch it. The owner repeats this while it returns `Ok(true)`. It
    /// returns `Ok(false)` only once the quit chord has moved the loop to
    /// `Terminating`, with no render pending; any I/O failure aborts the
    /// iteration and propagates. The loop itself cannot be bounded — it
    /// blocks for input as long as the user stays — so the owner drives it.
    /// The cursor must lie below `u16::MAX` on both axes so the render can
    /// reposition it; every dispatched operation keeps it there, so one
    /// step hands the bound on to the next.
    pub fn run_step(&mut self) -> (r: Result<bool, ErrorKind>)
        requires
            old(self).state is Running,
            old(self).view.cx < u16::MAX,
            old(self).view.cy < u16::MAX,
        ensures
            r matches Ok(cont) ==> cont == (final(self).state is Running),
            r matches Ok(cont) && !cont ==> final(self).state is Terminating
                && !final(self).view.redraw,
            r is Err ==> final(self).state is Running,
            r matches Err(e) ==> e is TerminalIo || e is InputIo,
            final(self).view.cx < u16::MAX,
            final(self).view.cy < u16::MAX,
    {
        match self.view.render() {
            Ok(()) => (),
            Err(e) => {
                return Err(e);
            },
        }
        let ev = match read_input() {
            Ok(e) => e,
            Err(e) => {
                return Err(e);
            },
        };
        match self.handle_event(ev) {
            Ok(()) => (),
            Err(e) => {
                return Err(e);
            },
        }
        match self.state {
            LoopState::Terminating => Ok(false),
            LoopState::Running => Ok(true),
        }
    }
}

} // verus!
