//! The viewport: scroll offsets, cursor position, and the dirty flag.
//!
//! The cursor moves within the viewport until it reaches an edge; further
//! movement in that direction scrolls the viewport by one unit instead.
//! Every movement operation marks the viewport dirty, even when the position
//! did not change. Scroll offsets have no upper clamp: scrolling past the end
//! of content is permitted, and the offsets saturate at `usize::MAX` instead
//! of overflowing.
//!
//! Terminal dimensions are never cached: each operation that needs them
//! queries them live, and the verified core of each such operation is the
//! `*_at` function that takes the queried dimension as an argument.

use vstd::prelude::*;

use crate::buffer::Buffer;
use crate::errors::ErrorKind;
use crate::term::term_size;

verus! {

/// The viewport over a buffer.
///
/// `(scroll_x + cx, scroll_y + cy)` is the buffer coordinate of the cursor;
/// `(cx, cy)` is its on-screen position. When `redraw` is false, rendering
/// is a no-op.
pub struct View {
    pub buf: Buffer,
    pub redraw: bool,
    pub scroll_x: usize,
    pub scroll_y: usize,
    pub cx: u16,
    pub cy: u16,
}

/// `a + b`, saturating at `usize::MAX`.
pub open spec fn sat_add(a: usize, b: int) -> usize {
    if a + b > usize::MAX {
        usize::MAX
    } else {
        (a + b) as usize
    }
}

/// Exec counterpart of [`sat_add`].
fn sat_add_usize(a: usize, b: usize) -> (r: usize)
    ensures
        r == sat_add(a, b as int),
{
    if a <= usize::MAX - b {
        a + b
    } else {
        usize::MAX
    }
}

impl View {
    /// The state of a freshly created viewport over `b`.
    pub open spec fn init_spec(b: Buffer) -> View {
        View { buf: b, redraw: true, scroll_x: 0, scroll_y: 0, cx: 0, cy: 0 }
    }

    /// The cursor lies inside a `w` by `h` viewport.
    pub open spec fn in_bounds(self, w: u16, h: u16) -> bool {
        self.cx < w && self.cy < h
    }

    /// The same viewport, marked dirty.
    pub open spec fn with_redraw(self) -> View {
        View { redraw: true, ..self }
    }

    /// The same viewport, marked clean: what a render leaves behind.
    pub open spec fn rendered_spec(self) -> View {
        View { redraw: false, ..self }
    }

    /// What `cursor_up` does: move the cursor up, or scroll up at the top
    /// edge, or stay at the top of the buffer.
    pub open spec fn up_spec(self) -> View {
        if self.cy > 0 {
            View { redraw: true, cy: (self.cy - 1) as u16, ..self }
        } else if self.scroll_y > 0 {
            View { redraw: true, scroll_y: (self.scroll_y - 1) as usize, ..self }
        } else {
            View { redraw: true, ..self }
        }
    }

    /// What `cursor_down` does against height `h`: move the cursor down
    /// while it stays on screen, else scroll down.
    pub open spec fn down_spec(self, h: u16) -> View {
        if self.cy + 1 < h {
            View { redraw: true, cy: (self.cy + 1) as u16, ..self }
        } else {
            View { redraw: true, scroll_y: sat_add(self.scroll_y, 1), ..self }
        }
    }

    /// What `cursor_left` does: move the cursor left, or scroll left at the
    /// left edge, or stay at column zero of the buffer.
    pub open spec fn left_spec(self) -> View {
        if self.cx > 0 {
            View { redraw: true, cx: (self.cx - 1) as u16, ..self }
        } else if self.scroll_x > 0 {
            View { redraw: true, scroll_x: (self.scroll_x - 1) as usize, ..self }
        } else {
            View { redraw: true, ..self }
        }
    }

    /// What `cursor_right` does against width `w`: move the cursor right
    /// while it stays on screen, else scroll right.
    pub open spec fn right_spec(self, w: u16) -> View {
        if self.cx + 1 < w {
            View { redraw: true, cx: (self.cx + 1) as u16, ..self }
        } else {
            View { redraw: true, scroll_x: sat_add(self.scroll_x, 1), ..self }
        }
    }

    /// What `cursor_page_up` does against height `h`: scroll up by a full
    /// viewport height, with a floor at zero.
    pub open spec fn page_up_spec(self, h: u16) -> View {
        if self.scroll_y > h {
            View { redraw: true, scroll_y: (self.scroll_y - h) as usize, ..self }
        } else {
            View { redraw: true, scroll_y: 0usize, ..self }
        }
    }

    /// What `cursor_page_down` does against height `h`: scroll down by a
    /// full viewport height, with no upper bound.
    pub open spec fn page_down_spec(self, h: u16) -> View {
        View { redraw: true, scroll_y: sat_add(self.scroll_y, h as int), ..self }
    }

    /// What `cursor_home` does: cursor to column zero.
    pub open spec fn home_spec(self) -> View {
        View { redraw: true, cx: 0u16, ..self }
    }

    /// What `cursor_end` does against width `w`: cursor to the last column.
    pub open spec fn end_spec(self, w: u16) -> View {
        if w > 0 {
            View { redraw: true, cx: (w - 1) as u16, ..self }
        } else {
            View { redraw: true, cx: 0u16, ..self }
        }
    }

    /// What `handle_resize` does: re-clamp the cursor into the new
    /// dimensions, carrying the overshoot into the scroll offsets. Does not
    /// touch the dirty flag.
    pub open spec fn resize_spec(self, w: u16, h: u16) -> View {
        let v1 = if self.cx >= w {
            View {
                scroll_x: sat_add(self.scroll_x, self.cx - w + 1),
                cx: (w - 1) as u16,
                ..self
            }
        } else {
            self
        };
        if v1.cy >= h {
            View { scroll_y: sat_add(v1.scroll_y, v1.cy - h + 1), cy: (h - 1) as u16, ..v1 }
        } else {
            v1
        }
    }

    /// A freshly created viewport: scroll `(0, 0)`, cursor `(0, 0)`, dirty.
    pub fn new(buf: Buffer) -> (v: View)
        ensures
            v == View::init_spec(buf),
    {
        View { buf, redraw: true, scroll_x: 0, scroll_y: 0, cx: 0, cy: 0 }
    }

    /// Mark the viewport dirty: the next render must repaint.
    pub fn force_redraw(&mut self)
        ensures
            *final(self) == old(self).with_redraw(),
    {
        self.redraw = true;
    }

    /// Move the cursor up one row, scrolling at the top edge.
    pub fn cursor_up(&mut self) -> (r: Result<(), ErrorKind>)
        ensures
            r is Ok,
            *final(self) == old(self).up_spec(),
    {
        if self.cy > 0 {
            self.cy = self.cy - 1;
        } else if self.scroll_y > 0 {
            self.scroll_y = self.scroll_y - 1;
        }
        self.force_redraw();
        Ok(())
    }

    /// The verified core of `cursor_down`, against an already-queried
    /// terminal height.
    pub fn cursor_down_at(&mut self, height: u16)
        ensures
            *final(self) == old(self).down_spec(height),
    {
        if (self.cy as usize) + 1 < height as usize {
            self.cy = self.cy + 1;
        } else {
            self.scroll_y = sat_add_usize(self.scroll_y, 1);
        }
        self.force_redraw();
    }

    /// Move the cursor down one row against the live terminal height,
    /// scrolling at the bottom edge.
    pub fn cursor_down(&mut self) -> (r: Result<(), ErrorKind>)
        ensures
            r matches Err(e) ==> e is TerminalIo && *final(self) == *old(self),
            r is Ok ==> exists|h: u16| *final(self) == old(self).down_spec(h),
    {
        let h = match term_size() {
            Ok(p) => p.1,
            Err(e) => {
                return Err(e);
            },
        };
        self.cursor_down_at(h);
        Ok(())
    }

    /// Move the cursor left one column, scrolling at the left edge.
    pub fn cursor_left(&mut self) -> (r: Result<(), ErrorKind>)
        ensures
            r is Ok,
            *final(self) == old(self).left_spec(),
    {
        if self.cx > 0 {
            self.cx = self.cx - 1;
        } else if self.scroll_x > 0 {
            self.scroll_x = self.scroll_x - 1;
        }
        self.force_redraw();
        Ok(())
    }

    /// The verified core of `cursor_right`, against an already-queried
    /// terminal width.
    pub fn cursor_right_at(&mut self, width: u16)
        ensures
            *final(self) == old(self).right_spec(width),
    {
        if (self.cx as usize) + 1 < width as usize {
            self.cx = self.cx + 1;
        } else {
            self.scroll_x = sat_add_usize(self.scroll_x, 1);
        }
        self.force_redraw();
    }

    /// Move the cursor right one column against the live terminal width,
    /// scrolling at the right edge.
    pub fn cursor_right(&mut self) -> (r: Result<(), ErrorKind>)
        ensures
            r matches Err(e) ==> e is TerminalIo && *final(self) == *old(self),
            r is Ok ==> exists|w: u16| *final(self) == old(self).right_spec(w),
    {
        let w = match term_size() {
            Ok(p) => p.0,
            Err(e) => {
                return Err(e);
            },
        };
        self.cursor_right_at(w);
        Ok(())
    }

    /// The verified core of `cursor_page_up`.
    pub fn cursor_page_up_at(&mut self, height: u16)
        ensures
            *final(self) == old(self).page_up_spec(height),
    {
        if self.scroll_y > height as usize {
            self.scroll_y = self.scroll_y - height as usize;
        } else {
            self.scroll_y = 0;
        }
        self.force_redraw();
    }

    /// Scroll up by one full viewport height, with a floor at zero.
    pub fn cursor_page_up(&mut self) -> (r: Result<(), ErrorKind>)
        ensures
            r matches Err(e) ==> e is TerminalIo && *final(self) == *old(self),
            r is Ok ==> exists|h: u16| *final(self) == old(self).page_up_spec(h),
    {
        let h = match term_size() {
            Ok(p) => p.1,
            Err(e) => {
                return Err(e);
            },
        };
        self.cursor_page_up_at(h);
        Ok(())
    }

    /// The verified core of `cursor_page_down`.
    pub fn cursor_page_down_at(&mut self, height: u16)
        ensures
            *final(self) == old(self).page_down_spec(height),
    {
        self.scroll_y = sat_add_usize(self.scroll_y, height as usize);
        self.force_redraw();
    }

    /// Scroll down by one full viewport height; there is no upper bound.
    pub fn cursor_page_down(&mut self) -> (r: Result<(), ErrorKind>)
        ensures
            r matches Err(e) ==> e is TerminalIo && *final(self) == *old(self),
            r is Ok ==> exists|h: u16| *final(self) == old(self).page_down_spec(h),
    {
        let h = match term_size() {
            Ok(p) => p.1,
            Err(e) => {
                return Err(e);
            },
        };
        self.cursor_page_down_at(h);
        Ok(())
    }

    /// Move the cursor to column zero.
    pub fn cursor_home(&mut self) -> (r: Result<(), ErrorKind>)
        ensures
            r is Ok,
            *final(self) == old(self).home_spec(),
    {
        self.cx = 0;
        self.force_redraw();
        Ok(())
    }

    /// The verified core of `cursor_end`.
    pub fn cursor_end_at(&mut self, width: u16)
        ensures
            *final(self) == old(self).end_spec(width),
    {
        if width > 0 {
            self.cx = width - 1;
        } else {
            self.cx = 0;
        }
        self.force_redraw();
    }

    /// Move the cursor to the last column of the live terminal width.
    pub fn cursor_end(&mut self) -> (r: Result<(), ErrorKind>)
        ensures
            r matches Err(e) ==> e is TerminalIo && *final(self) == *old(self),
            r is Ok ==> exists|w: u16| *final(self) == old(self).end_spec(w),
    {
        let w = match term_size() {
            Ok(p) => p.0,
            Err(e) => {
                return Err(e);
            },
        };
        self.cursor_end_at(w);
        Ok(())
    }

    /// Re-establish the cursor-in-bounds invariant for new terminal
    /// dimensions: overshoot beyond an edge moves into the scroll offset.
    /// The caller is responsible for forcing a redraw afterwards.
    pub fn handle_resize(&mut self, width: u16, height: u16)
        requires
            width >= 1,
            height >= 1,
        ensures
            *final(self) == old(self).resize_spec(width, height),
    {
        if self.cx >= width {
            let over: usize = (self.cx - width) as usize + 1;
            self.scroll_x = sat_add_usize(self.scroll_x, over);
            self.cx = width - 1;
        }
        if self.cy >= height {
            let over: usize = (self.cy - height) as usize + 1;
            self.scroll_y = sat_add_usize(self.scroll_y, over);
            self.cy = height - 1;
        }
    }
}

} // verus!
