//! The rendering pipeline: what one frame paints, computed as data.
//!
//! A frame is a sequence of paint directives, one per visible row, in row
//! order. Rows off the end of content get a filler glyph; when the buffer is
//! empty, the vertical-center row gets the centered banner instead. A
//! content row shows the horizontal slice selected by the scroll offset, and
//! a row whose line lies entirely left of the scroll offset paints nothing.
//! The trusted emitters of [`crate::term`] only carry the directives to the
//! terminal.

use vstd::prelude::*;
use vstd::string::StrSliceExecFns;
use vstd::string::StringExecFns;
use vstd::view::View as _;

use crate::errors::ErrorKind;
use crate::term::{flush_output, q_clear_down, q_hide_cursor, q_move_to, q_print, q_show_cursor};
use crate::view::View;

verus! {

/// The banner shown on an empty buffer: the product name and version.
pub const BANNER: &'static str = "red v0.1";

/// One paint directive: write `text` starting at column `col` of row `row`.
pub struct DrawOp {
    pub row: u16,
    pub col: u16,
    pub text: String,
}

impl vstd::view::View for DrawOp {
    type V = (u16, u16, Seq<char>);

    open spec fn view(&self) -> (u16, u16, Seq<char>) {
        (self.row, self.col, self.text@)
    }
}

/// The paint directives of a sequence of ops, as mathematical values.
pub open spec fn ops_view(ops: Seq<DrawOp>) -> Seq<(u16, u16, Seq<char>)> {
    ops.map_values(|o: DrawOp| o@)
}

/// The column where the banner starts: horizontally centered, left-aligned
/// at zero when it is wider than the terminal.
pub open spec fn banner_col(w: u16) -> u16 {
    if BANNER@.len() > w {
        0u16
    } else {
        ((w as int / 2) - (BANNER@.len() as int / 2)) as u16
    }
}

/// What row `r` paints, if anything: the banner or a filler glyph off the
/// content, the visible slice of the line at `scroll_y + r` otherwise, and
/// nothing at all for a line that lies entirely left of `scroll_x`.
pub open spec fn row_op(
    lines: Seq<Seq<char>>,
    sx: int,
    sy: int,
    w: u16,
    h: u16,
    r: int,
) -> Option<(u16, u16, Seq<char>)> {
    if lines.len() == 0 {
        if r == h as int / 2 {
            Some((r as u16, banner_col(w), BANNER@))
        } else {
            Some((r as u16, 0u16, seq!['~']))
        }
    } else if sy + r >= lines.len() {
        Some((r as u16, 0u16, seq!['~']))
    } else {
        let line = lines[sy + r];
        if sx >= line.len() {
            None
        } else {
            let end = if sx + w <= line.len() {
                sx + w
            } else {
                line.len() as int
            };
            Some((r as u16, 0u16, line.subrange(sx, end)))
        }
    }
}

/// The directives of rows `0 .. n` of a frame of height `h`, in row order.
pub open spec fn frame_rows(
    lines: Seq<Seq<char>>,
    sx: int,
    sy: int,
    w: u16,
    h: u16,
    n: int,
) -> Seq<(u16, u16, Seq<char>)>
    decreases n,
{
    if n <= 0 {
        Seq::empty()
    } else {
        frame_rows(lines, sx, sy, w, h, n - 1) + match row_op(lines, sx, sy, w, h, n - 1) {
            Some(c) => seq![c],
            None => Seq::empty(),
        }
    }
}

/// Everything one full repaint of `v` paints on a `w` by `h` terminal.
pub open spec fn frame_spec(v: View, w: u16, h: u16) -> Seq<(u16, u16, Seq<char>)> {
    frame_rows(v.buf@, v.scroll_x as int, v.scroll_y as int, w, h, h as int)
}

/// A one-glyph filler string.
fn tilde_string() -> (s: String)
    ensures
        s@ =~= seq!['~'],
{
    let t = "~";
    proof {
        reveal_strlit("~");
    }
    t.to_owned()
}

/// The banner, as an owned string.
fn banner_string() -> (s: String)
    ensures
        s@ == BANNER@,
{
    BANNER.to_owned()
}

/// The exec counterpart of [`banner_col`].
fn banner_start(w: u16) -> (c: u16)
    ensures
        c == banner_col(w),
{
    proof {
        reveal_strlit("red v0.1");
    }
    let bl = BANNER.unicode_len();
    if bl > w as usize {
        0
    } else {
        w / 2 - (bl as u16) / 2
    }
}

impl View {
    /// Compute the frame this viewport paints on a `w` by `h` terminal.
    /// Every directive's position stays below `u16::MAX`, as the emitters
    /// need: rows lie below `h`, columns at zero or the banner column.
    pub fn build_frame(&self, w: u16, h: u16) -> (ops: Vec<DrawOp>)
        ensures
            ops_view(ops@) == frame_spec(*self, w, h),
            forall|i: int|
                0 <= i < ops@.len() ==> (#[trigger] ops@[i]).row < u16::MAX && ops@[i].col
                    < u16::MAX,
    {
        let mut ops: Vec<DrawOp> = Vec::new();
        let mut r: u16 = 0;
        while r < h
            invariant
                r <= h,
                ops_view(ops@) == frame_rows(
                    self.buf@,
                    self.scroll_x as int,
                    self.scroll_y as int,
                    w,
                    h,
                    r as int,
                ),
                forall|i: int|
                    0 <= i < ops@.len() ==> (#[trigger] ops@[i]).row < u16::MAX && ops@[i].col
                        < u16::MAX,
            decreases h - r,
        {
            let ghost prev = ops@;
            if self.buf.text.len() == 0 {
                if r == h / 2 {
                    let col = banner_start(w);
                    ops.push(DrawOp { row: r, col, text: banner_string() });
                } else {
                    ops.push(DrawOp { row: r, col: 0, text: tilde_string() });
                }
            } else if self.scroll_y < self.buf.text.len() && (r as usize) < self.buf.text.len()
                - self.scroll_y {
                let i = self.scroll_y + r as usize;
                let line = &self.buf.text[i];
                let llen = line.as_str().unicode_len();
                if self.scroll_x < llen {
                    let rest = llen - self.scroll_x;
                    let take = if (w as usize) < rest {
                        w as usize
                    } else {
                        rest
                    };
                    let s = line.as_str().substring_char(self.scroll_x, self.scroll_x + take);
                    ops.push(DrawOp { row: r, col: 0, text: s.to_owned() });
                }
            } else {
                ops.push(DrawOp { row: r, col: 0, text: tilde_string() });
            }
            proof {
                assert(ops_view(ops@) =~= frame_rows(
                    self.buf@,
                    self.scroll_x as int,
                    self.scroll_y as int,
                    w,
                    h,
                    r as int + 1,
                ));
            }
            r = r + 1;
        }
        ops
    }

    /// The verified core of `render`, against already-queried terminal
    /// dimensions: mark the viewport clean and hand back what to paint, or
    /// nothing at all when the viewport was already clean.
    pub fn render_ops(&mut self, w: u16, h: u16) -> (ops: Option<Vec<DrawOp>>)
        ensures
            !old(self).redraw ==> ops is None && *final(self) == *old(self),
            old(self).redraw ==> *final(self) == old(self).rendered_spec() && (ops matches Some(v)
                && ops_view(v@) == frame_spec(*old(self), w, h)),
    {
        if !self.redraw {
            return None;
        }
        self.redraw = false;
        Some(self.build_frame(w, h))
    }

    /// Repaint the frame against the live terminal dimensions: a no-op when
    /// the viewport is clean; otherwise clear, paint every directive,
    /// reposition the visible cursor, and flush, with the cursor hidden
    /// while painting. The cursor must lie below `u16::MAX` on both axes so
    /// it can be repositioned; every operation keeps it there.
    pub fn render(&mut self) -> (r: Result<(), ErrorKind>)
        requires
            old(self).cx < u16::MAX,
            old(self).cy < u16::MAX,
        ensures
            !old(self).redraw ==> r is Ok && *final(self) == *old(self),
            old(self).redraw ==> *final(self) == old(self).rendered_spec(),
            r matches Err(e) ==> e is TerminalIo,
    {
        if !self.redraw {
            return Ok(());
        }
        self.redraw = false;
        let (w, h) = match crate::term::term_size() {
            Ok(p) => p,
            Err(e) => {
                return Err(e);
            },
        };
        let ops = self.build_frame(w, h);
        emit_frame(&ops, self.cx, self.cy)
    }
}

/// Carry one frame to the terminal: hide the cursor, clear, paint every
/// directive, show the cursor again at `(cx, cy)`, and flush. Every
/// position handed to the move emitter must lie below `u16::MAX`.
fn emit_frame(ops: &Vec<DrawOp>, cx: u16, cy: u16) -> (r: Result<(), ErrorKind>)
    requires
        forall|i: int|
            0 <= i < ops@.len() ==> (#[trigger] ops@[i]).row < u16::MAX && ops@[i].col < u16::MAX,
        cx < u16::MAX,
        cy < u16::MAX,
    ensures
        r matches Err(e) ==> e is TerminalIo,
{
    match q_hide_cursor() {
        Ok(()) => (),
        Err(e) => {
            return Err(e);
        },
    }
    match q_move_to(0, 0) {
        Ok(()) => (),
        Err(e) => {
            return Err(e);
        },
    }
    match q_clear_down() {
        Ok(()) => (),
        Err(e) => {
            return Err(e);
        },
    }
    let mut i: usize = 0;
    while i < ops.len()
        invariant
            i <= ops.len(),
            forall|k: int|
                0 <= k < ops@.len() ==> (#[trigger] ops@[k]).row < u16::MAX && ops@[k].col
                    < u16::MAX,
        decreases ops.len() - i,
    {
        let op = &ops[i];
        match q_move_to(op.col, op.row) {
            Ok(()) => (),
            Err(e) => {
                return Err(e);
            },
        }
        match q_print(op.text.as_str()) {
            Ok(()) => (),
            Err(e) => {
                return Err(e);
            },
        }
        i = i + 1;
    }
    match q_show_cursor() {
        Ok(()) => (),
        Err(e) => {
            return Err(e);
        },
    }
    match q_move_to(cx, cy) {
        Ok(()) => (),
        Err(e) => {
            return Err(e);
        },
    }
    flush_output()
}

} // verus!
