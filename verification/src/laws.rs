//! The laws of the viewport: what holds of every sequence of movement and
//! resize operations, stated over the specification functions that the
//! exec operations are proved against.

use vstd::prelude::*;
use vstd::view::View as _;

use crate::frame::{frame_rows, frame_spec};
use crate::view::View;

verus! {

/// One viewport operation, for speaking about arbitrary sequences of them.
/// The movement operations act against the terminal dimensions current at
/// the time of the operation; a resize installs new dimensions.
#[derive(Clone, Copy, Debug)]
pub enum ViewOp {
    Up,
    Down,
    Left,
    Right,
    PageUp,
    PageDown,
    Home,
    End,
    Resize(u16, u16),
}

/// The terminal dimensions after `op`, given dimensions `(w, h)` before it.
pub open spec fn op_dims(op: ViewOp, w: u16, h: u16) -> (u16, u16) {
    match op {
        ViewOp::Resize(nw, nh) => (nw, nh),
        _ => (w, h),
    }
}

/// A resize never installs a degenerate zero dimension.
pub open spec fn op_ok(op: ViewOp) -> bool {
    match op {
        ViewOp::Resize(nw, nh) => nw >= 1 && nh >= 1,
        _ => true,
    }
}

/// What `op` does to a viewport under dimensions `(w, h)`.
pub open spec fn apply_op(v: View, op: ViewOp, w: u16, h: u16) -> View {
    match op {
        ViewOp::Up => v.up_spec(),
        ViewOp::Down => v.down_spec(h),
        ViewOp::Left => v.left_spec(),
        ViewOp::Right => v.right_spec(w),
        ViewOp::PageUp => v.page_up_spec(h),
        ViewOp::PageDown => v.page_down_spec(h),
        ViewOp::Home => v.home_spec(),
        ViewOp::End => v.end_spec(w),
        ViewOp::Resize(nw, nh) => v.resize_spec(nw, nh),
    }
}

/// The viewport and dimensions after a whole sequence of operations.
pub open spec fn apply_ops(v: View, ops: Seq<ViewOp>, w: u16, h: u16) -> (View, u16, u16)
    decreases ops.len(),
{
    if ops.len() == 0 {
        (v, w, h)
    } else {
        let v1 = apply_op(v, ops[0], w, h);
        let d1 = op_dims(ops[0], w, h);
        apply_ops(v1, ops.subrange(1, ops.len() as int), d1.0, d1.1)
    }
}

/// Bounds invariant, one step: every single movement or resize operation
/// keeps the cursor inside the dimensions current after it.
pub proof fn lemma_op_preserves_bounds(v: View, op: ViewOp, w: u16, h: u16)
    requires
        w >= 1,
        h >= 1,
        v.in_bounds(w, h),
        op_ok(op),
    ensures
        apply_op(v, op, w, h).in_bounds(op_dims(op, w, h).0, op_dims(op, w, h).1),
{
}

/// Bounds invariant: for every sequence of movement and resize operations,
/// the cursor ends inside the dimensions current at the end. Since every
/// prefix of such a sequence is itself such a sequence, the invariant holds
/// after each operation along the way.
pub proof fn lemma_bounds_invariant(v: View, ops: Seq<ViewOp>, w: u16, h: u16)
    requires
        w >= 1,
        h >= 1,
        v.in_bounds(w, h),
        forall|i: int| 0 <= i < ops.len() ==> op_ok(#[trigger] ops[i]),
    ensures
        ({
            let (v2, w2, h2) = apply_ops(v, ops, w, h);
            v2.in_bounds(w2, h2) && w2 >= 1 && h2 >= 1
        }),
    decreases ops.len(),
{
    if ops.len() == 0 {
    } else {
        lemma_op_preserves_bounds(v, ops[0], w, h);
        let v1 = apply_op(v, ops[0], w, h);
        let d1 = op_dims(ops[0], w, h);
        lemma_bounds_invariant(v1, ops.subrange(1, ops.len() as int), d1.0, d1.1);
    }
}

/// Bounds invariant, after each operation: the cursor is inside the
/// current dimensions at every point along a sequence of operations, since
/// the state after `k` of them is the state after the prefix of length `k`.
pub proof fn lemma_bounds_invariant_prefix(v: View, ops: Seq<ViewOp>, w: u16, h: u16, k: int)
    requires
        w >= 1,
        h >= 1,
        v.in_bounds(w, h),
        forall|i: int| 0 <= i < ops.len() ==> op_ok(#[trigger] ops[i]),
        0 <= k <= ops.len(),
    ensures
        ({
            let (v2, w2, h2) = apply_ops(v, ops.subrange(0, k), w, h);
            v2.in_bounds(w2, h2)
        }),
{
    lemma_bounds_invariant(v, ops.subrange(0, k), w, h);
}

/// Edge-scroll law: from the left edge, moving left keeps the cursor at
/// column zero and moves the scroll offset one step toward zero, stopping
/// there.
pub proof fn lemma_edge_scroll(v: View)
    requires
        v.cx == 0,
    ensures
        v.left_spec().cx == 0,
        v.left_spec().scroll_x == if v.scroll_x > 0 {
            (v.scroll_x - 1) as usize
        } else {
            0usize
        },
{
}

/// Page law: a page up followed by a page down with the same height returns
/// the vertical scroll offset to its original value, whenever that value
/// was at least the height (so the floor at zero was not hit).
pub proof fn lemma_page_roundtrip(v: View, h: u16)
    requires
        v.scroll_y >= h,
    ensures
        v.page_up_spec(h).page_down_spec(h).scroll_y == v.scroll_y,
{
}

/// Resize clamp: with the cursor on the last column and no horizontal
/// scroll, shrinking the width puts the cursor on the new last column and
/// moves the lost columns into the scroll offset.
pub proof fn lemma_resize_clamp(v: View, w1: u16, w2: u16, h: u16)
    requires
        w1 >= 1,
        v.cx == w1 - 1,
        v.scroll_x == 0,
        1 <= w2 < w1,
        v.cy < h,
    ensures
        v.resize_spec(w2, h).cx == w2 - 1,
        v.resize_spec(w2, h).scroll_x == w1 - w2,
{
}

/// Scenario law: an unscrolled three-line buffer on a ten-by-five terminal
/// paints its three lines whole at rows 0 to 2 and a filler glyph at rows 3
/// and 4 — provided each line is nonempty and fits the width: a longer line
/// would be cut, and for an empty line the frame paints nothing on its row,
/// which shifts every later directive one place up.
pub proof fn lemma_three_line_frame(v: View)
    requires
        v.scroll_x == 0,
        v.scroll_y == 0,
        v.buf@.len() == 3,
        forall|i: int| 0 <= i < 3 ==> 1 <= #[trigger] v.buf@[i].len() <= 10,
    ensures
        frame_spec(v, 10, 5).len() == 5,
        frame_spec(v, 10, 5)[0] == (0u16, 0u16, v.buf@[0]),
        frame_spec(v, 10, 5)[1] == (1u16, 0u16, v.buf@[1]),
        frame_spec(v, 10, 5)[2] == (2u16, 0u16, v.buf@[2]),
        frame_spec(v, 10, 5)[3] == (3u16, 0u16, seq!['~']),
        frame_spec(v, 10, 5)[4] == (4u16, 0u16, seq!['~']),
{
    reveal_with_fuel(frame_rows, 6);
    assert(v.buf@[0].subrange(0, v.buf@[0].len() as int) =~= v.buf@[0]);
    assert(v.buf@[1].subrange(0, v.buf@[1].len() as int) =~= v.buf@[1]);
    assert(v.buf@[2].subrange(0, v.buf@[2].len() as int) =~= v.buf@[2]);
}

/// Dirty idempotence: a render leaves the viewport clean, and rendering a
/// clean viewport changes nothing — so of two consecutive renders with no
/// state change between them, only the first paints.
pub proof fn lemma_render_idempotent(v: View)
    ensures
        !v.rendered_spec().redraw,
        v.rendered_spec().rendered_spec() == v.rendered_spec(),
{
}

} // verus!
