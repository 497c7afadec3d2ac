use red::buffer::Buffer;
use red::view::View;

#[test]
fn empty_buffer_paints_centered_banner_and_fillers() {
    let v = View::new(Buffer::default());
    let ops = v.build_frame(80, 24);
    assert_eq!(ops.len(), 24);
    for (r, op) in ops.iter().enumerate() {
        assert_eq!(op.row as usize, r);
        if r == 12 {
            assert_eq!(op.col, 36);
            assert_eq!(op.text, "red v0.1");
        } else {
            assert_eq!(op.col, 0);
            assert_eq!(op.text, "~");
        }
    }
}

#[test]
fn banner_wider_than_terminal_is_left_aligned() {
    let v = View::new(Buffer::default());
    let ops = v.build_frame(5, 3);
    assert_eq!(ops[1].col, 0);
    assert_eq!(ops[1].text, "red v0.1");
}

#[test]
fn three_lines_on_a_ten_by_five_terminal() {
    let v = View::new(Buffer::from_content("one\ntwo\nthree"));
    let ops = v.build_frame(10, 5);
    assert_eq!(ops.len(), 5);
    assert_eq!((ops[0].row, ops[0].col), (0, 0));
    assert_eq!(ops[0].text, "one");
    assert_eq!(ops[1].text, "two");
    assert_eq!(ops[2].text, "three");
    assert_eq!((ops[3].row, ops[3].text.as_str()), (3, "~"));
    assert_eq!((ops[4].row, ops[4].text.as_str()), (4, "~"));
}

#[test]
fn long_line_is_cut_to_the_visible_slice() {
    let mut v = View::new(Buffer::from_content("abcdefgh"));
    v.scroll_x = 2;
    let ops = v.build_frame(3, 1);
    assert_eq!(ops.len(), 1);
    assert_eq!(ops[0].text, "cde");
}

#[test]
fn vertical_scroll_selects_the_visible_lines() {
    let mut v = View::new(Buffer::from_content("one\ntwo\nthree"));
    v.scroll_y = 2;
    let ops = v.build_frame(10, 2);
    assert_eq!(ops.len(), 2);
    assert_eq!(ops[0].text, "three");
    assert_eq!(ops[1].text, "~");
}

#[test]
fn line_scrolled_fully_out_paints_nothing_on_its_row() {
    let mut v = View::new(Buffer::from_content("ab\nlonger"));
    v.scroll_x = 4;
    let ops = v.build_frame(10, 2);
    assert_eq!(ops.len(), 1);
    assert_eq!(ops[0].row, 1);
    assert_eq!(ops[0].text, "er");
}

#[test]
fn render_ops_paints_once_then_not_again() {
    let mut v = View::new(Buffer::from_content("one\ntwo"));
    let first = v.render_ops(10, 5);
    assert!(first.is_some());
    assert!(!v.redraw);
    let second = v.render_ops(10, 5);
    assert!(second.is_none());
    assert!(!v.redraw);
}

#[test]
fn render_ops_on_a_clean_viewport_is_a_no_op() {
    let mut v = View::new(Buffer::default());
    v.redraw = false;
    assert!(v.render_ops(80, 24).is_none());
}

#[test]
fn moving_the_cursor_makes_the_next_render_paint_again() {
    let mut v = View::new(Buffer::from_content("one"));
    assert!(v.render_ops(10, 5).is_some());
    v.cursor_down_at(5);
    assert!(v.render_ops(10, 5).is_some());
}
