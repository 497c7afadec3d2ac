use red::buffer::Buffer;
use red::view::View;

fn fresh() -> View {
    View::new(Buffer::default())
}

#[test]
fn new_view_starts_at_origin_and_dirty() {
    let v = fresh();
    assert_eq!((v.cx, v.cy), (0, 0));
    assert_eq!((v.scroll_x, v.scroll_y), (0, 0));
    assert!(v.redraw);
}

#[test]
fn cursor_up_at_top_of_buffer_stays_put_but_marks_dirty() {
    let mut v = fresh();
    v.redraw = false;
    v.cursor_up().unwrap();
    assert_eq!((v.cx, v.cy), (0, 0));
    assert_eq!(v.scroll_y, 0);
    assert!(v.redraw);
}

#[test]
fn cursor_up_scrolls_at_top_edge() {
    let mut v = fresh();
    v.scroll_y = 3;
    v.cursor_up().unwrap();
    assert_eq!(v.cy, 0);
    assert_eq!(v.scroll_y, 2);
}

#[test]
fn cursor_up_moves_within_viewport() {
    let mut v = fresh();
    v.cy = 2;
    v.cursor_up().unwrap();
    assert_eq!(v.cy, 1);
}

#[test]
fn cursor_down_moves_until_bottom_edge_then_scrolls() {
    let mut v = fresh();
    for _ in 0..4 {
        v.cursor_down_at(5);
    }
    assert_eq!(v.cy, 4);
    assert_eq!(v.scroll_y, 0);
    v.cursor_down_at(5);
    assert_eq!(v.cy, 4);
    assert_eq!(v.scroll_y, 1);
}

#[test]
fn cursor_left_at_edge_scrolls_toward_zero_and_stops() {
    let mut v = fresh();
    v.scroll_x = 2;
    v.cursor_left().unwrap();
    assert_eq!((v.cx as usize, v.scroll_x), (0, 1));
    v.cursor_left().unwrap();
    assert_eq!((v.cx as usize, v.scroll_x), (0, 0));
    v.cursor_left().unwrap();
    assert_eq!((v.cx as usize, v.scroll_x), (0, 0));
}

#[test]
fn cursor_right_moves_until_right_edge_then_scrolls() {
    let mut v = fresh();
    v.cx = 8;
    v.cursor_right_at(10);
    assert_eq!((v.cx, v.scroll_x), (9, 0));
    v.cursor_right_at(10);
    assert_eq!((v.cx, v.scroll_x), (9, 1));
}

#[test]
fn page_up_floors_at_zero() {
    let mut v = fresh();
    v.scroll_y = 3;
    v.cursor_page_up_at(5);
    assert_eq!(v.scroll_y, 0);
    v.scroll_y = 5;
    v.cursor_page_up_at(5);
    assert_eq!(v.scroll_y, 0);
    v.scroll_y = 7;
    v.cursor_page_up_at(5);
    assert_eq!(v.scroll_y, 2);
}

#[test]
fn page_down_adds_a_full_height() {
    let mut v = fresh();
    v.scroll_y = 7;
    v.cursor_page_down_at(5);
    assert_eq!(v.scroll_y, 12);
}

#[test]
fn page_up_then_page_down_round_trips_above_one_page() {
    let mut v = fresh();
    v.scroll_y = 12;
    v.cursor_page_up_at(5);
    assert_eq!(v.scroll_y, 7);
    v.cursor_page_down_at(5);
    assert_eq!(v.scroll_y, 12);
}

#[test]
fn home_and_end_jump_to_the_margins() {
    let mut v = fresh();
    v.cx = 4;
    v.cursor_home().unwrap();
    assert_eq!(v.cx, 0);
    v.cursor_end_at(10);
    assert_eq!(v.cx, 9);
}

#[test]
fn resize_clamps_cursor_and_keeps_its_buffer_column() {
    let mut v = fresh();
    v.cx = 9;
    v.cy = 0;
    v.handle_resize(4, 24);
    assert_eq!(v.cx, 3);
    assert_eq!(v.scroll_x, 6);
}

#[test]
fn resize_clamps_vertically_too() {
    let mut v = fresh();
    v.cy = 23;
    v.scroll_y = 5;
    v.handle_resize(80, 10);
    assert_eq!(v.cy, 9);
    assert_eq!(v.scroll_y, 19);
}

#[test]
fn resize_with_room_to_spare_changes_nothing() {
    let mut v = fresh();
    v.cx = 3;
    v.cy = 3;
    v.handle_resize(80, 24);
    assert_eq!((v.cx, v.cy), (3, 3));
    assert_eq!((v.scroll_x, v.scroll_y), (0, 0));
}

#[test]
fn zero_height_terminal_scrolls_instead_of_moving() {
    let mut v = fresh();
    v.cursor_down_at(0);
    assert_eq!(v.cy, 0);
    assert_eq!(v.scroll_y, 1);
}

#[test]
fn zero_width_terminal_pins_the_end_column_at_zero() {
    let mut v = fresh();
    v.cx = 3;
    v.cursor_end_at(0);
    assert_eq!(v.cx, 0);
}

#[test]
fn vertical_scroll_saturates_instead_of_overflowing() {
    let mut v = fresh();
    v.scroll_y = usize::MAX;
    v.cy = 4;
    v.cursor_down_at(5);
    assert_eq!(v.scroll_y, usize::MAX);
    v.cursor_page_down_at(5);
    assert_eq!(v.scroll_y, usize::MAX);
}

#[test]
fn force_redraw_marks_dirty() {
    let mut v = fresh();
    v.redraw = false;
    v.force_redraw();
    assert!(v.redraw);
}
