//! One whole sitting over a three-line file on a ten-by-five terminal.

use red::buffer::Buffer;
use red::editor::{Editor, LoopState};
use red::events::{InputEvent, KeyInput, KeyName};

#[test]
fn three_line_file_on_a_small_terminal() {
    let mut ed = Editor::new(Buffer::from_content("one\ntwo\nthree"));
    assert!(matches!(ed.state, LoopState::Running));

    // The initial render shows the three lines at rows 0..2 and filler
    // glyphs at rows 3 and 4.
    let ops = ed.view.render_ops(10, 5).unwrap();
    assert_eq!(ops.len(), 5);
    assert_eq!(ops[0].text, "one");
    assert_eq!(ops[1].text, "two");
    assert_eq!(ops[2].text, "three");
    assert_eq!(ops[3].text, "~");
    assert_eq!(ops[4].text, "~");
    assert!(!ed.view.redraw);

    // Three cursor-downs move the cursor to row 3 without scrolling.
    for _ in 0..3 {
        ed.view.cursor_down_at(5);
    }
    assert_eq!(ed.view.cy, 3);
    assert_eq!(ed.view.scroll_y, 0);

    // Two more reach the bottom edge and then scroll once.
    ed.view.cursor_down_at(5);
    ed.view.cursor_down_at(5);
    assert_eq!(ed.view.cy, 4);
    assert_eq!(ed.view.scroll_y, 1);

    // A render consumes the pending repaint; the quit chord then ends the
    // loop with the terminating state reached and no render pending.
    assert!(ed.view.render_ops(10, 5).is_some());
    ed.handle_event(InputEvent::Key(KeyInput { press: true, ctrl: true, code: KeyName::Char('q') }))
        .unwrap();
    assert!(matches!(ed.state, LoopState::Terminating));
    assert!(!ed.view.redraw);
}
