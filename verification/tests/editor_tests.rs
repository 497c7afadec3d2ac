use red::buffer::Buffer;
use red::editor::{Editor, LoopState};
use red::events::{InputEvent, KeyInput, KeyName};

fn key(code: KeyName, ctrl: bool, press: bool) -> InputEvent {
    InputEvent::Key(KeyInput { press, ctrl, code })
}

#[test]
fn new_editor_runs_over_a_fresh_viewport() {
    let ed = Editor::new(Buffer::from_content("one\ntwo"));
    assert!(matches!(ed.state, LoopState::Running));
    assert_eq!((ed.view.cx, ed.view.cy), (0, 0));
    assert!(ed.view.redraw);
}

#[test]
fn control_q_terminates_the_loop() {
    let mut ed = Editor::new(Buffer::default());
    ed.view.redraw = false;
    ed.handle_event(key(KeyName::Char('q'), true, true)).unwrap();
    assert!(matches!(ed.state, LoopState::Terminating));
    assert!(!ed.view.redraw);
}

#[test]
fn plain_q_is_ignored() {
    let mut ed = Editor::new(Buffer::default());
    ed.handle_event(key(KeyName::Char('q'), false, true)).unwrap();
    assert!(matches!(ed.state, LoopState::Running));
}

#[test]
fn key_release_is_ignored() {
    let mut ed = Editor::new(Buffer::default());
    ed.view.scroll_y = 3;
    ed.view.redraw = false;
    ed.handle_event(key(KeyName::Up, false, false)).unwrap();
    assert_eq!(ed.view.scroll_y, 3);
    assert!(!ed.view.redraw);
}

#[test]
fn up_key_dispatches_to_the_viewport() {
    let mut ed = Editor::new(Buffer::default());
    ed.view.cy = 2;
    ed.handle_event(key(KeyName::Up, false, true)).unwrap();
    assert_eq!(ed.view.cy, 1);
    assert!(ed.view.redraw);
}

#[test]
fn home_key_dispatches_to_the_viewport() {
    let mut ed = Editor::new(Buffer::default());
    ed.view.cx = 7;
    ed.handle_event(key(KeyName::Home, false, true)).unwrap();
    assert_eq!(ed.view.cx, 0);
}

#[test]
fn unknown_key_is_ignored() {
    let mut ed = Editor::new(Buffer::default());
    ed.view.redraw = false;
    ed.handle_event(key(KeyName::Other, false, true)).unwrap();
    assert!(!ed.view.redraw);
    assert!(matches!(ed.state, LoopState::Running));
}

#[test]
fn resize_event_reclamps_and_forces_redraw() {
    let mut ed = Editor::new(Buffer::default());
    ed.view.cx = 9;
    ed.view.redraw = false;
    ed.handle_event(InputEvent::Resize(4, 24)).unwrap();
    assert_eq!(ed.view.cx, 3);
    assert_eq!(ed.view.scroll_x, 6);
    assert!(ed.view.redraw);
    assert!(matches!(ed.state, LoopState::Running));
}

#[test]
fn degenerate_resize_only_forces_a_redraw() {
    let mut ed = Editor::new(Buffer::default());
    ed.view.cx = 9;
    ed.view.redraw = false;
    ed.handle_event(InputEvent::Resize(0, 0)).unwrap();
    assert_eq!(ed.view.cx, 9);
    assert_eq!(ed.view.scroll_x, 0);
    assert!(ed.view.redraw);
}

#[test]
fn other_event_kinds_are_ignored() {
    let mut ed = Editor::new(Buffer::default());
    ed.view.redraw = false;
    ed.handle_event(InputEvent::Other).unwrap();
    assert!(!ed.view.redraw);
    assert!(matches!(ed.state, LoopState::Running));
}
