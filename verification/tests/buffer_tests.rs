use red::buffer::Buffer;

#[test]
fn default_is_empty() {
    let b = Buffer::default();
    assert!(b.is_empty());
    assert_eq!(b.text.len(), 0);
}

#[test]
fn loaded_buffer_is_not_empty() {
    let b = Buffer::from_content("hello");
    assert!(!b.is_empty());
}

#[test]
fn splits_at_line_feeds() {
    let b = Buffer::from_content("one\ntwo\nthree");
    assert_eq!(b.text, vec!["one", "two", "three"]);
}

#[test]
fn final_line_feed_leaves_no_trailing_empty_line() {
    let b = Buffer::from_content("abc\n");
    assert_eq!(b.text, vec!["abc"]);
}

#[test]
fn carriage_return_before_line_feed_is_dropped() {
    let b = Buffer::from_content("a\r\nb\r\n");
    assert_eq!(b.text, vec!["a", "b"]);
}

#[test]
fn lone_carriage_return_is_kept() {
    let b = Buffer::from_content("a\rb");
    assert_eq!(b.text, vec!["a\rb"]);
}

#[test]
fn empty_content_gives_no_lines() {
    let b = Buffer::from_content("");
    assert!(b.is_empty());
}

#[test]
fn single_line_feed_gives_one_empty_line() {
    let b = Buffer::from_content("\n");
    assert_eq!(b.text, vec![""]);
}

#[test]
fn blank_line_in_the_middle_is_kept() {
    let b = Buffer::from_content("a\n\nb");
    assert_eq!(b.text, vec!["a", "", "b"]);
}
