use lua_bridge::output::{trim, OutputState, OutputStream, ReadError, ReadStep};

#[test]
fn trim_removes_one_line_feed() {
    let mut v = b"hello\n".to_vec();
    trim(&mut v);
    assert_eq!(v, b"hello".to_vec());
}

#[test]
fn trim_removes_carriage_return_and_line_feed() {
    let mut v = b"hello\r\n".to_vec();
    trim(&mut v);
    assert_eq!(v, b"hello".to_vec());
}

#[test]
fn trim_removes_only_one_terminator() {
    let mut v = b"hello\n\n".to_vec();
    trim(&mut v);
    assert_eq!(v, b"hello\n".to_vec());
}

#[test]
fn trim_leaves_other_text_alone() {
    let mut v = b"hello".to_vec();
    trim(&mut v);
    assert_eq!(v, b"hello".to_vec());
    let mut e: Vec<u8> = Vec::new();
    trim(&mut e);
    assert!(e.is_empty());
}

#[test]
fn reader_splits_at_first_line_feed() {
    let mut s = OutputState::new();
    s.feed(b"one\ntwo\nthr");
    assert!(matches!(s.next(), ReadStep::Line(l) if l == b"one".to_vec()));
    assert!(matches!(s.next(), ReadStep::Line(l) if l == b"two".to_vec()));
    assert!(matches!(s.next(), ReadStep::NeedMore));
    s.feed(b"ee");
    s.end();
    assert!(matches!(s.next(), ReadStep::Line(l) if l == b"three".to_vec()));
    assert!(matches!(s.next(), ReadStep::Finished));
    assert!(matches!(s.next(), ReadStep::Finished));
}

#[test]
fn reader_hands_out_empty_lines() {
    let mut s = OutputState::new();
    s.feed(b"\n\n");
    assert!(matches!(s.next(), ReadStep::Line(l) if l.is_empty()));
    assert!(matches!(s.next(), ReadStep::Line(l) if l.is_empty()));
    assert!(matches!(s.next(), ReadStep::NeedMore));
}

#[test]
fn reader_of_empty_stream_finishes_without_a_line() {
    let mut s = OutputState::new();
    assert!(matches!(s.next(), ReadStep::NeedMore));
    s.end();
    assert!(matches!(s.next(), ReadStep::Finished));
}

#[test]
fn reader_knows_when_it_is_exhausted() {
    let mut s = OutputState::new();
    assert!(!s.exhausted());
    s.feed(b"x");
    s.end();
    assert!(!s.exhausted());
    assert!(matches!(s.next(), ReadStep::Line(l) if l == b"x".to_vec()));
    assert!(s.exhausted());
}

#[test]
fn a_stream_is_read_by_one_reader_at_a_time() {
    let mut s = OutputStream::new();
    assert_eq!(s.begin(1), Ok(true));
    assert_eq!(s.begin(1), Err(ReadError::Concurrent));
    assert_eq!(s.begin(2), Err(ReadError::Concurrent));
    assert!(matches!(s.step(), ReadStep::NeedMore));
    assert_eq!(s.begin(1), Err(ReadError::Concurrent));
    s.feed(b"line\nrest");
    assert!(matches!(s.step(), ReadStep::Line(l) if l == b"line".to_vec()));
    assert_eq!(s.begin(1), Ok(true));
    s.end();
    assert!(matches!(s.step(), ReadStep::Line(l) if l == b"rest".to_vec()));
    assert_eq!(s.begin(1), Ok(false));
    assert_eq!(s.begin(1), Ok(false));
}

#[test]
fn only_the_default_read_format_is_supported() {
    let mut s = OutputStream::new();
    assert_eq!(s.begin(2), Err(ReadError::Format));
    assert_eq!(s.begin(0), Err(ReadError::Format));
    assert_eq!(s.begin(1), Ok(true));
    assert_eq!(ReadError::Format.message(), "non-default format currently not supported");
    assert_eq!(ReadError::Concurrent.message(), "concurrent read is not supported");
}

#[test]
fn a_finished_stream_has_nothing_to_read_whatever_the_format() {
    let mut s = OutputStream::new();
    assert_eq!(s.begin(1), Ok(true));
    s.end();
    assert!(matches!(s.step(), ReadStep::Finished));
    assert_eq!(s.begin(5), Ok(false));
}

#[test]
fn a_read_that_was_given_up_frees_the_stream() {
    let mut s = OutputStream::new();
    assert_eq!(s.begin(1), Ok(true));
    s.feed(b"par");
    assert!(matches!(s.step(), ReadStep::NeedMore));
    s.give_up();
    assert_eq!(s.begin(1), Ok(true));
    s.feed(b"tial\n");
    assert!(matches!(s.step(), ReadStep::Line(l) if l == b"partial".to_vec()));
    s.give_up();
    s.give_up();
    assert_eq!(s.begin(1), Ok(true));
}
