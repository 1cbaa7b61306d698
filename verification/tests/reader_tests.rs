use emmylua_parser::text::reader::Reader;

#[test]
fn test_new_reader() {
    let text = "Hello, world!";
    let mut reader = Reader::new(text);
    reader.reset_buff();
    assert_eq!(reader.current_char(), 'H');
}

#[test]
fn test_bump() {
    let text = "Hello, world!";
    let mut reader = Reader::new(text);
    reader.reset_buff();
    reader.bump();
    assert_eq!(reader.current_char(), 'e');
}

#[test]
fn test_reset_buff() {
    let text = "Hello, world!";
    let mut reader = Reader::new(text);
    reader.reset_buff();
    reader.bump();
    reader.reset_buff();
    assert_eq!(reader.current_char(), 'e');
    assert!(!reader.is_start_of_line());
    assert!(!reader.is_eof());
}

#[test]
fn test_is_eof() {
    let text = "H";
    let mut reader = Reader::new(text);
    reader.reset_buff();
    assert!(!reader.is_eof());
    reader.bump();
    assert!(reader.is_eof());
}

#[test]
fn test_next_char() {
    let text = "Hello, world!";
    let mut reader = Reader::new(text);
    reader.reset_buff();
    assert_eq!(reader.next_char(), 'e');
}

#[test]
fn test_saved_range() {
    let text = "Hello, world!";
    let mut reader = Reader::new(text);
    reader.reset_buff();
    reader.bump();
    let range = reader.current_range();
    assert_eq!(range.start_offset, 0);
    assert_eq!(range.length, 1);

    reader.reset_buff();
    reader.bump();
    let range2 = reader.current_range();
    assert_eq!(range2.start_offset, 1);
    assert_eq!(range2.length, 1);
}

#[test]
fn test_current_saved_text() {
    let text = "Hello, world!";
    let mut reader = Reader::new(text);
    reader.reset_buff();
    reader.bump();
    assert_eq!(reader.current_text(), "H");
}

#[test]
fn test_eat_when() {
    let text = "aaaHello, world!";
    let mut reader = Reader::new(text);
    reader.reset_buff();
    let count = reader.eat_when('a');
    assert_eq!(count, 3);
    assert_eq!(reader.current_char(), 'H');
    assert_eq!(reader.current_text(), "aaa");
}

#[test]
fn test_eat_while() {
    let text = "12345Hello, world!";
    let mut reader = Reader::new(text);
    reader.reset_buff();
    let count = reader.eat_while(|c| c.is_ascii_digit());
    assert_eq!(count, 5);
    assert_eq!(reader.current_char(), 'H');
}

#[test]
fn reader_tracks_multibyte_offsets() {
    let mut reader = Reader::new("a你b");
    reader.bump();
    reader.reset_buff();
    reader.bump();
    let range = reader.current_range();
    assert_eq!(range.start_offset, 1);
    assert_eq!(range.length, 3);
    assert_eq!(reader.current_text(), "你");
    assert_eq!(reader.tail_text(), "b");
    let sub = reader.reset_buff_into_sub_reader();
    assert_eq!(sub.prev_char(), 'a');
    assert_eq!(sub.current_range().start_offset, 1);
}

#[test]
fn reader_consume_limits() {
    let mut reader = Reader::new("----x");
    assert_eq!(reader.consume_char_n_times('-', 3), 3);
    assert_eq!(reader.current_char(), '-');
    assert_eq!(reader.eat_till_end(), 2);
    assert!(reader.is_eof());
    assert_eq!(reader.get_current_end_pos(), 5);
}
