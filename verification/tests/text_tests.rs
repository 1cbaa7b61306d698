use emmylua_parser::text::line_index::LineIndex;

#[test]
fn test_line_col() {
    let code = r#"
--hihii
--你好啊
--aiaiai
--1231313 好了好了
        "#;
    let tree = LineIndex::parse(code);
    let offset_1 = tree.get_offset(1, 3, code).unwrap();
    assert_eq!(offset_1, 4);
    let offset_2 = tree.get_offset(2, 4, code).unwrap();
    assert_eq!(offset_2, 17);
    let offset_3 = tree.get_offset(3, 0, code).unwrap();
    assert_eq!(offset_3, 21);

    let line_col_1 = tree.get_line_col(offset_1, code).unwrap();
    assert_eq!(line_col_1, (1, 3));
    let line_col_2 = tree.get_line_col(offset_2, code).unwrap();
    assert_eq!(line_col_2, (2, 4));
    let line_col_3 = tree.get_line_col(offset_3, code).unwrap();
    assert_eq!(line_col_3, (3, 0));
}

#[test]
fn line_index_counts_lines_and_rejects_mid_char_offsets() {
    let code = "a\n你b\n";
    let index = LineIndex::parse(code);
    assert_eq!(index.line_count(), 3);
    assert_eq!(index.get_offset(1, 1, code), Some(5));
    assert_eq!(index.get_offset(3, 0, code), None);
    assert_eq!(index.get_offset(2, 1, code), None);
    assert_eq!(index.get_line_col(3, code), None);
    assert_eq!(index.get_line_col(6, code), Some((1, 2)));
    assert_eq!(index.get_line_col(7, code), Some((2, 0)));
}
