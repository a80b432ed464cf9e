use edcore::document::Document;

#[test]
fn empty_document_has_one_line() {
    let d = Document::new();
    assert_eq!(d.len_chars(), 0);
    assert_eq!(d.len_lines(), 1);
    assert_eq!(d.line_to_char(0), 0);
    assert_eq!(d.line_to_char(1), 0);
    assert_eq!(d.serialize(), "");
}

#[test]
fn append_and_line_addressing() {
    let mut d = Document::new();
    d.append("hello\nworld");
    assert_eq!(d.len_chars(), 11);
    assert_eq!(d.len_lines(), 2);
    assert_eq!(d.line_to_char(0), 0);
    assert_eq!(d.line_to_char(1), 6);
    assert_eq!(d.line_to_char(2), 11);
    assert_eq!(d.serialize(), "hello\nworld");
}

#[test]
fn insert_char_shifts_text() {
    let mut d = Document::new();
    d.append("hello\nworld");
    d.insert_char(5, '!');
    assert_eq!(d.serialize(), "hello!\nworld");
    d.insert_char(0, '>');
    assert_eq!(d.serialize(), ">hello!\nworld");
    assert_eq!(d.len_lines(), 2);
    assert_eq!(d.line_to_char(1), 8);
}

#[test]
fn insert_splices_text() {
    let mut d = Document::new();
    d.append("helloworld");
    d.insert(5, ", \n");
    assert_eq!(d.serialize(), "hello, \nworld");
    assert_eq!(d.len_lines(), 2);
    d.insert(0, "<");
    assert_eq!(d.serialize(), "<hello, \nworld");
    d.insert(14, ">");
    assert_eq!(d.serialize(), "<hello, \nworld>");
}

#[test]
fn trailing_newline_makes_empty_last_line() {
    let mut d = Document::new();
    d.append("a\n");
    assert_eq!(d.len_lines(), 2);
    assert_eq!(d.line_to_char(1), 2);
}

#[test]
fn snapshot_is_not_affected_by_later_edits() {
    let mut d = Document::new();
    d.append("shared");
    let snap = d.snapshot();
    d.insert_char(0, 'A');
    assert_eq!(snap.serialize(), "shared");
    assert_eq!(d.serialize(), "Ashared");
}

#[test]
fn document_default_is_empty() {
    let d = Document::default();
    assert_eq!(d.len_chars(), 0);
    assert_eq!(d.serialize(), "");
}
