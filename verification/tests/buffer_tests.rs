use editor_core::buffer::Buffer;
use editor_core::line::Line;

fn buffer_of(texts: &[&str]) -> Buffer {
    let mut lines = Vec::new();
    for text in texts {
        lines.push(Line::from(text));
    }
    Buffer { lines }
}

fn texts_of(buffer: &Buffer) -> Vec<String> {
    let mut out = Vec::new();
    for line in &buffer.lines {
        out.push(line.get_visible_graphemes(0, usize::MAX));
    }
    out
}

#[test]
fn default_buffer_is_empty() {
    let buffer = Buffer::default();
    assert!(buffer.is_empty());
    assert_eq!(buffer.lines.len(), 0);
}

#[test]
fn load_appends_trailing_empty_line() {
    let texts = vec![String::from("abc"), String::from("de")];
    let buffer = Buffer::load(&texts);
    assert!(!buffer.is_empty());
    assert_eq!(texts_of(&buffer), vec!["abc", "de", ""]);
}

#[test]
fn load_of_nothing_gives_one_empty_line() {
    let buffer = Buffer::load(&Vec::new());
    assert_eq!(texts_of(&buffer), vec![""]);
}

#[test]
fn merge_next_line_concatenates_rows() {
    let mut buffer = buffer_of(&["abc", "de", "f"]);
    buffer.merge_next_line(0);
    assert_eq!(texts_of(&buffer), vec!["abcde", "f"]);
}

#[test]
fn merge_next_line_without_successor_is_noop() {
    let mut buffer = buffer_of(&["abc", "de"]);
    buffer.merge_next_line(1);
    assert_eq!(texts_of(&buffer), vec!["abc", "de"]);
    buffer.merge_next_line(7);
    assert_eq!(texts_of(&buffer), vec!["abc", "de"]);
}

#[test]
fn insert_places_character_at_cluster_index() {
    let mut buffer = buffer_of(&["abc", "de"]);
    buffer.insert('x', 1, 1);
    assert_eq!(texts_of(&buffer), vec!["abc", "dxe"]);
}

#[test]
fn remove_mid_line_takes_cluster_before_column() {
    let mut buffer = buffer_of(&["abc"]);
    buffer.remove(0, 2);
    assert_eq!(texts_of(&buffer), vec!["ac"]);
}

#[test]
fn remove_at_column_zero_merges_into_previous_row() {
    // Backspace at the start of row 1 joins it onto row 0: one row fewer,
    // the join holding both rows' text in order.
    let mut buffer = buffer_of(&["abc", "de"]);
    buffer.remove(1, 0);
    assert_eq!(texts_of(&buffer), vec!["abcde"]);
}

#[test]
fn remove_at_document_start_is_noop() {
    let mut buffer = buffer_of(&["abc", "de"]);
    buffer.remove(0, 0);
    assert_eq!(texts_of(&buffer), vec!["abc", "de"]);
}

#[test]
fn delete_mid_line_takes_cluster_at_column() {
    let mut buffer = buffer_of(&["abc"]);
    buffer.delete(0, 1);
    assert_eq!(texts_of(&buffer), vec!["ac"]);
}

#[test]
fn delete_at_end_of_line_merges_next_row() {
    // Forward-delete at the end of row 0 joins row 1 onto it: one row
    // fewer, the join holding both rows' text in order.
    let mut buffer = buffer_of(&["ab", "cd", "e"]);
    buffer.delete(0, 2);
    assert_eq!(texts_of(&buffer), vec!["abcd", "e"]);
}

#[test]
fn delete_at_end_of_last_row_is_noop() {
    let mut buffer = buffer_of(&["ab", "cd"]);
    buffer.delete(1, 2);
    assert_eq!(texts_of(&buffer), vec!["ab", "cd"]);
}
