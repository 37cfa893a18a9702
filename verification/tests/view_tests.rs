use editor_core::command::Command;
use editor_core::command::Direction;
use editor_core::size::Size;
use editor_core::view::EditorView;

fn view_of(texts: &[&str], width: usize, height: usize) -> EditorView {
    let mut view = EditorView::default();
    view.terminal_resize(Size { width, height });
    let mut owned = Vec::new();
    for text in texts {
        owned.push(String::from(*text));
    }
    view.load(&owned);
    view
}

fn buffer_texts(view: &EditorView) -> Vec<String> {
    let mut out = Vec::new();
    for line in &view.buffer.lines {
        out.push(line.get_visible_graphemes(0, usize::MAX));
    }
    out
}

#[test]
fn delete_at_end_of_line_joins_rows_caret_stays() {
    // Load a 3-line file, move the caret to the end of the first line,
    // press Delete: the second line joins the first, the caret stays.
    let mut view = view_of(&["abc", "de", "f"], 80, 24);
    view.handle_command(Command::Move(Direction::End));
    assert_eq!((view.caret.row, view.caret.col), (0, 3));
    view.handle_command(Command::Delete);
    assert_eq!(buffer_texts(&view), vec!["abcde", "f", ""]);
    assert_eq!((view.caret.row, view.caret.col), (0, 3));
}

#[test]
fn backspace_at_line_start_joins_rows_caret_to_join() {
    // Caret at the start of the second line; Remove joins it onto the
    // first and the caret lands on the join point.
    let mut view = view_of(&["abc", "de"], 80, 24);
    view.handle_command(Command::Move(Direction::Down));
    assert_eq!((view.caret.row, view.caret.col), (1, 0));
    view.handle_command(Command::Remove);
    assert_eq!(buffer_texts(&view), vec!["abcde", ""]);
    assert_eq!((view.caret.row, view.caret.col), (0, 3));
}

#[test]
fn backspace_mid_line_removes_cluster_before_caret() {
    let mut view = view_of(&["abc"], 80, 24);
    view.handle_command(Command::Move(Direction::End));
    view.handle_command(Command::Remove);
    assert_eq!(buffer_texts(&view), vec!["ab", ""]);
    assert_eq!((view.caret.row, view.caret.col), (0, 2));
}

#[test]
fn backspace_at_document_start_is_noop() {
    let mut view = view_of(&["abc"], 80, 24);
    view.handle_command(Command::Remove);
    assert_eq!(buffer_texts(&view), vec!["abc", ""]);
    assert_eq!((view.caret.row, view.caret.col), (0, 0));
}

#[test]
fn insert_advances_caret_and_remove_undoes_it() {
    let mut view = view_of(&["ab"], 80, 24);
    view.handle_command(Command::Insert('x'));
    assert_eq!(buffer_texts(&view), vec!["xab", ""]);
    assert_eq!((view.caret.row, view.caret.col), (0, 1));
    view.handle_command(Command::Remove);
    assert_eq!(buffer_texts(&view), vec!["ab", ""]);
    assert_eq!((view.caret.row, view.caret.col), (0, 0));
}

#[test]
fn commands_on_unloaded_document_do_nothing() {
    let mut view = EditorView::default();
    view.handle_command(Command::Insert('x'));
    view.handle_command(Command::Remove);
    view.handle_command(Command::Delete);
    view.handle_command(Command::Move(Direction::Down));
    view.handle_command(Command::Quit);
    assert!(view.buffer.is_empty());
    assert_eq!((view.caret.row, view.caret.col), (0, 0));
}

#[test]
fn render_produces_one_string_per_screen_row() {
    let mut view = view_of(&["abc"], 10, 4);
    let rows = view.render();
    // The document has "abc" plus the trailing empty line; the screen
    // rows below the document show the tilde marker.
    assert_eq!(rows, vec!["abc", "", "~", "~"]);
    assert!(!view.needs_redraw);
}

#[test]
fn render_without_redraw_due_produces_nothing() {
    let mut view = view_of(&["abc"], 10, 4);
    let first = view.render();
    assert_eq!(first.len(), 4);
    let second = view.render();
    assert_eq!(second.len(), 0);
}

#[test]
fn render_clips_rows_to_the_scrolled_window() {
    let mut view = view_of(&["abcd"], 2, 2);
    for _ in 0..3 {
        view.handle_command(Command::Move(Direction::Right));
    }
    // Caret cell column 3 does not fit a 2-cell window at offset 0: the
    // offset advances to 2 and the window shows "cd".
    assert_eq!(view.scroll_offset.col, 2);
    let rows = view.render();
    assert_eq!(rows, vec!["cd", ""]);
}

#[test]
fn vertical_scroll_follows_caret() {
    let mut view = view_of(&["a", "b", "c", "d"], 5, 2);
    view.handle_command(Command::Move(Direction::PageDown));
    // Caret row 4 (the trailing empty line) in a 2-row screen: the offset
    // becomes 4 - 2 + 1 = 3.
    assert_eq!(view.caret.row, 4);
    assert_eq!(view.scroll_offset.row, 3);
    let position = view.get_position();
    assert_eq!((position.row, position.col), (1, 0));
    view.handle_command(Command::Move(Direction::PageUp));
    assert_eq!(view.scroll_offset.row, 0);
}

#[test]
fn get_position_subtracts_scroll_offset() {
    let mut view = view_of(&["abcdef"], 3, 2);
    for _ in 0..5 {
        view.handle_command(Command::Move(Direction::Right));
    }
    assert_eq!(view.scroll_offset.col, 3);
    let position = view.get_position();
    assert_eq!((position.row, position.col), (0, 2));
}

#[test]
fn get_position_counts_cells_not_clusters() {
    // A full-width cluster before the caret pushes the screen column by
    // two cells though the caret is only one cluster in.
    let mut view = view_of(&["\u{65E5}a"], 80, 24);
    view.handle_command(Command::Move(Direction::Right));
    let position = view.get_position();
    assert_eq!((position.row, position.col), (0, 2));
}

#[test]
fn resize_marks_redraw_and_rescrolls() {
    let mut view = view_of(&["abcd"], 4, 2);
    view.handle_command(Command::Move(Direction::End));
    let _ = view.render();
    assert!(!view.needs_redraw);
    // Shrinking the window below the caret's column forces a new offset.
    view.handle_command(Command::Resize(Size { width: 2, height: 2 }));
    assert!(view.needs_redraw);
    assert_eq!(view.scroll_offset.col, 3);
}

#[test]
fn load_replaces_document_and_marks_redraw() {
    let mut view = view_of(&["abc"], 10, 3);
    let _ = view.render();
    assert!(!view.needs_redraw);
    view.load(&vec![String::from("xy")]);
    assert!(view.needs_redraw);
    assert_eq!(buffer_texts(&view), vec!["xy", ""]);
}

#[test]
fn load_clamps_a_caret_from_the_old_document() {
    let mut view = view_of(&["abcdef", "ghi"], 80, 24);
    view.handle_command(Command::Move(Direction::End));
    assert_eq!((view.caret.row, view.caret.col), (0, 6));
    view.load(&vec![String::from("xy")]);
    assert_eq!((view.caret.row, view.caret.col), (0, 2));
}
