use file_browser::text::{byte_offset, char_width, push_char, TextEditor};

#[test]
fn new_editor_has_cursor_at_end() {
    let editor = TextEditor::new(String::from("/home/u"));
    assert_eq!(editor.text(), "/home/u");
    assert_eq!(editor.char_index(), 7);
}

#[test]
fn cursor_counts_scalar_values_not_bytes() {
    let editor = TextEditor::new(String::from("とラストガエル"));
    assert_eq!(editor.char_index(), 7);
    assert_eq!(editor.byte_offset(), 21);
}

#[test]
fn byte_offset_of_multibyte_text() {
    assert_eq!(byte_offset("とラストガエル", 6), 18);
    assert_eq!(byte_offset("とラストガエル", 0), 0);
    assert_eq!(byte_offset("とラストガエル", 1), 3);
    assert_eq!(byte_offset("とラストガエル", 7), 21);
}

#[test]
fn byte_offset_past_the_end_is_the_byte_length() {
    assert_eq!(byte_offset("abc", 3), 3);
    assert_eq!(byte_offset("abc", 100), 3);
    assert_eq!(byte_offset("", 0), 0);
    assert_eq!(byte_offset("", 5), 0);
    assert_eq!(byte_offset("aé€😀", usize::MAX), 10);
}

#[test]
fn byte_offset_of_mixed_widths() {
    let text = "aé€😀z";
    assert_eq!(byte_offset(text, 0), 0);
    assert_eq!(byte_offset(text, 1), 1);
    assert_eq!(byte_offset(text, 2), 3);
    assert_eq!(byte_offset(text, 3), 6);
    assert_eq!(byte_offset(text, 4), 10);
    assert_eq!(byte_offset(text, 5), 11);
}

#[test]
fn byte_offset_agrees_with_char_indices() {
    let text = "a/ß/日本語/😀.txt";
    let count = text.chars().count();
    for k in 0..=count + 2 {
        let expected = text.char_indices().map(|(i, _)| i).nth(k).unwrap_or(text.len());
        assert_eq!(byte_offset(text, k), expected);
    }
}

#[test]
fn char_width_matches_encoding() {
    assert_eq!(char_width('a'), 1);
    assert_eq!(char_width('\u{7f}'), 1);
    assert_eq!(char_width('\u{80}'), 2);
    assert_eq!(char_width('\u{7ff}'), 2);
    assert_eq!(char_width('\u{800}'), 3);
    assert_eq!(char_width('\u{ffff}'), 3);
    assert_eq!(char_width('\u{10000}'), 4);
    assert_eq!(char_width('\u{10ffff}'), 4);
    for c in ['x', 'é', 'と', '😀'] {
        assert_eq!(char_width(c), c.len_utf8());
    }
}

#[test]
fn push_char_appends() {
    let mut text = String::from("aé");
    push_char(&mut text, 'と');
    push_char(&mut text, 'z');
    assert_eq!(text, "aéとz");
}

#[test]
fn insert_at_end() {
    let mut editor = TextEditor::new(String::from("/home/u"));
    editor.insert('x');
    assert_eq!(editor.text(), "/home/ux");
    assert_eq!(editor.char_index(), 8);
}

#[test]
fn insert_in_the_middle_of_multibyte_text() {
    let mut editor = TextEditor::new(String::from("とラ"));
    editor.move_left();
    assert_eq!(editor.char_index(), 1);
    assert_eq!(editor.byte_offset(), 3);
    editor.insert('é');
    assert_eq!(editor.text(), "とéラ");
    assert_eq!(editor.char_index(), 2);
    assert_eq!(editor.byte_offset(), 5);
}

#[test]
fn insert_at_start() {
    let mut editor = TextEditor::new(String::from("bc"));
    editor.move_left();
    editor.move_left();
    editor.insert('a');
    assert_eq!(editor.text(), "abc");
    assert_eq!(editor.char_index(), 1);
}

#[test]
fn delete_before_cursor_removes_whole_scalar_value() {
    let mut editor = TextEditor::new(String::from("とラスト"));
    editor.delete_before_cursor();
    assert_eq!(editor.text(), "とラス");
    assert_eq!(editor.char_index(), 3);
    editor.move_left();
    editor.delete_before_cursor();
    assert_eq!(editor.text(), "とス");
    assert_eq!(editor.char_index(), 1);
}

#[test]
fn delete_at_start_does_nothing() {
    let mut editor = TextEditor::new(String::from("ab"));
    editor.move_left();
    editor.move_left();
    editor.delete_before_cursor();
    assert_eq!(editor.text(), "ab");
    assert_eq!(editor.char_index(), 0);
    let mut empty = TextEditor::new(String::new());
    empty.delete_before_cursor();
    assert_eq!(empty.text(), "");
    assert_eq!(empty.char_index(), 0);
}

#[test]
fn delete_undoes_insert() {
    let mut editor = TextEditor::new(String::from("a😀b"));
    editor.move_left();
    editor.insert('と');
    editor.delete_before_cursor();
    assert_eq!(editor.text(), "a😀b");
    assert_eq!(editor.char_index(), 2);
}

#[test]
fn move_left_is_clamped_at_start() {
    let mut editor = TextEditor::new(String::from("a"));
    editor.move_left();
    assert_eq!(editor.char_index(), 0);
    editor.move_left();
    assert_eq!(editor.char_index(), 0);
}

#[test]
fn move_right_is_clamped_at_end() {
    let mut editor = TextEditor::new(String::from("とラ"));
    assert_eq!(editor.char_index(), 2);
    editor.move_right();
    assert_eq!(editor.char_index(), 2);
    assert_eq!(editor.text(), "とラ");
}

#[test]
fn move_right_then_left_restores_cursor() {
    let text = "aとb😀c";
    let count = text.chars().count();
    for start in 0..count {
        let mut editor = TextEditor::new(String::from(text));
        for _ in start..count {
            editor.move_left();
        }
        assert_eq!(editor.char_index(), start);
        editor.move_right();
        editor.move_left();
        assert_eq!(editor.char_index(), start);
    }
}

#[test]
fn move_left_then_right_restores_cursor() {
    let text = "aとb😀c";
    let count = text.chars().count();
    for start in 1..=count {
        let mut editor = TextEditor::new(String::from(text));
        for _ in start..count {
            editor.move_left();
        }
        assert_eq!(editor.char_index(), start);
        editor.move_left();
        editor.move_right();
        assert_eq!(editor.char_index(), start);
    }
}

#[test]
fn clear_empties_text_and_resets_cursor() {
    let mut editor = TextEditor::new(String::from("とラスト"));
    editor.clear();
    assert_eq!(editor.text(), "");
    assert_eq!(editor.char_index(), 0);
    assert_eq!(editor.byte_offset(), 0);
    editor.insert('a');
    assert_eq!(editor.text(), "a");
    assert_eq!(editor.char_index(), 1);
}
