use termcalc::input::{CursorDir, Input};

fn typed(text: &str) -> Input {
    let mut input = Input::default();
    for c in text.chars() {
        input.insert(c);
    }
    input
}

#[test]
fn new_input_is_empty() {
    let input = Input::default();
    assert_eq!(input.get_text(), "");
    assert_eq!(input.get_lens(), (0, 0));
}

#[test]
fn insert_appends_before_the_cursor() {
    let mut input = typed("1+2");
    assert_eq!(input.get_text(), "1+2");
    assert_eq!(input.get_lens(), (3, 0));
    input.shift(CursorDir::Left);
    input.insert('0');
    assert_eq!(input.get_text(), "1+02");
    assert_eq!(input.get_lens(), (3, 1));
}

#[test]
fn insert_accepts_any_character() {
    let mut input = Input::default();
    input.insert('\t');
    input.insert(' ');
    input.insert('\u{0}');
    assert_eq!(input.get_text(), "\t \u{0}");
}

#[test]
fn backspace_removes_the_character_left_of_the_cursor() {
    let mut input = typed("abc");
    input.shift(CursorDir::Left);
    input.backspace();
    assert_eq!(input.get_text(), "ac");
    assert_eq!(input.get_lens(), (1, 1));
}

#[test]
fn backspace_at_the_start_does_nothing() {
    let mut input = typed("ab");
    input.shift(CursorDir::Left);
    input.shift(CursorDir::Left);
    input.backspace();
    assert_eq!(input.get_text(), "ab");
    assert_eq!(input.get_lens(), (0, 2));
    let mut empty = Input::default();
    empty.backspace();
    assert_eq!(empty.get_text(), "");
}

#[test]
fn cursor_moves_left_and_right() {
    let mut input = typed("abc");
    input.shift(CursorDir::Left);
    assert_eq!(input.get_lens(), (2, 1));
    input.shift(CursorDir::Left);
    assert_eq!(input.get_lens(), (1, 2));
    input.shift(CursorDir::Right);
    assert_eq!(input.get_lens(), (2, 1));
    assert_eq!(input.get_text(), "abc");
}

#[test]
fn cursor_stops_at_both_ends() {
    let mut input = typed("ab");
    input.shift(CursorDir::Right);
    assert_eq!(input.get_lens(), (2, 0));
    input.shift(CursorDir::Left);
    input.shift(CursorDir::Left);
    input.shift(CursorDir::Left);
    assert_eq!(input.get_lens(), (0, 2));
    assert_eq!(input.get_text(), "ab");
    let mut empty = Input::default();
    empty.shift(CursorDir::Left);
    empty.shift(CursorDir::Right);
    assert_eq!(empty.get_lens(), (0, 0));
}

#[test]
fn typing_in_the_middle_keeps_the_order() {
    let mut input = typed("ad");
    input.shift(CursorDir::Left);
    input.insert('b');
    input.insert('c');
    assert_eq!(input.get_text(), "abcd");
    input.shift(CursorDir::Right);
    input.insert('e');
    assert_eq!(input.get_text(), "abcde");
}

#[test]
fn reset_empties_both_sides() {
    let mut input = typed("abc");
    input.shift(CursorDir::Left);
    input.reset();
    assert_eq!(input.get_text(), "");
    assert_eq!(input.get_lens(), (0, 0));
}

#[test]
fn replace_puts_the_cursor_at_the_end() {
    let mut input = typed("abc");
    input.shift(CursorDir::Left);
    input.replace("1+1".to_string());
    assert_eq!(input.get_text(), "1+1");
    assert_eq!(input.get_lens(), (3, 0));
    input.replace(String::new());
    assert_eq!(input.get_text(), "");
    assert_eq!(input.get_lens(), (0, 0));
}

#[test]
fn multi_byte_characters_move_as_one() {
    let mut input = typed("aπ∑😀");
    assert_eq!(input.get_text(), "aπ∑😀");
    assert_eq!(input.get_lens(), (4, 0));
    input.shift(CursorDir::Left);
    assert_eq!(input.get_lens(), (3, 1));
    assert_eq!(input.get_text(), "aπ∑😀");
    input.shift(CursorDir::Left);
    input.insert('é');
    assert_eq!(input.get_text(), "aπé∑😀");
    assert_eq!(input.get_lens(), (3, 2));
    input.backspace();
    input.backspace();
    assert_eq!(input.get_text(), "a∑😀");
    input.shift(CursorDir::Right);
    input.shift(CursorDir::Right);
    assert_eq!(input.get_lens(), (3, 0));
    input.backspace();
    assert_eq!(input.get_text(), "a∑");
}

#[test]
fn replace_with_multi_byte_text_counts_characters() {
    let mut input = Input::default();
    input.replace("2π".to_string());
    assert_eq!(input.get_lens(), (2, 0));
    input.shift(CursorDir::Left);
    assert_eq!(input.get_lens(), (1, 1));
    assert_eq!(input.get_text(), "2π");
}
