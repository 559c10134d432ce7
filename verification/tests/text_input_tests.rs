use git_pilot::text_input::TextInput;

#[test]
fn insert_and_cursor_movement() {
    let mut input = TextInput::new();
    input.insert_char('h');
    input.insert_char('i');
    assert_eq!(input.content(), "hi");
    assert_eq!(input.cursor(), 2);

    input.move_left();
    assert_eq!(input.cursor(), 1);

    input.insert_char('!');
    assert_eq!(input.content(), "h!i");
    assert_eq!(input.cursor(), 2);
}

#[test]
fn backspace_at_cursor() {
    let mut input = TextInput::new();
    input.set_content("hello".into());
    // after "hel"
    input.move_left();
    input.move_left();
    assert_eq!(input.cursor(), 3);
    input.backspace();
    assert_eq!(input.content(), "helo");
    assert_eq!(input.cursor(), 2);
}

#[test]
fn delete_at_cursor() {
    let mut input = TextInput::new();
    input.set_content("hello".into());
    // after "he"
    input.move_home();
    input.move_right();
    input.move_right();
    assert_eq!(input.cursor(), 2);
    input.delete();
    assert_eq!(input.content(), "helo");
    assert_eq!(input.cursor(), 2);
}

#[test]
fn home_and_end() {
    let mut input = TextInput::new();
    input.set_content("test".into());
    input.move_home();
    assert_eq!(input.cursor(), 0);
    input.move_end();
    assert_eq!(input.cursor(), 4);
}

#[test]
fn word_movement() {
    let mut input = TextInput::new();
    input.set_content("hello world foo".into());
    input.move_word_left();
    assert_eq!(input.cursor(), 12); // before "foo"
    input.move_word_left();
    assert_eq!(input.cursor(), 6); // before "world"
    input.move_word_right();
    assert_eq!(input.cursor(), 12); // after "world "
}

#[test]
fn split_at_cursor() {
    let mut input = TextInput::new();
    input.set_content("hello".into());
    input.move_left();
    input.move_left();
    assert_eq!(input.cursor(), 3);
    let (before, after) = input.split_at_cursor();
    assert_eq!(before, "hel");
    assert_eq!(after, "lo");
}

#[test]
fn delete_word_back() {
    let mut input = TextInput::new();
    input.set_content("hello world".into());
    input.delete_word_back();
    assert_eq!(input.content(), "hello ");
}

#[test]
fn backspace_undoes_insert_with_multibyte_text() {
    let mut input = TextInput::new();
    input.set_content("añb".into());
    input.move_left();
    assert_eq!(input.cursor(), 3); // 'ñ' takes two bytes
    input.insert_char('é');
    assert_eq!(input.content(), "añéb");
    assert_eq!(input.cursor(), 5);
    input.backspace();
    assert_eq!(input.content(), "añb");
    assert_eq!(input.cursor(), 3);
}

#[test]
fn delete_undoes_insert_then_left() {
    let mut input = TextInput::new();
    input.set_content("ab".into());
    input.move_left();
    input.insert_char('x');
    input.move_left();
    input.delete();
    assert_eq!(input.content(), "ab");
    assert_eq!(input.cursor(), 1);
}

#[test]
fn edges_do_nothing() {
    let mut input = TextInput::new();
    input.backspace();
    input.delete();
    input.move_left();
    input.move_right();
    input.move_word_left();
    input.move_word_right();
    input.delete_word_back();
    assert!(input.is_empty());
    assert_eq!(input.cursor(), 0);
    assert!(input.cursor_at_end());
    input.set_content("abc".into());
    input.move_right();
    assert_eq!(input.cursor(), 3);
    input.delete();
    assert_eq!(input.content(), "abc");
    assert_eq!(input.len(), 3);
    input.clear();
    assert!(input.is_empty());
}

#[test]
fn word_moves_skip_punctuation_and_spaces() {
    let mut input = TextInput::new();
    input.set_content("foo, bar".into());
    input.move_home();
    input.move_word_right();
    assert_eq!(input.cursor(), 5); // after "foo, "
    input.move_end();
    input.delete_word_back();
    assert_eq!(input.content(), "foo, ");
}

#[test]
fn left_then_right_returns_to_the_same_place() {
    let mut input = TextInput::new();
    input.set_content("ab€".into());
    input.move_left();
    let before = input.cursor();
    input.move_left();
    input.move_right();
    assert_eq!(input.cursor(), before);
    assert_eq!(before, 2);
}

#[test]
fn a_clone_keeps_text_and_cursor() {
    let mut t = TextInput::new();
    t.insert_char('a');
    t.insert_char('é');
    t.move_left();
    let c = t.clone();
    assert_eq!(c.content(), t.content());
    assert_eq!(c.cursor(), t.cursor());
    t.backspace();
    assert_eq!(c.content(), "aé");
}
