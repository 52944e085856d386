use tabitha::event::{Event, EventResult, KeyCode, KeyEvent, KeyModifiers};
use tabitha::textbox::{TextBox, TextBoxConfig, TextBoxEvent};

#[test]
fn test_textbox_insert() {
    let mut tb = TextBox::new("test");
    tb.insert_char('H');
    tb.insert_char('i');
    assert_eq!(tb.text(), "Hi");
    assert_eq!(tb.cursor_pos(), 2);
}

#[test]
fn test_textbox_backspace() {
    let mut tb = TextBox::new("test").with_text("Hello");
    tb.backspace();
    assert_eq!(tb.text(), "Hell");
    assert_eq!(tb.cursor_pos(), 4);
}

#[test]
fn test_textbox_cursor_movement() {
    let mut tb = TextBox::new("test").with_text("Hello");
    assert_eq!(tb.cursor_pos(), 5);

    tb.move_home();
    assert_eq!(tb.cursor_pos(), 0);

    tb.move_end();
    assert_eq!(tb.cursor_pos(), 5);

    tb.move_left();
    assert_eq!(tb.cursor_pos(), 4);

    tb.move_right();
    assert_eq!(tb.cursor_pos(), 5);
}

#[test]
fn test_textbox_word_movement() {
    let mut tb = TextBox::new("test").with_text("hello world foo");
    assert_eq!(tb.cursor_pos(), 15);

    tb.move_word_left();
    assert_eq!(tb.cursor_pos(), 12);

    tb.move_word_left();
    assert_eq!(tb.cursor_pos(), 6);

    tb.move_word_right();
    assert_eq!(tb.cursor_pos(), 12);
}

#[test]
fn test_textbox_max_length() {
    let mut tb = TextBox::new("test").with_config(TextBoxConfig::default().with_max_length(5));

    for c in "Hello World".chars() {
        tb.insert_char(c);
    }

    assert_eq!(tb.text(), "Hello");
    assert_eq!(tb.text().len(), 5);
}

#[test]
fn test_textbox_password_mask() {
    let tb = TextBox::new("test")
        .with_config(TextBoxConfig::password())
        .with_text("secret");

    assert_eq!(tb.display_text(), "••••••");
}

#[test]
fn test_textbox_events() {
    let mut tb = TextBox::new("test");
    tb.insert_char('a');

    let events = tb.take_events();
    assert_eq!(events.len(), 1);
    assert!(matches!(events[0], TextBoxEvent::Changed(ref s) if s == "a"));

    assert!(!tb.has_events());
    assert!(tb.take_events().is_empty());
}

#[test]
fn test_textbox_unicode() {
    let mut tb = TextBox::new("test");
    tb.insert_char('こ');
    tb.insert_char('ん');
    tb.insert_char('に');
    tb.insert_char('ち');
    tb.insert_char('は');

    assert_eq!(tb.text(), "こんにちは");
    assert_eq!(tb.cursor_pos(), 5);

    tb.move_left();
    tb.move_left();
    assert_eq!(tb.cursor_pos(), 3);

    tb.backspace();
    assert_eq!(tb.text(), "こんちは");
    assert_eq!(tb.cursor_pos(), 2);
}

fn key(code: KeyCode, modifiers: KeyModifiers) -> Event {
    Event::Key(KeyEvent::new(code, modifiers))
}

#[test]
fn insert_then_backspace_restores_the_text() {
    let mut tb = TextBox::new("t").with_text("abcd");
    tb.move_left();
    tb.move_left();
    tb.insert_char('X');
    assert_eq!(tb.text(), "abXcd");
    tb.backspace();
    assert_eq!(tb.text(), "abcd");
    assert_eq!(tb.cursor_pos(), 2);
}

#[test]
fn control_keys_edit_the_line() {
    let mut tb = TextBox::new("t").with_text("one two three");
    assert_eq!(tb.handle_event(&key(KeyCode::Char('w'), KeyModifiers::control())), EventResult::Handled);
    assert_eq!(tb.text(), "one two ");
    tb.handle_event(&key(KeyCode::Char('a'), KeyModifiers::control()));
    assert_eq!(tb.cursor_pos(), 0);
    tb.handle_event(&key(KeyCode::Char('e'), KeyModifiers::control()));
    assert_eq!(tb.cursor_pos(), 8);
    tb.move_word_left();
    tb.handle_event(&key(KeyCode::Char('k'), KeyModifiers::control()));
    assert_eq!(tb.text(), "one ");
    tb.handle_event(&key(KeyCode::Char('u'), KeyModifiers::control()));
    assert_eq!(tb.text(), "");
    assert_eq!(tb.cursor_pos(), 0);
}

#[test]
fn alt_keys_move_by_words() {
    let mut tb = TextBox::new("t").with_text("ab cd ef");
    tb.handle_event(&key(KeyCode::Char('b'), KeyModifiers::alt()));
    assert_eq!(tb.cursor_pos(), 6);
    tb.handle_event(&key(KeyCode::Char('b'), KeyModifiers::alt()));
    assert_eq!(tb.cursor_pos(), 3);
    tb.handle_event(&key(KeyCode::Char('f'), KeyModifiers::alt()));
    assert_eq!(tb.cursor_pos(), 6);
}

#[test]
fn paste_drops_line_breaks_and_respects_the_limit() {
    let mut tb = TextBox::new("t").with_config(TextBoxConfig::default().with_max_length(4));
    tb.paste("a\nb\r\ncdef");
    assert_eq!(tb.text(), "abcd");
    assert_eq!(tb.cursor_pos(), 4);
    let events = tb.take_events();
    assert_eq!(events.len(), 4);
    assert!(matches!(events[3], TextBoxEvent::Changed(ref s) if s == "abcd"));
}

#[test]
fn enter_submits_and_unknown_keys_are_not_used() {
    let mut tb = TextBox::new("t").with_text("go");
    tb.take_events();
    assert_eq!(tb.handle_event(&key(KeyCode::Enter, KeyModifiers::none())), EventResult::Handled);
    assert_eq!(tb.handle_event(&key(KeyCode::Insert, KeyModifiers::none())), EventResult::Unhandled);
    let events = tb.take_events();
    assert!(matches!(events[1], TextBoxEvent::Submit(ref s) if s == "go"));
}

#[test]
fn delete_removes_the_character_under_the_cursor() {
    let mut tb = TextBox::new("t").with_text("xyz");
    tb.move_home();
    tb.delete_char();
    assert_eq!(tb.text(), "yz");
    assert_eq!(tb.cursor_pos(), 0);
    tb.move_end();
    tb.delete_char();
    assert_eq!(tb.text(), "yz");
}

#[test]
fn a_paste_marks_the_text_modified_and_focus_events_do_not() {
    let mut tb = TextBox::new("t");
    assert!(!tb.take_modified());
    assert_eq!(tb.handle_event(&Event::Paste("xy".to_string())), EventResult::Handled);
    assert_eq!(tb.handle_event(&Event::FocusLost), EventResult::Handled);
    assert!(!tb.is_terminal_focused());
    assert!(tb.take_modified());
    assert_eq!(tb.handle_event(&Event::FocusGained), EventResult::Handled);
    assert!(tb.is_terminal_focused());
    assert!(!tb.take_modified());
    let mut full = TextBox::new("f").with_config(TextBoxConfig::default().with_max_length(0));
    full.handle_event(&Event::Paste("z".to_string()));
    assert!(!full.take_modified());
    assert_eq!(full.text(), "");
}

#[test]
fn the_visible_part_follows_the_scroll() {
    let mut tb = TextBox::new("t").with_text("abcdefgh");
    tb.update_scroll(3);
    assert_eq!(tb.visible_text(3), "gh");
    assert_eq!(tb.cursor_column(), 2);
    tb.set_cursor_pos(0);
    tb.update_scroll(3);
    assert_eq!(tb.visible_text(3), "abc");
    assert_eq!(tb.visible_text(20), "abcdefgh");
    assert_eq!(tb.cursor_column(), 0);
    let secret = TextBox::new("p").with_config(TextBoxConfig::password()).with_text("xyz");
    assert_eq!(secret.visible_text(2), "••");
    assert_eq!(TextBox::new("e").cursor_column(), 0);
}
