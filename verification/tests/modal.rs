use tabitha::event::{Event, EventResult, KeyCode, KeyEvent, KeyModifiers};
use tabitha::modal::dialog::Modal;
use tabitha::modal::focus::ModalFocus;
use tabitha::modal::layout::{button_slots, inline_input_width, section_heights};
use tabitha::modal::types::{
    calculate_modal_rect, Area, ModalButton, ModalConfig, ModalInput, ModalResult,
};
use tabitha::modal::ModalManager;

#[test]
fn test_modal_manager_new() {
    let mut manager = ModalManager::new();
    assert!(!manager.is_open());
    assert!(manager.current_id().is_none());
    assert!(manager.take_result().is_none());
}

#[test]
fn test_modal_manager_open() {
    let mut manager = ModalManager::new();

    let modal = Modal::new("test", "Test message").with_button(ModalButton::new("ok", "OK"));

    manager.open(modal);

    assert!(manager.is_open());
    assert_eq!(manager.current_id(), Some("test"));
}

#[test]
fn test_modal_manager_close() {
    let mut manager = ModalManager::new();

    let modal = Modal::new("test", "Test message").with_button(ModalButton::new("ok", "OK"));

    manager.open(modal);
    assert!(manager.is_open());

    manager.close();
    assert!(!manager.is_open());

    let result = manager.take_result();
    assert!(result.is_some());
    let (id, res) = result.unwrap();
    assert_eq!(id, "test");
    assert_eq!(res, ModalResult::Closed);
}

#[test]
fn test_modal_manager_replace_modal() {
    let mut manager = ModalManager::new();

    let modal1 = Modal::new("modal1", "First modal").with_button(ModalButton::new("ok", "OK"));
    manager.open(modal1);
    assert_eq!(manager.current_id(), Some("modal1"));

    let modal2 = Modal::new("modal2", "Second modal").with_button(ModalButton::new("ok", "OK"));
    manager.open(modal2);

    assert_eq!(manager.current_id(), Some("modal2"));

    let result = manager.take_result();
    assert!(result.is_some());
    let (id, res) = result.unwrap();
    assert_eq!(id, "modal1");
    assert_eq!(res, ModalResult::Closed);
}

#[test]
fn test_modal_manager_result_after_take() {
    let mut manager = ModalManager::new();

    let modal = Modal::new("test", "Message").with_button(ModalButton::new("ok", "OK"));
    manager.open(modal);
    manager.close();

    assert!(manager.take_result().is_some());

    assert!(manager.take_result().is_none());
}

#[test]
fn test_modal_manager_default() {
    let manager = ModalManager::default();
    assert!(!manager.is_open());
}

fn press(code: KeyCode) -> Event {
    Event::Key(KeyEvent::new(code, KeyModifiers::none()))
}

fn yes_no() -> Modal {
    Modal::new("ask", "Proceed?")
        .with_button(ModalButton::new("yes", "Yes"))
        .with_button(ModalButton::new("no", "No"))
}

#[test]
fn escape_dismisses_through_the_manager() {
    let mut manager = ModalManager::new();
    manager.open(yes_no());
    assert!(manager.handle_event(&press(KeyCode::Esc)));
    assert!(!manager.is_open());
    let (id, res) = manager.take_result().unwrap();
    assert_eq!(id, "ask");
    assert_eq!(res, ModalResult::Dismissed);
    assert!(!manager.handle_event(&press(KeyCode::Esc)));
}

#[test]
fn arrows_then_enter_press_the_focused_button() {
    let mut manager = ModalManager::new();
    manager.open(yes_no());
    manager.handle_event(&press(KeyCode::Right));
    manager.handle_event(&press(KeyCode::Enter));
    let (id, res) = manager.take_result().unwrap();
    assert_eq!(id, "ask");
    assert_eq!(res, ModalResult::button_pressed("no"));
}

#[test]
fn button_focus_wraps_around() {
    let mut modal = yes_no();
    modal.open();
    assert_eq!(modal.focused_button(), 0);
    modal.focus_next_button();
    modal.focus_next_button();
    assert_eq!(modal.focused_button(), 0);
    modal.focus_prev_button();
    assert_eq!(modal.focused_button(), 1);
    modal.focus_next_button();
    assert_eq!(modal.focused_button(), 0);
}

#[test]
fn input_enter_presses_the_first_button_with_the_value() {
    let mut modal = Modal::new("name", "Your name?")
        .with_input("Name")
        .with_button(ModalButton::new("ok", "OK"))
        .with_button(ModalButton::new("cancel", "Cancel"));
    modal.open();
    assert_eq!(modal.focus(), ModalFocus::Input);
    for c in "Ada".chars() {
        assert_eq!(modal.handle_event(&press(KeyCode::Char(c))), EventResult::StopPropagation);
    }
    modal.handle_event(&press(KeyCode::Enter));
    assert!(!modal.is_open());
    let result = modal.take_result();
    assert_eq!(result, ModalResult::button_pressed_with_input("ok", "Ada"));
    assert_eq!(result.button_id(), Some("ok"));
    assert_eq!(result.input(), Some("Ada"));
    assert_eq!(modal.take_result(), ModalResult::Pending);
}

#[test]
fn input_editing_by_characters() {
    let mut modal = Modal::new("m", "").with_inline_input();
    modal.open();
    modal.set_input_value("héllo");
    modal.move_input_cursor_left();
    modal.move_input_cursor_left();
    modal.handle_input_char('X');
    assert_eq!(modal.input_value(), Some("hélXlo"));
    modal.handle_input_backspace();
    assert_eq!(modal.input_value(), Some("héllo"));
    modal.move_input_cursor_home();
    modal.handle_input_delete();
    assert_eq!(modal.input_value(), Some("éllo"));
    modal.move_input_cursor_end();
    modal.handle_input_char('!');
    assert_eq!(modal.take_input_value(), Some("éllo!".to_string()));
    assert_eq!(modal.input_value(), Some(""));
}

#[test]
fn tab_moves_between_input_and_buttons() {
    let mut modal = Modal::new("m", "msg")
        .with_input("Label")
        .with_button(ModalButton::new("a", "A"))
        .with_button(ModalButton::new("b", "B"));
    modal.open();
    modal.handle_event(&press(KeyCode::Tab));
    assert_eq!(modal.focus(), ModalFocus::Buttons);
    assert_eq!(modal.focused_button(), 0);
    modal.handle_event(&press(KeyCode::Tab));
    assert_eq!(modal.focus(), ModalFocus::Input);
    modal.handle_event(&press(KeyCode::BackTab));
    assert_eq!(modal.focus(), ModalFocus::Buttons);
    assert_eq!(modal.focused_button(), 1);
}

#[test]
fn closed_modal_lets_events_through() {
    let mut modal = yes_no();
    assert_eq!(modal.handle_event(&press(KeyCode::Enter)), EventResult::Unhandled);
    modal.open();
    assert_eq!(modal.handle_event(&press(KeyCode::Char('z'))), EventResult::StopPropagation);
    modal.close();
    assert_eq!(modal.result(), &ModalResult::Closed);
}

#[test]
fn modal_rect_is_scaled_bounded_and_centred() {
    let area = Area { x: 0, y: 0, width: 100, height: 40 };
    let r = calculate_modal_rect(area, &ModalConfig::default());
    assert_eq!(r, Area { x: 25, y: 14, width: 50, height: 12 });
    let small = Area { x: 2, y: 3, width: 30, height: 8 };
    let r = calculate_modal_rect(small, &ModalConfig::default());
    assert_eq!(r, Area { x: 7, y: 4, width: 20, height: 5 });
    let tiny = Area { x: 0, y: 0, width: 10, height: 3 };
    let r = calculate_modal_rect(tiny, &ModalConfig::default().with_size(500, 500));
    assert_eq!(r, Area { x: 0, y: 0, width: 10, height: 3 });
}

#[test]
fn size_is_capped_at_the_whole_screen() {
    let c = ModalConfig::default().with_size(150, 20);
    assert_eq!(c.width_percent, 100);
    assert_eq!(c.height_percent, 20);
    let m = Modal::new("m", "x").with_size(101, 101);
    assert_eq!(m.config().width_percent, 100);
    assert_eq!(m.config().height_percent, 100);
}

fn field(value: &str, cursor: usize) -> ModalInput {
    ModalInput {
        label: "Name".to_string(),
        placeholder: Some("type here".to_string()),
        value: value.to_string(),
        cursor,
        inline: false,
    }
}

#[test]
fn input_fields_split_at_the_cursor() {
    let (before, under, after, all) = field("héllo", 1).display_parts(true);
    assert_eq!((before.as_str(), under, after.as_str(), all.as_str()), ("h", 'é', "llo", "héllo"));
    let (before, under, after, _) = field("ab", 2).display_parts(true);
    assert_eq!((before.as_str(), under, after.as_str()), ("ab", ' ', ""));
    let (before, under, after, all) = field("", 0).display_parts(false);
    assert_eq!((before.as_str(), under, after.as_str(), all.as_str()), ("", 't', "ype here", "type here"));
    let (_, under, _, all) = field("", 0).display_parts(true);
    assert_eq!((under, all.as_str()), (' ', ""));
}

#[test]
fn buttons_show_brackets_when_focused() {
    let b = ModalButton::new("ok", "OK");
    assert_eq!(b.face(true), "[ OK ]");
    assert_eq!(b.face(false), "  OK  ");
}

#[test]
fn buttons_are_centred_side_by_side() {
    let buttons = vec![ModalButton::new("ok", "OK"), ModalButton::new("cancel", "Cancel")];
    // OK takes 6 columns, Cancel 10, with 2 between: 18 in all.
    assert_eq!(button_slots(&buttons, 10, 30), Some(vec![(16, 6), (24, 10)]));
    assert_eq!(button_slots(&buttons, 0, 4), Some(vec![(0, 6), (8, 10)]));
    assert_eq!(button_slots(&buttons, 65_530, 0), None);
    assert_eq!(button_slots(&[], 65_535, 10), Some(vec![]));
}

#[test]
fn modal_rows_and_inline_width() {
    let block = field("v", 0);
    let mut inline = field("v", 0);
    inline.inline = true;
    assert_eq!(section_heights(Some(&block), 10), (5, 3));
    assert_eq!(section_heights(Some(&inline), 10), (8, 0));
    assert_eq!(section_heights(None, 1), (0, 0));
    assert_eq!(inline_input_width(5, 40), 34);
    assert_eq!(inline_input_width(35, 40), 10);
    assert_eq!(field("abc", 1).inline_padding(true, 10), 7);
    assert_eq!(field("abc", 3).inline_padding(true, 10), 6);
    assert_eq!(field("", 0).inline_padding(false, 4), 0);
}
