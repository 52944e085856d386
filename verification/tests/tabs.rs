use tabitha::event::{Event, EventResult, KeyCode, KeyEvent, KeyModifiers};
use tabitha::tab_bar::{TabAction, TabBar};
use tabitha::tab_content::TabContent;

fn press(code: KeyCode) -> Event {
    Event::Key(KeyEvent::new(code, KeyModifiers::none()))
}

#[test]
fn tab_keys_pick_tabs() {
    assert_eq!(TabBar::handle_event(&press(KeyCode::Tab)), (EventResult::Handled, Some(TabAction::Next)));
    assert_eq!(TabBar::handle_event(&press(KeyCode::BackTab)), (EventResult::Handled, Some(TabAction::Prev)));
    assert_eq!(
        TabBar::handle_event(&press(KeyCode::Char('1'))),
        (EventResult::Handled, Some(TabAction::Select(0)))
    );
    assert_eq!(
        TabBar::handle_event(&press(KeyCode::Char('9'))),
        (EventResult::Handled, Some(TabAction::Select(8)))
    );
    assert_eq!(TabBar::handle_event(&press(KeyCode::Char('0'))), (EventResult::Unhandled, None));
    assert_eq!(TabBar::handle_event(&Event::FocusGained), (EventResult::Unhandled, None));
}

#[test]
fn tab_content_leaves_events_alone() {
    assert_eq!(TabContent::handle_event(&press(KeyCode::Enter)), EventResult::Unhandled);
}
