use std::time::Duration;

use tabitha::debug_panel::FrameTrigger;
use tabitha::dev_overlay::{key_code_name, mouse_kind_name, DevOverlayContext, DevOverlayManager};
use tabitha::event::{
    Event, KeyCode, KeyEvent, KeyModifiers, MediaKeyCode, ModifierKeyCode, MouseButton, MouseEventKind,
};
use tabitha::log_viewer::{LogLevel, LogLine};

#[test]
fn test_dev_overlay_manager_new() {
    let manager = DevOverlayManager::new(None);
    assert!(!manager.is_log_viewer_visible());
    assert!(!manager.is_debug_panel_visible());
    assert!(!manager.is_any_visible());
}

#[test]
fn test_dev_overlay_log_viewer_controls() {
    let mut manager = DevOverlayManager::new(None);

    manager.show_log_viewer();
    assert!(manager.is_log_viewer_visible());
    assert!(manager.is_any_visible());

    manager.toggle_log_viewer();
    assert!(!manager.is_log_viewer_visible());

    manager.hide_all();
    assert!(!manager.is_any_visible());
}

#[test]
fn test_dev_overlay_debug_panel_controls() {
    let mut manager = DevOverlayManager::new(None);

    manager.show_debug_panel();
    assert!(manager.is_debug_panel_visible());
    assert!(manager.is_any_visible());

    manager.toggle_debug_panel();
    assert!(!manager.is_debug_panel_visible());
}

#[test]
fn test_dev_overlay_record_frame() {
    let mut manager = DevOverlayManager::new(None);
    manager.show_debug_panel();

    manager.record_frame(Duration::from_millis(5), FrameTrigger::Tick);

    assert_eq!(manager.debug_panel.frame_number(), 1);
    assert_eq!(manager.debug_panel.last_render_time().as_millis(), 5);
}

#[test]
fn test_event_to_trigger() {
    let tick_trigger = FrameTrigger::Tick;
    match tick_trigger {
        FrameTrigger::Tick => (),
        _ => panic!("Expected Tick trigger"),
    }

    let key_trigger = FrameTrigger::Key("Enter".to_string());
    match key_trigger {
        FrameTrigger::Key(_) => (),
        _ => panic!("Expected Key trigger"),
    }

    let resize_trigger = FrameTrigger::Resize;
    match resize_trigger {
        FrameTrigger::Resize => (),
        _ => panic!("Expected Resize trigger"),
    }
}

#[test]
fn test_dev_overlay_context() {
    let mut manager = DevOverlayManager::new(None);
    let mut ctx = DevOverlayContext::new(&mut manager);

    ctx.show_log_viewer();
    assert!(ctx.is_log_viewer_visible());

    ctx.toggle_debug_panel();
    assert!(ctx.is_debug_panel_visible());

    ctx.hide_all();
    assert!(!ctx.is_any_visible());
}

#[test]
fn events_become_named_triggers() {
    let enter = Event::Key(KeyEvent::new(KeyCode::Enter, KeyModifiers::none()));
    assert_eq!(DevOverlayManager::event_to_trigger(&enter).display(), "Key(Enter)");

    let a = Event::Key(KeyEvent::new(KeyCode::Char('a'), KeyModifiers::none()));
    assert_eq!(DevOverlayManager::event_to_trigger(&a).display(), "Key(Char('a'))");

    let f12 = Event::Key(KeyEvent::new(KeyCode::F(12), KeyModifiers::none()));
    assert_eq!(DevOverlayManager::event_to_trigger(&f12).display(), "Key(F(12))");

    let click = Event::Mouse(MouseEventKind::Down(MouseButton::Left));
    assert_eq!(DevOverlayManager::event_to_trigger(&click).display(), "Mouse(Down(Left))");

    let resize = Event::Resize { width: 80, height: 24 };
    assert_eq!(DevOverlayManager::event_to_trigger(&resize).display(), "Resize");
    assert_eq!(DevOverlayManager::event_to_trigger(&Event::FocusGained).display(), "Focus(Gained)");
    assert_eq!(DevOverlayManager::event_to_trigger(&Event::FocusLost).display(), "Focus(Lost)");
    assert_eq!(
        DevOverlayManager::event_to_trigger(&Event::Paste("x".to_string())).display(),
        "Paste"
    );
}

#[test]
fn key_names_match_debug_output() {
    let codes = [
        KeyCode::Backspace,
        KeyCode::Enter,
        KeyCode::Left,
        KeyCode::Right,
        KeyCode::Up,
        KeyCode::Down,
        KeyCode::Home,
        KeyCode::End,
        KeyCode::PageUp,
        KeyCode::PageDown,
        KeyCode::Tab,
        KeyCode::BackTab,
        KeyCode::Delete,
        KeyCode::Insert,
        KeyCode::F(1),
        KeyCode::F(255),
        KeyCode::Char('x'),
        KeyCode::Char('\''),
        KeyCode::Char('\\'),
        KeyCode::Char('\n'),
        KeyCode::Char('\u{1b}'),
        KeyCode::Char('é'),
        KeyCode::Char('\u{301}'),
        KeyCode::Null,
        KeyCode::Esc,
        KeyCode::CapsLock,
        KeyCode::ScrollLock,
        KeyCode::NumLock,
        KeyCode::PrintScreen,
        KeyCode::Pause,
        KeyCode::Menu,
        KeyCode::KeypadBegin,
        KeyCode::Media(MediaKeyCode::PlayPause),
        KeyCode::Media(MediaKeyCode::MuteVolume),
        KeyCode::Modifier(ModifierKeyCode::LeftShift),
        KeyCode::Modifier(ModifierKeyCode::IsoLevel5Shift),
    ];
    for code in codes {
        assert_eq!(key_code_name(code), format!("{:?}", code));
    }
    let kinds = [
        MouseEventKind::Up(MouseButton::Right),
        MouseEventKind::Drag(MouseButton::Middle),
        MouseEventKind::Moved,
        MouseEventKind::ScrollDown,
        MouseEventKind::ScrollUp,
        MouseEventKind::ScrollLeft,
        MouseEventKind::ScrollRight,
    ];
    for kind in kinds {
        assert_eq!(mouse_kind_name(kind), format!("{:?}", kind));
    }
}

#[test]
fn polling_moves_channel_lines_into_the_viewer() {
    let (tx, rx) = tokio::sync::mpsc::unbounded_channel();
    let mut manager = DevOverlayManager::new(Some(rx));
    assert!(!manager.poll_logs());
    tx.send(LogLine::new(LogLevel::Info, "first")).unwrap();
    tx.send(LogLine::new(LogLevel::Warn, "second")).unwrap();
    assert!(manager.poll_logs());
    let messages: Vec<String> =
        manager.log_viewer.buffer().iter().map(|l| l.message.clone()).collect();
    assert_eq!(messages, vec!["first", "second"]);
    assert!(!manager.poll_logs());
}

#[test]
fn polling_without_a_channel_finds_nothing() {
    let mut manager = DevOverlayManager::new(None);
    assert!(!manager.poll_logs());
    assert!(manager.log_viewer.is_empty());
}

#[test]
fn extra_keys_are_named_as_debug_writes_them() {
    assert_eq!(key_code_name(KeyCode::CapsLock), "CapsLock");
    assert_eq!(key_code_name(KeyCode::Media(MediaKeyCode::TrackNext)), "Media(TrackNext)");
    assert_eq!(key_code_name(KeyCode::Modifier(ModifierKeyCode::RightAlt)), "Modifier(RightAlt)");
    assert_eq!(key_code_name(KeyCode::Char('\u{301}')), "Char('\\u{301}')");
}
