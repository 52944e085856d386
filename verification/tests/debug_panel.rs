use std::time::Duration;

use tabitha::debug_panel::{DebugPanel, FrameTrigger, FRAME_HISTORY_SIZE};

#[test]
fn test_debug_panel_default() {
    let panel = DebugPanel::default();
    assert!(!panel.is_visible());
    assert_eq!(panel.frame_number(), 0);
}

#[test]
fn test_debug_panel_toggle() {
    let mut panel = DebugPanel::new();
    assert!(!panel.is_visible());

    panel.toggle();
    assert!(panel.is_visible());

    panel.toggle();
    assert!(!panel.is_visible());
    assert_eq!(panel.frame_number(), 0);
}

#[test]
fn test_debug_panel_record_frame() {
    let mut panel = DebugPanel::new();
    panel.show();

    panel.record_frame(Duration::from_millis(5), FrameTrigger::Tick);
    assert_eq!(panel.frame_number(), 1);
    assert_eq!(panel.last_render_time().as_millis(), 5);

    panel.record_frame(Duration::from_millis(3), FrameTrigger::Resize);
    assert_eq!(panel.frame_number(), 2);
    assert_eq!(panel.frame_history().len(), 2);
}

#[test]
fn test_debug_panel_history_limit() {
    let mut panel = DebugPanel::new();
    panel.show();

    for i in 0..20 {
        panel.record_frame(
            Duration::from_millis(1),
            FrameTrigger::Other(format!("test{}", i)),
        );
    }

    assert_eq!(panel.frame_history().len(), FRAME_HISTORY_SIZE);
}

#[test]
fn test_frame_trigger_display() {
    assert_eq!(FrameTrigger::Tick.display(), "Tick");
    assert_eq!(FrameTrigger::Resize.display(), "Resize");
    assert_eq!(
        FrameTrigger::Key("Enter".to_string()).display(),
        "Key(Enter)"
    );
    assert_eq!(
        FrameTrigger::Mouse("LeftClick".to_string()).display(),
        "Mouse(LeftClick)"
    );
}

#[test]
fn history_is_newest_first_and_numbered_down() {
    let mut panel = DebugPanel::new();
    panel.show();
    for i in 0..15u64 {
        panel.record_frame(Duration::from_millis(i), FrameTrigger::Tick);
    }
    let history = panel.frame_history();
    assert_eq!(history.len(), 10);
    for (i, frame) in history.iter().enumerate() {
        assert_eq!(frame.frame_number, 15 - i as u64);
    }
    assert_eq!(history[0].render_time_ms, 14);
}

#[test]
fn hiding_the_panel_clears_its_record() {
    let mut panel = DebugPanel::new();
    panel.show();
    panel.record_frame(Duration::from_millis(7), FrameTrigger::Paste);
    panel.set_hidden();
    assert!(!panel.is_visible());
    assert_eq!(panel.frame_number(), 0);
    assert_eq!(panel.frame_history().len(), 0);
    assert_eq!(panel.last_render_time().as_millis(), 0);
}

#[test]
fn frames_are_recorded_while_hidden() {
    let mut panel = DebugPanel::new();
    panel.record_frame(Duration::from_millis(2), FrameTrigger::Tick);
    assert_eq!(panel.frame_number(), 1);
    assert_eq!(panel.frame_history().len(), 1);
    assert!(!panel.is_visible());
}

#[test]
fn trigger_display_of_every_kind() {
    assert_eq!(FrameTrigger::LogUpdate.display(), "LogUpdate");
    assert_eq!(FrameTrigger::Paste.display(), "Paste");
    assert_eq!(FrameTrigger::TaskMessage("load".to_string()).display(), "Task(load)");
    assert_eq!(FrameTrigger::Focus("Gained".to_string()).display(), "Focus(Gained)");
    assert_eq!(FrameTrigger::Other("x".to_string()).display(), "x");
}

#[test]
fn showing_a_hidden_panel_starts_afresh() {
    let mut panel = DebugPanel::new();
    panel.record_frame(Duration::from_millis(1), FrameTrigger::Tick);
    assert_eq!(panel.frame_number(), 1);
    panel.toggle();
    assert!(panel.is_visible());
    assert!(panel.frame_history().is_empty());
    assert_eq!(panel.frame_number(), 0);
    assert_eq!(panel.last_render_time(), Duration::ZERO);
}
