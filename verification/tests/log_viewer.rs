use tabitha::log_viewer::{LogLevel, LogLine, LogViewer};

#[test]
fn test_log_viewer_default() {
    let viewer = LogViewer::default();
    assert!(!viewer.is_visible());
    assert!(viewer.is_empty());
}

#[test]
fn test_log_viewer_toggle() {
    let mut viewer = LogViewer::new();
    assert!(!viewer.is_visible());

    viewer.toggle();
    assert!(viewer.is_visible());

    viewer.toggle();
    assert!(!viewer.is_visible());
}

#[test]
fn test_log_viewer_logging() {
    let mut viewer = LogViewer::with_capacity(10);

    viewer.info("Test message");
    assert_eq!(viewer.len(), 1);

    viewer.error("Error message");
    assert_eq!(viewer.len(), 2);
}

#[test]
fn test_log_viewer_buffer_limit() {
    let mut viewer = LogViewer::with_capacity(5);

    for i in 0..10 {
        viewer.info(format!("Message {}", i));
    }

    assert_eq!(viewer.len(), 5);
}

#[test]
fn test_log_viewer_clear() {
    let mut viewer = LogViewer::new();
    viewer.info("Test");
    viewer.clear();
    assert!(viewer.is_empty());
}

#[test]
fn full_buffer_keeps_the_newest_lines_in_order() {
    let mut viewer = LogViewer::with_capacity(3);
    for i in 0..7 {
        viewer.warn(format!("line {}", i));
    }
    let kept: Vec<String> = viewer.buffer().iter().map(|l| l.message.clone()).collect();
    assert_eq!(kept, vec!["line 4", "line 5", "line 6"]);
    assert!(viewer.buffer().iter().all(|l| l.level == LogLevel::Warn));
}

#[test]
fn zero_capacity_keeps_nothing() {
    let mut viewer = LogViewer::with_capacity(0);
    viewer.debug("a");
    viewer.trace("b");
    assert_eq!(viewer.len(), 0);
    assert!(viewer.is_empty());
}

#[test]
fn scrolling_stops_at_the_oldest_line_and_the_bottom() {
    let mut viewer = LogViewer::with_capacity(10);
    for i in 0..4 {
        viewer.info(format!("{}", i));
    }
    viewer.scroll_up(2);
    assert_eq!(viewer.scroll_position(), 2);
    viewer.scroll_up(10);
    assert_eq!(viewer.scroll_position(), 4);
    viewer.scroll_down(1);
    assert_eq!(viewer.scroll_position(), 3);
    viewer.scroll_down(10);
    assert_eq!(viewer.scroll_position(), 0);
    viewer.scroll_to_bottom();
    assert_eq!(viewer.scroll_position(), 0);
}

#[test]
fn pushed_line_keeps_its_target() {
    let mut viewer = LogViewer::new();
    viewer.push(LogLine::new(LogLevel::Error, "boom").with_target("net"));
    assert_eq!(viewer.len(), 1);
    assert_eq!(viewer.buffer()[0].target.as_deref(), Some("net"));
    assert_eq!(viewer.buffer()[0].level, LogLevel::Error);
}
