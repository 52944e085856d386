use tabitha::dev_console::{DevConsole, LogLevel};

#[test]
fn test_dev_console_default() {
    let console = DevConsole::default();
    assert!(!console.is_visible());
    assert!(console.is_empty());
}

#[test]
fn test_dev_console_toggle() {
    let mut console = DevConsole::new();
    assert!(!console.is_visible());

    console.toggle();
    assert!(console.is_visible());

    console.toggle();
    assert!(!console.is_visible());
}

#[test]
fn test_dev_console_logging() {
    let mut console = DevConsole::with_capacity(10);

    console.info("Test message");
    assert_eq!(console.len(), 1);

    console.error("Error message");
    assert_eq!(console.len(), 2);
}

#[test]
fn test_dev_console_buffer_limit() {
    let mut console = DevConsole::with_capacity(5);

    for i in 0..10 {
        console.info(format!("Message {}", i));
    }

    assert_eq!(console.len(), 5);
}

#[test]
fn test_dev_console_clear() {
    let mut console = DevConsole::new();
    console.info("Test");
    console.clear();
    assert!(console.is_empty());
}

#[test]
fn console_keeps_newest_lines_and_levels() {
    let mut console = DevConsole::with_capacity(2);
    console.log(LogLevel::Debug, "one");
    console.log(LogLevel::Info, "two");
    console.log(LogLevel::Error, "three");
    let kept: Vec<(LogLevel, String)> =
        console.buffer().iter().map(|l| (l.level, l.message.clone())).collect();
    assert_eq!(kept, vec![(LogLevel::Info, "two".to_string()), (LogLevel::Error, "three".to_string())]);
}

#[test]
fn a_console_of_zero_capacity_keeps_nothing() {
    let mut console = DevConsole::with_capacity(0);
    console.info("x");
    console.error("y");
    assert_eq!(console.len(), 0);
    assert!(console.is_empty());
}
