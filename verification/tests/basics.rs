use tabitha::clock::{format_clock, format_instant, format_offset};
use tabitha::control::CursorBlinkConfig;
use tabitha::datatable::types::SortDirection;
use tabitha::event::EventResult;
use tabitha::text::{chars_of, contains_chars, string_from_chars, text_eq, to_lowercase};

#[test]
fn clock_text_is_hours_minutes_seconds_and_millis() {
    assert_eq!(format_clock(3725, 5_000_000), "01:02:05.005");
    assert_eq!(format_clock(86_399, 999_999_999), "23:59:59.999");
    assert_eq!(format_clock(90_000, 0), "01:00:00.000");
}

#[test]
fn text_helpers() {
    assert_eq!(to_lowercase("ÀbC"), "àbc");
    assert!(contains_chars(&chars_of("haystack"), &chars_of("st")));
    assert!(!contains_chars(&chars_of("hay"), &chars_of("hays")));
    assert!(contains_chars(&chars_of(""), &chars_of("")));
    assert_eq!(string_from_chars(&vec!['é', 'x']), "éx");
    assert!(text_eq("abc", "abc"));
    assert!(!text_eq("abc", "abd"));
}

#[test]
fn blink_settings() {
    let d = CursorBlinkConfig::default();
    assert!(d.enabled);
    assert_eq!(d.on_duration_ms, 530);
    assert_eq!(d.cycle_duration_ms(), 1060);
    assert!(!CursorBlinkConfig::no_blink().enabled);
    assert_eq!(CursorBlinkConfig::with_timing(100, 50).cycle_duration_ms(), 150);
}

#[test]
fn small_enums() {
    assert_eq!(SortDirection::Ascending.toggle(), SortDirection::Descending);
    assert_eq!(SortDirection::Descending.toggle().toggle(), SortDirection::Descending);
    assert!(EventResult::Handled.is_handled());
    assert!(!EventResult::StopPropagation.is_handled());
}

#[test]
fn cursor_stays_solid_while_typing_and_blinks_otherwise() {
    use_cursor();
}

fn use_cursor() {
    assert!(tabitha::cursor::should_pause(true, None));
    assert!(tabitha::cursor::should_pause(false, Some(499)));
    assert!(!tabitha::cursor::should_pause(false, Some(500)));
    assert!(!tabitha::cursor::should_pause(false, None));
    let mut blink = tabitha::cursor::CursorBlink::new();
    assert!(!blink.reduced_step(false, 700_000_000));
    assert!(blink.reduced_step(false, 200_000_000));
    assert!(!blink.visible);
    assert!(blink.reduced_step(true, 5));
    assert!(blink.visible);
    assert_eq!(blink.accumulated_nanos, 900_000_000);
}

#[test]
fn instants_read_as_their_offset_from_the_epoch() {
    let t = std::time::UNIX_EPOCH + std::time::Duration::new(3661, 5_000_000);
    assert_eq!(format_instant(&t), "01:01:01.005");
    assert_eq!(format_offset(&Some(std::time::Duration::new(7322, 42_000_000))), "02:02:02.042");
    assert_eq!(format_offset(&None), "00:00:00.000");
    let before = std::time::UNIX_EPOCH - std::time::Duration::from_secs(5);
    assert_eq!(format_instant(&before), "00:00:00.000");
}
