use tabitha::animation::AnimationMode;
use tabitha::spinner::Spinner;

#[test]
fn test_spinner_new() {
    let spinner = Spinner::new();
    assert!(spinner.state.visible);
    assert_eq!(spinner.state.frame_idx, 0);
}

#[test]
fn test_spinner_reset() {
    let mut spinner = Spinner::new();
    spinner.state.frame_idx = 5;
    spinner.state.visible = false;
    spinner.reset();
    assert_eq!(spinner.state.frame_idx, 0);
    assert!(spinner.state.visible);
}

#[test]
fn full_animation_turns_through_the_frames() {
    let mut spinner = Spinner::new();
    assert_eq!(spinner.current_char(), '⠋');
    assert!(spinner.tick_full(80_000_000));
    assert_eq!(spinner.state.frame_idx, 1);
    assert_eq!(spinner.current_char(), '⠙');
    assert!(!spinner.tick_full(10_000_000));
    spinner.tick_full(710_000_000);
    assert_eq!(spinner.state.frame_idx, 0);
}

#[test]
fn reduced_animation_blinks() {
    let mut spinner = Spinner::new();
    assert!(!spinner.tick_step(AnimationMode::Reduced, 400_000_000));
    assert!(spinner.state.visible);
    assert!(spinner.tick_step(AnimationMode::Reduced, 200_000_000));
    assert!(!spinner.state.visible);
    assert_eq!(spinner.current_char(), ' ');
    assert_eq!(spinner.shown_char(), '⠋');
    assert!(spinner.tick_step(AnimationMode::Reduced, 400_000_000));
    assert!(spinner.state.visible);
    assert!(!spinner.tick_step(AnimationMode::Static, 400_000_000));
}
