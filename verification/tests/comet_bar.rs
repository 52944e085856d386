use tabitha::animation::AnimationMode;
use tabitha::comet_bar::CometBar;

#[test]
fn test_comet_bar_new() {
    let bar = CometBar::new();
    assert_eq!(bar.config.width, 8);
    assert_eq!(bar.state.frame, 0);
}

#[test]
fn test_comet_bar_reset() {
    let mut bar = CometBar::new();
    bar.state.frame = 10;
    bar.reset();
    assert_eq!(bar.state.frame, 0);
}

#[test]
fn test_render_frame_0() {
    let bar = CometBar::new();
    let rendered = bar.render();
    assert_eq!(rendered.len(), 8);
    assert_eq!(rendered[0].0, '·');
}

#[test]
fn test_render_frame_1() {
    let mut bar = CometBar::new();
    bar.state.frame = 1;
    let rendered = bar.render();
    assert_eq!(rendered[0].0, '█');
}

fn levels(bar: &CometBar) -> Vec<usize> {
    bar.render().iter().map(|(_, level)| *level).collect()
}

#[test]
fn frames_draw_the_head_and_its_tail() {
    let mut bar = CometBar::new();
    bar.state.frame = 6;
    assert_eq!(levels(&bar), vec![4, 4, 3, 2, 1, 0, 4, 4]);
    bar.state.frame = 15;
    assert_eq!(levels(&bar), vec![4, 4, 4, 4, 4, 4, 0, 1]);
    bar.state.frame = 9;
    assert_eq!(levels(&bar), vec![4, 4, 4, 4, 4, 3, 2, 1]);
    bar.state.frame = 24;
    assert_eq!(levels(&bar), vec![3, 4, 4, 4, 4, 4, 4, 4]);
    bar.state.frame = 13;
    assert_eq!(levels(&bar), vec![4; 8]);
    bar.state.frame = 3;
    let chars: String = bar.render().iter().map(|(c, _)| *c).collect();
    assert_eq!(chars, "▒▓█·····");
}

#[test]
fn ticks_step_through_the_run() {
    let mut bar = CometBar::new();
    assert!(bar.tick_internal(100_000_000));
    assert_eq!(bar.state.frame, 1);
    assert!(!bar.tick_internal(50_000_000));
    assert_eq!(bar.state.frame, 1);
    bar.tick_internal(2_450_000_000);
    assert_eq!(bar.state.frame, 0);
    assert_eq!(bar.state.accumulated_nanos, 2_600_000_000);
}

#[test]
fn reduced_mode_waits_for_two_hundred_milliseconds() {
    let mut bar = CometBar::new();
    assert!(bar.tick_step(AnimationMode::Reduced, 16_000_000));
    assert_eq!(bar.state.frame, 0);
    assert!(!bar.tick_step(AnimationMode::Reduced, 16_000_000));
    assert!(bar.tick_step(AnimationMode::Reduced, 190_000_000));
    assert_eq!(bar.state.frame, 2);
    assert_eq!(bar.state.accumulated_nanos, 200_000_000);
    assert!(bar.tick_step(AnimationMode::Static, 1_000));
    assert!(!bar.tick_step(AnimationMode::Static, 1_000));
}
