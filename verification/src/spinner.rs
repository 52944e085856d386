//! A spinner for busy states: it turns through its frames in full
//! animation, blinks in reduced animation, and stays still otherwise.
//!
//! Durations are held in nanoseconds; the spinner's colour is the
//! application's.
use std::convert::Infallible;
use vstd::prelude::*;

use crate::animation::{AnimationMode, MAX_DURATION_NANOS, NANOS_PER_MILLI};
use crate::control::ControlEvent;
use crate::event::{Event, EventResult};

verus! {

/// Events of the spinner: it has none, so the type has no values.
#[derive(Debug, Clone)]
pub struct SpinnerEvent(Infallible);

impl ControlEvent for SpinnerEvent {}

/// Frames and timing of a spinner.
#[derive(Debug, Clone)]
pub struct SpinnerConfig {
    /// Characters of the full animation, in order.
    pub frames: Vec<char>,
    /// Character shown without animation.
    pub static_char: char,
    /// Time per frame of the full animation, in nanoseconds.
    pub frame_duration_nanos: u128,
    /// Time shown (and then hidden) when blinking, in nanoseconds.
    pub blink_duration_nanos: u128,
}

impl Default for SpinnerConfig {
    fn default() -> (c: SpinnerConfig)
        ensures
            c.frames@ == seq!['⠋', '⠙', '⠹', '⠸', '⠼', '⠴', '⠦', '⠧', '⠇', '⠏'],
            c.static_char == '⠋',
            c.frame_duration_nanos == 80 * NANOS_PER_MILLI,
            c.blink_duration_nanos == 500 * NANOS_PER_MILLI,
    {
        SpinnerConfig {
            frames: vec!['⠋', '⠙', '⠹', '⠸', '⠼', '⠴', '⠦', '⠧', '⠇', '⠏'],
            static_char: '⠋',
            frame_duration_nanos: 80 * NANOS_PER_MILLI,
            blink_duration_nanos: 500 * NANOS_PER_MILLI,
        }
    }
}

/// Where the spinner's animation is.
#[derive(Debug)]
pub struct SpinnerState {
    /// Index of the current frame.
    pub frame_idx: usize,
    /// Time accumulated, in nanoseconds.
    pub accumulated_nanos: u128,
    /// Whether the spinner shows (blinking turns it off and on).
    pub visible: bool,
}

impl SpinnerState {
    /// The first frame, shown, with no time accumulated.
    pub fn new() -> (s: SpinnerState)
        ensures
            s.frame_idx == 0,
            s.accumulated_nanos == 0,
            s.visible,
    {
        SpinnerState { frame_idx: 0, accumulated_nanos: 0, visible: true }
    }

    /// Back to the first frame, shown, with no time accumulated.
    pub fn reset(&mut self)
        ensures
            final(self).frame_idx == 0,
            final(self).accumulated_nanos == 0,
            final(self).visible,
    {
        self.frame_idx = 0;
        self.accumulated_nanos = 0;
        self.visible = true;
    }
}

/// The frame of the full animation after `acc_nanos`, with `n` frames of
/// `frame_nanos` each: the share of the current turn that has passed (in
/// whole milliseconds) times the number of frames, rounded down. It is
/// computed exactly, so a frame starts exactly at its share of the turn
/// (floating-point evaluation of the same share can land a frame late).
pub open spec fn spin_frame(acc_nanos: int, frame_nanos: int, n: int) -> usize {
    let total_ms = frame_nanos * n / NANOS_PER_MILLI as int;
    let cycle = (acc_nanos / NANOS_PER_MILLI as int) % total_ms;
    ((cycle * n / total_ms) % n) as usize
}

/// A value kept to 64 bits, as a cast to `u64` keeps it.
pub open spec fn low64(x: int) -> int {
    x % 0x1_0000_0000_0000_0000
}

/// Whether a blinking spinner shows after `acc_nanos`, blinking for
/// `blink_nanos` (whole milliseconds, kept to 64 bits).
pub open spec fn blink_visible(acc_nanos: int, blink_nanos: int) -> bool {
    let cycle_ms = low64(blink_nanos * 2 / NANOS_PER_MILLI as int);
    let pos = low64(acc_nanos / NANOS_PER_MILLI as int) % cycle_ms;
    pos < low64(blink_nanos / NANOS_PER_MILLI as int)
}

fn to_u64(x: u128) -> (r: u64)
    ensures
        r == low64(x as int),
{
    let r = #[verifier::truncate] (x as u64);
    assert(r == x % 0x1_0000_0000_0000_0000) by (bit_vector)
        requires
            r == x as u64,
    ;
    r
}

/// The full animation always shows one of the frames: its frame index is
/// below the number of frames.
pub proof fn lemma_spin_frame_in_range(acc_nanos: int, frame_nanos: int, n: int)
    requires
        acc_nanos >= 0,
        n > 0,
        frame_nanos * n >= NANOS_PER_MILLI,
    ensures
        spin_frame(acc_nanos, frame_nanos, n) < n,
{
    let total_ms = frame_nanos * n / NANOS_PER_MILLI as int;
    let cycle = (acc_nanos / NANOS_PER_MILLI as int) % total_ms;
    assert(total_ms >= 1);
    assert(cycle >= 0);
    assert(cycle * n / total_ms >= 0) by (nonlinear_arith)
        requires
            cycle >= 0,
            n > 0,
            total_ms >= 1,
    ;
}

/// A spinner for busy states.
#[derive(Debug)]
pub struct Spinner {
    pub config: SpinnerConfig,
    pub state: SpinnerState,
}

impl Default for Spinner {
    fn default() -> (s: Spinner)
        ensures
            s.config.frames@.len() == 10,
            s.state.frame_idx == 0,
            s.state.accumulated_nanos == 0,
            s.state.visible,
    {
        Spinner::new()
    }
}

impl Spinner {
    /// A spinner with the default frames and timing.
    pub fn new() -> (s: Spinner)
        ensures
            s.config.frames@ == seq!['⠋', '⠙', '⠹', '⠸', '⠼', '⠴', '⠦', '⠧', '⠇', '⠏'],
            s.config.static_char == '⠋',
            s.config.frame_duration_nanos == 80 * NANOS_PER_MILLI,
            s.config.blink_duration_nanos == 500 * NANOS_PER_MILLI,
            s.state.frame_idx == 0,
            s.state.accumulated_nanos == 0,
            s.state.visible,
    {
        Spinner { config: SpinnerConfig::default(), state: SpinnerState::new() }
    }

    /// A spinner with the given frames and timing.
    pub fn with_config(config: SpinnerConfig) -> (s: Spinner)
        ensures
            s.config == config,
            s.state.frame_idx == 0,
            s.state.accumulated_nanos == 0,
            s.state.visible,
    {
        Spinner { config, state: SpinnerState::new() }
    }

    /// Back to the first frame, shown.
    pub fn reset(&mut self)
        ensures
            final(self).state.frame_idx == 0,
            final(self).state.accumulated_nanos == 0,
            final(self).state.visible,
            final(self).config == old(self).config,
    {
        self.state.reset();
    }

    /// The character of the current frame, or a space while blinked off.
    pub fn current_char(&self) -> (c: char)
        requires
            self.state.visible ==> self.config.frames@.len() > 0,
        ensures
            c == if self.state.visible {
                self.config.frames@[(self.state.frame_idx as int) % (self.config.frames@.len() as int)]
            } else {
                ' '
            },
    {
        if self.state.visible {
            let n = self.config.frames.len();
            self.config.frames[self.state.frame_idx % n]
        } else {
            ' '
        }
    }

    /// The character drawn: the current frame while shown, else the static
    /// character.
    pub fn shown_char(&self) -> (c: char)
        requires
            self.state.visible ==> self.config.frames@.len() > 0,
        ensures
            c == if self.state.visible {
                self.config.frames@[(self.state.frame_idx as int) % (self.config.frames@.len() as int)]
            } else {
                self.config.static_char
            },
    {
        if self.state.visible {
            self.current_char()
        } else {
            self.config.static_char
        }
    }

    /// Advance the full animation by `elapsed_nanos`: see `spin_frame`.
    /// Returns whether the frame changed.
    pub fn tick_full(&mut self, elapsed_nanos: u128) -> (changed: bool)
        requires
            old(self).state.accumulated_nanos + elapsed_nanos <= MAX_DURATION_NANOS,
            old(self).config.frames@.len() <= u32::MAX,
            old(self).config.frame_duration_nanos * old(self).config.frames@.len()
                <= MAX_DURATION_NANOS,
            old(self).config.frame_duration_nanos * old(self).config.frames@.len()
                >= NANOS_PER_MILLI,
        ensures
            final(self).state.accumulated_nanos == old(self).state.accumulated_nanos
                + elapsed_nanos,
            final(self).state.frame_idx == spin_frame(
                final(self).state.accumulated_nanos as int,
                old(self).config.frame_duration_nanos as int,
                old(self).config.frames@.len() as int,
            ),
            changed == (final(self).state.frame_idx != old(self).state.frame_idx),
            final(self).state.visible == old(self).state.visible,
            final(self).config == old(self).config,
    {
        self.state.accumulated_nanos = self.state.accumulated_nanos + elapsed_nanos;
        let n = self.config.frames.len() as u128;
        let frame_nanos = self.config.frame_duration_nanos;
        assert(frame_nanos * n >= NANOS_PER_MILLI);
        let total_ms = frame_nanos * n / NANOS_PER_MILLI;
        let cycle = (self.state.accumulated_nanos / NANOS_PER_MILLI) % total_ms;
        assert(cycle * n <= total_ms * n) by (nonlinear_arith)
            requires
                cycle < total_ms,
                n >= 0,
        ;
        assert(total_ms * n <= MAX_DURATION_NANOS * 0x1_0000_0000) by (nonlinear_arith)
            requires
                total_ms <= MAX_DURATION_NANOS,
                n <= 0xffff_ffff,
        ;
        let new_idx = ((cycle * n / total_ms) % n) as usize;
        if new_idx != self.state.frame_idx {
            self.state.frame_idx = new_idx;
            true
        } else {
            false
        }
    }

    /// Advance the blinking by `elapsed_nanos`: see `blink_visible`.
    /// Returns whether the spinner turned on or off.
    pub fn tick_reduced(&mut self, elapsed_nanos: u128) -> (changed: bool)
        requires
            old(self).state.accumulated_nanos + elapsed_nanos <= MAX_DURATION_NANOS,
            old(self).config.blink_duration_nanos * 2 <= MAX_DURATION_NANOS,
            low64(old(self).config.blink_duration_nanos * 2 / NANOS_PER_MILLI as int) != 0,
        ensures
            final(self).state.accumulated_nanos == old(self).state.accumulated_nanos
                + elapsed_nanos,
            final(self).state.visible == blink_visible(
                final(self).state.accumulated_nanos as int,
                old(self).config.blink_duration_nanos as int,
            ),
            changed == (final(self).state.visible != old(self).state.visible),
            final(self).state.frame_idx == old(self).state.frame_idx,
            final(self).config == old(self).config,
    {
        self.state.accumulated_nanos = self.state.accumulated_nanos + elapsed_nanos;
        let cycle_ms = to_u64(self.config.blink_duration_nanos * 2 / NANOS_PER_MILLI);
        let cycle_pos = to_u64(self.state.accumulated_nanos / NANOS_PER_MILLI) % cycle_ms;
        let new_visible = cycle_pos < to_u64(self.config.blink_duration_nanos / NANOS_PER_MILLI);
        if new_visible != self.state.visible {
            self.state.visible = new_visible;
            true
        } else {
            false
        }
    }

    /// One animation step in `mode` with `elapsed_nanos` passed: nothing
    /// when static, blinking in reduced mode, turning in full mode. Returns
    /// whether the spinner needs drawing again.
    pub fn tick_step(&mut self, mode: AnimationMode, elapsed_nanos: u128) -> (redraw: bool)
        requires
            mode != AnimationMode::Static ==> {
                &&& old(self).state.accumulated_nanos + elapsed_nanos <= MAX_DURATION_NANOS
                &&& old(self).config.frames@.len() <= u32::MAX
                &&& old(self).config.frame_duration_nanos * old(self).config.frames@.len()
                    <= MAX_DURATION_NANOS
                &&& old(self).config.frame_duration_nanos * old(self).config.frames@.len()
                    >= NANOS_PER_MILLI
                &&& old(self).config.blink_duration_nanos * 2 <= MAX_DURATION_NANOS
                &&& low64(old(self).config.blink_duration_nanos * 2 / NANOS_PER_MILLI as int) != 0
            },
        ensures
            final(self).config == old(self).config,
            mode == AnimationMode::Static ==> final(self).state == old(self).state && !redraw,
            mode == AnimationMode::Reduced ==> final(self).state.visible == blink_visible(
                old(self).state.accumulated_nanos + elapsed_nanos,
                old(self).config.blink_duration_nanos as int,
            ) && redraw == (final(self).state.visible != old(self).state.visible)
                && final(self).state.frame_idx == old(self).state.frame_idx,
            mode == AnimationMode::Full ==> final(self).state.frame_idx == spin_frame(
                old(self).state.accumulated_nanos + elapsed_nanos,
                old(self).config.frame_duration_nanos as int,
                old(self).config.frames@.len() as int,
            ) && redraw == (final(self).state.frame_idx != old(self).state.frame_idx)
                && final(self).state.visible == old(self).state.visible,
            mode != AnimationMode::Static ==> final(self).state.accumulated_nanos == old(
                self,
            ).state.accumulated_nanos + elapsed_nanos,
    {
        match mode {
            AnimationMode::Static => false,
            AnimationMode::Reduced => self.tick_reduced(elapsed_nanos),
            AnimationMode::Full => self.tick_full(elapsed_nanos),
        }
    }

    /// The spinner takes no input.
    pub fn handle_event(&mut self, event: &Event) -> (r: EventResult)
        ensures
            r == EventResult::Unhandled,
            *final(self) == *old(self),
    {
        EventResult::Unhandled
    }

    /// The spinner emits no events.
    pub fn take_events(&mut self) -> (es: Vec<SpinnerEvent>)
        ensures
            es@.len() == 0,
            *final(self) == *old(self),
    {
        Vec::new()
    }

    /// The spinner emits no events.
    pub fn has_events(&self) -> (b: bool)
        ensures
            !b,
    {
        false
    }
}

} // verus!
