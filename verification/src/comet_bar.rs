//! A comet-style activity bar: a bright head with a dimming tail that runs
//! across the bar and back.
//!
//! The bar is drawn from a list of cells, each a character and a dim level
//! (0 the brightest, 4 the dimmest); the application colours the levels.
use std::convert::Infallible;
use vstd::prelude::*;

use crate::animation::{AnimationMode, MAX_DURATION_NANOS, NANOS_PER_MILLI};
use crate::control::ControlEvent;
use crate::event::{Event, EventResult};

verus! {

/// Events of the comet bar: it has none, so the type has no values.
#[derive(Debug, Clone)]
pub struct CometBarEvent(Infallible);

impl ControlEvent for CometBarEvent {}

/// Frames in one run across the bar and back.
pub const COMET_FRAMES: usize = 26;

/// Layout and timing of a comet bar (its colour is the application's).
#[derive(Debug, Clone)]
pub struct CometBarConfig {
    /// Width of the bar in cells.
    pub width: usize,
    /// Time per frame, in milliseconds.
    pub frame_duration_ms: u64,
    /// Characters of the dim levels, brightest first.
    pub dim_chars: [char; 5],
    /// Background character.
    pub bg_char: char,
}

impl Default for CometBarConfig {
    fn default() -> (c: CometBarConfig)
        ensures
            c.width == 8,
            c.frame_duration_ms == 100,
            c.dim_chars@ == seq!['█', '▓', '▒', '░', '·'],
            c.bg_char == '·',
    {
        CometBarConfig {
            width: 8,
            frame_duration_ms: 100,
            dim_chars: ['█', '▓', '▒', '░', '·'],
            bg_char: '·',
        }
    }
}

/// Where the animation is.
#[derive(Debug)]
pub struct CometState {
    /// Frame of the run, `0` to `COMET_FRAMES - 1`.
    pub frame: usize,
    /// Time accumulated, in nanoseconds.
    pub accumulated_nanos: u128,
}

impl CometState {
    /// The start of the run.
    pub fn new() -> (s: CometState)
        ensures
            s.frame == 0,
            s.accumulated_nanos == 0,
    {
        CometState { frame: 0, accumulated_nanos: 0 }
    }

    /// Go back to the start of the run.
    pub fn reset(&mut self)
        ensures
            final(self).frame == 0,
            final(self).accumulated_nanos == 0,
    {
        self.frame = 0;
        self.accumulated_nanos = 0;
    }
}

/// Where the comet's head is in a frame, if there is a comet: it enters at
/// the left edge in frame 1 and moves one cell right per frame, leaving past
/// the right edge; frame 13 is empty; from frame 14 it enters at the right
/// edge and moves one cell left per frame, leaving past the left edge; frame
/// 0 is empty. The head may stand off the bar.
pub open spec fn comet_head(frame: usize) -> Option<int> {
    if frame == 0 || frame == 13 || frame >= COMET_FRAMES {
        None
    } else if frame < 13 {
        Some(frame - 1)
    } else {
        Some(21 - frame)
    }
}

/// How far behind the head cell `pos` lies in a frame (the tail trails to
/// the left while the comet runs right, to the right while it runs back),
/// if it is one of the comet's five cells.
pub open spec fn comet_offset(frame: usize, pos: int) -> Option<usize> {
    match comet_head(frame) {
        Some(h) => {
            let k = if frame < 13 {
                h - pos
            } else {
                pos - h
            };
            if 0 <= k <= 4 {
                Some(k as usize)
            } else {
                None
            }
        },
        None => None,
    }
}

/// The cells of a frame: each of the comet's cells at its dim level (the
/// head brightest, then one level dimmer per cell behind it), every other
/// cell the background at the dimmest level.
pub open spec fn comet_cells(frame: usize, width: usize, dim_chars: Seq<char>, bg: char) -> Seq<
    (char, usize),
> {
    Seq::new(
        width as nat,
        |p: int|
            match comet_offset(frame, p) {
                Some(k) => (dim_chars[k as int], k),
                None => (bg, 4usize),
            },
    )
}

/// The frame reached after `acc_nanos` of animation with `frame_ms` per
/// frame: the frame of the time within the current run.
pub open spec fn frame_at(acc_nanos: int, frame_ms: int) -> usize {
    ((((acc_nanos / NANOS_PER_MILLI as int) % (frame_ms * COMET_FRAMES as int)) / frame_ms)
        % COMET_FRAMES as int) as usize
}

/// Every frame has one cell per column, and the head, when it is on the
/// bar, is drawn at the brightest level.
pub proof fn lemma_cells_shape(frame: usize, width: usize, dim_chars: Seq<char>, bg: char)
    ensures
        comet_cells(frame, width, dim_chars, bg).len() == width,
        comet_head(frame) matches Some(h) ==> (0 <= h < width ==> comet_cells(
            frame,
            width,
            dim_chars,
            bg,
        )[h] == (dim_chars[0], 0usize)),
{
}

/// The animation always stays within the run's frames.
pub proof fn lemma_frame_in_run(acc_nanos: int, frame_ms: int)
    requires
        acc_nanos >= 0,
        frame_ms > 0,
    ensures
        frame_at(acc_nanos, frame_ms) < COMET_FRAMES,
{
    let q = ((acc_nanos / NANOS_PER_MILLI as int) % (frame_ms * COMET_FRAMES as int)) / frame_ms;
    assert(q >= 0) by (nonlinear_arith)
        requires
            acc_nanos >= 0,
            frame_ms > 0,
            q == ((acc_nanos / 1_000_000) % (frame_ms * 26)) / frame_ms,
    ;
}

/// A comet-style activity bar.
#[derive(Debug)]
pub struct CometBar {
    pub config: CometBarConfig,
    pub state: CometState,
    /// The animation mode last seen.
    pub animation_mode: AnimationMode,
}

impl Default for CometBar {
    fn default() -> (b: CometBar)
        ensures
            b.config.width == 8,
            b.state.frame == 0,
            b.state.accumulated_nanos == 0,
    {
        CometBar::new()
    }
}

impl CometBar {
    /// A bar with the default layout, at the start of its run.
    pub fn new() -> (b: CometBar)
        ensures
            b.config.width == 8,
            b.config.frame_duration_ms == 100,
            b.config.dim_chars@ == seq!['█', '▓', '▒', '░', '·'],
            b.config.bg_char == '·',
            b.state.frame == 0,
            b.state.accumulated_nanos == 0,
            b.animation_mode == AnimationMode::Full,
    {
        CometBar {
            config: CometBarConfig::default(),
            state: CometState::new(),
            animation_mode: AnimationMode::Full,
        }
    }

    /// A bar with the given layout, at the start of its run.
    pub fn with_config(config: CometBarConfig) -> (b: CometBar)
        ensures
            b.config == config,
            b.state.frame == 0,
            b.state.accumulated_nanos == 0,
            b.animation_mode == AnimationMode::Full,
    {
        CometBar { config, state: CometState::new(), animation_mode: AnimationMode::Full }
    }

    /// Go back to the start of the run.
    pub fn reset(&mut self)
        ensures
            final(self).state.frame == 0,
            final(self).state.accumulated_nanos == 0,
            final(self).config == old(self).config,
            final(self).animation_mode == old(self).animation_mode,
    {
        self.state.reset();
    }

    /// The cells of the current frame: see `comet_cells`.
    pub fn render(&self) -> (cells: Vec<(char, usize)>)
        ensures
            cells@ == comet_cells(
                self.state.frame,
                self.config.width,
                self.config.dim_chars@,
                self.config.bg_char,
            ),
    {
        let width = self.config.width;
        let frame = self.state.frame;
        let ghost dims = self.config.dim_chars@;
        let bg = self.config.bg_char;
        let on_bar = !(frame == 0 || frame == 13 || frame >= COMET_FRAMES);
        let forward = frame < 13;
        let mut result: Vec<(char, usize)> = Vec::new();
        for p in 0..width
            invariant
                width == self.config.width,
                frame == self.state.frame,
                dims == self.config.dim_chars@,
                bg == self.config.bg_char,
                on_bar == comet_head(frame) is Some,
                forward == (frame < 13),
                result@ =~= comet_cells(frame, width, dims, bg).take(p as int),
        {
            let offset: Option<usize> = if !on_bar {
                None
            } else if forward {
                if p + 1 <= frame && frame - 1 - p <= 4 {
                    Some(frame - 1 - p)
                } else {
                    None
                }
            } else {
                if 21 >= frame && p >= 21 - frame && p - (21 - frame) <= 4 {
                    Some(p - (21 - frame))
                } else if frame > 21 && p <= 4 && p + (frame - 21) <= 4 {
                    Some(p + (frame - 21))
                } else {
                    None
                }
            };
            assert(offset == comet_offset(frame, p as int));
            let cell = match offset {
                Some(k) => (self.config.dim_chars[k], k),
                None => (bg, 4usize),
            };
            result.push(cell);
        }
        result
    }

    /// Advance the animation by `elapsed_nanos`: see `frame_at`. Returns
    /// whether the frame changed.
    pub fn tick_internal(&mut self, elapsed_nanos: u128) -> (changed: bool)
        requires
            old(self).config.frame_duration_ms > 0,
            old(self).state.accumulated_nanos + elapsed_nanos <= MAX_DURATION_NANOS,
        ensures
            final(self).state.accumulated_nanos == old(self).state.accumulated_nanos
                + elapsed_nanos,
            final(self).state.frame == frame_at(
                final(self).state.accumulated_nanos as int,
                old(self).config.frame_duration_ms as int,
            ),
            changed == (final(self).state.frame != old(self).state.frame),
            final(self).config == old(self).config,
            final(self).animation_mode == old(self).animation_mode,
    {
        self.state.accumulated_nanos = self.state.accumulated_nanos + elapsed_nanos;
        let frame_ms = self.config.frame_duration_ms as u128;
        let total_ms = frame_ms * 26;
        let cycle_time = (self.state.accumulated_nanos / NANOS_PER_MILLI) % total_ms;
        let new_frame = ((cycle_time / frame_ms) % 26) as usize;
        let changed = new_frame != self.state.frame;
        self.state.frame = new_frame;
        changed
    }

    /// One animation step in `mode`, with `elapsed_nanos` of time passed:
    /// no motion when static; in reduced mode the time gathers until it
    /// reaches 200 ms, then the bar moves by exactly that; in full mode it
    /// moves by the time passed. Returns whether the bar needs drawing again
    /// (the mode or the frame changed).
    pub fn tick_step(&mut self, mode: AnimationMode, elapsed_nanos: u128) -> (redraw: bool)
        requires
            mode != AnimationMode::Static ==> old(self).config.frame_duration_ms > 0,
            mode != AnimationMode::Static ==> old(self).state.accumulated_nanos + elapsed_nanos
                <= MAX_DURATION_NANOS,
        ensures
            final(self).animation_mode == mode,
            final(self).config == old(self).config,
            mode == AnimationMode::Static ==> final(self).state == old(self).state && redraw == (
            old(self).animation_mode != mode),
            mode == AnimationMode::Full ==> final(self).state.accumulated_nanos == old(
                self,
            ).state.accumulated_nanos + elapsed_nanos && final(self).state.frame == frame_at(
                final(self).state.accumulated_nanos as int,
                old(self).config.frame_duration_ms as int,
            ) && redraw == (old(self).animation_mode != mode || final(self).state.frame != old(
                self,
            ).state.frame),
            mode == AnimationMode::Reduced ==> if old(self).state.accumulated_nanos + elapsed_nanos
                < 200 * NANOS_PER_MILLI {
                final(self).state.accumulated_nanos == old(self).state.accumulated_nanos
                    + elapsed_nanos && final(self).state.frame == old(self).state.frame && redraw
                    == (old(self).animation_mode != mode)
            } else {
                final(self).state.accumulated_nanos == 200 * NANOS_PER_MILLI
                    && final(self).state.frame == frame_at(
                    200 * NANOS_PER_MILLI as int,
                    old(self).config.frame_duration_ms as int,
                ) && redraw == (old(self).animation_mode != mode || final(self).state.frame != old(
                    self,
                ).state.frame)
            },
    {
        let mode_changed = self.animation_mode != mode;
        self.animation_mode = mode;
        match mode {
            AnimationMode::Static => mode_changed,
            AnimationMode::Reduced => {
                self.state.accumulated_nanos = self.state.accumulated_nanos + elapsed_nanos;
                let update_interval: u128 = 200 * NANOS_PER_MILLI;
                if self.state.accumulated_nanos < update_interval {
                    return mode_changed;
                }
                self.state.accumulated_nanos = 0;
                let tick_changed = self.tick_internal(update_interval);
                mode_changed || tick_changed
            },
            AnimationMode::Full => {
                let tick_changed = self.tick_internal(elapsed_nanos);
                mode_changed || tick_changed
            },
        }
    }

    /// The bar takes no input.
    pub fn handle_event(&mut self, event: &Event) -> (r: EventResult)
        ensures
            r == EventResult::Unhandled,
            *final(self) == *old(self),
    {
        EventResult::Unhandled
    }

    /// The bar emits no events.
    pub fn take_events(&mut self) -> (es: Vec<CometBarEvent>)
        ensures
            es@.len() == 0,
            *final(self) == *old(self),
    {
        Vec::new()
    }

    /// The bar emits no events.
    pub fn has_events(&self) -> (b: bool)
        ensures
            !b,
    {
        false
    }
}

} // verus!
