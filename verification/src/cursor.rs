//! The text cursor's animation decisions: it stays solid while the user
//! types, and in reduced animation it blinks on and off.
use vstd::prelude::*;

use crate::animation::{MAX_DURATION_NANOS, NANOS_PER_MILLI};

verus! {

/// After an edit the cursor stays solid this long, in milliseconds.
pub const TYPING_IDLE_THRESHOLD_MS: u64 = 500;

/// How long the blinking cursor shows, and then hides, in milliseconds.
pub const REDUCED_BLINK_MS: u128 = 800;

/// Whether the cursor animation pauses (solid cursor): the text changed
/// since the last tick, or the last change was less than the typing
/// threshold ago (`idle_ms`, if the text ever changed).
pub open spec fn typing_pause(was_modified: bool, idle_ms: Option<u64>) -> bool {
    was_modified || match idle_ms {
        Some(ms) => ms < TYPING_IDLE_THRESHOLD_MS,
        None => false,
    }
}

/// Whether the cursor animation pauses: see `typing_pause`.
pub fn should_pause(was_modified: bool, idle_ms: Option<u64>) -> (b: bool)
    ensures
        b == typing_pause(was_modified, idle_ms),
{
    if was_modified {
        true
    } else {
        match idle_ms {
            Some(ms) => ms < TYPING_IDLE_THRESHOLD_MS,
            None => false,
        }
    }
}

/// Whether a blinking cursor shows after `acc_nanos`: on for the first
/// half of each period, off for the second.
pub open spec fn blink_on(acc_nanos: int) -> bool {
    (acc_nanos / NANOS_PER_MILLI as int) % (REDUCED_BLINK_MS as int * 2) < REDUCED_BLINK_MS as int
}

/// The blinking state of a text cursor in reduced animation.
#[derive(Debug, Clone, Copy, PartialEq, Eq, Structural)]
pub struct CursorBlink {
    /// Whether the cursor shows.
    pub visible: bool,
    /// Time accumulated, in nanoseconds.
    pub accumulated_nanos: u128,
}

impl CursorBlink {
    /// A shown cursor with no time accumulated.
    pub fn new() -> (b: CursorBlink)
        ensures
            b.visible,
            b.accumulated_nanos == 0,
    {
        CursorBlink { visible: true, accumulated_nanos: 0 }
    }

    /// One reduced-animation step: while typing pauses the animation the
    /// cursor shows (and is drawn again); otherwise `elapsed_nanos` more
    /// time passes and the cursor blinks (see `blink_on`). Returns whether it
    /// needs drawing again.
    pub fn reduced_step(&mut self, paused: bool, elapsed_nanos: u128) -> (redraw: bool)
        requires
            !paused ==> old(self).accumulated_nanos + elapsed_nanos <= MAX_DURATION_NANOS,
        ensures
            paused ==> final(self).visible && final(self).accumulated_nanos == old(
                self,
            ).accumulated_nanos && redraw,
            !paused ==> final(self).accumulated_nanos == old(self).accumulated_nanos
                + elapsed_nanos && final(self).visible == blink_on(
                final(self).accumulated_nanos as int,
            ) && redraw == (final(self).visible != old(self).visible),
    {
        if paused {
            self.visible = true;
            return true;
        }
        self.accumulated_nanos = self.accumulated_nanos + elapsed_nanos;
        let cycle = (self.accumulated_nanos / NANOS_PER_MILLI) % (REDUCED_BLINK_MS * 2);
        let new_visible = cycle < REDUCED_BLINK_MS;
        if new_visible != self.visible {
            self.visible = new_visible;
            true
        } else {
            false
        }
    }
}

} // verus!
