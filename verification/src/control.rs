//! Shared pieces of the interactive controls.
use std::convert::Infallible;
use vstd::prelude::*;

verus! {

/// Trusted: `Infallible::clone`. The type has no values, so the function is
/// never called; its clone would be the same value.
pub assume_specification[ <Infallible as Clone>::clone ](x: &Infallible) -> (r: Infallible)
    ensures
        r == *x,
;

/// A marker for the events a control emits.
pub trait ControlEvent {}

/// Configuration for cursor blinking.
#[derive(Debug, Clone, Copy, PartialEq, Eq, Structural)]
pub struct CursorBlinkConfig {
    /// Whether cursor blinking is enabled.
    pub enabled: bool,
    /// How long the cursor is visible, in milliseconds.
    pub on_duration_ms: u64,
    /// How long the cursor is hidden, in milliseconds.
    pub off_duration_ms: u64,
}

/// Default visible and hidden durations of a blinking cursor, in milliseconds.
pub const DEFAULT_BLINK_MS: u64 = 530;

/// The default blink configuration: blinking, 530 ms on and 530 ms off.
pub open spec fn default_blink() -> CursorBlinkConfig {
    CursorBlinkConfig {
        enabled: true,
        on_duration_ms: DEFAULT_BLINK_MS,
        off_duration_ms: DEFAULT_BLINK_MS,
    }
}

impl Default for CursorBlinkConfig {
    fn default() -> (c: CursorBlinkConfig)
        ensures
            c == (CursorBlinkConfig {
                enabled: true,
                on_duration_ms: DEFAULT_BLINK_MS,
                off_duration_ms: DEFAULT_BLINK_MS,
            }),
    {
        CursorBlinkConfig {
            enabled: true,
            on_duration_ms: DEFAULT_BLINK_MS,
            off_duration_ms: DEFAULT_BLINK_MS,
        }
    }
}

impl CursorBlinkConfig {
    /// A config with blinking enabled (the default).
    pub fn enabled() -> (c: CursorBlinkConfig)
        ensures
            c == (CursorBlinkConfig {
                enabled: true,
                on_duration_ms: DEFAULT_BLINK_MS,
                off_duration_ms: DEFAULT_BLINK_MS,
            }),
    {
        Self::default()
    }

    /// A config with blinking disabled (default timings).
    pub fn no_blink() -> (c: CursorBlinkConfig)
        ensures
            c == (CursorBlinkConfig {
                enabled: false,
                on_duration_ms: DEFAULT_BLINK_MS,
                off_duration_ms: DEFAULT_BLINK_MS,
            }),
    {
        let d = Self::default();
        CursorBlinkConfig { enabled: false, ..d }
    }

    /// A blinking config with custom timing.
    pub fn with_timing(on_ms: u64, off_ms: u64) -> (c: CursorBlinkConfig)
        ensures
            c == (CursorBlinkConfig { enabled: true, on_duration_ms: on_ms, off_duration_ms: off_ms }),
    {
        CursorBlinkConfig { enabled: true, on_duration_ms: on_ms, off_duration_ms: off_ms }
    }

    /// Total blink cycle duration: visible time plus hidden time.
    pub fn cycle_duration_ms(&self) -> (ms: u64)
        requires
            self.on_duration_ms + self.off_duration_ms <= u64::MAX,
        ensures
            ms == self.on_duration_ms + self.off_duration_ms,
    {
        self.on_duration_ms + self.off_duration_ms
    }
}

} // verus!
