//! How much the animated widgets move.
use vstd::prelude::*;

verus! {

/// How much animation the application wants.
#[derive(Debug, Clone, Copy, PartialEq, Eq, Structural)]
pub enum AnimationMode {
    /// No motion: widgets stay still.
    Static,
    /// Slow, simple motion.
    Reduced,
    /// Full animation.
    Full,
}

/// The greatest length of a `Duration`, in nanoseconds.
pub const MAX_DURATION_NANOS: u128 = 18_446_744_073_709_551_615_999_999_999;

/// Nanoseconds in a millisecond.
pub const NANOS_PER_MILLI: u128 = 1_000_000;

} // verus!
