//! Settings of the progress bar that are not numbers: the style of its
//! indeterminate animation and where its label goes.
use std::convert::Infallible;
use vstd::prelude::*;

use crate::control::ControlEvent;

verus! {

/// How an indeterminate progress bar moves.
#[derive(Debug, Clone, Copy, PartialEq, Eq, Structural)]
pub enum IndeterminateStyle {
    /// A block bouncing back and forth.
    BackAndForth,
    /// A block running across and wrapping around.
    Marquee,
    /// The whole bar pulsing.
    Pulse,
}

impl Default for IndeterminateStyle {
    fn default() -> (s: IndeterminateStyle)
        ensures
            s == IndeterminateStyle::BackAndForth,
    {
        IndeterminateStyle::BackAndForth
    }
}

/// Where the label of a progress bar goes.
#[derive(Debug, Clone, Copy, PartialEq, Eq, Structural)]
pub enum LabelPosition {
    /// No label shown.
    Hidden,
    /// Before the bar.
    Left,
    /// After the bar.
    Right,
    /// Over the middle of the bar.
    Center,
}

impl Default for LabelPosition {
    fn default() -> (p: LabelPosition)
        ensures
            p == LabelPosition::Hidden,
    {
        LabelPosition::Hidden
    }
}

/// Events of the progress bar: it has none, so the type has no values.
#[derive(Debug, Clone)]
pub struct ProgressBarEvent(Infallible);

impl ControlEvent for ProgressBarEvent {}

} // verus!
