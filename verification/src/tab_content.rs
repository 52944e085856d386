//! The content area of the active tab.
use vstd::prelude::*;

use crate::event::{Event, EventResult};

verus! {

/// The content area of the active tab.
pub struct TabContent;

impl TabContent {
    /// The content area leaves every event to the active tab.
    pub fn handle_event(event: &Event) -> (r: EventResult)
        ensures
            r == EventResult::Unhandled,
    {
        EventResult::Unhandled
    }
}

} // verus!
