//! Keys of the tab bar: Tab and BackTab step through the tabs, and the
//! digits 1 to 9 pick one.
use vstd::prelude::*;

use crate::event::{Event, EventResult, KeyCode};

verus! {

/// What a key asks of the tabs.
#[derive(Debug, Clone, Copy, PartialEq, Eq, Structural)]
pub enum TabAction {
    /// Select the next tab.
    Next,
    /// Select the previous tab.
    Prev,
    /// Select the tab at this index.
    Select(usize),
}

/// The tab action of an event: Tab goes to the next tab, BackTab to the
/// previous one, and a digit from 1 to 9 to the tab it numbers (from 0).
pub open spec fn tab_step(event: Event) -> Option<TabAction> {
    match event {
        Event::Key(k) => match k.code {
            KeyCode::Tab => Some(TabAction::Next),
            KeyCode::BackTab => Some(TabAction::Prev),
            KeyCode::Char(c) => if '1' <= c && c <= '9' {
                Some(TabAction::Select((c as u32 - '1' as u32) as usize))
            } else {
                None
            },
            _ => None,
        },
        _ => None,
    }
}

/// The tab bar.
pub struct TabBar;

impl TabBar {
    /// Handle an event: the tab action it asks for (see `tab_step`), which
    /// the caller applies to its tabs, and whether the event was used.
    pub fn handle_event(event: &Event) -> (r: (EventResult, Option<TabAction>))
        ensures
            r.1 == tab_step(*event),
            r.0 == if r.1 is Some {
                EventResult::Handled
            } else {
                EventResult::Unhandled
            },
    {
        match event {
            Event::Key(key) => match key.code {
                KeyCode::Tab => (EventResult::Handled, Some(TabAction::Next)),
                KeyCode::BackTab => (EventResult::Handled, Some(TabAction::Prev)),
                KeyCode::Char(c) => {
                    if '1' <= c && c <= '9' {
                        let index = (c as u32 - '1' as u32) as usize;
                        (EventResult::Handled, Some(TabAction::Select(index)))
                    } else {
                        (EventResult::Unhandled, None)
                    }
                },
                _ => (EventResult::Unhandled, None),
            },
            _ => (EventResult::Unhandled, None),
        }
    }
}

} // verus!
