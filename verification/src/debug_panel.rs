//! Debug panel: frame counter, last render time and the last frame triggers.
//!
//! The history holds at most `FRAME_HISTORY_SIZE` frames, newest first.
//! Toggling or hiding the panel clears what it recorded.
use std::collections::VecDeque;
use std::time::Duration;
use vstd::prelude::*;

use crate::clock::{duration_secs, duration_subsec_nanos, millis_of, zero_duration, zero_length};

verus! {

/// Maximum number of frames kept in the history.
pub const FRAME_HISTORY_SIZE: usize = 10;

/// What triggered a frame redraw.
#[derive(Debug, Clone)]
pub enum FrameTrigger {
    /// A keyboard event.
    Key(String),
    /// A mouse event.
    Mouse(String),
    /// A terminal resize.
    Resize,
    /// An animation tick.
    Tick,
    /// A log update.
    LogUpdate,
    /// A task message.
    TaskMessage(String),
    /// A paste event.
    Paste,
    /// A focus event.
    Focus(String),
    /// Anything else.
    Other(String),
}

/// The short text shown for a trigger.
pub open spec fn trigger_text(t: FrameTrigger) -> Seq<char> {
    match t {
        FrameTrigger::Key(k) => "Key("@ + k@ + ")"@,
        FrameTrigger::Mouse(k) => "Mouse("@ + k@ + ")"@,
        FrameTrigger::Resize => "Resize"@,
        FrameTrigger::Tick => "Tick"@,
        FrameTrigger::LogUpdate => "LogUpdate"@,
        FrameTrigger::TaskMessage(n) => "Task("@ + n@ + ")"@,
        FrameTrigger::Paste => "Paste"@,
        FrameTrigger::Focus(k) => "Focus("@ + k@ + ")"@,
        FrameTrigger::Other(s) => s@,
    }
}

fn wrapped(prefix: &str, inner: &String) -> (s: String)
    ensures
        s@ == prefix@ + inner@ + ")"@,
{
    let mut s = String::from_str(prefix);
    s.append(inner.as_str());
    s.append(")");
    s
}

impl FrameTrigger {
    /// A short display string for the trigger.
    pub fn display(&self) -> (s: String)
        ensures
            s@ == trigger_text(*self),
    {
        match self {
            FrameTrigger::Key(key) => wrapped("Key(", key),
            FrameTrigger::Mouse(kind) => wrapped("Mouse(", kind),
            FrameTrigger::Resize => String::from_str("Resize"),
            FrameTrigger::Tick => String::from_str("Tick"),
            FrameTrigger::LogUpdate => String::from_str("LogUpdate"),
            FrameTrigger::TaskMessage(name) => wrapped("Task(", name),
            FrameTrigger::Paste => String::from_str("Paste"),
            FrameTrigger::Focus(kind) => wrapped("Focus(", kind),
            FrameTrigger::Other(s) => s.clone(),
        }
    }
}

/// Information about a single frame.
#[derive(Debug, Clone)]
pub struct FrameInfo {
    /// Frame number (increments on each redraw).
    pub frame_number: u64,
    /// Time taken to render this frame, in whole milliseconds.
    pub render_time_ms: u64,
    /// What triggered this frame redraw.
    pub trigger: FrameTrigger,
}

/// Whole milliseconds of a duration, as `Duration::as_millis` gives them.
pub open spec fn duration_millis(d: Duration) -> int {
    duration_secs(d) * 1000 + duration_subsec_nanos(d) / 1_000_000
}

/// Debug panel for frame timing and trigger information.
#[derive(Debug)]
pub struct DebugPanel {
    visible: bool,
    frame_counter: u64,
    frame_history: VecDeque<FrameInfo>,
    last_render_time: Duration,
}

impl Default for DebugPanel {
    /// The same as `new`.
    fn default() -> (v: DebugPanel)
        ensures
            v.wf(),
            !v.shown(),
            v.frame_count() == 0,
            v.history() == Seq::<FrameInfo>::empty(),
            zero_length(v.last_time()),
    {
        DebugPanel::new()
    }
}

impl DebugPanel {
    /// Well-formedness: the history is within its limit and numbers its
    /// frames down from the counter, one apart.
    pub closed spec fn wf(&self) -> bool {
        &&& self.frame_history@.len() <= FRAME_HISTORY_SIZE
        &&& self.frame_history@.len() <= self.frame_counter
        &&& forall|i: int|
            0 <= i < self.frame_history@.len() ==> #[trigger] self.frame_history@[i].frame_number
                == self.frame_counter - i
    }

    /// Whether the panel is shown.
    pub closed spec fn shown(&self) -> bool {
        self.visible
    }

    /// Frames recorded since the panel was created or last cleared.
    pub closed spec fn frame_count(&self) -> u64 {
        self.frame_counter
    }

    /// The recent frames, newest first.
    pub closed spec fn history(&self) -> Seq<FrameInfo> {
        self.frame_history@
    }

    /// The render time of the last frame.
    pub closed spec fn last_time(&self) -> Duration {
        self.last_render_time
    }

    /// Create a new, hidden debug panel with nothing recorded.
    pub fn new() -> (p: DebugPanel)
        ensures
            p.wf(),
            !p.shown(),
            p.frame_count() == 0,
            p.history() == Seq::<FrameInfo>::empty(),
            zero_length(p.last_time()),
    {
        DebugPanel {
            visible: false,
            frame_counter: 0,
            frame_history: VecDeque::with_capacity(FRAME_HISTORY_SIZE),
            last_render_time: zero_duration(),
        }
    }

    /// Toggle the panel visibility. Both ways the frame counter, the history
    /// and the last render time are cleared: a panel shown after being hidden
    /// starts afresh, and a hidden one keeps nothing.
    pub fn toggle(&mut self)
        requires
            old(self).wf(),
        ensures
            final(self).wf(),
            final(self).shown() == !old(self).shown(),
            final(self).frame_count() == 0,
            final(self).history() == Seq::<FrameInfo>::empty(),
            zero_length(final(self).last_time()),
    {
        self.visible = !self.visible;
        self.clear();
    }

    /// Show the panel.
    pub fn show(&mut self)
        requires
            old(self).wf(),
        ensures
            final(self).wf(),
            final(self).shown(),
            final(self).frame_count() == old(self).frame_count(),
            final(self).history() == old(self).history(),
            final(self).last_time() == old(self).last_time(),
    {
        self.visible = true;
    }

    /// Hide the panel and clear what it recorded.
    pub fn set_hidden(&mut self)
        requires
            old(self).wf(),
        ensures
            final(self).wf(),
            !final(self).shown(),
            final(self).frame_count() == 0,
            final(self).history() == Seq::<FrameInfo>::empty(),
            zero_length(final(self).last_time()),
    {
        self.visible = false;
        self.clear();
    }

    /// Check if the panel is visible.
    pub fn is_visible(&self) -> (b: bool)
        ensures
            b == self.shown(),
    {
        self.visible
    }

    /// Clear the frame counter, the history and the last render time.
    pub fn clear(&mut self)
        requires
            old(self).wf(),
        ensures
            final(self).wf(),
            final(self).shown() == old(self).shown(),
            final(self).frame_count() == 0,
            final(self).history() == Seq::<FrameInfo>::empty(),
            zero_length(final(self).last_time()),
    {
        self.frame_counter = 0;
        self.frame_history.clear();
        self.last_render_time = zero_duration();
    }

    /// Record a rendered frame: the counter goes up by one and the frame goes
    /// to the front of the history, the oldest frame leaving when it is full.
    pub fn record_frame(&mut self, render_time: Duration, trigger: FrameTrigger)
        requires
            old(self).wf(),
            old(self).frame_count() < u64::MAX,
        ensures
            final(self).wf(),
            final(self).shown() == old(self).shown(),
            final(self).frame_count() == old(self).frame_count() + 1,
            final(self).last_time() == render_time,
            final(self).history() == seq![
                FrameInfo {
                    frame_number: final(self).frame_count(),
                    render_time_ms: duration_millis(render_time) as u64,
                    trigger,
                },
            ] + if old(self).history().len() >= FRAME_HISTORY_SIZE {
                old(self).history().drop_last()
            } else {
                old(self).history()
            },
    {
        self.frame_counter = self.frame_counter + 1;
        self.last_render_time = render_time;
        let ms = millis_of(&render_time);
        let frame_info = FrameInfo {
            frame_number: self.frame_counter,
            render_time_ms: ms as u64,
            trigger,
        };
        if self.frame_history.len() >= FRAME_HISTORY_SIZE {
            let _ = self.frame_history.pop_back();
        }
        self.frame_history.push_front(frame_info);
        assert forall|i: int| 0 <= i < self.frame_history@.len() implies #[trigger] self.frame_history@[i].frame_number
            == self.frame_counter - i by {
            if i > 0 {
                assert(self.frame_history@[i] == old(self).frame_history@[i - 1]);
            }
        }
    }

    /// The current frame number.
    pub fn frame_number(&self) -> (n: u64)
        ensures
            n == self.frame_count(),
    {
        self.frame_counter
    }

    /// The last render time.
    pub fn last_render_time(&self) -> (d: Duration)
        ensures
            d == self.last_time(),
    {
        self.last_render_time
    }

    /// The frame history, newest first.
    pub fn frame_history(&self) -> (h: &VecDeque<FrameInfo>)
        ensures
            h@ == self.history(),
    {
        &self.frame_history
    }

    /// A well-formed panel's history never holds more than
    /// `FRAME_HISTORY_SIZE` frames; they are the latest frames, newest first,
    /// numbered down from the frame counter one by one.
    pub proof fn lemma_history_shape(p: DebugPanel)
        requires
            p.wf(),
        ensures
            p.history().len() <= FRAME_HISTORY_SIZE,
            p.history().len() <= p.frame_count(),
            forall|i: int|
                0 <= i < p.history().len() ==> #[trigger] p.history()[i].frame_number
                    == p.frame_count() - i,
    {
    }
}

} // verus!
