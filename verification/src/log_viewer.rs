//! Log viewer: a toggleable overlay holding the most recent log lines.
//!
//! The buffer keeps at most `max_size` lines (at least one once something was
//! logged); when it is full the oldest line is dropped for the new one.
//! Scrolling counts lines up from the bottom: 0 shows the newest lines.
use std::collections::VecDeque;
use std::time::SystemTime;
use vstd::prelude::*;

use crate::clock::{format_instant, system_now, timestamp_text};
use crate::text::TextArg;

verus! {

/// Number of lines a viewer made by `new` keeps.
pub const DEFAULT_BUFFER_SIZE: usize = 1000;

/// Severity of a log line.
#[derive(Clone, Copy, Debug, PartialEq, Eq, Structural)]
pub enum LogLevel {
    Trace,
    Debug,
    Info,
    Warn,
    Error,
}

/// A line in the log viewer.
#[derive(Debug, Clone)]
pub struct LogLine {
    /// When the line was logged.
    pub timestamp: SystemTime,
    /// The log level.
    pub level: LogLevel,
    /// The message content.
    pub message: String,
    /// Optional target/module path.
    pub target: Option<String>,
}

impl LogLine {
    /// Create a new log line stamped with the current time.
    pub fn new(level: LogLevel, message: impl TextArg) -> (line: LogLine)
        ensures
            line.level == level,
            line.message@ == message.text_view(),
            line.target is None,
    {
        LogLine { timestamp: system_now(), level, message: message.into_text(), target: None }
    }

    /// Set the target/module path.
    pub fn with_target(self, target: impl TextArg) -> (line: LogLine)
        ensures
            line.timestamp == self.timestamp,
            line.level == self.level,
            line.message == self.message,
            line.target matches Some(t) && t@ == target.text_view(),
    {
        let mut line = self;
        line.target = Some(target.into_text());
        line
    }

    /// Format the timestamp as `HH:MM:SS.mmm` (UTC clock time; an instant
    /// before the epoch reads as `00:00:00.000`).
    pub fn format_timestamp(&self) -> (s: String)
        ensures
            s@ == timestamp_text(self.timestamp),
    {
        format_instant(&self.timestamp)
    }
}

/// The line buffer after pushing `line` onto `lines` with a limit of `max`
/// lines: the oldest line goes when the buffer already holds `max` or more,
/// and a buffer with a limit of zero keeps nothing.
pub open spec fn pushed_lines(lines: Seq<LogLine>, max: nat, line: LogLine) -> Seq<LogLine> {
    if max == 0 {
        Seq::<LogLine>::empty()
    } else if lines.len() >= max {
        lines.drop_first().push(line)
    } else {
        lines.push(line)
    }
}

/// The buffer after pushing each of `new_lines` in order.
pub open spec fn push_all(lines: Seq<LogLine>, max: nat, new_lines: Seq<LogLine>) -> Seq<LogLine>
    decreases new_lines.len(),
{
    if new_lines.len() == 0 {
        lines
    } else {
        pushed_lines(
            push_all(lines, max, new_lines.drop_last()),
            max,
            new_lines.last(),
        )
    }
}

/// Log viewer for displaying log messages.
#[derive(Debug)]
pub struct LogViewer {
    visible: bool,
    buffer: VecDeque<LogLine>,
    max_size: usize,
    scroll: usize,
    auto_scroll: bool,
}

impl Default for LogViewer {
    /// The same as `new`.
    fn default() -> (v: LogViewer)
        ensures
            v.wf(),
            v.lines() == Seq::<LogLine>::empty(),
            v.max_lines() == DEFAULT_BUFFER_SIZE,
            v.scroll_offset() == 0,
            v.follows_tail(),
            !v.shown(),
    {
        LogViewer::new()
    }
}

impl LogViewer {
    /// Well-formedness: the buffer is within its limit and the scroll
    /// position within the buffer.
    pub closed spec fn wf(&self) -> bool {
        &&& self.buffer@.len() <= self.max_size as nat
        &&& self.scroll <= self.buffer@.len()
    }

    /// The lines held, oldest first.
    pub closed spec fn lines(&self) -> Seq<LogLine> {
        self.buffer@
    }

    /// The buffer limit.
    pub closed spec fn max_lines(&self) -> nat {
        self.max_size as nat
    }

    /// The scroll position, in lines up from the bottom.
    pub closed spec fn scroll_offset(&self) -> nat {
        self.scroll as nat
    }

    /// Whether new lines scroll the view to the bottom.
    pub closed spec fn follows_tail(&self) -> bool {
        self.auto_scroll
    }

    /// Whether the viewer is shown.
    pub closed spec fn shown(&self) -> bool {
        self.visible
    }

    /// Create a new log viewer keeping `DEFAULT_BUFFER_SIZE` lines.
    pub fn new() -> (v: LogViewer)
        ensures
            v.wf(),
            v.lines() == Seq::<LogLine>::empty(),
            v.max_lines() == DEFAULT_BUFFER_SIZE,
            v.scroll_offset() == 0,
            v.follows_tail(),
            !v.shown(),
    {
        Self::with_capacity(DEFAULT_BUFFER_SIZE)
    }

    /// Create a log viewer with a specific buffer capacity.
    pub fn with_capacity(max_size: usize) -> (v: LogViewer)
        ensures
            v.wf(),
            v.lines() == Seq::<LogLine>::empty(),
            v.max_lines() == max_size,
            v.scroll_offset() == 0,
            v.follows_tail(),
            !v.shown(),
    {
        LogViewer {
            visible: false,
            buffer: VecDeque::with_capacity(max_size),
            max_size,
            scroll: 0,
            auto_scroll: true,
        }
    }

    /// Toggle the viewer visibility; showing it while it follows the tail
    /// scrolls to the bottom.
    pub fn toggle(&mut self)
        requires
            old(self).wf(),
        ensures
            final(self).wf(),
            final(self).shown() == !old(self).shown(),
            final(self).lines() == old(self).lines(),
            final(self).max_lines() == old(self).max_lines(),
            final(self).follows_tail() == old(self).follows_tail(),
            final(self).scroll_offset() == if final(self).shown() && old(self).follows_tail() {
                0
            } else {
                old(self).scroll_offset()
            },
    {
        self.visible = !self.visible;
        if self.visible && self.auto_scroll {
            self.scroll_to_bottom();
        }
    }

    /// Show the viewer; when it follows the tail it scrolls to the bottom.
    pub fn show(&mut self)
        requires
            old(self).wf(),
        ensures
            final(self).wf(),
            final(self).shown(),
            final(self).lines() == old(self).lines(),
            final(self).max_lines() == old(self).max_lines(),
            final(self).follows_tail() == old(self).follows_tail(),
            final(self).scroll_offset() == if old(self).follows_tail() {
                0
            } else {
                old(self).scroll_offset()
            },
    {
        self.visible = true;
        if self.auto_scroll {
            self.scroll_to_bottom();
        }
    }

    /// Hide the viewer.
    pub fn set_hidden(&mut self)
        requires
            old(self).wf(),
        ensures
            final(self).wf(),
            !final(self).shown(),
            final(self).lines() == old(self).lines(),
            final(self).max_lines() == old(self).max_lines(),
            final(self).follows_tail() == old(self).follows_tail(),
            final(self).scroll_offset() == old(self).scroll_offset(),
    {
        self.visible = false;
    }

    /// Check if the viewer is visible.
    pub fn is_visible(&self) -> (b: bool)
        ensures
            b == self.shown(),
    {
        self.visible
    }

    /// Log a message at the given level.
    pub fn log(&mut self, level: LogLevel, message: impl TextArg)
        requires
            old(self).wf(),
        ensures
            final(self).wf(),
            final(self).lines().len() == pushed_lines(
                old(self).lines(),
                old(self).max_lines(),
                final(self).lines().last(),
            ).len(),
            final(self).lines() == pushed_lines(
                old(self).lines(),
                old(self).max_lines(),
                final(self).lines().last(),
            ),
            old(self).max_lines() > 0 ==> final(self).lines().last().level == level,
            old(self).max_lines() > 0 ==> final(self).lines().last().message@
                == message.text_view(),
            old(self).max_lines() > 0 ==> final(self).lines().last().target is None,
            final(self).max_lines() == old(self).max_lines(),
            final(self).shown() == old(self).shown(),
            final(self).follows_tail() == old(self).follows_tail(),
            final(self).scroll_offset() == if old(self).follows_tail() && old(self).shown() {
                0
            } else {
                old(self).scroll_offset()
            },
    {
        let line = LogLine::new(level, message);
        self.push_line(line);
    }

    /// Log a trace message.
    pub fn trace(&mut self, message: impl TextArg)
        requires
            old(self).wf(),
        ensures
            final(self).wf(),
            final(self).lines() == pushed_lines(
                old(self).lines(),
                old(self).max_lines(),
                final(self).lines().last(),
            ),
            old(self).max_lines() > 0 ==> final(self).lines().last().level == LogLevel::Trace,
            old(self).max_lines() > 0 ==> final(self).lines().last().message@
                == message.text_view(),
            old(self).max_lines() > 0 ==> final(self).lines().last().target is None,
            final(self).max_lines() == old(self).max_lines(),
            final(self).shown() == old(self).shown(),
            final(self).follows_tail() == old(self).follows_tail(),
            final(self).scroll_offset() == if old(self).follows_tail() && old(self).shown() {
                0
            } else {
                old(self).scroll_offset()
            },
    {
        self.log(LogLevel::Trace, message);
    }

    /// Log a debug message.
    pub fn debug(&mut self, message: impl TextArg)
        requires
            old(self).wf(),
        ensures
            final(self).wf(),
            final(self).lines() == pushed_lines(
                old(self).lines(),
                old(self).max_lines(),
                final(self).lines().last(),
            ),
            old(self).max_lines() > 0 ==> final(self).lines().last().level == LogLevel::Debug,
            old(self).max_lines() > 0 ==> final(self).lines().last().message@
                == message.text_view(),
            old(self).max_lines() > 0 ==> final(self).lines().last().target is None,
            final(self).max_lines() == old(self).max_lines(),
            final(self).shown() == old(self).shown(),
            final(self).follows_tail() == old(self).follows_tail(),
            final(self).scroll_offset() == if old(self).follows_tail() && old(self).shown() {
                0
            } else {
                old(self).scroll_offset()
            },
    {
        self.log(LogLevel::Debug, message);
    }

    /// Log an info message.
    pub fn info(&mut self, message: impl TextArg)
        requires
            old(self).wf(),
        ensures
            final(self).wf(),
            final(self).lines() == pushed_lines(
                old(self).lines(),
                old(self).max_lines(),
                final(self).lines().last(),
            ),
            old(self).max_lines() > 0 ==> final(self).lines().last().level == LogLevel::Info,
            old(self).max_lines() > 0 ==> final(self).lines().last().message@
                == message.text_view(),
            old(self).max_lines() > 0 ==> final(self).lines().last().target is None,
            final(self).max_lines() == old(self).max_lines(),
            final(self).shown() == old(self).shown(),
            final(self).follows_tail() == old(self).follows_tail(),
            final(self).scroll_offset() == if old(self).follows_tail() && old(self).shown() {
                0
            } else {
                old(self).scroll_offset()
            },
    {
        self.log(LogLevel::Info, message);
    }

    /// Log a warning message.
    pub fn warn(&mut self, message: impl TextArg)
        requires
            old(self).wf(),
        ensures
            final(self).wf(),
            final(self).lines() == pushed_lines(
                old(self).lines(),
                old(self).max_lines(),
                final(self).lines().last(),
            ),
            old(self).max_lines() > 0 ==> final(self).lines().last().level == LogLevel::Warn,
            old(self).max_lines() > 0 ==> final(self).lines().last().message@
                == message.text_view(),
            old(self).max_lines() > 0 ==> final(self).lines().last().target is None,
            final(self).max_lines() == old(self).max_lines(),
            final(self).shown() == old(self).shown(),
            final(self).follows_tail() == old(self).follows_tail(),
            final(self).scroll_offset() == if old(self).follows_tail() && old(self).shown() {
                0
            } else {
                old(self).scroll_offset()
            },
    {
        self.log(LogLevel::Warn, message);
    }

    /// Log an error message.
    pub fn error(&mut self, message: impl TextArg)
        requires
            old(self).wf(),
        ensures
            final(self).wf(),
            final(self).lines() == pushed_lines(
                old(self).lines(),
                old(self).max_lines(),
                final(self).lines().last(),
            ),
            old(self).max_lines() > 0 ==> final(self).lines().last().level == LogLevel::Error,
            old(self).max_lines() > 0 ==> final(self).lines().last().message@
                == message.text_view(),
            old(self).max_lines() > 0 ==> final(self).lines().last().target is None,
            final(self).max_lines() == old(self).max_lines(),
            final(self).shown() == old(self).shown(),
            final(self).follows_tail() == old(self).follows_tail(),
            final(self).scroll_offset() == if old(self).follows_tail() && old(self).shown() {
                0
            } else {
                old(self).scroll_offset()
            },
    {
        self.log(LogLevel::Error, message);
    }

    /// Push a log line to the buffer, dropping the oldest line when full.
    pub fn push_line(&mut self, line: LogLine)
        requires
            old(self).wf(),
        ensures
            final(self).wf(),
            final(self).lines() == pushed_lines(old(self).lines(), old(self).max_lines(), line),
            final(self).max_lines() == old(self).max_lines(),
            final(self).shown() == old(self).shown(),
            final(self).follows_tail() == old(self).follows_tail(),
            final(self).scroll_offset() == if old(self).follows_tail() && old(self).shown() {
                0
            } else {
                old(self).scroll_offset()
            },
    {
        if self.max_size > 0 {
            if self.buffer.len() >= self.max_size {
                let _ = self.buffer.pop_front();
            }
            self.buffer.push_back(line);
        }
        if self.auto_scroll && self.visible {
            self.scroll_to_bottom();
        }
    }

    /// Push a log line to the buffer (public version of `push_line`).
    pub fn push(&mut self, line: LogLine)
        requires
            old(self).wf(),
        ensures
            final(self).wf(),
            final(self).lines() == pushed_lines(old(self).lines(), old(self).max_lines(), line),
            final(self).max_lines() == old(self).max_lines(),
            final(self).shown() == old(self).shown(),
            final(self).follows_tail() == old(self).follows_tail(),
            final(self).scroll_offset() == if old(self).follows_tail() && old(self).shown() {
                0
            } else {
                old(self).scroll_offset()
            },
    {
        self.push_line(line);
    }

    /// Scroll up by `lines` lines, no further than the oldest line; this
    /// stops following the tail.
    pub fn scroll_up(&mut self, lines: usize)
        requires
            old(self).wf(),
        ensures
            final(self).wf(),
            final(self).scroll_offset() == vstd::math::min(
                old(self).scroll_offset() + lines,
                old(self).lines().len() as int,
            ),
            !final(self).follows_tail(),
            final(self).lines() == old(self).lines(),
            final(self).max_lines() == old(self).max_lines(),
            final(self).shown() == old(self).shown(),
    {
        self.auto_scroll = false;
        let up = self.scroll.saturating_add(lines);
        let len = self.buffer.len();
        self.scroll = if up < len { up } else { len };
    }

    /// Scroll down by `lines` lines; reaching the bottom follows the tail again.
    pub fn scroll_down(&mut self, lines: usize)
        requires
            old(self).wf(),
        ensures
            final(self).wf(),
            final(self).scroll_offset() == if old(self).scroll_offset() >= lines {
                old(self).scroll_offset() - lines
            } else {
                0
            },
            final(self).follows_tail() == (old(self).follows_tail()
                || final(self).scroll_offset() == 0),
            final(self).lines() == old(self).lines(),
            final(self).max_lines() == old(self).max_lines(),
            final(self).shown() == old(self).shown(),
    {
        self.scroll = self.scroll.saturating_sub(lines);
        if self.scroll == 0 {
            self.auto_scroll = true;
        }
    }

    /// Scroll to the bottom and follow the tail.
    pub fn scroll_to_bottom(&mut self)
        requires
            old(self).wf(),
        ensures
            final(self).wf(),
            final(self).scroll_offset() == 0,
            final(self).follows_tail(),
            final(self).lines() == old(self).lines(),
            final(self).max_lines() == old(self).max_lines(),
            final(self).shown() == old(self).shown(),
    {
        self.scroll = 0;
        self.auto_scroll = true;
    }

    /// Clear the buffer.
    pub fn clear(&mut self)
        requires
            old(self).wf(),
        ensures
            final(self).wf(),
            final(self).lines() == Seq::<LogLine>::empty(),
            final(self).scroll_offset() == 0,
            final(self).max_lines() == old(self).max_lines(),
            final(self).shown() == old(self).shown(),
            final(self).follows_tail() == old(self).follows_tail(),
    {
        self.buffer.clear();
        self.scroll = 0;
    }

    /// The number of lines in the buffer.
    pub fn len(&self) -> (n: usize)
        ensures
            n == self.lines().len(),
    {
        self.buffer.len()
    }

    /// Whether the buffer is empty.
    pub fn is_empty(&self) -> (b: bool)
        ensures
            b == (self.lines().len() == 0),
    {
        self.buffer.len() == 0
    }

    /// The lines held, oldest first.
    pub fn buffer(&self) -> (b: &VecDeque<LogLine>)
        ensures
            b@ == self.lines(),
    {
        &self.buffer
    }

    /// The scroll position, in lines up from the bottom.
    pub fn scroll_position(&self) -> (n: usize)
        ensures
            n == self.scroll_offset(),
    {
        self.scroll
    }
}

impl LogViewer {
    /// A well-formed viewer's buffer never holds more than its limit, and its
    /// scroll position never passes the oldest line.
    pub proof fn lemma_bounded(v: LogViewer)
        requires
            v.wf(),
        ensures
            v.lines().len() <= v.max_lines(),
            v.scroll_offset() <= v.lines().len(),
    {
    }
}

/// Pushing a line keeps the newest lines: the result is the old buffer with
/// the line appended, less as many of its oldest lines as the limit demands.
pub proof fn lemma_push_keeps_newest(lines: Seq<LogLine>, max: nat, line: LogLine)
    requires
        lines.len() <= max,
    ensures
        pushed_lines(lines, max, line).len() == vstd::math::min(
            lines.len() + 1 as int,
            max as int,
        ),
        pushed_lines(lines, max, line) == lines.push(line).subrange(
            lines.len() + 1 - pushed_lines(lines, max, line).len(),
            lines.len() + 1 as int,
        ),
{
    if lines.len() > 0 {
        assert(lines.drop_first().push(line) =~= lines.push(line).subrange(
            1,
            lines.len() + 1 as int,
        ));
    }
    assert(lines.push(line) =~= lines.push(line).subrange(0, lines.len() + 1 as int));
}

/// Pushing lines one by one into an empty buffer leaves exactly the last
/// `min(n, cap)` of them, in order.
pub proof fn lemma_push_all_keeps_last(max: nat, new_lines: Seq<LogLine>)
    ensures
        push_all(Seq::empty(), max, new_lines) == new_lines.subrange(
            new_lines.len() - vstd::math::min(new_lines.len() as int, max as int),
            new_lines.len() as int,
        ),
    decreases new_lines.len(),
{
    if new_lines.len() > 0 {
        let prev = new_lines.drop_last();
        lemma_push_all_keeps_last(max, prev);
        let before = push_all(Seq::empty(), max, prev);
        lemma_push_keeps_newest(before, max, new_lines.last());
        let k = vstd::math::min(prev.len() as int, max as int);
        assert(before.push(new_lines.last()) =~= new_lines.subrange(
            new_lines.len() - 1 - k,
            new_lines.len() as int,
        ));
        let m = pushed_lines(before, max, new_lines.last()).len();
        assert(before.push(new_lines.last()).subrange(before.len() + 1 - m, before.len() + 1 as int)
            =~= new_lines.subrange(new_lines.len() - m, new_lines.len() as int));
    } else {
        assert(new_lines.subrange(0, 0) =~= Seq::<LogLine>::empty());
    }
}

} // verus!
