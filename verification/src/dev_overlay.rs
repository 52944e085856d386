//! Developer overlays: a log viewer and a debug panel, each shown or hidden
//! on its own, fed by a channel of log lines and by the frames drawn.
use std::time::Duration;
use tokio::sync::mpsc::UnboundedReceiver;
use vstd::prelude::*;

use crate::clock::digit_char;
use crate::debug_panel::{DebugPanel, FrameInfo, FrameTrigger};
use crate::event::{Event, KeyCode, MediaKeyCode, ModifierKeyCode, MouseButton, MouseEventKind};
use crate::log_viewer::{push_all, LogLine, LogViewer};
use crate::text::string_from_chars;

verus! {

#[verifier::external_type_specification]
#[verifier::external_body]
#[verifier::reject_recursive_types(T)]
pub struct ExUnboundedReceiver<T>(UnboundedReceiver<T>);

/// Trusted: `UnboundedReceiver::try_recv`, with both of its errors (empty,
/// disconnected) mapped to `None`. Nothing is stated of which line, if any,
/// comes out: that depends on the senders.
#[verifier::external_body]
fn try_recv_line(rx: &mut UnboundedReceiver<LogLine>) -> Option<LogLine> {
    rx.try_recv().ok()
}

// ---------------------------------------------------------------------------
// Names of keys and mouse actions, as the debug panel shows them
// ---------------------------------------------------------------------------

/// The decimal digits of a byte.
pub open spec fn byte_text(n: u8) -> Seq<char> {
    if n < 10 {
        seq![digit_char(n as int)]
    } else if n < 100 {
        seq![digit_char((n / 10) as int), digit_char((n % 10) as int)]
    } else {
        seq![
            digit_char((n / 100) as int),
            digit_char(((n / 10) % 10) as int),
            digit_char((n % 10) as int),
        ]
    }
}

/// A character as Rust's `Debug` writes it, quotes included.
pub uninterp spec fn char_debug(c: char) -> Seq<char>;

/// Trusted: `<char as Debug>::fmt`, through `format!("{:?}")`. Its text is
/// named by `char_debug` and depends on the character alone; which
/// characters std escapes, and how, is left unsaid (it follows Unicode
/// tables of printable and combining characters).
#[verifier::external_body]
fn char_debug_text(c: char) -> (s: String)
    ensures
        s@ == char_debug(c),
{
    format!("{:?}", c)
}

/// The name of a key, as Rust's `Debug` writes the key code.
pub open spec fn key_name(code: KeyCode) -> Seq<char> {
    match code {
        KeyCode::Backspace => "Backspace"@,
        KeyCode::Enter => "Enter"@,
        KeyCode::Left => "Left"@,
        KeyCode::Right => "Right"@,
        KeyCode::Up => "Up"@,
        KeyCode::Down => "Down"@,
        KeyCode::Home => "Home"@,
        KeyCode::End => "End"@,
        KeyCode::PageUp => "PageUp"@,
        KeyCode::PageDown => "PageDown"@,
        KeyCode::Tab => "Tab"@,
        KeyCode::BackTab => "BackTab"@,
        KeyCode::Delete => "Delete"@,
        KeyCode::Insert => "Insert"@,
        KeyCode::F(n) => "F("@ + byte_text(n) + ")"@,
        KeyCode::Char(c) => "Char("@ + char_debug(c) + ")"@,
        KeyCode::Null => "Null"@,
        KeyCode::Esc => "Esc"@,
        KeyCode::CapsLock => "CapsLock"@,
        KeyCode::ScrollLock => "ScrollLock"@,
        KeyCode::NumLock => "NumLock"@,
        KeyCode::PrintScreen => "PrintScreen"@,
        KeyCode::Pause => "Pause"@,
        KeyCode::Menu => "Menu"@,
        KeyCode::KeypadBegin => "KeypadBegin"@,
        KeyCode::Media(m) => "Media("@ + media_name(m) + ")"@,
        KeyCode::Modifier(m) => "Modifier("@ + modifier_name(m) + ")"@,
    }
}

/// The name of a media key, as Rust's `Debug` writes it.
pub open spec fn media_name(m: MediaKeyCode) -> Seq<char> {
    match m {
        MediaKeyCode::Play => "Play"@,
        MediaKeyCode::Pause => "Pause"@,
        MediaKeyCode::PlayPause => "PlayPause"@,
        MediaKeyCode::Reverse => "Reverse"@,
        MediaKeyCode::Stop => "Stop"@,
        MediaKeyCode::FastForward => "FastForward"@,
        MediaKeyCode::Rewind => "Rewind"@,
        MediaKeyCode::TrackNext => "TrackNext"@,
        MediaKeyCode::TrackPrevious => "TrackPrevious"@,
        MediaKeyCode::Record => "Record"@,
        MediaKeyCode::LowerVolume => "LowerVolume"@,
        MediaKeyCode::RaiseVolume => "RaiseVolume"@,
        MediaKeyCode::MuteVolume => "MuteVolume"@,
    }
}

/// The name of a modifier key, as Rust's `Debug` writes it.
pub open spec fn modifier_name(m: ModifierKeyCode) -> Seq<char> {
    match m {
        ModifierKeyCode::LeftShift => "LeftShift"@,
        ModifierKeyCode::LeftControl => "LeftControl"@,
        ModifierKeyCode::LeftAlt => "LeftAlt"@,
        ModifierKeyCode::LeftSuper => "LeftSuper"@,
        ModifierKeyCode::LeftHyper => "LeftHyper"@,
        ModifierKeyCode::LeftMeta => "LeftMeta"@,
        ModifierKeyCode::RightShift => "RightShift"@,
        ModifierKeyCode::RightControl => "RightControl"@,
        ModifierKeyCode::RightAlt => "RightAlt"@,
        ModifierKeyCode::RightSuper => "RightSuper"@,
        ModifierKeyCode::RightHyper => "RightHyper"@,
        ModifierKeyCode::RightMeta => "RightMeta"@,
        ModifierKeyCode::IsoLevel3Shift => "IsoLevel3Shift"@,
        ModifierKeyCode::IsoLevel5Shift => "IsoLevel5Shift"@,
    }
}

/// The name of a mouse button.
pub open spec fn button_name(b: MouseButton) -> Seq<char> {
    match b {
        MouseButton::Left => "Left"@,
        MouseButton::Right => "Right"@,
        MouseButton::Middle => "Middle"@,
    }
}

/// The name of a mouse action, as Rust's `Debug` writes it.
pub open spec fn mouse_name(kind: MouseEventKind) -> Seq<char> {
    match kind {
        MouseEventKind::Down(b) => "Down("@ + button_name(b) + ")"@,
        MouseEventKind::Up(b) => "Up("@ + button_name(b) + ")"@,
        MouseEventKind::Drag(b) => "Drag("@ + button_name(b) + ")"@,
        MouseEventKind::Moved => "Moved"@,
        MouseEventKind::ScrollDown => "ScrollDown"@,
        MouseEventKind::ScrollUp => "ScrollUp"@,
        MouseEventKind::ScrollLeft => "ScrollLeft"@,
        MouseEventKind::ScrollRight => "ScrollRight"@,
    }
}

fn push_str(out: &mut Vec<char>, s: &str)
    ensures
        final(out)@ == old(out)@ + s@,
{
    let chars = crate::text::chars_of(s);
    let n = chars.len();
    let ghost start = out@;
    for i in 0..n
        invariant
            n == chars@.len(),
            chars@ == s@,
            out@ == start + chars@.take(i as int),
    {
        assert(chars@.take(i + 1) =~= chars@.take(i as int).push(chars@[i as int]));
        out.push(chars[i]);
    }
    assert(chars@.take(n as int) =~= chars@);
}

fn digit(d: u8) -> (c: char)
    requires
        d < 10,
    ensures
        c == digit_char(d as int),
{
    ((48u8 + d) as char)
}

fn push_byte_text(out: &mut Vec<char>, n: u8)
    ensures
        final(out)@ == old(out)@ + byte_text(n),
{
    if n < 10 {
        out.push(digit(n));
    } else if n < 100 {
        out.push(digit(n / 10));
        out.push(digit(n % 10));
    } else {
        out.push(digit(n / 100));
        out.push(digit((n / 10) % 10));
        out.push(digit(n % 10));
    }
}

/// The name of a key (see `key_name`).
pub fn key_code_name(code: KeyCode) -> (s: String)
    ensures
        s@ == key_name(code),
{
    let mut out: Vec<char> = Vec::new();
    match code {
        KeyCode::Backspace => push_str(&mut out, "Backspace"),
        KeyCode::Enter => push_str(&mut out, "Enter"),
        KeyCode::Left => push_str(&mut out, "Left"),
        KeyCode::Right => push_str(&mut out, "Right"),
        KeyCode::Up => push_str(&mut out, "Up"),
        KeyCode::Down => push_str(&mut out, "Down"),
        KeyCode::Home => push_str(&mut out, "Home"),
        KeyCode::End => push_str(&mut out, "End"),
        KeyCode::PageUp => push_str(&mut out, "PageUp"),
        KeyCode::PageDown => push_str(&mut out, "PageDown"),
        KeyCode::Tab => push_str(&mut out, "Tab"),
        KeyCode::BackTab => push_str(&mut out, "BackTab"),
        KeyCode::Delete => push_str(&mut out, "Delete"),
        KeyCode::Insert => push_str(&mut out, "Insert"),
        KeyCode::F(n) => {
            push_str(&mut out, "F(");
            push_byte_text(&mut out, n);
            push_str(&mut out, ")");
        },
        KeyCode::Char(c) => {
            push_str(&mut out, "Char(");
            let quoted = char_debug_text(c);
            push_str(&mut out, quoted.as_str());
            push_str(&mut out, ")");
        },
        KeyCode::Null => push_str(&mut out, "Null"),
        KeyCode::Esc => push_str(&mut out, "Esc"),
        KeyCode::CapsLock => push_str(&mut out, "CapsLock"),
        KeyCode::ScrollLock => push_str(&mut out, "ScrollLock"),
        KeyCode::NumLock => push_str(&mut out, "NumLock"),
        KeyCode::PrintScreen => push_str(&mut out, "PrintScreen"),
        KeyCode::Pause => push_str(&mut out, "Pause"),
        KeyCode::Menu => push_str(&mut out, "Menu"),
        KeyCode::KeypadBegin => push_str(&mut out, "KeypadBegin"),
        KeyCode::Media(m) => {
            push_str(&mut out, "Media(");
            push_media_name(&mut out, m);
            push_str(&mut out, ")");
        },
        KeyCode::Modifier(m) => {
            push_str(&mut out, "Modifier(");
            push_modifier_name(&mut out, m);
            push_str(&mut out, ")");
        },
    }
    string_from_chars(&out)
}

fn push_media_name(out: &mut Vec<char>, m: MediaKeyCode)
    ensures
        final(out)@ == old(out)@ + media_name(m),
{
    match m {
        MediaKeyCode::Play => push_str(out, "Play"),
        MediaKeyCode::Pause => push_str(out, "Pause"),
        MediaKeyCode::PlayPause => push_str(out, "PlayPause"),
        MediaKeyCode::Reverse => push_str(out, "Reverse"),
        MediaKeyCode::Stop => push_str(out, "Stop"),
        MediaKeyCode::FastForward => push_str(out, "FastForward"),
        MediaKeyCode::Rewind => push_str(out, "Rewind"),
        MediaKeyCode::TrackNext => push_str(out, "TrackNext"),
        MediaKeyCode::TrackPrevious => push_str(out, "TrackPrevious"),
        MediaKeyCode::Record => push_str(out, "Record"),
        MediaKeyCode::LowerVolume => push_str(out, "LowerVolume"),
        MediaKeyCode::RaiseVolume => push_str(out, "RaiseVolume"),
        MediaKeyCode::MuteVolume => push_str(out, "MuteVolume"),
    }
}

fn push_modifier_name(out: &mut Vec<char>, m: ModifierKeyCode)
    ensures
        final(out)@ == old(out)@ + modifier_name(m),
{
    match m {
        ModifierKeyCode::LeftShift => push_str(out, "LeftShift"),
        ModifierKeyCode::LeftControl => push_str(out, "LeftControl"),
        ModifierKeyCode::LeftAlt => push_str(out, "LeftAlt"),
        ModifierKeyCode::LeftSuper => push_str(out, "LeftSuper"),
        ModifierKeyCode::LeftHyper => push_str(out, "LeftHyper"),
        ModifierKeyCode::LeftMeta => push_str(out, "LeftMeta"),
        ModifierKeyCode::RightShift => push_str(out, "RightShift"),
        ModifierKeyCode::RightControl => push_str(out, "RightControl"),
        ModifierKeyCode::RightAlt => push_str(out, "RightAlt"),
        ModifierKeyCode::RightSuper => push_str(out, "RightSuper"),
        ModifierKeyCode::RightHyper => push_str(out, "RightHyper"),
        ModifierKeyCode::RightMeta => push_str(out, "RightMeta"),
        ModifierKeyCode::IsoLevel3Shift => push_str(out, "IsoLevel3Shift"),
        ModifierKeyCode::IsoLevel5Shift => push_str(out, "IsoLevel5Shift"),
    }
}

fn push_button_name(out: &mut Vec<char>, b: MouseButton)
    ensures
        final(out)@ == old(out)@ + button_name(b),
{
    match b {
        MouseButton::Left => push_str(out, "Left"),
        MouseButton::Right => push_str(out, "Right"),
        MouseButton::Middle => push_str(out, "Middle"),
    }
}

/// The name of a mouse action (see `mouse_name`).
pub fn mouse_kind_name(kind: MouseEventKind) -> (s: String)
    ensures
        s@ == mouse_name(kind),
{
    let mut out: Vec<char> = Vec::new();
    match kind {
        MouseEventKind::Down(b) => {
            push_str(&mut out, "Down(");
            push_button_name(&mut out, b);
            push_str(&mut out, ")");
        },
        MouseEventKind::Up(b) => {
            push_str(&mut out, "Up(");
            push_button_name(&mut out, b);
            push_str(&mut out, ")");
        },
        MouseEventKind::Drag(b) => {
            push_str(&mut out, "Drag(");
            push_button_name(&mut out, b);
            push_str(&mut out, ")");
        },
        MouseEventKind::Moved => push_str(&mut out, "Moved"),
        MouseEventKind::ScrollDown => push_str(&mut out, "ScrollDown"),
        MouseEventKind::ScrollUp => push_str(&mut out, "ScrollUp"),
        MouseEventKind::ScrollLeft => push_str(&mut out, "ScrollLeft"),
        MouseEventKind::ScrollRight => push_str(&mut out, "ScrollRight"),
    }
    string_from_chars(&out)
}

/// The text of a trigger (as `FrameTrigger::display` shows it) that an
/// event stands for.
pub open spec fn event_trigger_text(event: Event) -> Seq<char> {
    match event {
        Event::Key(k) => "Key("@ + key_name(k.code) + ")"@,
        Event::Mouse(m) => "Mouse("@ + mouse_name(m) + ")"@,
        Event::Resize { .. } => "Resize"@,
        Event::FocusGained => "Focus("@ + "Gained"@ + ")"@,
        Event::FocusLost => "Focus("@ + "Lost"@ + ")"@,
        Event::Paste(_) => "Paste"@,
    }
}

/// Manager of the developer overlays: a log viewer and a debug panel, each
/// shown or hidden on its own, and the channel that feeds the log viewer.
#[derive(Debug)]
pub struct DevOverlayManager {
    pub log_viewer: LogViewer,
    pub debug_panel: DebugPanel,
    log_rx: Option<UnboundedReceiver<LogLine>>,
}

impl DevOverlayManager {
    /// Both overlays are well formed.
    pub closed spec fn wf(&self) -> bool {
        self.log_viewer.wf() && self.debug_panel.wf()
    }

    /// The log viewer.
    pub closed spec fn viewer(&self) -> LogViewer {
        self.log_viewer
    }

    /// The debug panel.
    pub closed spec fn panel(&self) -> DebugPanel {
        self.debug_panel
    }

    /// Whether the manager reads log lines from a channel.
    pub closed spec fn has_channel(&self) -> bool {
        self.log_rx is Some
    }

    /// A manager with both overlays hidden; `log_rx`, when given, feeds the
    /// log viewer.
    pub fn new(log_rx: Option<UnboundedReceiver<LogLine>>) -> (m: DevOverlayManager)
        ensures
            m.wf(),
            m.has_channel() == log_rx is Some,
            m.viewer().lines() == Seq::<LogLine>::empty(),
            m.viewer().max_lines() == crate::log_viewer::DEFAULT_BUFFER_SIZE,
            !m.viewer().shown(),
            m.viewer().follows_tail(),
            m.viewer().scroll_offset() == 0,
            !m.panel().shown(),
            m.panel().frame_count() == 0,
            m.panel().history() == Seq::<FrameInfo>::empty(),
    {
        DevOverlayManager { log_viewer: LogViewer::new(), debug_panel: DebugPanel::new(), log_rx }
    }

    /// Toggle the log viewer (see `LogViewer::toggle`).
    pub fn toggle_log_viewer(&mut self)
        requires
            old(self).wf(),
        ensures
            final(self).wf(),
            final(self).viewer().shown() == !old(self).viewer().shown(),
            final(self).viewer().lines() == old(self).viewer().lines(),
            final(self).panel() == old(self).panel(),
            final(self).has_channel() == old(self).has_channel(),
    {
        self.log_viewer.toggle();
    }

    /// Show the log viewer.
    pub fn show_log_viewer(&mut self)
        requires
            old(self).wf(),
        ensures
            final(self).wf(),
            final(self).viewer().shown(),
            final(self).viewer().lines() == old(self).viewer().lines(),
            final(self).panel() == old(self).panel(),
            final(self).has_channel() == old(self).has_channel(),
    {
        self.log_viewer.show();
    }

    /// Hide the log viewer.
    pub fn hide_log_viewer(&mut self)
        requires
            old(self).wf(),
        ensures
            final(self).wf(),
            !final(self).viewer().shown(),
            final(self).viewer().lines() == old(self).viewer().lines(),
            final(self).panel() == old(self).panel(),
            final(self).has_channel() == old(self).has_channel(),
    {
        self.log_viewer.set_hidden();
    }

    /// Whether the log viewer is shown.
    pub fn is_log_viewer_visible(&self) -> (b: bool)
        ensures
            b == self.viewer().shown(),
    {
        self.log_viewer.is_visible()
    }

    /// Toggle the debug panel (see `DebugPanel::toggle`).
    pub fn toggle_debug_panel(&mut self)
        requires
            old(self).wf(),
        ensures
            final(self).wf(),
            final(self).panel().shown() == !old(self).panel().shown(),
            final(self).panel().frame_count() == 0,
            final(self).panel().history() == Seq::<FrameInfo>::empty(),
            final(self).viewer() == old(self).viewer(),
            final(self).has_channel() == old(self).has_channel(),
    {
        self.debug_panel.toggle();
    }

    /// Show the debug panel.
    pub fn show_debug_panel(&mut self)
        requires
            old(self).wf(),
        ensures
            final(self).wf(),
            final(self).panel().shown(),
            final(self).panel().frame_count() == old(self).panel().frame_count(),
            final(self).panel().history() == old(self).panel().history(),
            final(self).viewer() == old(self).viewer(),
            final(self).has_channel() == old(self).has_channel(),
    {
        self.debug_panel.show();
    }

    /// Hide the debug panel.
    pub fn hide_debug_panel(&mut self)
        requires
            old(self).wf(),
        ensures
            final(self).wf(),
            !final(self).panel().shown(),
            final(self).panel().frame_count() == 0,
            final(self).panel().history() == Seq::<FrameInfo>::empty(),
            final(self).viewer() == old(self).viewer(),
            final(self).has_channel() == old(self).has_channel(),
    {
        self.debug_panel.set_hidden();
    }

    /// Whether the debug panel is shown.
    pub fn is_debug_panel_visible(&self) -> (b: bool)
        ensures
            b == self.panel().shown(),
    {
        self.debug_panel.is_visible()
    }

    /// Record a drawn frame in the debug panel (see
    /// `DebugPanel::record_frame`).
    pub fn record_frame(&mut self, render_time: Duration, trigger: FrameTrigger)
        requires
            old(self).wf(),
            old(self).panel().frame_count() < u64::MAX,
        ensures
            final(self).wf(),
            final(self).panel().frame_count() == old(self).panel().frame_count() + 1,
            final(self).panel().last_time() == render_time,
            final(self).panel().shown() == old(self).panel().shown(),
            final(self).viewer() == old(self).viewer(),
            final(self).has_channel() == old(self).has_channel(),
    {
        self.debug_panel.record_frame(render_time, trigger);
    }

    /// Move every log line waiting in the channel into the log viewer, in
    /// order. Returns whether any arrived.
    pub fn poll_logs(&mut self) -> (had_logs: bool)
        requires
            old(self).wf(),
        ensures
            final(self).wf(),
            exists|lines: Seq<LogLine>|
                {
                    &&& final(self).viewer().lines() == push_all(
                        old(self).viewer().lines(),
                        old(self).viewer().max_lines(),
                        lines,
                    )
                    &&& had_logs == (lines.len() > 0)
                    &&& !old(self).has_channel() ==> lines.len() == 0
                },
            final(self).viewer().max_lines() == old(self).viewer().max_lines(),
            final(self).viewer().shown() == old(self).viewer().shown(),
            final(self).panel() == old(self).panel(),
            final(self).has_channel() == old(self).has_channel(),
    {
        let ghost start = self.viewer().lines();
        let ghost max = self.viewer().max_lines();
        let mut had_logs = false;
        let mut channel: Option<UnboundedReceiver<LogLine>> = None;
        std::mem::swap(&mut channel, &mut self.log_rx);
        let ghost mut received: Seq<LogLine> = Seq::empty();
        match channel {
            Some(mut rx) => {
                let mut budget: usize = usize::MAX;
                while budget > 0
                    invariant
                        self.wf(),
                        self.viewer().lines() == push_all(start, max, received),
                        self.viewer().max_lines() == max,
                        self.viewer().shown() == old(self).viewer().shown(),
                        self.panel() == old(self).panel(),
                        self.log_rx is None,
                        had_logs == (received.len() > 0),
                    decreases budget,
                {
                    match try_recv_line(&mut rx) {
                        Some(line) => {
                            proof {
                                assert(received.push(line).drop_last() =~= received);
                                received = received.push(line);
                            }
                            self.log_viewer.push(line);
                            had_logs = true;
                        },
                        None => {
                            break;
                        },
                    }
                    budget = budget - 1;
                }
                self.log_rx = Some(rx);
            },
            None => {},
        }
        assert(self.viewer().lines() == push_all(start, max, received));
        had_logs
    }

    /// The trigger that an event stands for: a key or mouse action by its
    /// name, a resize, a focus change or a paste.
    pub fn event_to_trigger(event: &Event) -> (t: FrameTrigger)
        ensures
            crate::debug_panel::trigger_text(t) == event_trigger_text(*event),
    {
        match event {
            Event::Key(key_event) => FrameTrigger::Key(key_code_name(key_event.code)),
            Event::Mouse(kind) => FrameTrigger::Mouse(mouse_kind_name(*kind)),
            Event::Resize { .. } => FrameTrigger::Resize,
            Event::FocusGained => FrameTrigger::Focus(String::from_str("Gained")),
            Event::FocusLost => FrameTrigger::Focus(String::from_str("Lost")),
            Event::Paste(_) => FrameTrigger::Paste,
        }
    }

    /// Whether either overlay is shown.
    pub fn is_any_visible(&self) -> (b: bool)
        ensures
            b == (self.viewer().shown() || self.panel().shown()),
    {
        self.log_viewer.is_visible() || self.debug_panel.is_visible()
    }

    /// Hide both overlays.
    pub fn hide_all(&mut self)
        requires
            old(self).wf(),
        ensures
            final(self).wf(),
            !final(self).viewer().shown(),
            !final(self).panel().shown(),
            final(self).viewer().lines() == old(self).viewer().lines(),
            final(self).has_channel() == old(self).has_channel(),
    {
        self.log_viewer.set_hidden();
        self.debug_panel.set_hidden();
    }
}

/// Access to the developer overlays while handling an event.
pub struct DevOverlayContext<'a> {
    manager: &'a mut DevOverlayManager,
}

impl<'a> DevOverlayContext<'a> {
    /// The manager this context controls.
    pub closed spec fn target(&self) -> DevOverlayManager {
        *self.manager
    }

    /// A context controlling `manager`.
    pub fn new(manager: &'a mut DevOverlayManager) -> (c: DevOverlayContext<'a>)
        ensures
            c.target() == *old(manager),
    {
        DevOverlayContext { manager }
    }

    /// Toggle the log viewer.
    pub fn toggle_log_viewer(&mut self)
        requires
            old(self).target().wf(),
        ensures
            final(self).target().wf(),
            final(self).target().viewer().shown() == !old(self).target().viewer().shown(),
            final(self).target().panel() == old(self).target().panel(),
    {
        self.manager.toggle_log_viewer();
    }

    /// Show the log viewer.
    pub fn show_log_viewer(&mut self)
        requires
            old(self).target().wf(),
        ensures
            final(self).target().wf(),
            final(self).target().viewer().shown(),
            final(self).target().panel() == old(self).target().panel(),
    {
        self.manager.show_log_viewer();
    }

    /// Hide the log viewer.
    pub fn hide_log_viewer(&mut self)
        requires
            old(self).target().wf(),
        ensures
            final(self).target().wf(),
            !final(self).target().viewer().shown(),
            final(self).target().panel() == old(self).target().panel(),
    {
        self.manager.hide_log_viewer();
    }

    /// Whether the log viewer is shown.
    pub fn is_log_viewer_visible(&self) -> (b: bool)
        ensures
            b == self.target().viewer().shown(),
    {
        self.manager.is_log_viewer_visible()
    }

    /// Toggle the debug panel.
    pub fn toggle_debug_panel(&mut self)
        requires
            old(self).target().wf(),
        ensures
            final(self).target().wf(),
            final(self).target().panel().shown() == !old(self).target().panel().shown(),
            final(self).target().panel().frame_count() == 0,
            final(self).target().panel().history() == Seq::<FrameInfo>::empty(),
            final(self).target().viewer() == old(self).target().viewer(),
    {
        self.manager.toggle_debug_panel();
    }

    /// Show the debug panel.
    pub fn show_debug_panel(&mut self)
        requires
            old(self).target().wf(),
        ensures
            final(self).target().wf(),
            final(self).target().panel().shown(),
            final(self).target().viewer() == old(self).target().viewer(),
    {
        self.manager.show_debug_panel();
    }

    /// Hide the debug panel.
    pub fn hide_debug_panel(&mut self)
        requires
            old(self).target().wf(),
        ensures
            final(self).target().wf(),
            !final(self).target().panel().shown(),
            final(self).target().panel().frame_count() == 0,
            final(self).target().panel().history() == Seq::<FrameInfo>::empty(),
            final(self).target().viewer() == old(self).target().viewer(),
    {
        self.manager.hide_debug_panel();
    }

    /// Whether the debug panel is shown.
    pub fn is_debug_panel_visible(&self) -> (b: bool)
        ensures
            b == self.target().panel().shown(),
    {
        self.manager.is_debug_panel_visible()
    }

    /// Hide both overlays.
    pub fn hide_all(&mut self)
        requires
            old(self).target().wf(),
        ensures
            final(self).target().wf(),
            !final(self).target().viewer().shown(),
            !final(self).target().panel().shown(),
    {
        self.manager.hide_all();
    }

    /// Whether either overlay is shown.
    pub fn is_any_visible(&self) -> (b: bool)
        ensures
            b == (self.target().viewer().shown() || self.target().panel().shown()),
    {
        self.manager.is_any_visible()
    }
}

} // verus!
