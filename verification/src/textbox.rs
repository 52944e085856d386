//! Single-line text input: the text, the cursor, editing and the events it emits.
//!
//! The text is held as characters and the cursor is a character index, so
//! every edit works on whole characters, whatever their encoded length.
use vstd::prelude::*;

use crate::control::{default_blink, ControlEvent, CursorBlinkConfig};
use crate::event::{Event, EventResult, KeyCode, KeyEvent};
use crate::text::{chars_of, is_white_space, is_whitespace, string_from_chars, TextArg};

verus! {

/// Events emitted by a text box.
#[derive(Debug, Clone)]
pub enum TextBoxEvent {
    /// The text changed; holds the new text.
    Changed(String),
    /// Enter was pressed; holds the current text.
    Submit(String),
    /// A key was pressed.
    KeyDown(KeyCode),
    /// A key was released.
    KeyUp(KeyCode),
    /// Focus was gained.
    FocusGained,
    /// Focus was lost.
    FocusLost,
}

impl ControlEvent for TextBoxEvent {}

/// A text box event, with its text taken by its characters.
pub enum TextBoxEventView {
    Changed(Seq<char>),
    Submit(Seq<char>),
    KeyDown(KeyCode),
    KeyUp(KeyCode),
    FocusGained,
    FocusLost,
}

/// The view of an event.
pub open spec fn event_view(e: TextBoxEvent) -> TextBoxEventView {
    match e {
        TextBoxEvent::Changed(s) => TextBoxEventView::Changed(s@),
        TextBoxEvent::Submit(s) => TextBoxEventView::Submit(s@),
        TextBoxEvent::KeyDown(k) => TextBoxEventView::KeyDown(k),
        TextBoxEvent::KeyUp(k) => TextBoxEventView::KeyUp(k),
        TextBoxEvent::FocusGained => TextBoxEventView::FocusGained,
        TextBoxEvent::FocusLost => TextBoxEventView::FocusLost,
    }
}

/// The views of a list of events.
pub open spec fn events_view(es: Seq<TextBoxEvent>) -> Seq<TextBoxEventView> {
    es.map_values(|e: TextBoxEvent| event_view(e))
}

/// Cursor shape for the terminal cursor.
#[derive(Debug, Clone, Copy, PartialEq, Eq, Structural)]
pub enum CursorShape {
    /// Block cursor.
    Block,
    /// Bar cursor.
    Bar,
}

/// Behaviour of a text box (its colours are the application's).
#[derive(Debug, Clone, Copy, PartialEq, Eq, Structural)]
pub struct TextBoxConfig {
    /// Cursor blink configuration.
    pub cursor_blink: CursorBlinkConfig,
    /// Cursor shape.
    pub cursor_shape: CursorShape,
    /// Mask character shown in place of each character (password field).
    pub password_mask: Option<char>,
    /// Maximum number of characters (`None` for unlimited).
    pub max_length: Option<usize>,
    /// Whether to draw a border.
    pub show_border: bool,
}

/// The mask of a password field.
pub const PASSWORD_MASK: char = '•';

/// The default configuration: default blinking, block cursor, no mask, no
/// length limit, with a border.
pub open spec fn default_config() -> TextBoxConfig {
    TextBoxConfig {
        cursor_blink: default_blink(),
        cursor_shape: CursorShape::Block,
        password_mask: None,
        max_length: None,
        show_border: true,
    }
}

impl Default for TextBoxConfig {
    fn default() -> (c: TextBoxConfig)
        ensures
            c == default_config(),
    {
        TextBoxConfig {
            cursor_blink: CursorBlinkConfig::default(),
            cursor_shape: CursorShape::Block,
            password_mask: None,
            max_length: None,
            show_border: true,
        }
    }
}

impl TextBoxConfig {
    /// A password field configuration: every character shows as `•`.
    pub fn password() -> (c: TextBoxConfig)
        ensures
            c == (TextBoxConfig { password_mask: Some(PASSWORD_MASK), ..default_config() }),
    {
        TextBoxConfig { password_mask: Some(PASSWORD_MASK), ..Self::default() }
    }

    /// Set the password mask character.
    pub fn with_mask(self, mask: char) -> (c: TextBoxConfig)
        ensures
            c == (TextBoxConfig { password_mask: Some(mask), ..self }),
    {
        TextBoxConfig { password_mask: Some(mask), ..self }
    }

    /// Set the maximum input length.
    pub fn with_max_length(self, max: usize) -> (c: TextBoxConfig)
        ensures
            c == (TextBoxConfig { max_length: Some(max), ..self }),
    {
        TextBoxConfig { max_length: Some(max), ..self }
    }

    /// Set the cursor blink configuration.
    pub fn with_cursor_blink(self, config: CursorBlinkConfig) -> (c: TextBoxConfig)
        ensures
            c == (TextBoxConfig { cursor_blink: config, ..self }),
    {
        TextBoxConfig { cursor_blink: config, ..self }
    }
}

// ---------------------------------------------------------------------------
// The editing model
// ---------------------------------------------------------------------------

/// What editing reads and changes: the text, the cursor, the pending events.
pub struct EditModel {
    pub text: Seq<char>,
    pub cursor: nat,
    pub events: Seq<TextBoxEventView>,
}

/// Whether one more character fits under the length limit.
pub open spec fn has_room(len: nat, max: Option<usize>) -> bool {
    match max {
        Some(m) => len < m,
        None => true,
    }
}

/// Insert `c` at the cursor, if it fits.
pub open spec fn model_insert(m: EditModel, max: Option<usize>, c: char) -> EditModel {
    if has_room(m.text.len(), max) {
        let t = m.text.insert(m.cursor as int, c);
        EditModel {
            text: t,
            cursor: m.cursor + 1,
            events: m.events.push(TextBoxEventView::Changed(t)),
        }
    } else {
        m
    }
}

/// Delete the character under the cursor, if there is one.
pub open spec fn model_delete(m: EditModel) -> EditModel {
    if m.cursor < m.text.len() {
        let t = m.text.remove(m.cursor as int);
        EditModel { text: t, cursor: m.cursor, events: m.events.push(TextBoxEventView::Changed(t)) }
    } else {
        m
    }
}

/// Delete the character before the cursor.
pub open spec fn model_backspace(m: EditModel) -> EditModel {
    if m.cursor > 0 {
        model_delete(EditModel { cursor: (m.cursor - 1) as nat, ..m })
    } else {
        m
    }
}

/// Move the cursor to `pos`.
pub open spec fn model_move(m: EditModel, pos: nat) -> EditModel {
    EditModel { cursor: pos, ..m }
}

/// Index of the first character of the run ending at `p`, stepping back over
/// whitespace at `p`.
pub open spec fn skip_space_back(chars: Seq<char>, p: int) -> int
    decreases p,
{
    if p > 0 && is_white_space(chars[p]) {
        skip_space_back(chars, p - 1)
    } else {
        p
    }
}

/// Step back from `p` while the character before it is not whitespace.
pub open spec fn skip_word_back(chars: Seq<char>, p: int) -> int
    decreases p,
{
    if p > 0 && !is_white_space(chars[p - 1]) {
        skip_word_back(chars, p - 1)
    } else {
        p
    }
}

/// Where "one word left" puts a cursor at `cursor`.
pub open spec fn word_left(chars: Seq<char>, cursor: int) -> int {
    if cursor <= 0 {
        0
    } else {
        skip_word_back(chars, skip_space_back(chars, cursor - 1))
    }
}

/// Step forward from `p` while the character at it is not whitespace.
pub open spec fn skip_word_fwd(chars: Seq<char>, p: int) -> int
    decreases chars.len() - p,
{
    if 0 <= p < chars.len() && !is_white_space(chars[p]) {
        skip_word_fwd(chars, p + 1)
    } else {
        p
    }
}

/// Step forward from `p` while the character at it is whitespace.
pub open spec fn skip_space_fwd(chars: Seq<char>, p: int) -> int
    decreases chars.len() - p,
{
    if 0 <= p < chars.len() && is_white_space(chars[p]) {
        skip_space_fwd(chars, p + 1)
    } else {
        p
    }
}

/// Where "one word right" puts a cursor at `cursor`.
pub open spec fn word_right(chars: Seq<char>, cursor: int) -> int {
    if cursor >= chars.len() {
        cursor
    } else {
        skip_space_fwd(chars, skip_word_fwd(chars, cursor))
    }
}

/// The events of deleting `n` characters at `start`, one at a time: the text
/// after each deletion.
pub open spec fn deletion_events(text: Seq<char>, start: int, n: nat) -> Seq<TextBoxEventView> {
    Seq::new(n, |k: int| TextBoxEventView::Changed(text.take(start) + text.skip(start + k + 1)))
}

/// Delete the word before the cursor, one character at a time: each deleted
/// character emits the text as it is after its deletion.
pub open spec fn model_delete_word_back(m: EditModel) -> EditModel {
    let start = word_left(m.text, m.cursor as int);
    let n = m.cursor - start;
    EditModel {
        text: m.text.take(start) + m.text.skip(m.cursor as int),
        cursor: start as nat,
        events: m.events + deletion_events(m.text, start, n as nat),
    }
}

/// Delete from the start of the text to the cursor.
pub open spec fn model_kill_to_start(m: EditModel) -> EditModel {
    let t = m.text.skip(m.cursor as int);
    EditModel { text: t, cursor: 0, events: m.events.push(TextBoxEventView::Changed(t)) }
}

/// Delete from the cursor to the end of the text.
pub open spec fn model_kill_to_end(m: EditModel) -> EditModel {
    let t = m.text.take(m.cursor as int);
    EditModel { text: t, cursor: m.cursor, events: m.events.push(TextBoxEventView::Changed(t)) }
}

/// The characters of a paste that a single-line input keeps: all but line breaks.
pub open spec fn pasteable(s: Seq<char>) -> Seq<char>
    decreases s.len(),
{
    if s.len() == 0 {
        s
    } else if s.last() == '\n' || s.last() == '\r' {
        pasteable(s.drop_last())
    } else {
        pasteable(s.drop_last()).push(s.last())
    }
}

/// How many characters of a paste of `n` fit in a text of length `len`.
pub open spec fn paste_room(len: nat, max: Option<usize>, n: nat) -> nat {
    match max {
        Some(m) => if len >= m {
            0
        } else {
            vstd::math::min(n as int, m - len) as nat
        },
        None => n,
    }
}

/// Paste `s` at the cursor: its line breaks dropped and cut to what fits;
/// each inserted character emits the text after it.
pub open spec fn model_paste(m: EditModel, max: Option<usize>, s: Seq<char>) -> EditModel {
    let p = pasteable(s);
    let k = paste_room(m.text.len(), max, p.len());
    EditModel {
        text: m.text.take(m.cursor as int) + p.take(k as int) + m.text.skip(m.cursor as int),
        cursor: m.cursor + k,
        events: m.events + Seq::new(
            k,
            |j: int|
                TextBoxEventView::Changed(
                    m.text.take(m.cursor as int) + p.take(j + 1) + m.text.skip(m.cursor as int),
                ),
        ),
    }
}

/// The effect of a key on the text box: the model after it, and whether the
/// key was handled. A key-down event is emitted first for every key.
pub open spec fn model_key(m0: EditModel, max: Option<usize>, key: KeyEvent) -> (EditModel, bool) {
    let m = EditModel { events: m0.events.push(TextBoxEventView::KeyDown(key.code)), ..m0 };
    match key.code {
        KeyCode::Char(c) => if key.modifiers.control {
            if c == 'a' {
                (model_move(m, 0), true)
            } else if c == 'e' {
                (model_move(m, m.text.len()), true)
            } else if c == 'w' {
                (model_delete_word_back(m), true)
            } else if c == 'u' {
                (model_kill_to_start(m), true)
            } else if c == 'k' {
                (model_kill_to_end(m), true)
            } else {
                (m, false)
            }
        } else if key.modifiers.alt {
            if c == 'b' {
                (model_move(m, word_left(m.text, m.cursor as int) as nat), true)
            } else if c == 'f' {
                (model_move(m, word_right(m.text, m.cursor as int) as nat), true)
            } else {
                (m, false)
            }
        } else {
            (model_insert(m, max, c), true)
        },
        KeyCode::Left => (
            if m.cursor > 0 {
                model_move(m, (m.cursor - 1) as nat)
            } else {
                m
            },
            true,
        ),
        KeyCode::Right => (
            if m.cursor < m.text.len() {
                model_move(m, m.cursor + 1)
            } else {
                m
            },
            true,
        ),
        KeyCode::Home => (model_move(m, 0), true),
        KeyCode::End => (model_move(m, m.text.len()), true),
        KeyCode::Backspace => (
            if key.modifiers.control || key.modifiers.alt {
                model_delete_word_back(m)
            } else {
                model_backspace(m)
            },
            true,
        ),
        KeyCode::Delete => (model_delete(m), true),
        KeyCode::Enter => (
            EditModel { events: m.events.push(TextBoxEventView::Submit(m.text)), ..m },
            true,
        ),
        _ => (m, false),
    }
}

/// Whether a key marks the text as modified (it edits, or tries to edit by
/// line-kill keys).
pub open spec fn key_modifies(m: EditModel, max: Option<usize>, key: KeyEvent) -> bool {
    match key.code {
        KeyCode::Char(c) => if key.modifiers.control {
            (c == 'w' && word_left(m.text, m.cursor as int) < m.cursor) || c == 'u' || c == 'k'
        } else if key.modifiers.alt {
            false
        } else {
            has_room(m.text.len(), max)
        },
        KeyCode::Backspace => if key.modifiers.control || key.modifiers.alt {
            word_left(m.text, m.cursor as int) < m.cursor
        } else {
            m.cursor > 0
        },
        KeyCode::Delete => m.cursor < m.text.len(),
        _ => false,
    }
}

/// The text as displayed: one mask character per character, or the text itself.
pub open spec fn masked(text: Seq<char>, mask: Option<char>) -> Seq<char> {
    match mask {
        Some(c) => Seq::new(text.len(), |i: int| c),
        None => text,
    }
}

// ---------------------------------------------------------------------------
// The text box
// ---------------------------------------------------------------------------

/// Builder for a text box with several settings.
pub struct TextBoxBuilder {
    pub id: String,
    pub text: Option<String>,
    pub placeholder: Option<String>,
    pub title: Option<String>,
    pub config: TextBoxConfig,
}

impl TextBoxBuilder {
    /// A builder for a text box with the given focus identifier.
    pub fn new(id: impl TextArg) -> (b: TextBoxBuilder)
        ensures
            b.id@ == id.text_view(),
            b.text is None,
            b.placeholder is None,
            b.title is None,
            b.config == default_config(),
    {
        TextBoxBuilder {
            id: id.into_text(),
            text: None,
            placeholder: None,
            title: None,
            config: TextBoxConfig::default(),
        }
    }

    /// Set the placeholder text.
    pub fn placeholder(self, placeholder: impl TextArg) -> (b: TextBoxBuilder)
        ensures
            b.placeholder matches Some(p) && p@ == placeholder.text_view(),
            b.id == self.id,
            b.text == self.text,
            b.title == self.title,
            b.config == self.config,
    {
        TextBoxBuilder { placeholder: Some(placeholder.into_text()), ..self }
    }

    /// Set the border title.
    pub fn title(self, title: impl TextArg) -> (b: TextBoxBuilder)
        ensures
            b.title matches Some(t) && t@ == title.text_view(),
            b.id == self.id,
            b.text == self.text,
            b.placeholder == self.placeholder,
            b.config == self.config,
    {
        TextBoxBuilder { title: Some(title.into_text()), ..self }
    }

    /// Set the configuration.
    pub fn config(self, config: TextBoxConfig) -> (b: TextBoxBuilder)
        ensures
            b.config == config,
            b.id == self.id,
            b.text == self.text,
            b.placeholder == self.placeholder,
            b.title == self.title,
    {
        TextBoxBuilder { config, ..self }
    }

    /// Set the initial text.
    pub fn text(self, text: impl TextArg) -> (b: TextBoxBuilder)
        ensures
            b.text matches Some(t) && t@ == text.text_view(),
            b.id == self.id,
            b.placeholder == self.placeholder,
            b.title == self.title,
            b.config == self.config,
    {
        TextBoxBuilder { text: Some(text.into_text()), ..self }
    }

    /// Set the password mask character.
    pub fn password_mask(self, mask: char) -> (b: TextBoxBuilder)
        ensures
            b.config == (TextBoxConfig { password_mask: Some(mask), ..self.config }),
            b.id == self.id,
            b.text == self.text,
            b.placeholder == self.placeholder,
            b.title == self.title,
    {
        let config = TextBoxConfig { password_mask: Some(mask), ..self.config };
        TextBoxBuilder { config, ..self }
    }

    /// Set the maximum input length.
    pub fn max_length(self, max: usize) -> (b: TextBoxBuilder)
        ensures
            b.config == (TextBoxConfig { max_length: Some(max), ..self.config }),
            b.id == self.id,
            b.text == self.text,
            b.placeholder == self.placeholder,
            b.title == self.title,
    {
        let config = TextBoxConfig { max_length: Some(max), ..self.config };
        TextBoxBuilder { config, ..self }
    }

    /// Set the cursor blink configuration.
    pub fn cursor_blink(self, blink: CursorBlinkConfig) -> (b: TextBoxBuilder)
        ensures
            b.config == (TextBoxConfig { cursor_blink: blink, ..self.config }),
            b.id == self.id,
            b.text == self.text,
            b.placeholder == self.placeholder,
            b.title == self.title,
    {
        let config = TextBoxConfig { cursor_blink: blink, ..self.config };
        TextBoxBuilder { config, ..self }
    }

    /// Build the text box; the cursor starts at the end of the initial text.
    pub fn build(self) -> (tb: TextBox)
        ensures
            tb.wf(),
            tb.ident() == self.id@,
            tb.content() == match self.text {
                Some(t) => t@,
                None => Seq::<char>::empty(),
            },
            tb.cursor() == tb.content().len(),
            tb.pending() == Seq::<TextBoxEventView>::empty(),
            tb.settings() == self.config,
            tb.placeholder_text() == match self.placeholder {
                Some(p) => Some(p@),
                None => None::<Seq<char>>,
            },
            tb.title_text() == match self.title {
                Some(t) => Some(t@),
                None => None::<Seq<char>>,
            },
            !tb.has_focus(),
            tb.window_focused(),
            tb.scroll() == 0,
            !tb.modified(),
    {
        let text = match &self.text {
            Some(t) => chars_of(t.as_str()),
            None => Vec::new(),
        };
        let cursor_pos = text.len();
        TextBox {
            id: self.id,
            text,
            cursor_pos,
            placeholder: self.placeholder,
            title: self.title,
            config: self.config,
            events: Vec::new(),
            scroll_offset: 0,
            text_modified_this_tick: false,
            is_focused: false,
            terminal_focused: true,
        }
    }
}

/// A single-line text input widget.
#[derive(Clone)]
pub struct TextBox {
    id: String,
    text: Vec<char>,
    cursor_pos: usize,
    placeholder: Option<String>,
    title: Option<String>,
    config: TextBoxConfig,
    events: Vec<TextBoxEvent>,
    scroll_offset: usize,
    text_modified_this_tick: bool,
    is_focused: bool,
    terminal_focused: bool,
}

impl TextBox {
    /// Well-formedness: the cursor is within the text.
    pub closed spec fn wf(&self) -> bool {
        self.cursor_pos <= self.text@.len()
    }

    /// The text, by its characters.
    pub closed spec fn content(&self) -> Seq<char> {
        self.text@
    }

    /// The cursor, as a character index.
    pub closed spec fn cursor(&self) -> nat {
        self.cursor_pos as nat
    }

    /// The events not yet taken, oldest first.
    pub closed spec fn pending(&self) -> Seq<TextBoxEventView> {
        events_view(self.events@)
    }

    /// Text, cursor and pending events together.
    pub open spec fn model(&self) -> EditModel {
        EditModel { text: self.content(), cursor: self.cursor(), events: self.pending() }
    }

    /// The configuration.
    pub closed spec fn settings(&self) -> TextBoxConfig {
        self.config
    }

    /// The focus identifier.
    pub closed spec fn ident(&self) -> Seq<char> {
        self.id@
    }

    /// The placeholder shown while the text is empty.
    pub closed spec fn placeholder_text(&self) -> Option<Seq<char>> {
        match self.placeholder {
            Some(p) => Some(p@),
            None => None,
        }
    }

    /// The border title.
    pub closed spec fn title_text(&self) -> Option<Seq<char>> {
        match self.title {
            Some(t) => Some(t@),
            None => None,
        }
    }

    /// Whether the text box has focus.
    pub closed spec fn has_focus(&self) -> bool {
        self.is_focused
    }

    /// Whether the terminal window has focus.
    pub closed spec fn window_focused(&self) -> bool {
        self.terminal_focused
    }

    /// Everything but the text, the cursor, the events and the modified flag
    /// is the same in `a` and `b`.
    pub open spec fn same_setup(a: TextBox, b: TextBox) -> bool {
        &&& a.ident() == b.ident()
        &&& a.placeholder_text() == b.placeholder_text()
        &&& a.title_text() == b.title_text()
        &&& a.settings() == b.settings()
        &&& a.has_focus() == b.has_focus()
        &&& a.window_focused() == b.window_focused()
        &&& a.scroll() == b.scroll()
    }

    /// A well-formed text box has its cursor within the text.
    pub proof fn lemma_wf(&self)
        requires
            self.wf(),
        ensures
            self.cursor() <= self.content().len(),
    {
    }

    /// The first displayed character.
    pub closed spec fn scroll(&self) -> nat {
        self.scroll_offset as nat
    }

    /// Whether the text changed since the flag was last taken.
    pub closed spec fn modified(&self) -> bool {
        self.text_modified_this_tick
    }

    /// Create an empty text box with the given focus identifier.
    pub fn new(id: impl TextArg) -> (tb: TextBox)
        ensures
            tb.wf(),
            tb.ident() == id.text_view(),
            tb.content() == Seq::<char>::empty(),
            tb.cursor() == 0,
            tb.pending() == Seq::<TextBoxEventView>::empty(),
            tb.settings() == default_config(),
            tb.placeholder_text() is None,
            tb.title_text() is None,
            !tb.has_focus(),
            tb.window_focused(),
            tb.scroll() == 0,
            !tb.modified(),
    {
        TextBox {
            id: id.into_text(),
            text: Vec::new(),
            cursor_pos: 0,
            placeholder: None,
            title: None,
            config: TextBoxConfig::default(),
            events: Vec::new(),
            scroll_offset: 0,
            text_modified_this_tick: false,
            is_focused: false,
            terminal_focused: true,
        }
    }

    /// Create a builder for a text box with the given focus identifier.
    pub fn builder(id: impl TextArg) -> (b: TextBoxBuilder)
        ensures
            b.id@ == id.text_view(),
            b.text is None,
            b.placeholder is None,
            b.title is None,
            b.config == default_config(),
    {
        TextBoxBuilder::new(id)
    }

    /// Set the placeholder text.
    pub fn with_placeholder(self, placeholder: impl TextArg) -> (tb: TextBox)
        ensures
            tb.placeholder_text() == Some(placeholder.text_view()),
            tb.model() == self.model(),
            tb.wf() == self.wf(),
            tb.settings() == self.settings(),
            tb.title_text() == self.title_text(),
            tb.ident() == self.ident(),
            tb.has_focus() == self.has_focus(),
            tb.window_focused() == self.window_focused(),
            tb.scroll() == self.scroll(),
            tb.modified() == self.modified(),
    {
        let mut tb = self;
        tb.placeholder = Some(placeholder.into_text());
        tb
    }

    /// Set the border title.
    pub fn with_title(self, title: impl TextArg) -> (tb: TextBox)
        ensures
            tb.title_text() == Some(title.text_view()),
            tb.model() == self.model(),
            tb.wf() == self.wf(),
            tb.settings() == self.settings(),
            tb.placeholder_text() == self.placeholder_text(),
            tb.ident() == self.ident(),
            tb.has_focus() == self.has_focus(),
            tb.window_focused() == self.window_focused(),
            tb.scroll() == self.scroll(),
            tb.modified() == self.modified(),
    {
        let mut tb = self;
        tb.title = Some(title.into_text());
        tb
    }

    /// Set the configuration.
    pub fn with_config(self, config: TextBoxConfig) -> (tb: TextBox)
        ensures
            tb.settings() == config,
            tb.model() == self.model(),
            tb.wf() == self.wf(),
            tb.placeholder_text() == self.placeholder_text(),
            tb.title_text() == self.title_text(),
            tb.ident() == self.ident(),
            tb.has_focus() == self.has_focus(),
            tb.window_focused() == self.window_focused(),
            tb.scroll() == self.scroll(),
            tb.modified() == self.modified(),
    {
        let mut tb = self;
        tb.config = config;
        tb
    }

    /// Set the initial text; the cursor goes to its end.
    pub fn with_text(self, text: impl TextArg) -> (tb: TextBox)
        ensures
            tb.wf(),
            tb.content() == text.text_view(),
            tb.cursor() == text.text_view().len(),
            tb.pending() == self.pending(),
            tb.settings() == self.settings(),
            tb.placeholder_text() == self.placeholder_text(),
            tb.title_text() == self.title_text(),
            tb.ident() == self.ident(),
            tb.has_focus() == self.has_focus(),
            tb.window_focused() == self.window_focused(),
            tb.scroll() == self.scroll(),
            tb.modified() == self.modified(),
    {
        let mut tb = self;
        let s = text.into_text();
        tb.text = chars_of(s.as_str());
        tb.cursor_pos = tb.text.len();
        tb
    }

    /// The focus identifier.
    pub fn id(&self) -> (s: &str)
        ensures
            s@ == self.ident(),
    {
        self.id.as_str()
    }

    /// The current text.
    pub fn text(&self) -> (s: String)
        ensures
            s@ == self.content(),
    {
        string_from_chars(&self.text)
    }

    /// Replace the text; the cursor stays, pulled back to the end if it was past it.
    pub fn set_text(&mut self, text: impl TextArg)
        requires
            old(self).wf(),
        ensures
            final(self).wf(),
            final(self).content() == text.text_view(),
            final(self).cursor() == vstd::math::min(
                old(self).cursor() as int,
                text.text_view().len() as int,
            ),
            final(self).pending() == old(self).pending(),
            final(self).settings() == old(self).settings(),
            TextBox::same_setup(*final(self), *old(self)),
            final(self).modified() == old(self).modified(),
    {
        let s = text.into_text();
        self.text = chars_of(s.as_str());
        let n = self.text.len();
        if self.cursor_pos > n {
            self.cursor_pos = n;
        }
    }

    /// The cursor position (character index).
    pub fn cursor_pos(&self) -> (n: usize)
        ensures
            n == self.cursor(),
    {
        self.cursor_pos
    }

    /// Move the cursor to `pos`, or to the end of the text if `pos` is past it.
    pub fn set_cursor_pos(&mut self, pos: usize)
        requires
            old(self).wf(),
        ensures
            final(self).wf(),
            final(self).model() == model_move(
                old(self).model(),
                vstd::math::min(pos as int, old(self).content().len() as int) as nat,
            ),
            final(self).settings() == old(self).settings(),
            TextBox::same_setup(*final(self), *old(self)),
            final(self).modified() == old(self).modified(),
    {
        let n = self.text.len();
        self.cursor_pos = if pos < n {
            pos
        } else {
            n
        };
    }

    /// Clear the text; the cursor and the scroll go back to the start.
    pub fn clear(&mut self)
        requires
            old(self).wf(),
        ensures
            final(self).wf(),
            final(self).content() == Seq::<char>::empty(),
            final(self).cursor() == 0,
            final(self).scroll() == 0,
            final(self).pending() == old(self).pending(),
            final(self).settings() == old(self).settings(),
            final(self).ident() == old(self).ident(),
            final(self).placeholder_text() == old(self).placeholder_text(),
            final(self).title_text() == old(self).title_text(),
            final(self).has_focus() == old(self).has_focus(),
            final(self).window_focused() == old(self).window_focused(),
            final(self).modified() == old(self).modified(),
    {
        self.text.clear();
        self.cursor_pos = 0;
        self.scroll_offset = 0;
    }

    /// The configuration.
    pub fn config(&self) -> (c: &TextBoxConfig)
        ensures
            *c == self.settings(),
    {
        &self.config
    }

    /// Replace the configuration.
    pub fn set_config(&mut self, config: TextBoxConfig)
        requires
            old(self).wf(),
        ensures
            final(self).wf(),
            final(self).settings() == config,
            final(self).model() == old(self).model(),
            final(self).ident() == old(self).ident(),
            final(self).placeholder_text() == old(self).placeholder_text(),
            final(self).title_text() == old(self).title_text(),
            final(self).has_focus() == old(self).has_focus(),
            final(self).window_focused() == old(self).window_focused(),
            final(self).scroll() == old(self).scroll(),
            final(self).modified() == old(self).modified(),
    {
        self.config = config;
    }

    fn emit(&mut self, event: TextBoxEvent)
        ensures
            final(self).pending() == old(self).pending().push(event_view(event)),
            final(self).text@ == old(self).text@,
            final(self).cursor_pos == old(self).cursor_pos,
            final(self).config == old(self).config,
            final(self).text_modified_this_tick == old(self).text_modified_this_tick,
            final(self).is_focused == old(self).is_focused,
            final(self).terminal_focused == old(self).terminal_focused,
            final(self).scroll_offset == old(self).scroll_offset,
            final(self).id == old(self).id,
            final(self).placeholder == old(self).placeholder,
            final(self).title == old(self).title,
    {
        self.events.push(event);
        assert(events_view(self.events@) =~= events_view(old(self).events@).push(
            event_view(event),
        ));
    }

    /// Insert a character at the cursor, unless the text is at its maximum length.
    pub fn insert_char(&mut self, c: char)
        requires
            old(self).wf(),
        ensures
            final(self).wf(),
            final(self).model() == model_insert(
                old(self).model(),
                old(self).settings().max_length,
                c,
            ),
            final(self).modified() == (old(self).modified() || has_room(
                old(self).content().len(),
                old(self).settings().max_length,
            )),
            TextBox::same_setup(*final(self), *old(self)),
    {
        match self.config.max_length {
            Some(max) => {
                if self.text.len() >= max {
                    return ;
                }
            },
            None => {},
        }
        self.text.insert(self.cursor_pos, c);
        assert(self.cursor_pos < self.text.len());
        self.cursor_pos = self.cursor_pos + 1;
        self.text_modified_this_tick = true;
        let s = string_from_chars(&self.text);
        self.emit(TextBoxEvent::Changed(s));
    }

    /// Delete the character under the cursor, if any.
    pub fn delete_char(&mut self)
        requires
            old(self).wf(),
        ensures
            final(self).wf(),
            final(self).model() == model_delete(old(self).model()),
            final(self).modified() == (old(self).modified() || old(self).cursor() < old(
                self,
            ).content().len()),
            TextBox::same_setup(*final(self), *old(self)),
    {
        if self.cursor_pos < self.text.len() {
            let _ = self.text.remove(self.cursor_pos);
            self.text_modified_this_tick = true;
            let s = string_from_chars(&self.text);
            self.emit(TextBoxEvent::Changed(s));
        }
    }

    /// Delete the character before the cursor, if any.
    pub fn backspace(&mut self)
        requires
            old(self).wf(),
        ensures
            final(self).wf(),
            final(self).model() == model_backspace(old(self).model()),
            final(self).modified() == (old(self).modified() || old(self).cursor() > 0),
            TextBox::same_setup(*final(self), *old(self)),
    {
        if self.cursor_pos > 0 {
            self.cursor_pos = self.cursor_pos - 1;
            self.delete_char();
        }
    }

    /// Move the cursor one character left, if it can.
    pub fn move_left(&mut self)
        requires
            old(self).wf(),
        ensures
            final(self).wf(),
            final(self).model() == if old(self).cursor() > 0 {
                model_move(old(self).model(), (old(self).cursor() - 1) as nat)
            } else {
                old(self).model()
            },
            TextBox::same_setup(*final(self), *old(self)),
            final(self).modified() == old(self).modified(),
    {
        if self.cursor_pos > 0 {
            self.cursor_pos = self.cursor_pos - 1;
        }
    }

    /// Move the cursor one character right, if it can.
    pub fn move_right(&mut self)
        requires
            old(self).wf(),
        ensures
            final(self).wf(),
            final(self).model() == if old(self).cursor() < old(self).content().len() {
                model_move(old(self).model(), old(self).cursor() + 1)
            } else {
                old(self).model()
            },
            TextBox::same_setup(*final(self), *old(self)),
            final(self).modified() == old(self).modified(),
    {
        if self.cursor_pos < self.text.len() {
            self.cursor_pos = self.cursor_pos + 1;
        }
    }

    /// Move the cursor to the start.
    pub fn move_home(&mut self)
        requires
            old(self).wf(),
        ensures
            final(self).wf(),
            final(self).model() == model_move(old(self).model(), 0),
            TextBox::same_setup(*final(self), *old(self)),
            final(self).modified() == old(self).modified(),
    {
        self.cursor_pos = 0;
    }

    /// Move the cursor to the end.
    pub fn move_end(&mut self)
        requires
            old(self).wf(),
        ensures
            final(self).wf(),
            final(self).model() == model_move(old(self).model(), old(self).content().len()),
            TextBox::same_setup(*final(self), *old(self)),
            final(self).modified() == old(self).modified(),
    {
        self.cursor_pos = self.text.len();
    }

    /// Move the cursor one word left: back over whitespace, then to the start
    /// of the word.
    pub fn move_word_left(&mut self)
        requires
            old(self).wf(),
        ensures
            final(self).wf(),
            final(self).model() == model_move(
                old(self).model(),
                word_left(old(self).content(), old(self).cursor() as int) as nat,
            ),
            TextBox::same_setup(*final(self), *old(self)),
            final(self).modified() == old(self).modified(),
    {
        if self.cursor_pos == 0 {
            return ;
        }
        let ghost chars = self.text@;
        let mut pos = self.cursor_pos - 1;
        while pos > 0 && is_whitespace(self.text[pos])
            invariant
                self.text@ == chars,
                pos < chars.len(),
                skip_space_back(chars, pos as int) == skip_space_back(
                    chars,
                    self.cursor_pos - 1,
                ),
            decreases pos,
        {
            pos = pos - 1;
        }
        let ghost mid = pos as int;
        while pos > 0 && !is_whitespace(self.text[pos - 1])
            invariant
                self.text@ == chars,
                pos < chars.len(),
                skip_word_back(chars, pos as int) == skip_word_back(chars, mid),
            decreases pos,
        {
            pos = pos - 1;
        }
        self.cursor_pos = pos;
    }

    /// Move the cursor one word right: past the rest of the word, then past
    /// the whitespace after it.
    pub fn move_word_right(&mut self)
        requires
            old(self).wf(),
        ensures
            final(self).wf(),
            final(self).model() == model_move(
                old(self).model(),
                word_right(old(self).content(), old(self).cursor() as int) as nat,
            ),
            TextBox::same_setup(*final(self), *old(self)),
            final(self).modified() == old(self).modified(),
    {
        let len = self.text.len();
        if self.cursor_pos >= len {
            return ;
        }
        let ghost chars = self.text@;
        let mut pos = self.cursor_pos;
        while pos < len && !is_whitespace(self.text[pos])
            invariant
                self.text@ == chars,
                len == chars.len(),
                pos <= len,
                skip_word_fwd(chars, pos as int) == skip_word_fwd(chars, self.cursor_pos as int),
            decreases len - pos,
        {
            pos = pos + 1;
        }
        let ghost mid = pos as int;
        while pos < len && is_whitespace(self.text[pos])
            invariant
                self.text@ == chars,
                len == chars.len(),
                pos <= len,
                skip_space_fwd(chars, pos as int) == skip_space_fwd(chars, mid),
            decreases len - pos,
        {
            pos = pos + 1;
        }
        self.cursor_pos = pos;
    }

    /// Delete the word before the cursor, one character at a time.
    pub fn delete_word_back(&mut self)
        requires
            old(self).wf(),
        ensures
            final(self).wf(),
            final(self).model() == model_delete_word_back(old(self).model()),
            final(self).modified() == (old(self).modified() || word_left(
                old(self).content(),
                old(self).cursor() as int,
            ) < old(self).cursor()),
            TextBox::same_setup(*final(self), *old(self)),
    {
        let ghost m0 = self.model();
        proof {
            lemma_word_left_bounds(m0.text, m0.cursor as int);
        }
        if self.cursor_pos == 0 {
            assert(m0.text.take(0) + m0.text.skip(0) =~= m0.text);
            assert(m0.events + Seq::<TextBoxEventView>::empty() =~= m0.events);
            return ;
        }
        let old_pos = self.cursor_pos;
        self.move_word_left();
        let start = self.cursor_pos;
        let n = old_pos - start;
        let mut i: usize = 0;
        assert(m0.text.take(start as int) + m0.text.skip(start as int) =~= m0.text);
        assert(m0.events + deletion_events(m0.text, start as int, 0) =~= m0.events);
        while i < n
            invariant
                i <= n,
                n == old_pos - start,
                start <= old_pos <= m0.text.len(),
                self.wf(),
                self.cursor() == start,
                self.content() == m0.text.take(start as int) + m0.text.skip(start + i),
                self.pending() == m0.events + deletion_events(m0.text, start as int, i as nat),
                TextBox::same_setup(*self, *old(self)),
                self.modified() == (old(self).modified() || i > 0),
            decreases n - i,
        {
            let ghost before = self.content();
            self.delete_char();
            proof {
                assert(self.content() == before.remove(start as int));
                assert((m0.text.take(start as int) + m0.text.skip(start + i)).remove(start as int) =~= m0.text.take(start as int) + m0.text.skip(start + i + 1)) by {
                    let a = m0.text.take(start as int) + m0.text.skip(start + i);
                    let b = m0.text.take(start as int) + m0.text.skip(start + i + 1);
                    assert(a.remove(start as int).len() == b.len());
                    assert forall|j: int| 0 <= j < b.len() implies a.remove(start as int)[j] == b[j] by {
                        if j < start {
                        } else {
                        }
                    }
                }
                assert(self.content() == m0.text.take(start as int) + m0.text.skip(start + i + 1));
                assert(before.len() > start);
                assert(deletion_events(m0.text, start as int, (i + 1) as nat)[i as int] == TextBoxEventView::Changed(m0.text.take(start as int) + m0.text.skip(start + i + 1)));
                assert(self.pending() == (m0.events + deletion_events(m0.text, start as int, i as nat)).push(deletion_events(m0.text, start as int, (i + 1) as nat)[i as int]));
                assert(m0.events + deletion_events(m0.text, start as int, (i + 1) as nat) =~= (m0.events + deletion_events(m0.text, start as int, i as nat)).push(deletion_events(m0.text, start as int, (i + 1) as nat)[i as int]));
            }
            i = i + 1;
        }
        assert(m0.text.skip(start + n) =~= m0.text.skip(old_pos as int));
    }

    /// Paste text at the cursor: line breaks are dropped and characters are
    /// inserted one by one while they fit.
    pub fn paste(&mut self, text: &str)
        requires
            old(self).wf(),
        ensures
            final(self).wf(),
            final(self).model() == model_paste(
                old(self).model(),
                old(self).settings().max_length,
                text@,
            ),
            final(self).modified() == (old(self).modified() || paste_room(
                old(self).content().len(),
                old(self).settings().max_length,
                pasteable(text@).len(),
            ) > 0),
            TextBox::same_setup(*final(self), *old(self)),
    {
        let chars = chars_of(text);
        let ghost m0 = self.model();
        let ghost max = self.config.max_length;
        let n = chars.len();
        proof {
            lemma_paste_empty(m0, max);
            assert(chars@.take(0) =~= Seq::<char>::empty());
        }
        for j in 0..n
            invariant
                n == chars@.len(),
                m0.cursor <= m0.text.len(),
                max == old(self).config.max_length,
                self.wf(),
                self.model() == model_paste(m0, max, chars@.take(j as int)),
                self.modified() == (old(self).modified() || paste_room(
                    m0.text.len(),
                    max,
                    pasteable(chars@.take(j as int)).len(),
                ) > 0),
                TextBox::same_setup(*self, *old(self)),
        {
            let c = chars[j];
            proof {
                assert(chars@.take(j + 1) =~= chars@.take(j as int).push(c));
                lemma_paste_step(m0, max, chars@.take(j as int), c);
            }
            if c != '\n' && c != '\r' {
                self.insert_char(c);
            }
        }
        assert(chars@.take(n as int) =~= text@);
    }

    /// Delete from the start of the text to the cursor.
    pub fn kill_to_start(&mut self)
        requires
            old(self).wf(),
        ensures
            final(self).wf(),
            final(self).model() == model_kill_to_start(old(self).model()),
            final(self).modified(),
            TextBox::same_setup(*final(self), *old(self)),
    {
        let mut rest: Vec<char> = Vec::new();
        let n = self.text.len();
        let start = self.cursor_pos;
        for i in start..n
            invariant
                n == self.text@.len(),
                start <= n,
                rest@ =~= self.text@.subrange(start as int, i as int),
        {
            rest.push(self.text[i]);
        }
        self.text = rest;
        self.cursor_pos = 0;
        self.text_modified_this_tick = true;
        let s = string_from_chars(&self.text);
        self.emit(TextBoxEvent::Changed(s));
    }

    /// Delete from the cursor to the end of the text.
    pub fn kill_to_end(&mut self)
        requires
            old(self).wf(),
        ensures
            final(self).wf(),
            final(self).model() == model_kill_to_end(old(self).model()),
            final(self).modified(),
            TextBox::same_setup(*final(self), *old(self)),
    {
        self.text.truncate(self.cursor_pos);
        self.text_modified_this_tick = true;
        let s = string_from_chars(&self.text);
        self.emit(TextBoxEvent::Changed(s));
    }

    fn handle_key(&mut self, key: KeyEvent) -> (handled: bool)
        requires
            old(self).wf(),
        ensures
            final(self).wf(),
            (final(self).model(), handled) == model_key(
                old(self).model(),
                old(self).settings().max_length,
                key,
            ),
            final(self).modified() == (old(self).modified() || key_modifies(
                old(self).model(),
                old(self).settings().max_length,
                key,
            )),
            TextBox::same_setup(*final(self), *old(self)),
    {
        self.emit(TextBoxEvent::KeyDown(key.code));
        match key.code {
            KeyCode::Char(c) => {
                if key.modifiers.control {
                    if c == 'a' {
                        self.move_home();
                        true
                    } else if c == 'e' {
                        self.move_end();
                        true
                    } else if c == 'w' {
                        self.delete_word_back();
                        true
                    } else if c == 'u' {
                        self.kill_to_start();
                        true
                    } else if c == 'k' {
                        self.kill_to_end();
                        true
                    } else {
                        false
                    }
                } else if key.modifiers.alt {
                    if c == 'b' {
                        self.move_word_left();
                        true
                    } else if c == 'f' {
                        self.move_word_right();
                        true
                    } else {
                        false
                    }
                } else {
                    self.insert_char(c);
                    true
                }
            },
            KeyCode::Left => {
                self.move_left();
                true
            },
            KeyCode::Right => {
                self.move_right();
                true
            },
            KeyCode::Home => {
                self.move_home();
                true
            },
            KeyCode::End => {
                self.move_end();
                true
            },
            KeyCode::Backspace => {
                if key.modifiers.control || key.modifiers.alt {
                    self.delete_word_back();
                } else {
                    self.backspace();
                }
                true
            },
            KeyCode::Delete => {
                self.delete_char();
                true
            },
            KeyCode::Enter => {
                let s = string_from_chars(&self.text);
                self.emit(TextBoxEvent::Submit(s));
                true
            },
            _ => false,
        }
    }

    /// Handle an input event: keys edit and move, a paste inserts text, and
    /// focus events track whether the terminal window has focus.
    pub fn handle_event(&mut self, event: &Event) -> (r: EventResult)
        requires
            old(self).wf(),
        ensures
            final(self).wf(),
            final(self).settings() == old(self).settings(),
            final(self).has_focus() == old(self).has_focus(),
            final(self).scroll() == old(self).scroll(),
            final(self).ident() == old(self).ident(),
            final(self).placeholder_text() == old(self).placeholder_text(),
            final(self).title_text() == old(self).title_text(),
            match *event {
                Event::Key(key) => {
                    let (m, handled) = model_key(
                        old(self).model(),
                        old(self).settings().max_length,
                        key,
                    );
                    &&& final(self).model() == m
                    &&& r == if handled {
                        EventResult::Handled
                    } else {
                        EventResult::Unhandled
                    }
                    &&& final(self).modified() == (old(self).modified() || key_modifies(
                        old(self).model(),
                        old(self).settings().max_length,
                        key,
                    ))
                    &&& final(self).window_focused() == old(self).window_focused()
                },
                Event::Paste(t) => {
                    &&& final(self).model() == model_paste(
                        old(self).model(),
                        old(self).settings().max_length,
                        t@,
                    )
                    &&& r == EventResult::Handled
                    &&& final(self).modified() == (old(self).modified() || paste_room(
                        old(self).content().len(),
                        old(self).settings().max_length,
                        pasteable(t@).len(),
                    ) > 0)
                    &&& final(self).window_focused() == old(self).window_focused()
                },
                Event::FocusGained => {
                    &&& final(self).model() == old(self).model()
                    &&& r == EventResult::Handled
                    &&& final(self).modified() == old(self).modified()
                    &&& final(self).window_focused()
                },
                Event::FocusLost => {
                    &&& final(self).model() == old(self).model()
                    &&& r == EventResult::Handled
                    &&& final(self).modified() == old(self).modified()
                    &&& !final(self).window_focused()
                },
                _ => {
                    &&& final(self).model() == old(self).model()
                    &&& r == EventResult::Unhandled
                    &&& final(self).modified() == old(self).modified()
                    &&& final(self).window_focused() == old(self).window_focused()
                },
            },
    {
        match event {
            Event::Key(key) => {
                if self.handle_key(*key) {
                    EventResult::Handled
                } else {
                    EventResult::Unhandled
                }
            },
            Event::Paste(text) => {
                self.paste(text.as_str());
                EventResult::Handled
            },
            Event::FocusGained => {
                self.terminal_focused = true;
                EventResult::Handled
            },
            Event::FocusLost => {
                self.terminal_focused = false;
                EventResult::Handled
            },
            _ => EventResult::Unhandled,
        }
    }

    /// Keep the cursor in view for a visible width of `visible_width`
    /// characters: the scroll moves to the cursor if it is before the first
    /// shown character, or just far enough for it to be the last one shown.
    /// Returns the new scroll position.
    pub fn update_scroll(&mut self, visible_width: usize) -> (scroll: usize)
        requires
            old(self).wf(),
        ensures
            final(self).wf(),
            scroll == final(self).scroll(),
            final(self).model() == old(self).model(),
            visible_width == 0 ==> scroll == old(self).scroll(),
            visible_width > 0 ==> scroll == if old(self).cursor() < old(self).scroll() {
                old(self).cursor() as int
            } else if old(self).cursor() >= old(self).scroll() + visible_width {
                old(self).cursor() - (visible_width - 1)
            } else {
                old(self).scroll() as int
            },
            visible_width > 0 ==> scroll <= final(self).cursor() < scroll + visible_width,
            final(self).ident() == old(self).ident(),
            final(self).placeholder_text() == old(self).placeholder_text(),
            final(self).title_text() == old(self).title_text(),
            final(self).settings() == old(self).settings(),
            final(self).has_focus() == old(self).has_focus(),
            final(self).window_focused() == old(self).window_focused(),
            final(self).modified() == old(self).modified(),
    {
        if visible_width > 0 {
            if self.cursor_pos < self.scroll_offset {
                self.scroll_offset = self.cursor_pos;
            } else if self.cursor_pos - self.scroll_offset >= visible_width {
                self.scroll_offset = self.cursor_pos - (visible_width - 1);
            }
        }
        self.scroll_offset
    }

    /// Take the "text modified" mark: whether the text was edited since the
    /// mark was last taken. The mark is cleared.
    pub fn take_modified(&mut self) -> (was: bool)
        requires
            old(self).wf(),
        ensures
            final(self).wf(),
            was == old(self).modified(),
            !final(self).modified(),
            final(self).model() == old(self).model(),
            TextBox::same_setup(*final(self), *old(self)),
    {
        let was = self.text_modified_this_tick;
        self.text_modified_this_tick = false;
        was
    }

    /// The placeholder, if any.
    pub fn placeholder(&self) -> (p: Option<&str>)
        ensures
            match p {
                Some(s) => self.placeholder_text() == Some(s@),
                None => self.placeholder_text() is None,
            },
    {
        match &self.placeholder {
            Some(s) => Some(s.as_str()),
            None => None,
        }
    }

    /// The border title, if any.
    pub fn title(&self) -> (t: Option<&str>)
        ensures
            match t {
                Some(s) => self.title_text() == Some(s@),
                None => self.title_text() is None,
            },
    {
        match &self.title {
            Some(s) => Some(s.as_str()),
            None => None,
        }
    }

    /// Whether the text box has focus.
    pub fn is_focused(&self) -> (b: bool)
        ensures
            b == self.has_focus(),
    {
        self.is_focused
    }

    /// Whether the terminal window has focus.
    pub fn is_terminal_focused(&self) -> (b: bool)
        ensures
            b == self.window_focused(),
    {
        self.terminal_focused
    }

    /// The text as displayed: masked when a password mask is set.
    pub fn display_text(&self) -> (s: String)
        ensures
            s@ == masked(self.content(), self.settings().password_mask),
    {
        match self.config.password_mask {
            Some(mask) => {
                let mut v: Vec<char> = Vec::new();
                let n = self.text.len();
                for i in 0..n
                    invariant
                        n == self.text@.len(),
                        v@ =~= Seq::new(i as nat, |j: int| mask),
                {
                    v.push(mask);
                }
                string_from_chars(&v)
            },
            None => string_from_chars(&self.text),
        }
    }

    /// The part of the displayed text that fits in `visible_width` columns
    /// from the scroll position: at most `visible_width` characters, starting
    /// at the scroll position (or at the end of the text, if that is nearer).
    pub fn visible_text(&self, visible_width: usize) -> (s: String)
        ensures
            s@ == masked(self.content(), self.settings().password_mask).subrange(
                vstd::math::min(self.scroll() as int, self.content().len() as int),
                vstd::math::min(
                    vstd::math::min(self.scroll() as int, self.content().len() as int)
                        + visible_width,
                    self.content().len() as int,
                ),
            ),
    {
        let shown = self.display_text();
        let chars = chars_of(shown.as_str());
        let n = chars.len();
        let lo = if self.scroll_offset < n {
            self.scroll_offset
        } else {
            n
        };
        let hi = if visible_width <= n - lo {
            lo + visible_width
        } else {
            n
        };
        let mut out: Vec<char> = Vec::new();
        let mut i = lo;
        while i < hi
            invariant
                lo <= i <= hi <= chars@.len(),
                out@ == chars@.subrange(lo as int, i as int),
            decreases hi - i,
        {
            out.push(chars[i]);
            i = i + 1;
            assert(out@ =~= chars@.subrange(lo as int, i as int));
        }
        string_from_chars(&out)
    }

    /// The column of the terminal cursor within the field: the cursor's
    /// distance past the scroll position (none before it), or the first
    /// column while the text is empty.
    pub fn cursor_column(&self) -> (c: usize)
        ensures
            c == if self.content().len() == 0 {
                0
            } else if self.cursor() >= self.scroll() {
                self.cursor() - self.scroll()
            } else {
                0
            },
    {
        if self.text.len() == 0 {
            0
        } else {
            self.cursor_pos.saturating_sub(self.scroll_offset)
        }
    }

    /// Take all pending events, oldest first.
    pub fn take_events(&mut self) -> (es: Vec<TextBoxEvent>)
        requires
            old(self).wf(),
        ensures
            final(self).wf(),
            events_view(es@) == old(self).pending(),
            final(self).pending() == Seq::<TextBoxEventView>::empty(),
            final(self).content() == old(self).content(),
            final(self).cursor() == old(self).cursor(),
            final(self).settings() == old(self).settings(),
            TextBox::same_setup(*final(self), *old(self)),
            final(self).modified() == old(self).modified(),
    {
        let mut es: Vec<TextBoxEvent> = Vec::new();
        std::mem::swap(&mut es, &mut self.events);
        assert(events_view(self.events@) =~= Seq::<TextBoxEventView>::empty());
        es
    }

    /// Whether any event is pending.
    pub fn has_events(&self) -> (b: bool)
        ensures
            b == (self.pending().len() > 0),
    {
        self.events.len() > 0
    }

    /// The text box gained focus.
    pub fn on_focus(&mut self)
        requires
            old(self).wf(),
        ensures
            final(self).wf(),
            final(self).has_focus(),
            final(self).pending() == old(self).pending().push(TextBoxEventView::FocusGained),
            final(self).content() == old(self).content(),
            final(self).cursor() == old(self).cursor(),
            final(self).settings() == old(self).settings(),
            final(self).ident() == old(self).ident(),
            final(self).placeholder_text() == old(self).placeholder_text(),
            final(self).title_text() == old(self).title_text(),
            final(self).window_focused() == old(self).window_focused(),
            final(self).scroll() == old(self).scroll(),
            final(self).modified() == old(self).modified(),
    {
        self.is_focused = true;
        self.emit(TextBoxEvent::FocusGained);
    }

    /// The text box lost focus.
    pub fn on_blur(&mut self)
        requires
            old(self).wf(),
        ensures
            final(self).wf(),
            !final(self).has_focus(),
            final(self).pending() == old(self).pending().push(TextBoxEventView::FocusLost),
            final(self).content() == old(self).content(),
            final(self).cursor() == old(self).cursor(),
            final(self).settings() == old(self).settings(),
            final(self).ident() == old(self).ident(),
            final(self).placeholder_text() == old(self).placeholder_text(),
            final(self).title_text() == old(self).title_text(),
            final(self).window_focused() == old(self).window_focused(),
            final(self).scroll() == old(self).scroll(),
            final(self).modified() == old(self).modified(),
    {
        self.is_focused = false;
        self.emit(TextBoxEvent::FocusLost);
    }
}

proof fn lemma_paste_empty(m: EditModel, max: Option<usize>)
    requires
        m.cursor <= m.text.len(),
    ensures
        model_paste(m, max, Seq::empty()) == m,
{
    assert(pasteable(Seq::<char>::empty()) =~= Seq::<char>::empty());
    assert(m.text.take(m.cursor as int) + Seq::<char>::empty().take(0) + m.text.skip(
        m.cursor as int,
    ) =~= m.text);
    let e = model_paste(m, max, Seq::empty()).events;
    assert(e =~= m.events);
}

/// Pasting one more character is pasting the rest and then inserting that
/// character, unless it is a line break.
pub proof fn lemma_paste_step(m: EditModel, max: Option<usize>, s: Seq<char>, c: char)
    requires
        m.cursor <= m.text.len(),
    ensures
        model_paste(m, max, s.push(c)) == if c == '\n' || c == '\r' {
            model_paste(m, max, s)
        } else {
            model_insert(model_paste(m, max, s), max, c)
        },
        paste_room(m.text.len(), max, pasteable(s.push(c)).len()) > 0 <==> (paste_room(
            m.text.len(),
            max,
            pasteable(s).len(),
        ) > 0 || (c != '\n' && c != '\r' && has_room(model_paste(m, max, s).text.len(), max))),
{
    assert(s.push(c).drop_last() =~= s);
    let p = pasteable(s);
    let k = paste_room(m.text.len(), max, p.len());
    let pre = m.text.take(m.cursor as int);
    let post = m.text.skip(m.cursor as int);
    let mp = model_paste(m, max, s);
    assert(mp.text.len() == m.text.len() + k);
    if c == '\n' || c == '\r' {
    } else {
        let p2 = p.push(c);
        assert(pasteable(s.push(c)) == p2);
        let k2 = paste_room(m.text.len(), max, p2.len());
        if has_room(mp.text.len(), max) {
            assert(k == p.len());
            assert(k2 == k + 1);
            assert(p2.take(k2 as int) =~= p.take(k as int).push(c));
            let t = mp.text.insert(mp.cursor as int, c);
            assert(t =~= pre + p2.take(k2 as int) + post);
            let mi = model_insert(mp, max, c);
            let m2 = model_paste(m, max, s.push(c));
            assert(mi.text =~= m2.text);
            assert forall|j: int| 0 <= j < k implies #[trigger] p2.take(j + 1) == p.take(j + 1) by {
                assert(p2.take(j + 1) =~= p.take(j + 1));
            }
            assert(mi.events =~= m2.events);
        } else {
            assert(k2 == k);
            assert(p2.take(k2 as int) =~= p.take(k as int));
            let m2 = model_paste(m, max, s.push(c));
            assert(m2.text =~= mp.text);
            assert forall|j: int| 0 <= j < k implies #[trigger] p2.take(j + 1) == p.take(j + 1) by {
                assert(p2.take(j + 1) =~= p.take(j + 1));
            }
            assert(m2.events =~= mp.events);
        }
    }
}

/// A word-left move never moves right, and moves left from any cursor past
/// the start.
pub proof fn lemma_word_left_bounds(chars: Seq<char>, cursor: int)
    requires
        0 <= cursor <= chars.len(),
    ensures
        0 <= word_left(chars, cursor) <= cursor,
        cursor > 0 ==> word_left(chars, cursor) < cursor,
{
    if cursor > 0 {
        lemma_skip_space_back_bounds(chars, cursor - 1);
        lemma_skip_word_back_bounds(chars, skip_space_back(chars, cursor - 1));
    }
}

proof fn lemma_skip_space_back_bounds(chars: Seq<char>, p: int)
    requires
        0 <= p,
    ensures
        0 <= skip_space_back(chars, p) <= p,
    decreases p,
{
    if p > 0 && is_white_space(chars[p]) {
        lemma_skip_space_back_bounds(chars, p - 1);
    }
}

proof fn lemma_skip_word_back_bounds(chars: Seq<char>, p: int)
    requires
        0 <= p,
    ensures
        0 <= skip_word_back(chars, p) <= p,
    decreases p,
{
    if p > 0 && !is_white_space(chars[p - 1]) {
        lemma_skip_word_back_bounds(chars, p - 1);
    }
}

/// A word-right move never moves left and never passes the end of the text.
pub proof fn lemma_word_right_bounds(chars: Seq<char>, cursor: int)
    requires
        0 <= cursor <= chars.len(),
    ensures
        cursor <= word_right(chars, cursor) <= chars.len(),
        cursor < chars.len() ==> cursor < word_right(chars, cursor),
{
    if cursor < chars.len() {
        lemma_skip_word_fwd_bounds(chars, cursor);
        lemma_skip_space_fwd_bounds(chars, skip_word_fwd(chars, cursor));
        if !is_white_space(chars[cursor]) {
            lemma_skip_word_fwd_bounds(chars, cursor + 1);
        } else {
            lemma_skip_space_fwd_bounds(chars, cursor + 1);
        }
    }
}

proof fn lemma_skip_word_fwd_bounds(chars: Seq<char>, p: int)
    requires
        0 <= p <= chars.len(),
    ensures
        p <= skip_word_fwd(chars, p) <= chars.len(),
    decreases chars.len() - p,
{
    if 0 <= p < chars.len() && !is_white_space(chars[p]) {
        lemma_skip_word_fwd_bounds(chars, p + 1);
    }
}

proof fn lemma_skip_space_fwd_bounds(chars: Seq<char>, p: int)
    requires
        0 <= p <= chars.len(),
    ensures
        p <= skip_space_fwd(chars, p) <= chars.len(),
    decreases chars.len() - p,
{
    if 0 <= p < chars.len() && is_white_space(chars[p]) {
        lemma_skip_space_fwd_bounds(chars, p + 1);
    }
}

/// A backspace right after typing a character gives back the text and the
/// cursor.
pub proof fn lemma_backspace_undoes_insert(m: EditModel, max: Option<usize>, c: char)
    requires
        m.cursor <= m.text.len(),
        has_room(m.text.len(), max),
    ensures
        model_backspace(model_insert(m, max, c)).text == m.text,
        model_backspace(model_insert(m, max, c)).cursor == m.cursor,
{
    assert(m.text.insert(m.cursor as int, c).remove(m.cursor as int) =~= m.text);
}

/// A character key without Control or Alt types the character at the
/// cursor and moves the cursor past it, while the text is under its length
/// limit; at the limit it changes nothing. Either way the key is used.
pub proof fn lemma_typing_inserts_at_cursor(m: EditModel, max: Option<usize>, key: KeyEvent, c: char)
    requires
        m.cursor <= m.text.len(),
        key.code == KeyCode::Char(c),
        !key.modifiers.control,
        !key.modifiers.alt,
    ensures
        model_key(m, max, key).1,
        (max matches Some(limit) ==> m.text.len() < limit) ==> {
            &&& model_key(m, max, key).0.text == m.text.subrange(0, m.cursor as int) + seq![c]
                + m.text.subrange(m.cursor as int, m.text.len() as int)
            &&& model_key(m, max, key).0.cursor == m.cursor + 1
        },
        (max matches Some(limit) && m.text.len() >= limit) ==> {
            &&& model_key(m, max, key).0.text == m.text
            &&& model_key(m, max, key).0.cursor == m.cursor
        },
{
    assert(m.text.insert(m.cursor as int, c) =~= m.text.subrange(0, m.cursor as int) + seq![c]
        + m.text.subrange(m.cursor as int, m.text.len() as int));
}

/// The movement keys move only the cursor: Left and Right one character
/// (not past either end), Home to the start and End to the end; the text
/// stays and the key is used.
pub proof fn lemma_moves_keep_text(m: EditModel, max: Option<usize>, key: KeyEvent)
    requires
        m.cursor <= m.text.len(),
        key.code == KeyCode::Left || key.code == KeyCode::Right || key.code == KeyCode::Home
            || key.code == KeyCode::End,
    ensures
        model_key(m, max, key).1,
        model_key(m, max, key).0.text == m.text,
        !key_modifies(m, max, key),
        key.code == KeyCode::Left ==> model_key(m, max, key).0.cursor == if m.cursor > 0 {
            m.cursor - 1
        } else {
            0int
        },
        key.code == KeyCode::Right ==> model_key(m, max, key).0.cursor == if m.cursor
            < m.text.len() {
            m.cursor + 1
        } else {
            m.text.len()
        },
        key.code == KeyCode::Home ==> model_key(m, max, key).0.cursor == 0,
        key.code == KeyCode::End ==> model_key(m, max, key).0.cursor == m.text.len(),
{
}

/// The Delete key removes the character under the cursor and leaves the
/// cursor where it was; at the end of the text it changes nothing. Either
/// way the key is used, and it marks the text modified exactly when a
/// character went.
pub proof fn lemma_delete_removes_under_cursor(m: EditModel, max: Option<usize>, key: KeyEvent)
    requires
        m.cursor <= m.text.len(),
        key.code == KeyCode::Delete,
    ensures
        model_key(m, max, key).1,
        model_key(m, max, key).0.cursor == m.cursor,
        m.cursor < m.text.len() ==> model_key(m, max, key).0.text == m.text.subrange(
            0,
            m.cursor as int,
        ) + m.text.subrange(m.cursor + 1int, m.text.len() as int),
        m.cursor == m.text.len() ==> model_key(m, max, key).0.text == m.text,
        key_modifies(m, max, key) == (m.cursor < m.text.len()),
{
    if m.cursor < m.text.len() {
        assert(m.text.remove(m.cursor as int) =~= m.text.subrange(0, m.cursor as int)
            + m.text.subrange(m.cursor + 1int, m.text.len() as int));
    }
}

/// Backspace (without Control or Alt) removes the character before the
/// cursor and moves the cursor back over it; at the start of the text it
/// changes nothing.
pub proof fn lemma_backspace_removes_before_cursor(
    m: EditModel,
    max: Option<usize>,
    key: KeyEvent,
)
    requires
        m.cursor <= m.text.len(),
        key.code == KeyCode::Backspace,
        !key.modifiers.control,
        !key.modifiers.alt,
    ensures
        model_key(m, max, key).1,
        m.cursor > 0 ==> model_key(m, max, key).0.cursor == m.cursor - 1,
        m.cursor > 0 ==> model_key(m, max, key).0.text == m.text.subrange(0, m.cursor - 1)
            + m.text.subrange(m.cursor as int, m.text.len() as int),
        m.cursor == 0 ==> model_key(m, max, key).0.text == m.text && model_key(
            m,
            max,
            key,
        ).0.cursor == 0,
        key_modifies(m, max, key) == (m.cursor > 0),
{
    if m.cursor > 0 {
        assert(m.text.remove(m.cursor - 1) =~= m.text.subrange(0, m.cursor - 1)
            + m.text.subrange(m.cursor as int, m.text.len() as int));
    }
}

/// No key takes the text past its length limit (when it was within it), and
/// the cursor stays within the text.
pub proof fn lemma_key_keeps_limits(m: EditModel, max: Option<usize>, key: KeyEvent)
    requires
        m.cursor <= m.text.len(),
        max matches Some(n) ==> m.text.len() <= n,
    ensures
        model_key(m, max, key).0.cursor <= model_key(m, max, key).0.text.len(),
        max matches Some(n) ==> model_key(m, max, key).0.text.len() <= n,
{
    lemma_word_left_bounds(m.text, m.cursor as int);
    lemma_word_right_bounds(m.text, m.cursor as int);
}

/// A paste never takes the text past its length limit (when it was within
/// it), and the cursor stays within the text.
pub proof fn lemma_paste_keeps_limits(m: EditModel, max: Option<usize>, s: Seq<char>)
    requires
        m.cursor <= m.text.len(),
        max matches Some(n) ==> m.text.len() <= n,
    ensures
        model_paste(m, max, s).cursor <= model_paste(m, max, s).text.len(),
        max matches Some(n) ==> model_paste(m, max, s).text.len() <= n,
{
    lemma_pasteable_len(s);
}

proof fn lemma_pasteable_len(s: Seq<char>)
    ensures
        pasteable(s).len() <= s.len(),
    decreases s.len(),
{
    if s.len() > 0 {
        lemma_pasteable_len(s.drop_last());
    }
}

} // verus!
