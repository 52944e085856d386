//! Buttons, results, the input field and the size settings of a modal.
use vstd::prelude::*;

use crate::text::TextArg;

verus! {

/// A button of a modal dialog.
#[derive(Debug, Clone)]
pub struct ModalButton {
    /// Identifier returned in the result when the button is pressed.
    pub id: String,
    /// Text shown on the button.
    pub label: String,
}

impl View for ModalButton {
    type V = (Seq<char>, Seq<char>);

    /// The identifier and the label.
    open spec fn view(&self) -> (Seq<char>, Seq<char>) {
        (self.id@, self.label@)
    }
}

impl ModalButton {
    /// The text drawn for the button: its label padded by a space on each
    /// side, in brackets when it has focus and in spaces when not.
    pub fn face(&self, focused: bool) -> (s: String)
        ensures
            s@ == if focused {
                "[ "@ + self.label@ + " ]"@
            } else {
                "  "@ + self.label@ + "  "@
            },
    {
        let mut s = if focused {
            String::from_str("[ ")
        } else {
            String::from_str("  ")
        };
        s.append(self.label.as_str());
        if focused {
            s.append(" ]");
        } else {
            s.append("  ");
        }
        s
    }

    /// A button with the given identifier and label.
    pub fn new(id: impl TextArg, label: impl TextArg) -> (b: ModalButton)
        ensures
            b@ == (id.text_view(), label.text_view()),
    {
        ModalButton { id: id.into_text(), label: label.into_text() }
    }
}

/// How a modal was closed.
#[derive(Debug, Clone, PartialEq, Eq)]
pub enum ModalResult {
    /// A button was pressed: its identifier, and the input value when the
    /// modal has an input field.
    ButtonPressed { button_id: String, input: Option<String> },
    /// Dismissed with Escape.
    Dismissed,
    /// Closed by the program.
    Closed,
    /// Still open (no result yet).
    Pending,
}

/// A modal result with its text taken by its characters.
pub enum ResultView {
    ButtonPressed { button_id: Seq<char>, input: Option<Seq<char>> },
    Dismissed,
    Closed,
    Pending,
}

/// The characters of an optional string.
pub open spec fn opt_text(s: Option<String>) -> Option<Seq<char>> {
    match s {
        Some(t) => Some(t@),
        None => None,
    }
}

impl View for ModalResult {
    type V = ResultView;

    open spec fn view(&self) -> ResultView {
        match self {
            ModalResult::ButtonPressed { button_id, input } => ResultView::ButtonPressed {
                button_id: button_id@,
                input: opt_text(*input),
            },
            ModalResult::Dismissed => ResultView::Dismissed,
            ModalResult::Closed => ResultView::Closed,
            ModalResult::Pending => ResultView::Pending,
        }
    }
}

impl Default for ModalResult {
    fn default() -> (r: ModalResult)
        ensures
            r@ == ResultView::Pending,
    {
        ModalResult::Pending
    }
}

impl ModalResult {
    /// A button press without input.
    pub fn button_pressed(button_id: impl TextArg) -> (r: ModalResult)
        ensures
            r@ == (ResultView::ButtonPressed { button_id: button_id.text_view(), input: None }),
    {
        ModalResult::ButtonPressed { button_id: button_id.into_text(), input: None }
    }

    /// A button press with an input value.
    pub fn button_pressed_with_input(button_id: impl TextArg, input: impl TextArg) -> (r:
        ModalResult)
        ensures
            r@ == (ResultView::ButtonPressed {
                button_id: button_id.text_view(),
                input: Some(input.text_view()),
            }),
    {
        ModalResult::ButtonPressed {
            button_id: button_id.into_text(),
            input: Some(input.into_text()),
        }
    }

    /// The identifier of the pressed button, for a button press.
    pub fn button_id(&self) -> (r: Option<&str>)
        ensures
            match self@ {
                ResultView::ButtonPressed { button_id, .. } => r is Some && r.unwrap()@
                    == button_id,
                _ => r is None,
            },
    {
        match self {
            ModalResult::ButtonPressed { button_id, .. } => Some(button_id.as_str()),
            _ => None,
        }
    }

    /// The input value, for a button press with input.
    pub fn input(&self) -> (r: Option<&str>)
        ensures
            match self@ {
                ResultView::ButtonPressed { input: Some(t), .. } => r is Some && r.unwrap()@ == t,
                _ => r is None,
            },
    {
        match self {
            ModalResult::ButtonPressed { input, .. } => match input {
                Some(t) => Some(t.as_str()),
                None => None,
            },
            _ => None,
        }
    }
}

/// The input field of a modal.
#[derive(Debug, Clone)]
pub struct ModalInput {
    /// Label shown above the field (not shown when inline).
    pub label: String,
    /// Text shown while the field is empty.
    pub placeholder: Option<String>,
    /// Current value.
    pub value: String,
    /// Cursor position, in characters.
    pub cursor: usize,
    /// Whether the field is drawn on the message line.
    pub inline: bool,
}

/// An input field as plain values.
pub struct InputView {
    pub label: Seq<char>,
    pub placeholder: Option<Seq<char>>,
    pub value: Seq<char>,
    pub cursor: usize,
    pub inline: bool,
}

impl View for ModalInput {
    type V = InputView;

    open spec fn view(&self) -> InputView {
        InputView {
            label: self.label@,
            placeholder: opt_text(self.placeholder),
            value: self.value@,
            cursor: self.cursor,
            inline: self.inline,
        }
    }
}

/// The text an input field shows: its value, or while the value is empty
/// and the field unfocused, its placeholder (or nothing).
pub open spec fn shown_input_text(i: InputView, focused: bool) -> Seq<char> {
    if i.value.len() == 0 && !focused {
        match i.placeholder {
            Some(p) => p,
            None => Seq::<char>::empty(),
        }
    } else {
        i.value
    }
}

/// The smaller of two integers.
pub open spec fn min_int(a: int, b: int) -> int {
    if a <= b {
        a
    } else {
        b
    }
}

/// The characters of `v` from `lo` up to `hi`.
fn chars_between(v: &Vec<char>, lo: usize, hi: usize) -> (s: String)
    requires
        lo <= hi <= v@.len(),
    ensures
        s@ == v@.subrange(lo as int, hi as int),
{
    let mut out: Vec<char> = Vec::new();
    let mut i = lo;
    while i < hi
        invariant
            lo <= i <= hi <= v@.len(),
            out@ == v@.subrange(lo as int, i as int),
        decreases hi - i,
    {
        out.push(v[i]);
        i = i + 1;
        assert(out@ =~= v@.subrange(lo as int, i as int));
    }
    crate::text::string_from_chars(&out)
}

impl ModalInput {
    /// The shown text split at the cursor: the characters before it, the
    /// character under it (a space at or past the end), the characters
    /// after it, and the whole shown text (see `shown_input_text`).
    pub fn display_parts(&self, focused: bool) -> (r: (String, char, String, String))
        ensures
            r.3@ == shown_input_text(self@, focused),
            r.0@ == r.3@.subrange(0, min_int(self.cursor as int, r.3@.len() as int)),
            r.1 == if self.cursor < r.3@.len() {
                r.3@[self.cursor as int]
            } else {
                ' '
            },
            r.2@ == r.3@.subrange(
                min_int(self.cursor + 1, r.3@.len() as int),
                r.3@.len() as int,
            ),
    {
        let shown: String = if self.value.unicode_len() == 0 && !focused {
            match &self.placeholder {
                Some(p) => p.clone(),
                None => String::new(),
            }
        } else {
            self.value.clone()
        };
        let chars = crate::text::chars_of(shown.as_str());
        let n = chars.len();
        let k = if self.cursor < n {
            self.cursor
        } else {
            n
        };
        let before = chars_between(&chars, 0, k);
        let (under, rest) = if self.cursor < n {
            (chars[self.cursor], self.cursor + 1)
        } else {
            (' ', n)
        };
        let after = chars_between(&chars, rest, n);
        (before, under, after, shown)
    }
}

/// Size of a modal as percentages of the screen (its colours are the
/// application's).
#[derive(Debug, Clone, Copy, PartialEq, Eq, Structural)]
pub struct ModalConfig {
    /// Width, percent of the screen (0 to 100).
    pub width_percent: u16,
    /// Height, percent of the screen (0 to 100).
    pub height_percent: u16,
}

impl Default for ModalConfig {
    fn default() -> (c: ModalConfig)
        ensures
            c == (ModalConfig { width_percent: 50, height_percent: 30 }),
    {
        ModalConfig { width_percent: 50, height_percent: 30 }
    }
}

/// A percentage capped at 100.
pub open spec fn capped_percent(p: u16) -> u16 {
    if p > 100 {
        100
    } else {
        p
    }
}

impl ModalConfig {
    /// Set the size as percentages of the screen, each capped at 100.
    pub fn with_size(self, width_percent: u16, height_percent: u16) -> (c: ModalConfig)
        ensures
            c == (ModalConfig {
                width_percent: capped_percent(width_percent),
                height_percent: capped_percent(height_percent),
            }),
    {
        ModalConfig {
            width_percent: if width_percent > 100 {
                100
            } else {
                width_percent
            },
            height_percent: if height_percent > 100 {
                100
            } else {
                height_percent
            },
        }
    }
}

/// A rectangle of terminal cells.
#[derive(Debug, Clone, Copy, PartialEq, Eq, Structural)]
pub struct Area {
    pub x: u16,
    pub y: u16,
    pub width: u16,
    pub height: u16,
}

/// A length scaled by a percentage, kept to 16 bits as the terminal's
/// coordinates are.
pub open spec fn scaled(len: u16, percent: u16) -> int {
    (len as int * percent as int / 100) % 0x10000
}

/// A scaled length raised to `least` and capped at `len`.
pub open spec fn bounded_len(scaled_len: int, least: int, len: u16) -> int {
    let raised = if scaled_len < least {
        least
    } else {
        scaled_len
    };
    if raised > len {
        len as int
    } else {
        raised
    }
}

/// The rectangle of a modal in `area`: its size scaled from the area's by
/// the percentages (at least 20 by 5 cells, at most the area), centred.
pub open spec fn modal_rect_spec(area: Area, config: ModalConfig) -> Area {
    let w = bounded_len(scaled(area.width, config.width_percent), 20, area.width);
    let h = bounded_len(scaled(area.height, config.height_percent), 5, area.height);
    Area {
        x: (area.x + (area.width - w) / 2) as u16,
        y: (area.y + (area.height - h) / 2) as u16,
        width: w as u16,
        height: h as u16,
    }
}

fn scale_len(len: u16, percent: u16) -> (r: u16)
    ensures
        r == scaled(len, percent),
{
    let a = len as u32;
    let b = percent as u32;
    assert(a * b <= 0xffff * 0xffff) by (nonlinear_arith)
        requires
            a <= 0xffff,
            b <= 0xffff,
    ;
    let q: u32 = a * b / 100;
    let r = #[verifier::truncate] (q as u16);
    assert(r == q % 0x10000) by (bit_vector)
        requires
            r == q as u16,
    ;
    r
}

fn bound_len(scaled_len: u16, least: u16, len: u16) -> (r: u16)
    ensures
        r == bounded_len(scaled_len as int, least as int, len),
{
    let raised = if scaled_len < least {
        least
    } else {
        scaled_len
    };
    if raised > len {
        len
    } else {
        raised
    }
}

/// The rectangle of a modal in `area`: see `modal_rect_spec`.
pub fn calculate_modal_rect(area: Area, config: &ModalConfig) -> (r: Area)
    requires
        area.x + area.width <= u16::MAX,
        area.y + area.height <= u16::MAX,
    ensures
        r == modal_rect_spec(area, *config),
{
    let w = bound_len(scale_len(area.width, config.width_percent), 20, area.width);
    let h = bound_len(scale_len(area.height, config.height_percent), 5, area.height);
    Area { x: area.x + (area.width - w) / 2, y: area.y + (area.height - h) / 2, width: w, height: h }
}

} // verus!
