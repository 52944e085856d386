//! Where the parts of a modal go inside its box: the message rows, the
//! input rows, the width of an inline input, and the buttons' columns.
use vstd::prelude::*;

use super::types::{shown_input_text, InputView, ModalButton, ModalInput};

verus! {

/// Columns between two buttons.
pub const BUTTON_SPACING: u16 = 2;

/// The narrowest an inline input field is drawn.
pub const MIN_INLINE_INPUT_WIDTH: u16 = 10;

/// `a - b`, or zero when `b` is larger.
pub open spec fn sat_sub(a: int, b: int) -> int {
    if a >= b {
        a - b
    } else {
        0
    }
}

/// Whether an input field is drawn in rows of its own (below the message)
/// rather than on the message line.
pub open spec fn has_block_input(input: Option<InputView>) -> bool {
    input matches Some(i) && !i.inline
}

/// The rows of a modal's inner area: the input takes three rows when it
/// stands below the message, the buttons and a spacer row take two, and
/// the message the rest.
pub fn section_heights(input: Option<&ModalInput>, inner_height: u16) -> (r: (u16, u16))
    ensures
        r.1 == if has_block_input(
            match input {
                Some(i) => Some(i@),
                None => None,
            },
        ) {
            3u16
        } else {
            0u16
        },
        r.0 == sat_sub(inner_height as int, r.1 + 2),
{
    let input_rows: u16 = match input {
        Some(i) => if i.inline {
            0
        } else {
            3
        },
        None => 0,
    };
    (inner_height.saturating_sub(input_rows + 2), input_rows)
}

/// The width of an input field drawn on the message line after a message
/// `message_width` columns wide and a space: the rest of the line, but at
/// least `MIN_INLINE_INPUT_WIDTH`.
pub fn inline_input_width(message_width: u16, area_width: u16) -> (w: u16)
    requires
        message_width < u16::MAX,
    ensures
        w == vstd::math::max(
            sat_sub(area_width as int, message_width + 1),
            MIN_INLINE_INPUT_WIDTH as int,
        ),
{
    let rest = area_width.saturating_sub(message_width + 1);
    if rest > MIN_INLINE_INPUT_WIDTH {
        rest
    } else {
        MIN_INLINE_INPUT_WIDTH
    }
}

/// Columns an input field's text takes on the line: its shown text, and
/// when focused with the cursor at the end, one more for the cursor.
pub open spec fn input_columns(i: InputView, focused: bool) -> int {
    let n = shown_input_text(i, focused).len() as int;
    if focused && i.cursor >= n {
        n + 1
    } else {
        n
    }
}

impl ModalInput {
    /// The spaces that fill an inline input field of `width` columns after
    /// its text (see `input_columns`).
    pub fn inline_padding(&self, focused: bool, width: u16) -> (n: usize)
        ensures
            n == sat_sub(width as int, input_columns(self@, focused)),
    {
        let (_before, _under, _after, shown) = self.display_parts(focused);
        let shown_len = shown.unicode_len();
        let rest = (width as usize).saturating_sub(shown_len);
        if focused && self.cursor >= shown_len {
            rest.saturating_sub(1)
        } else {
            rest
        }
    }
}

/// The columns a button takes: its label with a space on each side, in
/// brackets or spaces.
pub open spec fn button_cells(b: (Seq<char>, Seq<char>)) -> int {
    b.1.len() + 4int
}

/// The columns taken by the buttons, each followed by the spacing.
pub open spec fn buttons_span(bs: Seq<(Seq<char>, Seq<char>)>) -> int
    decreases bs.len(),
{
    if bs.len() == 0 {
        0
    } else {
        buttons_span(bs.drop_last()) + button_cells(bs.last()) + BUTTON_SPACING
    }
}

/// The first column of the buttons: the row of buttons centred in the
/// area (at its left edge when it is wider).
pub open spec fn buttons_start(bs: Seq<(Seq<char>, Seq<char>)>, x: u16, width: u16) -> int {
    x + sat_sub(width as int, sat_sub(buttons_span(bs), BUTTON_SPACING as int)) / 2
}

/// Where each button goes: its first column and its width. The buttons sit
/// side by side, `BUTTON_SPACING` apart, centred in the area.
pub open spec fn button_slot(bs: Seq<(Seq<char>, Seq<char>)>, x: u16, width: u16, i: int) -> (
    int,
    int,
) {
    (buttons_start(bs, x, width) + buttons_span(bs.take(i)), button_cells(bs[i]))
}

proof fn lemma_span_grows(bs: Seq<(Seq<char>, Seq<char>)>, i: int)
    requires
        0 <= i <= bs.len(),
    ensures
        0 <= buttons_span(bs.take(i)) <= buttons_span(bs),
    decreases bs.len() - i,
{
    if i < bs.len() {
        lemma_span_grows(bs, i + 1);
        assert(bs.take(i + 1).drop_last() =~= bs.take(i));
    } else {
        assert(bs.take(i) =~= bs);
    }
    lemma_span_nonneg(bs.take(i));
}

proof fn lemma_start_grows(bs: Seq<(Seq<char>, Seq<char>)>, x: u16, width: u16)
    ensures
        buttons_start(bs, x, width) >= x,
{
}

proof fn lemma_span_nonneg(bs: Seq<(Seq<char>, Seq<char>)>)
    ensures
        buttons_span(bs) >= 0,
    decreases bs.len(),
{
    if bs.len() > 0 {
        lemma_span_nonneg(bs.drop_last());
    }
}

/// The view of each button.
pub open spec fn button_views(bs: Seq<ModalButton>) -> Seq<(Seq<char>, Seq<char>)> {
    bs.map_values(|b: ModalButton| b@)
}

/// Whether the buttons end within the screen's columns when placed in an
/// area starting at column `x`, `width` wide.
pub open spec fn buttons_fit(bs: Seq<(Seq<char>, Seq<char>)>, x: u16, width: u16) -> bool {
    bs.len() > 0 ==> buttons_start(bs, x, width) + buttons_span(bs) <= u16::MAX
}

/// The columns of the buttons in an area starting at column `x`, `width`
/// wide (see `button_slot`), or `None` when the last one would end past the
/// screen's columns.
pub fn button_slots(buttons: &[ModalButton], x: u16, width: u16) -> (r: Option<Vec<(u16, u16)>>)
    ensures
        r is None <==> !buttons_fit(button_views(buttons@), x, width),
        r matches Some(v) ==> v@.len() == buttons@.len(),
        r matches Some(v) ==> forall|i: int|
            0 <= i < v@.len() ==> (v@[i].0 as int, v@[i].1 as int) == button_slot(
                button_views(buttons@),
                x,
                width,
                i,
            ),
{
    let ghost bs = button_views(buttons@);
    let n = buttons.len();
    let mut r: Vec<(u16, u16)> = Vec::new();
    if n == 0 {
        return Some(r);
    }
    proof {
        lemma_span_nonneg(bs);
    }
    let limit: usize = 65535;
    let mut total: usize = 0;
    let mut k: usize = 0;
    while k < n
        invariant
            n == buttons@.len(),
            bs == button_views(buttons@),
            k <= n,
            n > 0,
            total == buttons_span(bs.take(k as int)),
            total <= limit,
            limit == u16::MAX,
        decreases n - k,
    {
        proof {
            lemma_span_grows(bs, k + 1);
            lemma_span_grows(bs, k as int);
            assert(bs.take(k + 1).drop_last() =~= bs.take(k as int));
        }
        let len = buttons[k].label.unicode_len();
        if len > limit - total || limit - total - len < 6 {
            proof {
                lemma_span_grows(bs, k + 1);
                lemma_start_grows(bs, x, width);
            }
            return None;
        }
        total = total + len + 4 + 2;
        k = k + 1;
    }
    assert(bs.take(n as int) =~= bs);
    let content: usize = if total >= 2 {
        total - 2
    } else {
        0
    };
    let half: u16 = (if (width as usize) > content {
        (width as usize - content) as u16
    } else {
        0
    }) / 2;
    if half as usize > limit - total || x as usize > limit - total - half as usize {
        return None;
    }
    let start: u16 = x + half;
    let mut cur: u16 = start;
    let mut i: usize = 0;
    while i < n
        invariant
            n == buttons@.len(),
            bs == button_views(buttons@),
            i <= n,
            n > 0,
            r@.len() == i,
            start == buttons_start(bs, x, width),
            cur == start + buttons_span(bs.take(i as int)),
            buttons_start(bs, x, width) + buttons_span(bs) <= u16::MAX,
            forall|j: int|
                0 <= j < i ==> (r@[j].0 as int, r@[j].1 as int) == button_slot(bs, x, width, j),
        decreases n - i,
    {
        proof {
            lemma_span_grows(bs, i + 1);
            assert(bs.take(i + 1).drop_last() =~= bs.take(i as int));
        }
        let w: u16 = (buttons[i].label.unicode_len() + 4) as u16;
        r.push((cur, w));
        cur = cur + w + BUTTON_SPACING;
        i = i + 1;
    }
    Some(r)
}

} // verus!
