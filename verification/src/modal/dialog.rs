//! The modal dialog: a message, an optional input field and buttons, with
//! keyboard focus and the result of how it was closed.
use vstd::prelude::*;

use super::focus::{
    button_step, handle_button_keys, handle_input_keys, handle_navigation_keys, input_step,
    nav_step, ButtonStep, InputStep, ModalButtonHandlers, ModalFocus, ModalInputHandlers,
    ModalNavigation, NavStep,
};
use super::types::{
    capped_percent, InputView, ModalButton, ModalConfig, ModalInput, ModalResult, ResultView,
};
use crate::event::{Event, EventResult, KeyCode, KeyEventKind};
use crate::text::{chars_of, string_from_chars, TextArg};

verus! {

/// Everything a modal holds, as plain values.
pub struct ModalView {
    pub id: Seq<char>,
    pub title: Option<Seq<char>>,
    pub message: Seq<char>,
    pub input: Option<InputView>,
    /// Identifier and label of each button, in order.
    pub buttons: Seq<(Seq<char>, Seq<char>)>,
    pub config: ModalConfig,
    pub open: bool,
    pub result: ResultView,
    pub focus: ModalFocus,
    pub focused_button: usize,
}

/// A modal is well formed when its input cursor is within the input value,
/// and the input has focus only if there is one.
pub open spec fn modal_wf(v: ModalView) -> bool {
    &&& v.input matches Some(i) ==> i.cursor <= i.value.len()
    &&& v.focus == ModalFocus::Input ==> v.input is Some
}

// ---------------------------------------------------------------------------
// Specification of the modal's operations
// ---------------------------------------------------------------------------

/// Focus the next button, wrapping around.
pub open spec fn next_button_spec(v: ModalView) -> ModalView {
    if v.buttons.len() > 0 {
        ModalView { focused_button: ((v.focused_button + 1) % (v.buttons.len() as int)) as usize, ..v }
    } else {
        v
    }
}

/// Focus the previous button, wrapping around.
pub open spec fn prev_button_spec(v: ModalView) -> ModalView {
    if v.buttons.len() > 0 {
        ModalView {
            focused_button: if v.focused_button == 0 {
                (v.buttons.len() - 1) as usize
            } else {
                (v.focused_button - 1) as usize
            },
            ..v
        }
    } else {
        v
    }
}

/// Focus the next element: from the input to the first button, from the
/// buttons back to the input when there is one, else the next button.
pub open spec fn focus_next_spec(v: ModalView) -> ModalView {
    match v.focus {
        ModalFocus::Input => ModalView { focus: ModalFocus::Buttons, focused_button: 0, ..v },
        ModalFocus::Buttons => if v.input is Some {
            ModalView { focus: ModalFocus::Input, ..v }
        } else {
            next_button_spec(v)
        },
    }
}

/// Focus the previous element: from the input to the last button, from the
/// first button back to the input when there is one, else the previous
/// button.
pub open spec fn focus_prev_spec(v: ModalView) -> ModalView {
    match v.focus {
        ModalFocus::Input => ModalView {
            focus: ModalFocus::Buttons,
            focused_button: if v.buttons.len() > 0 {
                (v.buttons.len() - 1) as usize
            } else {
                0
            },
            ..v
        },
        ModalFocus::Buttons => if v.input is Some && v.focused_button == 0 {
            ModalView { focus: ModalFocus::Input, ..v }
        } else {
            prev_button_spec(v)
        },
    }
}

/// Press the focused button, if there is one: the modal closes with the
/// button's identifier and the input value.
pub open spec fn activate_spec(v: ModalView) -> ModalView {
    if v.focused_button < v.buttons.len() {
        ModalView {
            result: ResultView::ButtonPressed {
                button_id: v.buttons[v.focused_button as int].0,
                input: match v.input {
                    Some(i) => Some(i.value),
                    None => None,
                },
            },
            open: false,
            ..v
        }
    } else {
        v
    }
}

/// The modal with its input replaced.
pub open spec fn with_input_view(v: ModalView, i: InputView) -> ModalView {
    ModalView { input: Some(i), ..v }
}

/// Type `c` at the cursor.
pub open spec fn type_char_spec(v: ModalView, c: char) -> ModalView {
    match v.input {
        Some(i) => with_input_view(
            v,
            InputView {
                value: i.value.insert(i.cursor as int, c),
                cursor: (i.cursor + 1) as usize,
                ..i
            },
        ),
        None => v,
    }
}

/// Delete the character before the cursor.
pub open spec fn backspace_spec(v: ModalView) -> ModalView {
    match v.input {
        Some(i) => if i.cursor > 0 {
            with_input_view(
                v,
                InputView {
                    value: i.value.remove(i.cursor - 1),
                    cursor: (i.cursor - 1) as usize,
                    ..i
                },
            )
        } else {
            v
        },
        None => v,
    }
}

/// Delete the character at the cursor.
pub open spec fn delete_spec(v: ModalView) -> ModalView {
    match v.input {
        Some(i) => if i.cursor < i.value.len() {
            with_input_view(v, InputView { value: i.value.remove(i.cursor as int), ..i })
        } else {
            v
        },
        None => v,
    }
}

/// Move the cursor one character left.
pub open spec fn cursor_left_spec(v: ModalView) -> ModalView {
    match v.input {
        Some(i) => if i.cursor > 0 {
            with_input_view(v, InputView { cursor: (i.cursor - 1) as usize, ..i })
        } else {
            v
        },
        None => v,
    }
}

/// Move the cursor one character right.
pub open spec fn cursor_right_spec(v: ModalView) -> ModalView {
    match v.input {
        Some(i) => if i.cursor < i.value.len() {
            with_input_view(v, InputView { cursor: (i.cursor + 1) as usize, ..i })
        } else {
            v
        },
        None => v,
    }
}

/// Move the cursor to the start.
pub open spec fn cursor_home_spec(v: ModalView) -> ModalView {
    match v.input {
        Some(i) => with_input_view(v, InputView { cursor: 0, ..i }),
        None => v,
    }
}

/// Move the cursor to the end.
pub open spec fn cursor_end_spec(v: ModalView) -> ModalView {
    match v.input {
        Some(i) => with_input_view(v, InputView { cursor: i.value.len() as usize, ..i }),
        None => v,
    }
}

/// Move focus to the first button.
pub open spec fn to_buttons_spec(v: ModalView) -> ModalView {
    ModalView { focus: ModalFocus::Buttons, focused_button: 0, ..v }
}

/// Dismiss: the modal closes as dismissed.
pub open spec fn dismiss_spec(v: ModalView) -> ModalView {
    ModalView { result: ResultView::Dismissed, open: false, ..v }
}

/// Open: no result yet, focus on the input when there is one (its cursor at
/// the end of its value), else on the first button.
pub open spec fn open_spec(v: ModalView) -> ModalView {
    let w = ModalView {
        open: true,
        result: ResultView::Pending,
        focused_button: 0,
        focus: if v.input is Some {
            ModalFocus::Input
        } else {
            ModalFocus::Buttons
        },
        ..v
    };
    cursor_end_spec(w)
}

/// Close by the program.
pub open spec fn close_spec(v: ModalView) -> ModalView {
    ModalView { open: false, result: ResultView::Closed, ..v }
}

/// The input operation of a key.
pub open spec fn input_op(v: ModalView, s: InputStep) -> ModalView {
    match s {
        InputStep::Char(c) => type_char_spec(v, c),
        InputStep::Backspace => backspace_spec(v),
        InputStep::Delete => delete_spec(v),
        InputStep::Left => cursor_left_spec(v),
        InputStep::Right => cursor_right_spec(v),
        InputStep::Home => cursor_home_spec(v),
        InputStep::End => cursor_end_spec(v),
        InputStep::Submit => activate_spec(to_buttons_spec(v)),
        InputStep::Dismiss => dismiss_spec(v),
    }
}

/// The focus move of a key.
pub open spec fn nav_op(v: ModalView, s: NavStep) -> ModalView {
    match s {
        NavStep::FocusNext => focus_next_spec(v),
        NavStep::FocusPrev => focus_prev_spec(v),
        NavStep::NextButton => next_button_spec(v),
        NavStep::PrevButton => prev_button_spec(v),
    }
}

/// The button operation of a key.
pub open spec fn button_op(v: ModalView, s: ButtonStep) -> ModalView {
    match s {
        ButtonStep::Activate => activate_spec(v),
        ButtonStep::Dismiss => dismiss_spec(v),
    }
}

/// An event on an open modal: with the input focused, an input key edits
/// it; otherwise a navigation key moves focus; otherwise, with the buttons
/// focused, a button key presses or dismisses. Anything else is ignored.
pub open spec fn modal_key_spec(v: ModalView, event: Event) -> ModalView {
    let has_input = v.input is Some;
    if v.focus == ModalFocus::Input && has_input && input_step(event) is Some {
        input_op(v, input_step(event)->0)
    } else {
        match nav_step(event, v.focus == ModalFocus::Buttons, has_input) {
            Some(s) => nav_op(v, s),
            None => if v.focus == ModalFocus::Buttons && button_step(event) is Some {
                button_op(v, button_step(event)->0)
            } else {
                v
            },
        }
    }
}

/// Focusing the previous button right after the next one gives back the
/// focused button, while the focus is on one of the buttons.
pub proof fn lemma_prev_undoes_next_button(v: ModalView)
    requires
        v.focused_button < v.buttons.len() <= usize::MAX,
    ensures
        prev_button_spec(next_button_spec(v)) == v,
{
    lemma_next_index(v.focused_button as int, v.buttons.len() as int);
}

/// Focusing the next button right after the previous one gives back the
/// focused button, while the focus is on one of the buttons.
pub proof fn lemma_next_undoes_prev_button(v: ModalView)
    requires
        v.focused_button < v.buttons.len() <= usize::MAX,
    ensures
        next_button_spec(prev_button_spec(v)) == v,
{
    let n = v.buttons.len() as int;
    let p = if v.focused_button == 0 {
        n - 1
    } else {
        v.focused_button - 1
    };
    lemma_next_index(p, n);
}

proof fn lemma_next_index(f: int, n: int)
    requires
        0 <= f < n,
    ensures
        (f + 1) % n == if f + 1 == n {
            0
        } else {
            f + 1
        },
{
    assert((f + 1) % n == if f + 1 == n {
        0
    } else {
        f + 1
    }) by (nonlinear_arith)
        requires
            0 <= f < n,
    ;
}

/// A backspace right after typing a character gives back the input value
/// and the cursor.
pub proof fn lemma_backspace_undoes_typing(v: ModalView, c: char)
    requires
        modal_wf(v),
        v.input is Some,
        v.input->0.value.len() < usize::MAX,
    ensures
        backspace_spec(type_char_spec(v, c)) == v,
{
    let i = v.input->0;
    assert(i.value.insert(i.cursor as int, c).remove(i.cursor as int) =~= i.value);
}

/// Every event keeps an open modal well formed (its cursor within its
/// value, and the input focused only if there is one).
pub proof fn lemma_event_keeps_wf(v: ModalView, e: Event)
    requires
        modal_wf(v),
        v.input matches Some(i) ==> i.value.len() < usize::MAX,
    ensures
        modal_wf(modal_key_spec(v, e)),
{
}

/// Escape dismisses an open modal, whatever has focus.
pub proof fn lemma_escape_dismisses(v: ModalView, e: Event)
    requires
        modal_wf(v),
        e matches Event::Key(k) && k.code == KeyCode::Esc && k.kind == KeyEventKind::Press,
    ensures
        modal_key_spec(v, e).result == ResultView::Dismissed,
        !modal_key_spec(v, e).open,
{
}

/// With the input focused, a character key types the character at the
/// cursor and moves the cursor past it, Backspace removes the character
/// before the cursor, and Delete the one under it; the modal stays open.
pub proof fn lemma_input_keys_edit_at_cursor(v: ModalView, e: Event)
    requires
        v.focus == ModalFocus::Input,
        v.input matches Some(i) && i.cursor <= i.value.len() && i.value.len() < usize::MAX,
        e matches Event::Key(k) && k.kind == KeyEventKind::Press,
    ensures
        ({
            let i = v.input->0;
            let w = modal_key_spec(v, e);
            let k = e->Key_0;
            &&& (k.code matches KeyCode::Char(c) ==> {
                &&& w.input matches Some(j) && j.value == i.value.subrange(0, i.cursor as int)
                    + seq![c] + i.value.subrange(i.cursor as int, i.value.len() as int)
                    && j.cursor == i.cursor + 1
                &&& w.open == v.open
            })
            &&& (k.code == KeyCode::Backspace && i.cursor > 0 ==> {
                &&& w.input matches Some(j) && j.value == i.value.subrange(0, i.cursor - 1)
                    + i.value.subrange(i.cursor as int, i.value.len() as int) && j.cursor
                    == i.cursor - 1
                &&& w.open == v.open
            })
            &&& (k.code == KeyCode::Delete && i.cursor < i.value.len() ==> {
                &&& w.input matches Some(j) && j.value == i.value.subrange(0, i.cursor as int)
                    + i.value.subrange(i.cursor + 1int, i.value.len() as int) && j.cursor
                    == i.cursor
                &&& w.open == v.open
            })
        }),
{
    let i = v.input->0;
    let k = e->Key_0;
    if let KeyCode::Char(c) = k.code {
        assert(i.value.insert(i.cursor as int, c) =~= i.value.subrange(0, i.cursor as int) + seq![c]
            + i.value.subrange(i.cursor as int, i.value.len() as int));
    }
    if i.cursor > 0 {
        assert(i.value.remove(i.cursor - 1) =~= i.value.subrange(0, i.cursor - 1)
            + i.value.subrange(i.cursor as int, i.value.len() as int));
    }
    if i.cursor < i.value.len() {
        assert(i.value.remove(i.cursor as int) =~= i.value.subrange(0, i.cursor as int)
            + i.value.subrange(i.cursor + 1int, i.value.len() as int));
    }
}

/// Enter or Space, pressed while a button has focus, presses that button:
/// the modal closes, and its result names the button and carries the input
/// value (if there is an input).
pub proof fn lemma_enter_or_space_presses_focused_button(v: ModalView, e: Event)
    requires
        v.focus == ModalFocus::Buttons,
        v.focused_button < v.buttons.len(),
        e matches Event::Key(k) && (k.code == KeyCode::Enter || k.code == KeyCode::Char(' '))
            && k.kind == KeyEventKind::Press,
    ensures
        !modal_key_spec(v, e).open,
        modal_key_spec(v, e).result == (ResultView::ButtonPressed {
            button_id: v.buttons[v.focused_button as int].0,
            input: match v.input {
                Some(i) => Some(i.value),
                None => None,
            },
        }),
        modal_key_spec(v, e).buttons == v.buttons,
        modal_key_spec(v, e).id == v.id,
{
}

/// A modal dialog: a message, an optional input field and buttons.
pub struct Modal {
    id: String,
    title: Option<String>,
    message: String,
    input: Option<ModalInput>,
    buttons: Vec<ModalButton>,
    config: ModalConfig,
    open: bool,
    result: ModalResult,
    focus: ModalFocus,
    focused_button: usize,
}

/// The views of a list of buttons.
pub open spec fn buttons_view(bs: Seq<ModalButton>) -> Seq<(Seq<char>, Seq<char>)> {
    bs.map_values(|b: ModalButton| b@)
}

impl View for Modal {
    type V = ModalView;

    closed spec fn view(&self) -> ModalView {
        ModalView {
            id: self.id@,
            title: match self.title {
                Some(t) => Some(t@),
                None => None,
            },
            message: self.message@,
            input: match self.input {
                Some(i) => Some(i@),
                None => None,
            },
            buttons: buttons_view(self.buttons@),
            config: self.config,
            open: self.open,
            result: self.result@,
            focus: self.focus,
            focused_button: self.focused_button,
        }
    }
}

impl Modal {
    #[verifier::type_invariant]
    closed spec fn inv(self) -> bool {
        modal_wf(self@)
    }

    /// A closed modal with a message and nothing else.
    pub fn new(id: impl TextArg, message: impl TextArg) -> (m: Modal)
        ensures
            m@ == (ModalView {
                id: id.text_view(),
                title: None,
                message: message.text_view(),
                input: None,
                buttons: Seq::empty(),
                config: ModalConfig { width_percent: 50, height_percent: 30 },
                open: false,
                result: ResultView::Pending,
                focus: ModalFocus::Buttons,
                focused_button: 0,
            }),
    {
        let m = Modal {
            id: id.into_text(),
            title: None,
            message: message.into_text(),
            input: None,
            buttons: Vec::new(),
            config: ModalConfig::default(),
            open: false,
            result: ModalResult::Pending,
            focus: ModalFocus::Buttons,
            focused_button: 0,
        };
        assert(buttons_view(m.buttons@) =~= Seq::empty());
        m
    }

    /// Set the title.
    pub fn with_title(self, title: impl TextArg) -> (m: Modal)
        ensures
            m@ == (ModalView { title: Some(title.text_view()), ..self@ }),
    {
        proof {
            use_type_invariant(&self);
        }
        let mut m = self;
        m.title = Some(title.into_text());
        m
    }

    fn new_input(label: String, inline: bool) -> (i: ModalInput)
        ensures
            i@ == (InputView {
                label: label@,
                placeholder: None,
                value: Seq::empty(),
                cursor: 0,
                inline,
            }),
    {
        ModalInput { label, placeholder: None, value: String::new(), cursor: 0, inline }
    }

    /// Add an input field with a label, and focus it.
    pub fn with_input(self, label: impl TextArg) -> (m: Modal)
        ensures
            m@ == (ModalView {
                input: Some(
                    InputView {
                        label: label.text_view(),
                        placeholder: None,
                        value: Seq::empty(),
                        cursor: 0,
                        inline: false,
                    },
                ),
                focus: ModalFocus::Input,
                ..self@
            }),
    {
        proof {
            use_type_invariant(&self);
        }
        let mut m = self;
        m.input = Some(Self::new_input(label.into_text(), false));
        m.focus = ModalFocus::Input;
        m
    }

    /// Add an input field on the message line, and focus it.
    pub fn with_inline_input(self) -> (m: Modal)
        ensures
            m@ == (ModalView {
                input: Some(
                    InputView {
                        label: Seq::empty(),
                        placeholder: None,
                        value: Seq::empty(),
                        cursor: 0,
                        inline: true,
                    },
                ),
                focus: ModalFocus::Input,
                ..self@
            }),
    {
        proof {
            use_type_invariant(&self);
        }
        let mut m = self;
        m.input = Some(Self::new_input(String::new(), true));
        m.focus = ModalFocus::Input;
        m
    }

    /// The same as `with_inline_input`.
    pub fn with_input_inline(self) -> (m: Modal)
        ensures
            m@ == (ModalView {
                input: Some(
                    InputView {
                        label: Seq::empty(),
                        placeholder: None,
                        value: Seq::empty(),
                        cursor: 0,
                        inline: true,
                    },
                ),
                focus: ModalFocus::Input,
                ..self@
            }),
    {
        proof {
            use_type_invariant(&self);
        }
        self.with_inline_input()
    }

    /// Add a button after the others.
    pub fn with_button(self, button: ModalButton) -> (m: Modal)
        ensures
            m@ == (ModalView { buttons: self@.buttons.push(button@), ..self@ }),
    {
        proof {
            use_type_invariant(&self);
        }
        let mut m = self;
        let ghost b = button;
        let mut list: Vec<ModalButton> = Vec::new();
        std::mem::swap(&mut list, &mut m.buttons);
        list.push(button);
        std::mem::swap(&mut list, &mut m.buttons);
        assert(buttons_view(m.buttons@) =~= buttons_view(self.buttons@).push(b@));
        m
    }

    /// Add buttons after the others, in order.
    pub fn with_buttons(self, buttons: Vec<ModalButton>) -> (m: Modal)
        ensures
            m@ == (ModalView { buttons: self@.buttons + buttons_view(buttons@), ..self@ }),
    {
        proof {
            use_type_invariant(&self);
        }
        let mut m = self;
        let mut more = buttons;
        let ghost added = more@;
        let mut list: Vec<ModalButton> = Vec::new();
        std::mem::swap(&mut list, &mut m.buttons);
        list.append(&mut more);
        std::mem::swap(&mut list, &mut m.buttons);
        assert(buttons_view(m.buttons@) =~= buttons_view(self.buttons@) + buttons_view(added));
        m
    }

    /// Remove every button.
    pub fn clear_buttons(&mut self)
        ensures
            final(self)@ == (ModalView { buttons: Seq::empty(), focused_button: 0, ..old(self)@ }),
    {
        proof {
            use_type_invariant(&*self);
        }
        self.focused_button = 0;
        let mut none: Vec<ModalButton> = Vec::new();
        std::mem::swap(&mut none, &mut self.buttons);
        assert(buttons_view(self.buttons@) =~= Seq::empty());
    }

    /// The identifier.
    pub fn id(&self) -> (r: &str)
        ensures
            r@ == self@.id,
    {
        self.id.as_str()
    }

    /// The message.
    pub fn message(&self) -> (r: &str)
        ensures
            r@ == self@.message,
    {
        self.message.as_str()
    }

    /// Set the message.
    pub fn set_message(&mut self, message: impl TextArg)
        ensures
            final(self)@ == (ModalView { message: message.text_view(), ..old(self)@ }),
    {
        proof {
            use_type_invariant(&*self);
        }
        self.message = message.into_text();
    }

    /// The buttons, in order.
    pub fn buttons(&self) -> (r: &[ModalButton])
        ensures
            buttons_view(r@) == self@.buttons,
    {
        self.buttons.as_slice()
    }

    /// Set the size settings.
    pub fn with_config(self, config: ModalConfig) -> (m: Modal)
        ensures
            m@ == (ModalView { config, ..self@ }),
    {
        proof {
            use_type_invariant(&self);
        }
        let mut m = self;
        m.config = config;
        m
    }

    /// Set the size as percentages of the screen, each capped at 100.
    pub fn with_size(self, width_percent: u16, height_percent: u16) -> (m: Modal)
        ensures
            m@ == (ModalView {
                config: ModalConfig {
                    width_percent: capped_percent(width_percent),
                    height_percent: capped_percent(height_percent),
                },
                ..self@
            }),
    {
        proof {
            use_type_invariant(&self);
        }
        let mut m = self;
        m.config = m.config.with_size(width_percent, height_percent);
        m
    }

    /// Whether the modal is open.
    pub fn is_open(&self) -> (b: bool)
        ensures
            b == self@.open,
    {
        self.open
    }

    /// Take the input field out, leaving a blank one in its place.
    fn take_input(&mut self) -> (r: Option<ModalInput>)
        ensures
            match r {
                Some(i) => old(self)@.input == Some(i@) && i@.cursor <= i@.value.len()
                    && final(self)@ == with_input_view(
                    old(self)@,
                    InputView {
                        label: Seq::empty(),
                        placeholder: None,
                        value: Seq::empty(),
                        cursor: 0,
                        inline: false,
                    },
                ),
                None => old(self)@.input is None && final(self)@ == old(self)@,
            },
    {
        proof {
            use_type_invariant(&*self);
        }
        if self.input.is_none() {
            return None;
        }
        let mut slot = Some(Self::new_input(String::new(), false));
        std::mem::swap(&mut slot, &mut self.input);
        slot
    }

    fn move_cursor_to_end(&mut self)
        ensures
            final(self)@ == cursor_end_spec(old(self)@),
    {
        proof {
            use_type_invariant(&*self);
        }
        match self.take_input() {
            Some(inp) => {
                let n = chars_of(inp.value.as_str()).len();
                self.input = Some(
                    ModalInput {
                        label: inp.label,
                        placeholder: inp.placeholder,
                        value: inp.value,
                        cursor: n,
                        inline: inp.inline,
                    },
                );
            },
            None => {},
        }
    }

    /// Open the modal: see `open_spec`.
    pub fn open(&mut self)
        ensures
            final(self)@ == open_spec(old(self)@),
    {
        proof {
            use_type_invariant(&*self);
        }
        self.open = true;
        self.result = ModalResult::Pending;
        self.focused_button = 0;
        self.focus = if self.input.is_some() {
            ModalFocus::Input
        } else {
            ModalFocus::Buttons
        };
        self.move_cursor_to_end();
    }

    /// Close the modal by the program: see `close_spec`.
    pub fn close(&mut self)
        ensures
            final(self)@ == close_spec(old(self)@),
    {
        proof {
            use_type_invariant(&*self);
        }
        self.open = false;
        self.result = ModalResult::Closed;
    }

    /// Take the result, leaving `Pending`.
    pub fn take_result(&mut self) -> (r: ModalResult)
        ensures
            r@ == old(self)@.result,
            final(self)@ == (ModalView { result: ResultView::Pending, ..old(self)@ }),
    {
        proof {
            use_type_invariant(&*self);
        }
        let mut r = ModalResult::Pending;
        std::mem::swap(&mut r, &mut self.result);
        r
    }

    /// The result, without taking it.
    pub fn result(&self) -> (r: &ModalResult)
        ensures
            r@ == self@.result,
    {
        &self.result
    }

    /// The title, if any.
    pub fn title(&self) -> (r: Option<&str>)
        ensures
            match r {
                Some(t) => self@.title == Some(t@),
                None => self@.title is None,
            },
    {
        match &self.title {
            Some(t) => Some(t.as_str()),
            None => None,
        }
    }

    /// Set the title.
    pub fn set_title(&mut self, title: Option<String>)
        ensures
            final(self)@ == (ModalView {
                title: match title {
                    Some(t) => Some(t@),
                    None => None,
                },
                ..old(self)@
            }),
    {
        proof {
            use_type_invariant(&*self);
        }
        self.title = title;
    }

    /// The size settings.
    pub fn config(&self) -> (r: &ModalConfig)
        ensures
            *r == self@.config,
    {
        &self.config
    }

    /// The input field, if any.
    pub fn input(&self) -> (r: Option<&ModalInput>)
        ensures
            match r {
                Some(i) => self@.input == Some(i@),
                None => self@.input is None,
            },
    {
        match &self.input {
            Some(i) => Some(i),
            None => None,
        }
    }

    /// Which element has focus.
    pub fn focus(&self) -> (f: ModalFocus)
        ensures
            f == self@.focus,
    {
        self.focus
    }

    /// The index of the focused button.
    pub fn focused_button(&self) -> (i: usize)
        ensures
            i == self@.focused_button,
    {
        self.focused_button
    }

    /// Take the input value, leaving it empty with the cursor at the start.
    pub fn take_input_value(&mut self) -> (r: Option<String>)
        ensures
            match old(self)@.input {
                Some(i) => r is Some && r.unwrap()@ == i.value && final(self)@ == with_input_view(
                    old(self)@,
                    InputView { value: Seq::empty(), cursor: 0, ..i },
                ),
                None => r is None && final(self)@ == old(self)@,
            },
    {
        proof {
            use_type_invariant(&*self);
        }
        match self.take_input() {
            Some(inp) => {
                let value = inp.value;
                self.input = Some(
                    ModalInput {
                        label: inp.label,
                        placeholder: inp.placeholder,
                        value: String::new(),
                        cursor: 0,
                        inline: inp.inline,
                    },
                );
                Some(value)
            },
            None => None,
        }
    }

    /// The input value, if there is an input field.
    pub fn input_value(&self) -> (r: Option<&str>)
        ensures
            match self@.input {
                Some(i) => r is Some && r.unwrap()@ == i.value,
                None => r is None,
            },
    {
        match &self.input {
            Some(i) => Some(i.value.as_str()),
            None => None,
        }
    }

    /// Set the input value (with the cursor at its end), if there is an
    /// input field.
    pub fn set_input_value(&mut self, value: impl TextArg)
        ensures
            match old(self)@.input {
                Some(i) => final(self)@ == with_input_view(
                    old(self)@,
                    InputView {
                        value: value.text_view(),
                        cursor: value.text_view().len() as usize,
                        ..i
                    },
                ),
                None => final(self)@ == old(self)@,
            },
    {
        proof {
            use_type_invariant(&*self);
        }
        match self.take_input() {
            Some(inp) => {
                let value: String = value.into_text();
                let n = chars_of(value.as_str()).len();
                self.input = Some(
                    ModalInput {
                        label: inp.label,
                        placeholder: inp.placeholder,
                        value,
                        cursor: n,
                        inline: inp.inline,
                    },
                );
            },
            None => {},
        }
    }

    fn has_input(&self) -> (b: bool)
        ensures
            b == self@.input is Some,
    {
        self.input.is_some()
    }

    /// Move focus to the next element: see `focus_next_spec`.
    pub fn focus_next(&mut self)
        ensures
            final(self)@ == focus_next_spec(old(self)@),
    {
        proof {
            use_type_invariant(&*self);
        }
        match self.focus {
            ModalFocus::Input => {
                self.focus = ModalFocus::Buttons;
                self.focused_button = 0;
            },
            ModalFocus::Buttons => {
                if self.has_input() {
                    self.focus = ModalFocus::Input;
                } else {
                    self.focus_next_button();
                }
            },
        }
    }

    /// Move focus to the previous element: see `focus_prev_spec`.
    pub fn focus_prev(&mut self)
        ensures
            final(self)@ == focus_prev_spec(old(self)@),
    {
        proof {
            use_type_invariant(&*self);
        }
        match self.focus {
            ModalFocus::Input => {
                self.focus = ModalFocus::Buttons;
                self.focused_button = if self.buttons.len() > 0 {
                    self.buttons.len() - 1
                } else {
                    0
                };
            },
            ModalFocus::Buttons => {
                if self.has_input() && self.focused_button == 0 {
                    self.focus = ModalFocus::Input;
                } else {
                    self.focus_prev_button();
                }
            },
        }
    }

    /// Focus the next button, wrapping around.
    pub fn focus_next_button(&mut self)
        ensures
            final(self)@ == next_button_spec(old(self)@),
    {
        proof {
            use_type_invariant(&*self);
        }
        let n = self.buttons.len();
        if n > 0 {
            let r = self.focused_button % n;
            self.focused_button = if r == n - 1 {
                0
            } else {
                r + 1
            };
            proof {
                let f = old(self)@.focused_button as int;
                assert((f + 1) % (n as int) == if r == n - 1 {
                    0
                } else {
                    r + 1
                }) by (nonlinear_arith)
                    requires
                        r == f % (n as int),
                        n > 0,
                        f >= 0,
                ;
            }
        }
    }

    /// Focus the previous button, wrapping around.
    pub fn focus_prev_button(&mut self)
        ensures
            final(self)@ == prev_button_spec(old(self)@),
    {
        proof {
            use_type_invariant(&*self);
        }
        let n = self.buttons.len();
        if n > 0 {
            self.focused_button = if self.focused_button == 0 {
                n - 1
            } else {
                self.focused_button - 1
            };
        }
    }

    /// Press the focused button: see `activate_spec`.
    pub fn activate_focused_button(&mut self)
        ensures
            final(self)@ == activate_spec(old(self)@),
    {
        proof {
            use_type_invariant(&*self);
        }
        if self.focused_button < self.buttons.len() {
            let button_id = String::from_str(self.buttons[self.focused_button].id.as_str());
            let input_value = match &self.input {
                Some(i) => Some(String::from_str(i.value.as_str())),
                None => None,
            };
            self.result = ModalResult::ButtonPressed { button_id, input: input_value };
            self.open = false;
        }
    }

    /// Type a character at the cursor.
    pub fn handle_input_char(&mut self, c: char)
        ensures
            final(self)@ == type_char_spec(old(self)@, c),
    {
        proof {
            use_type_invariant(&*self);
        }
        match self.take_input() {
            Some(inp) => {
                let mut chars = chars_of(inp.value.as_str());
                chars.insert(inp.cursor, c);
                let n = chars.len();
                assert(n == inp.value@.len() + 1);
                let cursor = inp.cursor + 1;
                self.input = Some(
                    ModalInput {
                        label: inp.label,
                        placeholder: inp.placeholder,
                        value: string_from_chars(&chars),
                        cursor,
                        inline: inp.inline,
                    },
                );
            },
            None => {},
        }
    }

    /// Delete the character before the cursor.
    pub fn handle_input_backspace(&mut self)
        ensures
            final(self)@ == backspace_spec(old(self)@),
    {
        proof {
            use_type_invariant(&*self);
        }
        match self.take_input() {
            Some(inp) => {
                if inp.cursor > 0 {
                    let mut chars = chars_of(inp.value.as_str());
                    chars.remove(inp.cursor - 1);
                    self.input = Some(
                        ModalInput {
                            label: inp.label,
                            placeholder: inp.placeholder,
                            value: string_from_chars(&chars),
                            cursor: inp.cursor - 1,
                            inline: inp.inline,
                        },
                    );
                } else {
                    self.input = Some(inp);
                }
            },
            None => {},
        }
    }

    /// Delete the character at the cursor.
    pub fn handle_input_delete(&mut self)
        ensures
            final(self)@ == delete_spec(old(self)@),
    {
        proof {
            use_type_invariant(&*self);
        }
        match self.take_input() {
            Some(inp) => {
                let mut chars = chars_of(inp.value.as_str());
                if inp.cursor < chars.len() {
                    chars.remove(inp.cursor);
                    self.input = Some(
                        ModalInput {
                            label: inp.label,
                            placeholder: inp.placeholder,
                            value: string_from_chars(&chars),
                            cursor: inp.cursor,
                            inline: inp.inline,
                        },
                    );
                } else {
                    self.input = Some(inp);
                }
            },
            None => {},
        }
    }

    fn set_cursor(&mut self, cursor: usize)
        requires
            old(self)@.input matches Some(i) ==> cursor <= i.value.len(),
        ensures
            final(self)@ == match old(self)@.input {
                Some(i) => with_input_view(old(self)@, InputView { cursor, ..i }),
                None => old(self)@,
            },
    {
        proof {
            use_type_invariant(&*self);
        }
        match self.take_input() {
            Some(inp) => {
                self.input = Some(
                    ModalInput {
                        label: inp.label,
                        placeholder: inp.placeholder,
                        value: inp.value,
                        cursor,
                        inline: inp.inline,
                    },
                );
            },
            None => {},
        }
    }

    /// Move the cursor one character left.
    pub fn move_input_cursor_left(&mut self)
        ensures
            final(self)@ == cursor_left_spec(old(self)@),
    {
        proof {
            use_type_invariant(&*self);
        }
        let c = match &self.input {
            Some(inp) => inp.cursor,
            None => {
                return ;
            },
        };
        if c > 0 {
            self.set_cursor(c - 1);
        }
    }

    /// Move the cursor one character right.
    pub fn move_input_cursor_right(&mut self)
        ensures
            final(self)@ == cursor_right_spec(old(self)@),
    {
        proof {
            use_type_invariant(&*self);
        }
        let (c, n) = match &self.input {
            Some(inp) => (inp.cursor, chars_of(inp.value.as_str()).len()),
            None => {
                return ;
            },
        };
        if c < n {
            self.set_cursor(c + 1);
        }
    }

    /// Move the cursor to the start.
    pub fn move_input_cursor_home(&mut self)
        ensures
            final(self)@ == cursor_home_spec(old(self)@),
    {
        proof {
            use_type_invariant(&*self);
        }
        self.set_cursor(0);
    }

    /// Move the cursor to the end.
    pub fn move_input_cursor_end(&mut self)
        ensures
            final(self)@ == cursor_end_spec(old(self)@),
    {
        proof {
            use_type_invariant(&*self);
        }
        self.move_cursor_to_end();
    }

    /// Handle an event: a closed modal ignores it; an open one handles it
    /// (see `modal_key_spec`) and never lets it through.
    pub fn handle_event(&mut self, event: &Event) -> (r: EventResult)
        ensures
            if old(self)@.open {
                final(self)@ == modal_key_spec(old(self)@, *event) && r
                    == EventResult::StopPropagation
            } else {
                final(self)@ == old(self)@ && r == EventResult::Unhandled
            },
    {
        proof {
            use_type_invariant(&*self);
        }
        if !self.open {
            return EventResult::Unhandled;
        }
        match event {
            Event::Key(_) => {},
            _ => {
                return EventResult::StopPropagation;
            },
        }
        let has_input = self.has_input();
        if self.focus == ModalFocus::Input && has_input {
            let action = handle_input_keys(event, self);
            if action.is_some() {
                return EventResult::StopPropagation;
            }
        }
        if handle_navigation_keys(event, self, has_input) {
            return EventResult::StopPropagation;
        }
        if self.focus == ModalFocus::Buttons {
            let _action = handle_button_keys(event, self);
        }
        EventResult::StopPropagation
    }

    /// The focus identifier: the modal's, while it is open.
    pub fn focus_id(&self) -> (r: Option<&str>)
        ensures
            if self@.open {
                r is Some && r.unwrap()@ == self@.id
            } else {
                r is None
            },
    {
        if self.open {
            Some(self.id.as_str())
        } else {
            None
        }
    }

    /// Whether the modal takes focus: while it is open.
    pub fn is_focusable(&self) -> (b: bool)
        ensures
            b == self@.open,
    {
        self.open
    }

    /// The focusable children: none (the modal moves focus between its
    /// buttons itself).
    pub fn focus_children(&self) -> (r: Vec<&str>)
        ensures
            r@.len() == 0,
    {
        Vec::new()
    }
}

impl ModalNavigation for Modal {
    open spec fn focused_next(self, after: Self) -> bool {
        after@ == focus_next_spec(self@)
    }

    open spec fn focused_prev(self, after: Self) -> bool {
        after@ == focus_prev_spec(self@)
    }

    open spec fn next_button_focused(self, after: Self) -> bool {
        after@ == next_button_spec(self@)
    }

    open spec fn prev_button_focused(self, after: Self) -> bool {
        after@ == prev_button_spec(self@)
    }

    open spec fn buttons_have_focus(self) -> bool {
        self@.focus == ModalFocus::Buttons
    }

    fn focus_next(&mut self) {
        Modal::focus_next(self);
    }

    fn focus_prev(&mut self) {
        Modal::focus_prev(self);
    }

    fn focus_next_button(&mut self) {
        Modal::focus_next_button(self);
    }

    fn focus_prev_button(&mut self) {
        Modal::focus_prev_button(self);
    }

    fn is_buttons_focused(&self) -> (b: bool) {
        self.focus == ModalFocus::Buttons
    }
}

impl ModalInputHandlers for Modal {
    open spec fn char_typed(self, c: char, after: Self) -> bool {
        after@ == type_char_spec(self@, c)
    }

    open spec fn backspaced(self, after: Self) -> bool {
        after@ == backspace_spec(self@)
    }

    open spec fn deleted(self, after: Self) -> bool {
        after@ == delete_spec(self@)
    }

    open spec fn cursor_moved_left(self, after: Self) -> bool {
        after@ == cursor_left_spec(self@)
    }

    open spec fn cursor_moved_right(self, after: Self) -> bool {
        after@ == cursor_right_spec(self@)
    }

    open spec fn cursor_moved_home(self, after: Self) -> bool {
        after@ == cursor_home_spec(self@)
    }

    open spec fn cursor_moved_end(self, after: Self) -> bool {
        after@ == cursor_end_spec(self@)
    }

    open spec fn moved_to_buttons(self, after: Self) -> bool {
        after@ == to_buttons_spec(self@)
    }

    open spec fn first_activated(self, after: Self) -> bool {
        after@ == activate_spec(self@)
    }

    open spec fn input_dismissed(self, after: Self) -> bool {
        after@ == dismiss_spec(self@)
    }

    fn handle_input_char(&mut self, c: char) {
        Modal::handle_input_char(self, c);
    }

    fn handle_input_backspace(&mut self) {
        Modal::handle_input_backspace(self);
    }

    fn handle_input_delete(&mut self) {
        Modal::handle_input_delete(self);
    }

    fn move_input_cursor_left(&mut self) {
        Modal::move_input_cursor_left(self);
    }

    fn move_input_cursor_right(&mut self) {
        Modal::move_input_cursor_right(self);
    }

    fn move_input_cursor_home(&mut self) {
        Modal::move_input_cursor_home(self);
    }

    fn move_input_cursor_end(&mut self) {
        Modal::move_input_cursor_end(self);
    }

    fn move_focus_to_buttons(&mut self) {
        proof {
            use_type_invariant(&*self);
        }
        self.focus = ModalFocus::Buttons;
        self.focused_button = 0;
    }

    fn activate_first_button(&mut self) {
        Modal::activate_focused_button(self);
    }

    fn dismiss(&mut self) {
        proof {
            use_type_invariant(&*self);
        }
        self.result = ModalResult::Dismissed;
        self.open = false;
    }
}

impl ModalButtonHandlers for Modal {
    open spec fn focused_activated(self, after: Self) -> bool {
        after@ == activate_spec(self@)
    }

    open spec fn button_dismissed(self, after: Self) -> bool {
        after@ == dismiss_spec(self@)
    }

    fn activate_focused_button(&mut self) {
        Modal::activate_focused_button(self);
    }

    fn dismiss(&mut self) {
        proof {
            use_type_invariant(&*self);
        }
        self.result = ModalResult::Dismissed;
        self.open = false;
    }
}

} // verus!
