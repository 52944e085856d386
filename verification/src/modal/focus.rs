//! Focus inside a modal, and the key handling shared by the modal and the
//! modal manager.
//!
//! The handlers are generic over what they drive: each trait names, for each
//! of its operations, the relation between the value before and after it,
//! and the handlers promise which operation a key runs.
use vstd::prelude::*;

use crate::event::{Event, KeyCode, KeyEventKind};

verus! {

/// Which element of a modal has focus.
#[derive(Debug, Clone, Copy, PartialEq, Eq, Structural)]
pub enum ModalFocus {
    /// The input field.
    Input,
    /// The buttons.
    Buttons,
}

impl Default for ModalFocus {
    fn default() -> (f: ModalFocus)
        ensures
            f == ModalFocus::Buttons,
    {
        ModalFocus::Buttons
    }
}

/// What an input key did.
#[derive(Debug, Clone, Copy, PartialEq, Eq, Structural)]
pub enum InputAction {
    /// The key was used.
    Handled,
    /// The modal was dismissed.
    Dismissed,
}

/// What a button key did.
#[derive(Debug, Clone, Copy, PartialEq, Eq, Structural)]
pub enum ButtonAction {
    /// A button was activated.
    Activated,
    /// The modal was dismissed.
    Dismissed,
}

/// Moving focus within a modal.
pub trait ModalNavigation: Sized {
    /// `after` is `self` with focus moved to the next element.
    spec fn focused_next(self, after: Self) -> bool;

    /// `after` is `self` with focus moved to the previous element.
    spec fn focused_prev(self, after: Self) -> bool;

    /// `after` is `self` with the next button focused.
    spec fn next_button_focused(self, after: Self) -> bool;

    /// `after` is `self` with the previous button focused.
    spec fn prev_button_focused(self, after: Self) -> bool;

    /// Whether the buttons have focus.
    spec fn buttons_have_focus(self) -> bool;

    /// Move focus to the next element (input and buttons).
    fn focus_next(&mut self)
        ensures
            old(self).focused_next(*final(self)),
    ;

    /// Move focus to the previous element (input and buttons).
    fn focus_prev(&mut self)
        ensures
            old(self).focused_prev(*final(self)),
    ;

    /// Focus the next button.
    fn focus_next_button(&mut self)
        ensures
            old(self).next_button_focused(*final(self)),
    ;

    /// Focus the previous button.
    fn focus_prev_button(&mut self)
        ensures
            old(self).prev_button_focused(*final(self)),
    ;

    /// Whether the buttons have focus.
    fn is_buttons_focused(&self) -> (b: bool)
        ensures
            b == self.buttons_have_focus(),
    ;
}

/// Editing the input field of a modal.
pub trait ModalInputHandlers: Sized {
    /// `after` is `self` with `c` typed into the input.
    spec fn char_typed(self, c: char, after: Self) -> bool;

    /// `after` is `self` after a backspace in the input.
    spec fn backspaced(self, after: Self) -> bool;

    /// `after` is `self` after a delete in the input.
    spec fn deleted(self, after: Self) -> bool;

    /// `after` is `self` with the input cursor moved left.
    spec fn cursor_moved_left(self, after: Self) -> bool;

    /// `after` is `self` with the input cursor moved right.
    spec fn cursor_moved_right(self, after: Self) -> bool;

    /// `after` is `self` with the input cursor at the start.
    spec fn cursor_moved_home(self, after: Self) -> bool;

    /// `after` is `self` with the input cursor at the end.
    spec fn cursor_moved_end(self, after: Self) -> bool;

    /// `after` is `self` with focus moved to the first button.
    spec fn moved_to_buttons(self, after: Self) -> bool;

    /// `after` is `self` after activating the first button.
    spec fn first_activated(self, after: Self) -> bool;

    /// `after` is `self` dismissed.
    spec fn input_dismissed(self, after: Self) -> bool;

    /// Type a character.
    fn handle_input_char(&mut self, c: char)
        ensures
            old(self).char_typed(c, *final(self)),
    ;

    /// Delete the character before the cursor.
    fn handle_input_backspace(&mut self)
        ensures
            old(self).backspaced(*final(self)),
    ;

    /// Delete the character at the cursor.
    fn handle_input_delete(&mut self)
        ensures
            old(self).deleted(*final(self)),
    ;

    /// Move the cursor left.
    fn move_input_cursor_left(&mut self)
        ensures
            old(self).cursor_moved_left(*final(self)),
    ;

    /// Move the cursor right.
    fn move_input_cursor_right(&mut self)
        ensures
            old(self).cursor_moved_right(*final(self)),
    ;

    /// Move the cursor to the start.
    fn move_input_cursor_home(&mut self)
        ensures
            old(self).cursor_moved_home(*final(self)),
    ;

    /// Move the cursor to the end.
    fn move_input_cursor_end(&mut self)
        ensures
            old(self).cursor_moved_end(*final(self)),
    ;

    /// Move focus to the buttons.
    fn move_focus_to_buttons(&mut self)
        ensures
            old(self).moved_to_buttons(*final(self)),
    ;

    /// Activate the first button.
    fn activate_first_button(&mut self)
        ensures
            old(self).first_activated(*final(self)),
    ;

    /// Dismiss the modal.
    fn dismiss(&mut self)
        ensures
            old(self).input_dismissed(*final(self)),
    ;
}

/// Pressing buttons of a modal.
pub trait ModalButtonHandlers: Sized {
    /// `after` is `self` after activating the focused button.
    spec fn focused_activated(self, after: Self) -> bool;

    /// `after` is `self` dismissed.
    spec fn button_dismissed(self, after: Self) -> bool;

    /// Activate the focused button.
    fn activate_focused_button(&mut self)
        ensures
            old(self).focused_activated(*final(self)),
    ;

    /// Dismiss the modal.
    fn dismiss(&mut self)
        ensures
            old(self).button_dismissed(*final(self)),
    ;
}

/// A focus move that a key asks for.
pub enum NavStep {
    FocusNext,
    FocusPrev,
    NextButton,
    PrevButton,
}

/// The focus move of a key press: Tab goes forward and Shift+Tab or BackTab
/// back (between input and buttons when there is an input, between buttons
/// otherwise); Right and Left move between buttons while they have focus.
pub open spec fn nav_step(event: Event, buttons_focused: bool, has_input: bool) -> Option<NavStep> {
    match event {
        Event::Key(k) => if k.kind != KeyEventKind::Press {
            None
        } else {
            match k.code {
                KeyCode::Tab => if !k.modifiers.shift {
                    Some(
                        if has_input {
                            NavStep::FocusNext
                        } else {
                            NavStep::NextButton
                        },
                    )
                } else {
                    Some(
                        if has_input {
                            NavStep::FocusPrev
                        } else {
                            NavStep::PrevButton
                        },
                    )
                },
                KeyCode::BackTab => Some(
                    if has_input {
                        NavStep::FocusPrev
                    } else {
                        NavStep::PrevButton
                    },
                ),
                KeyCode::Right => if buttons_focused {
                    Some(NavStep::NextButton)
                } else {
                    None
                },
                KeyCode::Left => if buttons_focused {
                    Some(NavStep::PrevButton)
                } else {
                    None
                },
                _ => None,
            }
        },
        _ => None,
    }
}

/// An input operation that a key asks for.
pub enum InputStep {
    Char(char),
    Backspace,
    Delete,
    Left,
    Right,
    Home,
    End,
    /// Enter: focus the buttons and activate the first one.
    Submit,
    Dismiss,
}

/// The input operation of a key press.
pub open spec fn input_step(event: Event) -> Option<InputStep> {
    match event {
        Event::Key(k) => if k.kind != KeyEventKind::Press {
            None
        } else {
            match k.code {
                KeyCode::Char(c) => Some(InputStep::Char(c)),
                KeyCode::Backspace => Some(InputStep::Backspace),
                KeyCode::Delete => Some(InputStep::Delete),
                KeyCode::Left => Some(InputStep::Left),
                KeyCode::Right => Some(InputStep::Right),
                KeyCode::Home => Some(InputStep::Home),
                KeyCode::End => Some(InputStep::End),
                KeyCode::Enter => Some(InputStep::Submit),
                KeyCode::Esc => Some(InputStep::Dismiss),
                _ => None,
            }
        },
        _ => None,
    }
}

/// A button operation that a key asks for.
pub enum ButtonStep {
    Activate,
    Dismiss,
}

/// The button operation of a key press: Enter or Space activates, Escape
/// dismisses.
pub open spec fn button_step(event: Event) -> Option<ButtonStep> {
    match event {
        Event::Key(k) => if k.kind != KeyEventKind::Press {
            None
        } else {
            match k.code {
                KeyCode::Enter | KeyCode::Char(' ') => Some(ButtonStep::Activate),
                KeyCode::Esc => Some(ButtonStep::Dismiss),
                _ => None,
            }
        },
        _ => None,
    }
}

/// Handle the navigation keys: see `nav_step`. Returns whether the key was
/// used.
pub fn handle_navigation_keys<T: ModalNavigation>(
    key: &Event,
    modal: &mut T,
    has_input: bool,
) -> (handled: bool)
    ensures
        match nav_step(*key, old(modal).buttons_have_focus(), has_input) {
            Some(NavStep::FocusNext) => handled && old(modal).focused_next(*final(modal)),
            Some(NavStep::FocusPrev) => handled && old(modal).focused_prev(*final(modal)),
            Some(NavStep::NextButton) => handled && old(modal).next_button_focused(*final(modal)),
            Some(NavStep::PrevButton) => handled && old(modal).prev_button_focused(*final(modal)),
            None => !handled && *final(modal) == *old(modal),
        },
{
    let key_event = match key {
        Event::Key(k) => *k,
        _ => {
            return false;
        },
    };
    match key_event.kind {
        KeyEventKind::Press => {},
        _ => {
            return false;
        },
    }
    match key_event.code {
        KeyCode::Tab => {
            if !key_event.modifiers.shift {
                if has_input {
                    modal.focus_next();
                } else {
                    modal.focus_next_button();
                }
            } else {
                if has_input {
                    modal.focus_prev();
                } else {
                    modal.focus_prev_button();
                }
            }
            true
        },
        KeyCode::BackTab => {
            if has_input {
                modal.focus_prev();
            } else {
                modal.focus_prev_button();
            }
            true
        },
        KeyCode::Right => {
            if modal.is_buttons_focused() {
                modal.focus_next_button();
                true
            } else {
                false
            }
        },
        KeyCode::Left => {
            if modal.is_buttons_focused() {
                modal.focus_prev_button();
                true
            } else {
                false
            }
        },
        _ => false,
    }
}

/// Handle the input keys: see `input_step`. Returns what the key did, or
/// `None` when it is not an input key.
pub fn handle_input_keys<T: ModalInputHandlers>(key: &Event, modal: &mut T) -> (r: Option<
    InputAction,
>)
    ensures
        match input_step(*key) {
            Some(InputStep::Char(c)) => r == Some(InputAction::Handled) && old(modal).char_typed(
                c,
                *final(modal),
            ),
            Some(InputStep::Backspace) => r == Some(InputAction::Handled) && old(modal).backspaced(
                *final(modal),
            ),
            Some(InputStep::Delete) => r == Some(InputAction::Handled) && old(modal).deleted(
                *final(modal),
            ),
            Some(InputStep::Left) => r == Some(InputAction::Handled) && old(
                modal,
            ).cursor_moved_left(*final(modal)),
            Some(InputStep::Right) => r == Some(InputAction::Handled) && old(
                modal,
            ).cursor_moved_right(*final(modal)),
            Some(InputStep::Home) => r == Some(InputAction::Handled) && old(
                modal,
            ).cursor_moved_home(*final(modal)),
            Some(InputStep::End) => r == Some(InputAction::Handled) && old(modal).cursor_moved_end(
                *final(modal),
            ),
            Some(InputStep::Submit) => r == Some(InputAction::Handled) && exists|mid: T|
                old(modal).moved_to_buttons(mid) && mid.first_activated(*final(modal)),
            Some(InputStep::Dismiss) => r == Some(InputAction::Dismissed) && old(
                modal,
            ).input_dismissed(*final(modal)),
            None => r is None && *final(modal) == *old(modal),
        },
{
    let key_event = match key {
        Event::Key(k) => *k,
        _ => {
            return None;
        },
    };
    match key_event.kind {
        KeyEventKind::Press => {},
        _ => {
            return None;
        },
    }
    match key_event.code {
        KeyCode::Char(c) => {
            modal.handle_input_char(c);
            Some(InputAction::Handled)
        },
        KeyCode::Backspace => {
            modal.handle_input_backspace();
            Some(InputAction::Handled)
        },
        KeyCode::Delete => {
            modal.handle_input_delete();
            Some(InputAction::Handled)
        },
        KeyCode::Left => {
            modal.move_input_cursor_left();
            Some(InputAction::Handled)
        },
        KeyCode::Right => {
            modal.move_input_cursor_right();
            Some(InputAction::Handled)
        },
        KeyCode::Home => {
            modal.move_input_cursor_home();
            Some(InputAction::Handled)
        },
        KeyCode::End => {
            modal.move_input_cursor_end();
            Some(InputAction::Handled)
        },
        KeyCode::Enter => {
            let ghost before = *modal;
            modal.move_focus_to_buttons();
            let ghost mid = *modal;
            modal.activate_first_button();
            assert(before.moved_to_buttons(mid) && mid.first_activated(*modal));
            Some(InputAction::Handled)
        },
        KeyCode::Esc => {
            modal.dismiss();
            Some(InputAction::Dismissed)
        },
        _ => None,
    }
}

/// Handle the button keys: see `button_step`. Returns what the key did, or
/// `None` when it is not a button key.
pub fn handle_button_keys<T: ModalButtonHandlers>(key: &Event, modal: &mut T) -> (r: Option<
    ButtonAction,
>)
    ensures
        match button_step(*key) {
            Some(ButtonStep::Activate) => r == Some(ButtonAction::Activated) && old(
                modal,
            ).focused_activated(*final(modal)),
            Some(ButtonStep::Dismiss) => r == Some(ButtonAction::Dismissed) && old(
                modal,
            ).button_dismissed(*final(modal)),
            None => r is None && *final(modal) == *old(modal),
        },
{
    let key_event = match key {
        Event::Key(k) => *k,
        _ => {
            return None;
        },
    };
    match key_event.kind {
        KeyEventKind::Press => {},
        _ => {
            return None;
        },
    }
    match key_event.code {
        KeyCode::Enter | KeyCode::Char(' ') => {
            modal.activate_focused_button();
            Some(ButtonAction::Activated)
        },
        KeyCode::Esc => {
            modal.dismiss();
            Some(ButtonAction::Dismissed)
        },
        _ => None,
    }
}

} // verus!
