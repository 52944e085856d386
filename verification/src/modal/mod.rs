//! Modal dialogs, and the manager that keeps at most one of them open.
use vstd::prelude::*;

pub mod dialog;
pub mod focus;
pub mod layout;
pub mod types;

use dialog::{button_op, close_spec, input_op, modal_wf, nav_op, open_spec, Modal, ModalView};
use focus::{
    button_step, handle_button_keys, handle_input_keys, handle_navigation_keys, input_step,
    nav_step, ModalFocus,
};
use types::{ModalResult, ResultView};
use crate::event::{Event, KeyCode, KeyEventKind};

verus! {

/// Everything a modal manager holds, as plain values.
pub struct ManagerView {
    /// The open modal, if any.
    pub current: Option<ModalView>,
    /// Identifier of the last modal that closed.
    pub last_id: Option<Seq<char>>,
    /// How the last modal closed.
    pub last_result: Option<ResultView>,
}

/// Open `m`, closing (with `Closed`) the modal that was open.
pub open spec fn manager_opened(v: ManagerView, m: ModalView) -> ManagerView {
    match v.current {
        Some(old) => ManagerView {
            current: Some(open_spec(m)),
            last_id: Some(old.id),
            last_result: Some(ResultView::Closed),
        },
        None => ManagerView { current: Some(open_spec(m)), ..v },
    }
}

/// Close the open modal, if any, recording it as `Closed`.
pub open spec fn manager_closed(v: ManagerView) -> ManagerView {
    match v.current {
        Some(m) => ManagerView {
            current: None,
            last_id: Some(m.id),
            last_result: Some(close_spec(m).result),
        },
        None => v,
    }
}

/// The recorded outcome, when both the identifier and the result are there.
pub open spec fn recorded(v: ManagerView) -> Option<(Seq<char>, ResultView)> {
    match (v.last_id, v.last_result) {
        (Some(id), Some(r)) => Some((id, r)),
        _ => None,
    }
}

/// The manager after taking the recorded outcome.
pub open spec fn manager_taken(v: ManagerView) -> ManagerView {
    ManagerView { last_id: None, last_result: None, ..v }
}

/// A key on the open modal, as the manager handles it: with the input
/// focused an input key edits it, otherwise a button key presses or
/// dismisses; then a navigation key moves focus.
pub open spec fn manager_key_spec(v: ModalView, event: Event) -> ModalView {
    let has_input = v.input is Some;
    let mid = if v.focus == ModalFocus::Input && has_input {
        match input_step(event) {
            Some(s) => input_op(v, s),
            None => v,
        }
    } else {
        match button_step(event) {
            Some(s) => button_op(v, s),
            None => v,
        }
    };
    match nav_step(event, mid.focus == ModalFocus::Buttons, has_input) {
        Some(s) => nav_op(mid, s),
        None => mid,
    }
}

/// An event while a modal is open: the modal handles it, and when that
/// closes the modal, its identifier and result are recorded.
pub open spec fn manager_event(v: ManagerView, event: Event) -> ManagerView {
    match v.current {
        Some(m) => {
            let m2 = manager_key_spec(m, event);
            if m2.open {
                ManagerView { current: Some(m2), ..v }
            } else {
                ManagerView { current: None, last_id: Some(m2.id), last_result: Some(m2.result) }
            }
        },
        None => v,
    }
}

/// Taking the outcome twice: the second time there is none.
pub proof fn lemma_take_result_twice(v: ManagerView)
    ensures
        recorded(manager_taken(v)) is None,
{
}

/// Opening a modal over an open one closes the latter: its identifier is
/// recorded with `Closed`, and the new one is the open modal.
pub proof fn lemma_open_replaces(v: ManagerView, m: ModalView)
    requires
        v.current is Some,
    ensures
        recorded(manager_opened(v, m)) == Some((v.current->0.id, ResultView::Closed)),
        manager_opened(v, m).current == Some(open_spec(m)),
{
}

/// Closing the open modal records its identifier with `Closed`, and no
/// modal is open afterwards.
pub proof fn lemma_close_records(v: ManagerView)
    requires
        v.current is Some,
    ensures
        recorded(manager_closed(v)) == Some((v.current->0.id, ResultView::Closed)),
        manager_closed(v).current is None,
{
}

/// Escape on the open modal dismisses it: no modal is open afterwards, and
/// its identifier is recorded with `Dismissed`.
pub proof fn lemma_escape_closes(v: ManagerView, e: Event)
    requires
        v.current is Some,
        modal_wf(v.current->0),
        e matches Event::Key(k) && k.code == KeyCode::Esc && k.kind == KeyEventKind::Press,
    ensures
        manager_event(v, e).current is None,
        recorded(manager_event(v, e)) == Some((v.current->0.id, ResultView::Dismissed)),
{
}

/// Enter or Space on the open modal while one of its buttons has focus
/// presses that button: no modal is open afterwards, and the modal's
/// identifier is recorded with the button's identifier and the input value.
pub proof fn lemma_enter_or_space_records_button(v: ManagerView, e: Event)
    requires
        v.current is Some,
        v.current->0.focus == ModalFocus::Buttons,
        v.current->0.focused_button < v.current->0.buttons.len(),
        e matches Event::Key(k) && (k.code == KeyCode::Enter || k.code == KeyCode::Char(' '))
            && k.kind == KeyEventKind::Press,
    ensures
        manager_event(v, e).current is None,
        recorded(manager_event(v, e)) == Some(
            (
                v.current->0.id,
                ResultView::ButtonPressed {
                    button_id: v.current->0.buttons[v.current->0.focused_button as int].0,
                    input: match v.current->0.input {
                        Some(i) => Some(i.value),
                        None => None,
                    },
                },
            ),
        ),
{
}

/// Keeps at most one modal open, and the outcome of the last one closed.
pub struct ModalManager {
    current: Option<Modal>,
    last_id: Option<String>,
    last_result: Option<ModalResult>,
}

impl View for ModalManager {
    type V = ManagerView;

    closed spec fn view(&self) -> ManagerView {
        ManagerView {
            current: match self.current {
                Some(m) => Some(m@),
                None => None,
            },
            last_id: match self.last_id {
                Some(t) => Some(t@),
                None => None,
            },
            last_result: match self.last_result {
                Some(r) => Some(r@),
                None => None,
            },
        }
    }
}

impl Default for ModalManager {
    fn default() -> (m: ModalManager)
        ensures
            m@ == (ManagerView { current: None, last_id: None, last_result: None }),
    {
        ModalManager::new()
    }
}

impl ModalManager {
    /// A manager with no modal and no outcome.
    pub fn new() -> (m: ModalManager)
        ensures
            m@ == (ManagerView { current: None, last_id: None, last_result: None }),
    {
        ModalManager { current: None, last_id: None, last_result: None }
    }

    /// Open `modal`: see `manager_opened`.
    pub fn open(&mut self, modal: Modal)
        ensures
            final(self)@ == manager_opened(old(self)@, modal@),
    {
        let mut existing: Option<Modal> = None;
        std::mem::swap(&mut existing, &mut self.current);
        match existing {
            Some(m) => {
                self.last_id = Some(String::from_str(m.id()));
                self.last_result = Some(ModalResult::Closed);
            },
            None => {},
        }
        let mut modal = modal;
        modal.open();
        self.current = Some(modal);
    }

    /// Close the open modal: see `manager_closed`.
    pub fn close(&mut self)
        ensures
            final(self)@ == manager_closed(old(self)@),
    {
        let mut existing: Option<Modal> = None;
        std::mem::swap(&mut existing, &mut self.current);
        match existing {
            Some(m) => {
                let mut modal = m;
                modal.close();
                self.last_id = Some(String::from_str(modal.id()));
                self.last_result = Some(modal.take_result());
            },
            None => {},
        }
    }

    /// Whether a modal is open.
    pub fn is_open(&self) -> (b: bool)
        ensures
            b == self@.current is Some,
    {
        self.current.is_some()
    }

    /// The identifier of the open modal.
    pub fn current_id(&self) -> (r: Option<&str>)
        ensures
            match self@.current {
                Some(m) => r is Some && r.unwrap()@ == m.id,
                None => r is None,
            },
    {
        match &self.current {
            Some(m) => Some(m.id()),
            None => None,
        }
    }

    /// The open modal, if any.
    pub fn current(&self) -> (r: Option<&Modal>)
        ensures
            match self@.current {
                Some(m) => r is Some && r.unwrap()@ == m,
                None => r is None,
            },
    {
        match &self.current {
            Some(m) => Some(m),
            None => None,
        }
    }

    /// Take the outcome of the last modal closed: see `recorded`; afterwards
    /// nothing is recorded.
    pub fn take_result(&mut self) -> (r: Option<(String, ModalResult)>)
        ensures
            match r {
                Some((id, res)) => recorded(old(self)@) == Some((id@, res@)),
                None => recorded(old(self)@) is None,
            },
            final(self)@ == manager_taken(old(self)@),
    {
        let mut id: Option<String> = None;
        let mut res: Option<ModalResult> = None;
        std::mem::swap(&mut id, &mut self.last_id);
        std::mem::swap(&mut res, &mut self.last_result);
        match (id, res) {
            (Some(i), Some(r)) => Some((i, r)),
            _ => None,
        }
    }

    /// The outcome of the last modal closed, without taking it.
    pub fn result(&self) -> (r: Option<(&str, &ModalResult)>)
        ensures
            match r {
                Some((id, res)) => recorded(self@) == Some((id@, res@)),
                None => recorded(self@) is None,
            },
    {
        match (&self.last_id, &self.last_result) {
            (Some(i), Some(r)) => Some((i.as_str(), r)),
            _ => None,
        }
    }

    /// The identifier of the last modal closed.
    pub fn last_id(&self) -> (r: Option<&str>)
        ensures
            match self@.last_id {
                Some(i) => r is Some && r.unwrap()@ == i,
                None => r is None,
            },
    {
        match &self.last_id {
            Some(i) => Some(i.as_str()),
            None => None,
        }
    }

    /// Handle an event: see `manager_event`. Returns whether a modal was
    /// open (and so took the event).
    pub fn handle_event(&mut self, event: &Event) -> (consumed: bool)
        ensures
            consumed == old(self)@.current is Some,
            final(self)@ == manager_event(old(self)@, *event),
    {
        let mut existing: Option<Modal> = None;
        std::mem::swap(&mut existing, &mut self.current);
        let mut modal = match existing {
            Some(m) => m,
            None => {
                return false;
            },
        };
        let ghost m0 = modal@;
        match event {
            Event::Key(_) => {
                let has_input = modal.input().is_some();
                if modal.focus() == ModalFocus::Input && has_input {
                    let _action = handle_input_keys(event, &mut modal);
                } else {
                    let _action = handle_button_keys(event, &mut modal);
                }
                let _moved = handle_navigation_keys(event, &mut modal, has_input);
            },
            _ => {},
        }
        assert(modal@ == manager_key_spec(m0, *event));
        if modal.is_open() {
            self.current = Some(modal);
        } else {
            self.last_id = Some(String::from_str(modal.id()));
            self.last_result = Some(modal.take_result());
        }
        true
    }
}

} // verus!
