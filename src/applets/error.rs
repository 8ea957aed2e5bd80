use vstd::prelude::*;
use crate::applets::applet::{AppState, Key};

verus! {

/// The only button of the error screen.
#[derive(Clone, Copy, Debug, PartialEq, Eq, Structural)]
pub enum ErrorSelection {
    Accept,
}

/// The screen that reports a failure of the database until the user acknowledges it.
pub struct ErrorApplet {
    pub next_state: AppState,
    pub error_text: String,
    pub selection: ErrorSelection,
}

impl ErrorApplet {
    /// An error screen showing `text`.
    pub fn new(text: String) -> (r: Self)
        ensures
            r.next_state is NoChange,
            r.error_text == text,
            r.selection == ErrorSelection::Accept,
    {
        ErrorApplet { next_state: AppState::NoChange, error_text: text, selection: ErrorSelection::Accept }
    }

    /// Enter, Esc or `q` acknowledge the error and close the screen; other keys do nothing.
    pub fn handle_key(&mut self, key: Key)
        ensures
            final(self).next_state is Exit <==> (key is Enter || key is Esc || key == Key::Char('q')),
            final(self).next_state is Exit || final(self).next_state is NoChange,
            final(self).error_text == old(self).error_text,
            final(self).selection == old(self).selection,
    {
        self.next_state = match key {
            Key::Enter | Key::Esc | Key::Char('q') => AppState::Exit,
            _ => AppState::NoChange,
        };
    }

    /// The transition requested by the last key.
    pub fn get_next_state(&self) -> (r: AppState)
        ensures
            r == self.next_state,
    {
        self.next_state.clone()
    }
}

} // verus!
