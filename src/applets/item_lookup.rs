use vstd::prelude::*;
use crate::applets::applet::{
    as_outcome, edit_spec, edit_text, from_store, report, confirmed_as, unit_of, AppState, FormError,
    Key,
};
use crate::number::{parse_i64, parsed_i64};
use crate::store::{Inventory, ItemRow};

verus! {

/// The screen that asks for the id of an item to edit.
pub struct ItemLookupApplet {
    pub next_state: AppState,
    pub cursor_position: usize,
    pub id: String,
    /// The error of the last failed lookup, shown in place.
    pub last_error: Option<FormError>,
}

impl ItemLookupApplet {
    /// The cursor lies within the id field.
    pub open spec fn wf(&self) -> bool {
        self.cursor_position <= self.id@.len()
    }

    /// The id the field names, checked against the stored items.
    pub open spec fn found(&self, items: Map<i64, ItemRow>) -> Result<i64, FormError> {
        match parsed_i64(self.id@) {
            None => Err(FormError::InvalidId),
            Some(id) => if items.contains_key(id) {
                Ok(id)
            } else {
                Err(FormError::UnknownId)
            },
        }
    }

    /// An empty id field.
    pub fn new() -> (r: Self)
        ensures
            r.next_state is NoChange,
            r.cursor_position == 0,
            r.id@.len() == 0,
            r.last_error is None,
            r.wf(),
    {
        ItemLookupApplet {
            next_state: AppState::NoChange,
            cursor_position: 0,
            id: String::new(),
            last_error: None,
        }
    }

    /// Checks the id field; on success asks for the editor of that item.
    pub fn find_item(&mut self, db: &Inventory) -> (r: Result<(), FormError>)
        ensures
            confirmed_as(r, unit_of(old(self).found(db.items()))),
            r is Ok ==> final(self).next_state == AppState::EditItem(
                old(self).found(db.items())->Ok_0,
            ),
            r is Err ==> final(self).next_state == old(self).next_state,
            final(self).id == old(self).id,
            final(self).cursor_position == old(self).cursor_position,
            final(self).last_error == old(self).last_error,
    {
        let id = match parse_i64(self.id.as_str()) {
            Some(v) => v,
            None => return Err(FormError::InvalidId),
        };
        match db.lookup_item(id) {
            Err(e) => Err(from_store(e)),
            Ok(None) => Err(FormError::UnknownId),
            Ok(Some(_)) => {
                self.next_state = AppState::EditItem(id);
                Ok(())
            },
        }
    }

    /// Handles one key: edits the id field, looks the id up on Enter, closes on Esc.
    pub fn handle_key(&mut self, key: Key, db: &Inventory)
        requires
            old(self).wf(),
        ensures
            final(self).wf(),
            final(self).id@ == edit_spec(old(self).id@, old(self).cursor_position as int, key).0,
            final(self).cursor_position == edit_spec(
                old(self).id@,
                old(self).cursor_position as int,
                key,
            ).1,
            key is Esc ==> final(self).next_state is Exit,
            key is Enter ==> {
                &&& confirmed_as(
                    as_outcome(final(self).last_error),
                    unit_of(old(self).found(db.items())),
                )
                &&& final(self).last_error is None ==> final(self).next_state
                    == AppState::EditItem(old(self).found(db.items())->Ok_0)
                &&& final(self).last_error matches Some(e) ==> if e is Storage {
                    final(self).next_state is Error
                } else {
                    final(self).next_state is NoChange
                }
            },
            !(key is Enter) ==> final(self).last_error == old(self).last_error,
            !(key is Esc) && !(key is Enter) ==> final(self).next_state is NoChange,
    {
        self.next_state = AppState::NoChange;
        match key {
            Key::Esc => self.next_state = AppState::Exit,
            Key::Enter => match self.find_item(db) {
                Ok(()) => self.last_error = None,
                Err(e) => {
                    self.next_state = report(&e);
                    self.last_error = Some(e);
                },
            },
            _ => edit_text(&mut self.id, &mut self.cursor_position, key),
        }
    }

    /// The transition requested by the last key.
    pub fn get_next_state(&self) -> (r: AppState)
        ensures
            r == self.next_state,
    {
        self.next_state.clone()
    }
}

} // verus!
