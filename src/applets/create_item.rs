use vstd::prelude::*;
use crate::applets::applet::{
    as_outcome, edit_spec, edit_text, location_field, moved, moves_selection, next_after,
    normalized_comment, parse_location_field, report, from_store, confirmed_as, unit_of, AppState, FormError, Key,
};
use crate::number::{parse_i64, parsed_i64};
use crate::store::{known_location, Inventory, Item, ItemRow, LocationRow};

verus! {

/// The fields and buttons of the item form, in screen order.
#[derive(Clone, Copy, Debug, PartialEq, Eq, Structural)]
pub enum CreateItemSelection {
    Id,
    Name,
    Comment,
    LocationID,
    Cancel,
    Save,
}

impl CreateItemSelection {
    pub open spec fn position(self) -> int {
        match self {
            CreateItemSelection::Id => 0,
            CreateItemSelection::Name => 1,
            CreateItemSelection::Comment => 2,
            CreateItemSelection::LocationID => 3,
            CreateItemSelection::Cancel => 4,
            CreateItemSelection::Save => 5,
        }
    }

    /// The next field or button, wrapping to the first.
    pub fn next(&self) -> (r: Self)
        ensures
            r.position() == (self.position() + 1) % 6,
    {
        match self {
            CreateItemSelection::Id => CreateItemSelection::Name,
            CreateItemSelection::Name => CreateItemSelection::Comment,
            CreateItemSelection::Comment => CreateItemSelection::LocationID,
            CreateItemSelection::LocationID => CreateItemSelection::Cancel,
            CreateItemSelection::Cancel => CreateItemSelection::Save,
            CreateItemSelection::Save => CreateItemSelection::Id,
        }
    }

    /// The previous field or button, wrapping to the last.
    pub fn previous(&self) -> (r: Self)
        ensures
            r.position() == (self.position() + 5) % 6,
    {
        match self {
            CreateItemSelection::Id => CreateItemSelection::Save,
            CreateItemSelection::Name => CreateItemSelection::Id,
            CreateItemSelection::Comment => CreateItemSelection::Name,
            CreateItemSelection::LocationID => CreateItemSelection::Comment,
            CreateItemSelection::Cancel => CreateItemSelection::LocationID,
            CreateItemSelection::Save => CreateItemSelection::Cancel,
        }
    }
}

/// The screen that creates an item from an id, a name, a comment and a location id.
pub struct CreateItemApplet {
    pub next_state: AppState,
    pub cursor_position: usize,
    pub selection: CreateItemSelection,
    pub id: String,
    pub name: String,
    pub comment: String,
    pub location_id: String,
    /// The error of the last failed save, shown in place.
    pub last_error: Option<FormError>,
}

impl CreateItemApplet {
    /// The text of the selected field; empty on a button.
    pub open spec fn selected_text(&self) -> Seq<char> {
        match self.selection {
            CreateItemSelection::Id => self.id@,
            CreateItemSelection::Name => self.name@,
            CreateItemSelection::Comment => self.comment@,
            CreateItemSelection::LocationID => self.location_id@,
            _ => Seq::empty(),
        }
    }

    /// The cursor lies within the selected field.
    pub open spec fn wf(&self) -> bool {
        self.cursor_position <= self.selected_text().len()
    }

    /// The item the form describes, checked against the stored locations and items.
    pub open spec fn validated(
        &self,
        locations: Map<i64, LocationRow>,
        items: Map<i64, ItemRow>,
    ) -> Result<(i64, ItemRow), FormError> {
        match parsed_i64(self.id@) {
            None => Err(FormError::InvalidId),
            Some(id) => if self.name@.len() == 0 {
                Err(FormError::EmptyName)
            } else {
                match location_field(self.location_id@) {
                    Err(e) => Err(e),
                    Ok(l) => if items.contains_key(id) {
                        Err(FormError::IdTaken)
                    } else if !known_location(l, locations) {
                        Err(FormError::UnknownLocation)
                    } else {
                        Ok((id, (self.name@, normalized_comment(self.comment@), l)))
                    },
                }
            },
        }
    }

    /// An empty form with the id field selected.
    pub fn new() -> (r: Self)
        ensures
            r.next_state is NoChange,
            r.id@.len() == 0,
            r.name@.len() == 0,
            r.comment@.len() == 0,
            r.location_id@.len() == 0,
            r.selection == CreateItemSelection::Id,
            r.cursor_position == 0,
            r.last_error is None,
            r.wf(),
    {
        CreateItemApplet {
            next_state: AppState::NoChange,
            cursor_position: 0,
            selection: CreateItemSelection::Id,
            id: String::new(),
            name: String::new(),
            comment: String::new(),
            location_id: String::new(),
            last_error: None,
        }
    }

    /// Validates the form and stores the new item.
    pub fn save_item(&self, db: &mut Inventory) -> (r: Result<(), FormError>)
        ensures
            confirmed_as(r, unit_of(self.validated(old(db).locations(), old(db).items()))),
            r is Ok ==> ({
                let (id, row) = self.validated(old(db).locations(), old(db).items())->Ok_0;
                final(db).items() == old(db).items().insert(id, row)
            }),
            r is Err ==> final(db).items() == old(db).items(),
            final(db).locations() == old(db).locations(),
    {
        let id = match parse_i64(self.id.as_str()) {
            Some(v) => v,
            None => return Err(FormError::InvalidId),
        };
        if self.name.as_str().is_empty() {
            return Err(FormError::EmptyName);
        }
        let location_id = match parse_location_field(self.location_id.as_str()) {
            Ok(l) => l,
            Err(e) => return Err(e),
        };
        match db.lookup_item(id) {
            Err(e) => return Err(from_store(e)),
            Ok(Some(_)) => return Err(FormError::IdTaken),
            Ok(None) => {},
        }
        if let Some(lid) = location_id {
            match db.lookup_location(lid) {
                Err(e) => return Err(from_store(e)),
                Ok(None) => return Err(FormError::UnknownLocation),
                Ok(Some(_)) => {},
            }
        }
        let comment = if self.comment.as_str().is_empty() {
            None
        } else {
            Some(self.comment.clone())
        };
        let item = Item { id, name: self.name.clone(), comment, location_id };
        match db.add_item(&item) {
            Ok(()) => Ok(()),
            Err(e) => Err(from_store(e)),
        }
    }

    /// Handles one key: edits the selected field, moves the selection, cancels or saves.
    pub fn handle_key(&mut self, key: Key, db: &mut Inventory)
        requires
            old(self).wf(),
        ensures
            final(self).wf(),
            final(self).id@ == if old(self).selection is Id {
                edit_spec(old(self).id@, old(self).cursor_position as int, key).0
            } else {
                old(self).id@
            },
            final(self).name@ == if old(self).selection is Name {
                edit_spec(old(self).name@, old(self).cursor_position as int, key).0
            } else {
                old(self).name@
            },
            final(self).comment@ == if old(self).selection is Comment {
                edit_spec(old(self).comment@, old(self).cursor_position as int, key).0
            } else {
                old(self).comment@
            },
            final(self).location_id@ == if old(self).selection is LocationID {
                edit_spec(old(self).location_id@, old(self).cursor_position as int, key).0
            } else {
                old(self).location_id@
            },
            final(self).selection.position() == moved(old(self).selection.position(), key, 6),
            final(self).cursor_position == if moves_selection(key) {
                0
            } else if old(self).selection.position() < 4 {
                edit_spec(old(self).selected_text(), old(self).cursor_position as int, key).1
            } else {
                old(self).cursor_position as int
            },
            key is Esc ==> final(self).next_state is Exit,
            key is Enter && old(self).selection is Cancel ==> final(self).next_state is Exit,
            key is Enter && old(self).selection is Save ==> {
                &&& confirmed_as(
                    as_outcome(final(self).last_error),
                    unit_of(old(self).validated(old(db).locations(), old(db).items())),
                )
                &&& next_after(final(self).last_error, final(self).next_state)
                &&& final(self).last_error is None ==> ({
                    let (id, row) = old(self).validated(old(db).locations(), old(db).items())->Ok_0;
                    final(db).items() == old(db).items().insert(id, row)
                })
                &&& final(self).last_error is Some ==> final(db).items() == old(db).items()
            },
            !(key is Enter && old(self).selection is Save) ==> {
                &&& final(db).items() == old(db).items()
                &&& final(self).last_error == old(self).last_error
            },
            !(key is Esc) && !(key is Enter && old(self).selection.position() >= 4)
                ==> final(self).next_state is NoChange,
            final(db).locations() == old(db).locations(),
    {
        self.next_state = AppState::NoChange;
        match self.selection {
            CreateItemSelection::Id => edit_text(&mut self.id, &mut self.cursor_position, key),
            CreateItemSelection::Name => edit_text(&mut self.name, &mut self.cursor_position, key),
            CreateItemSelection::Comment => edit_text(
                &mut self.comment,
                &mut self.cursor_position,
                key,
            ),
            CreateItemSelection::LocationID => edit_text(
                &mut self.location_id,
                &mut self.cursor_position,
                key,
            ),
            CreateItemSelection::Cancel => {
                if key == Key::Enter {
                    self.next_state = AppState::Exit;
                }
            },
            CreateItemSelection::Save => {
                if key == Key::Enter {
                    match self.save_item(db) {
                        Ok(()) => {
                            self.last_error = None;
                            self.next_state = AppState::Exit;
                        },
                        Err(e) => {
                            self.next_state = report(&e);
                            self.last_error = Some(e);
                        },
                    }
                }
            },
        }
        match key {
            Key::Esc => self.next_state = AppState::Exit,
            Key::Down | Key::Tab => {
                self.selection = self.selection.next();
                self.cursor_position = 0;
            },
            Key::Up => {
                self.selection = self.selection.previous();
                self.cursor_position = 0;
            },
            _ => {},
        }
    }

    /// The transition requested by the last key.
    pub fn get_next_state(&self) -> (r: AppState)
        ensures
            r == self.next_state,
    {
        self.next_state.clone()
    }
}

/// An empty comment is saved as no comment.
pub proof fn lemma_new_item_empty_comment_absent(
    a: CreateItemApplet,
    locations: Map<i64, LocationRow>,
    items: Map<i64, ItemRow>,
)
    requires
        a.comment@.len() == 0,
        a.validated(locations, items) is Ok,
    ensures
        a.validated(locations, items)->Ok_0.1.1 is None,
{
}

} // verus!
