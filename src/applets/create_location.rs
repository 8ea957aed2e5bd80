use vstd::prelude::*;
use crate::applets::applet::{
    as_outcome, edit_spec, edit_text, from_store, moved, moves_selection, next_after, normalized_comment, report,
    confirmed_as, unit_of, AppState, FormError, Key,
};
use crate::number::{parse_i64, parsed_i64};
use crate::store::{Inventory, Location, LocationRow};

verus! {

/// The fields and buttons of the location form, in screen order.
#[derive(Clone, Copy, Debug, PartialEq, Eq, Structural)]
pub enum CreateLocationSelection {
    Id,
    Name,
    Comment,
    Cancel,
    Save,
}

impl CreateLocationSelection {
    pub open spec fn position(self) -> int {
        match self {
            CreateLocationSelection::Id => 0,
            CreateLocationSelection::Name => 1,
            CreateLocationSelection::Comment => 2,
            CreateLocationSelection::Cancel => 3,
            CreateLocationSelection::Save => 4,
        }
    }

    /// The next field or button, wrapping to the first.
    pub fn next(&self) -> (r: Self)
        ensures
            r.position() == (self.position() + 1) % 5,
    {
        match self {
            CreateLocationSelection::Id => CreateLocationSelection::Name,
            CreateLocationSelection::Name => CreateLocationSelection::Comment,
            CreateLocationSelection::Comment => CreateLocationSelection::Cancel,
            CreateLocationSelection::Cancel => CreateLocationSelection::Save,
            CreateLocationSelection::Save => CreateLocationSelection::Id,
        }
    }

    /// The previous field or button, wrapping to the last.
    pub fn previous(&self) -> (r: Self)
        ensures
            r.position() == (self.position() + 4) % 5,
    {
        match self {
            CreateLocationSelection::Id => CreateLocationSelection::Save,
            CreateLocationSelection::Name => CreateLocationSelection::Id,
            CreateLocationSelection::Comment => CreateLocationSelection::Name,
            CreateLocationSelection::Cancel => CreateLocationSelection::Comment,
            CreateLocationSelection::Save => CreateLocationSelection::Cancel,
        }
    }
}

/// The screen that creates a location from an id, a name and a comment.
pub struct CreateLocationApplet {
    pub next_state: AppState,
    pub id: String,
    pub name: String,
    pub comment: String,
    pub selection: CreateLocationSelection,
    pub cursor_position: usize,
    /// The error of the last failed save, shown in place.
    pub last_error: Option<FormError>,
}

impl CreateLocationApplet {
    /// The text of the selected field; empty on a button.
    pub open spec fn selected_text(&self) -> Seq<char> {
        match self.selection {
            CreateLocationSelection::Id => self.id@,
            CreateLocationSelection::Name => self.name@,
            CreateLocationSelection::Comment => self.comment@,
            _ => Seq::empty(),
        }
    }

    /// The cursor lies within the selected field.
    pub open spec fn wf(&self) -> bool {
        self.cursor_position <= self.selected_text().len()
    }

    /// The location the form describes, checked against the stored locations.
    pub open spec fn validated(&self, locations: Map<i64, LocationRow>) -> Result<
        (i64, LocationRow),
        FormError,
    > {
        match parsed_i64(self.id@) {
            None => Err(FormError::InvalidId),
            Some(id) => if self.name@.len() == 0 {
                Err(FormError::EmptyName)
            } else if locations.contains_key(id) {
                Err(FormError::IdTaken)
            } else {
                Ok((id, (self.name@, normalized_comment(self.comment@))))
            },
        }
    }

    /// An empty form with the id field selected.
    pub fn new() -> (r: Self)
        ensures
            r.next_state is NoChange,
            r.id@.len() == 0,
            r.name@.len() == 0,
            r.comment@.len() == 0,
            r.selection == CreateLocationSelection::Id,
            r.cursor_position == 0,
            r.last_error is None,
            r.wf(),
    {
        CreateLocationApplet {
            next_state: AppState::NoChange,
            id: String::new(),
            name: String::new(),
            comment: String::new(),
            selection: CreateLocationSelection::Id,
            cursor_position: 0,
            last_error: None,
        }
    }

    /// Validates the form and stores the new location.
    pub fn save_location(&self, db: &mut Inventory) -> (r: Result<(), FormError>)
        ensures
            confirmed_as(r, unit_of(self.validated(old(db).locations()))),
            r is Ok ==> ({
                let (id, row) = self.validated(old(db).locations())->Ok_0;
                final(db).locations() == old(db).locations().insert(id, row)
            }),
            r is Err ==> final(db).locations() == old(db).locations(),
            final(db).items() == old(db).items(),
    {
        let id = match parse_i64(self.id.as_str()) {
            Some(v) => v,
            None => return Err(FormError::InvalidId),
        };
        if self.name.as_str().is_empty() {
            return Err(FormError::EmptyName);
        }
        match db.lookup_location(id) {
            Err(e) => return Err(from_store(e)),
            Ok(Some(_)) => return Err(FormError::IdTaken),
            Ok(None) => {},
        }
        let comment = if self.comment.as_str().is_empty() {
            None
        } else {
            Some(self.comment.clone())
        };
        let location = Location { id, name: self.name.clone(), comment };
        match db.add_location(&location) {
            Ok(()) => Ok(()),
            Err(e) => Err(from_store(e)),
        }
    }

    /// Handles one key: edits the selected field, moves the selection, cancels or saves.
    pub fn handle_key(&mut self, key: Key, db: &mut Inventory)
        requires
            old(self).wf(),
        ensures
            final(self).wf(),
            final(self).id@ == if old(self).selection is Id {
                edit_spec(old(self).id@, old(self).cursor_position as int, key).0
            } else {
                old(self).id@
            },
            final(self).name@ == if old(self).selection is Name {
                edit_spec(old(self).name@, old(self).cursor_position as int, key).0
            } else {
                old(self).name@
            },
            final(self).comment@ == if old(self).selection is Comment {
                edit_spec(old(self).comment@, old(self).cursor_position as int, key).0
            } else {
                old(self).comment@
            },
            final(self).selection.position() == moved(old(self).selection.position(), key, 5),
            final(self).cursor_position == if moves_selection(key) {
                0
            } else if old(self).selection.position() < 3 {
                edit_spec(old(self).selected_text(), old(self).cursor_position as int, key).1
            } else {
                old(self).cursor_position as int
            },
            key is Esc ==> final(self).next_state is Exit,
            key is Enter && old(self).selection is Cancel ==> final(self).next_state is Exit,
            key is Enter && old(self).selection is Save ==> {
                &&& confirmed_as(
                    as_outcome(final(self).last_error),
                    unit_of(old(self).validated(old(db).locations())),
                )
                &&& next_after(final(self).last_error, final(self).next_state)
                &&& final(self).last_error is None ==> ({
                    let (id, row) = old(self).validated(old(db).locations())->Ok_0;
                    final(db).locations() == old(db).locations().insert(id, row)
                })
                &&& final(self).last_error is Some ==> final(db).locations() == old(db).locations()
            },
            !(key is Enter && old(self).selection is Save) ==> {
                &&& final(db).locations() == old(db).locations()
                &&& final(self).last_error == old(self).last_error
            },
            !(key is Esc) && !(key is Enter && old(self).selection.position() >= 3)
                ==> final(self).next_state is NoChange,
            final(db).items() == old(db).items(),
    {
        self.next_state = AppState::NoChange;
        match self.selection {
            CreateLocationSelection::Id => edit_text(&mut self.id, &mut self.cursor_position, key),
            CreateLocationSelection::Name => edit_text(
                &mut self.name,
                &mut self.cursor_position,
                key,
            ),
            CreateLocationSelection::Comment => edit_text(
                &mut self.comment,
                &mut self.cursor_position,
                key,
            ),
            CreateLocationSelection::Cancel => {
                if key == Key::Enter {
                    self.next_state = AppState::Exit;
                }
            },
            CreateLocationSelection::Save => {
                if key == Key::Enter {
                    match self.save_location(db) {
                        Ok(()) => {
                            self.last_error = None;
                            self.next_state = AppState::Exit;
                        },
                        Err(e) => {
                            self.next_state = report(&e);
                            self.last_error = Some(e);
                        },
                    }
                }
            },
        }
        match key {
            Key::Esc => self.next_state = AppState::Exit,
            Key::Down | Key::Tab => {
                self.selection = self.selection.next();
                self.cursor_position = 0;
            },
            Key::Up => {
                self.selection = self.selection.previous();
                self.cursor_position = 0;
            },
            _ => {},
        }
    }

    /// The transition requested by the last key.
    pub fn get_next_state(&self) -> (r: AppState)
        ensures
            r == self.next_state,
    {
        self.next_state.clone()
    }
}

/// An empty comment is saved as no comment.
pub proof fn lemma_new_location_empty_comment_absent(
    a: CreateLocationApplet,
    locations: Map<i64, LocationRow>,
)
    requires
        a.comment@.len() == 0,
        a.validated(locations) is Ok,
    ensures
        a.validated(locations)->Ok_0.1.1 is None,
{
}

} // verus!
