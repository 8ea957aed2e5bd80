use vstd::prelude::*;
use crate::applets::applet::{
    as_outcome, edit_spec, edit_text, from_store, location_field, moved, moves_selection,
    next_after, normalized_comment, parse_location_field, report, confirmed_as, unit_of, AppState,
    FormError, Key,
};
use crate::applets::edit_location::{
    comment_text, lemma_comment_round_trip, shown_comment, stored_comment,
};
use crate::number::{decimal_string, decimal_text, lemma_decimal_round_trip, parsed_i64};
use crate::store::{known_location, text_opt, Inventory, Item, ItemRow, LocationRow};

verus! {

/// The fields and buttons of the item editor, in screen order.
#[derive(Clone, Copy, Debug, PartialEq, Eq, Structural)]
pub enum EditItemSelection {
    Name,
    Comment,
    LocationID,
    Cancel,
    Save,
}

impl EditItemSelection {
    pub open spec fn position(self) -> int {
        match self {
            EditItemSelection::Name => 0,
            EditItemSelection::Comment => 1,
            EditItemSelection::LocationID => 2,
            EditItemSelection::Cancel => 3,
            EditItemSelection::Save => 4,
        }
    }

    /// The next field or button, wrapping to the first.
    pub fn next(&self) -> (r: Self)
        ensures
            r.position() == (self.position() + 1) % 5,
    {
        match self {
            EditItemSelection::Name => EditItemSelection::Comment,
            EditItemSelection::Comment => EditItemSelection::LocationID,
            EditItemSelection::LocationID => EditItemSelection::Cancel,
            EditItemSelection::Cancel => EditItemSelection::Save,
            EditItemSelection::Save => EditItemSelection::Name,
        }
    }

    /// The previous field or button, wrapping to the last.
    pub fn previous(&self) -> (r: Self)
        ensures
            r.position() == (self.position() + 4) % 5,
    {
        match self {
            EditItemSelection::Name => EditItemSelection::Save,
            EditItemSelection::Comment => EditItemSelection::Name,
            EditItemSelection::LocationID => EditItemSelection::Comment,
            EditItemSelection::Cancel => EditItemSelection::LocationID,
            EditItemSelection::Save => EditItemSelection::Cancel,
        }
    }
}

/// The location id field as the editor first shows it.
pub open spec fn shown_location(l: Option<i64>) -> Seq<char> {
    match l {
        Some(v) => decimal_text(v as int),
        None => Seq::empty(),
    }
}

/// The screen that edits the name, comment and location of the item with id `id`.
pub struct EditItemApplet {
    pub next_state: AppState,
    /// The working copy, loaded by `refresh`; its location id is edited in `loc_id_str`.
    pub item: Item,
    pub id: i64,
    pub cursor_position: usize,
    pub selection: EditItemSelection,
    pub loc_id_str: String,
    /// The error of the last failed save, shown in place.
    pub last_error: Option<FormError>,
}

impl EditItemApplet {
    /// The text of the selected field; empty on a button.
    pub open spec fn selected_text(&self) -> Seq<char> {
        match self.selection {
            EditItemSelection::Name => self.item.name@,
            EditItemSelection::Comment => shown_comment(text_opt(self.item.comment)),
            EditItemSelection::LocationID => self.loc_id_str@,
            _ => Seq::empty(),
        }
    }

    /// The cursor lies within the selected field.
    pub open spec fn wf(&self) -> bool {
        self.cursor_position <= self.selected_text().len()
    }

    /// The record the editor would store, checked against the stored locations and items.
    pub open spec fn validated(
        &self,
        locations: Map<i64, LocationRow>,
        items: Map<i64, ItemRow>,
    ) -> Result<(i64, ItemRow), FormError> {
        match location_field(self.loc_id_str@) {
            Err(e) => Err(e),
            Ok(l) => if self.item.name@.len() == 0 {
                Err(FormError::EmptyName)
            } else if !items.contains_key(self.item.id) {
                Err(FormError::UnknownId)
            } else if !known_location(l, locations) {
                Err(FormError::UnknownLocation)
            } else {
                Ok(
                    (
                        self.item.id,
                        (
                            self.item.name@,
                            normalized_comment(shown_comment(text_opt(self.item.comment))),
                            l,
                        ),
                    ),
                )
            },
        }
    }

    /// An editor for item `id`, with nothing loaded yet.
    pub fn new(id: i64) -> (r: Self)
        ensures
            r.next_state is NoChange,
            r.item.id == if id == -1 {
                0
            } else {
                -1
            },
            r.item.name@.len() == 0,
            r.item.comment is None,
            r.item.location_id is None,
            r.id == id,
            r.cursor_position == 0,
            r.selection == EditItemSelection::Name,
            r.loc_id_str@.len() == 0,
            r.last_error is None,
            r.wf(),
    {
        // Any id other than `id` marks the working copy as not loaded yet.
        let placeholder: i64 = if id == -1 {
            0
        } else {
            -1
        };
        EditItemApplet {
            next_state: AppState::NoChange,
            item: Item { id: placeholder, name: String::new(), comment: None, location_id: None },
            id,
            cursor_position: 0,
            selection: EditItemSelection::Name,
            loc_id_str: String::new(),
            last_error: None,
        }
    }

    /// The editor holds the stored row `row` of its item, with the location id written in
    /// decimal and the cursor at the start.
    pub open spec fn loaded(&self, row: ItemRow) -> bool {
        &&& self.item.id == self.id
        &&& self.item.name@ == row.0
        &&& text_opt(self.item.comment) == Some(shown_comment(row.1))
        &&& self.item.location_id == row.2
        &&& self.loc_id_str@ == shown_location(row.2)
        &&& self.cursor_position == 0
    }

    /// What `refresh` does: an editor that has not loaded its item yet loads the stored row when
    /// the store holds it, or records the database fault that prevented the read; a loaded editor
    /// keeps its working copy.
    pub open spec fn refreshed(&self, before: &Self, items: Map<i64, ItemRow>) -> bool {
        let kept = self.item == before.item && self.loc_id_str == before.loc_id_str
            && self.cursor_position == before.cursor_position;
        let faulted = self.last_error matches Some(FormError::Storage(_));
        &&& self.id == before.id
        &&& self.selection == before.selection
        &&& self.next_state == before.next_state
        &&& if before.item.id == before.id {
            kept && self.last_error == before.last_error
        } else if items.contains_key(before.id) {
            (self.loaded(items[before.id]) && self.last_error == before.last_error) || (kept
                && faulted)
        } else {
            kept && (self.last_error == before.last_error || faulted)
        }
    }

    /// Loads item `id` unless it is already loaded; an absent comment is shown empty and the
    /// location id is written in decimal. A failed read is recorded as the error shown.
    pub fn refresh(&mut self, db: &Inventory)
        requires
            old(self).wf(),
        ensures
            final(self).wf(),
            final(self).refreshed(&*old(self), db.items()),
    {
        if self.item.id != self.id {
            match db.lookup_item(self.id) {
                Ok(Some(i)) => {
                    let comment = comment_text(&i.comment);
                    self.loc_id_str = match i.location_id {
                        Some(l) => decimal_string(l),
                        None => String::new(),
                    };
                    self.item = Item {
                        id: i.id,
                        name: i.name,
                        comment: Some(comment),
                        location_id: i.location_id,
                    };
                    self.cursor_position = 0;
                },
                Ok(None) => {},
                Err(e) => {
                    self.last_error = Some(from_store(e));
                },
            }
        }
    }

    /// Validates the working copy and writes it over the stored item.
    pub fn save_item(&self, db: &mut Inventory) -> (r: Result<(), FormError>)
        ensures
            confirmed_as(r, unit_of(self.validated(old(db).locations(), old(db).items()))),
            r is Ok ==> ({
                let (id, row) = self.validated(old(db).locations(), old(db).items())->Ok_0;
                final(db).items() == old(db).items().insert(id, row)
            }),
            r is Err ==> final(db).items() == old(db).items(),
            final(db).locations() == old(db).locations(),
    {
        let location_id = match parse_location_field(self.loc_id_str.as_str()) {
            Ok(l) => l,
            Err(e) => return Err(e),
        };
        if self.item.name.as_str().is_empty() {
            return Err(FormError::EmptyName);
        }
        let item = Item {
            id: self.item.id,
            name: self.item.name.clone(),
            comment: stored_comment(&self.item.comment),
            location_id,
        };
        match db.edit_item(&item) {
            Ok(()) => Ok(()),
            Err(e) => Err(from_store(e)),
        }
    }

    /// Handles one key: edits the selected field, moves the selection, cancels or saves.
    pub fn handle_key(&mut self, key: Key, db: &mut Inventory)
        requires
            old(self).wf(),
        ensures
            final(self).wf(),
            final(self).id == old(self).id,
            final(self).item.id == old(self).item.id,
            final(self).item.location_id == old(self).item.location_id,
            final(self).item.name@ == if old(self).selection is Name {
                edit_spec(old(self).item.name@, old(self).cursor_position as int, key).0
            } else {
                old(self).item.name@
            },
            if old(self).selection is Comment {
                text_opt(final(self).item.comment) == Some(
                    edit_spec(old(self).selected_text(), old(self).cursor_position as int, key).0,
                )
            } else {
                final(self).item.comment == old(self).item.comment
            },
            final(self).loc_id_str@ == if old(self).selection is LocationID {
                edit_spec(old(self).loc_id_str@, old(self).cursor_position as int, key).0
            } else {
                old(self).loc_id_str@
            },
            final(self).selection.position() == moved(old(self).selection.position(), key, 5),
            final(self).cursor_position == if moves_selection(key) {
                0
            } else if old(self).selection.position() < 3 {
                edit_spec(old(self).selected_text(), old(self).cursor_position as int, key).1
            } else {
                old(self).cursor_position as int
            },
            key is Esc ==> final(self).next_state is Exit,
            key is Enter && old(self).selection is Cancel ==> final(self).next_state is Exit,
            key is Enter && old(self).selection is Save ==> {
                &&& confirmed_as(
                    as_outcome(final(self).last_error),
                    unit_of(old(self).validated(old(db).locations(), old(db).items())),
                )
                &&& next_after(final(self).last_error, final(self).next_state)
                &&& final(self).last_error is None ==> ({
                    let (id, row) = old(self).validated(old(db).locations(), old(db).items())->Ok_0;
                    final(db).items() == old(db).items().insert(id, row)
                })
                &&& final(self).last_error is Some ==> final(db).items() == old(db).items()
            },
            !(key is Enter && old(self).selection is Save) ==> {
                &&& final(db).items() == old(db).items()
                &&& final(self).last_error == old(self).last_error
            },
            !(key is Esc) && !(key is Enter && old(self).selection.position() >= 3)
                ==> final(self).next_state is NoChange,
            final(db).locations() == old(db).locations(),
    {
        self.next_state = AppState::NoChange;
        match self.selection {
            EditItemSelection::Name => edit_text(
                &mut self.item.name,
                &mut self.cursor_position,
                key,
            ),
            EditItemSelection::Comment => {
                let mut comment = comment_text(&self.item.comment);
                edit_text(&mut comment, &mut self.cursor_position, key);
                self.item.comment = Some(comment);
            },
            EditItemSelection::LocationID => edit_text(
                &mut self.loc_id_str,
                &mut self.cursor_position,
                key,
            ),
            EditItemSelection::Cancel => {
                if key == Key::Enter {
                    self.next_state = AppState::Exit;
                }
            },
            EditItemSelection::Save => {
                if key == Key::Enter {
                    match self.save_item(db) {
                        Ok(()) => {
                            self.last_error = None;
                            self.next_state = AppState::Exit;
                        },
                        Err(e) => {
                            self.next_state = report(&e);
                            self.last_error = Some(e);
                        },
                    }
                }
            },
        }
        match key {
            Key::Esc => self.next_state = AppState::Exit,
            Key::Down | Key::Tab => {
                self.selection = self.selection.next();
                self.cursor_position = 0;
            },
            Key::Up => {
                self.selection = self.selection.previous();
                self.cursor_position = 0;
            },
            _ => {},
        }
    }

    /// The transition requested by the last key.
    pub fn get_next_state(&self) -> (r: AppState)
        ensures
            r == self.next_state,
    {
        self.next_state.clone()
    }
}

/// Fields round-trip: an editor holding a stored item, saved without change, writes the same
/// row back (for a non-empty name, a comment that is absent or non-empty, and a location that
/// is still stored); the location id survives being written in decimal and read back.
pub proof fn lemma_unchanged_item_round_trip(
    a: EditItemApplet,
    locations: Map<i64, LocationRow>,
    items: Map<i64, ItemRow>,
)
    requires
        items.contains_key(a.item.id),
        a.item.name@ == items[a.item.id].0,
        text_opt(a.item.comment) == Some(shown_comment(items[a.item.id].1)),
        a.loc_id_str@ == shown_location(items[a.item.id].2),
        items[a.item.id].0.len() > 0,
        items[a.item.id].1 != Some(Seq::<char>::empty()),
        known_location(items[a.item.id].2, locations),
    ensures
        a.validated(locations, items) is Ok,
        a.validated(locations, items)->Ok_0 == (a.item.id, items[a.item.id]),
{
    let row = items[a.item.id];
    lemma_comment_round_trip(row.1);
    if let Some(v) = row.2 {
        lemma_decimal_round_trip(v);
        if decimal_text(v as int).len() == 0 {
            assert(parsed_i64(decimal_text(v as int)) is None);
        }
    }
}

/// An empty comment is saved as no comment.
pub proof fn lemma_item_empty_comment_absent(
    a: EditItemApplet,
    locations: Map<i64, LocationRow>,
    items: Map<i64, ItemRow>,
)
    requires
        shown_comment(text_opt(a.item.comment)).len() == 0,
        a.validated(locations, items) is Ok,
    ensures
        a.validated(locations, items)->Ok_0.1.1 is None,
{
}

/// Opening an editor on a stored item and saving it without change rewrites the same row: when
/// refresh read the store without a fault, the editor holds the row, and its record is that row
/// (for a non-empty name, a comment that is absent or non-empty, and a location still stored).
pub proof fn lemma_refreshed_item_round_trip(
    before: EditItemApplet,
    after: EditItemApplet,
    locations: Map<i64, LocationRow>,
    items: Map<i64, ItemRow>,
)
    requires
        after.refreshed(&before, items),
        before.item.id != before.id,
        before.last_error is None,
        after.last_error is None,
        items.contains_key(before.id),
        items[before.id].0.len() > 0,
        items[before.id].1 != Some(Seq::<char>::empty()),
        known_location(items[before.id].2, locations),
    ensures
        after.validated(locations, items) is Ok,
        after.validated(locations, items)->Ok_0 == (before.id, items[before.id]),
{
    lemma_unchanged_item_round_trip(after, locations, items);
}

} // verus!
