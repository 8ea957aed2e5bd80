use vstd::prelude::*;
use crate::applets::applet::{
    as_outcome, edit_spec, edit_text, from_store, moved, moves_selection, next_after,
    normalized_comment, report, confirmed_as, unit_of, AppState, FormError, Key,
};
use crate::store::{text_opt, Inventory, Location, LocationRow};

verus! {

/// The fields and buttons of the location editor, in screen order.
#[derive(Clone, Copy, Debug, PartialEq, Eq, Structural)]
pub enum EditLocationSelection {
    Name,
    Comment,
    Cancel,
    Save,
}

impl EditLocationSelection {
    pub open spec fn position(self) -> int {
        match self {
            EditLocationSelection::Name => 0,
            EditLocationSelection::Comment => 1,
            EditLocationSelection::Cancel => 2,
            EditLocationSelection::Save => 3,
        }
    }

    /// The next field or button, wrapping to the first.
    pub fn next(&self) -> (r: Self)
        ensures
            r.position() == (self.position() + 1) % 4,
    {
        match self {
            EditLocationSelection::Name => EditLocationSelection::Comment,
            EditLocationSelection::Comment => EditLocationSelection::Cancel,
            EditLocationSelection::Cancel => EditLocationSelection::Save,
            EditLocationSelection::Save => EditLocationSelection::Name,
        }
    }

    /// The previous field or button, wrapping to the last.
    pub fn previous(&self) -> (r: Self)
        ensures
            r.position() == (self.position() + 3) % 4,
    {
        match self {
            EditLocationSelection::Name => EditLocationSelection::Save,
            EditLocationSelection::Comment => EditLocationSelection::Name,
            EditLocationSelection::Cancel => EditLocationSelection::Comment,
            EditLocationSelection::Save => EditLocationSelection::Cancel,
        }
    }
}

/// The comment as the editor shows it: an absent comment is empty.
pub open spec fn shown_comment(c: Option<Seq<char>>) -> Seq<char> {
    match c {
        Some(s) => s,
        None => Seq::empty(),
    }
}

pub(crate) fn comment_text(c: &Option<String>) -> (r: String)
    ensures
        r@ == shown_comment(text_opt(*c)),
{
    match c {
        Some(s) => s.clone(),
        None => String::new(),
    }
}

pub(crate) fn stored_comment(c: &Option<String>) -> (r: Option<String>)
    ensures
        text_opt(r) == normalized_comment(shown_comment(text_opt(*c))),
{
    match c {
        Some(s) => if s.as_str().is_empty() {
            None
        } else {
            Some(s.clone())
        },
        None => None,
    }
}

/// The screen that edits the name and comment of the location with id `id`.
pub struct EditLocationApplet {
    pub next_state: AppState,
    /// The working copy, loaded by `refresh`.
    pub loc: Location,
    pub id: i64,
    pub cursor_position: usize,
    pub selection: EditLocationSelection,
    /// The error of the last failed save, shown in place.
    pub last_error: Option<FormError>,
}

impl EditLocationApplet {
    /// The text of the selected field; empty on a button.
    pub open spec fn selected_text(&self) -> Seq<char> {
        match self.selection {
            EditLocationSelection::Name => self.loc.name@,
            EditLocationSelection::Comment => shown_comment(text_opt(self.loc.comment)),
            _ => Seq::empty(),
        }
    }

    /// The cursor lies within the selected field.
    pub open spec fn wf(&self) -> bool {
        self.cursor_position <= self.selected_text().len()
    }

    /// The record the editor would store, checked against the stored locations.
    pub open spec fn validated(&self, locations: Map<i64, LocationRow>) -> Result<
        (i64, LocationRow),
        FormError,
    > {
        if self.loc.name@.len() == 0 {
            Err(FormError::EmptyName)
        } else if !locations.contains_key(self.loc.id) {
            Err(FormError::UnknownId)
        } else {
            Ok(
                (
                    self.loc.id,
                    (self.loc.name@, normalized_comment(shown_comment(text_opt(self.loc.comment)))),
                ),
            )
        }
    }

    /// An editor for location `id`, with nothing loaded yet.
    pub fn new(id: i64) -> (r: Self)
        ensures
            r.next_state is NoChange,
            r.loc.id == if id == -1 {
                0
            } else {
                -1
            },
            r.loc.name@.len() == 0,
            r.loc.comment is None,
            r.id == id,
            r.cursor_position == 0,
            r.selection == EditLocationSelection::Name,
            r.last_error is None,
            r.wf(),
    {
        // Any id other than `id` marks the working copy as not loaded yet.
        let placeholder: i64 = if id == -1 {
            0
        } else {
            -1
        };
        EditLocationApplet {
            next_state: AppState::NoChange,
            loc: Location { id: placeholder, name: String::new(), comment: None },
            id,
            cursor_position: 0,
            selection: EditLocationSelection::Name,
            last_error: None,
        }
    }

    /// The editor holds the stored row `row` of its location, with the cursor at the start.
    pub open spec fn loaded(&self, row: LocationRow) -> bool {
        &&& self.loc.id == self.id
        &&& self.loc.name@ == row.0
        &&& text_opt(self.loc.comment) == Some(shown_comment(row.1))
        &&& self.cursor_position == 0
    }

    /// What `refresh` does: an editor that has not loaded its location yet loads the stored row
    /// when the store holds it, or records the database fault that prevented the read; a loaded
    /// editor keeps its working copy.
    pub open spec fn refreshed(&self, before: &Self, locations: Map<i64, LocationRow>) -> bool {
        let kept = self.loc == before.loc && self.cursor_position == before.cursor_position;
        let faulted = self.last_error matches Some(FormError::Storage(_));
        &&& self.id == before.id
        &&& self.selection == before.selection
        &&& self.next_state == before.next_state
        &&& if before.loc.id == before.id {
            kept && self.last_error == before.last_error
        } else if locations.contains_key(before.id) {
            (self.loaded(locations[before.id]) && self.last_error == before.last_error) || (kept
                && faulted)
        } else {
            kept && (self.last_error == before.last_error || faulted)
        }
    }

    /// Loads location `id` unless it is already loaded; an absent comment is shown empty. A
    /// failed read is recorded as the error shown.
    pub fn refresh(&mut self, db: &Inventory)
        requires
            old(self).wf(),
        ensures
            final(self).wf(),
            final(self).refreshed(&*old(self), db.locations()),
    {
        if self.loc.id != self.id {
            match db.lookup_location(self.id) {
                Ok(Some(l)) => {
                    let comment = comment_text(&l.comment);
                    self.loc = Location { id: l.id, name: l.name, comment: Some(comment) };
                    self.cursor_position = 0;
                },
                Ok(None) => {},
                Err(e) => {
                    self.last_error = Some(from_store(e));
                },
            }
        }
    }

    /// Validates the working copy and writes it over the stored location.
    pub fn save_location(&self, db: &mut Inventory) -> (r: Result<(), FormError>)
        ensures
            confirmed_as(r, unit_of(self.validated(old(db).locations()))),
            r is Ok ==> ({
                let (id, row) = self.validated(old(db).locations())->Ok_0;
                final(db).locations() == old(db).locations().insert(id, row)
            }),
            r is Err ==> final(db).locations() == old(db).locations(),
            final(db).items() == old(db).items(),
    {
        if self.loc.name.as_str().is_empty() {
            return Err(FormError::EmptyName);
        }
        let location = Location {
            id: self.loc.id,
            name: self.loc.name.clone(),
            comment: stored_comment(&self.loc.comment),
        };
        match db.edit_location(&location) {
            Ok(()) => Ok(()),
            Err(e) => Err(from_store(e)),
        }
    }

    /// Handles one key: edits the selected field, moves the selection, cancels or saves.
    pub fn handle_key(&mut self, key: Key, db: &mut Inventory)
        requires
            old(self).wf(),
        ensures
            final(self).wf(),
            final(self).id == old(self).id,
            final(self).loc.id == old(self).loc.id,
            final(self).loc.name@ == if old(self).selection is Name {
                edit_spec(old(self).loc.name@, old(self).cursor_position as int, key).0
            } else {
                old(self).loc.name@
            },
            if old(self).selection is Comment {
                text_opt(final(self).loc.comment) == Some(
                    edit_spec(old(self).selected_text(), old(self).cursor_position as int, key).0,
                )
            } else {
                final(self).loc.comment == old(self).loc.comment
            },
            final(self).selection.position() == moved(old(self).selection.position(), key, 4),
            final(self).cursor_position == if moves_selection(key) {
                0
            } else if old(self).selection.position() < 2 {
                edit_spec(old(self).selected_text(), old(self).cursor_position as int, key).1
            } else {
                old(self).cursor_position as int
            },
            key is Esc ==> final(self).next_state is Exit,
            key is Enter && old(self).selection is Cancel ==> final(self).next_state is Exit,
            key is Enter && old(self).selection is Save ==> {
                &&& confirmed_as(
                    as_outcome(final(self).last_error),
                    unit_of(old(self).validated(old(db).locations())),
                )
                &&& next_after(final(self).last_error, final(self).next_state)
                &&& final(self).last_error is None ==> ({
                    let (id, row) = old(self).validated(old(db).locations())->Ok_0;
                    final(db).locations() == old(db).locations().insert(id, row)
                })
                &&& final(self).last_error is Some ==> final(db).locations() == old(db).locations()
            },
            !(key is Enter && old(self).selection is Save) ==> {
                &&& final(db).locations() == old(db).locations()
                &&& final(self).last_error == old(self).last_error
            },
            !(key is Esc) && !(key is Enter && old(self).selection.position() >= 2)
                ==> final(self).next_state is NoChange,
            final(db).items() == old(db).items(),
    {
        self.next_state = AppState::NoChange;
        match self.selection {
            EditLocationSelection::Name => edit_text(
                &mut self.loc.name,
                &mut self.cursor_position,
                key,
            ),
            EditLocationSelection::Comment => {
                let mut comment = comment_text(&self.loc.comment);
                edit_text(&mut comment, &mut self.cursor_position, key);
                self.loc.comment = Some(comment);
            },
            EditLocationSelection::Cancel => {
                if key == Key::Enter {
                    self.next_state = AppState::Exit;
                }
            },
            EditLocationSelection::Save => {
                if key == Key::Enter {
                    match self.save_location(db) {
                        Ok(()) => {
                            self.last_error = None;
                            self.next_state = AppState::Exit;
                        },
                        Err(e) => {
                            self.next_state = report(&e);
                            self.last_error = Some(e);
                        },
                    }
                }
            },
        }
        match key {
            Key::Esc => self.next_state = AppState::Exit,
            Key::Down | Key::Tab => {
                self.selection = self.selection.next();
                self.cursor_position = 0;
            },
            Key::Up => {
                self.selection = self.selection.previous();
                self.cursor_position = 0;
            },
            _ => {},
        }
    }

    /// The transition requested by the last key.
    pub fn get_next_state(&self) -> (r: AppState)
        ensures
            r == self.next_state,
    {
        self.next_state.clone()
    }
}

/// Comments round-trip: an editor holding a stored location, saved without change, writes the
/// same row back (for a non-empty name and a comment that is absent or non-empty).
pub proof fn lemma_unchanged_location_round_trip(
    a: EditLocationApplet,
    locations: Map<i64, LocationRow>,
)
    requires
        locations.contains_key(a.loc.id),
        a.loc.name@ == locations[a.loc.id].0,
        text_opt(a.loc.comment) == Some(shown_comment(locations[a.loc.id].1)),
        locations[a.loc.id].0.len() > 0,
        locations[a.loc.id].1 != Some(Seq::<char>::empty()),
    ensures
        a.validated(locations) is Ok,
        a.validated(locations)->Ok_0 == (a.loc.id, locations[a.loc.id]),
{
    lemma_comment_round_trip(locations[a.loc.id].1);
}

/// An empty comment is saved as no comment.
pub proof fn lemma_location_empty_comment_absent(
    a: EditLocationApplet,
    locations: Map<i64, LocationRow>,
)
    requires
        shown_comment(text_opt(a.loc.comment)).len() == 0,
        a.validated(locations) is Ok,
    ensures
        a.validated(locations)->Ok_0.1.1 is None,
{
}

/// Showing a comment and normalizing it again gives it back, unless it was present and empty.
pub proof fn lemma_comment_round_trip(c: Option<Seq<char>>)
    requires
        c != Some(Seq::<char>::empty()),
    ensures
        normalized_comment(shown_comment(c)) == c,
{
    if let Some(s) = c {
        if s.len() == 0 {
            assert(s =~= Seq::<char>::empty());
        }
    }
}

/// Opening an editor on a stored location and saving it without change rewrites the same row:
/// when refresh read the store without a fault, the editor holds the row, and its record is
/// that row (for a non-empty name and a comment that is absent or non-empty).
pub proof fn lemma_refreshed_location_round_trip(
    before: EditLocationApplet,
    after: EditLocationApplet,
    locations: Map<i64, LocationRow>,
)
    requires
        after.refreshed(&before, locations),
        before.loc.id != before.id,
        before.last_error is None,
        after.last_error is None,
        locations.contains_key(before.id),
        locations[before.id].0.len() > 0,
        locations[before.id].1 != Some(Seq::<char>::empty()),
    ensures
        after.validated(locations) is Ok,
        after.validated(locations)->Ok_0 == (before.id, locations[before.id]),
{
    lemma_unchanged_location_round_trip(after, locations);
}

} // verus!
