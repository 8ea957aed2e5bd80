use vstd::prelude::*;
use crate::applets::applet::{edit_spec, edit_text, AppState, Key, TableCursor};
use crate::store::{location_matches, lists_locations, Inventory, Location, LocationRow};

verus! {

/// The screen that lists the locations matching a live search term.
pub struct ListLocationsApplet {
    pub table_state: TableCursor,
    /// The locations shown, as last read from the store.
    pub locations: Vec<Location>,
    pub next_state: AppState,
    pub search: String,
    pub cursor_position: usize,
    /// The last read of the store failed, so the empty list stands for an error.
    pub read_failed: bool,
}

impl Default for ListLocationsApplet {
    fn default() -> (r: Self)
        ensures
            r.table_state == (TableCursor { row: 0, column: 0 }),
            r.locations@.len() == 0,
            r.next_state is NoChange,
            r.search@.len() == 0,
            r.cursor_position == 0,
            !r.read_failed,
    {
        ListLocationsApplet {
            table_state: TableCursor { row: 0, column: 0 },
            locations: Vec::new(),
            next_state: AppState::NoChange,
            search: String::new(),
            cursor_position: 0,
            read_failed: false,
        }
    }
}

impl ListLocationsApplet {
    /// The cursors lie within the table and the search field.
    pub open spec fn wf(&self) -> bool {
        &&& self.table_state.fits(self.locations@.len() as int, 3)
        &&& self.cursor_position <= self.search@.len()
    }

    /// The locations shown are those of the store that match the search term; when the store
    /// could not be read, none are shown and the failure is flagged.
    pub open spec fn shows(&self, locations: Map<i64, LocationRow>) -> bool {
        if self.read_failed {
            self.locations@.len() == 0
        } else {
            lists_locations(
                self.locations@,
                locations,
                (|row: LocationRow| location_matches(self.search@, row)),
            )
        }
    }

    /// What `refresh` does: the list is read again for the same search term; the highlighted
    /// row is brought back inside the new list.
    pub open spec fn refreshed(&self, before: &Self, locations: Map<i64, LocationRow>) -> bool {
        &&& self.shows(locations)
        &&& self.search == before.search
        &&& self.cursor_position == before.cursor_position
        &&& self.next_state == before.next_state
        &&& self.table_state.column == before.table_state.column
        &&& self.table_state.row == if before.table_state.row < self.locations@.len() {
            before.table_state.row as int
        } else if self.locations@.len() == 0 {
            0
        } else {
            self.locations@.len() - 1
        }
    }

    /// Reads the locations that match the search term.
    pub fn refresh(&mut self, db: &Inventory)
        requires
            old(self).wf(),
        ensures
            final(self).wf(),
            final(self).refreshed(&*old(self), db.locations()),
    {
        match db.search_locations(self.search.as_str()) {
            Ok(v) => {
                self.locations = v;
                self.read_failed = false;
            },
            Err(_) => {
                self.locations = Vec::new();
                self.read_failed = true;
            },
        }
        let n = self.locations.len();
        self.table_state.clamp(n);
    }

    /// Handles one key: arrows move the highlight, Enter edits the highlighted location,
    /// typing and Backspace change the search term, Esc closes the screen.
    pub fn handle_key(&mut self, key: Key, db: &Inventory)
        requires
            old(self).wf(),
        ensures
            final(self).wf(),
            key is Esc ==> final(self).next_state is Exit,
            key is Enter && old(self).table_state.row < old(self).locations@.len()
                ==> final(self).next_state == AppState::EditLocation(
                old(self).locations@[old(self).table_state.row as int].id,
            ),
            !(key is Esc) && !(key is Enter && old(self).table_state.row
                < old(self).locations@.len()) ==> final(self).next_state is NoChange,
            key is Char || key is Backspace ==> {
                &&& final(self).search@ == edit_spec(
                    old(self).search@,
                    old(self).cursor_position as int,
                    key,
                ).0
                &&& final(self).cursor_position == edit_spec(
                    old(self).search@,
                    old(self).cursor_position as int,
                    key,
                ).1
                &&& final(self).shows(db.locations())
            },
            !(key is Char || key is Backspace) ==> {
                &&& final(self).search == old(self).search
                &&& final(self).locations == old(self).locations
                &&& final(self).read_failed == old(self).read_failed
            },
            key is Up || key is Down || key is Left || key is Right ==> {
                let t = old(self).table_state;
                let u = final(self).table_state;
                &&& u.row == match key {
                    Key::Down => if t.row + 1 < old(self).locations@.len() {
                        t.row + 1
                    } else {
                        t.row as int
                    },
                    Key::Up => if t.row > 0 {
                        t.row - 1
                    } else {
                        0
                    },
                    _ => t.row as int,
                }
                &&& u.column == match key {
                    Key::Right => if t.column + 1 < 3 {
                        t.column + 1
                    } else {
                        t.column as int
                    },
                    Key::Left => if t.column > 0 {
                        t.column - 1
                    } else {
                        0
                    },
                    _ => t.column as int,
                }
            },
    {
        self.next_state = AppState::NoChange;
        match key {
            Key::Esc => self.next_state = AppState::Exit,
            Key::Down | Key::Up | Key::Left | Key::Right => {
                let n = self.locations.len();
                self.table_state.step(key, n, 3);
            },
            Key::Enter => {
                let row = self.table_state.row;
                if row < self.locations.len() {
                    self.next_state = AppState::EditLocation(self.locations[row].id);
                }
            },
            Key::Char(_) | Key::Backspace => {
                edit_text(&mut self.search, &mut self.cursor_position, key);
                self.refresh(db);
            },
            _ => {},
        }
    }

    /// The transition requested by the last key.
    pub fn get_next_state(&self) -> (r: AppState)
        ensures
            r == self.next_state,
    {
        self.next_state.clone()
    }
}

} // verus!
