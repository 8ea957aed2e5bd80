use vstd::prelude::*;
use crate::applets::applet::{AppState, Key, TableCursor};
use crate::store::{lists_items, Inventory, Item, ItemRow, LocationRow};

verus! {

/// The location column of an item: the name of its location, or empty when it has none.
pub open spec fn location_label(location_id: Option<i64>, locations: Map<i64, LocationRow>) -> Seq<
    char,
> {
    match location_id {
        Some(l) => if locations.contains_key(l) {
            locations[l].0
        } else {
            Seq::empty()
        },
        None => Seq::empty(),
    }
}

/// The screen that lists every item with the name of its location.
pub struct ListItemsApplet {
    pub table_state: TableCursor,
    /// The items shown, as last read from the store.
    pub items: Vec<Item>,
    /// The location name shown beside each item.
    pub location_strings: Vec<String>,
    pub next_state: AppState,
    /// A read of the store failed, so the list or some location names may be missing.
    pub read_failed: bool,
}

impl Default for ListItemsApplet {
    fn default() -> (r: Self)
        ensures
            r.table_state == (TableCursor { row: 0, column: 0 }),
            r.items@.len() == 0,
            r.location_strings@.len() == 0,
            r.next_state is NoChange,
            !r.read_failed,
    {
        ListItemsApplet {
            table_state: TableCursor { row: 0, column: 0 },
            items: Vec::new(),
            location_strings: Vec::new(),
            next_state: AppState::NoChange,
            read_failed: false,
        }
    }
}

impl ListItemsApplet {
    /// The cursor lies within the table.
    pub open spec fn wf(&self) -> bool {
        self.table_state.fits(self.items@.len() as int, 4)
    }

    /// What `refresh` does: every item is read again with the name of its location; when a read
    /// fails the failure is flagged, the list may be empty and names may be missing.
    pub open spec fn refreshed(
        &self,
        before: &Self,
        locations: Map<i64, LocationRow>,
        items: Map<i64, ItemRow>,
    ) -> bool {
        &&& self.location_strings@.len() == self.items@.len()
        &&& !self.read_failed ==> lists_items(self.items@, items, (|row: ItemRow| true))
        &&& forall|i: int|
            0 <= i < self.items@.len() ==> {
                let label = self.location_strings@[i]@;
                let exact = location_label(#[trigger] self.items@[i].location_id, locations);
                &&& !self.read_failed ==> label == exact
                &&& self.read_failed ==> label == exact || label.len() == 0
            }
        &&& self.next_state == before.next_state
        &&& self.table_state.column == before.table_state.column
        &&& self.table_state.row == if before.table_state.row < self.items@.len() {
            before.table_state.row as int
        } else if self.items@.len() == 0 {
            0
        } else {
            self.items@.len() - 1
        }
    }

    /// Reads every item and the name of each one's location.
    pub fn refresh(&mut self, db: &Inventory)
        requires
            old(self).wf(),
        ensures
            final(self).wf(),
            final(self).refreshed(&*old(self), db.locations(), db.items()),
    {
        let mut failed = false;
        match db.get_all_items() {
            Ok(v) => self.items = v,
            Err(_) => {
                self.items = Vec::new();
                failed = true;
            },
        }
        let mut names: Vec<String> = Vec::new();
        let mut i: usize = 0;
        while i < self.items.len()
            invariant
                i <= self.items@.len(),
                names@.len() == i,
                !failed ==> lists_items(self.items@, db.items(), (|row: ItemRow| true)),
                forall|j: int|
                    0 <= j < i ==> {
                        let label = names@[j]@;
                        let exact = location_label(
                            #[trigger] self.items@[j].location_id,
                            db.locations(),
                        );
                        &&& !failed ==> label == exact
                        &&& failed ==> label == exact || label.len() == 0
                    },
            decreases self.items@.len() - i,
        {
            let name = match self.items[i].location_id {
                Some(l) => match db.lookup_location(l) {
                    Ok(Some(loc)) => loc.name,
                    Ok(None) => String::new(),
                    Err(_) => {
                        failed = true;
                        String::new()
                    },
                },
                None => String::new(),
            };
            names.push(name);
            i += 1;
        }
        self.location_strings = names;
        self.read_failed = failed;
        let n = self.items.len();
        self.table_state.clamp(n);
    }

    /// Handles one key: arrows move the highlight, Enter or `e` edits the highlighted item,
    /// `q` or Esc closes the screen.
    pub fn handle_key(&mut self, key: Key)
        requires
            old(self).wf(),
        ensures
            final(self).wf(),
            final(self).items == old(self).items,
            final(self).location_strings == old(self).location_strings,
            final(self).read_failed == old(self).read_failed,
            key is Esc || key == Key::Char('q') ==> final(self).next_state is Exit,
            (key is Enter || key == Key::Char('e')) && old(self).table_state.row
                < old(self).items@.len() ==> final(self).next_state == AppState::EditItem(
                old(self).items@[old(self).table_state.row as int].id,
            ),
            !(key is Esc || key == Key::Char('q')) && !((key is Enter || key == Key::Char('e'))
                && old(self).table_state.row < old(self).items@.len())
                ==> final(self).next_state is NoChange,
            key is Up || key is Down || key is Left || key is Right ==> {
                let t = old(self).table_state;
                let u = final(self).table_state;
                &&& u.row == match key {
                    Key::Down => if t.row + 1 < old(self).items@.len() {
                        t.row + 1
                    } else {
                        t.row as int
                    },
                    Key::Up => if t.row > 0 {
                        t.row - 1
                    } else {
                        0
                    },
                    _ => t.row as int,
                }
                &&& u.column == match key {
                    Key::Right => if t.column + 1 < 4 {
                        t.column + 1
                    } else {
                        t.column as int
                    },
                    Key::Left => if t.column > 0 {
                        t.column - 1
                    } else {
                        0
                    },
                    _ => t.column as int,
                }
            },
    {
        self.next_state = AppState::NoChange;
        match key {
            Key::Esc | Key::Char('q') => self.next_state = AppState::Exit,
            Key::Down | Key::Up | Key::Left | Key::Right => {
                let n = self.items.len();
                self.table_state.step(key, n, 4);
            },
            Key::Enter | Key::Char('e') => {
                let row = self.table_state.row;
                if row < self.items.len() {
                    self.next_state = AppState::EditItem(self.items[row].id);
                }
            },
            _ => {},
        }
    }

    /// The transition requested by the last key.
    pub fn get_next_state(&self) -> (r: AppState)
        ensures
            r == self.next_state,
    {
        self.next_state.clone()
    }
}

} // verus!
