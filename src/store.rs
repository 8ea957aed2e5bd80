use vstd::prelude::*;
use rusqlite::Connection;
use crate::sqlite::{
    create_tables, fault_text, insert_item_row, insert_location_row, item_table, location_table,
    open_file, open_memory, select_item, select_items, select_location, select_locations,
    update_item_row, update_location_row,
};
use crate::text::{chars_of, contains_folded, contains_ignoring_case, occurs_folded_at, same_folded};

verus! {

/// A storage location: a caller-chosen id, a name and an optional comment.
#[derive(Debug, PartialEq)]
pub struct Location {
    pub id: i64,
    pub name: String,
    pub comment: Option<String>,
}

/// An item, which may name the location where it is kept.
#[derive(Debug, PartialEq)]
pub struct Item {
    pub id: i64,
    pub name: String,
    pub comment: Option<String>,
    pub location_id: Option<i64>,
}

/// The stored fields of a location: name and comment.
pub type LocationRow = (Seq<char>, Option<Seq<char>>);

/// The stored fields of an item: name, comment and location id.
pub type ItemRow = (Seq<char>, Option<Seq<char>>, Option<i64>);

/// The text of an optional string.
pub open spec fn text_opt(o: Option<String>) -> Option<Seq<char>> {
    match o {
        Some(s) => Some(s@),
        None => None,
    }
}

impl Location {
    pub open spec fn row(self) -> LocationRow {
        (self.name@, text_opt(self.comment))
    }
}

impl Item {
    pub open spec fn row(self) -> ItemRow {
        (self.name@, text_opt(self.comment), self.location_id)
    }
}

pub(crate) fn clone_text(o: &Option<String>) -> (r: Option<String>)
    ensures
        r == *o,
{
    match o {
        Some(s) => Some(s.clone()),
        None => None,
    }
}

impl Clone for Location {
    fn clone(&self) -> (r: Self)
        ensures
            r == *self,
    {
        Location { id: self.id, name: self.name.clone(), comment: clone_text(&self.comment) }
    }
}

impl Clone for Item {
    fn clone(&self) -> (r: Self)
        ensures
            r == *self,
    {
        Item {
            id: self.id,
            name: self.name.clone(),
            comment: clone_text(&self.comment),
            location_id: self.location_id,
        }
    }
}

/// `v` holds, in ascending id order, exactly the rows of `m` that `keep` accepts.
pub open spec fn lists_locations(
    v: Seq<Location>,
    m: Map<i64, LocationRow>,
    keep: spec_fn(LocationRow) -> bool,
) -> bool {
    &&& forall|i: int|
        0 <= i < v.len() ==> {
            &&& m.contains_key(#[trigger] v[i].id)
            &&& m[v[i].id] == v[i].row()
            &&& keep(v[i].row())
        }
    &&& forall|i: int, j: int| 0 <= i < j < v.len() ==> v[i].id < v[j].id
    &&& forall|k: i64|
        #[trigger] m.contains_key(k) && keep(m[k]) ==> exists|i: int|
            0 <= i < v.len() && #[trigger] v[i].id == k
}

/// `v` holds, in ascending id order, exactly the rows of `m` that `keep` accepts.
pub open spec fn lists_items(
    v: Seq<Item>,
    m: Map<i64, ItemRow>,
    keep: spec_fn(ItemRow) -> bool,
) -> bool {
    &&& forall|i: int|
        0 <= i < v.len() ==> {
            &&& m.contains_key(#[trigger] v[i].id)
            &&& m[v[i].id] == v[i].row()
            &&& keep(v[i].row())
        }
    &&& forall|i: int, j: int| 0 <= i < j < v.len() ==> v[i].id < v[j].id
    &&& forall|k: i64|
        #[trigger] m.contains_key(k) && keep(m[k]) ==> exists|i: int|
            0 <= i < v.len() && #[trigger] v[i].id == k
}

/// A location matches a search term when its name or comment contains it, ignoring case.
pub open spec fn location_matches(term: Seq<char>, r: LocationRow) -> bool {
    contains_folded(r.0, term) || (r.1 is Some && contains_folded(r.1->0, term))
}

/// An item matches a search term when its name or comment contains it, ignoring case.
pub open spec fn item_matches(term: Seq<char>, r: ItemRow) -> bool {
    contains_folded(r.0, term) || (r.1 is Some && contains_folded(r.1->0, term))
}

/// A location reference is sound when it is absent or names a stored location.
pub open spec fn known_location(location_id: Option<i64>, locations: Map<i64, LocationRow>) -> bool {
    match location_id {
        Some(l) => locations.contains_key(l),
        None => true,
    }
}

/// Why the store refused an operation.
#[derive(Debug, PartialEq)]
pub enum StoreError {
    /// The id is already taken.
    DuplicateId,
    /// No entity has this id.
    UnknownId,
    /// The location reference names no stored location.
    UnknownLocation,
    /// The database itself failed; the text describes the failure.
    Storage(String),
}

/// `r` is the outcome `expected`, or the database failed.
pub open spec fn expected_or_fault<T>(r: Result<T, StoreError>, expected: Result<T, StoreError>) -> bool {
    r == expected || (r is Err && r->Err_0 is Storage)
}

fn fault(e: rusqlite::Error) -> (r: StoreError)
    ensures
        r is Storage,
{
    StoreError::Storage(fault_text(&e))
}


fn location_matches_exec(l: &Location, term: &Vec<char>) -> (r: bool)
    ensures
        r == location_matches(term@, l.row()),
{
    let name = chars_of(l.name.as_str());
    if contains_ignoring_case(&name, term) {
        return true;
    }
    match &l.comment {
        Some(c) => {
            let comment = chars_of(c.as_str());
            contains_ignoring_case(&comment, term)
        },
        None => false,
    }
}

/// Which items a listing keeps.
enum ItemFilter {
    Matching(Vec<char>),
    AtLocation(i64),
}

spec fn item_filter_keeps(f: ItemFilter, r: ItemRow) -> bool {
    match f {
        ItemFilter::Matching(term) => item_matches(term@, r),
        ItemFilter::AtLocation(l) => r.2 == Some(l),
    }
}

fn item_filter_keeps_exec(f: &ItemFilter, i: &Item) -> (r: bool)
    ensures
        r == item_filter_keeps(*f, i.row()),
{
    match f {
        ItemFilter::Matching(term) => {
            let name = chars_of(i.name.as_str());
            if contains_ignoring_case(&name, term) {
                return true;
            }
            match &i.comment {
                Some(c) => {
                    let comment = chars_of(c.as_str());
                    contains_ignoring_case(&comment, term)
                },
                None => false,
            }
        },
        ItemFilter::AtLocation(l) => match i.location_id {
            Some(x) => x == *l,
            None => false,
        },
    }
}

fn keep_matching_locations(
    all: &Vec<Location>,
    term: &Vec<char>,
    Ghost(m): Ghost<Map<i64, LocationRow>>,
) -> (r: Vec<Location>)
    requires
        lists_locations(all@, m, (|row: LocationRow| true)),
    ensures
        lists_locations(r@, m, (|row: LocationRow| location_matches(term@, row))),
{
    let mut out: Vec<Location> = Vec::new();
    let mut i: usize = 0;
    while i < all.len()
        invariant
            i <= all@.len(),
            lists_locations(all@, m, (|row: LocationRow| true)),
            forall|p: int|
                0 <= p < out@.len() ==> {
                    &&& m.contains_key(#[trigger] out@[p].id)
                    &&& m[out@[p].id] == out@[p].row()
                    &&& location_matches(term@, out@[p].row())
                },
            forall|p: int, q: int| 0 <= p < q < out@.len() ==> out@[p].id < out@[q].id,
            forall|p: int, q: int|
                0 <= p < out@.len() && i <= q < all@.len() ==> out@[p].id < all@[q].id,
            forall|j: int|
                0 <= j < i && location_matches(term@, #[trigger] all@[j].row()) ==> exists|p: int|
                    0 <= p < out@.len() && out@[p].id == all@[j].id,
        decreases all@.len() - i,
    {
        if location_matches_exec(&all[i], term) {
            let ghost before = out@;
            out.push(all[i].clone());
            assert forall|j: int|
                0 <= j < i + 1 && location_matches(term@, #[trigger] all@[j].row()) implies exists|p: int|
                    0 <= p < out@.len() && out@[p].id == all@[j].id by {
                if j == i {
                    assert(out@[out@.len() - 1].id == all@[j].id);
                } else {
                    let p = choose|p: int| 0 <= p < before.len() && before[p].id == all@[j].id;
                    assert(out@[p] == before[p]);
                }
            }
        }
        i += 1;
    }
    assert forall|k: i64|
        #[trigger] m.contains_key(k) && location_matches(term@, m[k]) implies exists|p: int|
            0 <= p < out@.len() && #[trigger] out@[p].id == k by {
        let j = choose|j: int| 0 <= j < all@.len() && #[trigger] all@[j].id == k;
        assert(all@[j].row() == m[k]);
        assert(location_matches(term@, all@[j].row()));
    }
    out
}

fn keep_matching_items(all: &Vec<Item>, f: &ItemFilter, Ghost(m): Ghost<Map<i64, ItemRow>>) -> (r: Vec<
    Item,
>)
    requires
        lists_items(all@, m, (|row: ItemRow| true)),
    ensures
        lists_items(r@, m, (|row: ItemRow| item_filter_keeps(*f, row))),
{
    let mut out: Vec<Item> = Vec::new();
    let mut i: usize = 0;
    while i < all.len()
        invariant
            i <= all@.len(),
            lists_items(all@, m, (|row: ItemRow| true)),
            forall|p: int|
                0 <= p < out@.len() ==> {
                    &&& m.contains_key(#[trigger] out@[p].id)
                    &&& m[out@[p].id] == out@[p].row()
                    &&& item_filter_keeps(*f, out@[p].row())
                },
            forall|p: int, q: int| 0 <= p < q < out@.len() ==> out@[p].id < out@[q].id,
            forall|p: int, q: int|
                0 <= p < out@.len() && i <= q < all@.len() ==> out@[p].id < all@[q].id,
            forall|j: int|
                0 <= j < i && item_filter_keeps(*f, #[trigger] all@[j].row()) ==> exists|p: int|
                    0 <= p < out@.len() && out@[p].id == all@[j].id,
        decreases all@.len() - i,
    {
        if item_filter_keeps_exec(f, &all[i]) {
            let ghost before = out@;
            out.push(all[i].clone());
            assert forall|j: int|
                0 <= j < i + 1 && item_filter_keeps(*f, #[trigger] all@[j].row()) implies exists|p: int|
                    0 <= p < out@.len() && out@[p].id == all@[j].id by {
                if j == i {
                    assert(out@[out@.len() - 1].id == all@[j].id);
                } else {
                    let p = choose|p: int| 0 <= p < before.len() && before[p].id == all@[j].id;
                    assert(out@[p] == before[p]);
                }
            }
        }
        i += 1;
    }
    assert forall|k: i64|
        #[trigger] m.contains_key(k) && item_filter_keeps(*f, m[k]) implies exists|p: int|
            0 <= p < out@.len() && #[trigger] out@[p].id == k by {
        let j = choose|j: int| 0 <= j < all@.len() && #[trigger] all@[j].id == k;
        assert(all@[j].row() == m[k]);
        assert(item_filter_keeps(*f, all@[j].row()));
    }
    out
}

/// What adding a location does when the database does not fail.
pub open spec fn add_location_outcome(locations: Map<i64, LocationRow>, l: Location) -> Result<
    (),
    StoreError,
> {
    if locations.contains_key(l.id) {
        Err(StoreError::DuplicateId)
    } else {
        Ok(())
    }
}

/// What adding an item does when the database does not fail.
pub open spec fn add_item_outcome(
    locations: Map<i64, LocationRow>,
    items: Map<i64, ItemRow>,
    i: Item,
) -> Result<(), StoreError> {
    if items.contains_key(i.id) {
        Err(StoreError::DuplicateId)
    } else if !known_location(i.location_id, locations) {
        Err(StoreError::UnknownLocation)
    } else {
        Ok(())
    }
}

/// What editing a location does when the database does not fail.
pub open spec fn edit_location_outcome(locations: Map<i64, LocationRow>, l: Location) -> Result<
    (),
    StoreError,
> {
    if !locations.contains_key(l.id) {
        Err(StoreError::UnknownId)
    } else {
        Ok(())
    }
}

/// What editing an item does when the database does not fail.
pub open spec fn edit_item_outcome(
    locations: Map<i64, LocationRow>,
    items: Map<i64, ItemRow>,
    i: Item,
) -> Result<(), StoreError> {
    if !items.contains_key(i.id) {
        Err(StoreError::UnknownId)
    } else if !known_location(i.location_id, locations) {
        Err(StoreError::UnknownLocation)
    } else {
        Ok(())
    }
}

/// What `add_location` promises: the expected outcome or a database fault; a new row on
/// success; nothing changed on failure.
pub open spec fn adds_location(before: Inventory, after: Inventory, l: Location, r: Result<(), StoreError>) -> bool {
    &&& expected_or_fault(r, add_location_outcome(before.locations(), l))
    &&& r is Ok ==> after.locations() == before.locations().insert(l.id, l.row())
    &&& r is Err ==> after.locations() == before.locations()
    &&& after.items() == before.items()
}

/// What `add_item` promises: the expected outcome or a database fault; a new row on success;
/// nothing changed on failure.
pub open spec fn adds_item(before: Inventory, after: Inventory, i: Item, r: Result<(), StoreError>) -> bool {
    &&& expected_or_fault(r, add_item_outcome(before.locations(), before.items(), i))
    &&& r is Ok ==> after.items() == before.items().insert(i.id, i.row())
    &&& r is Err ==> after.items() == before.items()
    &&& after.locations() == before.locations()
}

/// What `edit_location` promises: the expected outcome or a database fault; the row replaced
/// on success; nothing changed on failure.
pub open spec fn edits_location(before: Inventory, after: Inventory, l: Location, r: Result<(), StoreError>) -> bool {
    &&& expected_or_fault(r, edit_location_outcome(before.locations(), l))
    &&& r is Ok ==> after.locations() == before.locations().insert(l.id, l.row())
    &&& r is Err ==> after.locations() == before.locations()
    &&& after.items() == before.items()
}

/// What `edit_item` promises: the expected outcome or a database fault; the row replaced on
/// success; nothing changed on failure.
pub open spec fn edits_item(before: Inventory, after: Inventory, i: Item, r: Result<(), StoreError>) -> bool {
    &&& expected_or_fault(r, edit_item_outcome(before.locations(), before.items(), i))
    &&& r is Ok ==> after.items() == before.items().insert(i.id, i.row())
    &&& r is Err ==> after.items() == before.items()
    &&& after.locations() == before.locations()
}

/// The inventory store: locations and items kept in a SQLite database.
pub struct Inventory {
    db: Connection,
}

impl Inventory {
    /// The stored locations, by id.
    pub closed spec fn locations(&self) -> Map<i64, LocationRow> {
        location_table(self.db)
    }

    /// The stored items, by id.
    pub closed spec fn items(&self) -> Map<i64, ItemRow> {
        item_table(self.db)
    }

    fn init(db: Connection) -> (r: Result<Inventory, StoreError>)
        ensures
            r matches Ok(inv) ==> inv.locations() == location_table(db) && inv.items()
                == item_table(db),
            r matches Err(e) ==> e is Storage,
    {
        let mut db = db;
        match create_tables(&mut db) {
            Ok(()) => Ok(Inventory { db }),
            Err(e) => Err(fault(e)),
        }
    }

    /// A new, empty inventory held in memory.
    pub fn open_in_memory() -> (r: Result<Inventory, StoreError>)
        ensures
            r matches Ok(inv) ==> inv.locations().dom() == Set::<i64>::empty()
                && inv.items().dom() == Set::<i64>::empty(),
            r matches Err(e) ==> e is Storage,
    {
        match open_memory() {
            Ok(db) => Inventory::init(db),
            Err(e) => Err(fault(e)),
        }
    }

    /// The inventory kept in the database file `filename`, created where missing.
    pub fn open_in_file(filename: &str) -> (r: Result<Inventory, StoreError>)
        ensures
            r matches Err(e) ==> e is Storage,
    {
        match open_file(filename) {
            Ok(db) => Inventory::init(db),
            Err(e) => Err(fault(e)),
        }
    }

    /// Every item, in ascending id order.
    pub fn get_all_items(&self) -> (r: Result<Vec<Item>, StoreError>)
        ensures
            r matches Ok(v) ==> lists_items(v@, self.items(), (|row: ItemRow| true)),
            r matches Err(e) ==> e is Storage,
    {
        match select_items(&self.db) {
            Ok(v) => Ok(v),
            Err(e) => Err(fault(e)),
        }
    }

    /// Every location, in ascending id order.
    pub fn get_all_locations(&self) -> (r: Result<Vec<Location>, StoreError>)
        ensures
            r matches Ok(v) ==> lists_locations(v@, self.locations(), (|row: LocationRow| true)),
            r matches Err(e) ==> e is Storage,
    {
        match select_locations(&self.db) {
            Ok(v) => Ok(v),
            Err(e) => Err(fault(e)),
        }
    }

    /// The location with this id, if there is one.
    pub fn lookup_location(&self, id: i64) -> (r: Result<Option<Location>, StoreError>)
        ensures
            r matches Ok(Some(l)) ==> l.id == id && self.locations().contains_key(id)
                && self.locations()[id] == l.row(),
            r matches Ok(None) ==> !self.locations().contains_key(id),
            r matches Err(e) ==> e is Storage,
    {
        match select_location(&self.db, id) {
            Ok(o) => Ok(o),
            Err(e) => Err(fault(e)),
        }
    }

    /// The item with this id, if there is one.
    pub fn lookup_item(&self, id: i64) -> (r: Result<Option<Item>, StoreError>)
        ensures
            r matches Ok(Some(i)) ==> i.id == id && self.items().contains_key(id)
                && self.items()[id] == i.row(),
            r matches Ok(None) ==> !self.items().contains_key(id),
            r matches Err(e) ==> e is Storage,
    {
        match select_item(&self.db, id) {
            Ok(o) => Ok(o),
            Err(e) => Err(fault(e)),
        }
    }

    /// The item with this id; `None` when there is none or the database fails.
    pub fn search_item_id(&self, id: i64) -> (r: Option<Item>)
        ensures
            r matches Some(i) ==> i.id == id && self.items().contains_key(id) && self.items()[id]
                == i.row(),
    {
        match self.lookup_item(id) {
            Ok(o) => o,
            Err(_) => None,
        }
    }

    /// The location with this id; `None` when there is none or the database fails.
    pub fn search_location_id(&self, id: i64) -> (r: Option<Location>)
        ensures
            r matches Some(l) ==> l.id == id && self.locations().contains_key(id)
                && self.locations()[id] == l.row(),
    {
        match self.lookup_location(id) {
            Ok(o) => o,
            Err(_) => None,
        }
    }

    /// Whether an item has this id; `false` also when the database fails.
    pub fn item_exists(&self, id: i64) -> (r: bool)
        ensures
            r ==> self.items().contains_key(id),
    {
        self.search_item_id(id).is_some()
    }

    /// Whether a location has this id; `false` also when the database fails.
    pub fn location_exists(&self, id: i64) -> (r: bool)
        ensures
            r ==> self.locations().contains_key(id),
    {
        self.search_location_id(id).is_some()
    }

    /// Stores a new location; its id must be free.
    pub fn add_location(&mut self, l: &Location) -> (r: Result<(), StoreError>)
        ensures
            adds_location(*old(self), *final(self), *l, r),
    {
        match self.lookup_location(l.id) {
            Err(e) => Err(e),
            Ok(Some(_)) => Err(StoreError::DuplicateId),
            Ok(None) => match insert_location_row(&mut self.db, l) {
                Ok(_) => Ok(()),
                Err(e) => Err(fault(e)),
            },
        }
    }

    /// Stores a new item; its id must be free and its location, if any, stored.
    pub fn add_item(&mut self, i: &Item) -> (r: Result<(), StoreError>)
        ensures
            adds_item(*old(self), *final(self), *i, r),
    {
        match self.lookup_item(i.id) {
            Err(e) => return Err(e),
            Ok(Some(_)) => return Err(StoreError::DuplicateId),
            Ok(None) => {},
        }
        if let Some(lid) = i.location_id {
            match self.lookup_location(lid) {
                Err(e) => return Err(e),
                Ok(None) => return Err(StoreError::UnknownLocation),
                Ok(Some(_)) => {},
            }
        }
        match insert_item_row(&mut self.db, i) {
            Ok(_) => Ok(()),
            Err(e) => Err(fault(e)),
        }
    }

    /// Overwrites the name and comment of the stored location with the same id.
    pub fn edit_location(&mut self, new_location: &Location) -> (r: Result<(), StoreError>)
        ensures
            edits_location(*old(self), *final(self), *new_location, r),
    {
        match self.lookup_location(new_location.id) {
            Err(e) => Err(e),
            Ok(None) => Err(StoreError::UnknownId),
            Ok(Some(_)) => match update_location_row(&mut self.db, new_location) {
                Ok(_) => Ok(()),
                Err(e) => Err(fault(e)),
            },
        }
    }

    /// Overwrites the name, comment and location of the stored item with the same id.
    pub fn edit_item(&mut self, new_item: &Item) -> (r: Result<(), StoreError>)
        ensures
            edits_item(*old(self), *final(self), *new_item, r),
    {
        match self.lookup_item(new_item.id) {
            Err(e) => return Err(e),
            Ok(None) => return Err(StoreError::UnknownId),
            Ok(Some(_)) => {},
        }
        if let Some(lid) = new_item.location_id {
            match self.lookup_location(lid) {
                Err(e) => return Err(e),
                Ok(None) => return Err(StoreError::UnknownLocation),
                Ok(Some(_)) => {},
            }
        }
        match update_item_row(&mut self.db, new_item) {
            Ok(_) => Ok(()),
            Err(e) => Err(fault(e)),
        }
    }

    /// The items kept at this location, in ascending id order.
    pub fn items_by_location_id(&self, location_id: i64) -> (r: Result<Vec<Item>, StoreError>)
        ensures
            r matches Ok(v) ==> lists_items(
                v@,
                self.items(),
                (|row: ItemRow| row.2 == Some(location_id)),
            ),
            r matches Err(e) ==> e is Storage,
    {
        let all = match self.get_all_items() {
            Ok(v) => v,
            Err(e) => return Err(e),
        };
        let f = ItemFilter::AtLocation(location_id);
        let out = keep_matching_items(&all, &f, Ghost(self.items()));
        assert(forall|row: ItemRow| item_filter_keeps(f, row) == (row.2 == Some(location_id)));
        Ok(out)
    }

    /// The locations whose name or comment contains `search_term`, ignoring ASCII case, in
    /// ascending id order.
    pub fn search_locations(&self, search_term: &str) -> (r: Result<Vec<Location>, StoreError>)
        ensures
            r matches Ok(v) ==> lists_locations(
                v@,
                self.locations(),
                (|row: LocationRow| location_matches(search_term@, row)),
            ),
            r matches Err(e) ==> e is Storage,
    {
        let all = match self.get_all_locations() {
            Ok(v) => v,
            Err(e) => return Err(e),
        };
        let term = chars_of(search_term);
        Ok(keep_matching_locations(&all, &term, Ghost(self.locations())))
    }

    /// The items whose name or comment contains `search_term`, ignoring ASCII case, in
    /// ascending id order.
    pub fn search_items(&self, search_term: &str) -> (r: Result<Vec<Item>, StoreError>)
        ensures
            r matches Ok(v) ==> lists_items(
                v@,
                self.items(),
                (|row: ItemRow| item_matches(search_term@, row)),
            ),
            r matches Err(e) ==> e is Storage,
    {
        let all = match self.get_all_items() {
            Ok(v) => v,
            Err(e) => return Err(e),
        };
        let term = chars_of(search_term);
        let f = ItemFilter::Matching(term);
        let out = keep_matching_items(&all, &f, Ghost(self.items()));
        assert(forall|row: ItemRow| item_filter_keeps(f, row) == item_matches(search_term@, row));
        Ok(out)
    }
}

/// Ids are unique: adding a location whose id is taken fails and changes nothing; with a
/// free id the only possible failure is a fault of the database, and success stores it.
pub proof fn lemma_location_ids_unique(
    before: Inventory,
    after: Inventory,
    l: Location,
    r: Result<(), StoreError>,
)
    requires
        adds_location(before, after, l, r),
    ensures
        before.locations().contains_key(l.id) ==> r is Err && after.locations()
            == before.locations(),
        !before.locations().contains_key(l.id) ==> r is Ok || r->Err_0 is Storage,
        r is Ok ==> after.locations().contains_key(l.id) && after.locations()[l.id] == l.row(),
{
}

/// Ids are unique: adding an item whose id is taken fails and changes nothing; with a free id
/// and a sound location the only possible failure is a fault of the database.
pub proof fn lemma_item_ids_unique(before: Inventory, after: Inventory, i: Item, r: Result<(), StoreError>)
    requires
        adds_item(before, after, i, r),
    ensures
        before.items().contains_key(i.id) ==> r is Err && after.items() == before.items(),
        !before.items().contains_key(i.id) && known_location(i.location_id, before.locations())
            ==> r is Ok || r->Err_0 is Storage,
        r is Ok ==> after.items().contains_key(i.id) && after.items()[i.id] == i.row(),
{
}

/// Referential integrity: adding or editing an item whose location id names no stored
/// location fails, and every stored item is left exactly as it was.
pub proof fn lemma_dangling_location_rejected(
    before: Inventory,
    after_add: Inventory,
    after_edit: Inventory,
    i: Item,
    r_add: Result<(), StoreError>,
    r_edit: Result<(), StoreError>,
)
    requires
        adds_item(before, after_add, i, r_add),
        edits_item(before, after_edit, i, r_edit),
        !known_location(i.location_id, before.locations()),
    ensures
        r_add is Err,
        after_add.items() == before.items(),
        r_edit is Err,
        after_edit.items() == before.items(),
{
}

/// Search ignores ASCII case: a term that equals a location's name up to case finds it.
pub proof fn lemma_search_ignores_case(term: Seq<char>, row: LocationRow)
    requires
        term.len() == row.0.len(),
        forall|j: int| 0 <= j < term.len() ==> same_folded(row.0[j], term[j]),
    ensures
        location_matches(term, row),
{
    assert(occurs_folded_at(row.0, term, 0));
}

} // verus!
