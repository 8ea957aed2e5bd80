use vstd::prelude::*;
use rusqlite::{Connection, OptionalExtension};
use crate::store::{lists_items, lists_locations, Item, ItemRow, Location, LocationRow};

verus! {

#[verifier::external_type_specification]
#[verifier::external_body]
pub struct ExConnection(Connection);

#[verifier::external_type_specification]
#[verifier::external_body]
pub struct ExSqlError(rusqlite::Error);

/// The rows of the `locations` table of a database, by id. This connection is taken to be the
/// only writer of the database while it is open: concurrent access is not supported.
pub uninterp spec fn location_table(c: Connection) -> Map<i64, (Seq<char>, Option<Seq<char>>)>;

/// The rows of the `items` table of a database, by id.
pub uninterp spec fn item_table(c: Connection) -> Map<
    i64,
    (Seq<char>, Option<Seq<char>>, Option<i64>),
>;

/// Relies on rusqlite's `Connection::open_in_memory`: a new in-memory database holds no rows.
#[verifier::external_body]
pub(crate) fn open_memory() -> (r: Result<Connection, rusqlite::Error>)
    ensures
        r is Ok ==> location_table(r->Ok_0).dom() == Set::<i64>::empty(),
        r is Ok ==> item_table(r->Ok_0).dom() == Set::<i64>::empty(),
{
    Connection::open_in_memory()
}

/// Relies on rusqlite's `Connection::open`: opens (or creates) the database file at `path`.
#[verifier::external_body]
pub(crate) fn open_file(path: &str) -> (r: Result<Connection, rusqlite::Error>) {
    Connection::open(path)
}

/// Relies on rusqlite's `Connection::execute_batch`: turns on foreign keys and creates the two
/// tables where they are missing, which changes no row.
#[verifier::external_body]
pub(crate) fn create_tables(c: &mut Connection) -> (r: Result<(), rusqlite::Error>)
    ensures
        location_table(*final(c)) == location_table(*old(c)),
        item_table(*final(c)) == item_table(*old(c)),
{
    c.execute_batch(
        "PRAGMA foreign_keys = ON;
        CREATE TABLE IF NOT EXISTS locations (id INTEGER PRIMARY KEY, name TEXT, comment TEXT);
        CREATE TABLE IF NOT EXISTS items (id INTEGER PRIMARY KEY, name TEXT, comment TEXT,
            location_id INTEGER REFERENCES locations(id));",
    )
}

/// Relies on rusqlite's `Connection::prepare` and `Statement::query_map`: the query yields every
/// row of `locations`, in ascending id order.
#[verifier::external_body]
pub(crate) fn select_locations(c: &Connection) -> (r: Result<Vec<Location>, rusqlite::Error>)
    ensures
        r is Ok ==> lists_locations(r->Ok_0@, location_table(*c), (|row: LocationRow| true)),
{
    let mut stmt = c.prepare("SELECT id, name, comment FROM locations ORDER BY id")?;
    let rows = stmt.query_map([], |row| {
        Ok(Location { id: row.get(0)?, name: row.get(1)?, comment: row.get(2)? })
    })?;
    rows.collect()
}

/// Relies on rusqlite's `Connection::prepare` and `Statement::query_map`: the query yields every
/// row of `items`, in ascending id order.
#[verifier::external_body]
pub(crate) fn select_items(c: &Connection) -> (r: Result<Vec<Item>, rusqlite::Error>)
    ensures
        r is Ok ==> lists_items(r->Ok_0@, item_table(*c), (|row: ItemRow| true)),
{
    let mut stmt = c.prepare("SELECT id, name, comment, location_id FROM items ORDER BY id")?;
    let rows = stmt.query_map([], |row| {
        Ok(Item { id: row.get(0)?, name: row.get(1)?, comment: row.get(2)?, location_id: row.get(3)? })
    })?;
    rows.collect()
}

/// Relies on rusqlite's `Connection::query_row` and `OptionalExtension::optional`: the row of
/// `locations` with this id, or `None` when there is none.
#[verifier::external_body]
pub(crate) fn select_location(c: &Connection, id: i64) -> (r: Result<Option<Location>, rusqlite::Error>)
    ensures
        r matches Ok(Some(l)) ==> l.id == id && location_table(*c).contains_key(id)
            && location_table(*c)[id] == l.row(),
        r matches Ok(None) ==> !location_table(*c).contains_key(id),
{
    c.query_row("SELECT id, name, comment FROM locations WHERE id = ?1", [id], |row| {
        Ok(Location { id: row.get(0)?, name: row.get(1)?, comment: row.get(2)? })
    }).optional()
}

/// Relies on rusqlite's `Connection::query_row` and `OptionalExtension::optional`: the row of
/// `items` with this id, or `None` when there is none.
#[verifier::external_body]
pub(crate) fn select_item(c: &Connection, id: i64) -> (r: Result<Option<Item>, rusqlite::Error>)
    ensures
        r matches Ok(Some(i)) ==> i.id == id && item_table(*c).contains_key(id)
            && item_table(*c)[id] == i.row(),
        r matches Ok(None) ==> !item_table(*c).contains_key(id),
{
    let sql = "SELECT id, name, comment, location_id FROM items WHERE id = ?1";
    c.query_row(sql, [id], |row| {
        Ok(Item { id: row.get(0)?, name: row.get(1)?, comment: row.get(2)?, location_id: row.get(3)? })
    }).optional()
}

/// Relies on rusqlite's `Connection::execute` of one INSERT: on success the new row is stored;
/// a failed statement changes nothing.
#[verifier::external_body]
pub(crate) fn insert_location_row(c: &mut Connection, l: &Location) -> (r: Result<usize, rusqlite::Error>)
    requires
        !location_table(*old(c)).contains_key(l.id),
    ensures
        r is Ok ==> location_table(*final(c)) == location_table(*old(c)).insert(l.id, l.row()),
        r is Err ==> location_table(*final(c)) == location_table(*old(c)),
        item_table(*final(c)) == item_table(*old(c)),
{
    let sql = "INSERT INTO locations (id, name, comment) VALUES (?1, ?2, ?3)";
    c.execute(sql, (l.id, &l.name, &l.comment))
}

/// Relies on rusqlite's `Connection::execute` of one INSERT: on success the new row is stored;
/// a failed statement changes nothing.
#[verifier::external_body]
pub(crate) fn insert_item_row(c: &mut Connection, i: &Item) -> (r: Result<usize, rusqlite::Error>)
    requires
        !item_table(*old(c)).contains_key(i.id),
    ensures
        r is Ok ==> item_table(*final(c)) == item_table(*old(c)).insert(i.id, i.row()),
        r is Err ==> item_table(*final(c)) == item_table(*old(c)),
        location_table(*final(c)) == location_table(*old(c)),
{
    let sql = "INSERT INTO items (id, name, comment, location_id) VALUES (?1, ?2, ?3, ?4)";
    c.execute(sql, (i.id, &i.name, &i.comment, &i.location_id))
}

/// Relies on rusqlite's `Connection::execute` of one UPDATE by primary key: on success the row
/// with this id holds the new fields; a failed statement changes nothing.
#[verifier::external_body]
pub(crate) fn update_location_row(c: &mut Connection, l: &Location) -> (r: Result<usize, rusqlite::Error>)
    requires
        location_table(*old(c)).contains_key(l.id),
    ensures
        r is Ok ==> location_table(*final(c)) == location_table(*old(c)).insert(l.id, l.row()),
        r is Err ==> location_table(*final(c)) == location_table(*old(c)),
        item_table(*final(c)) == item_table(*old(c)),
{
    let sql = "UPDATE locations SET name = ?1, comment = ?2 WHERE id = ?3";
    c.execute(sql, (&l.name, &l.comment, l.id))
}

/// Relies on rusqlite's `Connection::execute` of one UPDATE by primary key: on success the row
/// with this id holds the new fields; a failed statement changes nothing.
#[verifier::external_body]
pub(crate) fn update_item_row(c: &mut Connection, i: &Item) -> (r: Result<usize, rusqlite::Error>)
    requires
        item_table(*old(c)).contains_key(i.id),
    ensures
        r is Ok ==> item_table(*final(c)) == item_table(*old(c)).insert(i.id, i.row()),
        r is Err ==> item_table(*final(c)) == item_table(*old(c)),
        location_table(*final(c)) == location_table(*old(c)),
{
    let sql = "UPDATE items SET name = ?1, comment = ?2, location_id = ?3 WHERE id = ?4";
    c.execute(sql, (&i.name, &i.comment, &i.location_id, i.id))
}

/// Relies on the `Display` of `rusqlite::Error`: a readable description of the failure.
#[verifier::external_body]
pub(crate) fn fault_text(e: &rusqlite::Error) -> String {
    e.to_string()
}

} // verus!
