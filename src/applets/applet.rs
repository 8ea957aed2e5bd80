use vstd::prelude::*;
use crate::store::StoreError;
use crate::number::{parse_i64, parsed_i64};
use crate::text::{chars_of, string_of};

verus! {

/// One key press, as the screens understand it.
#[derive(Clone, Copy, Debug, PartialEq, Eq, Structural)]
pub enum Key {
    Char(char),
    Backspace,
    Delete,
    Left,
    Right,
    Up,
    Down,
    Tab,
    Enter,
    Esc,
    Other,
}

/// What a screen asks of the navigator after handling a key.
#[derive(Debug, PartialEq)]
pub enum AppState {
    /// Stay on the current screen.
    NoChange,
    /// Close the current screen.
    Exit,
    TopMenu,
    ListLocations,
    ListItems,
    CreateLocation,
    CreateItem,
    LocationLookup,
    ItemLookup,
    EditLocation(i64),
    EditItem(i64),
    /// Open the error screen with this message.
    Error(String),
}

impl Clone for AppState {
    fn clone(&self) -> (r: Self)
        ensures
            r == *self,
    {
        match self {
            AppState::NoChange => AppState::NoChange,
            AppState::Exit => AppState::Exit,
            AppState::TopMenu => AppState::TopMenu,
            AppState::ListLocations => AppState::ListLocations,
            AppState::ListItems => AppState::ListItems,
            AppState::CreateLocation => AppState::CreateLocation,
            AppState::CreateItem => AppState::CreateItem,
            AppState::LocationLookup => AppState::LocationLookup,
            AppState::ItemLookup => AppState::ItemLookup,
            AppState::EditLocation(id) => AppState::EditLocation(*id),
            AppState::EditItem(id) => AppState::EditItem(*id),
            AppState::Error(msg) => AppState::Error(msg.clone()),
        }
    }
}

/// Why a form or lookup screen refused its input.
#[derive(Debug, PartialEq)]
pub enum FormError {
    /// The id field is not a decimal integer.
    InvalidId,
    /// The id is already taken.
    IdTaken,
    /// The name field is empty.
    EmptyName,
    /// The location id field is neither empty nor a decimal integer.
    InvalidLocationId,
    /// The location id names no stored location.
    UnknownLocation,
    /// No entity has this id.
    UnknownId,
    /// The database itself failed; the text describes the failure.
    Storage(String),
}

impl FormError {
    /// A one-line description for the user.
    pub fn message(&self) -> String {
        match self {
            FormError::InvalidId => "Failed to parse ID".to_string(),
            FormError::IdTaken => "ID already exists".to_string(),
            FormError::EmptyName => "Name cannot be empty".to_string(),
            FormError::InvalidLocationId => "Failed to parse Location ID".to_string(),
            FormError::UnknownLocation => "Location ID does not exist".to_string(),
            FormError::UnknownId => "ID does not exist".to_string(),
            FormError::Storage(msg) => msg.clone(),
        }
    }
}

/// The database itself failed, as opposed to the input being invalid.
pub open spec fn is_fault(e: FormError) -> bool {
    e is Storage
}

/// `r` is the outcome `expected`, or the database failed.
pub open spec fn outcome_or_fault(r: Result<(), FormError>, expected: Result<(), FormError>) -> bool {
    r == expected || (r is Err && is_fault(r->Err_0))
}

/// The outcome recorded by a screen: no error, or the error it shows.
pub open spec fn as_outcome(e: Option<FormError>) -> Result<(), FormError> {
    match e {
        Some(x) => Err(x),
        None => Ok(()),
    }
}

/// Where a screen goes after confirming with this outcome: it closes on success, opens the
/// error screen when the database failed, and stays (showing the error) on invalid input.
pub open spec fn next_after(e: Option<FormError>, next: AppState) -> bool {
    match e {
        None => next is Exit,
        Some(x) => if is_fault(x) {
            next is Error
        } else {
            next is NoChange
        },
    }
}

/// The form error for a refusal of the store.
pub open spec fn store_refusal(e: StoreError) -> FormError {
    match e {
        StoreError::DuplicateId => FormError::IdTaken,
        StoreError::UnknownId => FormError::UnknownId,
        StoreError::UnknownLocation => FormError::UnknownLocation,
        StoreError::Storage(msg) => FormError::Storage(msg),
    }
}

pub fn from_store(e: StoreError) -> (r: FormError)
    ensures
        r == store_refusal(e),
{
    match e {
        StoreError::DuplicateId => FormError::IdTaken,
        StoreError::UnknownId => FormError::UnknownId,
        StoreError::UnknownLocation => FormError::UnknownLocation,
        StoreError::Storage(msg) => FormError::Storage(msg),
    }
}

pub(crate) fn report(e: &FormError) -> (r: AppState)
    ensures
        if is_fault(*e) {
            r is Error
        } else {
            r is NoChange
        },
{
    match e {
        FormError::Storage(msg) => AppState::Error(msg.clone()),
        _ => AppState::NoChange,
    }
}

/// An empty comment is stored as no comment.
pub open spec fn normalized_comment(c: Seq<char>) -> Option<Seq<char>> {
    if c.len() == 0 {
        None
    } else {
        Some(c)
    }
}

/// The effect of an editing key on a text buffer and its cursor.
pub open spec fn edit_spec(text: Seq<char>, cursor: int, key: Key) -> (Seq<char>, int) {
    match key {
        Key::Char(c) => (text.insert(cursor, c), cursor + 1),
        Key::Backspace => if cursor > 0 {
            (text.remove(cursor - 1), cursor - 1)
        } else {
            (text, cursor)
        },
        Key::Delete => if cursor < text.len() {
            (text.remove(cursor), cursor)
        } else {
            (text, cursor)
        },
        Key::Left => (text, if cursor > 0 {
            cursor - 1
        } else {
            0
        }),
        Key::Right => (text, if cursor < text.len() {
            cursor + 1
        } else {
            text.len() as int
        }),
        _ => (text, cursor),
    }
}

/// Applies an editing key to `text` at `cursor`; the cursor stays within the text.
pub fn edit_text(text: &mut String, cursor: &mut usize, key: Key)
    requires
        *old(cursor) <= old(text)@.len(),
    ensures
        final(text)@ == edit_spec(old(text)@, *old(cursor) as int, key).0,
        *final(cursor) == edit_spec(old(text)@, *old(cursor) as int, key).1,
        *final(cursor) <= final(text)@.len(),
{
    let mut buf = chars_of(text.as_str());
    let len = buf.len();
    match key {
        Key::Char(c) => {
            buf.insert(*cursor, c);
            let grown = buf.len();
            assert(*cursor < grown);
            *cursor = *cursor + 1;
        },
        Key::Backspace => {
            if *cursor > 0 {
                *cursor = *cursor - 1;
                buf.remove(*cursor);
            }
        },
        Key::Delete => {
            if *cursor < len {
                buf.remove(*cursor);
            }
        },
        Key::Left => {
            if *cursor > 0 {
                *cursor = *cursor - 1;
            }
        },
        Key::Right => {
            if *cursor < len {
                *cursor = *cursor + 1;
            }
        },
        _ => {},
    }
    *text = string_of(&buf);
}

/// The key moves the selection between fields and buttons.
pub open spec fn moves_selection(key: Key) -> bool {
    key is Down || key is Tab || key is Up
}

/// The position of the selection after `key`, among `n` fields and buttons, wrapping around.
pub open spec fn moved(pos: int, key: Key, n: int) -> int {
    match key {
        Key::Down | Key::Tab => (pos + 1) % n,
        Key::Up => (pos + n - 1) % n,
        _ => pos,
    }
}

/// The outcome of a validation, without the record it produced.
pub open spec fn unit_of<T>(v: Result<T, FormError>) -> Result<(), FormError> {
    match v {
        Ok(_) => Ok(()),
        Err(e) => Err(e),
    }
}

/// The error is found from the input alone, before the store is consulted.
pub open spec fn decided_by_input(e: FormError) -> bool {
    e is InvalidId || e is EmptyName || e is InvalidLocationId
}

/// A save or lookup whose validation gave `expected` returned `r`: the database failed, or `r`
/// is `expected`; errors found from the input alone are always reported as such.
pub open spec fn confirmed_as(r: Result<(), FormError>, expected: Result<(), FormError>) -> bool {
    &&& outcome_or_fault(r, expected)
    &&& (expected is Err && decided_by_input(expected->Err_0)) ==> r == expected
}

/// The location id field: empty for no location, else a decimal id.
pub open spec fn location_field(text: Seq<char>) -> Result<Option<i64>, FormError> {
    if text.len() == 0 {
        Ok(None)
    } else {
        match parsed_i64(text) {
            Some(l) => Ok(Some(l)),
            None => Err(FormError::InvalidLocationId),
        }
    }
}

pub fn parse_location_field(text: &str) -> (r: Result<Option<i64>, FormError>)
    ensures
        r == location_field(text@),
{
    if text.is_empty() {
        Ok(None)
    } else {
        match parse_i64(text) {
            Some(l) => Ok(Some(l)),
            None => Err(FormError::InvalidLocationId),
        }
    }
}

/// The highlighted cell of a table: a row and a column.
#[derive(Clone, Copy, Debug, PartialEq, Eq, Structural)]
pub struct TableCursor {
    pub row: usize,
    pub column: usize,
}

impl TableCursor {
    /// The highlighted row.
    pub fn selected(&self) -> (r: Option<usize>)
        ensures
            r == Some(self.row),
    {
        Some(self.row)
    }

    /// The highlighted column.
    pub fn selected_column(&self) -> (r: Option<usize>)
        ensures
            r == Some(self.column),
    {
        Some(self.column)
    }

    /// The cursor lies within a table of `rows` rows (at least one, shown when empty) and
    /// `columns` columns.
    pub open spec fn fits(self, rows: int, columns: int) -> bool {
        &&& self.row == 0 || self.row < rows
        &&& self.column < columns
    }

    /// Moves the cursor one cell with an arrow key, staying inside the table; other keys leave
    /// it in place.
    pub fn step(&mut self, key: Key, rows: usize, columns: usize)
        requires
            columns > 0,
            old(self).fits(rows as int, columns as int),
        ensures
            final(self).fits(rows as int, columns as int),
            final(self).row == match key {
                Key::Down => if old(self).row + 1 < rows {
                    old(self).row + 1
                } else {
                    old(self).row as int
                },
                Key::Up => if old(self).row > 0 {
                    old(self).row - 1
                } else {
                    0
                },
                _ => old(self).row as int,
            },
            final(self).column == match key {
                Key::Right => if old(self).column + 1 < columns {
                    old(self).column + 1
                } else {
                    old(self).column as int
                },
                Key::Left => if old(self).column > 0 {
                    old(self).column - 1
                } else {
                    0
                },
                _ => old(self).column as int,
            },
    {
        match key {
            Key::Down => {
                if self.row + 1 < rows {
                    self.row = self.row + 1;
                }
            },
            Key::Up => {
                if self.row > 0 {
                    self.row = self.row - 1;
                }
            },
            Key::Right => {
                if self.column + 1 < columns {
                    self.column = self.column + 1;
                }
            },
            Key::Left => {
                if self.column > 0 {
                    self.column = self.column - 1;
                }
            },
            _ => {},
        }
    }

    /// Brings the row back inside a table that now has `rows` rows.
    pub fn clamp(&mut self, rows: usize)
        ensures
            final(self).column == old(self).column,
            final(self).row == if old(self).row < rows || rows == 0 {
                if rows == 0 {
                    0
                } else {
                    old(self).row as int
                }
            } else {
                rows - 1
            },
    {
        if rows == 0 {
            self.row = 0;
        } else if self.row >= rows {
            self.row = rows - 1;
        }
    }
}

} // verus!
