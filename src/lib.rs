//! An inventory of items and storage locations, kept in SQLite, and the stack of interactive
//! screens that create, list, search and edit them.
//!
//! - `store`: the inventory store, with unique ids and sound location references.
//! - `sqlite`: the SQLite calls the store is built on, with what each is relied on to do.
//! - `applets`: the screens, each a state machine over key presses.
//! - `navigator`: the stack of screens and the transitions between them.
//! - `text`, `number`: case-insensitive search and decimal integers.

pub mod text;
pub mod number;
pub mod store;
pub mod sqlite;
pub mod applets;
pub mod navigator;
