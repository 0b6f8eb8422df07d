//! A store of transcribed voice memos.
//!
//! The memos live in one table of a SQLite database, keyed by name. The
//! [`store::Store`] owns the connection and offers the operations on it:
//! listing, deleting, inserting, editing, merging several memos into one,
//! and turning memos into to-dos for the Things task manager.
//!
//! The database is outside the library. What an operation decides and
//! computes is proved: the rules of a merge in [`merge`], the tests on rows
//! that come back in [`rows`], the payload for Things in [`things3`]. What
//! the operations mean for a table is proved of a model, in [`model`] and
//! [`laws`].

pub mod error;
pub mod laws;
pub mod merge;
pub mod model;
pub mod order;
pub mod playback;
pub mod record;
pub mod rows;
pub mod sql;
pub mod store;
pub mod table;
pub mod text;
pub mod things3;

