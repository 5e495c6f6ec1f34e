//! Changes to the store, and which of them bring new shows.

use vstd::prelude::*;
use vstd::string::*;
use crate::text::same_text;

verus! {

/// The database that holds the shows.
pub const MAIN_DATABASE: &'static str = "main";

/// The table that holds the shows.
pub const SHOW_TABLE: &'static str = "bgm";

/// What happened to a row of the store.
#[derive(Debug, Clone, Copy, PartialEq, Eq, Structural)]
pub enum Change {
    Insert,
    Update,
    Delete,
    Other,
}

/// Whether a change brings a new show: a row was inserted into the table of
/// shows of the main database.
pub open spec fn is_show_insert(change: Change, database: Seq<char>, table: Seq<char>) -> bool {
    change is Insert && database == MAIN_DATABASE@ && table == SHOW_TABLE@
}

/// Whether a change to the store calls for ingest and a wake of the
/// scheduler. Every other change is passed over.
pub fn brings_show(change: Change, database: &str, table: &str) -> (yes: bool)
    ensures
        yes == is_show_insert(change, database@, table@),
{
    match change {
        Change::Insert => same_text(database, MAIN_DATABASE) && same_text(table, SHOW_TABLE),
        _ => false,
    }
}

} // verus!
