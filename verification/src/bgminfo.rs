//! Shows: the calendar entries that tasks are made from.

use vstd::prelude::*;
use vstd::string::*;
use crate::seqs::{lemma_filter_empty, lemma_filter_push};

verus! {

/// Not yet turned into tasks.
pub const UNPROCESSED: u8 = 0;

/// Turned into tasks.
pub const PROCESSED: u8 = 1;

/// Its start date, weekday or air time cannot be scheduled.
pub const INVALID: u8 = 2;

/// A show of the calendar.
#[derive(Debug)]
pub struct Bgm {
    pub id: u32,
    pub name: String,
    pub chinese: String,
    pub start_date: String,
    pub weekday: u8,
    pub clock: u8,
    pub episode: u8,
    pub episode_count: u8,
    pub regex: String,
    pub path: String,
    pub state: u8,
}

/// A show as plain values.
pub struct BgmView {
    pub id: u32,
    pub name: Seq<char>,
    pub chinese: Seq<char>,
    pub start_date: Seq<char>,
    pub weekday: u8,
    pub clock: u8,
    pub episode: u8,
    pub episode_count: u8,
    pub regex: Seq<char>,
    pub path: Seq<char>,
    pub state: u8,
}

impl View for Bgm {
    type V = BgmView;

    open spec fn view(&self) -> BgmView {
        BgmView {
            id: self.id,
            name: self.name@,
            chinese: self.chinese@,
            start_date: self.start_date@,
            weekday: self.weekday,
            clock: self.clock,
            episode: self.episode,
            episode_count: self.episode_count,
            regex: self.regex@,
            path: self.path@,
            state: self.state,
        }
    }
}

impl Clone for Bgm {
    fn clone(&self) -> (copy: Bgm)
        ensures
            copy@ == self@,
    {
        Bgm {
            id: self.id,
            name: self.name.clone(),
            chinese: self.chinese.clone(),
            start_date: self.start_date.clone(),
            weekday: self.weekday,
            clock: self.clock,
            episode: self.episode,
            episode_count: self.episode_count,
            regex: self.regex.clone(),
            path: self.path.clone(),
            state: self.state,
        }
    }
}

/// A show as the store holds it: some of its columns may be empty.
#[derive(Debug)]
pub struct BgmRow {
    pub id: u32,
    pub name: String,
    pub chinese: Option<String>,
    pub start_date: Option<String>,
    pub weekday: u8,
    pub clock: Option<u8>,
    pub episode: Option<u8>,
    pub episode_count: Option<u8>,
    pub regex: String,
    pub path: Option<String>,
    pub state: u8,
}

/// The shows of a sequence as plain values, in the same order.
pub open spec fn bgm_views(shows: Seq<Bgm>) -> Seq<BgmView> {
    shows.map_values(|b: Bgm| b@)
}

/// Where downloads go when a show names no directory.
pub open spec fn default_path() -> Seq<char> {
    "D:/download"@
}

/// The text of a column, or `fallback` where the column is empty.
pub open spec fn text_or(column: Option<String>, fallback: Seq<char>) -> Seq<char> {
    match column {
        Some(text) => text@,
        None => fallback,
    }
}

/// The number of a column, or 0 where the column is empty.
pub open spec fn number_or_zero(column: Option<u8>) -> u8 {
    match column {
        Some(n) => n,
        None => 0,
    }
}

/// The show that a row stands for: an empty text column reads as the empty
/// text, an empty number as 0, and an empty directory as [`default_path`].
pub open spec fn filled(row: BgmRow) -> BgmView {
    BgmView {
        id: row.id,
        name: row.name@,
        chinese: text_or(row.chinese, Seq::empty()),
        start_date: text_or(row.start_date, Seq::empty()),
        weekday: row.weekday,
        clock: number_or_zero(row.clock),
        episode: number_or_zero(row.episode),
        episode_count: number_or_zero(row.episode_count),
        regex: row.regex@,
        path: text_or(row.path, default_path()),
        state: row.state,
    }
}

/// The test that a row is unprocessed.
pub open spec fn unprocessed() -> spec_fn(BgmRow) -> bool {
    |row: BgmRow| row.state == UNPROCESSED
}

/// The change [`filled`].
pub open spec fn filling() -> spec_fn(BgmRow) -> BgmView {
    |row: BgmRow| filled(row)
}

fn text_of(column: &Option<String>, fallback: &str) -> (text: String)
    ensures
        text@ == text_or(*column, fallback@),
{
    match column {
        Some(text) => text.clone(),
        None => String::from_str(fallback),
    }
}

fn number_of(column: Option<u8>) -> (n: u8)
    ensures
        n == number_or_zero(column),
{
    match column {
        Some(n) => n,
        None => 0,
    }
}

/// Reads one row of the store as a show.
pub fn fill(row: &BgmRow) -> (show: Bgm)
    ensures
        show@ == filled(*row),
{
    proof {
        reveal_strlit("");
    }
    assert(""@ =~= Seq::<char>::empty());
    Bgm {
        id: row.id,
        name: row.name.clone(),
        chinese: text_of(&row.chinese, ""),
        start_date: text_of(&row.start_date, ""),
        weekday: row.weekday,
        clock: number_of(row.clock),
        episode: number_of(row.episode),
        episode_count: number_of(row.episode_count),
        regex: row.regex.clone(),
        path: text_of(&row.path, "D:/download"),
        state: row.state,
    }
}

/// Picks from the stored rows the shows that are not yet turned into tasks,
/// in the order of the rows.
pub fn get_new_bgms(rows: &Vec<BgmRow>) -> (shows: Vec<Bgm>)
    ensures
        bgm_views(shows@) == rows@.filter(unprocessed()).map_values(filling()),
{
    let mut shows: Vec<Bgm> = Vec::new();
    let mut i: usize = 0;
    proof {
        lemma_filter_empty::<BgmRow>(unprocessed());
    }
    assert(rows@.take(0) =~= Seq::<BgmRow>::empty());
    assert(bgm_views(shows@) =~= rows@.take(0).filter(unprocessed()).map_values(filling()));
    while i < rows.len()
        invariant
            i <= rows.len(),
            bgm_views(shows@) == rows@.take(i as int).filter(unprocessed()).map_values(
                filling(),
            ),
        decreases rows.len() - i,
    {
        let row = &rows[i];
        let ghost before = rows@.take(i as int).filter(unprocessed());
        proof {
            assert(rows@.take(i + 1) =~= rows@.take(i as int).push(*row));
            lemma_filter_push(rows@.take(i as int), *row, unprocessed());
        }
        if row.state == UNPROCESSED {
            let ghost old_shows = shows@;
            shows.push(fill(row));
            assert(bgm_views(shows@) =~= bgm_views(old_shows).push(filled(*row)));
            assert(before.push(*row).map_values(filling()) =~= before.map_values(
                filling(),
            ).push(filled(*row)));
        }
        i += 1;
    }
    assert(rows@.take(rows.len() as int) =~= rows@);
    shows
}

} // verus!
