//! Task lifecycle scheduling for episodic releases.
//!
//! A calendar of shows is turned into one task per expected episode. Each task
//! waits for its air time, is matched against a listing of recent releases,
//! handed to a download daemon and followed until the download is complete.
//!
//! The library holds the decisions: which days episodes air on, which tasks
//! are due, when the listing may be fetched again, which release a task
//! claims, and how a task moves from one state to the next. Reading the
//! store, the network and the clock is left to the caller, who hands the
//! library plain values and carries out the actions it returns.

pub mod aria2;
pub mod bgminfo;
pub mod calendar;
pub mod db;
pub mod moe;
pub mod pattern;
pub mod proc;
pub mod scheduler;
pub mod seqs;
pub mod task;
pub mod taskinfo;
pub mod text;
