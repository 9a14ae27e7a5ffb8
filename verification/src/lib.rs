//! Core logic of a small desktop note/todo application shell: the versioned
//! SQLite schema registry that the migration runner consumes, and the startup
//! sequencer's window-visibility plan. The GUI framework, the SQL runner and
//! all I/O live outside this crate; everything here is pure and verified.

pub mod database;
pub mod startup;
