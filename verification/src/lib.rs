//! The state engine of a keyboard-driven, two-level to-do list.
//!
//! The crate holds the in-memory side of the list manager: the item model,
//! the hierarchical display order, the reorder and edit operations, the
//! normal/insert state machine and the text cursor behind inline editing.
//! Storage and the terminal stay outside; every operation that wants
//! something persisted hands back a description of the request instead.

pub mod app;
pub mod app_laws;
pub mod clock;
pub mod cursor;
pub mod db;
pub mod keys;
pub mod list;
pub mod models;
pub mod ordering;
pub mod ordering_laws;
pub mod ui;
