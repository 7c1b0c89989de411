//! The verified core of an English-learning notebook.
//!
//! - `markdown`, with `text`, `section`, `layout`, `note`, `front_matter` and
//!   `datetime`: notes on words, phrases and readings as markdown files, and
//!   how they are written and read; `roundtrip` and `readback` prove that a
//!   written note reads back as it was written.
//! - `config`: the settings, their defaults, and where files live.
//! - `review`: what a graded review does to an item, and the checks and lines
//!   around it.
//! - `sync`: which of a note file and its database entry is newer, and what
//!   each changes in the other.
//! - `tui`: the terminal interface's state and what each key does to it.
//! - `cli`, `routes`, `prompt`, `chat`, `db`, `models`: what the commands, the
//!   web interface, prompt templates, the AI chat and the database layer
//!   decide before they touch files, the network or the database.

pub mod text;
pub mod section;
pub mod layout;
pub mod datetime;
pub mod front_matter;
pub mod note;
pub mod markdown;
pub mod roundtrip;
pub mod readback;
pub mod config;
pub mod tui;
pub mod review;
pub mod models;
pub mod sync;
pub mod cli;
pub mod prompt;
pub mod routes;
pub mod chat;
pub mod db;
