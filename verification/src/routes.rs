//! The requests of the web interface, and what its handlers decide before
//! they reach the database.

pub mod notes;
pub mod phrases;
pub mod readings;
pub mod reviews;
pub mod words;
