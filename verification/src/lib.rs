//! Splitting of Twee stories: the passage model, the canonical text of a
//! passage, and the composition of named groups of passages into documents.

pub mod passage;
pub mod archive;
pub mod commands;
pub mod export;
pub mod serialize;
pub mod state;
pub mod story;
