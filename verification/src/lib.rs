//! Batch conversion of lightweight-markup documents into standalone HTML
//! pages, written as a machine that decides and a host that does the I/O.

pub mod complete;
pub mod document;
pub mod engine;
pub mod job;
pub mod laws;
pub mod markup;
pub mod outcome;
pub mod path;
pub mod text;
pub mod title;
