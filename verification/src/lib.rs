//! Extraction of a quote record from the markup of a financial quote page.
//!
//! `text` holds the plain text operations, `page` the boundary to the markup
//! parser, `quote` the record and its assembly, `batch` the answers to a
//! request for one code and for the built-in list, and `console` the
//! decisions of the menu front end.

pub mod text;
pub mod page;
pub mod quote;
pub mod batch;
pub mod console;
