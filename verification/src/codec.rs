//! The JSON shapes of the records: how each is read from a document and
//! written as one.

pub mod fields;
pub mod providers;
pub mod search;
