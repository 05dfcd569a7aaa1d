//! In-memory state of an interactive key-value editor whose pairs are
//! loaded from and written out as a flat JSON object.

pub mod app;
pub mod json;
pub mod laws;
pub mod pairs;
