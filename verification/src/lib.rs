//! An inventory of products: an ordered in-memory store, its persisted form
//! as a table of text, its fixed-width display and the dialogue at the
//! console, verified with Verus.

pub mod category;
pub mod csv_format;
pub mod decimal;
pub mod input;
pub mod laws;
pub mod persist;
pub mod price;
pub mod product;
pub mod session;
pub mod store;
pub mod table;
pub mod text;
