//! Rows of the catalogue database as the tools read them.

pub mod squig;
