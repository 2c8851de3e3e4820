//! What the tool requests from a site, and what it makes of the answers.

pub mod brands;
pub mod channels;
