//! The rules of the command line tools that stand apart from their databases and requests.

pub mod download;
pub mod transform;
