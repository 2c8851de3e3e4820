//! Normalises text exports of acoustic measurements into frequency / level / phase samples,
//! and holds the rules by which the command line tools around that parser name, walk and
//! report what they download.

pub mod commands;
pub mod database;
pub mod logger;
pub mod measurement_parser;
pub mod text;
