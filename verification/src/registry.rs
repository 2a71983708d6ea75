//! Stored alerts: the record type the engine works on and the rules the
//! creation path applies before a record is written.

pub mod types;
pub mod utils;
