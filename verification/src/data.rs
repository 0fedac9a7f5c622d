//! Blog records and their storage.

pub mod laws;
pub mod model;
pub mod repository;
pub mod table;
