//! What each endpoint of the service answers.

pub mod blog;
pub mod health;
