//! Verified core of a small blog service.
//!
//! - [`data::model`]: the blog and the payloads that create and update it.
//! - [`data::table`]: the table of blogs, one row per identifier.
//! - [`data::repository`]: what a blog repository owes its callers, and the
//!   repository over a table.
//! - [`data::laws`]: what holds of the repository's operations taken together.
//! - [`utils`]: the error a client sees, with its status code.
//! - [`route`]: what each endpoint answers.
//!
//! Everything is proved except one thing, which is taken from the `uuid`
//! crate on trust: that a freshly generated identifier has the version and
//! variant bits of a random UUID.

pub mod data;
pub mod route;
pub mod utils;
