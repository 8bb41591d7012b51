//! Application env vars; values are encrypted at rest and never returned.

pub mod create;
pub mod delete;
pub mod list;
