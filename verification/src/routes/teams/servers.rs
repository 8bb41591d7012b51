//! Deployment targets of a team.

pub mod create;
pub mod delete;
pub mod list;
