//! Teams and everything scoped under one.

pub mod create;
pub mod list;
pub mod members;
pub mod projects;
pub mod roles;
pub mod servers;
