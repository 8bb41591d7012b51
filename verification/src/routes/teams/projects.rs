//! Projects and the applications they group.

pub mod applications;
pub mod create;
pub mod delete;
pub mod list;
