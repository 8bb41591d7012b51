//! An application's deployments.

pub mod create;
pub mod get;
pub mod list;
pub mod logs;
pub mod rollback;
