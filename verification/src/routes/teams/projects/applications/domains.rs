//! Custom hostnames routed to an application.

pub mod create;
pub mod delete;
pub mod list;
