//! Team memberships.

pub mod add;
pub mod list;
pub mod update_role;
