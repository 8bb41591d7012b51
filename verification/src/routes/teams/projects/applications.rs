//! Applications: configuration, lifecycle (stop, restart) and what hangs
//! off them (deployments, env vars, custom domains).

pub mod create;
pub mod delete;
pub mod deployments;
pub mod domains;
pub mod env_vars;
pub mod list;
pub mod restart;
pub mod stop;
pub mod update;
