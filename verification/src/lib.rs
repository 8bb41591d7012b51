//! Verified core of podkit's API server: the deployment lifecycle, the
//! deploy pipeline's decisions, the crash-restart monitor, request-scoping
//! rules, configuration resolution and the shapes of the API's payloads.

pub mod auth;
pub mod config;
pub mod deploy_pipeline;
pub mod domain;
pub mod error;
pub mod health_monitor;
pub mod naming;
pub mod routes;
pub mod text;
