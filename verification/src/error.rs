use vstd::prelude::*;

use crate::domain::DeploymentStatus;

verus! {

/// Errors raised by the domain model itself.
#[derive(Debug, Clone, PartialEq, Eq)]
pub enum DomainError {
    /// A storage or infrastructure failure, with its description.
    Infrastructure(String),
    /// A uniqueness constraint was violated (slug, hostname, ...).
    AlreadyExists,
    /// A deployment was asked to move between two statuses that are not linked.
    InvalidTransition(DeploymentStatus, DeploymentStatus),
}

/// Why the server configuration could not be resolved.
#[derive(Debug, Clone, PartialEq, Eq)]
pub enum ConfigError {
    /// A setting without a default was not provided; carries its variable name.
    Missing(String),
    /// A setting was provided but does not parse; carries its variable name.
    Invalid(String),
}

/// Every way an API request can fail, with the HTTP status it answers with.
#[derive(Debug, Clone, PartialEq, Eq)]
pub enum ServerError {
    StdIo(String),
    Axum(String),
    Forgeconf(ConfigError),
    Database(String),
    Domain(DomainError),
    MissingToken,
    InvalidToken,
    InvalidCredentials,
    Validation(String),
    EmailTaken,
    AlreadyMember,
    RoleNotAllowed,
    Forbidden,
    Internal,
    ProjectNotFound,
    ServerNotFound,
    ApplicationNotFound,
    DeploymentNotFound,
    DomainNotFound,
    EnvVarNotFound,
    ApplicationSlugTaken,
    DomainTaken,
    CannotDeleteLocalServer,
    InvalidSecretKey(String),
}

/// The HTTP status code each error is answered with.
pub open spec fn status_of(e: ServerError) -> u16 {
    match e {
        ServerError::StdIo(_) => 500,
        ServerError::Axum(_) => 500,
        ServerError::Forgeconf(_) => 500,
        ServerError::Database(_) => 500,
        ServerError::Domain(_) => 500,
        ServerError::MissingToken => 400,
        ServerError::InvalidToken => 401,
        ServerError::InvalidCredentials => 401,
        ServerError::Validation(_) => 400,
        ServerError::EmailTaken => 409,
        ServerError::AlreadyMember => 409,
        ServerError::RoleNotAllowed => 400,
        ServerError::Forbidden => 403,
        ServerError::Internal => 500,
        ServerError::ProjectNotFound => 404,
        ServerError::ServerNotFound => 404,
        ServerError::ApplicationNotFound => 404,
        ServerError::DeploymentNotFound => 404,
        ServerError::DomainNotFound => 404,
        ServerError::EnvVarNotFound => 404,
        ServerError::ApplicationSlugTaken => 409,
        ServerError::DomainTaken => 409,
        ServerError::CannotDeleteLocalServer => 400,
        ServerError::InvalidSecretKey(_) => 500,
    }
}

impl ServerError {
    pub fn status_code(&self) -> (code: u16)
        ensures
            code == status_of(*self),
    {
        match self {
            ServerError::StdIo(_) => 500,
            ServerError::Axum(_) => 500,
            ServerError::Forgeconf(_) => 500,
            ServerError::Database(_) => 500,
            ServerError::Domain(_) => 500,
            ServerError::MissingToken => 400,
            ServerError::InvalidToken => 401,
            ServerError::InvalidCredentials => 401,
            ServerError::Validation(_) => 400,
            ServerError::EmailTaken => 409,
            ServerError::AlreadyMember => 409,
            ServerError::RoleNotAllowed => 400,
            ServerError::Forbidden => 403,
            ServerError::Internal => 500,
            ServerError::ProjectNotFound => 404,
            ServerError::ServerNotFound => 404,
            ServerError::ApplicationNotFound => 404,
            ServerError::DeploymentNotFound => 404,
            ServerError::DomainNotFound => 404,
            ServerError::EnvVarNotFound => 404,
            ServerError::ApplicationSlugTaken => 409,
            ServerError::DomainTaken => 409,
            ServerError::CannotDeleteLocalServer => 400,
            ServerError::InvalidSecretKey(_) => 500,
        }
    }
}

impl From<DomainError> for ServerError {
    fn from(e: DomainError) -> (r: ServerError) {
        ServerError::Domain(e)
    }
}

impl vstd::std_specs::convert::FromSpecImpl<DomainError> for ServerError {
    open spec fn obeys_from_spec() -> bool {
        true
    }

    open spec fn from_spec(e: DomainError) -> ServerError {
        ServerError::Domain(e)
    }
}

impl From<ConfigError> for ServerError {
    fn from(e: ConfigError) -> (r: ServerError) {
        ServerError::Forgeconf(e)
    }
}

impl vstd::std_specs::convert::FromSpecImpl<ConfigError> for ServerError {
    open spec fn obeys_from_spec() -> bool {
        true
    }

    open spec fn from_spec(e: ConfigError) -> ServerError {
        ServerError::Forgeconf(e)
    }
}

} // verus!
