//! Errors of deployment, initialization and execution.

use vstd::prelude::*;

verus! {

/// Code of the error reported when no runtime answers for a request.
pub const WRONG_RUNTIME: u8 = 1;

/// Code of the error reported when an artifact could not be deployed.
pub const DEPLOY_ERROR: u8 = 2;

/// Code of the error reported when a service could not be initialized.
pub const INIT_ERROR: u8 = 3;

/// Failure to deploy an artifact.
#[derive(Debug, Clone, Copy, PartialEq, Eq, Structural)]
pub enum DeployError {
    /// No runtime answers for the artifact's runtime identifier.
    WrongRuntime,
    /// The runtime does not know the artifact.
    WrongArtifact,
    /// The runtime could not prepare the artifact.
    FailedToDeploy,
}

/// Failure to execute a call, with the detail that the ledger records.
#[derive(Debug, Clone, PartialEq, Eq)]
pub struct ExecutionError {
    pub code: u8,
    pub description: Option<String>,
}

/// Failure to initialize a service instance.
#[derive(Debug, Clone, PartialEq, Eq)]
pub enum InitError {
    /// No runtime answers for the artifact's runtime identifier.
    WrongRuntime,
    /// The artifact was not deployed.
    NotDeployed,
    /// The instance identifier is taken.
    ServiceIdExists,
    /// The service's constructor failed.
    ExecutionError(ExecutionError),
}

impl ExecutionError {
    /// The description as a sequence of characters, if there is one.
    pub open spec fn description_view(&self) -> Option<Seq<char>> {
        match self.description {
            Some(text) => Some(text@),
            None => None,
        }
    }

    /// Whether this is the error with code `code` and the text `text`.
    pub open spec fn is(&self, code: u8, text: Seq<char>) -> bool {
        self.code == code && self.description_view() == Some(text)
    }

    /// Whether this is the error reported for a request that no runtime
    /// answers for.
    pub open spec fn is_wrong_runtime(&self) -> bool {
        self.is(WRONG_RUNTIME, "Wrong runtime"@)
    }

    /// An error with a code and no description.
    pub fn new(code: u8) -> (error: ExecutionError)
        ensures
            error.code == code,
            error.description is None,
    {
        ExecutionError { code, description: None }
    }

    /// An error with a code and a description.
    pub fn with_description(code: u8, description: &str) -> (error: ExecutionError)
        ensures
            error.is(code, description@),
    {
        ExecutionError { code, description: Some(description.to_owned()) }
    }

    /// Whether this is the execution error that is recorded for the
    /// deployment failure `error`.
    pub open spec fn records_deploy_error(&self, error: DeployError) -> bool {
        match error {
            DeployError::WrongRuntime => self.is_wrong_runtime(),
            DeployError::WrongArtifact => self.is(DEPLOY_ERROR, "Wrong artifact"@),
            DeployError::FailedToDeploy => self.is(DEPLOY_ERROR, "Failed to deploy"@),
        }
    }

    /// Whether this is the execution error that is recorded for the
    /// initialization failure `error`. A failure of the service's constructor
    /// is recorded as it is.
    pub open spec fn records_init_error(&self, error: InitError) -> bool {
        match error {
            InitError::WrongRuntime => self.is_wrong_runtime(),
            InitError::NotDeployed => self.is(INIT_ERROR, "Artifact is not deployed"@),
            InitError::ServiceIdExists => self.is(INIT_ERROR, "Service instance exists"@),
            InitError::ExecutionError(inner) => *self == inner,
        }
    }

    /// Turns a deployment failure into the execution error recorded for it.
    pub fn from_deploy_error(error: DeployError) -> (res: ExecutionError)
        ensures
            res.records_deploy_error(error),
    {
        match error {
            DeployError::WrongRuntime => ExecutionError::with_description(WRONG_RUNTIME, "Wrong runtime"),
            DeployError::WrongArtifact => ExecutionError::with_description(DEPLOY_ERROR, "Wrong artifact"),
            DeployError::FailedToDeploy => ExecutionError::with_description(DEPLOY_ERROR, "Failed to deploy"),
        }
    }

    /// Turns an initialization failure into the execution error recorded for
    /// it. A failure of the service's constructor is passed on as it is.
    pub fn from_init_error(error: InitError) -> (res: ExecutionError)
        ensures
            res.records_init_error(error),
    {
        match error {
            InitError::WrongRuntime => ExecutionError::with_description(WRONG_RUNTIME, "Wrong runtime"),
            InitError::NotDeployed => ExecutionError::with_description(INIT_ERROR, "Artifact is not deployed"),
            InitError::ServiceIdExists => ExecutionError::with_description(INIT_ERROR, "Service instance exists"),
            InitError::ExecutionError(inner) => inner,
        }
    }
}

} // verus!
