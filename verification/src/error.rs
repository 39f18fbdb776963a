//! The service's errors and how each is shown to a client.

use vstd::prelude::*;
use vstd::string::StringExecFns;
use crate::store::StoreError;

verus! {

/// Everything that can go wrong while serving a request or starting up.
#[derive(Debug, PartialEq, Eq)]
pub enum AppError {
    /// The store could not be reached, or failed a command.
    RedisError(StoreError),
    /// A setting in the environment could not be read; the text says why.
    EnvVarError(String),
    /// Input or output failed; the text says why.
    IoError(String),
    /// A static page is not in the bundle; the text names it.
    AssetNotFound(String),
}

impl AppError {
    /// The HTTP status that answers a request which ended in this error.
    pub open spec fn status(self) -> int {
        match self {
            AppError::AssetNotFound(_) => 404,
            _ => 500,
        }
    }

    /// The short body sent with the status. It names the kind of failure
    /// and nothing of its cause.
    pub open spec fn summary(self) -> Seq<char> {
        match self {
            AppError::RedisError(_) => "Redis error"@,
            AppError::EnvVarError(_) => "Environment variable error"@,
            AppError::IoError(_) => "IO error"@,
            AppError::AssetNotFound(_) => "Asset not found"@,
        }
    }

    /// The detail that the error carries.
    pub open spec fn detail(self) -> Seq<char> {
        match self {
            AppError::RedisError(cause) => cause.cause(),
            AppError::EnvVarError(text) => text@,
            AppError::IoError(text) => text@,
            AppError::AssetNotFound(name) => name@,
        }
    }

    /// The full description: the kind of failure, a colon, and the detail.
    pub open spec fn description(self) -> Seq<char> {
        self.summary() + ": "@ + self.detail()
    }

    /// Gives the HTTP status for this error: 404 for a missing page, 500 otherwise.
    pub fn status_code(&self) -> (code: u16)
        ensures
            code as int == self.status(),
            code == 404 || code == 500,
            code == 404 <==> (*self matches AppError::AssetNotFound(_)),
    {
        match self {
            AppError::AssetNotFound(_) => 404,
            _ => 500,
        }
    }

    /// Gives the short body for this error.
    pub fn message(&self) -> (text: &'static str)
        ensures
            text@ == self.summary(),
    {
        match self {
            AppError::RedisError(_) => "Redis error",
            AppError::EnvVarError(_) => "Environment variable error",
            AppError::IoError(_) => "IO error",
            AppError::AssetNotFound(_) => "Asset not found",
        }
    }

    /// Writes the full description of this error.
    pub fn describe(&self) -> (text: String)
        ensures
            text@ == self.description(),
    {
        let detail: &str = match self {
            AppError::RedisError(cause) => cause.cause_text(),
            AppError::EnvVarError(text) => text.as_str(),
            AppError::IoError(text) => text.as_str(),
            AppError::AssetNotFound(name) => name.as_str(),
        };
        String::from_str(self.message()).concat(": ").concat(detail)
    }

    /// Turns the error into what a client is sent: a status and a short
    /// body, with no detail of the cause.
    pub fn into_response(self) -> (response: (u16, String))
        ensures
            response.0 as int == self.status(),
            response.1@ == self.summary(),
    {
        let status = self.status_code();
        let body = String::from_str(self.message());
        (status, body)
    }
}

} // verus!
