//! The error kinds of the launch pipeline and their user-visible messages.

use vstd::prelude::*;

verus! {

/// The precise reason a settings block failed structural decoding.
#[derive(Clone, Copy, Debug, PartialEq, Eq)]
pub enum DecodeFault {
    /// The block is present but is not a JSON object.
    NotAnObject,
    /// The block has no `project_id` key.
    MissingProjectId,
    /// `project_id` is present but is not a string.
    ProjectIdNotAString,
    /// `project_id` is present as a string, but empty.
    EmptyProjectId,
    /// The block has no `credentials_json` key.
    MissingCredentialsJson,
    /// `credentials_json` is present but is not a string.
    CredentialsJsonNotAString,
    /// `credentials_json` is present as a string, but empty.
    EmptyCredentialsJson,
}

impl DecodeFault {
    /// The decode diagnostic as text.
    pub open spec fn message_spec(self) -> Seq<char> {
        match self {
            DecodeFault::NotAnObject => "settings must be a JSON object with project_id and credentials_json"@,
            DecodeFault::MissingProjectId => "missing required field project_id"@,
            DecodeFault::ProjectIdNotAString => "project_id must be a string"@,
            DecodeFault::EmptyProjectId => "project_id must not be empty"@,
            DecodeFault::MissingCredentialsJson => "missing required field credentials_json"@,
            DecodeFault::CredentialsJsonNotAString => "credentials_json must be a string"@,
            DecodeFault::EmptyCredentialsJson => "credentials_json must not be empty"@,
        }
    }

    /// Builds the decode diagnostic.
    pub fn message(&self) -> (r: String)
        ensures
            r@ == self.message_spec(),
    {
        match self {
            DecodeFault::NotAnObject => "settings must be a JSON object with project_id and credentials_json".to_owned(),
            DecodeFault::MissingProjectId => "missing required field project_id".to_owned(),
            DecodeFault::ProjectIdNotAString => "project_id must be a string".to_owned(),
            DecodeFault::EmptyProjectId => "project_id must not be empty".to_owned(),
            DecodeFault::MissingCredentialsJson => "missing required field credentials_json".to_owned(),
            DecodeFault::CredentialsJsonNotAString => "credentials_json must be a string".to_owned(),
            DecodeFault::EmptyCredentialsJson => "credentials_json must not be empty".to_owned(),
        }
    }
}

/// A terminal failure of the launch pipeline. No partial descriptor is ever
/// returned alongside one of these; the first failure short-circuits.
#[derive(Debug, PartialEq, Eq)]
pub enum LaunchError {
    /// The package manager's version query or install failed; the host's
    /// message is carried verbatim.
    PackageResolution(String),
    /// No settings block exists for the context server in this project.
    MissingConfiguration,
    /// A settings block exists but failed structural decoding.
    MalformedConfiguration(DecodeFault),
}

impl LaunchError {
    /// The user-visible message: actionable text naming the missing or
    /// invalid fields, or the host's package-manager message verbatim.
    pub open spec fn message_spec(self) -> Seq<char> {
        match self {
            LaunchError::PackageResolution(m) => m@,
            LaunchError::MissingConfiguration => "missing BigQuery settings (project_id and credentials_json required)"@,
            LaunchError::MalformedConfiguration(f) => f.message_spec(),
        }
    }

    /// Builds the user-visible message.
    pub fn message(&self) -> (r: String)
        ensures
            r@ == self.message_spec(),
    {
        match self {
            LaunchError::PackageResolution(m) => m.clone(),
            LaunchError::MissingConfiguration => "missing BigQuery settings (project_id and credentials_json required)".to_owned(),
            LaunchError::MalformedConfiguration(f) => f.message(),
        }
    }
}

} // verus!
