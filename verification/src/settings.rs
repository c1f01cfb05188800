//! Typed validation of the host-supplied, project-scoped settings block.

use vstd::prelude::*;

use crate::error::{DecodeFault, LaunchError};

verus! {

/// What a settings block holds at one of the required keys, as read from the
/// host's untyped structured value.
#[derive(Debug)]
pub enum FieldValue {
    /// The key is not present in the block.
    Absent,
    /// The key is present as a JSON string with this content.
    Text(String),
    /// The key is present but holds something other than a string.
    WrongType,
}

/// The host-supplied settings block, reduced to the shape the validator
/// reads: whether it is an object, and what it holds at the two required
/// keys. Keys other than these two are ignored.
#[derive(Debug)]
pub enum SettingsBlock {
    /// The block is present but is not a JSON object.
    NotAnObject,
    /// The block is a JSON object; these are its two relevant fields.
    Fields { project_id: FieldValue, credentials_json: FieldValue },
}

/// Validated configuration for one project / context-server binding.
/// Both fields are present and non-empty; absence or emptiness is a
/// validation failure, never a default-substitution case.
#[derive(Debug, PartialEq, Eq)]
pub struct ProjectSettings {
    /// Identifier of the target cloud project.
    pub project_id: String,
    /// Filesystem path or inline credential payload, passed through opaquely.
    pub credentials_json: String,
}

impl ProjectSettings {
    /// Both fields are non-empty: what the validator guarantees of every
    /// value it returns.
    pub open spec fn wf(self) -> bool {
        self.project_id@.len() > 0 && self.credentials_json@.len() > 0
    }
}

/// The first decode fault of a block, if any: the block must be an object
/// whose `project_id` and `credentials_json` are non-empty strings, with
/// `project_id` judged first.
pub open spec fn block_fault(b: SettingsBlock) -> Option<DecodeFault> {
    match b {
        SettingsBlock::NotAnObject => Some(DecodeFault::NotAnObject),
        SettingsBlock::Fields { project_id, credentials_json } => match project_id {
            FieldValue::Absent => Some(DecodeFault::MissingProjectId),
            FieldValue::WrongType => Some(DecodeFault::ProjectIdNotAString),
            FieldValue::Text(p) => if p@.len() == 0 {
                Some(DecodeFault::EmptyProjectId)
            } else {
                match credentials_json {
                    FieldValue::Absent => Some(DecodeFault::MissingCredentialsJson),
                    FieldValue::WrongType => Some(DecodeFault::CredentialsJsonNotAString),
                    FieldValue::Text(c) => if c@.len() == 0 {
                        Some(DecodeFault::EmptyCredentialsJson)
                    } else {
                        None
                    },
                }
            },
        },
    }
}

/// `s` is exactly the decoding of `b`: the block is an object whose two
/// required fields are strings carrying `s`'s values.
pub open spec fn decodes_to(b: SettingsBlock, s: ProjectSettings) -> bool {
    b matches SettingsBlock::Fields {
        project_id: FieldValue::Text(p),
        credentials_json: FieldValue::Text(c),
    } && s.project_id@ == p@ && s.credentials_json@ == c@
}

/// Decodes the settings block fetched for a context server, if one was
/// present at all. Either both fields are valid and a complete
/// `ProjectSettings` is returned, or the call fails: no defaulting, no
/// partial success.
pub fn resolve_settings(block: Option<SettingsBlock>) -> (r: Result<ProjectSettings, LaunchError>)
    ensures
        match block {
            None => r matches Err(LaunchError::MissingConfiguration),
            Some(b) => match block_fault(b) {
                Some(f) => r matches Err(LaunchError::MalformedConfiguration(g)) && g == f,
                None => r matches Ok(s) && s.wf() && decodes_to(b, s),
            },
        },
{
    let b = match block {
        None => {
            return Err(LaunchError::MissingConfiguration);
        },
        Some(b) => b,
    };
    match b {
        SettingsBlock::NotAnObject => Err(
            LaunchError::MalformedConfiguration(DecodeFault::NotAnObject),
        ),
        SettingsBlock::Fields { project_id, credentials_json } => {
            let project_id = match project_id {
                FieldValue::Absent => {
                    return Err(LaunchError::MalformedConfiguration(DecodeFault::MissingProjectId));
                },
                FieldValue::WrongType => {
                    return Err(
                        LaunchError::MalformedConfiguration(DecodeFault::ProjectIdNotAString),
                    );
                },
                FieldValue::Text(p) => p,
            };
            if project_id.as_str().is_empty() {
                return Err(LaunchError::MalformedConfiguration(DecodeFault::EmptyProjectId));
            }
            let credentials_json = match credentials_json {
                FieldValue::Absent => {
                    return Err(
                        LaunchError::MalformedConfiguration(DecodeFault::MissingCredentialsJson),
                    );
                },
                FieldValue::WrongType => {
                    return Err(
                        LaunchError::MalformedConfiguration(DecodeFault::CredentialsJsonNotAString),
                    );
                },
                FieldValue::Text(c) => c,
            };
            if credentials_json.as_str().is_empty() {
                return Err(LaunchError::MalformedConfiguration(DecodeFault::EmptyCredentialsJson));
            }
            Ok(ProjectSettings { project_id, credentials_json })
        },
    }
}

} // verus!
