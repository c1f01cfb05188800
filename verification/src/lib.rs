//! Adapter logic for launching a BigQuery context server from a host
//! application. Three responsibilities, invoked in sequence on every
//! launch request: reconcile the required companion package's version,
//! validate the host-supplied project settings, and build the
//! process-launch descriptor. Each failure short-circuits the pipeline;
//! the host performs the package-manager and settings-storage I/O and
//! spawns the described process.

use vstd::prelude::*;

pub mod descriptor;
pub mod error;
pub mod package;
pub mod settings;

verus! {

use crate::descriptor::{LaunchDescriptor, build_descriptor, descriptor_for};
use crate::error::LaunchError;
use crate::settings::{FieldValue, SettingsBlock, block_fault, resolve_settings};

/// Validator and builder combined: decodes the settings block fetched for
/// the context server (`None` when the host had no block at all) and, when
/// it is valid, builds the launch descriptor around the entry-module path.
/// Exactly the descriptor owed for the block's two fields comes back, or
/// the first error; never a partial descriptor.
pub fn context_server_launch(block: Option<SettingsBlock>, install_path: String) -> (r: Result<
    LaunchDescriptor,
    LaunchError,
>)
    ensures
        match block {
            None => r matches Err(LaunchError::MissingConfiguration),
            Some(b) => match block_fault(b) {
                Some(f) => r matches Err(LaunchError::MalformedConfiguration(g)) && g == f,
                None => r matches Ok(d) && (b matches SettingsBlock::Fields {
                    project_id: FieldValue::Text(p),
                    credentials_json: FieldValue::Text(c),
                } && descriptor_for(d, p@, c@, install_path@)),
            },
        },
{
    let settings = match resolve_settings(block) {
        Ok(s) => s,
        Err(e) => {
            return Err(e);
        },
    };
    Ok(build_descriptor(settings, install_path))
}

} // verus!
