//! Deterministic construction of the process-launch descriptor.

use vstd::prelude::*;

use crate::settings::ProjectSettings;

verus! {

/// Everything the host needs to start the context server process:
/// executable, ordered argument list, and environment mapping as an
/// insertion-order list of key/value pairs. Created fresh on every request
/// and handed to the caller whole; never cached or mutated afterwards.
#[derive(Debug, PartialEq, Eq)]
pub struct LaunchDescriptor {
    /// Executable name: the platform's script runtime.
    pub command: String,
    /// Argument list: the one entry is the absolute entry-module path.
    pub args: Vec<String>,
    /// Environment entries, in fixed order.
    pub env: Vec<(String, String)>,
}

/// `d` is exactly the descriptor owed for project id `p`, credentials `c`
/// and entry-module path `path`: the `node` runtime, the path as the single
/// argument, and exactly the two environment entries `GOOGLE_CLOUD_PROJECT`
/// and `GOOGLE_APPLICATION_CREDENTIALS`, in that order, with the settings
/// values taken verbatim.
pub open spec fn descriptor_for(d: LaunchDescriptor, p: Seq<char>, c: Seq<char>, path: Seq<char>) -> bool {
    &&& d.command@ == "node"@
    &&& d.args@.len() == 1
    &&& d.args@[0]@ == path
    &&& d.env@.len() == 2
    &&& d.env@[0].0@ == "GOOGLE_CLOUD_PROJECT"@
    &&& d.env@[0].1@ == p
    &&& d.env@[1].0@ == "GOOGLE_APPLICATION_CREDENTIALS"@
    &&& d.env@[1].1@ == c
}

/// Builds the launch descriptor from validated settings and the absolute
/// path of the installed entry module. Pure and total: it always succeeds,
/// and the settings values are passed through verbatim, with no trimming
/// and no escaping.
pub fn build_descriptor(settings: ProjectSettings, install_path: String) -> (r: LaunchDescriptor)
    ensures
        descriptor_for(r, settings.project_id@, settings.credentials_json@, install_path@),
        r.args@[0] == install_path,
        r.env@[0].1 == settings.project_id,
        r.env@[1].1 == settings.credentials_json,
{
    let mut args: Vec<String> = Vec::new();
    args.push(install_path);
    let mut env: Vec<(String, String)> = Vec::new();
    env.push(("GOOGLE_CLOUD_PROJECT".to_owned(), settings.project_id));
    env.push(("GOOGLE_APPLICATION_CREDENTIALS".to_owned(), settings.credentials_json));
    LaunchDescriptor { command: "node".to_owned(), args, env }
}

} // verus!
