//! Idempotent reconciliation of the required companion package's version.

use vstd::prelude::*;

verus! {

/// The fixed dependency of the resolver and the builder: which package the
/// context server lives in, the exact version it must have, and where its
/// entry module sits once installed.
#[derive(Debug)]
pub struct PackageSpec {
    /// Package identifier in the host's package registry.
    pub name: String,
    /// Exact required version; equality is strict string comparison.
    pub version: String,
    /// Relative on-disk path of the server's entry module once installed.
    pub server_path: String,
}

impl PackageSpec {
    /// The BigQuery context server's package, pinned version and entry
    /// module path. These constants are part of the observable contract
    /// with the external server package.
    pub fn bigquery() -> (r: PackageSpec)
        ensures
            r.name@ == "@rickydata/bigquery-context-server"@,
            r.version@ == "0.1.1"@,
            r.server_path@ == "node_modules/@rickydata/bigquery-context-server/index.mjs"@,
    {
        PackageSpec {
            name: "@rickydata/bigquery-context-server".to_owned(),
            version: "0.1.1".to_owned(),
            server_path: "node_modules/@rickydata/bigquery-context-server/index.mjs".to_owned(),
        }
    }
}

/// The one install action the resolver may request of the host's package
/// manager: install `name` at exactly `version`.
#[derive(Debug, PartialEq, Eq)]
pub struct InstallRequest {
    pub name: String,
    pub version: String,
}

/// The installed version satisfies the requirement: some version is
/// installed and it equals the required one exactly. No range matching, no
/// greater-or-equal tolerance.
pub open spec fn up_to_date(required: Seq<char>, installed: Option<String>) -> bool {
    installed matches Some(v) && v@ == required
}

/// The resolver's decision: given what the host reports as the installed
/// version of the package (`None` when it is not installed at all), request
/// an install of the exact required version when and only when the
/// installed version differs from it. When the required version is already
/// installed, no action is requested, which makes repeated reconciliation
/// idempotent. A mismatch in either direction is reinstalled at the pinned
/// version, so this may downgrade as well as upgrade.
pub fn plan_install(spec: &PackageSpec, installed: Option<String>) -> (r: Option<InstallRequest>)
    ensures
        r is None <==> up_to_date(spec.version@, installed),
        r matches Some(req) ==> req.name@ == spec.name@ && req.version@ == spec.version@,
{
    let matches_required = match &installed {
        Some(v) => *v == spec.version,
        None => false,
    };
    if matches_required {
        None
    } else {
        Some(InstallRequest { name: spec.name.clone(), version: spec.version.clone() })
    }
}

} // verus!
