//! Overlay API integration: wire types, error mapping, the authentication
//! flows' decisions, token encryption and the event-stream policy.

pub mod types;
pub mod form;
pub mod client;
pub mod auth;
pub mod crypto;
pub mod tokens;
pub mod sse;

use vstd::prelude::*;

verus! {

/// Base URL of the ArtyCon API.
pub const API_BASE_URL: &'static str = "https://artycon.11e-foxhole.com";

/// The stable User-Agent string required by the API:
/// `ArtyConOverlay/<version> (<os>-<arch>)`.
pub open spec fn spec_user_agent(version: Seq<char>, os: Seq<char>, arch: Seq<char>) -> Seq<char> {
    "ArtyConOverlay/"@ + version + " ("@ + os + "-"@ + arch + ")"@
}

/// Builds the User-Agent string from the package version and the platform's
/// OS and architecture names.
pub fn format_user_agent(version: &str, os: &str, arch: &str) -> (r: String)
    ensures
        r@ == spec_user_agent(version@, os@, arch@),
{
    let mut r = String::from_str("ArtyConOverlay/");
    r.append(version);
    r.append(" (");
    r.append(os);
    r.append("-");
    r.append(arch);
    r.append(")");
    r
}

/// The full URL of an API path.
pub fn api_url(path: &str) -> (r: String)
    ensures
        r@ == API_BASE_URL@ + path@,
{
    let mut r = String::from_str(API_BASE_URL);
    r.append(path);
    r
}

/// Path listing the layers of an instance.
pub fn layers_path(instance_id: &str) -> (r: String)
    ensures
        r@ == "/api/overlay/instances/"@ + instance_id@ + "/layers"@,
{
    let mut r = String::from_str("/api/overlay/instances/");
    r.append(instance_id);
    r.append("/layers");
    r
}

/// Path of the snapshot of a layer.
pub fn snapshot_path(instance_id: &str, layer_id: &str) -> (r: String)
    ensures
        r@ == "/api/overlay/instances/"@ + instance_id@ + "/layers/"@ + layer_id@ + "/snapshot"@,
{
    let mut r = String::from_str("/api/overlay/instances/");
    r.append(instance_id);
    r.append("/layers/");
    r.append(layer_id);
    r.append("/snapshot");
    r
}

} // verus!
