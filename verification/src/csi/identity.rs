//! The CSI identity service: who the plugin is, what it can do, and
//! whether it is ready.

use vstd::prelude::*;
use crate::csi::client::ApiClientError;
use crate::csi::controller::{Code, Status, StatusView};
use crate::string_map::StringMap;

verus! {

/// The name under which the plugin registers.
pub open spec fn plugin_name() -> Seq<char> {
    "io.openebs.csi-mayastor"@
}

/// The version the plugin reports.
pub open spec fn plugin_version() -> Seq<char> {
    "0.5"@
}

/// Who the plugin is.
#[derive(Debug, PartialEq, Eq)]
pub struct GetPluginInfoResponse {
    /// The plugin's name.
    pub name: String,
    /// The plugin's version.
    pub vendor_version: String,
    /// More about the plugin; empty.
    pub manifest: StringMap,
}

/// Tells who the plugin is.
pub fn get_plugin_info() -> (info: GetPluginInfoResponse)
    ensures
        info.name@ == plugin_name(),
        info.vendor_version@ == plugin_version(),
        info.manifest@ == Map::<Seq<char>, Seq<char>>::empty(),
{
    GetPluginInfoResponse {
        name: "io.openebs.csi-mayastor".to_owned(),
        vendor_version: "0.5".to_owned(),
        manifest: StringMap::new(),
    }
}

/// What the plugin offers beside the identity service.
#[derive(Debug, Clone, Copy, PartialEq, Eq, Structural)]
pub enum PluginCapability {
    ControllerService,
    VolumeAccessibilityConstraints,
}

/// Tells what the plugin offers: a controller service, and volumes that
/// are not reachable from everywhere.
pub fn get_plugin_capabilities() -> (capabilities: Vec<PluginCapability>)
    ensures
        capabilities@ == seq![
            PluginCapability::ControllerService,
            PluginCapability::VolumeAccessibilityConstraints,
        ],
{
    let mut capabilities: Vec<PluginCapability> = Vec::new();
    capabilities.push(PluginCapability::ControllerService);
    capabilities.push(PluginCapability::VolumeAccessibilityConstraints);
    assert(capabilities@ =~= seq![
        PluginCapability::ControllerService,
        PluginCapability::VolumeAccessibilityConstraints,
    ]);
    capabilities
}

/// Whether the plugin is ready, given what became of listing the storage
/// nodes: `failure` is the error of that request, if it failed. The plugin
/// is not ready exactly when the REST interface could not be reached; any
/// other failure shows that it can be.
pub fn probe(failure: Option<&ApiClientError>) -> (ready: Result<bool, Status>)
    ensures
        match ready {
            Ok(ready) => ready && !(failure matches Some(
                ApiClientError::ServerCommunicationError(_),
            )),
            Err(status) => failure matches Some(ApiClientError::ServerCommunicationError(_))
                && status@ == (StatusView {
                code: Code::FailedPrecondition,
                message: "REST API gateway is not accessible"@,
            }),
        },
{
    match failure {
        Some(ApiClientError::ServerCommunicationError(_)) => Err(
            Status::failed_precondition("REST API gateway is not accessible"),
        ),
        _ => Ok(true),
    }
}

} // verus!
