//! The messages of the CSI controller service, as far as the service
//! reads or writes them.

use vstd::prelude::*;
use crate::string_map::StringMap;

verus! {

/// How a volume may be accessed.
#[derive(Debug, Clone, Copy, PartialEq, Eq, Structural)]
pub struct AccessMode {
    /// The mode, by its number in the CSI specification.
    pub mode: i32,
}

/// What a volume must be capable of.
#[derive(Debug, Clone, Copy, PartialEq, Eq, Structural)]
pub struct VolumeCapability {
    /// The access mode asked for, if any.
    pub access_mode: Option<AccessMode>,
}

/// The size asked of a volume.
#[derive(Debug, Clone, Copy, PartialEq, Eq, Structural)]
pub struct CapacityRange {
    /// The least size in bytes.
    pub required_bytes: i64,
    /// The greatest size in bytes; zero for none.
    pub limit_bytes: i64,
}

/// Where a volume can be reached from, or is to be.
#[derive(Debug, PartialEq, Eq)]
pub struct Topology {
    /// What must hold of a node, by key.
    pub segments: StringMap,
}

/// Where the caller wants a volume to be reachable from.
#[derive(Debug, PartialEq, Eq)]
pub struct TopologyRequirement {
    /// Where the volume must be reachable from.
    pub requisite: Vec<Topology>,
    /// Where the caller would like the volume to be, best first.
    pub preferred: Vec<Topology>,
}

/// A request to create a volume.
#[derive(Debug)]
pub struct CreateVolumeRequest {
    /// The name the caller gives the volume.
    pub name: String,
    /// The size asked for.
    pub capacity_range: Option<CapacityRange>,
    /// What the volume must be capable of.
    pub volume_capabilities: Vec<VolumeCapability>,
    /// The parameters of the storage class.
    pub parameters: StringMap,
    /// Whether the request names a source to fill the volume from.
    pub has_content_source: bool,
    /// Where the volume is to be reachable from.
    pub accessibility_requirements: Option<TopologyRequirement>,
}

/// A volume as the service reports it.
#[derive(Debug, PartialEq, Eq)]
pub struct Volume {
    /// Size in bytes.
    pub capacity_bytes: i64,
    /// Identifier of the volume.
    pub volume_id: String,
    /// What the node plugin is to know of the volume.
    pub volume_context: StringMap,
    /// Where the volume can be reached from; empty for anywhere.
    pub accessible_topology: Vec<Topology>,
}

/// A request to publish a volume on a node.
#[derive(Debug)]
pub struct ControllerPublishVolumeRequest {
    /// Identifier of the volume.
    pub volume_id: String,
    /// Identifier of the node.
    pub node_id: String,
    /// What the volume must be capable of.
    pub volume_capability: Option<VolumeCapability>,
    /// Whether the volume is to be published read-only.
    pub readonly: bool,
    /// What `create_volume` reported as the volume's context.
    pub volume_context: StringMap,
}

/// A request to list volumes.
#[derive(Debug)]
pub struct ListVolumesRequest {
    /// The greatest number of entries wanted; zero for all.
    pub max_entries: i32,
    /// Where an earlier reply left off.
    pub starting_token: String,
}

/// A request for the capacity that is available.
#[derive(Debug)]
pub struct GetCapacityRequest {
    /// What volumes made of the capacity must be capable of.
    pub volume_capabilities: Vec<VolumeCapability>,
    /// Where the capacity must be reachable from.
    pub accessible_topology: Option<Topology>,
}

/// The reply to a request to create a volume.
#[derive(Debug, PartialEq, Eq)]
pub struct CreateVolumeResponse {
    /// The volume that was created, or that was there already.
    pub volume: Option<Volume>,
}

/// The reply to a request to publish a volume.
#[derive(Debug, PartialEq, Eq)]
pub struct ControllerPublishVolumeResponse {
    /// What the node plugin is to know of the published volume.
    pub publish_context: StringMap,
}

/// The reply to a request to list volumes.
#[derive(Debug, PartialEq, Eq)]
pub struct ListVolumesResponse {
    /// The volumes.
    pub entries: Vec<Volume>,
    /// Where a later request is to go on; empty, as every reply holds all
    /// that was asked for.
    pub next_token: String,
}

/// The reply to a request for the capacity that is available.
#[derive(Debug, PartialEq, Eq)]
pub struct GetCapacityResponse {
    /// The capacity in bytes.
    pub available_capacity: i64,
    /// The greatest size a volume can have, where there is a limit.
    pub maximum_volume_size: Option<i64>,
    /// The least size a volume can have, where there is a limit.
    pub minimum_volume_size: Option<i64>,
}

} // verus!
