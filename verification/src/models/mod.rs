//! Resources as the REST interface shows them.

pub mod volume_spec_operation;

use vstd::prelude::*;
use vstd::std_specs::convert::FromSpecImpl;
use crate::message_bus::{Protocol, VolumeHealPolicy, VolumeStatus};
use crate::models::volume_spec_operation::{kind_of, Operation};
use crate::store::transaction;
use crate::store::volume;
use crate::store::volume::VolumeOperationState;
use crate::trusted::{parse_uuid, uuid_value};

verus! {

/// Lifecycle stage of a resource.
#[derive(Debug, Clone, Copy, PartialEq, Eq, Structural)]
pub enum SpecStatus {
    Creating,
    Created,
    Deleting,
    Deleted,
}

/// The stage a ledger status shows as: what is known of a created resource
/// is left out.
pub open spec fn status_of<T>(status: transaction::SpecStatus<T>) -> SpecStatus {
    match status {
        transaction::SpecStatus::Creating => SpecStatus::Creating,
        transaction::SpecStatus::Created(_) => SpecStatus::Created,
        transaction::SpecStatus::Deleting => SpecStatus::Deleting,
        transaction::SpecStatus::Deleted => SpecStatus::Deleted,
    }
}

impl<T> From<transaction::SpecStatus<T>> for SpecStatus {
    fn from(src: transaction::SpecStatus<T>) -> (status: Self) {
        match src {
            transaction::SpecStatus::Creating => SpecStatus::Creating,
            transaction::SpecStatus::Created(_) => SpecStatus::Created,
            transaction::SpecStatus::Deleting => SpecStatus::Deleting,
            transaction::SpecStatus::Deleted => SpecStatus::Deleted,
        }
    }
}

impl<T> FromSpecImpl<transaction::SpecStatus<T>> for SpecStatus {
    open spec fn obeys_from_spec() -> bool {
        true
    }

    open spec fn from_spec(src: transaction::SpecStatus<T>) -> Self {
        status_of(src)
    }
}

/// The operation in flight on a volume, as the REST interface shows it.
#[derive(Debug, Clone, Copy, PartialEq, Eq, Structural)]
pub struct VolumeSpecOperation {
    /// Kind of the operation.
    pub operation: Operation,
    /// Result of the operation, once known.
    pub result: Option<bool>,
}

impl VolumeSpecOperation {
    /// The operation record made of all its fields.
    pub fn new_all(operation: Operation, result: Option<bool>) -> (record: Self)
        ensures
            record == (VolumeSpecOperation { operation, result }),
    {
        VolumeSpecOperation { operation, result }
    }
}

impl From<VolumeOperationState> for VolumeSpecOperation {
    fn from(src: VolumeOperationState) -> (record: Self) {
        VolumeSpecOperation::new_all(Operation::from(src.operation), src.result)
    }
}

impl FromSpecImpl<VolumeOperationState> for VolumeSpecOperation {
    open spec fn obeys_from_spec() -> bool {
        true
    }

    open spec fn from_spec(src: VolumeOperationState) -> Self {
        VolumeSpecOperation { operation: kind_of(src.operation), result: src.result }
    }
}

/// The specification of a volume, as the REST interface shows it.
#[derive(Debug)]
pub struct VolumeSpec {
    /// Volume labels.
    pub labels: Vec<String>,
    /// Number of children the volume should have.
    pub num_replicas: u8,
    /// The operation in flight, if any.
    pub operation: Option<VolumeSpecOperation>,
    /// Protocol that the volume should be shared over.
    pub protocol: Protocol,
    /// Size that the volume should be.
    pub size: u64,
    /// Lifecycle stage.
    pub status: SpecStatus,
    /// The node where front-end I/O is sent to.
    pub target_node: Option<String>,
    /// Volume identifier, as its 128-bit value.
    pub uuid: u128,
}

/// How the REST interface shows the ledger's specification `src`, whose
/// identifier has the 128-bit value `uuid`.
pub open spec fn volume_spec_shown(src: volume::VolumeSpec, uuid: u128) -> VolumeSpec {
    VolumeSpec {
        labels: src.labels,
        num_replicas: src.num_replicas,
        operation: match src.operation {
            Some(state) => Some(
                VolumeSpecOperation { operation: kind_of(state.operation), result: state.result },
            ),
            None => None,
        },
        protocol: src.protocol,
        size: src.size,
        status: status_of(src.status),
        target_node: match src.target {
            Some(target) => Some(target.node.0),
            None => None,
        },
        uuid,
    }
}

impl VolumeSpec {
    /// Shows the ledger's specification `src`, given the 128-bit value
    /// `uuid` of its identifier.
    pub fn new_all(src: volume::VolumeSpec, uuid: u128) -> (shown: Self)
        ensures
            shown == volume_spec_shown(src, uuid),
    {
        VolumeSpec {
            labels: src.labels,
            num_replicas: src.num_replicas,
            operation: match src.operation {
                Some(state) => Some(VolumeSpecOperation::from(state)),
                None => None,
            },
            protocol: src.protocol,
            size: src.size,
            status: SpecStatus::from(src.status),
            target_node: match src.target {
                Some(target) => Some(target.node.0),
                None => None,
            },
            uuid,
        }
    }

    /// Shows the ledger's specification `src`. There is nothing to show,
    /// and `None` comes back, exactly when the volume's identifier does
    /// not spell a UUID.
    pub fn from(src: volume::VolumeSpec) -> (shown: Option<Self>)
        ensures
            shown == match uuid_value(src.uuid@) {
                Some(uuid) => Some(volume_spec_shown(src, uuid)),
                None => None,
            },
    {
        match parse_uuid(src.uuid.as_str()) {
            Some(uuid) => Some(VolumeSpec::new_all(src, uuid)),
            None => None,
        }
    }
}

/// A nexus, as the REST interface shows it.
#[derive(Debug)]
pub struct Nexus {
    /// URI of the device the nexus exposes; empty while it exposes none.
    pub device_uri: String,
    /// Node the nexus lives on.
    pub node: String,
    /// Identifier of the nexus, as its 128-bit value.
    pub uuid: u128,
}

/// The runtime state of a volume, as the REST interface shows it.
#[derive(Debug)]
pub struct VolumeState {
    /// The nexus that exposes the volume, while it is published.
    pub child: Option<Nexus>,
    /// Protocol the volume is shared over.
    pub protocol: Protocol,
    /// Size in bytes.
    pub size: u64,
    /// Runtime status.
    pub status: VolumeStatus,
    /// Volume identifier, as its 128-bit value.
    pub uuid: u128,
}

/// A volume, as the REST interface shows it.
#[derive(Debug)]
pub struct Volume {
    /// Desired specification.
    pub spec: VolumeSpec,
    /// Runtime state, where known.
    pub state: Option<VolumeState>,
}

/// A storage node, as the REST interface shows it.
#[derive(Debug)]
pub struct Node {
    /// Name of the node.
    pub id: String,
}

/// Runtime status of a pool.
#[derive(Debug, Clone, Copy, PartialEq, Eq, Structural)]
pub enum PoolStatus {
    Unknown,
    Online,
    Degraded,
    Faulted,
}

/// The runtime state of a pool, as the REST interface shows it.
#[derive(Debug)]
pub struct PoolState {
    /// Capacity in bytes.
    pub capacity: u64,
    /// Name of the pool.
    pub id: String,
    /// Node the pool lives on.
    pub node: String,
    /// Runtime status.
    pub status: PoolStatus,
    /// Bytes in use.
    pub used: u64,
}

/// A pool, as the REST interface shows it.
#[derive(Debug)]
pub struct Pool {
    /// Name of the pool.
    pub id: String,
    /// Runtime state, where known.
    pub state: Option<PoolState>,
}

/// Placement given by naming nodes, as the REST interface takes it.
#[derive(Debug)]
pub struct ExplicitTopology {
    /// Nodes the replicas may be placed on.
    pub allowed_nodes: Vec<String>,
    /// Nodes to try first.
    pub preferred_nodes: Vec<String>,
}

/// Placement of a volume's replicas, as the REST interface takes it.
#[derive(Debug)]
pub struct Topology {
    /// Placement by node names.
    pub explicit: Option<ExplicitTopology>,
}

/// The body of a request to create a volume.
#[derive(Debug)]
pub struct CreateVolumeBody {
    /// Healing policy.
    pub policy: VolumeHealPolicy,
    /// Number of replicas.
    pub replicas: u8,
    /// Size in bytes.
    pub size: u64,
    /// Placement of the replicas.
    pub topology: Topology,
}

} // verus!
