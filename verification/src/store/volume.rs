//! Volumes as the ledger holds them.

use vstd::prelude::*;
use vstd::std_specs::cmp::PartialEqSpecImpl;
use vstd::std_specs::convert::FromSpecImpl;
use crate::message_bus;
use crate::message_bus::{
    clone_nodes, protocol_of_request, CreateVolume, NexusId, NodeId, Protocol, ReplicaId,
    Topology, VolumeHealPolicy, VolumeId, VolumeShareProtocol, VolumeStatus,
};
use crate::store::definitions::{ObjectKey, StorableObject, StorableObjectType};
use crate::store::sequencer::{
    OperationSequence, OperationSequenceState, OperationSequencer, UuidString,
};
use crate::store::transaction::{SpecStatus, SpecTransaction};
use crate::text::clone_names;

verus! {

/// A label attached to a volume.
pub type VolumeLabel = String;

/// Lifecycle stage of a volume.
pub type VolumeSpecStatus = SpecStatus<VolumeStatus>;

/// A volume: what it should be and, where known, what it is.
#[derive(Debug)]
pub struct Volume {
    /// Current state of the volume.
    pub state: Option<VolumeState>,
    /// Desired volume specification.
    pub spec: VolumeSpec,
}

/// Runtime state of a volume. It should eventually satisfy the
/// specification.
#[derive(Debug)]
pub struct VolumeState {
    /// Volume identifier.
    pub uuid: VolumeId,
    /// Volume size.
    pub size: u64,
    /// Volume labels.
    pub labels: Vec<VolumeLabel>,
    /// Number of replicas.
    pub num_replicas: u8,
    /// Protocol that the volume is shared over.
    pub protocol: Protocol,
    /// Nexuses that make up the volume.
    pub nexuses: Vec<NexusId>,
    /// Number of front-end paths.
    pub num_paths: u8,
    /// Status of the volume.
    pub status: VolumeStatus,
}

/// Key under which the store holds the state of a volume.
#[derive(Debug)]
pub struct VolumeStateKey(pub VolumeId);

impl From<&VolumeId> for VolumeStateKey {
    fn from(id: &VolumeId) -> (key: Self) {
        VolumeStateKey(id.clone())
    }
}

impl FromSpecImpl<&VolumeId> for VolumeStateKey {
    open spec fn obeys_from_spec() -> bool {
        true
    }

    open spec fn from_spec(id: &VolumeId) -> Self {
        VolumeStateKey(*id)
    }
}

impl ObjectKey for VolumeStateKey {
    open spec fn kind(&self) -> StorableObjectType {
        StorableObjectType::VolumeState
    }

    open spec fn uuid(&self) -> Seq<char> {
        self.0@
    }

    fn key_type(&self) -> (kind: StorableObjectType) {
        StorableObjectType::VolumeState
    }

    fn key_uuid(&self) -> (id: String) {
        self.0.0.clone()
    }
}

impl StorableObject for VolumeState {
    type Key = VolumeStateKey;

    open spec fn object_kind(&self) -> StorableObjectType {
        StorableObjectType::VolumeState
    }

    open spec fn object_uuid(&self) -> Seq<char> {
        self.uuid@
    }

    fn key(&self) -> (key: VolumeStateKey) {
        VolumeStateKey(self.uuid.clone())
    }
}

/// Where the front-end I/O of a published volume goes: a node and the nexus
/// on it.
#[derive(Debug)]
pub struct VolumeTarget {
    /// The node where front-end I/O is sent to.
    pub node: NodeId,
    /// The nexus where front-end I/O is sent to.
    pub nexus: NexusId,
}

impl Clone for VolumeTarget {
    fn clone(&self) -> (copy: Self)
        ensures
            copy == *self,
    {
        VolumeTarget { node: self.node.clone(), nexus: self.nexus.clone() }
    }
}

impl Default for VolumeTarget {
    fn default() -> (target: Self)
        ensures
            target.node@.len() == 0,
            target.nexus@.len() == 0,
    {
        proof {
            reveal_strlit("");
        }
        VolumeTarget { node: NodeId::new(""), nexus: NexusId::new("") }
    }
}

impl VolumeTarget {
    /// The target made of `node` and `nexus`.
    pub fn new(node: NodeId, nexus: NexusId) -> (target: Self)
        ensures
            target == (VolumeTarget { node, nexus }),
    {
        Self { node, nexus }
    }

    /// The node of this target.
    pub fn node(&self) -> (node: &NodeId)
        ensures
            *node == self.node,
    {
        &self.node
    }

    /// The nexus of this target.
    pub fn nexus(&self) -> (nexus: &NexusId)
        ensures
            *nexus == self.nexus,
    {
        &self.nexus
    }
}

/// The operations that change a volume.
#[derive(Debug)]
pub enum VolumeOperation {
    Create,
    Destroy,
    Share(VolumeShareProtocol),
    Unshare,
    SetReplica(u8),
    Publish((NodeId, NexusId, Option<VolumeShareProtocol>)),
    Unpublish,
    RemoveUnusedReplica(ReplicaId),
}

impl Clone for VolumeOperation {
    fn clone(&self) -> (copy: Self)
        ensures
            copy == *self,
    {
        match self {
            VolumeOperation::Create => VolumeOperation::Create,
            VolumeOperation::Destroy => VolumeOperation::Destroy,
            VolumeOperation::Share(share) => VolumeOperation::Share(*share),
            VolumeOperation::Unshare => VolumeOperation::Unshare,
            VolumeOperation::SetReplica(count) => VolumeOperation::SetReplica(*count),
            VolumeOperation::Publish((node, nexus, share)) => VolumeOperation::Publish(
                (node.clone(), nexus.clone(), *share),
            ),
            VolumeOperation::Unpublish => VolumeOperation::Unpublish,
            VolumeOperation::RemoveUnusedReplica(replica) => VolumeOperation::RemoveUnusedReplica(
                replica.clone(),
            ),
        }
    }
}

/// The operation in flight on a volume, and its outcome once known.
#[derive(Debug)]
pub struct VolumeOperationState {
    /// Record of the operation.
    pub operation: VolumeOperation,
    /// Result of the operation.
    pub result: Option<bool>,
}

impl Clone for VolumeOperationState {
    fn clone(&self) -> (copy: Self)
        ensures
            copy == *self,
    {
        VolumeOperationState { operation: self.operation.clone(), result: self.result }
    }
}

/// What a user asks a volume to be, and where the ledger stands with it.
#[derive(Debug)]
pub struct VolumeSpec {
    /// Volume identifier.
    pub uuid: VolumeId,
    /// Size that the volume should be.
    pub size: u64,
    /// Volume labels.
    pub labels: Vec<VolumeLabel>,
    /// Number of children the volume should have.
    pub num_replicas: u8,
    /// Protocol that the volume should be shared over.
    pub protocol: Protocol,
    /// Status that the volume should eventually achieve.
    pub status: VolumeSpecStatus,
    /// The target where front-end I/O is sent to.
    pub target: Option<VolumeTarget>,
    /// Volume healing policy.
    pub policy: VolumeHealPolicy,
    /// Replica placement topology.
    pub topology: Topology,
    /// Update of the state in progress. Never persisted.
    pub sequencer: OperationSequence,
    /// Identifier of the last nexus used by the volume.
    pub last_nexus_id: Option<NexusId>,
    /// Record of the operation in progress.
    pub operation: Option<VolumeOperationState>,
}

/// Whether `copy` holds what `original` holds, field for field; labels and
/// topology are compared by the text they hold.
pub open spec fn is_copy_of(copy: VolumeSpec, original: VolumeSpec) -> bool {
    &&& copy.uuid == original.uuid
    &&& copy.size == original.size
    &&& copy.labels.deep_view() == original.labels.deep_view()
    &&& copy.num_replicas == original.num_replicas
    &&& copy.protocol == original.protocol
    &&& copy.status == original.status
    &&& copy.target == original.target
    &&& copy.policy == original.policy
    &&& copy.topology@ == original.topology@
    &&& copy.sequencer == original.sequencer
    &&& copy.last_nexus_id == original.last_nexus_id
    &&& copy.operation == original.operation
}

impl Clone for VolumeSpec {
    fn clone(&self) -> (copy: Self)
        ensures
            is_copy_of(copy, *self),
    {
        VolumeSpec {
            uuid: self.uuid.clone(),
            size: self.size,
            labels: clone_names(self.labels.as_slice()),
            num_replicas: self.num_replicas,
            protocol: self.protocol,
            status: self.status,
            target: match &self.target {
                Some(target) => Some(target.clone()),
                None => None,
            },
            policy: self.policy,
            topology: self.topology.clone(),
            sequencer: self.sequencer.clone(),
            last_nexus_id: match &self.last_nexus_id {
                Some(nexus) => Some(nexus.clone()),
                None => None,
            },
            operation: match &self.operation {
                Some(state) => Some(state.clone()),
                None => None,
            },
        }
    }
}

impl Default for VolumeSpec {
    /// The specification of no volume in particular: nothing is asked of
    /// it, it is still to be created, and nothing holds it.
    fn default() -> (spec: Self)
        ensures
            spec.uuid@.len() == 0,
            spec.size == 0,
            spec.labels@.len() == 0,
            spec.num_replicas == 0,
            spec.protocol == Protocol::Off,
            spec.status == VolumeSpecStatus::Creating,
            spec.target is None,
            spec.policy == (VolumeHealPolicy { self_heal: false }),
            spec.topology.explicit is None,
            spec.sequencer.uuid@.len() == 0,
            spec.sequencer.state == OperationSequenceState::Idle,
            spec.last_nexus_id is None,
            spec.operation is None,
    {
        proof {
            reveal_strlit("");
        }
        VolumeSpec {
            uuid: VolumeId::new(""),
            size: 0,
            labels: Vec::new(),
            num_replicas: 0,
            protocol: Protocol::Off,
            status: VolumeSpecStatus::Creating,
            target: None,
            policy: VolumeHealPolicy { self_heal: false },
            topology: Topology { explicit: None },
            sequencer: OperationSequence::new(String::new()),
            last_nexus_id: None,
            operation: None,
        }
    }
}

/// What is in flight on a volume, as the transaction protocol sees it.
pub open spec fn op_state_of(operation: Option<VolumeOperationState>) -> Option<
    (VolumeOperation, Option<bool>),
> {
    match operation {
        Some(state) => Some((state.operation, state.result)),
        None => None,
    }
}

/// The operation field that holds `state`.
pub open spec fn operation_of(state: Option<(VolumeOperation, Option<bool>)>) -> Option<
    VolumeOperationState,
> {
    match state {
        Some((operation, result)) => Some(VolumeOperationState { operation, result }),
        None => None,
    }
}

/// The fold table of volumes: what each operation, once it has succeeded,
/// makes of the specification.
pub open spec fn fold_volume(spec: VolumeSpec, operation: VolumeOperation) -> VolumeSpec {
    match operation {
        VolumeOperation::Destroy => VolumeSpec { status: SpecStatus::Deleted, ..spec },
        VolumeOperation::Create => VolumeSpec {
            status: SpecStatus::Created(VolumeStatus::Online),
            ..spec
        },
        VolumeOperation::Share(share) => VolumeSpec {
            protocol: message_bus::protocol_of(share),
            ..spec
        },
        VolumeOperation::Unshare => VolumeSpec { protocol: Protocol::Off, ..spec },
        VolumeOperation::SetReplica(count) => VolumeSpec { num_replicas: count, ..spec },
        VolumeOperation::RemoveUnusedReplica(_) => spec,
        VolumeOperation::Publish((node, nexus, share)) => VolumeSpec {
            target: Some(VolumeTarget { node, nexus }),
            last_nexus_id: Some(nexus),
            protocol: protocol_of_request(share),
            ..spec
        },
        VolumeOperation::Unpublish => VolumeSpec { target: None, protocol: Protocol::Off, ..spec },
    }
}

impl SpecTransaction<VolumeOperation> for VolumeSpec {
    open spec fn op_state(&self) -> Option<(VolumeOperation, Option<bool>)> {
        op_state_of(self.operation)
    }

    open spec fn with_op_state(self, state: Option<(VolumeOperation, Option<bool>)>) -> Self {
        VolumeSpec { operation: operation_of(state), ..self }
    }

    open spec fn folded(self, operation: VolumeOperation) -> Self {
        fold_volume(self, operation)
    }

    proof fn lemma_op_state(
        self,
        first: Option<(VolumeOperation, Option<bool>)>,
        second: Option<(VolumeOperation, Option<bool>)>,
    ) {
    }

    proof fn lemma_fold_keeps_op_state(
        self,
        state: Option<(VolumeOperation, Option<bool>)>,
        operation: VolumeOperation,
    ) {
    }

    fn pending_op(&self) -> (pending: bool) {
        self.operation.is_some()
    }

    fn take_op(&mut self) -> (state: Option<(VolumeOperation, Option<bool>)>) {
        match self.operation.take() {
            Some(VolumeOperationState { operation, result }) => Some((operation, result)),
            None => None,
        }
    }

    fn put_op(&mut self, operation: VolumeOperation, result: Option<bool>) {
        self.operation = Some(VolumeOperationState { operation, result });
    }

    fn fold(&mut self, operation: VolumeOperation) {
        match operation {
            VolumeOperation::Destroy => {
                self.status = SpecStatus::Deleted;
            },
            VolumeOperation::Create => {
                self.status = SpecStatus::Created(VolumeStatus::Online);
            },
            VolumeOperation::Share(share) => {
                self.protocol = Protocol::of(share);
            },
            VolumeOperation::Unshare => {
                self.protocol = Protocol::Off;
            },
            VolumeOperation::SetReplica(count) => {
                self.num_replicas = count;
            },
            VolumeOperation::RemoveUnusedReplica(_) => {},
            VolumeOperation::Publish((node, nexus, share)) => {
                self.last_nexus_id = Some(nexus.clone());
                self.target = Some(VolumeTarget::new(node, nexus));
                self.protocol = match share {
                    Some(share) => Protocol::of(share),
                    None => Protocol::Off,
                };
            },
            VolumeOperation::Unpublish => {
                self.target = None;
                self.protocol = Protocol::Off;
            },
        }
    }
}

} // verus!

verus! {

/// What a create request asks the specification of a volume to be: the
/// request's own fields, no labels, no target, not shared, status
/// `Creating`, nothing in flight, and an idle sequencer for the volume.
pub open spec fn is_spec_of_request(spec: VolumeSpec, request: CreateVolume) -> bool {
    &&& spec.uuid@ == request.uuid@
    &&& spec.size == request.size
    &&& spec.labels@.len() == 0
    &&& spec.num_replicas == request.replicas as u8
    &&& spec.protocol == Protocol::Off
    &&& spec.status == VolumeSpecStatus::Creating
    &&& spec.target is None
    &&& spec.policy == request.policy
    &&& spec.topology@ == request.topology@
    &&& spec.sequencer.uuid@ == request.uuid@
    &&& spec.sequencer.state == OperationSequenceState::Idle
    &&& spec.last_nexus_id is None
    &&& spec.operation is None
}

impl FromSpecImpl<&CreateVolume> for VolumeSpec {
    /// The specification made from a request owns copies of the request's
    /// strings and lists, so `from` states what it holds rather than which
    /// value it is.
    open spec fn obeys_from_spec() -> bool {
        false
    }

    open spec fn from_spec(request: &CreateVolume) -> Self {
        arbitrary()
    }
}

impl From<&CreateVolume> for VolumeSpec {
    fn from(request: &CreateVolume) -> (spec: Self)
        ensures
            is_spec_of_request(spec, *request),
    {
        Self {
            uuid: request.uuid.clone(),
            size: request.size,
            labels: Vec::new(),
            num_replicas: #[verifier::truncate] (request.replicas as u8),
            protocol: Protocol::Off,
            status: VolumeSpecStatus::Creating,
            target: None,
            policy: request.policy,
            topology: request.topology.clone(),
            sequencer: OperationSequence::new(request.uuid.0.clone()),
            last_nexus_id: None,
            operation: None,
        }
    }
}

/// Key under which the store holds the specification of a volume.
#[derive(Debug)]
pub struct VolumeSpecKey(pub VolumeId);

impl From<&VolumeId> for VolumeSpecKey {
    fn from(id: &VolumeId) -> (key: Self) {
        VolumeSpecKey(id.clone())
    }
}

impl FromSpecImpl<&VolumeId> for VolumeSpecKey {
    open spec fn obeys_from_spec() -> bool {
        true
    }

    open spec fn from_spec(id: &VolumeId) -> Self {
        VolumeSpecKey(*id)
    }
}

impl ObjectKey for VolumeSpecKey {
    open spec fn kind(&self) -> StorableObjectType {
        StorableObjectType::VolumeSpec
    }

    open spec fn uuid(&self) -> Seq<char> {
        self.0@
    }

    fn key_type(&self) -> (kind: StorableObjectType) {
        StorableObjectType::VolumeSpec
    }

    fn key_uuid(&self) -> (id: String) {
        self.0.0.clone()
    }
}

impl StorableObject for VolumeSpec {
    type Key = VolumeSpecKey;

    open spec fn object_kind(&self) -> StorableObjectType {
        StorableObjectType::VolumeSpec
    }

    open spec fn object_uuid(&self) -> Seq<char> {
        self.uuid@
    }

    fn key(&self) -> (key: VolumeSpecKey) {
        VolumeSpecKey(self.uuid.clone())
    }
}

impl OperationSequencer for VolumeSpec {
    open spec fn sequence(&self) -> OperationSequence {
        self.sequencer
    }

    fn as_ref(&self) -> (sequencer: &OperationSequence) {
        &self.sequencer
    }

    fn as_mut(&mut self) -> (sequencer: &mut OperationSequence)
        ensures
            *final(self) == (VolumeSpec { sequencer: *final(sequencer), ..*old(self) }),
    {
        &mut self.sequencer
    }
}

impl UuidString for VolumeSpec {
    open spec fn uuid_text(&self) -> Seq<char> {
        self.uuid@
    }

    fn uuid_as_string(&self) -> (id: String) {
        self.uuid.0.clone()
    }
}

/// The nodes a specification allows explicitly: those its topology names,
/// none where it names none.
pub open spec fn allowed_nodes_of(spec: VolumeSpec) -> Seq<Seq<char>> {
    match spec.topology@ {
        Some(explicit) => explicit.allowed_nodes,
        None => Seq::empty(),
    }
}

/// The replica count a specification is heading for: the count of the
/// `SetReplica` in flight, else the current one.
pub open spec fn desired_num_replicas_of(spec: VolumeSpec) -> u8 {
    match spec.operation {
        Some(VolumeOperationState { operation: VolumeOperation::SetReplica(count), .. }) => count,
        _ => spec.num_replicas,
    }
}

impl VolumeSpec {
    /// The explicitly selected allowed nodes.
    pub fn allowed_nodes(&self) -> (nodes: Vec<NodeId>)
        ensures
            nodes.deep_view() == allowed_nodes_of(*self),
    {
        match &self.topology.explicit {
            Some(explicit) => clone_nodes(&explicit.allowed_nodes),
            None => {
                let nodes: Vec<NodeId> = Vec::new();
                assert(nodes.deep_view() =~= Seq::<Seq<char>>::empty());
                nodes
            },
        }
    }

    /// Whether the volume is marked as deleted, so that its record can
    /// leave the ledger.
    pub fn deleted(&self) -> (gone: bool)
        ensures
            gone == (self.status is Deleted),
    {
        match self.status {
            SpecStatus::Deleted => true,
            _ => false,
        }
    }

    /// The desired replica count: that of a `SetReplica` in flight, or
    /// otherwise the current one.
    pub fn desired_num_replicas(&self) -> (count: u8)
        ensures
            count == desired_num_replicas_of(*self),
    {
        match &self.operation {
            Some(operation) => match operation.operation {
                VolumeOperation::SetReplica(count) => count,
                _ => self.num_replicas,
            },
            _ => self.num_replicas,
        }
    }
}

/// Whether a specification is what a create request asks for, whatever its
/// status, its sequencer and the operation in flight.
pub open spec fn equivalent_to_request(spec: VolumeSpec, request: CreateVolume) -> bool {
    &&& spec.uuid@ == request.uuid@
    &&& spec.size == request.size
    &&& spec.labels@.len() == 0
    &&& spec.num_replicas == request.replicas as u8
    &&& spec.protocol == Protocol::Off
    &&& spec.target is None
    &&& spec.policy == request.policy
    &&& spec.topology@ == request.topology@
    &&& spec.last_nexus_id is None
}

impl PartialEq<CreateVolume> for VolumeSpec {
    fn eq(&self, other: &CreateVolume) -> (same: bool) {
        self.uuid == other.uuid && self.size == other.size && self.labels.len() == 0
            && self.num_replicas == #[verifier::truncate] (other.replicas as u8) && self.protocol
            == Protocol::Off && self.target.is_none() && self.policy == other.policy
            && self.topology == other.topology && self.last_nexus_id.is_none()
    }
}

impl PartialEqSpecImpl<CreateVolume> for VolumeSpec {
    open spec fn obeys_eq_spec() -> bool {
        true
    }

    open spec fn eq_spec(&self, other: &CreateVolume) -> bool {
        equivalent_to_request(*self, *other)
    }
}

/// Whether the reported state of a volume is what its specification asks
/// for: the same protocol, and either no target on both sides, or the
/// specification's target node with the volume online.
pub open spec fn satisfied_by(spec: VolumeSpec, state: message_bus::VolumeState) -> bool {
    &&& spec.protocol == state.protocol
    &&& match spec.target {
        None => message_bus::target_node_of(state) is None,
        Some(target) => message_bus::target_node_of(state) == Some(target.node@) && state.status
            == VolumeStatus::Online,
    }
}

impl PartialEq<message_bus::VolumeState> for VolumeSpec {
    fn eq(&self, other: &message_bus::VolumeState) -> (same: bool) {
        self.protocol == other.protocol && match &self.target {
            None => other.target_node().is_none(),
            Some(target) => match other.target_node() {
                Some(node) => target.node == *node && other.status == VolumeStatus::Online,
                None => false,
            },
        }
    }
}

impl PartialEqSpecImpl<message_bus::VolumeState> for VolumeSpec {
    open spec fn obeys_eq_spec() -> bool {
        true
    }

    open spec fn eq_spec(&self, other: &message_bus::VolumeState) -> bool {
        satisfied_by(*self, *other)
    }
}

impl From<&VolumeSpec> for message_bus::VolumeState {
    fn from(spec: &VolumeSpec) -> (state: Self) {
        Self {
            uuid: spec.uuid.clone(),
            size: spec.size,
            status: VolumeStatus::Unknown,
            protocol: spec.protocol,
            child: None,
        }
    }
}

impl FromSpecImpl<&VolumeSpec> for message_bus::VolumeState {
    open spec fn obeys_from_spec() -> bool {
        true
    }

    /// What is known of a volume from its specification alone: identifier,
    /// size and protocol, a status of `Unknown`, and no nexus.
    open spec fn from_spec(spec: &VolumeSpec) -> Self {
        message_bus::VolumeState {
            uuid: spec.uuid,
            size: spec.size,
            status: VolumeStatus::Unknown,
            protocol: spec.protocol,
            child: None,
        }
    }
}

} // verus!
