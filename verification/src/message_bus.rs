//! Plain values exchanged between the control plane's components.

use vstd::prelude::*;
use vstd::std_specs::cmp::PartialEqSpecImpl;
use vstd::std_specs::convert::FromSpecImpl;

verus! {

/// Identifier of a volume; its view is its string form.
#[derive(Debug, Eq, Hash, Default)]
pub struct VolumeId(pub String);

impl View for VolumeId {
    type V = Seq<char>;

    open spec fn view(&self) -> Seq<char> {
        self.0@
    }
}

impl DeepView for VolumeId {
    type V = Seq<char>;

    open spec fn deep_view(&self) -> Seq<char> {
        self.0@
    }
}

impl Clone for VolumeId {
    fn clone(&self) -> (copy: Self)
        ensures
            copy == *self,
    {
        VolumeId(self.0.clone())
    }
}

impl PartialEq for VolumeId {
    fn eq(&self, other: &Self) -> (same: bool) {
        self.0 == other.0
    }
}

impl PartialEqSpecImpl for VolumeId {
    open spec fn obeys_eq_spec() -> bool {
        true
    }

    open spec fn eq_spec(&self, other: &Self) -> bool {
        self@ == other@
    }
}

impl VolumeId {
    /// The identifier spelled by `text`.
    pub fn new(text: &str) -> (id: Self)
        ensures
            id@ == text@,
    {
        VolumeId(text.to_owned())
    }

    /// The identifier's string form.
    pub fn as_str(&self) -> (text: &str)
        ensures
            text@ == self@,
    {
        self.0.as_str()
    }
}

/// Identifier of a storage node; its view is its string form.
#[derive(Debug, Eq, Hash, Default)]
pub struct NodeId(pub String);

impl View for NodeId {
    type V = Seq<char>;

    open spec fn view(&self) -> Seq<char> {
        self.0@
    }
}

impl DeepView for NodeId {
    type V = Seq<char>;

    open spec fn deep_view(&self) -> Seq<char> {
        self.0@
    }
}

impl Clone for NodeId {
    fn clone(&self) -> (copy: Self)
        ensures
            copy == *self,
    {
        NodeId(self.0.clone())
    }
}

impl PartialEq for NodeId {
    fn eq(&self, other: &Self) -> (same: bool) {
        self.0 == other.0
    }
}

impl PartialEqSpecImpl for NodeId {
    open spec fn obeys_eq_spec() -> bool {
        true
    }

    open spec fn eq_spec(&self, other: &Self) -> bool {
        self@ == other@
    }
}

impl NodeId {
    /// The identifier spelled by `text`.
    pub fn new(text: &str) -> (id: Self)
        ensures
            id@ == text@,
    {
        NodeId(text.to_owned())
    }

    /// The identifier's string form.
    pub fn as_str(&self) -> (text: &str)
        ensures
            text@ == self@,
    {
        self.0.as_str()
    }
}

/// Identifier of a nexus; its view is its string form.
#[derive(Debug, Eq, Hash, Default)]
pub struct NexusId(pub String);

impl View for NexusId {
    type V = Seq<char>;

    open spec fn view(&self) -> Seq<char> {
        self.0@
    }
}

impl DeepView for NexusId {
    type V = Seq<char>;

    open spec fn deep_view(&self) -> Seq<char> {
        self.0@
    }
}

impl Clone for NexusId {
    fn clone(&self) -> (copy: Self)
        ensures
            copy == *self,
    {
        NexusId(self.0.clone())
    }
}

impl PartialEq for NexusId {
    fn eq(&self, other: &Self) -> (same: bool) {
        self.0 == other.0
    }
}

impl PartialEqSpecImpl for NexusId {
    open spec fn obeys_eq_spec() -> bool {
        true
    }

    open spec fn eq_spec(&self, other: &Self) -> bool {
        self@ == other@
    }
}

impl NexusId {
    /// The identifier spelled by `text`.
    pub fn new(text: &str) -> (id: Self)
        ensures
            id@ == text@,
    {
        NexusId(text.to_owned())
    }

    /// The identifier's string form.
    pub fn as_str(&self) -> (text: &str)
        ensures
            text@ == self@,
    {
        self.0.as_str()
    }
}

/// Identifier of a replica; its view is its string form.
#[derive(Debug, Eq, Hash, Default)]
pub struct ReplicaId(pub String);

impl View for ReplicaId {
    type V = Seq<char>;

    open spec fn view(&self) -> Seq<char> {
        self.0@
    }
}

impl DeepView for ReplicaId {
    type V = Seq<char>;

    open spec fn deep_view(&self) -> Seq<char> {
        self.0@
    }
}

impl Clone for ReplicaId {
    fn clone(&self) -> (copy: Self)
        ensures
            copy == *self,
    {
        ReplicaId(self.0.clone())
    }
}

impl PartialEq for ReplicaId {
    fn eq(&self, other: &Self) -> (same: bool) {
        self.0 == other.0
    }
}

impl PartialEqSpecImpl for ReplicaId {
    open spec fn obeys_eq_spec() -> bool {
        true
    }

    open spec fn eq_spec(&self, other: &Self) -> bool {
        self@ == other@
    }
}

impl ReplicaId {
    /// The identifier spelled by `text`.
    pub fn new(text: &str) -> (id: Self)
        ensures
            id@ == text@,
    {
        ReplicaId(text.to_owned())
    }

    /// The identifier's string form.
    pub fn as_str(&self) -> (text: &str)
        ensures
            text@ == self@,
    {
        self.0.as_str()
    }
}

/// The protocol a volume or a nexus is shared over.
#[derive(Debug, Clone, Copy, PartialEq, Eq, Structural)]
pub enum Protocol {
    /// Not shared.
    Off,
    /// NVMe over fabrics.
    Nvmf,
    /// iSCSI.
    Iscsi,
    /// Network block device.
    Nbd,
}

/// The protocols a volume can be published over.
#[derive(Debug, Clone, Copy, PartialEq, Eq, Structural)]
pub enum VolumeShareProtocol {
    /// NVMe over fabrics.
    Nvmf,
    /// iSCSI.
    Iscsi,
}

/// The protocol that a share protocol stands for.
pub open spec fn protocol_of(share: VolumeShareProtocol) -> Protocol {
    match share {
        VolumeShareProtocol::Nvmf => Protocol::Nvmf,
        VolumeShareProtocol::Iscsi => Protocol::Iscsi,
    }
}

/// The protocol of an optional share request: none requested means not shared.
pub open spec fn protocol_of_request(share: Option<VolumeShareProtocol>) -> Protocol {
    match share {
        Some(share) => protocol_of(share),
        None => Protocol::Off,
    }
}

impl Protocol {
    /// The protocol that a share protocol stands for.
    pub fn of(share: VolumeShareProtocol) -> (protocol: Self)
        ensures
            protocol == protocol_of(share),
    {
        match share {
            VolumeShareProtocol::Nvmf => Protocol::Nvmf,
            VolumeShareProtocol::Iscsi => Protocol::Iscsi,
        }
    }
}

impl From<VolumeShareProtocol> for Protocol {
    fn from(share: VolumeShareProtocol) -> (protocol: Self) {
        Protocol::of(share)
    }
}

impl FromSpecImpl<VolumeShareProtocol> for Protocol {
    open spec fn obeys_from_spec() -> bool {
        true
    }

    open spec fn from_spec(share: VolumeShareProtocol) -> Self {
        protocol_of(share)
    }
}

/// Runtime status of a volume as the data plane reports it.
#[derive(Debug, Clone, Copy, PartialEq, Eq, Structural)]
pub enum VolumeStatus {
    /// Not known.
    Unknown,
    /// Healthy.
    Online,
    /// Serving I/O with reduced redundancy.
    Degraded,
    /// Not serving I/O.
    Faulted,
}

/// How a volume is to be healed.
#[derive(Debug, Clone, Copy, PartialEq, Eq, Structural, Default)]
pub struct VolumeHealPolicy {
    /// Whether the control plane replaces faulted replicas by itself.
    pub self_heal: bool,
}

/// Placement given by naming nodes.
#[derive(Debug, Default)]
pub struct ExplicitTopology {
    /// Nodes the replicas may be placed on.
    pub allowed_nodes: Vec<NodeId>,
    /// Nodes to try first.
    pub preferred_nodes: Vec<NodeId>,
}

/// The model of an explicit topology: the names of its nodes.
pub struct ExplicitTopologyView {
    pub allowed_nodes: Seq<Seq<char>>,
    pub preferred_nodes: Seq<Seq<char>>,
}

impl View for ExplicitTopology {
    type V = ExplicitTopologyView;

    open spec fn view(&self) -> ExplicitTopologyView {
        ExplicitTopologyView {
            allowed_nodes: self.allowed_nodes.deep_view(),
            preferred_nodes: self.preferred_nodes.deep_view(),
        }
    }
}

impl DeepView for ExplicitTopology {
    type V = ExplicitTopologyView;

    open spec fn deep_view(&self) -> ExplicitTopologyView {
        self@
    }
}

/// A copy of `nodes`, name for name.
pub fn clone_nodes(nodes: &Vec<NodeId>) -> (copy: Vec<NodeId>)
    ensures
        copy.deep_view() == nodes.deep_view(),
{
    let mut copy: Vec<NodeId> = Vec::new();
    let mut i: usize = 0;
    while i < nodes.len()
        invariant
            i <= nodes.len(),
            copy.len() == i,
            forall|j: int| 0 <= j < i ==> copy[j]@ == nodes[j]@,
        decreases nodes.len() - i,
    {
        copy.push(nodes[i].clone());
        i += 1;
    }
    assert(copy.deep_view() =~= nodes.deep_view());
    copy
}

impl Clone for ExplicitTopology {
    fn clone(&self) -> (copy: Self)
        ensures
            copy@ == self@,
    {
        ExplicitTopology {
            allowed_nodes: clone_nodes(&self.allowed_nodes),
            preferred_nodes: clone_nodes(&self.preferred_nodes),
        }
    }
}

/// Where the replicas of a volume are to be placed.
#[derive(Debug, Default)]
pub struct Topology {
    /// Placement by node names, if the request names any.
    pub explicit: Option<ExplicitTopology>,
}

impl View for Topology {
    type V = Option<ExplicitTopologyView>;

    open spec fn view(&self) -> Option<ExplicitTopologyView> {
        self.explicit.deep_view()
    }
}

impl Clone for Topology {
    fn clone(&self) -> (copy: Self)
        ensures
            copy@ == self@,
    {
        match &self.explicit {
            Some(explicit) => Topology { explicit: Some(explicit.clone()) },
            None => Topology { explicit: None },
        }
    }
}

/// Request to create a volume.
#[derive(Debug, Default)]
pub struct CreateVolume {
    /// Identifier of the volume.
    pub uuid: VolumeId,
    /// Size in bytes.
    pub size: u64,
    /// Number of replicas.
    pub replicas: u64,
    /// Healing policy.
    pub policy: VolumeHealPolicy,
    /// Placement of the replicas.
    pub topology: Topology,
}

/// A nexus as the data plane reports it.
#[derive(Debug)]
pub struct Nexus {
    /// Node the nexus lives on.
    pub node: NodeId,
    /// Identifier of the nexus.
    pub uuid: NexusId,
    /// URI of the device the nexus exposes; empty while it exposes none.
    pub device_uri: String,
}

/// Runtime state of a volume as the data plane reports it.
#[derive(Debug)]
pub struct VolumeState {
    /// Identifier of the volume.
    pub uuid: VolumeId,
    /// Size in bytes.
    pub size: u64,
    /// Runtime status.
    pub status: VolumeStatus,
    /// Protocol the volume is shared over.
    pub protocol: Protocol,
    /// The nexus that exposes the volume, while it is published.
    pub child: Option<Nexus>,
}

/// The node a reported volume is served from, if it is published.
pub open spec fn target_node_of(state: VolumeState) -> Option<Seq<char>> {
    match state.child {
        Some(nexus) => Some(nexus.node@),
        None => None,
    }
}

impl VolumeState {
    /// The node the volume is served from, if it is published.
    pub fn target_node(&self) -> (node: Option<&NodeId>)
        ensures
            node.deep_view() == target_node_of(*self),
    {
        match &self.child {
            Some(nexus) => Some(&nexus.node),
            None => None,
        }
    }
}

} // verus!

verus! {

impl PartialEq for ExplicitTopology {
    fn eq(&self, other: &Self) -> (same: bool) {
        same_nodes(&self.allowed_nodes, &other.allowed_nodes) && same_nodes(
            &self.preferred_nodes,
            &other.preferred_nodes,
        )
    }
}

impl PartialEqSpecImpl for ExplicitTopology {
    open spec fn obeys_eq_spec() -> bool {
        true
    }

    open spec fn eq_spec(&self, other: &Self) -> bool {
        self@ == other@
    }
}

impl PartialEq for Topology {
    fn eq(&self, other: &Self) -> (same: bool) {
        match (&self.explicit, &other.explicit) {
            (Some(mine), Some(theirs)) => *mine == *theirs,
            (None, None) => true,
            _ => false,
        }
    }
}

impl PartialEqSpecImpl for Topology {
    open spec fn obeys_eq_spec() -> bool {
        true
    }

    open spec fn eq_spec(&self, other: &Self) -> bool {
        self@ == other@
    }
}

/// Whether two lists name the same nodes in the same order.
pub fn same_nodes(a: &Vec<NodeId>, b: &Vec<NodeId>) -> (same: bool)
    ensures
        same == (a.deep_view() == b.deep_view()),
{
    if a.len() != b.len() {
        assert(a.deep_view().len() != b.deep_view().len());
        return false;
    }
    let mut i: usize = 0;
    while i < a.len()
        invariant
            i <= a.len(),
            a.len() == b.len(),
            forall|j: int| 0 <= j < i ==> a[j]@ == b[j]@,
        decreases a.len() - i,
    {
        if a[i] != b[i] {
            assert(a.deep_view()[i as int] != b.deep_view()[i as int]);
            return false;
        }
        i += 1;
    }
    assert(a.deep_view() =~= b.deep_view());
    true
}

} // verus!

verus! {

/// The name of a protocol in requests and replies.
pub open spec fn protocol_name(protocol: Protocol) -> Seq<char> {
    match protocol {
        Protocol::Off => "none"@,
        Protocol::Nvmf => "nvmf"@,
        Protocol::Iscsi => "iscsi"@,
        Protocol::Nbd => "nbd"@,
    }
}

impl Protocol {
    /// The name of this protocol in requests and replies.
    pub fn as_str(&self) -> (name: &'static str)
        ensures
            name@ == protocol_name(*self),
    {
        match self {
            Protocol::Off => "none",
            Protocol::Nvmf => "nvmf",
            Protocol::Iscsi => "iscsi",
            Protocol::Nbd => "nbd",
        }
    }
}

impl VolumeShareProtocol {
    /// The name of this protocol in requests and replies.
    pub fn as_str(&self) -> (name: &'static str)
        ensures
            name@ == protocol_name(protocol_of(*self)),
    {
        match self {
            VolumeShareProtocol::Nvmf => "nvmf",
            VolumeShareProtocol::Iscsi => "iscsi",
        }
    }
}

} // verus!
