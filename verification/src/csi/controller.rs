//! The CSI controller service: what it checks in a request, what it asks
//! of the REST interface, and what it answers. The service's caller talks
//! to the REST interface and hands over what came back.

use vstd::prelude::*;
use vstd::std_specs::convert::FromSpecImpl;
use vstd::string::StringExecFns;
use crate::csi::client::{error_debug, ApiClientError, ApiClientErrorView};
use crate::csi::messages::{
    CapacityRange, ControllerPublishVolumeRequest, CreateVolumeRequest, GetCapacityRequest,
    GetCapacityResponse, ListVolumesResponse, Topology, TopologyRequirement, Volume,
    VolumeCapability,
};
use crate::message_bus::{Protocol, VolumeShareProtocol};
use crate::models;
use crate::string_map::{value_of, StringMap};
use crate::text::{
    decimal, decimal_text, is_blank, parse_unsigned, same_text, signed_decimal,
    signed_decimal_text, strip_prefix, unsigned_of, without_prefix,
};
use crate::trusted::{
    capture_first_group, first_group, format_uuid, parse_uuid, uuid_text, uuid_value,
};

verus! {

/// The status codes with which the service turns a request down.
#[derive(Debug, Clone, Copy, PartialEq, Eq, Structural)]
pub enum Code {
    InvalidArgument,
    NotFound,
    AlreadyExists,
    FailedPrecondition,
    Unimplemented,
    Internal,
}

/// Why the service turns a request down.
#[derive(Debug, PartialEq, Eq)]
pub struct Status {
    /// The kind of failure.
    pub code: Code,
    /// What is told the caller.
    pub message: String,
}

/// A status with its message as text.
pub struct StatusView {
    pub code: Code,
    pub message: Seq<char>,
}

impl View for Status {
    type V = StatusView;

    open spec fn view(&self) -> StatusView {
        StatusView { code: self.code, message: self.message@ }
    }
}

impl Status {
    /// A status with code `code` and the message `message`.
    pub fn new(code: Code, message: &str) -> (status: Self)
        ensures
            status@ == (StatusView { code, message: message@ }),
    {
        Status { code, message: message.to_owned() }
    }

    /// The request holds something that the service does not accept.
    pub fn invalid_argument(message: &str) -> (status: Self)
        ensures
            status@ == (StatusView { code: Code::InvalidArgument, message: message@ }),
    {
        Status::new(Code::InvalidArgument, message)
    }

    /// The service itself failed.
    pub fn internal(message: &str) -> (status: Self)
        ensures
            status@ == (StatusView { code: Code::Internal, message: message@ }),
    {
        Status::new(Code::Internal, message)
    }

    /// What the request names is not there.
    pub fn not_found(message: &str) -> (status: Self)
        ensures
            status@ == (StatusView { code: Code::NotFound, message: message@ }),
    {
        Status::new(Code::NotFound, message)
    }

    /// What the request asks for exists, and differs.
    pub fn already_exists(message: &str) -> (status: Self)
        ensures
            status@ == (StatusView { code: Code::AlreadyExists, message: message@ }),
    {
        Status::new(Code::AlreadyExists, message)
    }

    /// The system is in no state to serve the request.
    pub fn failed_precondition(message: &str) -> (status: Self)
        ensures
            status@ == (StatusView { code: Code::FailedPrecondition, message: message@ }),
    {
        Status::new(Code::FailedPrecondition, message)
    }

    /// The service does not offer what the request asks for.
    pub fn unimplemented(message: &str) -> (status: Self)
        ensures
            status@ == (StatusView { code: Code::Unimplemented, message: message@ }),
    {
        Status::new(Code::Unimplemented, message)
    }
}

/// A status with code `InvalidArgument`.
pub open spec fn invalid(message: Seq<char>) -> StatusView {
    StatusView { code: Code::InvalidArgument, message }
}

/// The status that an error of the REST client becomes: a resource that is
/// not there is `NotFound` with the error's own message, anything else is
/// `Internal` with the error as it shows for debugging.
pub open spec fn status_of_error(error: ApiClientErrorView) -> StatusView {
    match error {
        ApiClientErrorView::ResourceNotExists(reason) => StatusView {
            code: Code::NotFound,
            message: reason,
        },
        _ => StatusView {
            code: Code::Internal,
            message: "Operation failed: "@ + error_debug(error),
        },
    }
}

impl FromSpecImpl<ApiClientError> for Status {
    /// The message of the status is put together from the error's parts,
    /// so `from` states the status's view.
    open spec fn obeys_from_spec() -> bool {
        false
    }

    open spec fn from_spec(error: ApiClientError) -> Self {
        arbitrary()
    }
}

impl From<ApiClientError> for Status {
    fn from(error: ApiClientError) -> (status: Self)
        ensures
            status@ == status_of_error(error@),
    {
        let shown = error.debug();
        match error {
            ApiClientError::ResourceNotExists(reason) => Status {
                code: Code::NotFound,
                message: reason,
            },
            _ => {
                let mut message = String::from_str("Operation failed: ");
                message.append(shown.as_str());
                Status { code: Code::Internal, message }
            },
        }
    }
}

/// The one access mode the service supports: a single node that writes.
pub const SINGLE_NODE_WRITER: i32 = 1;

/// Whether a capability asks for an access mode other than single node
/// writer.
pub open spec fn unsupported(capability: VolumeCapability) -> bool {
    capability.access_mode matches Some(mode) && mode.mode != SINGLE_NODE_WRITER
}

/// The first position among `capabilities` of one that the service does
/// not support, or their number if there is none.
pub open spec fn first_unsupported(capabilities: Seq<VolumeCapability>) -> int
    decreases capabilities.len(),
{
    if capabilities.len() == 0 {
        0
    } else if unsupported(capabilities[0]) {
        0
    } else {
        1 + first_unsupported(capabilities.drop_first())
    }
}

/// What `check_volume_capabilities` answers: the first capability with an
/// access mode other than single node writer is turned down by its mode's
/// number.
pub open spec fn capabilities_verdict(capabilities: Seq<VolumeCapability>) -> Result<
    (),
    StatusView,
> {
    let at = first_unsupported(capabilities);
    if at < capabilities.len() {
        Err(
            invalid(
                "Invalid volume access mode: "@ + signed_decimal(
                    capabilities[at].access_mode->Some_0.mode as int,
                ),
            ),
        )
    } else {
        Ok(())
    }
}

/// A result with its status, if any, as text.
pub open spec fn verdict_view<T>(verdict: Result<T, Status>) -> Result<T, StatusView> {
    match verdict {
        Ok(value) => Ok(value),
        Err(status) => Err(status@),
    }
}

/// Where the first unsupported capability lies from position `from` on.
proof fn lemma_first_unsupported_from(capabilities: Seq<VolumeCapability>, from: int)
    requires
        0 <= from <= capabilities.len(),
        forall|j: int| 0 <= j < from ==> !unsupported(capabilities[j]),
    ensures
        first_unsupported(capabilities) == from + first_unsupported(
            capabilities.subrange(from, capabilities.len() as int),
        ),
    decreases from,
{
    if from > 0 {
        lemma_first_unsupported_from(capabilities, from - 1);
        let tail = capabilities.subrange(from - 1, capabilities.len() as int);
        assert(tail.drop_first() =~= capabilities.subrange(from, capabilities.len() as int));
        assert(tail[0] == capabilities[from - 1]);
    } else {
        assert(capabilities.subrange(0, capabilities.len() as int) =~= capabilities);
    }
}

/// Checks that the capabilities asked of a volume are ones the service
/// supports. As of now that is the single node writer alone.
pub fn check_volume_capabilities(capabilities: &[VolumeCapability]) -> (verdict: Result<
    (),
    Status,
>)
    ensures
        verdict_view(verdict) == capabilities_verdict(capabilities@),
{
    let mut i: usize = 0;
    while i < capabilities.len()
        invariant
            i <= capabilities.len(),
            forall|j: int| 0 <= j < i ==> !unsupported(capabilities@[j]),
        decreases capabilities.len() - i,
    {
        if let Some(access_mode) = capabilities[i].access_mode {
            if access_mode.mode != SINGLE_NODE_WRITER {
                proof {
                    lemma_first_unsupported_from(capabilities@, i as int);
                    assert(capabilities@.subrange(i as int, capabilities@.len() as int)[0]
                        == capabilities@[i as int]);
                }
                let mut message = String::from_str("Invalid volume access mode: ");
                let mode = signed_decimal_text(access_mode.mode as i64);
                message.append(mode.as_str());
                return Err(Status { code: Code::InvalidArgument, message });
            }
        }
        i += 1;
    }
    proof {
        lemma_first_unsupported_from(capabilities@, i as int);
        assert(capabilities@.subrange(i as int, capabilities@.len() as int).len() == 0);
    }
    Ok(())
}

/// What a protocol's name stands for in a publish request.
pub open spec fn protocol_named(name: Seq<char>) -> Result<VolumeShareProtocol, StatusView> {
    if name == "iscsi"@ {
        Ok(VolumeShareProtocol::Iscsi)
    } else if name == "nvmf"@ {
        Ok(VolumeShareProtocol::Nvmf)
    } else {
        Err(invalid("Invalid protocol: "@ + name))
    }
}

/// Reads a protocol's name.
pub fn parse_protocol(proto: &str) -> (protocol: Result<VolumeShareProtocol, Status>)
    ensures
        verdict_view(protocol) == protocol_named(proto@),
{
    if same_text(proto, "iscsi") {
        Ok(VolumeShareProtocol::Iscsi)
    } else if same_text(proto, "nvmf") {
        Ok(VolumeShareProtocol::Nvmf)
    } else {
        let mut message = String::from_str("Invalid protocol: ");
        message.append(proto);
        Err(Status { code: Code::InvalidArgument, message })
    }
}

/// The host that a node identifier names: the identifier without the
/// scheme that Kubernetes puts before it, or the identifier itself where
/// it has none.
pub open spec fn hostname_of(name: Seq<char>) -> Seq<char> {
    match without_prefix(name, "mayastor://"@) {
        Some(host) => host,
        None => name,
    }
}

/// Turns the identifier Kubernetes has for a node into the node's host
/// name.
pub fn normalize_hostname(name: String) -> (host: String)
    ensures
        host@ == hostname_of(name@),
{
    match strip_prefix(name.as_str(), "mayastor://") {
        Some(hostname) => hostname.to_owned(),
        None => name,
    }
}

/// The words that stand for `true` in YAML.
pub open spec fn yaml_true(text: Seq<char>) -> bool {
    text == "y"@ || text == "Y"@ || text == "yes"@ || text == "Yes"@ || text == "YES"@ || text
        == "true"@ || text == "True"@ || text == "TRUE"@ || text == "on"@ || text == "On"@ || text
        == "ON"@
}

/// Decodes the 'local' volume attribute: set exactly when it is there and
/// is one of the words that stand for `true` in YAML.
pub fn decode_local_volume_flag(encoded: Option<&String>) -> (local: bool)
    ensures
        local == (encoded matches Some(text) && yaml_true(text@)),
{
    match encoded {
        Some(v) => {
            let v = v.as_str();
            same_text(v, "y") || same_text(v, "Y") || same_text(v, "yes") || same_text(v, "Yes")
                || same_text(v, "YES") || same_text(v, "true") || same_text(v, "True")
                || same_text(v, "TRUE") || same_text(v, "on") || same_text(v, "On") || same_text(
                v,
                "ON",
            )
        },
        None => false,
    }
}

/// Where a volume with runtime state `state` and identifier `uuid` is
/// shared: the URI of its nexus's device. A volume without state, without
/// a nexus, or whose nexus exposes no device has none.
pub open spec fn share_uri(state: Option<models::VolumeState>, uuid: u128) -> Result<
    Seq<char>,
    StatusView,
> {
    match state {
        Some(state) => match state.child {
            Some(nexus) => if nexus.device_uri@.len() == 0 {
                Err(
                    StatusView {
                        code: Code::Internal,
                        message: "No nexus device URI available for volume "@ + uuid_text(uuid),
                    },
                )
            } else {
                Ok(nexus.device_uri@)
            },
            None => Err(
                StatusView {
                    code: Code::Internal,
                    message: "No nexus info available for volume "@ + uuid_text(uuid),
                },
            ),
        },
        None => Err(
            StatusView {
                code: Code::Internal,
                message: "Volume "@ + uuid_text(uuid) + " reports no current state"@,
            },
        ),
    }
}

/// A result of text with its text and its status as text.
pub open spec fn text_verdict(verdict: Result<String, Status>) -> Result<Seq<char>, StatusView> {
    match verdict {
        Ok(text) => Ok(text@),
        Err(status) => Err(status@),
    }
}

/// Gets the share URI of a volume that exists.
pub fn get_volume_share_uri(volume: &models::Volume) -> (uri: Result<String, Status>)
    ensures
        text_verdict(uri) == share_uri(volume.state, volume.spec.uuid),
{
    match &volume.state {
        Some(state) => match &state.child {
            Some(nexus) => {
                if nexus.device_uri.as_str().unicode_len() == 0 {
                    let mut message = String::from_str("No nexus device URI available for volume ");
                    let id = format_uuid(volume.spec.uuid);
                    message.append(id.as_str());
                    return Err(Status { code: Code::Internal, message });
                }
                Ok(nexus.device_uri.clone())
            },
            None => {
                let mut message = String::from_str("No nexus info available for volume ");
                let id = format_uuid(volume.spec.uuid);
                message.append(id.as_str());
                Err(Status { code: Code::Internal, message })
            },
        },
        None => {
            let mut message = String::from_str("Volume ");
            let id = format_uuid(volume.spec.uuid);
            message.append(id.as_str());
            message.append(" reports no current state");
            Err(Status { code: Code::Internal, message })
        },
    }
}

/// The name of a lifecycle stage, for messages.
pub open spec fn stage_name(status: models::SpecStatus) -> Seq<char> {
    match status {
        models::SpecStatus::Creating => "Creating"@,
        models::SpecStatus::Created => "Created"@,
        models::SpecStatus::Deleting => "Deleting"@,
        models::SpecStatus::Deleted => "Deleted"@,
    }
}

/// Whether a volume that exists can stand for one that is asked for: it is
/// fully created, and has at least as many replicas and at least the size
/// asked for. The first of these that fails is told the caller, with code
/// `AlreadyExists`.
pub open spec fn existing_volume_verdict(
    spec: models::VolumeSpec,
    replica_count: u8,
    size: u64,
) -> Result<(), StatusView> {
    let id = uuid_text(spec.uuid);
    if spec.status != models::SpecStatus::Created {
        Err(
            StatusView {
                code: Code::AlreadyExists,
                message: "Existing volume "@ + id + " is in insufficient state: "@ + stage_name(
                    spec.status,
                ),
            },
        )
    } else if spec.num_replicas < replica_count {
        Err(
            StatusView {
                code: Code::AlreadyExists,
                message: "Existing volume "@ + id + " has insufficient number of replicas: "@
                    + decimal(spec.num_replicas as nat) + " ("@ + decimal(replica_count as nat)
                    + " requested)"@,
            },
        )
    } else if spec.size < size {
        Err(
            StatusView {
                code: Code::AlreadyExists,
                message: "Existing volume "@ + id + " has insufficient size: "@ + decimal(
                    spec.size as nat,
                ) + " bytes ("@ + decimal(size as nat) + " requested)"@,
            },
        )
    } else {
        Ok(())
    }
}

/// Checks whether a volume that exists is compatible with the
/// configuration asked for. Whether the volume is pinned plays no part
/// yet.
pub fn check_existing_volume(
    volume: &models::Volume,
    replica_count: u8,
    size: u64,
    pinned_volume: bool,
) -> (verdict: Result<(), Status>)
    ensures
        verdict_view(verdict) == existing_volume_verdict(volume.spec, replica_count, size),
{
    let spec = &volume.spec;
    if spec.status != models::SpecStatus::Created {
        let mut message = String::from_str("Existing volume ");
        let id = format_uuid(spec.uuid);
        message.append(id.as_str());
        message.append(" is in insufficient state: ");
        message.append(
            match spec.status {
                models::SpecStatus::Creating => "Creating",
                models::SpecStatus::Created => "Created",
                models::SpecStatus::Deleting => "Deleting",
                models::SpecStatus::Deleted => "Deleted",
            },
        );
        return Err(Status { code: Code::AlreadyExists, message });
    }
    if spec.num_replicas < replica_count {
        let mut message = String::from_str("Existing volume ");
        let id = format_uuid(spec.uuid);
        message.append(id.as_str());
        message.append(" has insufficient number of replicas: ");
        let have = decimal_text(spec.num_replicas as u64);
        message.append(have.as_str());
        message.append(" (");
        let want = decimal_text(replica_count as u64);
        message.append(want.as_str());
        message.append(" requested)");
        return Err(Status { code: Code::AlreadyExists, message });
    }
    if spec.size < size {
        let mut message = String::from_str("Existing volume ");
        let id = format_uuid(spec.uuid);
        message.append(id.as_str());
        message.append(" has insufficient size: ");
        let have = decimal_text(spec.size);
        message.append(have.as_str());
        message.append(" bytes (");
        let want = decimal_text(size);
        message.append(want.as_str());
        message.append(" requested)");
        return Err(Status { code: Code::AlreadyExists, message });
    }
    Ok(())
}

/// The key under which a topology names a node.
pub open spec fn hostname_key() -> Seq<char> {
    "kubernetes.io/hostname"@
}

/// The regular expression that a volume's name must match somewhere: the
/// prefix that Kubernetes gives a claim, and a UUID in lower-case
/// hexadecimal digits as the first group.
pub open spec fn volume_name_pattern() -> Seq<char> {
    "pvc-([0-9a-f]{8}-[0-9a-f]{4}-[0-9a-f]{4}-[0-9a-f]{4}-[0-9a-f]{12})"@
}

/// The size that a request asks for: what its capacity range requires,
/// which must be there and positive.
pub open spec fn size_asked(range: Option<CapacityRange>) -> Result<u64, StatusView> {
    match range {
        Some(range) => if range.required_bytes <= 0 {
            Err(invalid("Volume size must be a non-negative number"@))
        } else {
            Ok(range.required_bytes as u64)
        },
        None => Err(invalid("Volume capacity range is not provided"@)),
    }
}

/// Whether the I/O timeout among `parameters`, if there is one, can stand:
/// it goes with the protocol `nvmf` alone, and must be a number.
pub open spec fn timeout_verdict(
    parameters: Map<Seq<char>, Seq<char>>,
    protocol: Seq<char>,
) -> Result<(), StatusView> {
    match value_of(parameters, "ioTimeout"@) {
        Some(timeout) => if protocol != "nvmf"@ {
            Err(invalid("I/O timeout is valid only for nvmf protocol"@))
        } else if unsigned_of(timeout, u64::MAX as nat) is None {
            Err(invalid("Invalid I/O timeout"@))
        } else {
            Ok(())
        },
        None => Ok(()),
    }
}

/// The number of replicas that `parameters` ask for: one where they name
/// none, else a number from 1 to 255.
pub open spec fn replicas_asked(parameters: Map<Seq<char>, Seq<char>>) -> Result<u8, StatusView> {
    match value_of(parameters, "repl"@) {
        Some(count) => match unsigned_of(count, u8::MAX as nat) {
            Some(n) => if n == 0 {
                Err(invalid("Replica count must be greater than zero"@))
            } else {
                Ok(n as u8)
            },
            None => Err(invalid("Invalid replica count"@)),
        },
        None => Ok(1u8),
    }
}

/// Whether every key among `segments` is the host name's.
pub open spec fn only_hostnames(segments: Map<Seq<char>, Seq<char>>) -> bool {
    forall|key: Seq<char>| segments.contains_key(key) ==> key == hostname_key()
}

/// Whether every one of `topologies` speaks of host names alone.
pub open spec fn all_only_hostnames(topologies: Seq<Topology>) -> bool {
    forall|i: int| 0 <= i < topologies.len() ==> only_hostnames((#[trigger] topologies[i]).segments@)
}

/// The host names that `topologies` give, one from each that gives one,
/// in order.
pub open spec fn hostnames(topologies: Seq<Topology>) -> Seq<Seq<char>>
    decreases topologies.len(),
{
    if topologies.len() == 0 {
        Seq::empty()
    } else {
        match value_of(topologies.last().segments@, hostname_key()) {
            Some(host) => hostnames(topologies.drop_last()).push(host),
            None => hostnames(topologies.drop_last()),
        }
    }
}

/// What is to be done for a request to create a volume.
#[derive(Debug, PartialEq, Eq)]
pub struct CreatePlan {
    /// Identifier of the volume as the name spells it.
    pub volume_uuid: String,
    /// Identifier of the volume, as its 128-bit value.
    pub uuid: u128,
    /// Size in bytes.
    pub size: u64,
    /// Number of replicas.
    pub replica_count: u8,
    /// Whether the volume is to be used from the node that holds it.
    pub pinned_volume: bool,
    /// Nodes the replicas may be placed on.
    pub allowed_nodes: Vec<String>,
    /// Nodes to try first.
    pub preferred_nodes: Vec<String>,
}

/// A plan with its strings as text.
pub struct CreatePlanView {
    pub volume_uuid: Seq<char>,
    pub uuid: u128,
    pub size: u64,
    pub replica_count: u8,
    pub pinned_volume: bool,
    pub allowed_nodes: Seq<Seq<char>>,
    pub preferred_nodes: Seq<Seq<char>>,
}

impl View for CreatePlan {
    type V = CreatePlanView;

    open spec fn view(&self) -> CreatePlanView {
        CreatePlanView {
            volume_uuid: self.volume_uuid@,
            uuid: self.uuid,
            size: self.size,
            replica_count: self.replica_count,
            pinned_volume: self.pinned_volume,
            allowed_nodes: self.allowed_nodes.deep_view(),
            preferred_nodes: self.preferred_nodes.deep_view(),
        }
    }
}

/// The nodes that the requirements of a request allow and prefer. Among
/// what is required only host names can be weighed: anything else turns
/// the request down. Among what is preferred anything else is passed over.
pub open spec fn nodes_asked(requirements: Option<TopologyRequirement>) -> Result<
    (Seq<Seq<char>>, Seq<Seq<char>>),
    StatusView,
> {
    match requirements {
        Some(requirements) => if all_only_hostnames(requirements.requisite@) {
            Ok((hostnames(requirements.requisite@), hostnames(requirements.preferred@)))
        } else {
            Err(invalid("Volume topology other than hostname not supported"@))
        },
        None => Ok((Seq::empty(), Seq::empty())),
    }
}

/// What the service makes of a request to create a volume, given what the
/// name pattern captured in the volume's name and the 128-bit value of what
/// it captured. The checks run in this order, and the first that fails
/// turns the request down as an invalid argument: no content source; a
/// name of the form `pvc-<UUID>`; capabilities that are supported; a
/// positive size; a protocol; an I/O timeout that can stand; a replica
/// count that can stand; requirements that speak of host names; a UUID
/// that is one.
pub open spec fn create_plan(
    request: CreateVolumeRequest,
    capture: Option<Seq<char>>,
    uuid: Option<u128>,
) -> Result<CreatePlanView, StatusView> {
    let parameters = request.parameters@;
    if request.has_content_source {
        Err(invalid("Source for create volume is not supported"@))
    } else if capture is None {
        Err(invalid("Expected the volume name in pvc-<UUID> format: "@ + request.name@))
    } else if capabilities_verdict(request.volume_capabilities@) is Err {
        Err(capabilities_verdict(request.volume_capabilities@)->Err_0)
    } else if size_asked(request.capacity_range) is Err {
        Err(size_asked(request.capacity_range)->Err_0)
    } else if value_of(parameters, "protocol"@) is None {
        Err(invalid("Missing storage protocol"@))
    } else if timeout_verdict(parameters, value_of(parameters, "protocol"@)->Some_0) is Err {
        Err(timeout_verdict(parameters, value_of(parameters, "protocol"@)->Some_0)->Err_0)
    } else if replicas_asked(parameters) is Err {
        Err(replicas_asked(parameters)->Err_0)
    } else if nodes_asked(request.accessibility_requirements) is Err {
        Err(nodes_asked(request.accessibility_requirements)->Err_0)
    } else if uuid is None {
        Err(invalid("Malformed volume UUID: "@ + capture->Some_0))
    } else {
        Ok(
            CreatePlanView {
                volume_uuid: capture->Some_0,
                uuid: uuid->Some_0,
                size: size_asked(request.capacity_range)->Ok_0,
                replica_count: replicas_asked(parameters)->Ok_0,
                pinned_volume: value_of(parameters, "local"@) matches Some(text) && yaml_true(
                    text,
                ),
                allowed_nodes: nodes_asked(request.accessibility_requirements)->Ok_0.0,
                preferred_nodes: nodes_asked(request.accessibility_requirements)->Ok_0.1,
            },
        )
    }
}

/// A plan or a status, with their strings as text.
pub open spec fn plan_view(plan: Result<CreatePlan, Status>) -> Result<CreatePlanView, StatusView> {
    match plan {
        Ok(plan) => Ok(plan@),
        Err(status) => Err(status@),
    }
}

fn size_of(range: &Option<CapacityRange>) -> (size: Result<u64, Status>)
    ensures
        verdict_view(size) == size_asked(*range),
{
    match range {
        Some(range) => {
            if range.required_bytes <= 0 {
                return Err(Status::invalid_argument("Volume size must be a non-negative number"));
            }
            Ok(range.required_bytes as u64)
        },
        None => Err(Status::invalid_argument("Volume capacity range is not provided")),
    }
}

fn check_timeout(parameters: &StringMap, protocol: &str) -> (verdict: Result<
    (),
    Status,
>)
    ensures
        verdict_view(verdict) == timeout_verdict(parameters@, protocol@),
{
    match parameters.get("ioTimeout") {
        Some(timeout) => {
            if !same_text(protocol, "nvmf") {
                return Err(
                    Status::invalid_argument("I/O timeout is valid only for nvmf protocol"),
                );
            }
            if parse_unsigned(timeout.as_str(), u64::MAX).is_none() {
                return Err(Status::invalid_argument("Invalid I/O timeout"));
            }
            Ok(())
        },
        None => Ok(()),
    }
}

fn replica_count_of(parameters: &StringMap) -> (count: Result<u8, Status>)
    ensures
        verdict_view(count) == replicas_asked(parameters@),
{
    match parameters.get("repl") {
        Some(count) => match parse_unsigned(count.as_str(), 255) {
            Some(n) => {
                if n == 0 {
                    return Err(Status::invalid_argument("Replica count must be greater than zero"));
                }
                Ok(n as u8)
            },
            None => Err(Status::invalid_argument("Invalid replica count")),
        },
        None => Ok(1),
    }
}

fn requisite_is_weighable(topologies: &Vec<Topology>) -> (weighable: bool)
    ensures
        weighable == all_only_hostnames(topologies@),
{
    let mut i: usize = 0;
    while i < topologies.len()
        invariant
            i <= topologies.len(),
            forall|j: int| 0 <= j < i ==> only_hostnames((#[trigger] topologies@[j]).segments@),
        decreases topologies.len() - i,
    {
        if !topologies[i].segments.has_no_key_but("kubernetes.io/hostname") {
            return false;
        }
        i += 1;
    }
    true
}

/// The host names that `topologies` give, one from each that gives one,
/// in order.
pub fn hostnames_of(topologies: &Vec<Topology>) -> (hosts: Vec<String>)
    ensures
        hosts.deep_view() == hostnames(topologies@),
{
    let mut hosts: Vec<String> = Vec::new();
    let mut i: usize = 0;
    assert(hosts.deep_view() =~= hostnames(topologies@.take(0)));
    while i < topologies.len()
        invariant
            i <= topologies.len(),
            hosts.deep_view() == hostnames(topologies@.take(i as int)),
        decreases topologies.len() - i,
    {
        proof {
            assert(topologies@.take(i + 1).drop_last() =~= topologies@.take(i as int));
            assert(topologies@.take(i + 1).last() == topologies@[i as int]);
        }
        let ghost before = hosts.deep_view();
        match topologies[i].segments.get("kubernetes.io/hostname") {
            Some(host) => {
                hosts.push(host.clone());
                assert(hosts.deep_view() =~= before.push(host@));
            },
            None => {},
        }
        i += 1;
    }
    proof {
        assert(topologies@.take(i as int) =~= topologies@);
    }
    hosts
}

fn nodes_of(requirements: &Option<TopologyRequirement>) -> (nodes: Result<
    (Vec<String>, Vec<String>),
    Status,
>)
    ensures
        match nodes {
            Ok((allowed, preferred)) => nodes_asked(*requirements) == Ok::<
                (Seq<Seq<char>>, Seq<Seq<char>>),
                StatusView,
            >((allowed.deep_view(), preferred.deep_view())),
            Err(status) => nodes_asked(*requirements) == Err::<
                (Seq<Seq<char>>, Seq<Seq<char>>),
                StatusView,
            >(status@),
        },
{
    match requirements {
        Some(requirements) => {
            if !requisite_is_weighable(&requirements.requisite) {
                return Err(
                    Status::invalid_argument("Volume topology other than hostname not supported"),
                );
            }
            Ok((hostnames_of(&requirements.requisite), hostnames_of(&requirements.preferred)))
        },
        None => {
            let allowed: Vec<String> = Vec::new();
            let preferred: Vec<String> = Vec::new();
            assert(allowed.deep_view() =~= Seq::<Seq<char>>::empty());
            assert(preferred.deep_view() =~= Seq::<Seq<char>>::empty());
            Ok((allowed, preferred))
        },
    }
}

/// Checks a request to create a volume, given what the name pattern
/// captured in the volume's name and the 128-bit value of what it
/// captured, and says what is to be done for it.
pub fn plan_create_volume_from(
    request: &CreateVolumeRequest,
    capture: Option<String>,
    uuid: Option<u128>,
) -> (plan: Result<CreatePlan, Status>)
    ensures
        plan_view(plan) == create_plan(*request, capture.deep_view(), uuid),
{
    if request.has_content_source {
        return Err(Status::invalid_argument("Source for create volume is not supported"));
    }
    let volume_uuid = match capture {
        Some(captured) => captured,
        None => {
            let mut message = String::from_str("Expected the volume name in pvc-<UUID> format: ");
            message.append(request.name.as_str());
            return Err(Status { code: Code::InvalidArgument, message });
        },
    };
    match check_volume_capabilities(request.volume_capabilities.as_slice()) {
        Ok(_) => {},
        Err(status) => {
            return Err(status);
        },
    }
    let size = match size_of(&request.capacity_range) {
        Ok(size) => size,
        Err(status) => {
            return Err(status);
        },
    };
    let protocol = match request.parameters.get("protocol") {
        Some(protocol) => protocol,
        None => {
            return Err(Status::invalid_argument("Missing storage protocol"));
        },
    };
    match check_timeout(&request.parameters, protocol.as_str()) {
        Ok(_) => {},
        Err(status) => {
            return Err(status);
        },
    }
    let replica_count = match replica_count_of(&request.parameters) {
        Ok(count) => count,
        Err(status) => {
            return Err(status);
        },
    };
    let pinned_volume = decode_local_volume_flag(request.parameters.get("local"));
    let (allowed_nodes, preferred_nodes) = match nodes_of(&request.accessibility_requirements) {
        Ok(nodes) => nodes,
        Err(status) => {
            return Err(status);
        },
    };
    let uuid = match uuid {
        Some(uuid) => uuid,
        None => {
            let mut message = String::from_str("Malformed volume UUID: ");
            message.append(volume_uuid.as_str());
            return Err(Status { code: Code::InvalidArgument, message });
        },
    };
    Ok(
        CreatePlan {
            volume_uuid,
            uuid,
            size,
            replica_count,
            pinned_volume,
            allowed_nodes,
            preferred_nodes,
        },
    )
}

/// What the name pattern captures in `name`, and the 128-bit value of what
/// it captures.
pub open spec fn name_capture(name: Seq<char>) -> (Option<Seq<char>>, Option<u128>) {
    let capture = first_group(volume_name_pattern(), name);
    (
        capture,
        match capture {
            Some(text) => uuid_value(text),
            None => None,
        },
    )
}

/// Checks a request to create a volume and says what is to be done for it.
pub fn plan_create_volume(request: &CreateVolumeRequest) -> (plan: Result<CreatePlan, Status>)
    ensures
        plan_view(plan) == create_plan(
            *request,
            name_capture(request.name@).0,
            name_capture(request.name@).1,
        ),
{
    let capture = capture_first_group(
        "pvc-([0-9a-f]{8}-[0-9a-f]{4}-[0-9a-f]{4}-[0-9a-f]{4}-[0-9a-f]{12})",
        request.name.as_str(),
    );
    let uuid = match &capture {
        Some(text) => parse_uuid(text.as_str()),
        None => None,
    };
    plan_create_volume_from(request, capture, uuid)
}

/// The first position among `volumes` of a volume with identifier `uuid`,
/// or their number if none has it.
pub open spec fn first_with_uuid(volumes: Seq<models::Volume>, uuid: u128) -> int
    decreases volumes.len(),
{
    if volumes.len() == 0 {
        0
    } else if volumes[0].spec.uuid == uuid {
        0
    } else {
        1 + first_with_uuid(volumes.drop_first(), uuid)
    }
}

/// Where the first volume with identifier `uuid` lies from position `from`
/// on.
proof fn lemma_first_with_uuid_from(volumes: Seq<models::Volume>, uuid: u128, from: int)
    requires
        0 <= from <= volumes.len(),
        forall|j: int| 0 <= j < from ==> (#[trigger] volumes[j]).spec.uuid != uuid,
    ensures
        first_with_uuid(volumes, uuid) == from + first_with_uuid(
            volumes.subrange(from, volumes.len() as int),
            uuid,
        ),
    decreases from,
{
    if from > 0 {
        lemma_first_with_uuid_from(volumes, uuid, from - 1);
        let tail = volumes.subrange(from - 1, volumes.len() as int);
        assert(tail.drop_first() =~= volumes.subrange(from, volumes.len() as int));
        assert(tail[0] == volumes[from - 1]);
    } else {
        assert(volumes.subrange(0, volumes.len() as int) =~= volumes);
    }
}

/// The first position among `volumes` of the volume with identifier
/// `uuid`, if one of them has it.
pub fn existing_volume(volumes: &Vec<models::Volume>, uuid: u128) -> (found: Option<usize>)
    ensures
        match found {
            Some(i) => i == first_with_uuid(volumes@, uuid) && i < volumes.len() && volumes[i as int].spec.uuid
                == uuid,
            None => first_with_uuid(volumes@, uuid) == volumes.len(),
        },
{
    let mut i: usize = 0;
    while i < volumes.len()
        invariant
            i <= volumes.len(),
            forall|j: int| 0 <= j < i ==> (#[trigger] volumes[j]).spec.uuid != uuid,
        decreases volumes.len() - i,
    {
        if volumes[i].spec.uuid == uuid {
            proof {
                lemma_first_with_uuid_from(volumes@, uuid, i as int);
                assert(volumes@.subrange(i as int, volumes@.len() as int)[0] == volumes@[i as int]);
            }
            return Some(i);
        }
        i += 1;
    }
    proof {
        lemma_first_with_uuid_from(volumes@, uuid, i as int);
        assert(volumes@.subrange(i as int, volumes@.len() as int).len() == 0);
    }
    None
}

/// What is left to do for a request to create a volume, once the volumes
/// that exist are known.
#[derive(Debug, Clone, Copy, PartialEq, Eq, Structural)]
pub enum CreateDecision {
    /// The volume exists and will do: nothing is to be created.
    Exists,
    /// The volume is to be created.
    Create,
}

/// Whether a volume with identifier `uuid`, `replica_count` replicas and
/// `size` bytes must be created, given the volumes that exist: it must,
/// unless one of them has its identifier. The first such volume must then
/// be compatible with what is asked for, or the request is turned down.
pub open spec fn create_decision(
    volumes: Seq<models::Volume>,
    uuid: u128,
    replica_count: u8,
    size: u64,
) -> Result<CreateDecision, StatusView> {
    let at = first_with_uuid(volumes, uuid);
    if at < volumes.len() {
        match existing_volume_verdict(volumes[at].spec, replica_count, size) {
            Ok(_) => Ok(CreateDecision::Exists),
            Err(status) => Err(status),
        }
    } else {
        Ok(CreateDecision::Create)
    }
}

/// Decides whether the volume of `plan` must be created.
pub fn decide_create(volumes: &Vec<models::Volume>, plan: &CreatePlan) -> (decision: Result<
    CreateDecision,
    Status,
>)
    ensures
        verdict_view(decision) == create_decision(
            volumes@,
            plan.uuid,
            plan.replica_count,
            plan.size,
        ),
{
    match existing_volume(volumes, plan.uuid) {
        Some(i) => match check_existing_volume(
            &volumes[i],
            plan.replica_count,
            plan.size,
            plan.pinned_volume,
        ) {
            Ok(_) => Ok(CreateDecision::Exists),
            Err(status) => Err(status),
        },
        None => Ok(CreateDecision::Create),
    }
}

/// Says where volumes can be reached from, given the storage nodes.
#[derive(Debug)]
pub struct VolumeTopologyMapper {
    /// The storage nodes.
    pub nodes: Vec<models::Node>,
}

/// The topology that names the node `id`.
pub open spec fn node_topology(id: Seq<char>) -> Map<Seq<char>, Seq<char>> {
    Map::<Seq<char>, Seq<char>>::empty().insert(hostname_key(), id)
}

/// Where a volume can be reached from: a pinned volume from the storage
/// nodes, each by its host name; any other from anywhere, which the empty
/// list says.
pub open spec fn accessible_from(nodes: Seq<models::Node>, pinned_volume: bool) -> Seq<
    Map<Seq<char>, Seq<char>>,
> {
    if pinned_volume {
        Seq::new(nodes.len(), |i: int| node_topology(nodes[i].id@))
    } else {
        Seq::empty()
    }
}

/// The topologies of a list, each as its pairs of texts.
pub open spec fn topologies_view(topologies: Seq<Topology>) -> Seq<Map<Seq<char>, Seq<char>>> {
    Seq::new(topologies.len(), |i: int| topologies[i].segments@)
}

impl VolumeTopologyMapper {
    /// A mapper for the storage nodes `nodes`.
    pub fn new(nodes: Vec<models::Node>) -> (mapper: Self)
        ensures
            mapper.nodes == nodes,
    {
        VolumeTopologyMapper { nodes }
    }

    /// The nodes on which a workload that uses the volume can be placed.
    /// A pinned volume is used from the node that holds its nexus, so its
    /// workloads can run on the storage nodes only. Any other volume can be
    /// used from every node of the cluster.
    pub fn volume_accessible_topology(&self, pinned_volume: bool) -> (topologies: Vec<Topology>)
        ensures
            topologies_view(topologies@) == accessible_from(self.nodes@, pinned_volume),
    {
        let mut topologies: Vec<Topology> = Vec::new();
        if pinned_volume {
            let mut i: usize = 0;
            while i < self.nodes.len()
                invariant
                    i <= self.nodes.len(),
                    topologies.len() == i,
                    forall|j: int|
                        0 <= j < i ==> (#[trigger] topologies[j]).segments@ == node_topology(
                            self.nodes[j].id@,
                        ),
                decreases self.nodes.len() - i,
            {
                let mut segments = StringMap::new();
                segments.insert("kubernetes.io/hostname".to_owned(), self.nodes[i].id.clone());
                topologies.push(Topology { segments });
                i += 1;
            }
        }
        assert(topologies_view(topologies@) =~= accessible_from(self.nodes@, pinned_volume));
        topologies
    }

    /// Whether a volume is pinned. As of now every volume counts as
    /// pinned.
    pub fn is_volume_pinned(_volume: &models::Volume) -> (pinned: bool)
        ensures
            pinned,
    {
        true
    }
}

/// The volume that the service reports as created for `plan`: of the
/// plan's size and identifier, with the request's parameters as its
/// context, reachable from where `mapper` says.
pub fn created_volume(
    plan: CreatePlan,
    parameters: &StringMap,
    mapper: &VolumeTopologyMapper,
) -> (volume: Volume)
    ensures
        volume.capacity_bytes == plan.size as i64,
        volume.volume_id == plan.volume_uuid,
        volume.volume_context@ == parameters@,
        topologies_view(volume.accessible_topology@) == accessible_from(
            mapper.nodes@,
            plan.pinned_volume,
        ),
{
    Volume {
        capacity_bytes: #[verifier::truncate] (plan.size as i64),
        volume_id: plan.volume_uuid,
        volume_context: parameters.clone(),
        accessible_topology: mapper.volume_accessible_topology(plan.pinned_volume),
    }
}

/// What is to be done for a request to publish a volume.
#[derive(Debug, PartialEq, Eq)]
pub struct PublishPlan {
    /// The protocol to publish over.
    pub protocol: VolumeShareProtocol,
    /// Host name of the node to publish on.
    pub node_id: String,
    /// Identifier of the volume.
    pub volume_id: String,
}

/// A publish plan with its strings as text.
pub struct PublishPlanView {
    pub protocol: VolumeShareProtocol,
    pub node_id: Seq<char>,
    pub volume_id: Seq<char>,
}

impl View for PublishPlan {
    type V = PublishPlanView;

    open spec fn view(&self) -> PublishPlanView {
        PublishPlanView {
            protocol: self.protocol,
            node_id: self.node_id@,
            volume_id: self.volume_id@,
        }
    }
}

/// What the service makes of a request to publish a volume. The checks run
/// in this order, and the first that fails turns the request down as an
/// invalid argument: not read-only; a protocol that is named and known; a
/// node; a volume; a capability that is there and supported.
pub open spec fn publish_plan(request: ControllerPublishVolumeRequest) -> Result<
    PublishPlanView,
    StatusView,
> {
    let protocol = value_of(request.volume_context@, "protocol"@);
    if request.readonly {
        Err(invalid("Read-only volumes are not supported"@))
    } else if protocol is None {
        Err(invalid("No protocol specified for publish volume request"@))
    } else if protocol_named(protocol->Some_0) is Err {
        Err(protocol_named(protocol->Some_0)->Err_0)
    } else if request.node_id@.len() == 0 {
        Err(invalid("Node ID must not be empty"@))
    } else if request.volume_id@.len() == 0 {
        Err(invalid("Volume ID must not be empty"@))
    } else if request.volume_capability is None {
        Err(invalid("Missing volume capability"@))
    } else if capabilities_verdict(seq![request.volume_capability->Some_0]) is Err {
        Err(capabilities_verdict(seq![request.volume_capability->Some_0])->Err_0)
    } else {
        Ok(
            PublishPlanView {
                protocol: protocol_named(protocol->Some_0)->Ok_0,
                node_id: hostname_of(request.node_id@),
                volume_id: request.volume_id@,
            },
        )
    }
}

/// Checks a request to publish a volume and says what is to be done for
/// it.
pub fn plan_publish(request: ControllerPublishVolumeRequest) -> (plan: Result<PublishPlan, Status>)
    ensures
        match plan {
            Ok(plan) => publish_plan(request) == Ok::<PublishPlanView, StatusView>(plan@),
            Err(status) => publish_plan(request) == Err::<PublishPlanView, StatusView>(status@),
        },
{
    if request.readonly {
        return Err(Status::invalid_argument("Read-only volumes are not supported"));
    }
    let protocol = match request.volume_context.get("protocol") {
        Some(name) => match parse_protocol(name.as_str()) {
            Ok(protocol) => protocol,
            Err(status) => {
                return Err(status);
            },
        },
        None => {
            return Err(
                Status::invalid_argument("No protocol specified for publish volume request"),
            );
        },
    };
    if is_blank(request.node_id.as_str()) {
        return Err(Status::invalid_argument("Node ID must not be empty"));
    }
    if is_blank(request.volume_id.as_str()) {
        return Err(Status::invalid_argument("Volume ID must not be empty"));
    }
    match request.volume_capability {
        Some(capability) => {
            let capabilities = [capability];
            assert(capabilities@ =~= seq![capability]);
            match check_volume_capabilities(capabilities.as_slice()) {
                Ok(_) => {},
                Err(status) => {
                    return Err(status);
                },
            }
        },
        None => {
            return Err(Status::invalid_argument("Missing volume capability"));
        },
    }
    let node_id = normalize_hostname(request.node_id);
    Ok(PublishPlan { protocol, node_id, volume_id: request.volume_id })
}

/// What is left to do for a request to publish a volume, once its state
/// is known.
#[derive(Debug, PartialEq, Eq)]
pub enum PublishDecision {
    /// The volume is published already, at this URI.
    Published(String),
    /// The volume is to be published.
    Publish,
}

/// A publish decision with its URI as text.
pub enum PublishDecisionView {
    Published(Seq<char>),
    Publish,
}

/// The name of a protocol as the service's diagnostics spell it.
pub open spec fn protocol_label(protocol: Protocol) -> Seq<char> {
    match protocol {
        Protocol::Off => "None"@,
        Protocol::Nvmf => "Nvmf"@,
        Protocol::Iscsi => "Iscsi"@,
        Protocol::Nbd => "Nbd"@,
    }
}

/// What is left to do to publish the volume `volume` as `plan` says. A
/// volume without state cannot be judged. A volume that is shared already
/// must be shared over the protocol asked for, and is then published at its
/// share URI. A volume that is not shared is to be published.
pub open spec fn publish_decision(volume: models::Volume, plan: PublishPlanView) -> Result<
    PublishDecisionView,
    StatusView,
> {
    match volume.state {
        Some(state) => if state.protocol != Protocol::Off {
            if state.protocol != crate::message_bus::protocol_of(plan.protocol) {
                Err(
                    StatusView {
                        code: Code::FailedPrecondition,
                        message: "Volume "@ + plan.volume_id
                            + " already shared via different protocol: "@ + protocol_label(
                            state.protocol,
                        ),
                    },
                )
            } else {
                match share_uri(volume.state, volume.spec.uuid) {
                    Ok(uri) => Ok(PublishDecisionView::Published(uri)),
                    Err(status) => Err(status),
                }
            }
        } else {
            Ok(PublishDecisionView::Publish)
        },
        None => Err(
            StatusView {
                code: Code::Internal,
                message: "Volume "@ + plan.volume_id + " is missing current state"@,
            },
        ),
    }
}

/// Decides, from the state of the volume, what is left to do to publish
/// it.
pub fn decide_publish(volume: &models::Volume, plan: &PublishPlan) -> (decision: Result<
    PublishDecision,
    Status,
>)
    ensures
        match decision {
            Ok(PublishDecision::Published(uri)) => publish_decision(*volume, plan@) == Ok::<
                PublishDecisionView,
                StatusView,
            >(PublishDecisionView::Published(uri@)),
            Ok(PublishDecision::Publish) => publish_decision(*volume, plan@) == Ok::<
                PublishDecisionView,
                StatusView,
            >(PublishDecisionView::Publish),
            Err(status) => publish_decision(*volume, plan@) == Err::<
                PublishDecisionView,
                StatusView,
            >(status@),
        },
{
    match &volume.state {
        Some(state) => {
            if state.protocol != Protocol::Off {
                if state.protocol != Protocol::of(plan.protocol) {
                    let mut message = String::from_str("Volume ");
                    message.append(plan.volume_id.as_str());
                    message.append(" already shared via different protocol: ");
                    message.append(
                        match state.protocol {
                            Protocol::Off => "None",
                            Protocol::Nvmf => "Nvmf",
                            Protocol::Iscsi => "Iscsi",
                            Protocol::Nbd => "Nbd",
                        },
                    );
                    return Err(Status { code: Code::FailedPrecondition, message });
                }
                match get_volume_share_uri(volume) {
                    Ok(uri) => Ok(PublishDecision::Published(uri)),
                    Err(status) => Err(status),
                }
            } else {
                Ok(PublishDecision::Publish)
            }
        },
        None => {
            let mut message = String::from_str("Volume ");
            message.append(plan.volume_id.as_str());
            message.append(" is missing current state");
            Err(Status { code: Code::Internal, message })
        },
    }
}

/// What the node plugin is told of a published volume: its URI, and the
/// I/O timeout where the volume's context has one.
pub open spec fn publish_context_of(
    uri: Seq<char>,
    volume_context: Map<Seq<char>, Seq<char>>,
) -> Map<Seq<char>, Seq<char>> {
    let told = Map::<Seq<char>, Seq<char>>::empty().insert("uri"@, uri);
    match value_of(volume_context, "ioTimeout"@) {
        Some(timeout) => told.insert("ioTimeout"@, timeout),
        None => told,
    }
}

/// Prepares the context for the node plugin.
pub fn publish_context(uri: String, volume_context: &StringMap) -> (context: StringMap)
    ensures
        context@ == publish_context_of(uri@, volume_context@),
{
    let mut context = StringMap::new();
    context.insert("uri".to_owned(), uri);
    match volume_context.get("ioTimeout") {
        Some(timeout) => {
            context.insert("ioTimeout".to_owned(), timeout.clone());
        },
        None => {},
    }
    context
}

/// Whether the service supports a capability: it asks for the single node
/// writer.
pub open spec fn supported(capability: VolumeCapability) -> bool {
    capability.access_mode matches Some(mode) && mode.mode == SINGLE_NODE_WRITER
}

/// The capabilities among `capabilities` that the service supports, in
/// order.
pub open spec fn supported_among(capabilities: Seq<VolumeCapability>) -> Seq<VolumeCapability>
    decreases capabilities.len(),
{
    if capabilities.len() == 0 {
        Seq::empty()
    } else if supported(capabilities.last()) {
        supported_among(capabilities.drop_last()).push(capabilities.last())
    } else {
        supported_among(capabilities.drop_last())
    }
}

/// What the service confirms of a volume.
#[derive(Debug, PartialEq, Eq)]
pub struct Confirmed {
    /// The context that is confirmed; empty.
    pub volume_context: StringMap,
    /// The parameters that are confirmed; empty.
    pub parameters: StringMap,
    /// The capabilities that are confirmed.
    pub volume_capabilities: Vec<VolumeCapability>,
}

/// What the service answers when asked whether a volume has certain
/// capabilities.
#[derive(Debug, PartialEq, Eq)]
pub struct ValidateVolumeCapabilitiesResponse {
    /// What is confirmed; `None` where nothing is.
    pub confirmed: Option<Confirmed>,
    /// Why nothing is confirmed; empty otherwise.
    pub message: String,
}

/// Confirms the capabilities that the service supports: those that ask for
/// the single node writer. Where there is none, nothing is confirmed and
/// the message says why.
pub fn validate_volume_capabilities(capabilities: &Vec<VolumeCapability>) -> (response:
    ValidateVolumeCapabilitiesResponse)
    ensures
        match response.confirmed {
            Some(confirmed) => confirmed.volume_capabilities@.len() > 0
                && confirmed.volume_capabilities@ == supported_among(capabilities@)
                && confirmed.volume_context@ == Map::<Seq<char>, Seq<char>>::empty()
                && confirmed.parameters@ == Map::<Seq<char>, Seq<char>>::empty()
                && response.message@ == ""@,
            None => supported_among(capabilities@).len() == 0 && response.message@
                == "The only supported capability is SINGLE_NODE_WRITER"@,
        },
{
    let mut caps: Vec<VolumeCapability> = Vec::new();
    let mut i: usize = 0;
    assert(capabilities@.take(0) =~= Seq::<VolumeCapability>::empty());
    while i < capabilities.len()
        invariant
            i <= capabilities.len(),
            caps@ == supported_among(capabilities@.take(i as int)),
        decreases capabilities.len() - i,
    {
        proof {
            assert(capabilities@.take(i + 1).drop_last() =~= capabilities@.take(i as int));
            assert(capabilities@.take(i + 1).last() == capabilities@[i as int]);
        }
        let capability = capabilities[i];
        let keep = match capability.access_mode {
            Some(access_mode) => access_mode.mode == SINGLE_NODE_WRITER,
            None => false,
        };
        if keep {
            caps.push(capability);
        }
        i += 1;
    }
    proof {
        assert(capabilities@.take(i as int) =~= capabilities@);
    }
    if caps.len() > 0 {
        ValidateVolumeCapabilitiesResponse {
            confirmed: Some(
                Confirmed {
                    volume_context: StringMap::new(),
                    parameters: StringMap::new(),
                    volume_capabilities: caps,
                },
            ),
            message: "".to_owned(),
        }
    } else {
        ValidateVolumeCapabilitiesResponse {
            confirmed: None,
            message: "The only supported capability is SINGLE_NODE_WRITER".to_owned(),
        }
    }
}

/// How many of `total` volumes a reply lists when `max_entries` are asked
/// for: all of them where none or more than there are is asked for.
pub open spec fn listed_count(total: nat, max_entries: i32) -> nat {
    if max_entries > 0 && (max_entries as nat) < total {
        max_entries as nat
    } else {
        total
    }
}

/// Checks the greatest number of entries that a request to list volumes
/// asks for: it cannot be negative.
pub fn check_max_entries(max_entries: i32) -> (verdict: Result<(), Status>)
    ensures
        verdict_view(verdict) == if max_entries < 0 {
            Err::<(), StatusView>(invalid("max_entries can't be negative"@))
        } else {
            Ok::<(), StatusView>(())
        },
{
    if max_entries < 0 {
        return Err(Status::invalid_argument("max_entries can't be negative"));
    }
    Ok(())
}

/// Lists `volumes` for a reply that is to hold at most `max_entries`
/// entries, zero standing for no limit: the first volumes, each with its
/// identifier written out, its size, no context, and reachable from where
/// `mapper` says of a pinned volume. A negative limit is an invalid
/// argument.
pub fn list_volumes(
    volumes: &Vec<models::Volume>,
    max_entries: i32,
    mapper: &VolumeTopologyMapper,
) -> (listed: Result<ListVolumesResponse, Status>)
    ensures
        match listed {
            Ok(ListVolumesResponse { entries, next_token }) => max_entries >= 0 && next_token@.len()
                == 0 && entries.len() == listed_count(
                volumes.len() as nat,
                max_entries,
            ) && forall|i: int|
                0 <= i < entries.len() ==> {
                    let entry = #[trigger] entries[i];
                    &&& entry.volume_id@ == uuid_text(volumes[i].spec.uuid)
                    &&& entry.capacity_bytes == volumes[i].spec.size as i64
                    &&& entry.volume_context@ == Map::<Seq<char>, Seq<char>>::empty()
                    &&& topologies_view(entry.accessible_topology@) == accessible_from(
                        mapper.nodes@,
                        true,
                    )
                },
            Err(status) => max_entries < 0 && status@ == invalid("max_entries can't be negative"@),
        },
{
    match check_max_entries(max_entries) {
        Ok(_) => {},
        Err(status) => {
            return Err(status);
        },
    }
    let count: usize = if max_entries > 0 && (max_entries as usize) < volumes.len() {
        max_entries as usize
    } else {
        volumes.len()
    };
    let mut entries: Vec<Volume> = Vec::new();
    let mut i: usize = 0;
    while i < count
        invariant
            i <= count <= volumes.len(),
            entries.len() == i,
            forall|k: int|
                0 <= k < i ==> {
                    let entry = #[trigger] entries[k];
                    &&& entry.volume_id@ == uuid_text(volumes[k].spec.uuid)
                    &&& entry.capacity_bytes == volumes[k].spec.size as i64
                    &&& entry.volume_context@ == Map::<Seq<char>, Seq<char>>::empty()
                    &&& topologies_view(entry.accessible_topology@) == accessible_from(
                        mapper.nodes@,
                        true,
                    )
                },
        decreases count - i,
    {
        let volume = &volumes[i];
        entries.push(
            Volume {
                volume_id: format_uuid(volume.spec.uuid),
                capacity_bytes: #[verifier::truncate] (volume.spec.size as i64),
                volume_context: StringMap::new(),
                accessible_topology: mapper.volume_accessible_topology(
                    VolumeTopologyMapper::is_volume_pinned(volume),
                ),
            },
        );
        i += 1;
    }
    proof {
        reveal_strlit("");
    }
    Ok(ListVolumesResponse { entries, next_token: "".to_owned() })
}

/// The node whose capacity a request asks for, if it asks for one node's:
/// the host name in its topology. Capabilities that are not supported turn
/// the request down.
pub fn capacity_node(request: &GetCapacityRequest) -> (node: Result<Option<String>, Status>)
    ensures
        match node {
            Ok(node) => capabilities_verdict(request.volume_capabilities@) is Ok
                && node.deep_view() == match request.accessible_topology {
                Some(topology) => value_of(topology.segments@, hostname_key()),
                None => None,
            },
            Err(status) => capabilities_verdict(request.volume_capabilities@) == Err::<
                (),
                StatusView,
            >(status@),
        },
{
    match check_volume_capabilities(request.volume_capabilities.as_slice()) {
        Ok(_) => {},
        Err(status) => {
            return Err(status);
        },
    }
    match &request.accessible_topology {
        Some(topology) => match topology.segments.get("kubernetes.io/hostname") {
            Some(node) => Ok(Some(node.clone())),
            None => Ok(None),
        },
        None => Ok(None),
    }
}

/// The capacity that `pools` offer, counted pool by pool in order: a pool
/// that is online or degraded adds its capacity, a pool in another state
/// adds nothing, and a pool whose state is not known sets the count back
/// to zero. The count is a 64-bit signed number and wraps around.
pub open spec fn capacity_of(pools: Seq<models::Pool>) -> i64
    decreases pools.len(),
{
    if pools.len() == 0 {
        0
    } else {
        let counted = capacity_of(pools.drop_last());
        match pools.last().state {
            Some(state) => match state.status {
                models::PoolStatus::Online | models::PoolStatus::Degraded => vstd::wrapping::i64_specs::wrapping_add(
                    counted,
                    state.capacity as i64,
                ),
                _ => counted,
            },
            None => 0,
        }
    }
}

/// Counts the capacity that `pools` offer.
pub fn available_capacity(pools: &Vec<models::Pool>) -> (capacity: i64)
    ensures
        capacity == capacity_of(pools@),
{
    let mut capacity: i64 = 0;
    let mut i: usize = 0;
    while i < pools.len()
        invariant
            i <= pools.len(),
            capacity == capacity_of(pools@.take(i as int)),
        decreases pools.len() - i,
    {
        proof {
            assert(pools@.take(i + 1).drop_last() =~= pools@.take(i as int));
            assert(pools@.take(i + 1).last() == pools@[i as int]);
        }
        capacity = match &pools[i].state {
            Some(state) => match state.status {
                models::PoolStatus::Online | models::PoolStatus::Degraded => capacity.wrapping_add(
                    #[verifier::truncate] (state.capacity as i64),
                ),
                _ => capacity,
            },
            None => 0,
        };
        i += 1;
    }
    proof {
        assert(pools@.take(i as int) =~= pools@);
    }
    capacity
}

/// Tells the capacity that `pools` offer; the service knows of no limit to
/// the size of a volume.
pub fn get_capacity(pools: &Vec<models::Pool>) -> (response: GetCapacityResponse)
    ensures
        response == (GetCapacityResponse {
            available_capacity: capacity_of(pools@),
            maximum_volume_size: None,
            minimum_volume_size: None,
        }),
{
    GetCapacityResponse {
        available_capacity: available_capacity(pools),
        maximum_volume_size: None,
        minimum_volume_size: None,
    }
}

/// The status of a request that could not list the storage nodes.
pub fn list_nodes_failed(error: &ApiClientError) -> (status: Status)
    ensures
        status@ == (StatusView {
            code: Code::FailedPrecondition,
            message: "Failed to list Mayastor nodes, error = "@
                + error_debug(error@),
        }),
{
    let mut message = String::from_str("Failed to list Mayastor nodes, error = ");
    let part1 = error.debug();
    message.append(part1.as_str());
    Status { code: Code::FailedPrecondition, message }
}

/// The status of a request that could not delete the volume `volume_id`.
pub fn delete_volume_failed(volume_id: &str, error: &ApiClientError) -> (status: Status)
    ensures
        status@ == (StatusView {
            code: Code::Internal,
            message: "Failed to delete volume "@
                + volume_id@
                + ", error = "@
                + error_debug(error@),
        }),
{
    let mut message = String::from_str("Failed to delete volume ");
    message.append(volume_id);
    message.append(", error = ");
    let part1 = error.debug();
    message.append(part1.as_str());
    Status { code: Code::Internal, message }
}

/// The status of a request that could not unpublish the volume `volume_id`.
pub fn unpublish_volume_failed(volume_id: &str, error: &ApiClientError) -> (status: Status)
    ensures
        status@ == (StatusView {
            code: Code::Internal,
            message: "Failed to unpublish volume "@
                + volume_id@
                + ", error = "@
                + error_debug(error@),
        }),
{
    let mut message = String::from_str("Failed to unpublish volume ");
    message.append(volume_id);
    message.append(", error = ");
    let part1 = error.debug();
    message.append(part1.as_str());
    Status { code: Code::Internal, message }
}

/// The status of a request that could not list the volumes.
pub fn list_volumes_failed(error: &ApiClientError) -> (status: Status)
    ensures
        status@ == (StatusView {
            code: Code::Internal,
            message: "Failed to list volumes, error = "@
                + error_debug(error@),
        }),
{
    let mut message = String::from_str("Failed to list volumes, error = ");
    let part1 = error.debug();
    message.append(part1.as_str());
    Status { code: Code::Internal, message }
}

/// The status of a request that could not list the pools of the node `node`.
pub fn list_node_pools_failed(node: &str, error: &ApiClientError) -> (status: Status)
    ensures
        status@ == (StatusView {
            code: Code::Internal,
            message: "Failed to list pools for node "@
                + node@
                + ", error = "@
                + error_debug(error@),
        }),
{
    let mut message = String::from_str("Failed to list pools for node ");
    message.append(node);
    message.append(", error = ");
    let part1 = error.debug();
    message.append(part1.as_str());
    Status { code: Code::Internal, message }
}

/// The status of a request that could not list the pools.
pub fn list_pools_failed(error: &ApiClientError) -> (status: Status)
    ensures
        status@ == (StatusView {
            code: Code::Internal,
            message: "Failed to list all pools, error = "@
                + error_debug(error@),
        }),
{
    let mut message = String::from_str("Failed to list all pools, error = ");
    let part1 = error.debug();
    message.append(part1.as_str());
    Status { code: Code::Internal, message }
}

/// What the controller service can do.
#[derive(Debug, Clone, Copy, PartialEq, Eq, Structural)]
pub enum ControllerCapability {
    CreateDeleteVolume,
    PublishUnpublishVolume,
    ListVolumes,
    GetCapacity,
}

/// The capabilities of the controller service.
pub fn controller_get_capabilities() -> (capabilities: Vec<ControllerCapability>)
    ensures
        capabilities@ == seq![
            ControllerCapability::CreateDeleteVolume,
            ControllerCapability::PublishUnpublishVolume,
            ControllerCapability::ListVolumes,
            ControllerCapability::GetCapacity,
        ],
{
    let mut capabilities: Vec<ControllerCapability> = Vec::new();
    capabilities.push(ControllerCapability::CreateDeleteVolume);
    capabilities.push(ControllerCapability::PublishUnpublishVolume);
    capabilities.push(ControllerCapability::ListVolumes);
    capabilities.push(ControllerCapability::GetCapacity);
    assert(capabilities@ =~= seq![
        ControllerCapability::CreateDeleteVolume,
        ControllerCapability::PublishUnpublishVolume,
        ControllerCapability::ListVolumes,
        ControllerCapability::GetCapacity,
    ]);
    capabilities
}

} // verus!
