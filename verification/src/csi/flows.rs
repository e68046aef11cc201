//! The requests that take more than one question to the REST interface,
//! as flows: each step says what is to be asked next, or how the request
//! ends. Nothing is asked for a request that is turned down, and a question
//! that could not be asked ends the request.

use vstd::prelude::*;
use crate::csi::client::{error_debug, ApiClientError};
use crate::csi::controller::{
    accessible_from, create_decision, create_plan, created_volume, decide_create, decide_publish,
    get_volume_share_uri, list_nodes_failed, name_capture, plan_create_volume, plan_publish,
    publish_context, publish_context_of, publish_decision, publish_plan, share_uri,
    status_of_error, topologies_view, Code, CreateDecision, CreatePlan, PublishDecision,
    PublishDecisionView, PublishPlan, Status, StatusView, VolumeTopologyMapper,
};
use crate::csi::messages::{
    ControllerPublishVolumeRequest, ControllerPublishVolumeResponse, CreateVolumeRequest,
    CreateVolumeResponse,
};
use crate::models;
use crate::string_map::StringMap;

verus! {

/// What the creation of a volume asks of the REST interface.
#[derive(Debug, Clone, Copy, PartialEq, Eq, Structural)]
pub enum CreateAsk {
    /// The volumes that exist.
    ListVolumes,
    /// To create the volume of the plan.
    CreateVolume,
    /// The storage nodes.
    ListNodes,
}

/// What the REST interface answered.
#[derive(Debug)]
pub enum CreateReply {
    /// The volumes that exist, or why they could not be listed.
    Volumes(Result<Vec<models::Volume>, ApiClientError>),
    /// That the volume was created, or why it could not be.
    Created(Result<(), ApiClientError>),
    /// The storage nodes, or why they could not be listed.
    Nodes(Result<Vec<models::Node>, ApiClientError>),
}

/// The creation of a volume under way.
#[derive(Debug)]
pub struct CreateFlow {
    /// What is to be done.
    pub plan: CreatePlan,
    /// The parameters of the request.
    pub parameters: StringMap,
    /// What the flow has asked and waits for.
    pub waits_for: CreateAsk,
}

/// What a step of the creation comes to.
#[derive(Debug)]
pub enum CreateStep {
    /// The caller asks what the flow waits for and hands the answer to
    /// `continue_create`.
    Ask(CreateFlow),
    /// The request has ended.
    Done(Result<CreateVolumeResponse, Status>),
}

/// Whether `step` ends the request with `status`.
pub open spec fn create_fails(step: CreateStep, status: StatusView) -> bool {
    match step {
        CreateStep::Done(Err(told)) => told@ == status,
        _ => false,
    }
}

/// Whether `step` goes on with the plan and parameters of `flow` and asks
/// `ask`.
pub open spec fn create_asks(step: CreateStep, flow: CreateFlow, ask: CreateAsk) -> bool {
    match step {
        CreateStep::Ask(next) => next.plan == flow.plan && next.parameters == flow.parameters
            && next.waits_for == ask,
        _ => false,
    }
}

/// Whether `step` ends the request with the volume of `flow` as created,
/// reachable from where `nodes` say.
pub open spec fn create_succeeds(step: CreateStep, flow: CreateFlow, nodes: Seq<models::Node>) -> bool {
    match step {
        CreateStep::Done(Ok(CreateVolumeResponse { volume: Some(volume) })) => {
            &&& volume.capacity_bytes == flow.plan.size as i64
            &&& volume.volume_id == flow.plan.volume_uuid
            &&& volume.volume_context@ == flow.parameters@
            &&& topologies_view(volume.accessible_topology@) == accessible_from(
                nodes,
                flow.plan.pinned_volume,
            )
        },
        _ => false,
    }
}

/// The status of a reply that the flow did not wait for.
pub open spec fn out_of_turn() -> StatusView {
    StatusView { code: Code::Internal, message: "Reply out of turn"@ }
}

/// What `continue_create` makes of a reply. A question that could not be
/// asked ends the request with the status of its error; the storage nodes
/// not being listed is a failed precondition. The volumes that exist decide
/// whether the volume is created or taken as it is, or the request is
/// turned down. Once the volume is there, the storage nodes say where it
/// can be reached from.
pub open spec fn create_continued(flow: CreateFlow, reply: CreateReply, step: CreateStep) -> bool {
    match (flow.waits_for, reply) {
        (CreateAsk::ListVolumes, CreateReply::Volumes(Err(error))) => create_fails(
            step,
            status_of_error(error@),
        ),
        (CreateAsk::ListVolumes, CreateReply::Volumes(Ok(volumes))) => match create_decision(
            volumes@,
            flow.plan.uuid,
            flow.plan.replica_count,
            flow.plan.size,
        ) {
            Err(status) => create_fails(step, status),
            Ok(CreateDecision::Exists) => create_asks(step, flow, CreateAsk::ListNodes),
            Ok(CreateDecision::Create) => create_asks(step, flow, CreateAsk::CreateVolume),
        },
        (CreateAsk::CreateVolume, CreateReply::Created(Err(error))) => create_fails(
            step,
            status_of_error(error@),
        ),
        (CreateAsk::CreateVolume, CreateReply::Created(Ok(_))) => create_asks(
            step,
            flow,
            CreateAsk::ListNodes,
        ),
        (CreateAsk::ListNodes, CreateReply::Nodes(Err(error))) => create_fails(
            step,
            StatusView {
                code: Code::FailedPrecondition,
                message: "Failed to list Mayastor nodes, error = "@ + error_debug(error@),
            },
        ),
        (CreateAsk::ListNodes, CreateReply::Nodes(Ok(nodes))) => create_succeeds(
            step,
            flow,
            nodes@,
        ),
        _ => create_fails(step, out_of_turn()),
    }
}

/// Takes a request to create a volume: a request that cannot stand is
/// turned down before anything is asked of the REST interface; for any
/// other the volumes that exist are asked for.
pub fn start_create(request: CreateVolumeRequest) -> (step: CreateStep)
    ensures
        match create_plan(request, name_capture(request.name@).0, name_capture(request.name@).1) {
            Ok(plan) => step matches CreateStep::Ask(flow) && flow.plan@ == plan
                && flow.parameters == request.parameters && flow.waits_for
                == CreateAsk::ListVolumes,
            Err(status) => create_fails(step, status),
        },
{
    match plan_create_volume(&request) {
        Ok(plan) => CreateStep::Ask(
            CreateFlow { plan, parameters: request.parameters, waits_for: CreateAsk::ListVolumes },
        ),
        Err(status) => CreateStep::Done(Err(status)),
    }
}

/// Takes the answer to what the flow asked, and says how the creation of
/// the volume goes on.
pub fn continue_create(flow: CreateFlow, reply: CreateReply) -> (step: CreateStep)
    ensures
        create_continued(flow, reply, step),
{
    match (flow.waits_for, reply) {
        (CreateAsk::ListVolumes, CreateReply::Volumes(Err(error))) => CreateStep::Done(
            Err(Status::from(error)),
        ),
        (CreateAsk::ListVolumes, CreateReply::Volumes(Ok(volumes))) => match decide_create(
            &volumes,
            &flow.plan,
        ) {
            Err(status) => CreateStep::Done(Err(status)),
            Ok(CreateDecision::Exists) => CreateStep::Ask(
                CreateFlow {
                    plan: flow.plan,
                    parameters: flow.parameters,
                    waits_for: CreateAsk::ListNodes,
                },
            ),
            Ok(CreateDecision::Create) => CreateStep::Ask(
                CreateFlow {
                    plan: flow.plan,
                    parameters: flow.parameters,
                    waits_for: CreateAsk::CreateVolume,
                },
            ),
        },
        (CreateAsk::CreateVolume, CreateReply::Created(Err(error))) => CreateStep::Done(
            Err(Status::from(error)),
        ),
        (CreateAsk::CreateVolume, CreateReply::Created(Ok(_))) => CreateStep::Ask(
            CreateFlow {
                plan: flow.plan,
                parameters: flow.parameters,
                waits_for: CreateAsk::ListNodes,
            },
        ),
        (CreateAsk::ListNodes, CreateReply::Nodes(Err(error))) => CreateStep::Done(
            Err(list_nodes_failed(&error)),
        ),
        (CreateAsk::ListNodes, CreateReply::Nodes(Ok(nodes))) => {
            let mapper = VolumeTopologyMapper::new(nodes);
            let volume = created_volume(flow.plan, &flow.parameters, &mapper);
            CreateStep::Done(Ok(CreateVolumeResponse { volume: Some(volume) }))
        },
        _ => CreateStep::Done(Err(Status::internal("Reply out of turn"))),
    }
}

/// What the publication of a volume asks of the REST interface.
#[derive(Debug, Clone, Copy, PartialEq, Eq, Structural)]
pub enum PublishAsk {
    /// The volume.
    GetVolume,
    /// To publish the volume as the plan says.
    PublishVolume,
}

/// What the REST interface answered.
#[derive(Debug)]
pub enum PublishReply {
    /// The volume, or why it could not be had.
    Volume(Result<models::Volume, ApiClientError>),
    /// The volume as published, or why it could not be published.
    Published(Result<models::Volume, ApiClientError>),
}

/// The publication of a volume under way.
#[derive(Debug)]
pub struct PublishFlow {
    /// What is to be done.
    pub plan: PublishPlan,
    /// The context of the volume, as the request has it.
    pub volume_context: StringMap,
    /// What the flow has asked and waits for.
    pub waits_for: PublishAsk,
}

/// What a step of the publication comes to.
#[derive(Debug)]
pub enum PublishStep {
    /// The caller asks what the flow waits for and hands the answer to
    /// `continue_publish`.
    Ask(PublishFlow),
    /// The request has ended.
    Done(Result<ControllerPublishVolumeResponse, Status>),
}

/// Whether `step` ends the request with `status`.
pub open spec fn publish_fails(step: PublishStep, status: StatusView) -> bool {
    match step {
        PublishStep::Done(Err(told)) => told@ == status,
        _ => false,
    }
}

/// Whether `step` ends the request with the volume published at `uri`.
pub open spec fn publish_succeeds(step: PublishStep, flow: PublishFlow, uri: Seq<char>) -> bool {
    match step {
        PublishStep::Done(Ok(response)) => response.publish_context@ == publish_context_of(
            uri,
            flow.volume_context@,
        ),
        _ => false,
    }
}

/// What `continue_publish` makes of a reply. A question that could not be
/// asked ends the request with the status of its error. The volume's state
/// decides whether the volume is published already, is to be published, or
/// cannot be. A volume that was published is reported at its share URI.
pub open spec fn publish_continued(flow: PublishFlow, reply: PublishReply, step: PublishStep) -> bool {
    match (flow.waits_for, reply) {
        (PublishAsk::GetVolume, PublishReply::Volume(Err(error))) => publish_fails(
            step,
            status_of_error(error@),
        ),
        (PublishAsk::GetVolume, PublishReply::Volume(Ok(volume))) => match publish_decision(
            volume,
            flow.plan@,
        ) {
            Err(status) => publish_fails(step, status),
            Ok(PublishDecisionView::Published(uri)) => publish_succeeds(step, flow, uri),
            Ok(PublishDecisionView::Publish) => match step {
                PublishStep::Ask(next) => next.plan == flow.plan && next.volume_context
                    == flow.volume_context && next.waits_for == PublishAsk::PublishVolume,
                _ => false,
            },
        },
        (PublishAsk::PublishVolume, PublishReply::Published(Err(error))) => publish_fails(
            step,
            status_of_error(error@),
        ),
        (PublishAsk::PublishVolume, PublishReply::Published(Ok(volume))) => match share_uri(
            volume.state,
            volume.spec.uuid,
        ) {
            Err(status) => publish_fails(step, status),
            Ok(uri) => publish_succeeds(step, flow, uri),
        },
        _ => publish_fails(step, out_of_turn()),
    }
}

/// Takes a request to publish a volume: a request that cannot stand is
/// turned down before anything is asked of the REST interface; for any
/// other the volume is asked for.
pub fn start_publish(request: ControllerPublishVolumeRequest) -> (step: PublishStep)
    ensures
        match publish_plan(request) {
            Ok(plan) => step matches PublishStep::Ask(flow) && flow.plan@ == plan
                && flow.volume_context@ == request.volume_context@ && flow.waits_for
                == PublishAsk::GetVolume,
            Err(status) => publish_fails(step, status),
        },
{
    let volume_context = request.volume_context.clone();
    match plan_publish(request) {
        Ok(plan) => PublishStep::Ask(
            PublishFlow { plan, volume_context, waits_for: PublishAsk::GetVolume },
        ),
        Err(status) => PublishStep::Done(Err(status)),
    }
}

/// Takes the answer to what the flow asked, and says how the publication
/// of the volume goes on.
pub fn continue_publish(flow: PublishFlow, reply: PublishReply) -> (step: PublishStep)
    ensures
        publish_continued(flow, reply, step),
{
    match (flow.waits_for, reply) {
        (PublishAsk::GetVolume, PublishReply::Volume(Err(error))) => PublishStep::Done(
            Err(Status::from(error)),
        ),
        (PublishAsk::GetVolume, PublishReply::Volume(Ok(volume))) => match decide_publish(
            &volume,
            &flow.plan,
        ) {
            Err(status) => PublishStep::Done(Err(status)),
            Ok(PublishDecision::Published(uri)) => PublishStep::Done(
                Ok(
                    ControllerPublishVolumeResponse {
                        publish_context: publish_context(uri, &flow.volume_context),
                    },
                ),
            ),
            Ok(PublishDecision::Publish) => PublishStep::Ask(
                PublishFlow {
                    plan: flow.plan,
                    volume_context: flow.volume_context,
                    waits_for: PublishAsk::PublishVolume,
                },
            ),
        },
        (PublishAsk::PublishVolume, PublishReply::Published(Err(error))) => PublishStep::Done(
            Err(Status::from(error)),
        ),
        (PublishAsk::PublishVolume, PublishReply::Published(Ok(volume))) => {
            match get_volume_share_uri(&volume) {
                Err(status) => PublishStep::Done(Err(status)),
                Ok(uri) => PublishStep::Done(
                    Ok(
                        ControllerPublishVolumeResponse {
                            publish_context: publish_context(uri, &flow.volume_context),
                        },
                    ),
                ),
            }
        },
        _ => PublishStep::Done(Err(Status::internal("Reply out of turn"))),
    }
}

} // verus!
