use control_plane::message_bus;
use control_plane::message_bus::{
    CreateVolume, ExplicitTopology, Nexus, NexusId, NodeId, Protocol, ReplicaId, Topology,
    VolumeHealPolicy, VolumeId, VolumeShareProtocol, VolumeStatus,
};
use control_plane::models;
use control_plane::models::volume_spec_operation::Operation;
use control_plane::reconciler::{
    admit_create, admit_operation, advance, needs_recovery, recover, resolve, submit, validate,
    Action, Admission, Event, ExecutorError, Phase, Recovery, Step,
};
use control_plane::store::definitions::{store_key, ObjectKey, StorableObject, StorableObjectType};
use control_plane::store::gateway::SpecStore;
use control_plane::store::sequencer::{
    OperationSequence, OperationSequenceState, OperationSequencer, SvcError, UuidString,
};
use control_plane::store::transaction::{SpecStatus, SpecTransaction};
use control_plane::store::volume::{
    VolumeOperation, VolumeSpec, VolumeSpecKey, VolumeStateKey, VolumeTarget,
};

fn request(id: &str, size: u64, replicas: u64) -> CreateVolume {
    CreateVolume {
        uuid: VolumeId::new(id),
        size,
        replicas,
        policy: VolumeHealPolicy { self_heal: false },
        topology: Topology { explicit: None },
    }
}

fn created(id: &str) -> VolumeSpec {
    let mut spec = VolumeSpec::from(&request(id, 1024, 1));
    spec.status = SpecStatus::Created(VolumeStatus::Online);
    spec
}

fn shown(spec: &VolumeSpec) -> String {
    format!("{:?}", spec)
}

fn expect_next(step: Step) -> (control_plane::reconciler::InFlight, Action) {
    match step {
        Step::Next(task, action) => (task, action),
        Step::Done(result) => panic!("the operation ended early: {:?}", result),
    }
}

fn expect_done(step: Step) -> Result<(), SvcError> {
    match step {
        Step::Done(result) => result,
        Step::Next(_, action) => panic!("the operation goes on: {:?}", action),
    }
}

/// Runs a request to its end with a store that takes every write.
fn run(
    record: &mut VolumeSpec,
    operation: VolumeOperation,
    outcome: Result<(), ExecutorError>,
) -> Result<(), SvcError> {
    let mut step = submit(record, operation);
    loop {
        match step {
            Step::Done(result) => return result,
            Step::Next(task, action) => {
                let event = match action {
                    Action::Persist => Event::Stored(true),
                    Action::Remove => Event::Stored(true),
                    Action::Execute(_) => Event::Executed(outcome),
                };
                step = advance(record, task, event);
            }
        }
    }
}

#[test]
fn a_new_specification_is_creating() {
    let spec = VolumeSpec::from(&request("V1", 1024, 1));
    assert_eq!(spec.uuid, VolumeId::new("V1"));
    assert_eq!(spec.status, SpecStatus::Creating);
    assert_eq!(spec.size, 1024);
    assert_eq!(spec.num_replicas, 1);
    assert_eq!(spec.protocol, Protocol::Off);
    assert!(spec.labels.is_empty());
    assert!(spec.target.is_none());
    assert!(spec.last_nexus_id.is_none());
    assert_eq!(spec.sequencer.state, OperationSequenceState::Idle);
    assert_eq!(spec.sequencer.uuid, "V1");
    assert!(!spec.pending_op());
}

#[test]
fn a_new_specification_keeps_the_low_byte_of_the_replica_count() {
    let spec = VolumeSpec::from(&request("V1", 1, 300));
    assert_eq!(spec.num_replicas, 44);
}

#[test]
fn scenario_create_on_an_empty_store() {
    let mut store: SpecStore<VolumeSpec> = SpecStore::new();
    let id = String::from("V1");
    let asked = request("V1", 1024, 1);
    assert_eq!(admit_create(store.get(StorableObjectType::VolumeSpec, &id), &asked), Admission::Proceed);

    let mut record = VolumeSpec::from(&asked);
    assert_eq!(record.status, SpecStatus::Creating);

    let (task, action) = expect_next(submit(&mut record, VolumeOperation::Create));
    assert!(matches!(action, Action::Persist));
    assert_eq!(task.phase(), Phase::PersistingStart);
    assert_eq!(task.uuid(), "V1");
    store.put(StorableObjectType::VolumeSpec, id.clone(), record.clone());
    let stored = store.get(StorableObjectType::VolumeSpec, &id).unwrap();
    assert_eq!(stored.status, SpecStatus::Creating);
    assert!(stored.pending_op());

    let (task, action) = expect_next(advance(&mut record, task, Event::Stored(true)));
    assert!(matches!(action, Action::Execute(VolumeOperation::Create)));
    let (task, action) = expect_next(advance(&mut record, task, Event::Executed(Ok(()))));
    assert!(matches!(action, Action::Persist));
    assert_eq!(record.operation.as_ref().unwrap().result, Some(true));
    let (task, action) = expect_next(advance(&mut record, task, Event::Stored(true)));
    assert!(matches!(action, Action::Persist));
    assert_eq!(task.phase(), Phase::PersistingFinal(true));
    store.put(StorableObjectType::VolumeSpec, id.clone(), record.clone());
    assert_eq!(expect_done(advance(&mut record, task, Event::Stored(true))), Ok(()));

    assert_eq!(record.status, SpecStatus::Created(VolumeStatus::Online));
    assert_eq!(record.size, 1024);
    assert_eq!(record.num_replicas, 1);
    assert!(!record.pending_op());
    assert_eq!(record.sequencer.state, OperationSequenceState::Idle);
    let stored = store.get(StorableObjectType::VolumeSpec, &id).unwrap();
    assert_eq!(stored.status, SpecStatus::Created(VolumeStatus::Online));
    assert_eq!(stored.size, 1024);
    assert_eq!(stored.num_replicas, 1);
    assert_eq!(store.len(), 1);
}

#[test]
fn scenario_publish_sets_target_protocol_and_last_nexus() {
    let mut record = VolumeSpec::from(&request("V1", 1024, 1));
    assert_eq!(run(&mut record, VolumeOperation::Create, Ok(())), Ok(()));
    let publish = VolumeOperation::Publish((
        NodeId::new("n1"),
        NexusId::new("x1"),
        Some(VolumeShareProtocol::Nvmf),
    ));
    assert_eq!(run(&mut record, publish, Ok(())), Ok(()));
    let target = record.target.as_ref().unwrap();
    assert_eq!(target.node().as_str(), "n1");
    assert_eq!(target.nexus().as_str(), "x1");
    assert_eq!(record.protocol, Protocol::Nvmf);
    assert_eq!(record.last_nexus_id, Some(NexusId::new("x1")));
    assert_eq!(record.status, SpecStatus::Created(VolumeStatus::Online));
    assert_eq!(record.size, 1024);
    assert_eq!(record.num_replicas, 1);
}

#[test]
fn scenario_set_replica_while_publish_is_pending_is_busy() {
    let mut record = created("V1");
    let publish = VolumeOperation::Publish((
        NodeId::new("n1"),
        NexusId::new("x1"),
        Some(VolumeShareProtocol::Nvmf),
    ));
    let (task, _) = expect_next(submit(&mut record, publish));
    let before = shown(&record);
    assert_eq!(expect_done(submit(&mut record, VolumeOperation::SetReplica(3))), Err(SvcError::Busy));
    assert_eq!(shown(&record), before);
    assert_eq!(record.num_replicas, 1);
    assert_eq!(record.desired_num_replicas(), 1);
    let (task, _) = expect_next(advance(&mut record, task, Event::Stored(true)));
    assert_eq!(expect_done(submit(&mut record, VolumeOperation::SetReplica(3))), Err(SvcError::Busy));
    let (task, _) = expect_next(advance(&mut record, task, Event::Executed(Ok(()))));
    let (task, _) = expect_next(advance(&mut record, task, Event::Stored(true)));
    assert_eq!(expect_done(advance(&mut record, task, Event::Stored(true))), Ok(()));
    assert_eq!(run(&mut record, VolumeOperation::SetReplica(3), Ok(())), Ok(()));
    assert_eq!(record.num_replicas, 3);
}

#[test]
fn the_sequencer_grants_one_guard_at_a_time() {
    let mut sequencer = OperationSequence::new(String::from("V1"));
    assert!(!sequencer.busy());
    let guard = sequencer.acquire().unwrap();
    assert_eq!(guard.uuid(), "V1");
    assert!(sequencer.busy());
    assert_eq!(sequencer.acquire().err(), Some(SvcError::Busy));
    assert_eq!(sequencer.acquire().err(), Some(SvcError::Busy));
    sequencer.release(guard);
    assert!(!sequencer.busy());
    let again = sequencer.acquire();
    assert!(again.is_ok());
}

#[test]
fn sequencers_of_different_resources_do_not_meet() {
    let mut first = OperationSequence::new(String::from("V1"));
    let mut second = OperationSequence::new(String::from("V2"));
    let held = first.acquire().unwrap();
    let other = second.acquire().unwrap();
    assert!(first.busy() && second.busy());
    second.release(held);
    assert!(second.busy());
    first.release(other);
    assert!(first.busy());
}

#[test]
fn a_record_hands_out_its_sequencer() {
    let mut record = created("V1");
    assert_eq!(record.as_ref().state, OperationSequenceState::Idle);
    let guard = record.as_mut().acquire().unwrap();
    assert_eq!(record.sequencer.state, OperationSequenceState::Exclusive);
    assert_eq!(expect_done(submit(&mut record, VolumeOperation::Unshare)), Err(SvcError::Busy));
    record.as_mut().release(guard);
    assert_eq!(record.as_ref().state, OperationSequenceState::Idle);
    assert_eq!(record.uuid_as_string(), "V1");
}

fn committed(mut spec: VolumeSpec, operation: VolumeOperation) -> VolumeSpec {
    assert_eq!(spec.start_op(operation), Ok(()));
    spec.set_op_result(true);
    spec.commit_op();
    assert!(!spec.pending_op());
    spec
}

#[test]
fn commit_follows_the_fold_table() {
    let spec = committed(VolumeSpec::from(&request("V1", 1024, 1)), VolumeOperation::Create);
    assert_eq!(spec.status, SpecStatus::Created(VolumeStatus::Online));

    let spec = committed(created("V1"), VolumeOperation::Destroy);
    assert_eq!(spec.status, SpecStatus::Deleted);

    let spec = committed(created("V1"), VolumeOperation::Share(VolumeShareProtocol::Iscsi));
    assert_eq!(spec.protocol, Protocol::Iscsi);
    let spec = committed(spec, VolumeOperation::Unshare);
    assert_eq!(spec.protocol, Protocol::Off);

    let spec = committed(created("V1"), VolumeOperation::SetReplica(3));
    assert_eq!(spec.num_replicas, 3);

    let before = created("V1");
    let text = shown(&before);
    let spec = committed(before, VolumeOperation::RemoveUnusedReplica(ReplicaId::new("r1")));
    assert_eq!(shown(&spec), text);

    let spec = committed(
        created("V1"),
        VolumeOperation::Publish((NodeId::new("n1"), NexusId::new("x1"), None)),
    );
    assert_eq!(spec.target.as_ref().unwrap().node(), &NodeId::new("n1"));
    assert_eq!(spec.target.as_ref().unwrap().nexus(), &NexusId::new("x1"));
    assert_eq!(spec.last_nexus_id, Some(NexusId::new("x1")));
    assert_eq!(spec.protocol, Protocol::Off);

    let spec = committed(spec, VolumeOperation::Unpublish);
    assert!(spec.target.is_none());
    assert_eq!(spec.protocol, Protocol::Off);
    assert_eq!(spec.last_nexus_id, Some(NexusId::new("x1")));
}

#[test]
fn commit_changes_nothing_but_what_the_fold_table_names() {
    let mut expected = created("V1");
    expected.num_replicas = 7;
    let spec = committed(created("V1"), VolumeOperation::SetReplica(7));
    assert_eq!(shown(&spec), shown(&expected));
}

#[test]
fn clear_gives_back_the_record_as_it_was() {
    let mut spec = created("V1");
    spec.target = Some(VolumeTarget::new(NodeId::new("n1"), NexusId::new("x1")));
    spec.protocol = Protocol::Nvmf;
    let before = shown(&spec);
    assert_eq!(spec.start_op(VolumeOperation::SetReplica(9)), Ok(()));
    assert_ne!(shown(&spec), before);
    spec.set_op_result(false);
    spec.clear_op();
    assert_eq!(shown(&spec), before);
    assert_eq!(spec.start_op(VolumeOperation::Unpublish), Ok(()));
    spec.clear_op();
    assert_eq!(shown(&spec), before);
}

#[test]
fn a_second_start_is_turned_down_and_changes_nothing() {
    let mut spec = created("V1");
    assert_eq!(spec.start_op(VolumeOperation::SetReplica(2)), Ok(()));
    let before = shown(&spec);
    assert_eq!(spec.start_op(VolumeOperation::Destroy), Err(SvcError::Busy));
    assert_eq!(shown(&spec), before);
    spec.set_op_result(true);
    assert_eq!(spec.start_op(VolumeOperation::Destroy), Err(SvcError::Busy));
    spec.commit_op();
    assert_eq!(spec.num_replicas, 2);
    assert_eq!(spec.start_op(VolumeOperation::Destroy), Ok(()));
}

#[test]
fn result_and_commit_without_an_operation_change_nothing() {
    let mut spec = created("V1");
    let before = shown(&spec);
    spec.set_op_result(true);
    assert_eq!(shown(&spec), before);
    spec.commit_op();
    assert_eq!(shown(&spec), before);
    spec.clear_op();
    assert_eq!(shown(&spec), before);
    assert!(!spec.pending_op());
}

#[test]
fn the_result_is_recorded_beside_the_operation() {
    let mut spec = created("V1");
    assert_eq!(spec.start_op(VolumeOperation::SetReplica(2)), Ok(()));
    assert!(spec.pending_op());
    assert_eq!(spec.operation.as_ref().unwrap().result, None);
    spec.set_op_result(false);
    assert_eq!(spec.operation.as_ref().unwrap().result, Some(false));
    assert!(matches!(spec.operation.as_ref().unwrap().operation, VolumeOperation::SetReplica(2)));
    spec.set_op_result(true);
    assert_eq!(spec.operation.as_ref().unwrap().result, Some(true));
    assert_eq!(spec.num_replicas, 1);
}

#[test]
fn the_desired_replica_count_follows_a_pending_set_replica() {
    let mut spec = created("V1");
    assert_eq!(spec.desired_num_replicas(), 1);
    assert_eq!(spec.start_op(VolumeOperation::SetReplica(5)), Ok(()));
    assert_eq!(spec.desired_num_replicas(), 5);
    assert_eq!(spec.num_replicas, 1);
    spec.clear_op();
    assert_eq!(spec.start_op(VolumeOperation::Unshare), Ok(()));
    assert_eq!(spec.desired_num_replicas(), 1);
}

#[test]
fn the_allowed_nodes_are_those_the_topology_names() {
    let mut asked = request("V1", 1024, 1);
    assert!(VolumeSpec::from(&asked).allowed_nodes().is_empty());
    asked.topology = Topology {
        explicit: Some(ExplicitTopology {
            allowed_nodes: vec![NodeId::new("n1"), NodeId::new("n2")],
            preferred_nodes: vec![NodeId::new("n3")],
        }),
    };
    let spec = VolumeSpec::from(&asked);
    assert_eq!(spec.allowed_nodes(), vec![NodeId::new("n1"), NodeId::new("n2")]);
}

#[test]
fn destroy_twice_succeeds_twice_and_ends_in_one_record() {
    let mut record = created("V1");
    assert!(!record.deleted());
    assert_eq!(run(&mut record, VolumeOperation::Destroy, Ok(())), Ok(()));
    assert_eq!(record.status, SpecStatus::Deleted);
    assert!(record.deleted());
    let once = shown(&record);
    assert_eq!(run(&mut record, VolumeOperation::Destroy, Err(ExecutorError::NotFound)), Ok(()));
    assert_eq!(shown(&record), once);
    assert_eq!(run(&mut record, VolumeOperation::Destroy, Ok(())), Ok(()));
    assert_eq!(shown(&record), once);
}

#[test]
fn unpublish_twice_succeeds_twice_and_ends_in_one_record() {
    let mut record = created("V1");
    record.target = Some(VolumeTarget::new(NodeId::new("n1"), NexusId::new("x1")));
    record.protocol = Protocol::Nvmf;
    assert_eq!(run(&mut record, VolumeOperation::Unpublish, Ok(())), Ok(()));
    assert!(record.target.is_none());
    assert_eq!(record.protocol, Protocol::Off);
    let once = shown(&record);
    assert_eq!(run(&mut record, VolumeOperation::Unpublish, Err(ExecutorError::NotFound)), Ok(()));
    assert_eq!(shown(&record), once);
}

#[test]
fn a_destroyed_volume_is_removed_from_the_store_last() {
    let mut record = created("V1");
    let (task, _) = expect_next(submit(&mut record, VolumeOperation::Destroy));
    let (task, _) = expect_next(advance(&mut record, task, Event::Stored(true)));
    let (task, _) = expect_next(advance(&mut record, task, Event::Executed(Ok(()))));
    let (task, action) = expect_next(advance(&mut record, task, Event::Stored(true)));
    assert!(matches!(action, Action::Persist));
    assert_eq!(record.status, SpecStatus::Deleted);
    let (task, action) = expect_next(advance(&mut record, task, Event::Stored(true)));
    assert!(matches!(action, Action::Remove));
    assert_eq!(task.phase(), Phase::Removing);
    assert_eq!(record.sequencer.state, OperationSequenceState::Exclusive);
    assert_eq!(expect_done(advance(&mut record, task, Event::Stored(false))), Err(SvcError::StoreFailure));
    assert_eq!(record.sequencer.state, OperationSequenceState::Idle);
}

#[test]
fn an_absent_target_fails_what_does_not_tolerate_it() {
    let mut record = created("V1");
    let before = shown(&record);
    assert_eq!(
        run(&mut record, VolumeOperation::SetReplica(2), Err(ExecutorError::NotFound)),
        Err(SvcError::ExecutorFailure)
    );
    assert_eq!(shown(&record), before);
    assert_eq!(
        run(&mut record, VolumeOperation::Destroy, Err(ExecutorError::Failed)),
        Err(SvcError::ExecutorFailure)
    );
    assert_eq!(shown(&record), before);
}

#[test]
fn a_failed_write_of_the_start_clears_the_operation() {
    let mut record = created("V1");
    let before = shown(&record);
    let (task, _) = expect_next(submit(&mut record, VolumeOperation::SetReplica(2)));
    assert!(record.pending_op());
    assert_eq!(expect_done(advance(&mut record, task, Event::Stored(false))), Err(SvcError::StoreFailure));
    assert_eq!(shown(&record), before);
}

#[test]
fn a_failed_write_of_the_outcome_leaves_it_to_recovery() {
    let mut record = created("V1");
    let (task, _) = expect_next(submit(&mut record, VolumeOperation::SetReplica(2)));
    let (task, _) = expect_next(advance(&mut record, task, Event::Stored(true)));
    let (task, _) = expect_next(advance(&mut record, task, Event::Executed(Ok(()))));
    assert_eq!(expect_done(advance(&mut record, task, Event::Stored(false))), Err(SvcError::StoreFailure));
    assert_eq!(record.operation.as_ref().unwrap().result, Some(true));
    assert_eq!(record.sequencer.state, OperationSequenceState::Idle);
    assert_eq!(record.num_replicas, 1);
    match recover(&mut record) {
        Recovery::Resume(task, Action::Persist) => {
            assert_eq!(task.phase(), Phase::PersistingFinal(true));
            assert_eq!(expect_done(advance(&mut record, task, Event::Stored(true))), Ok(()));
        }
        other => panic!("recovery did not resume: {:?}", other),
    }
    assert_eq!(record.num_replicas, 2);
}

#[test]
fn an_event_out_of_turn_ends_the_operation() {
    let mut record = created("V1");
    let (task, _) = expect_next(submit(&mut record, VolumeOperation::SetReplica(2)));
    assert_eq!(
        expect_done(advance(&mut record, task, Event::Executed(Ok(())))),
        Err(SvcError::InvalidOperation)
    );
    assert_eq!(record.sequencer.state, OperationSequenceState::Idle);
    assert!(record.pending_op());
}

#[test]
fn the_status_decides_what_may_start() {
    assert!(validate(&SpecStatus::Creating, &VolumeOperation::Create));
    assert!(!validate(&SpecStatus::Created(VolumeStatus::Online), &VolumeOperation::Create));
    assert!(!validate(&SpecStatus::Deleted, &VolumeOperation::Create));
    assert!(validate(&SpecStatus::Deleted, &VolumeOperation::Destroy));
    assert!(validate(&SpecStatus::Creating, &VolumeOperation::Destroy));
    assert!(validate(&SpecStatus::Created(VolumeStatus::Degraded), &VolumeOperation::Unpublish));
    assert!(!validate(&SpecStatus::Deleting, &VolumeOperation::Unpublish));
    assert!(!validate(&SpecStatus::Creating, &VolumeOperation::SetReplica(2)));

    let mut record = created("V1");
    assert_eq!(run(&mut record, VolumeOperation::Destroy, Ok(())), Ok(()));
    let publish = VolumeOperation::Publish((NodeId::new("n1"), NexusId::new("x1"), None));
    let before = shown(&record);
    assert_eq!(expect_done(submit(&mut record, publish)), Err(SvcError::InvalidOperation));
    assert_eq!(shown(&record), before);
}

#[test]
fn requests_are_admitted_by_what_the_ledger_holds() {
    let asked = request("V1", 1024, 1);
    let spec = created("V1");
    assert_eq!(admit_create(None, &asked), Admission::Proceed);
    assert_eq!(admit_create(Some(&spec), &asked), Admission::Done);
    let other = request("V1", 2048, 1);
    assert_eq!(admit_create(Some(&spec), &other), Admission::Reject(SvcError::AlreadyExists));

    assert_eq!(admit_operation(None, &VolumeOperation::Destroy), Admission::Done);
    assert_eq!(admit_operation(None, &VolumeOperation::Unpublish), Admission::Done);
    assert_eq!(
        admit_operation(None, &VolumeOperation::SetReplica(2)),
        Admission::Reject(SvcError::NotFound)
    );
    assert_eq!(admit_operation(None, &VolumeOperation::Unshare), Admission::Reject(SvcError::NotFound));
    assert_eq!(admit_operation(Some(&spec), &VolumeOperation::Destroy), Admission::Proceed);
}

#[test]
fn recovery_with_a_known_success_ends_where_commit_ends() {
    let mut uninterrupted = created("V1");
    assert_eq!(run(&mut uninterrupted, VolumeOperation::SetReplica(4), Ok(())), Ok(()));

    let mut plain = created("V1");
    assert_eq!(plain.start_op(VolumeOperation::SetReplica(4)), Ok(()));
    plain.set_op_result(true);
    let mut crashed = plain.clone();
    plain.commit_op();

    match recover(&mut crashed) {
        Recovery::Resume(task, Action::Persist) => {
            assert_eq!(expect_done(advance(&mut crashed, task, Event::Stored(true))), Ok(()));
        }
        other => panic!("recovery did not resume: {:?}", other),
    }
    assert_eq!(shown(&crashed), shown(&plain));
    assert_eq!(shown(&crashed), shown(&uninterrupted));
    assert_eq!(crashed.num_replicas, 4);
}

#[test]
fn recovery_with_a_known_failure_clears_the_operation() {
    let before = shown(&created("V1"));
    let mut crashed = created("V1");
    assert_eq!(crashed.start_op(VolumeOperation::SetReplica(4)), Ok(()));
    crashed.set_op_result(false);
    match recover(&mut crashed) {
        Recovery::Resume(task, Action::Persist) => {
            assert_eq!(task.phase(), Phase::PersistingFinal(false));
            assert_eq!(
                expect_done(advance(&mut crashed, task, Event::Stored(true))),
                Err(SvcError::ExecutorFailure)
            );
        }
        other => panic!("recovery did not resume: {:?}", other),
    }
    assert_eq!(shown(&crashed), before);
}

#[test]
fn recovery_with_an_unknown_outcome_asks_the_data_plane_first() {
    let mut crashed = created("V1");
    assert_eq!(crashed.start_op(VolumeOperation::SetReplica(4)), Ok(()));
    let before = shown(&crashed);
    assert!(matches!(recover(&mut crashed), Recovery::Requery(VolumeOperation::SetReplica(4))));
    assert_eq!(shown(&crashed), before);

    let mut applied = crashed.clone();
    let (task, action) = expect_next(resolve(&mut applied, true));
    assert!(matches!(action, Action::Persist));
    assert_eq!(task.phase(), Phase::PersistingResult);
    let (task, _) = expect_next(advance(&mut applied, task, Event::Stored(true)));
    assert_eq!(expect_done(advance(&mut applied, task, Event::Stored(true))), Ok(()));
    assert_eq!(applied.num_replicas, 4);

    let (task, action) = expect_next(resolve(&mut crashed, false));
    assert!(matches!(action, Action::Execute(VolumeOperation::SetReplica(4))));
    assert_eq!(task.phase(), Phase::Executing);
    assert_eq!(expect_done(resolve(&mut crashed, false)), Err(SvcError::Busy));
}

#[test]
fn recovery_leaves_clean_and_held_records_alone() {
    let mut clean = created("V1");
    let before = shown(&clean);
    assert!(matches!(recover(&mut clean), Recovery::Clean));
    assert_eq!(shown(&clean), before);
    assert_eq!(expect_done(resolve(&mut clean, true)), Err(SvcError::InvalidOperation));

    let mut held = created("V1");
    assert_eq!(held.start_op(VolumeOperation::Unshare), Ok(()));
    held.set_op_result(true);
    let _guard = held.sequencer.acquire().unwrap();
    assert!(matches!(recover(&mut held), Recovery::Busy));
    assert_eq!(expect_done(resolve(&mut held, true)), Err(SvcError::InvalidOperation));
}

#[test]
fn the_records_that_need_recovery_are_those_with_an_operation() {
    let mut second = created("V2");
    assert_eq!(second.start_op(VolumeOperation::Unshare), Ok(()));
    let mut fourth = created("V4");
    assert_eq!(fourth.start_op(VolumeOperation::Destroy), Ok(()));
    fourth.set_op_result(true);
    let records = vec![created("V1"), second, created("V3"), fourth];
    assert_eq!(needs_recovery(&records), vec![1, 3]);
    assert_eq!(needs_recovery(&Vec::new()), Vec::<usize>::new());
}

#[test]
fn a_specification_equals_the_request_it_was_made_from() {
    let asked = request("V1", 1024, 1);
    let mut spec = VolumeSpec::from(&asked);
    assert!(spec == asked);
    spec.status = SpecStatus::Created(VolumeStatus::Online);
    assert!(spec == asked);
    assert_eq!(spec.start_op(VolumeOperation::Unshare), Ok(()));
    let _guard = spec.sequencer.acquire().unwrap();
    assert!(spec == asked);

    assert!(spec != request("V2", 1024, 1));
    assert!(spec != request("V1", 1025, 1));
    assert!(spec != request("V1", 1024, 2));
    assert!(spec == request("V1", 1024, 257));
    let mut healing = request("V1", 1024, 1);
    healing.policy = VolumeHealPolicy { self_heal: true };
    assert!(spec != healing);
    let mut placed = request("V1", 1024, 1);
    placed.topology = Topology {
        explicit: Some(ExplicitTopology { allowed_nodes: vec![NodeId::new("n1")], preferred_nodes: vec![] }),
    };
    assert!(spec != placed);
    assert!(VolumeSpec::from(&placed) == placed);

    let mut published = created("V1");
    published.target = Some(VolumeTarget::new(NodeId::new("n1"), NexusId::new("x1")));
    assert!(published != asked);
    let mut shared = created("V1");
    shared.protocol = Protocol::Nvmf;
    assert!(shared != asked);
    let mut used = created("V1");
    used.last_nexus_id = Some(NexusId::new("x1"));
    assert!(used != asked);
    let mut labelled = created("V1");
    labelled.labels.push(String::from("fast"));
    assert!(labelled != asked);
}

fn state(protocol: Protocol, status: VolumeStatus, node: Option<&str>) -> message_bus::VolumeState {
    message_bus::VolumeState {
        uuid: VolumeId::new("V1"),
        size: 1024,
        status,
        protocol,
        child: node.map(|node| Nexus {
            node: NodeId::new(node),
            uuid: NexusId::new("x1"),
            device_uri: String::from("nvmf://n1/x1"),
        }),
    }
}

#[test]
fn a_specification_is_satisfied_by_a_matching_state() {
    let mut spec = created("V1");
    assert!(spec == state(Protocol::Off, VolumeStatus::Unknown, None));
    assert!(spec != state(Protocol::Nvmf, VolumeStatus::Online, None));
    assert!(spec != state(Protocol::Off, VolumeStatus::Online, Some("n1")));

    spec.target = Some(VolumeTarget::new(NodeId::new("n1"), NexusId::new("x1")));
    spec.protocol = Protocol::Nvmf;
    assert!(spec == state(Protocol::Nvmf, VolumeStatus::Online, Some("n1")));
    assert!(spec != state(Protocol::Nvmf, VolumeStatus::Degraded, Some("n1")));
    assert!(spec != state(Protocol::Nvmf, VolumeStatus::Online, Some("n2")));
    assert!(spec != state(Protocol::Nvmf, VolumeStatus::Online, None));
    assert!(spec != state(Protocol::Iscsi, VolumeStatus::Online, Some("n1")));
}

#[test]
fn the_state_known_from_a_specification_alone() {
    let mut spec = created("V1");
    spec.protocol = Protocol::Iscsi;
    let known = message_bus::VolumeState::from(&spec);
    assert_eq!(known.uuid, VolumeId::new("V1"));
    assert_eq!(known.size, 1024);
    assert_eq!(known.status, VolumeStatus::Unknown);
    assert_eq!(known.protocol, Protocol::Iscsi);
    assert!(known.child.is_none());
    assert!(known.target_node().is_none());
    assert_eq!(state(Protocol::Off, VolumeStatus::Online, Some("n7")).target_node(), Some(&NodeId::new("n7")));
}

#[test]
fn keys_are_the_kind_a_slash_and_the_identifier() {
    let id = VolumeId::new("4f1f16a5-2f6c-4f5a-8f4e-9c1d2b3a4e5f");
    let key = VolumeSpecKey::from(&id);
    assert_eq!(key.key_type(), StorableObjectType::VolumeSpec);
    assert_eq!(key.key_uuid(), "4f1f16a5-2f6c-4f5a-8f4e-9c1d2b3a4e5f");
    assert_eq!(key.key(), "VolumeSpec/4f1f16a5-2f6c-4f5a-8f4e-9c1d2b3a4e5f");
    let key = VolumeStateKey::from(&id);
    assert_eq!(key.key_type(), StorableObjectType::VolumeState);
    assert_eq!(key.key(), "VolumeState/4f1f16a5-2f6c-4f5a-8f4e-9c1d2b3a4e5f");
    assert_eq!(created("V1").key().key(), "VolumeSpec/V1");
    assert_eq!(store_key(StorableObjectType::ReplicaSpec, "r1"), "ReplicaSpec/r1");
    assert_eq!(store_key(StorableObjectType::ReplicaState, ""), "ReplicaState/");
    assert_eq!(store_key(StorableObjectType::NexusSpec, "a/b"), "NexusSpec/a/b");
    assert_eq!(StorableObjectType::NexusState.tag(), "NexusState");
}

#[test]
fn keys_of_different_kinds_do_not_collide() {
    let kinds = [
        StorableObjectType::VolumeSpec,
        StorableObjectType::VolumeState,
        StorableObjectType::ReplicaSpec,
        StorableObjectType::ReplicaState,
        StorableObjectType::NexusSpec,
        StorableObjectType::NexusState,
    ];
    let ids = ["", "V1", "Spec", "State/V1", "/"];
    let mut seen: Vec<String> = Vec::new();
    for kind in kinds {
        for id in ids {
            let key = store_key(kind, id);
            assert!(!seen.contains(&key), "{} is the key of two objects", key);
            seen.push(key);
        }
    }
    assert_eq!(seen.len(), 30);
}

#[test]
fn the_store_holds_whole_records_by_kind_and_identifier() {
    let mut store: SpecStore<u64> = SpecStore::new();
    let v1 = String::from("V1");
    let v2 = String::from("V2");
    assert_eq!(store.len(), 0);
    assert_eq!(store.get(StorableObjectType::VolumeSpec, &v1), None);
    assert!(!store.delete(StorableObjectType::VolumeSpec, &v1));

    store.put(StorableObjectType::VolumeSpec, v1.clone(), 10);
    store.put(StorableObjectType::VolumeState, v1.clone(), 20);
    store.put(StorableObjectType::VolumeSpec, v2.clone(), 30);
    assert_eq!(store.len(), 3);
    assert_eq!(store.get(StorableObjectType::VolumeSpec, &v1), Some(&10));
    assert_eq!(store.get(StorableObjectType::VolumeState, &v1), Some(&20));
    assert_eq!(store.get(StorableObjectType::VolumeState, &v2), None);
    assert_eq!(store.list(StorableObjectType::VolumeSpec), vec![&10, &30]);
    assert_eq!(store.list(StorableObjectType::VolumeState), vec![&20]);
    assert!(store.list(StorableObjectType::NexusSpec).is_empty());

    store.put(StorableObjectType::VolumeSpec, v1.clone(), 11);
    assert_eq!(store.len(), 3);
    assert_eq!(store.get(StorableObjectType::VolumeSpec, &v1), Some(&11));
    assert_eq!(store.list(StorableObjectType::VolumeSpec), vec![&11, &30]);

    assert!(store.delete(StorableObjectType::VolumeSpec, &v1));
    assert!(!store.delete(StorableObjectType::VolumeSpec, &v1));
    assert_eq!(store.len(), 2);
    assert_eq!(store.get(StorableObjectType::VolumeSpec, &v1), None);
    assert_eq!(store.get(StorableObjectType::VolumeState, &v1), Some(&20));
    assert_eq!(store.list(StorableObjectType::VolumeSpec), vec![&30]);
}

#[test]
fn a_specification_is_shown_with_its_uuid_as_a_number() {
    let mut spec = created("a1a2a3a4-b1b2-c1c2-d1d2-d3d4d5d6d7d8");
    spec.labels.push(String::from("fast"));
    spec.num_replicas = 3;
    spec.protocol = Protocol::Nvmf;
    spec.target = Some(VolumeTarget::new(NodeId::new("n1"), NexusId::new("x1")));
    assert_eq!(spec.start_op(VolumeOperation::SetReplica(4)), Ok(()));
    spec.set_op_result(true);
    let shown = models::VolumeSpec::from(spec).unwrap();
    assert_eq!(shown.uuid, 0xa1a2a3a4b1b2c1c2d1d2d3d4d5d6d7d8);
    assert_eq!(shown.labels, vec![String::from("fast")]);
    assert_eq!(shown.num_replicas, 3);
    assert_eq!(shown.protocol, Protocol::Nvmf);
    assert_eq!(shown.size, 1024);
    assert_eq!(shown.status, models::SpecStatus::Created);
    assert_eq!(shown.target_node, Some(String::from("n1")));
    assert_eq!(
        shown.operation,
        Some(models::VolumeSpecOperation { operation: Operation::SetReplica, result: Some(true) })
    );
}

#[test]
fn a_specification_without_a_uuid_cannot_be_shown() {
    assert!(models::VolumeSpec::from(created("V1")).is_none());
    assert!(models::VolumeSpec::from(created("")).is_none());
    let shown = models::VolumeSpec::new_all(created("V1"), 7);
    assert_eq!(shown.uuid, 7);
    assert_eq!(shown.operation, None);
    assert_eq!(shown.target_node, None);
}

#[test]
fn operations_and_stages_are_shown_by_their_kind() {
    assert_eq!(Operation::from(VolumeOperation::Create), Operation::Create);
    assert_eq!(Operation::from(VolumeOperation::Destroy), Operation::Destroy);
    assert_eq!(Operation::from(VolumeOperation::Share(VolumeShareProtocol::Nvmf)), Operation::Share);
    assert_eq!(Operation::from(VolumeOperation::Unshare), Operation::Unshare);
    assert_eq!(Operation::from(VolumeOperation::SetReplica(2)), Operation::SetReplica);
    assert_eq!(
        Operation::from(VolumeOperation::Publish((NodeId::new("n"), NexusId::new("x"), None))),
        Operation::Publish
    );
    assert_eq!(Operation::from(VolumeOperation::Unpublish), Operation::Unpublish);
    assert_eq!(
        Operation::from(VolumeOperation::RemoveUnusedReplica(ReplicaId::new("r"))),
        Operation::RemoveUnusedReplica
    );
    assert_eq!(models::SpecStatus::from(SpecStatus::<VolumeStatus>::Creating), models::SpecStatus::Creating);
    assert_eq!(
        models::SpecStatus::from(SpecStatus::Created(VolumeStatus::Faulted)),
        models::SpecStatus::Created
    );
    assert_eq!(models::SpecStatus::from(SpecStatus::<VolumeStatus>::Deleting), models::SpecStatus::Deleting);
    assert_eq!(models::SpecStatus::from(SpecStatus::<VolumeStatus>::Deleted), models::SpecStatus::Deleted);
    assert_eq!(Protocol::from(VolumeShareProtocol::Nvmf), Protocol::Nvmf);
    assert_eq!(Protocol::from(VolumeShareProtocol::Iscsi), Protocol::Iscsi);
    assert_eq!(Protocol::Off.as_str(), "none");
    assert_eq!(Protocol::Nbd.as_str(), "nbd");
    assert_eq!(VolumeShareProtocol::Iscsi.as_str(), "iscsi");
}

#[test]
fn a_task_of_another_volume_is_turned_down() {
    let mut first = created("V1");
    let mut second = created("V2");
    let (task, _) = expect_next(submit(&mut first, VolumeOperation::SetReplica(2)));
    let (other, _) = expect_next(submit(&mut second, VolumeOperation::SetReplica(3)));
    let before = shown(&second);
    assert_eq!(
        expect_done(advance(&mut second, task, Event::Stored(true))),
        Err(SvcError::InvalidOperation)
    );
    assert_eq!(shown(&second), before);
    let (other, action) = expect_next(advance(&mut second, other, Event::Stored(true)));
    assert!(matches!(action, Action::Execute(VolumeOperation::SetReplica(3))));
    assert_eq!(other.uuid(), "V2");
}

#[test]
fn the_store_finds_objects_by_their_keys() {
    let mut store: SpecStore<VolumeSpec> = SpecStore::new();
    let id = VolumeId::new("V1");
    assert!(store.get_obj(&VolumeSpecKey::from(&id)).is_none());
    store.put_obj(created("V1"));
    store.put_obj(created("V2"));
    let mut changed = created("V1");
    changed.num_replicas = 2;
    store.put_obj(changed);
    assert_eq!(store.len(), 2);
    assert_eq!(store.get_obj(&VolumeSpecKey::from(&id)).unwrap().num_replicas, 2);
    assert_eq!(store.get(StorableObjectType::VolumeSpec, &String::from("V2")).unwrap().num_replicas, 1);
    assert!(store.get_obj(&VolumeStateKey::from(&id)).is_none());
    assert!(!store.delete_obj(&VolumeStateKey::from(&id)));
    assert!(store.delete_obj(&VolumeSpecKey::from(&id)));
    assert!(store.get_obj(&VolumeSpecKey::from(&id)).is_none());
    assert_eq!(store.len(), 1);
}

#[test]
fn the_default_specification_asks_for_nothing() {
    let spec = VolumeSpec::default();
    assert_eq!(spec.uuid, VolumeId::new(""));
    assert_eq!(spec.size, 0);
    assert!(spec.labels.is_empty());
    assert_eq!(spec.num_replicas, 0);
    assert_eq!(spec.protocol, Protocol::Off);
    assert_eq!(spec.status, SpecStatus::Creating);
    assert!(spec.target.is_none() && spec.last_nexus_id.is_none() && spec.operation.is_none());
    assert_eq!(spec.policy, VolumeHealPolicy { self_heal: false });
    assert!(spec.topology.explicit.is_none());
    assert_eq!(spec.sequencer.uuid, "");
    assert_eq!(spec.sequencer.state, OperationSequenceState::Idle);
    let target = VolumeTarget::default();
    assert_eq!(target.node().as_str(), "");
    assert_eq!(target.nexus().as_str(), "");
}
