//! Drives one operation on one volume from request to final record. The
//! reconciler decides; its caller does the outside work: it writes the
//! record to the store and calls the data plane when told to, and hands
//! back what came of it.

use vstd::prelude::*;
use crate::message_bus::CreateVolume;
use crate::store::sequencer::{
    OperationGuard, OperationSequence, OperationSequenceState, SvcError,
};
use crate::store::transaction::{
    cleared, committed, started_with, with_result, SpecStatus, SpecTransaction,
};
use crate::store::volume::{
    fold_volume, VolumeOperation, VolumeOperationState, VolumeSpec, VolumeSpecStatus,
};
use crate::text::same_text;

verus! {

/// Why the data plane did not perform an operation.
#[derive(Debug, Clone, Copy, PartialEq, Eq, Structural)]
pub enum ExecutorError {
    /// What the operation was to act on is not there.
    NotFound,
    /// The data plane failed or rejected the operation.
    Failed,
}

/// What the outside world hands back to the reconciler.
#[derive(Debug, Clone, Copy, PartialEq, Eq)]
pub enum Event {
    /// The store answered a write or a removal: whether it took effect.
    Stored(bool),
    /// The data plane answered.
    Executed(Result<(), ExecutorError>),
}

/// What the reconciler asks of its caller next.
#[derive(Debug)]
pub enum Action {
    /// Write the whole record to the store, then report `Stored`.
    Persist,
    /// Have the data plane perform the operation, then report `Executed`.
    Execute(VolumeOperation),
    /// Remove the record from the store, then report `Stored`.
    Remove,
}

/// Where an operation stands between two steps.
#[derive(Debug, Clone, Copy, PartialEq, Eq, Structural)]
pub enum Phase {
    /// The record with the operation marked as started is being written.
    PersistingStart,
    /// The data plane is at work.
    Executing,
    /// The record with the outcome is being written.
    PersistingResult,
    /// The final record is being written; the flag says whether the
    /// operation succeeded.
    PersistingFinal(bool),
    /// The record of a destroyed volume is being removed from the store.
    Removing,
}

/// An operation under way. It holds the guard of the volume's sequencer
/// from `submit` or `recover` until the step that ends it.
#[derive(Debug)]
pub struct InFlight {
    phase: Phase,
    guard: OperationGuard,
}

impl InFlight {
    /// Where the operation stands.
    pub closed spec fn spec_phase(&self) -> Phase {
        self.phase
    }

    /// Identifier of the volume the operation holds.
    pub closed spec fn resource(&self) -> Seq<char> {
        self.guard.resource()
    }

    /// Where the operation stands.
    pub fn phase(&self) -> (phase: Phase)
        ensures
            phase == self.spec_phase(),
    {
        self.phase
    }

    /// Identifier of the volume the operation holds.
    pub fn uuid(&self) -> (id: &str)
        ensures
            id@ == self.resource(),
    {
        self.guard.uuid()
    }
}

/// What a step of the reconciler comes to.
#[derive(Debug)]
pub enum Step {
    /// The operation goes on: the caller performs the action and calls
    /// `advance` with the task and what came of the action.
    Next(InFlight, Action),
    /// The operation has ended, and the sequencer is free again.
    Done(Result<(), SvcError>),
}

/// A step without the guard it carries.
pub enum StepModel {
    Next(Phase, Action),
    Done(Result<(), SvcError>),
}

impl Step {
    /// This step without the guard it carries.
    pub open spec fn model(self) -> StepModel {
        match self {
            Step::Next(task, action) => StepModel::Next(task.spec_phase(), action),
            Step::Done(result) => StepModel::Done(result),
        }
    }
}

/// A record after a step, and what the step comes to.
pub struct Outcome {
    pub record: VolumeSpec,
    pub step: StepModel,
}

/// Whether `operation` may start on a volume in `status`: a volume is
/// created only while it is `Creating`, can always be destroyed, and
/// changes otherwise only once it is `Created`.
pub open spec fn valid_for(status: VolumeSpecStatus, operation: VolumeOperation) -> bool {
    match operation {
        VolumeOperation::Create => status is Creating,
        VolumeOperation::Destroy => true,
        _ => status is Created,
    }
}

/// Whether `operation` is one that may meet a target that is already gone:
/// destroying and unpublishing.
pub open spec fn tolerates_absence(operation: VolumeOperation) -> bool {
    operation is Destroy || operation is Unpublish
}

/// Whether `operation` counts as done after the data plane answered
/// `outcome`: when it succeeded, or when it found nothing to act on and the
/// operation tolerates that.
pub open spec fn succeeded(
    operation: VolumeOperation,
    outcome: Result<(), ExecutorError>,
) -> bool {
    outcome is Ok || (outcome == Err::<(), ExecutorError>(ExecutorError::NotFound)
        && tolerates_absence(operation))
}

/// The record with its sequencer held.
pub open spec fn held(record: VolumeSpec) -> VolumeSpec {
    VolumeSpec {
        sequencer: OperationSequence {
            state: OperationSequenceState::Exclusive,
            ..record.sequencer
        },
        ..record
    }
}

/// The record with its sequencer free.
pub open spec fn released(record: VolumeSpec) -> VolumeSpec {
    VolumeSpec {
        sequencer: OperationSequence { state: OperationSequenceState::Idle, ..record.sequencer },
        ..record
    }
}

/// The end of an operation: the sequencer is freed and `result` reported.
pub open spec fn ended(record: VolumeSpec, result: Result<(), SvcError>) -> Outcome {
    Outcome { record: released(record), step: StepModel::Done(result) }
}

/// What `submit` makes of a request. `Busy`, with the record untouched,
/// while another operation holds the volume or an earlier one is still
/// unresolved; `InvalidOperation`, with the record untouched, where the
/// volume's status does not allow the operation; else the operation is
/// marked as started, the sequencer is held, and the record is to be
/// persisted.
pub open spec fn submitted(record: VolumeSpec, operation: VolumeOperation) -> Outcome {
    if record.sequencer.state == OperationSequenceState::Exclusive || record.operation is Some {
        Outcome { record, step: StepModel::Done(Err(SvcError::Busy)) }
    } else if !valid_for(record.status, operation) {
        Outcome { record, step: StepModel::Done(Err(SvcError::InvalidOperation)) }
    } else {
        Outcome {
            record: held(started_with(record, operation)),
            step: StepModel::Next(Phase::PersistingStart, Action::Persist),
        }
    }
}

/// What `advance` makes of an event, by the phase the operation is in.
///
/// - Start persisted: the data plane is to perform the operation. Start
///   not persisted: the operation never started; it is cleared and the
///   request fails with `StoreFailure`.
/// - Executed: the outcome is recorded, and the record is to be persisted.
/// - Outcome persisted: a success is committed, a failure cleared, and the
///   final record is to be persisted. Outcome not persisted: the request
///   fails with `StoreFailure`; the record keeps the outcome for recovery.
/// - Final record persisted: the record of a volume that was destroyed is
///   to be removed from the store; any other operation ends, with success
///   or with `ExecutorFailure`. Not persisted: `StoreFailure`.
/// - Removed or not: the operation ends, with success or `StoreFailure`.
/// - An event that the phase does not wait for, or a record without the
///   operation the phase works on, ends the operation with
///   `InvalidOperation` and leaves the record to recovery.
pub open spec fn advanced(record: VolumeSpec, phase: Phase, event: Event) -> Outcome {
    match (phase, event, record.operation) {
        (Phase::PersistingStart, Event::Stored(true), Some(state)) => Outcome {
            record,
            step: StepModel::Next(Phase::Executing, Action::Execute(state.operation)),
        },
        (Phase::PersistingStart, Event::Stored(false), _) => ended(
            cleared(record),
            Err(SvcError::StoreFailure),
        ),
        (Phase::Executing, Event::Executed(outcome), Some(state)) => Outcome {
            record: with_result(record, succeeded(state.operation, outcome)),
            step: StepModel::Next(Phase::PersistingResult, Action::Persist),
        },
        (
            Phase::PersistingResult,
            Event::Stored(true),
            Some(VolumeOperationState { result: Some(true), .. }),
        ) => Outcome {
            record: committed(record),
            step: StepModel::Next(Phase::PersistingFinal(true), Action::Persist),
        },
        (
            Phase::PersistingResult,
            Event::Stored(true),
            Some(VolumeOperationState { result: Some(false), .. }),
        ) => Outcome {
            record: cleared(record),
            step: StepModel::Next(Phase::PersistingFinal(false), Action::Persist),
        },
        (Phase::PersistingResult, Event::Stored(false), _) => ended(
            record,
            Err(SvcError::StoreFailure),
        ),
        (Phase::PersistingFinal(true), Event::Stored(true), _) => if record.status is Deleted {
            Outcome { record, step: StepModel::Next(Phase::Removing, Action::Remove) }
        } else {
            ended(record, Ok(()))
        },
        (Phase::PersistingFinal(false), Event::Stored(true), _) => ended(
            record,
            Err(SvcError::ExecutorFailure),
        ),
        (Phase::PersistingFinal(_), Event::Stored(false), _) => ended(
            record,
            Err(SvcError::StoreFailure),
        ),
        (Phase::Removing, Event::Stored(true), _) => ended(record, Ok(())),
        (Phase::Removing, Event::Stored(false), _) => ended(record, Err(SvcError::StoreFailure)),
        _ => ended(record, Err(SvcError::InvalidOperation)),
    }
}

/// Whether `operation` may start on a volume in `status`.
pub fn validate(status: &VolumeSpecStatus, operation: &VolumeOperation) -> (valid: bool)
    ensures
        valid == valid_for(*status, *operation),
{
    match operation {
        VolumeOperation::Create => match status {
            SpecStatus::Creating => true,
            _ => false,
        },
        VolumeOperation::Destroy => true,
        _ => match status {
            SpecStatus::Created(_) => true,
            _ => false,
        },
    }
}

/// Whether `operation` counts as done after the data plane answered
/// `outcome`.
pub fn operation_succeeded(
    operation: &VolumeOperation,
    outcome: Result<(), ExecutorError>,
) -> (done: bool)
    ensures
        done == succeeded(*operation, outcome),
{
    match outcome {
        Ok(_) => true,
        Err(ExecutorError::NotFound) => match operation {
            VolumeOperation::Destroy => true,
            VolumeOperation::Unpublish => true,
            _ => false,
        },
        Err(ExecutorError::Failed) => false,
    }
}

/// Takes a request for `operation` on the volume of `record`: acquires the
/// volume's sequencer, checks the request against the record, and marks the
/// operation as started.
pub fn submit(record: &mut VolumeSpec, operation: VolumeOperation) -> (step: Step)
    ensures
        *final(record) == submitted(*old(record), operation).record,
        step.model() == submitted(*old(record), operation).step,
        step matches Step::Next(task, _) ==> task.resource() == final(record).sequencer.uuid@,
{
    let guard = match record.sequencer.acquire() {
        Ok(guard) => guard,
        Err(error) => {
            return Step::Done(Err(error));
        },
    };
    if record.pending_op() {
        record.sequencer.release(guard);
        return Step::Done(Err(SvcError::Busy));
    }
    if !validate(&record.status, &operation) {
        record.sequencer.release(guard);
        return Step::Done(Err(SvcError::InvalidOperation));
    }
    let _ = record.start_op(operation);
    Step::Next(InFlight { phase: Phase::PersistingStart, guard }, Action::Persist)
}

/// Ends the operation of `task`: frees the sequencer and reports `result`.
fn end(record: &mut VolumeSpec, task: InFlight, result: Result<(), SvcError>) -> (step: Step)
    requires
        task.resource() == old(record).sequencer.uuid@,
    ensures
        *final(record) == released(*old(record)),
        step == Step::Done(result),
{
    record.sequencer.release(task.guard);
    Step::Done(result)
}

/// Takes what came of the action that the last step asked for, and decides
/// the next step of the operation of `task` on `record`. A task that was
/// handed out for another volume than that of `record` is turned down with
/// `InvalidOperation`, and the record stays as it is.
pub fn advance(record: &mut VolumeSpec, task: InFlight, event: Event) -> (step: Step)
    ensures
        task.resource() == old(record).sequencer.uuid@ ==> *final(record) == advanced(
            *old(record),
            task.spec_phase(),
            event,
        ).record && step.model() == advanced(*old(record), task.spec_phase(), event).step,
        task.resource() != old(record).sequencer.uuid@ ==> *final(record) == *old(record)
            && step.model() == StepModel::Done(Err(SvcError::InvalidOperation)),
        step matches Step::Next(next, _) ==> next.resource() == final(record).sequencer.uuid@,
{
    if !same_text(task.guard.uuid(), record.sequencer.uuid.as_str()) {
        return Step::Done(Err(SvcError::InvalidOperation));
    }
    match (task.phase, event) {
        (Phase::PersistingStart, Event::Stored(true)) => match &record.operation {
            Some(state) => {
                let operation = state.operation.clone();
                Step::Next(
                    InFlight { phase: Phase::Executing, guard: task.guard },
                    Action::Execute(operation),
                )
            },
            None => end(record, task, Err(SvcError::InvalidOperation)),
        },
        (Phase::PersistingStart, Event::Stored(false)) => {
            record.clear_op();
            end(record, task, Err(SvcError::StoreFailure))
        },
        (Phase::Executing, Event::Executed(outcome)) => match &record.operation {
            Some(state) => {
                let done = operation_succeeded(&state.operation, outcome);
                record.set_op_result(done);
                Step::Next(
                    InFlight { phase: Phase::PersistingResult, guard: task.guard },
                    Action::Persist,
                )
            },
            None => end(record, task, Err(SvcError::InvalidOperation)),
        },
        (Phase::PersistingResult, Event::Stored(true)) => {
            let result = match &record.operation {
                Some(state) => state.result,
                None => None,
            };
            match result {
                Some(true) => {
                    record.commit_op();
                    Step::Next(
                        InFlight { phase: Phase::PersistingFinal(true), guard: task.guard },
                        Action::Persist,
                    )
                },
                Some(false) => {
                    record.clear_op();
                    Step::Next(
                        InFlight { phase: Phase::PersistingFinal(false), guard: task.guard },
                        Action::Persist,
                    )
                },
                None => end(record, task, Err(SvcError::InvalidOperation)),
            }
        },
        (Phase::PersistingResult, Event::Stored(false)) => end(
            record,
            task,
            Err(SvcError::StoreFailure),
        ),
        (Phase::PersistingFinal(true), Event::Stored(true)) => {
            let deleted = match record.status {
                SpecStatus::Deleted => true,
                _ => false,
            };
            if deleted {
                Step::Next(InFlight { phase: Phase::Removing, guard: task.guard }, Action::Remove)
            } else {
                end(record, task, Ok(()))
            }
        },
        (Phase::PersistingFinal(false), Event::Stored(true)) => end(
            record,
            task,
            Err(SvcError::ExecutorFailure),
        ),
        (Phase::PersistingFinal(_), Event::Stored(false)) => end(
            record,
            task,
            Err(SvcError::StoreFailure),
        ),
        (Phase::Removing, Event::Stored(true)) => end(record, task, Ok(())),
        (Phase::Removing, Event::Stored(false)) => end(record, task, Err(SvcError::StoreFailure)),
        _ => end(record, task, Err(SvcError::InvalidOperation)),
    }
}

/// What recovery makes of a record found in the store at startup.
#[derive(Debug)]
pub enum Recovery {
    /// Nothing was in flight: the record is as it should be.
    Clean,
    /// Another task holds the volume: recovery is not due.
    Busy,
    /// The operation had started and its outcome is not known. The data
    /// plane must be asked what the volume is like before `resolve` decides
    /// whether the operation is performed again.
    Requery(VolumeOperation),
    /// The outcome was known and is folded into the record now: the caller
    /// performs the action and goes on with `advance`.
    Resume(InFlight, Action),
}

/// A recovery without the guard it carries.
pub enum RecoveryModel {
    Clean,
    Busy,
    Requery(VolumeOperation),
    Resume(Phase, Action),
}

impl Recovery {
    /// This recovery without the guard it carries.
    pub open spec fn model(self) -> RecoveryModel {
        match self {
            Recovery::Clean => RecoveryModel::Clean,
            Recovery::Busy => RecoveryModel::Busy,
            Recovery::Requery(operation) => RecoveryModel::Requery(operation),
            Recovery::Resume(task, action) => RecoveryModel::Resume(task.spec_phase(), action),
        }
    }
}

/// What `recover` makes of a record: with a known outcome the fold step
/// that never ran is run now, a success committed and a failure cleared,
/// the sequencer is held and the final record is to be persisted; with an
/// unknown outcome the record stays as it is and the data plane is to be
/// asked.
pub open spec fn recovered(record: VolumeSpec) -> (VolumeSpec, RecoveryModel) {
    match record.operation {
        None => (record, RecoveryModel::Clean),
        Some(state) => if record.sequencer.state == OperationSequenceState::Exclusive {
            (record, RecoveryModel::Busy)
        } else {
            match state.result {
                Some(true) => (
                    held(committed(record)),
                    RecoveryModel::Resume(Phase::PersistingFinal(true), Action::Persist),
                ),
                Some(false) => (
                    held(cleared(record)),
                    RecoveryModel::Resume(Phase::PersistingFinal(false), Action::Persist),
                ),
                None => (record, RecoveryModel::Requery(state.operation)),
            }
        },
    }
}

/// Looks at a record that was loaded at startup and resumes what a crash
/// interrupted.
pub fn recover(record: &mut VolumeSpec) -> (recovery: Recovery)
    ensures
        *final(record) == recovered(*old(record)).0,
        recovery.model() == recovered(*old(record)).1,
        recovery matches Recovery::Resume(task, _) ==> task.resource() == final(record).sequencer.uuid@,
{
    let (operation, result) = match &record.operation {
        None => {
            return Recovery::Clean;
        },
        Some(state) => (state.operation.clone(), state.result),
    };
    if record.sequencer.busy() {
        return Recovery::Busy;
    }
    match result {
        None => Recovery::Requery(operation),
        Some(success) => {
            let guard = match record.sequencer.acquire() {
                Ok(guard) => guard,
                Err(_) => {
                    return Recovery::Busy;
                },
            };
            if success {
                record.commit_op();
            } else {
                record.clear_op();
            }
            Recovery::Resume(InFlight { phase: Phase::PersistingFinal(success), guard }, Action::Persist)
        },
    }
}

/// What `resolve` makes of a record whose operation had started with no
/// outcome known, once the data plane has said whether the operation's
/// effect is there: if it is, the success is recorded and the record is to
/// be persisted; if it is not, the operation is to be performed again.
/// `Busy` while another task holds the volume, `InvalidOperation` where
/// the record has no operation of unknown outcome.
pub open spec fn resolved(record: VolumeSpec, applied: bool) -> Outcome {
    match record.operation {
        Some(VolumeOperationState { operation, result: None }) => if record.sequencer.state
            == OperationSequenceState::Exclusive {
            Outcome { record, step: StepModel::Done(Err(SvcError::Busy)) }
        } else if applied {
            Outcome {
                record: held(with_result(record, true)),
                step: StepModel::Next(Phase::PersistingResult, Action::Persist),
            }
        } else {
            Outcome {
                record: held(record),
                step: StepModel::Next(Phase::Executing, Action::Execute(operation)),
            }
        },
        _ => Outcome { record, step: StepModel::Done(Err(SvcError::InvalidOperation)) },
    }
}

/// Decides, after the data plane was asked, whether the operation that a
/// crash left without an outcome is performed again (`applied` false) or
/// counts as performed (`applied` true).
pub fn resolve(record: &mut VolumeSpec, applied: bool) -> (step: Step)
    ensures
        *final(record) == resolved(*old(record), applied).record,
        step.model() == resolved(*old(record), applied).step,
        step matches Step::Next(task, _) ==> task.resource() == final(record).sequencer.uuid@,
{
    let operation = match &record.operation {
        Some(state) => match state.result {
            None => state.operation.clone(),
            Some(_) => {
                return Step::Done(Err(SvcError::InvalidOperation));
            },
        },
        None => {
            return Step::Done(Err(SvcError::InvalidOperation));
        },
    };
    let guard = match record.sequencer.acquire() {
        Ok(guard) => guard,
        Err(error) => {
            return Step::Done(Err(error));
        },
    };
    if applied {
        record.set_op_result(true);
        Step::Next(InFlight { phase: Phase::PersistingResult, guard }, Action::Persist)
    } else {
        Step::Next(InFlight { phase: Phase::Executing, guard }, Action::Execute(operation))
    }
}

/// The records among `records` that a crash left with an operation in
/// flight, by their positions, in order.
pub fn needs_recovery(records: &Vec<VolumeSpec>) -> (pending: Vec<usize>)
    ensures
        forall|k: int| 0 <= k < pending.len() ==> 0 <= #[trigger] pending[k] < records.len()
            && records[pending[k] as int].operation is Some,
        forall|j: int, k: int| 0 <= j < k < pending.len() ==> pending[j] < pending[k],
        forall|i: int|
            0 <= i < records.len() && (#[trigger] records[i]).operation is Some
                ==> pending@.contains(i as usize),
{
    let mut pending: Vec<usize> = Vec::new();
    let mut i: usize = 0;
    while i < records.len()
        invariant
            i <= records.len(),
            forall|k: int| 0 <= k < pending.len() ==> 0 <= #[trigger] pending[k] < i
                && records[pending[k] as int].operation is Some,
            forall|j: int, k: int| 0 <= j < k < pending.len() ==> pending[j] < pending[k],
            forall|n: int|
                0 <= n < i && (#[trigger] records[n]).operation is Some ==> pending@.contains(
                    n as usize,
                ),
        decreases records.len() - i,
    {
        if records[i].operation.is_some() {
            let ghost before = pending@;
            pending.push(i);
            proof {
                assert(pending@[pending.len() - 1] == i);
                assert forall|n: int|
                    0 <= n < i + 1 && (#[trigger] records[n]).operation is Some implies pending@.contains(
                    n as usize,
                ) by {
                    if n < i {
                        assert(before.contains(n as usize));
                        let k = choose|k: int| 0 <= k < before.len() && before[k] == n as usize;
                        assert(pending@[k] == n as usize);
                    }
                }
            }
        }
        i += 1;
    }
    pending
}

/// What the reconciler does with a request before any operation starts.
#[derive(Debug, Clone, Copy, PartialEq, Eq, Structural)]
pub enum Admission {
    /// The operation is to be submitted.
    Proceed,
    /// There is nothing to do: the request has succeeded already.
    Done,
    /// The request is turned down.
    Reject(SvcError),
}

/// What becomes of a request to create a volume, given the record that the
/// ledger holds for it, if any: an equivalent record means that the volume
/// was asked for before, another record that the identifier is taken.
pub open spec fn create_admission(existing: Option<VolumeSpec>, request: CreateVolume) -> Admission {
    match existing {
        None => Admission::Proceed,
        Some(spec) => if crate::store::volume::equivalent_to_request(spec, request) {
            Admission::Done
        } else {
            Admission::Reject(SvcError::AlreadyExists)
        },
    }
}

/// What becomes of a request for `operation` on a volume, given the record
/// that the ledger holds for it, if any: destroying or unpublishing a
/// volume that is not there has succeeded already, and nothing else can be
/// done to it.
pub open spec fn operation_admission(
    existing: Option<VolumeSpec>,
    operation: VolumeOperation,
) -> Admission {
    match existing {
        Some(_) => Admission::Proceed,
        None => if tolerates_absence(operation) {
            Admission::Done
        } else {
            Admission::Reject(SvcError::NotFound)
        },
    }
}

/// Decides on a request to create a volume.
pub fn admit_create(existing: Option<&VolumeSpec>, request: &CreateVolume) -> (admission: Admission)
    ensures
        admission == create_admission(
            match existing {
                Some(spec) => Some(*spec),
                None => None,
            },
            *request,
        ),
{
    match existing {
        None => Admission::Proceed,
        Some(spec) => if *spec == *request {
            Admission::Done
        } else {
            Admission::Reject(SvcError::AlreadyExists)
        },
    }
}

/// Decides on a request for `operation` on a volume that exists or not.
pub fn admit_operation(
    existing: Option<&VolumeSpec>,
    operation: &VolumeOperation,
) -> (admission: Admission)
    ensures
        admission == operation_admission(
            match existing {
                Some(spec) => Some(*spec),
                None => None,
            },
            *operation,
        ),
{
    match existing {
        Some(_) => Admission::Proceed,
        None => match operation {
            VolumeOperation::Destroy => Admission::Done,
            VolumeOperation::Unpublish => Admission::Done,
            _ => Admission::Reject(SvcError::NotFound),
        },
    }
}

/// Whether a request for `operation` on `record` is taken up: nothing holds
/// the volume, nothing is in flight, and the status allows the operation.
pub open spec fn admissible(record: VolumeSpec, operation: VolumeOperation) -> bool {
    &&& record.sequencer.state == OperationSequenceState::Idle
    &&& record.operation is None
    &&& valid_for(record.status, operation)
}

/// The end of the steps that a request goes through when every write to the
/// store takes effect and the data plane answers `outcome`: `submit`, then
/// `advance` on each event in turn.
pub open spec fn uninterrupted(
    record: VolumeSpec,
    operation: VolumeOperation,
    outcome: Result<(), ExecutorError>,
) -> Outcome {
    let start = submitted(record, operation);
    let execute = advanced(start.record, Phase::PersistingStart, Event::Stored(true));
    let note = advanced(execute.record, Phase::Executing, Event::Executed(outcome));
    let fold = advanced(note.record, Phase::PersistingResult, Event::Stored(true));
    match fold.step {
        StepModel::Next(phase, _) => {
            let last = advanced(fold.record, phase, Event::Stored(true));
            match last.step {
                StepModel::Next(phase, _) => advanced(last.record, phase, Event::Stored(true)),
                StepModel::Done(_) => last,
            }
        },
        StepModel::Done(_) => fold,
    }
}

/// An uninterrupted request that is taken up ends in one of two ways. Where
/// the operation counts as done, the final record is the fold table applied
/// to the record as it was, and the request succeeds. Where it does not,
/// the final record is the record as it was, field for field, and the
/// request fails with `ExecutorFailure`. Either way nothing is in flight
/// and the sequencer is free.
pub proof fn lemma_uninterrupted_run(
    record: VolumeSpec,
    operation: VolumeOperation,
    outcome: Result<(), ExecutorError>,
)
    requires
        admissible(record, operation),
    ensures
        succeeded(operation, outcome) ==> uninterrupted(record, operation, outcome) == (Outcome {
            record: fold_volume(record, operation),
            step: StepModel::Done(Ok(())),
        }),
        !succeeded(operation, outcome) ==> uninterrupted(record, operation, outcome) == (Outcome {
            record,
            step: StepModel::Done(Err(SvcError::ExecutorFailure)),
        }),
        fold_volume(record, operation).operation is None,
        fold_volume(record, operation).sequencer == record.sequencer,
{
    let start = submitted(record, operation);
    let execute = advanced(start.record, Phase::PersistingStart, Event::Stored(true));
    let note = advanced(execute.record, Phase::Executing, Event::Executed(outcome));
    let fold = advanced(note.record, Phase::PersistingResult, Event::Stored(true));
    assert(start.record.operation == Some(VolumeOperationState { operation, result: None }));
    assert(execute.record == start.record);
    assert(note.record.operation == Some(
        VolumeOperationState { operation, result: Some(succeeded(operation, outcome)) },
    ));
    if succeeded(operation, outcome) {
        assert(fold.record == held(fold_volume(record, operation)));
        assert(released(held(fold_volume(record, operation))) == fold_volume(record, operation));
    } else {
        assert(fold.record == held(record));
        assert(released(held(record)) == record);
    }
}

/// A request that is not taken up changes nothing: `Busy` while the volume
/// is held or an operation is in flight, whatever is asked, and
/// `InvalidOperation` where only the status stands against it.
pub proof fn lemma_rejected_request_changes_nothing(record: VolumeSpec, operation: VolumeOperation)
    requires
        !admissible(record, operation),
    ensures
        submitted(record, operation).record == record,
        submitted(record, operation).step == StepModel::Done(
            Err(
                if record.sequencer.state == OperationSequenceState::Exclusive
                    || record.operation is Some {
                    SvcError::Busy
                } else {
                    SvcError::InvalidOperation
                },
            ),
        ),
{
}

/// A record leaves the store only once it is marked as deleted: no step
/// asks for a removal but the one that follows the write of the final
/// record of a destroyed volume, and no request or recovery starts with
/// one.
pub proof fn lemma_removed_only_when_deleted(
    record: VolumeSpec,
    operation: VolumeOperation,
    phase: Phase,
    event: Event,
    applied: bool,
)
    ensures
        advanced(record, phase, event).step matches StepModel::Next(_, Action::Remove) ==> phase
            == Phase::PersistingFinal(true) && event == Event::Stored(true) && advanced(
            record,
            phase,
            event,
        ).record.status is Deleted,
        !(submitted(record, operation).step matches StepModel::Next(_, Action::Remove)),
        !(resolved(record, applied).step matches StepModel::Next(_, Action::Remove)),
        !(recovered(record).1 matches RecoveryModel::Resume(_, Action::Remove)),
{
}

/// While an operation is under way on a volume every other request for the
/// volume is turned down with `Busy` and changes nothing: from the step that
/// takes the first request up to the step that ends it, whatever the
/// events in between.
pub proof fn lemma_one_operation_at_a_time(
    record: VolumeSpec,
    first: VolumeOperation,
    second: VolumeOperation,
    phase: Phase,
    event: Event,
)
    requires
        admissible(record, first),
    ensures
        submitted(submitted(record, first).record, second) == (Outcome {
            record: submitted(record, first).record,
            step: StepModel::Done(Err(SvcError::Busy)),
        }),
        ({
            let under_way = submitted(record, first).record;
            let next = advanced(under_way, phase, event);
            next.step is Next ==> submitted(next.record, second) == (Outcome {
                record: next.record,
                step: StepModel::Done(Err(SvcError::Busy)),
            })
        }),
        ({
            let under_way = submitted(record, first).record;
            let next = advanced(under_way, phase, event);
            next.step is Done ==> next.record.sequencer.state == OperationSequenceState::Idle
        }),
{
}

/// Destroying and unpublishing are idempotent: asked for twice in a row,
/// with the data plane finding the target gone the second time or not, both
/// requests succeed and the second leaves the record as the first left it.
pub proof fn lemma_idempotent_twice(
    record: VolumeSpec,
    operation: VolumeOperation,
    second: Result<(), ExecutorError>,
)
    requires
        admissible(record, operation),
        tolerates_absence(operation),
        second != Err::<(), ExecutorError>(ExecutorError::Failed),
    ensures
        ({
            let once = uninterrupted(record, operation, Ok(()));
            let twice = uninterrupted(once.record, operation, second);
            &&& once.step == StepModel::Done(Ok(()))
            &&& twice.step == StepModel::Done(Ok(()))
            &&& twice.record == once.record
        }),
{
    lemma_uninterrupted_run(record, operation, Ok(()));
    let once = fold_volume(record, operation);
    assert(succeeded(operation, second)) by {
        match second {
            Ok(_) => {},
            Err(error) => {
                assert(error == ExecutorError::NotFound);
            },
        }
    }
    assert(succeeded(operation, Ok(())));
    assert(uninterrupted(record, operation, Ok(())).record == once);
    assert(admissible(once, operation));
    lemma_uninterrupted_run(once, operation, second);
    assert(fold_volume(once, operation) == once);
}

/// The end of a recovery whose writes to the store all take effect:
/// `recover`, then `advance` on each event in turn.
pub open spec fn recovery_end(stored: VolumeSpec) -> Outcome {
    let resumed = recovered(stored);
    match resumed.1 {
        RecoveryModel::Resume(phase, _) => {
            let last = advanced(resumed.0, phase, Event::Stored(true));
            match last.step {
                StepModel::Next(phase, _) => advanced(last.record, phase, Event::Stored(true)),
                StepModel::Done(_) => last,
            }
        },
        _ => Outcome { record: resumed.0, step: StepModel::Done(Ok(())) },
    }
}

/// Crash recovery ends where `commit_op` ends. Take any record that the
/// store holds with an operation whose outcome is recorded as a success;
/// the sequencer, being no part of what is stored, is free. Recovery and
/// the write of the final record, with the removal of a destroyed volume's
/// record, succeed and end in the record that a plain `commit_op` makes of
/// the stored one.
pub proof fn lemma_recovery_equals_commit(stored: VolumeSpec)
    requires
        stored.sequencer.state == OperationSequenceState::Idle,
        stored.operation matches Some(state) && state.result == Some(true),
    ensures
        recovered(stored).1 == RecoveryModel::Resume(Phase::PersistingFinal(true), Action::Persist),
        recovery_end(stored) == (Outcome {
            record: committed(stored),
            step: StepModel::Done(Ok(())),
        }),
{
    assert(released(held(committed(stored))) == committed(stored));
}

/// Crash recovery ends where the uninterrupted request ends. Take a request
/// that was taken up and whose operation had succeeded when the process
/// died, so that the store holds the record with the success recorded.
/// Recovery ends in the same record and with the same result as the
/// request would have without the crash: the fold table applied to the
/// record as it was before the operation.
pub proof fn lemma_recovery_equals_uninterrupted(record: VolumeSpec, operation: VolumeOperation)
    requires
        admissible(record, operation),
    ensures
        recovery_end(with_result(started_with(record, operation), true)) == uninterrupted(
            record,
            operation,
            Ok(()),
        ),
        recovery_end(with_result(started_with(record, operation), true)).record == fold_volume(
            record,
            operation,
        ),
{
    lemma_uninterrupted_run(record, operation, Ok(()));
    let stored = with_result(started_with(record, operation), true);
    assert(stored.operation == Some(VolumeOperationState { operation, result: Some(true) }));
    lemma_recovery_equals_commit(stored);
    assert(committed(stored) == fold_volume(record, operation));
}

/// A recorded failure is recovered as a failure: the operation is cleared,
/// and the record is the stored one without it.
pub proof fn lemma_recovery_of_failure_clears(stored: VolumeSpec)
    requires
        stored.sequencer.state == OperationSequenceState::Idle,
        stored.operation matches Some(state) && state.result == Some(false),
    ensures
        recovery_end(stored) == (Outcome {
            record: cleared(stored),
            step: StepModel::Done(Err(SvcError::ExecutorFailure)),
        }),
{
    assert(released(held(cleared(stored))) == cleared(stored));
}

} // verus!
