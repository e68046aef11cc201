//! The per-resource guard that lets one operation at a time change a record.

use vstd::prelude::*;

verus! {

/// Why the ledger turns a request down.
#[derive(Debug, Clone, Copy, PartialEq, Eq, Structural)]
pub enum SvcError {
    /// Another operation holds the resource; the caller may retry.
    Busy,
    /// The resource does not exist.
    NotFound,
    /// The resource exists and differs from what was asked for.
    AlreadyExists,
    /// The data plane failed or rejected the operation.
    ExecutorFailure,
    /// The persistent store could not be written.
    StoreFailure,
    /// The operation is not valid for the resource's status.
    InvalidOperation,
}

/// Whether a resource is free or held for one operation.
#[derive(Debug, Clone, Copy, PartialEq, Eq, Structural)]
pub enum OperationSequenceState {
    /// No operation holds the resource.
    Idle,
    /// One operation holds the resource.
    Exclusive,
}

/// The sequencer of one resource. It lives beside the in-memory record, is
/// never persisted, and starts out idle whenever a record is loaded.
#[derive(Debug)]
pub struct OperationSequence {
    /// Identifier of the resource this sequencer belongs to.
    pub uuid: String,
    /// Whether the resource is held.
    pub state: OperationSequenceState,
}

/// What an operation holds while it has a resource to itself. Only
/// `OperationSequence::acquire` hands one out.
#[derive(Debug)]
pub struct OperationGuard {
    uuid: String,
}

impl OperationGuard {
    /// Identifier of the resource this guard was handed out for.
    pub closed spec fn resource(&self) -> Seq<char> {
        self.uuid@
    }

    /// Identifier of the resource this guard was handed out for.
    pub fn uuid(&self) -> (id: &str)
        ensures
            id@ == self.resource(),
    {
        self.uuid.as_str()
    }
}

impl Clone for OperationSequence {
    fn clone(&self) -> (copy: Self)
        ensures
            copy == *self,
    {
        OperationSequence { uuid: self.uuid.clone(), state: self.state }
    }
}

impl OperationSequence {
    /// A fresh sequencer for the resource `uuid`: nothing holds it.
    pub fn new(uuid: String) -> (sequencer: Self)
        ensures
            sequencer.uuid == uuid,
            sequencer.state == OperationSequenceState::Idle,
    {
        OperationSequence { uuid, state: OperationSequenceState::Idle }
    }

    /// Whether an operation holds the resource.
    pub fn busy(&self) -> (held: bool)
        ensures
            held == (self.state == OperationSequenceState::Exclusive),
    {
        match self.state {
            OperationSequenceState::Idle => false,
            OperationSequenceState::Exclusive => true,
        }
    }

    /// Takes the resource for one operation. Fails with `Busy`, changing
    /// nothing, exactly when another operation holds it.
    pub fn acquire(&mut self) -> (taken: Result<OperationGuard, SvcError>)
        ensures
            final(self).uuid == old(self).uuid,
            final(self).state == OperationSequenceState::Exclusive,
            match taken {
                Ok(guard) => grants(old(self).state) && guard.resource() == old(self).uuid@,
                Err(error) => !grants(old(self).state) && error == SvcError::Busy,
            },
    {
        match self.state {
            OperationSequenceState::Idle => {
                self.state = OperationSequenceState::Exclusive;
                Ok(OperationGuard { uuid: self.uuid.clone() })
            },
            OperationSequenceState::Exclusive => Err(SvcError::Busy),
        }
    }

    /// Gives the resource back. A guard handed out for another resource
    /// changes nothing.
    pub fn release(&mut self, guard: OperationGuard)
        ensures
            final(self).uuid == old(self).uuid,
            final(self).state == if guard.resource() == old(self).uuid@ {
                OperationSequenceState::Idle
            } else {
                old(self).state
            },
    {
        if guard.uuid == self.uuid {
            self.state = OperationSequenceState::Idle;
        }
    }
}

/// A record that carries its own sequencer.
pub trait OperationSequencer {
    /// The sequencer of this record.
    spec fn sequence(&self) -> OperationSequence;

    /// The sequencer of this record.
    fn as_ref(&self) -> (sequencer: &OperationSequence)
        ensures
            *sequencer == self.sequence(),
    ;

    /// The sequencer of this record, to acquire or release it.
    fn as_mut(&mut self) -> (sequencer: &mut OperationSequence)
        ensures
            *sequencer == old(self).sequence(),
            final(self).sequence() == *final(sequencer),
    ;
}

/// A record that can spell its identifier.
pub trait UuidString {
    /// The identifier of this record.
    spec fn uuid_text(&self) -> Seq<char>;

    /// The identifier of this record, in its string form.
    fn uuid_as_string(&self) -> (id: String)
        ensures
            id@ == self.uuid_text(),
    ;
}

/// What the tasks that share one sequencer can do to it.
pub enum SequencerEvent {
    /// The task tries to take the resource.
    Acquire(nat),
    /// The task gives back the guard it holds, if it holds one.
    Release(nat),
}

/// A sequencer together with the tasks that hold a guard for it.
pub struct SequencerModel {
    pub state: OperationSequenceState,
    pub holders: Set<nat>,
}

/// The sequencer of a record that was just loaded: idle, and no task holds
/// a guard.
pub open spec fn fresh_sequencer() -> SequencerModel {
    SequencerModel { state: OperationSequenceState::Idle, holders: Set::empty() }
}

/// Whether a sequencer in `state` hands out its guard: only while idle.
pub open spec fn grants(state: OperationSequenceState) -> bool {
    state == OperationSequenceState::Idle
}

/// One event: an acquire hands out a guard as `acquire` does, to the task
/// that asks while the sequencer grants it, and only a holder can release.
pub open spec fn sequencer_step(model: SequencerModel, event: SequencerEvent) -> SequencerModel {
    match event {
        SequencerEvent::Acquire(task) => if grants(model.state) {
            SequencerModel {
                state: OperationSequenceState::Exclusive,
                holders: model.holders.insert(task),
            }
        } else {
            model
        },
        SequencerEvent::Release(task) => if model.holders.contains(task) {
            SequencerModel {
                state: OperationSequenceState::Idle,
                holders: model.holders.remove(task),
            }
        } else {
            model
        },
    }
}

/// The sequencer after the events of `trace`, in order, from a fresh one.
pub open spec fn sequencer_after(trace: Seq<SequencerEvent>) -> SequencerModel
    decreases trace.len(),
{
    if trace.len() == 0 {
        fresh_sequencer()
    } else {
        sequencer_step(sequencer_after(trace.drop_last()), trace.last())
    }
}

/// Mutual exclusion: whatever the tasks do and in whatever order, no two of
/// them hold the guard of one resource at the same time, and the sequencer
/// is idle exactly while none of them holds it.
pub proof fn lemma_mutual_exclusion(trace: Seq<SequencerEvent>)
    ensures
        forall|a: nat, b: nat|
            sequencer_after(trace).holders.contains(a) && sequencer_after(trace).holders.contains(
                b,
            ) ==> a == b,
        sequencer_after(trace).state == OperationSequenceState::Idle <==> sequencer_after(
            trace,
        ).holders == Set::<nat>::empty(),
    decreases trace.len(),
{
    if trace.len() > 0 {
        let before = sequencer_after(trace.drop_last());
        let after = sequencer_after(trace);
        lemma_mutual_exclusion(trace.drop_last());
        match trace.last() {
            SequencerEvent::Acquire(task) => {
                if before.state == OperationSequenceState::Idle {
                    assert(after.holders.contains(task));
                }
            },
            SequencerEvent::Release(task) => {
                if before.holders.contains(task) {
                    assert(after.holders =~= Set::<nat>::empty());
                }
            },
        }
    }
}

} // verus!
