//! The transaction protocol that every resource kind follows: an operation
//! is started, its outcome is recorded, and it is then either committed
//! into the record or cleared from it.

use vstd::prelude::*;
use crate::store::sequencer::SvcError;

verus! {

/// Lifecycle stage of a resource; `T` is what is known of it once created.
#[derive(Debug, PartialEq, Eq)]
pub enum SpecStatus<T> {
    /// Requested, not there yet.
    Creating,
    /// There.
    Created(T),
    /// Being removed.
    Deleting,
    /// Removed; the record itself may still be in the store.
    Deleted,
}

impl<T: Copy> Clone for SpecStatus<T> {
    fn clone(&self) -> (copy: Self)
        ensures
            copy == *self,
    {
        *self
    }
}

impl<T: Copy> Copy for SpecStatus<T> {

}

/// A record that changes through one operation at a time. `Operation` is
/// the resource kind's own set of operations.
///
/// The three spec functions model the record: which operation is in flight
/// and with what recorded outcome, the record with that part replaced, and
/// the record with an operation's effect folded into its configuration and
/// status. A resource kind says how its records hold what is in flight and
/// gives its fold table; starting, recording, committing and clearing are
/// the same for every kind.
pub trait SpecTransaction<Operation>: Sized {
    /// The operation in flight with its recorded outcome, if one is in
    /// flight. An outcome of `None` means that it is not known yet.
    spec fn op_state(&self) -> Option<(Operation, Option<bool>)>;

    /// This record with `state` as what is in flight, and nothing else
    /// changed.
    spec fn with_op_state(self, state: Option<(Operation, Option<bool>)>) -> Self;

    /// This record with the effect of `operation` folded into configuration
    /// and status: the resource kind's fold table. What is in flight stays.
    spec fn folded(self, operation: Operation) -> Self;

    /// What is in flight is a part of the record that can be replaced: it
    /// is what was put last, and putting back what is there changes
    /// nothing.
    proof fn lemma_op_state(
        self,
        first: Option<(Operation, Option<bool>)>,
        second: Option<(Operation, Option<bool>)>,
    )
        ensures
            self.with_op_state(first).op_state() == first,
            self.with_op_state(self.op_state()) == self,
            self.with_op_state(first).with_op_state(second) == self.with_op_state(second),
    ;

    /// The fold table neither reads nor changes what is in flight.
    proof fn lemma_fold_keeps_op_state(
        self,
        state: Option<(Operation, Option<bool>)>,
        operation: Operation,
    )
        ensures
            self.folded(operation).op_state() == self.op_state(),
            self.with_op_state(state).folded(operation) == self.folded(operation).with_op_state(
                state,
            ),
    ;

    /// Whether an operation is in flight.
    fn pending_op(&self) -> (pending: bool)
        ensures
            pending == self.op_state().is_some(),
    ;

    /// Takes what is in flight out of the record.
    fn take_op(&mut self) -> (state: Option<(Operation, Option<bool>)>)
        ensures
            state == old(self).op_state(),
            *final(self) == old(self).with_op_state(None),
    ;

    /// Puts an operation and its outcome into the record as what is in
    /// flight.
    fn put_op(&mut self, operation: Operation, result: Option<bool>)
        ensures
            *final(self) == old(self).with_op_state(Some((operation, result))),
    ;

    /// Folds the effect of `operation` into configuration and status, by
    /// the resource kind's fold table.
    fn fold(&mut self, operation: Operation)
        ensures
            *final(self) == old(self).folded(operation),
    ;

    /// Folds the operation in flight into the record and ends it. With
    /// nothing in flight the record stays as it is.
    fn commit_op(&mut self)
        ensures
            *final(self) == match old(self).op_state() {
                Some((operation, _)) => old(self).folded(operation).with_op_state(None),
                None => *old(self),
            },
    {
        let ghost before = *self;
        match self.take_op() {
            Some((operation, _)) => {
                proof {
                    before.lemma_fold_keeps_op_state(None, operation);
                }
                self.fold(operation);
            },
            None => {
                proof {
                    before.lemma_op_state(None, None);
                }
            },
        }
    }

    /// Ends the operation in flight without applying it.
    fn clear_op(&mut self)
        ensures
            *final(self) == old(self).with_op_state(None),
    {
        let _ = self.take_op();
    }

    /// Records `operation` as started, its outcome unknown. Turned down
    /// with `Busy`, the record unchanged, exactly when an operation is
    /// already in flight. The caller persists the record right after.
    fn start_op(&mut self, operation: Operation) -> (started: Result<(), SvcError>)
        ensures
            started == if old(self).op_state().is_some() {
                Err::<(), SvcError>(SvcError::Busy)
            } else {
                Ok::<(), SvcError>(())
            },
            *final(self) == if old(self).op_state().is_some() {
                *old(self)
            } else {
                old(self).with_op_state(Some((operation, None)))
            },
    {
        if self.pending_op() {
            return Err(SvcError::Busy);
        }
        self.put_op(operation, None);
        Ok(())
    }

    /// Records the outcome of the operation in flight. With nothing in
    /// flight the record stays as it is. The caller persists the record
    /// right after.
    fn set_op_result(&mut self, result: bool)
        ensures
            *final(self) == match old(self).op_state() {
                Some((operation, _)) => old(self).with_op_state(Some((operation, Some(result)))),
                None => *old(self),
            },
    {
        let ghost before = *self;
        match self.take_op() {
            Some((operation, _)) => {
                proof {
                    before.lemma_op_state(None, Some((operation, Some(result))));
                }
                self.put_op(operation, Some(result));
            },
            None => {
                proof {
                    before.lemma_op_state(None, None);
                }
            },
        }
    }
}

/// The record after `commit_op`: the operation in flight folded in and
/// ended; the record itself where nothing is in flight.
pub open spec fn committed<Operation, S: SpecTransaction<Operation>>(record: S) -> S {
    match record.op_state() {
        Some((operation, _)) => record.folded(operation).with_op_state(None),
        None => record,
    }
}

/// The record after `clear_op`: nothing in flight, nothing else changed.
pub open spec fn cleared<Operation, S: SpecTransaction<Operation>>(record: S) -> S {
    record.with_op_state(None)
}

/// The record after `start_op`: `operation` in flight with no outcome, or
/// the record itself where an operation was in flight already.
pub open spec fn started_with<Operation, S: SpecTransaction<Operation>>(
    record: S,
    operation: Operation,
) -> S {
    if record.op_state().is_some() {
        record
    } else {
        record.with_op_state(Some((operation, None)))
    }
}

/// The record after `set_op_result`: the outcome recorded beside the
/// operation in flight, or the record itself where nothing is in flight.
pub open spec fn with_result<Operation, S: SpecTransaction<Operation>>(
    record: S,
    result: bool,
) -> S {
    match record.op_state() {
        Some((operation, _)) => record.with_op_state(Some((operation, Some(result)))),
        None => record,
    }
}

/// A failed operation leaves no trace: starting an operation on a record
/// with nothing in flight, recording any outcome or none, and clearing it
/// gives back the record as it was, field for field.
pub proof fn lemma_clear_restores<Operation, S: SpecTransaction<Operation>>(
    record: S,
    operation: Operation,
    result: bool,
)
    requires
        record.op_state().is_none(),
    ensures
        cleared(started_with(record, operation)) == record,
        cleared(with_result(started_with(record, operation), result)) == record,
{
    let started = started_with(record, operation);
    record.lemma_op_state(Some((operation, None)), None);
    record.lemma_op_state(Some((operation, None)), Some((operation, Some(result))));
    record.lemma_op_state(Some((operation, Some(result))), None);
    assert(started.op_state() == Some((operation, None::<bool>)));
}

/// A committed operation is the fold table and nothing more: after start,
/// a recorded outcome or none, and commit, the record is the one before the
/// operation with the operation folded in, and nothing is in flight.
pub proof fn lemma_commit_is_fold<Operation, S: SpecTransaction<Operation>>(
    record: S,
    operation: Operation,
    result: bool,
)
    requires
        record.op_state().is_none(),
    ensures
        committed(with_result(started_with(record, operation), result)) == record.folded(
            operation,
        ),
        committed(started_with(record, operation)) == record.folded(operation),
        record.folded(operation).op_state().is_none(),
{
    let unknown = Some((operation, None::<bool>));
    let known = Some((operation, Some(result)));
    let folded = record.folded(operation);
    record.lemma_op_state(unknown, known);
    record.lemma_op_state(known, None);
    record.lemma_fold_keeps_op_state(unknown, operation);
    record.lemma_fold_keeps_op_state(known, operation);
    folded.lemma_op_state(unknown, None);
    folded.lemma_op_state(known, None);
    assert(started_with(record, operation) == record.with_op_state(unknown));
    assert(with_result(started_with(record, operation), result) == record.with_op_state(known));
    assert(folded.with_op_state(None) == folded);
}

} // verus!
