//! The kinds of operation a volume specification reports.

use vstd::prelude::*;
use vstd::std_specs::convert::FromSpecImpl;
use crate::store::volume::VolumeOperation;

verus! {

/// The kind of a volume operation, without what it carries.
#[derive(Debug, Clone, Copy, PartialEq, Eq, Structural)]
pub enum Operation {
    Create,
    Destroy,
    Share,
    Unshare,
    SetReplica,
    Publish,
    Unpublish,
    RemoveUnusedReplica,
}

/// The kind of `operation`.
pub open spec fn kind_of(operation: VolumeOperation) -> Operation {
    match operation {
        VolumeOperation::Create => Operation::Create,
        VolumeOperation::Destroy => Operation::Destroy,
        VolumeOperation::Share(_) => Operation::Share,
        VolumeOperation::Unshare => Operation::Unshare,
        VolumeOperation::SetReplica(_) => Operation::SetReplica,
        VolumeOperation::Publish(_) => Operation::Publish,
        VolumeOperation::Unpublish => Operation::Unpublish,
        VolumeOperation::RemoveUnusedReplica(_) => Operation::RemoveUnusedReplica,
    }
}

impl From<VolumeOperation> for Operation {
    fn from(src: VolumeOperation) -> (kind: Self) {
        match src {
            VolumeOperation::Create => Operation::Create,
            VolumeOperation::Destroy => Operation::Destroy,
            VolumeOperation::Share(_) => Operation::Share,
            VolumeOperation::Unshare => Operation::Unshare,
            VolumeOperation::SetReplica(_) => Operation::SetReplica,
            VolumeOperation::Publish(_) => Operation::Publish,
            VolumeOperation::Unpublish => Operation::Unpublish,
            VolumeOperation::RemoveUnusedReplica(_) => Operation::RemoveUnusedReplica,
        }
    }
}

impl FromSpecImpl<VolumeOperation> for Operation {
    open spec fn obeys_from_spec() -> bool {
        true
    }

    open spec fn from_spec(src: VolumeOperation) -> Self {
        kind_of(src)
    }
}

} // verus!
