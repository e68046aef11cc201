//! The nexus: what it answers to the requests made of it over JSON-RPC,
//! and the list of the nexuses that exist.

use vstd::prelude::*;
use crate::text::same_text;

verus! {

/// The codes of JSON-RPC errors.
#[derive(Debug, Clone, Copy, PartialEq, Eq, Structural)]
pub enum Code {
    InvalidParams,
    InternalError,
    NotFound,
}

/// An error in reply to a JSON-RPC request.
#[derive(Debug, PartialEq, Eq)]
pub struct JsonRpcError {
    /// The kind of error.
    pub code: Code,
    /// What is told the caller.
    pub message: String,
}

/// A JSON-RPC error with its message as text.
pub struct JsonRpcErrorView {
    pub code: Code,
    pub message: Seq<char>,
}

impl View for JsonRpcError {
    type V = JsonRpcErrorView;

    open spec fn view(&self) -> JsonRpcErrorView {
        JsonRpcErrorView { code: self.code, message: self.message@ }
    }
}

/// The protocols a nexus can be shared over.
#[derive(Debug, Clone, Copy, PartialEq, Eq, Structural)]
pub enum ShareProtocol {
    Nvmf,
    Iscsi,
}

/// The arguments of a request to share a nexus.
#[derive(Debug)]
pub struct NexusShareArgs {
    pub name: String,
    pub protocol: String,
    pub cntlid_min: u16,
    pub cntlid_max: u16,
}

/// The reply to a request to share a nexus.
#[derive(Debug, PartialEq, Eq)]
pub struct NexusShareReply {
    pub uri: String,
}

/// The protocol that a share request names; any name but `iscsi` and
/// `nvmf` is an invalid parameter.
pub fn share_protocol(protocol: &str) -> (named: Result<ShareProtocol, JsonRpcError>)
    ensures
        match named {
            Ok(ShareProtocol::Nvmf) => protocol@ == "nvmf"@,
            Ok(ShareProtocol::Iscsi) => protocol@ == "iscsi"@ && protocol@ != "nvmf"@,
            Err(error) => protocol@ != "iscsi"@ && protocol@ != "nvmf"@ && error@ == (
            JsonRpcErrorView { code: Code::InvalidParams, message: "invalid protocol"@ }),
        },
{
    if same_text(protocol, "nvmf") {
        Ok(ShareProtocol::Nvmf)
    } else if same_text(protocol, "iscsi") {
        Ok(ShareProtocol::Iscsi)
    } else {
        Err(JsonRpcError { code: Code::InvalidParams, message: "invalid protocol".to_owned() })
    }
}

/// What becomes of sharing a device.
#[derive(Debug)]
pub enum Shared {
    /// There is no device of the name asked for.
    Missing,
    /// Sharing failed, for the reason given.
    Failed(String),
    /// The device is shared: what sharing handed back, and the share URI
    /// that the device reports, if it reports one.
    Done(String, Option<String>),
}

/// The reply to a share request, given what became of sharing: the URI
/// that the device reports, or else what sharing handed back. A missing
/// device is `NotFound`, a failure an internal error with its reason.
pub fn share_reply(shared: Shared) -> (reply: Result<NexusShareReply, JsonRpcError>)
    ensures
        match shared {
            Shared::Missing => reply matches Err(error) && error@ == (JsonRpcErrorView {
                code: Code::NotFound,
                message: "bdev not found"@,
            }),
            Shared::Failed(reason) => reply matches Err(error) && error.code == Code::InternalError
                && error.message == reason,
            Shared::Done(share, Some(uri)) => reply matches Ok(r) && r.uri == uri,
            Shared::Done(share, None) => reply matches Ok(r) && r.uri == share,
        },
{
    match shared {
        Shared::Missing => Err(
            JsonRpcError { code: Code::NotFound, message: "bdev not found".to_owned() },
        ),
        Shared::Failed(reason) => Err(JsonRpcError { code: Code::InternalError, message: reason }),
        Shared::Done(share, uri) => Ok(
            NexusShareReply {
                uri: match uri {
                    Some(uri) => uri,
                    None => share,
                },
            },
        ),
    }
}

/// Why a reservation on a nexus failed.
#[derive(Debug, PartialEq, Eq)]
pub enum NexusError {
    /// The nexus's device could not be opened.
    FailedGetHandle,
    /// The devices below did not take the registration.
    FailedResvRegister { name: String, source: String },
    /// The devices below did not grant the reservation.
    FailedResvAcquire { name: String, source: String },
}

/// What becomes of a reservation request on a nexus's device.
#[derive(Debug)]
pub enum Reserved {
    /// The device could not be opened.
    NoHandle,
    /// The devices below refused, for the reason given.
    Refused(String),
    /// The devices below agreed.
    Done,
}

/// The reply to a reservation request over JSON-RPC, given whether the
/// nexus exists and, if it does, what the reservation came to, as text
/// where it failed.
pub fn resv_reply(outcome: Option<Result<(), String>>) -> (reply: Result<(), JsonRpcError>)
    ensures
        match outcome {
            None => reply matches Err(error) && error@ == (JsonRpcErrorView {
                code: Code::NotFound,
                message: "nexus not found"@,
            }),
            Some(Err(reason)) => reply matches Err(error) && error.code == Code::InternalError
                && error.message == reason,
            Some(Ok(_)) => reply is Ok,
        },
{
    match outcome {
        None => Err(JsonRpcError { code: Code::NotFound, message: "nexus not found".to_owned() }),
        Some(Err(reason)) => Err(JsonRpcError { code: Code::InternalError, message: reason }),
        Some(Ok(_)) => Ok(()),
    }
}

/// The states of a nexus's child.
#[derive(Debug, Clone, Copy, PartialEq, Eq, Structural)]
pub enum ChildState {
    /// Named, not opened yet.
    Init,
    /// Open and part of the nexus.
    Open,
    /// On its way out.
    Destroying,
    /// Closed.
    Closed,
    /// Out of order.
    Faulted,
}

/// A child of a nexus.
#[derive(Debug, PartialEq, Eq)]
pub struct NexusChild {
    /// URI of the child.
    pub name: String,
    /// State of the child.
    pub state: ChildState,
}

/// A nexus.
#[derive(Debug, PartialEq, Eq)]
pub struct Nexus {
    /// Name of the nexus.
    pub name: String,
    /// Size in bytes.
    pub size: u64,
    /// The children of the nexus.
    pub children: Vec<NexusChild>,
}

/// The children named by `names`, none of them opened yet.
pub open spec fn fresh_children(names: Seq<String>, children: Seq<NexusChild>) -> bool {
    children.len() == names.len() && forall|i: int|
        0 <= i < names.len() ==> (#[trigger] children[i]).name == names[i] && children[i].state
            == ChildState::Init
}

impl Nexus {
    /// A nexus of the given name and size over the children named.
    pub fn new(name: String, size: u64, children: &Vec<String>) -> (nexus: Self)
        ensures
            nexus.name == name,
            nexus.size == size,
            fresh_children(children@, nexus.children@),
    {
        let mut made: Vec<NexusChild> = Vec::new();
        let mut i: usize = 0;
        while i < children.len()
            invariant
                i <= children.len(),
                made.len() == i,
                forall|c: int|
                    0 <= c < i ==> (#[trigger] made[c]).name == children[c] && made[c].state
                        == ChildState::Init,
            decreases children.len() - i,
        {
            made.push(NexusChild { name: children[i].clone(), state: ChildState::Init });
            i += 1;
        }
        Nexus { name, size, children: made }
    }

    /// The outcome of registering a reservation key on all children, given
    /// what became of the request on the nexus's device.
    pub fn resv_register(&self, reserved: Reserved) -> (outcome: Result<(), NexusError>)
        ensures
            match reserved {
                Reserved::NoHandle => outcome == Err::<(), NexusError>(NexusError::FailedGetHandle),
                Reserved::Refused(reason) => outcome matches Err(
                    NexusError::FailedResvRegister { name, source },
                ) && name == self.name && source == reason,
                Reserved::Done => outcome is Ok,
            },
    {
        match reserved {
            Reserved::NoHandle => Err(NexusError::FailedGetHandle),
            Reserved::Refused(source) => Err(
                NexusError::FailedResvRegister { name: self.name.clone(), source },
            ),
            Reserved::Done => Ok(()),
        }
    }

    /// The outcome of acquiring a reservation on all children, given what
    /// became of the request on the nexus's device.
    pub fn resv_acquire(&self, reserved: Reserved) -> (outcome: Result<(), NexusError>)
        ensures
            match reserved {
                Reserved::NoHandle => outcome == Err::<(), NexusError>(NexusError::FailedGetHandle),
                Reserved::Refused(reason) => outcome matches Err(
                    NexusError::FailedResvAcquire { name, source },
                ) && name == self.name && source == reason,
                Reserved::Done => outcome is Ok,
            },
    {
        match reserved {
            Reserved::NoHandle => Err(NexusError::FailedGetHandle),
            Reserved::Refused(source) => Err(
                NexusError::FailedResvAcquire { name: self.name.clone(), source },
            ),
            Reserved::Done => Ok(()),
        }
    }

    /// This nexus with every child set to `Destroying`.
    pub fn destroying(&self) -> (changed: Nexus)
        ensures
            is_destroying(*self, changed),
    {
        let mut children: Vec<NexusChild> = Vec::new();
        let mut i: usize = 0;
        while i < self.children.len()
            invariant
                i <= self.children.len(),
                children.len() == i,
                forall|c: int|
                    0 <= c < i ==> (#[trigger] children[c]).name == self.children[c].name
                        && children[c].state == ChildState::Destroying,
            decreases self.children.len() - i,
        {
            children.push(
                NexusChild { name: self.children[i].name.clone(), state: ChildState::Destroying },
            );
            i += 1;
        }
        Nexus { name: self.name.clone(), size: self.size, children }
    }
}

/// Whether `after` is the nexus `before` with every child set to
/// `Destroying` and nothing else changed.
pub open spec fn is_destroying(before: Nexus, after: Nexus) -> bool {
    &&& after.name == before.name
    &&& after.size == before.size
    &&& after.children@.len() == before.children@.len()
    &&& forall|c: int|
        0 <= c < before.children@.len() ==> (#[trigger] after.children@[c]).name
            == before.children@[c].name && after.children@[c].state == ChildState::Destroying
}

/// The nexuses that exist.
#[derive(Debug)]
pub struct NexusModule {
    /// The nexuses, in the order in which they were made.
    pub list: Vec<Nexus>,
}

impl NexusModule {
    /// A module without nexuses.
    pub fn new() -> (module: Self)
        ensures
            module.list@.len() == 0,
    {
        NexusModule { list: Vec::new() }
    }
}

/// The nexuses that exist.
pub fn instances(module: &mut NexusModule) -> (list: &mut Vec<Nexus>)
    ensures
        *list == old(module).list,
        final(module).list == *final(list),
{
    &mut module.list
}

/// Makes a new nexus, as when a configuration file names one, and puts it
/// last among the nexuses.
pub fn nexus_instance_new(
    module: &mut NexusModule,
    name: String,
    size: u64,
    children: Vec<String>,
)
    ensures
        final(module).list@.len() == old(module).list@.len() + 1,
        final(module).list@.drop_last() == old(module).list@,
        final(module).list@.last().name == name,
        final(module).list@.last().size == size,
        fresh_children(children@, final(module).list@.last().children@),
{
    let nexus = Nexus::new(name, size, &children);
    let ghost before = module.list@;
    let list = instances(module);
    list.push(nexus);
    assert(module.list@.drop_last() =~= before);
}

/// Sets every child of every nexus to `Destroying`, as is done at
/// shutdown, so that the removal of a child's device removes the child as
/// well.
pub fn nexus_children_to_destroying_state(module: &mut NexusModule)
    ensures
        final(module).list@.len() == old(module).list@.len(),
        forall|n: int|
            0 <= n < old(module).list@.len() ==> is_destroying(
                #[trigger] old(module).list@[n],
                final(module).list@[n],
            ),
{
    let mut changed: Vec<Nexus> = Vec::new();
    let mut i: usize = 0;
    while i < module.list.len()
        invariant
            i <= module.list.len(),
            changed.len() == i,
            forall|n: int| 0 <= n < i ==> is_destroying(#[trigger] module.list@[n], changed@[n]),
        decreases module.list.len() - i,
    {
        changed.push(module.list[i].destroying());
        i += 1;
    }
    module.list = changed;
}

} // verus!
