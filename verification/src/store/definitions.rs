//! Keys under which the persistent store holds the ledger's objects.

use vstd::prelude::*;
use vstd::string::StringExecFns;

verus! {

/// The kinds of object that share the persistent store.
#[derive(Debug, Clone, Copy, PartialEq, Eq, Structural)]
pub enum StorableObjectType {
    VolumeSpec,
    VolumeState,
    ReplicaSpec,
    ReplicaState,
    NexusSpec,
    NexusState,
}

/// The tag that stands for a kind in a store key.
pub open spec fn kind_tag(kind: StorableObjectType) -> Seq<char> {
    match kind {
        StorableObjectType::VolumeSpec => "VolumeSpec"@,
        StorableObjectType::VolumeState => "VolumeState"@,
        StorableObjectType::ReplicaSpec => "ReplicaSpec"@,
        StorableObjectType::ReplicaState => "ReplicaState"@,
        StorableObjectType::NexusSpec => "NexusSpec"@,
        StorableObjectType::NexusState => "NexusState"@,
    }
}

/// The store key of the object of kind `kind` with identifier `id`: the
/// kind's tag, a slash, and the identifier.
pub open spec fn object_key(kind: StorableObjectType, id: Seq<char>) -> Seq<char> {
    kind_tag(kind) + seq!['/'] + id
}

impl StorableObjectType {
    /// The tag that stands for this kind in a store key.
    pub fn tag(&self) -> (tag: &'static str)
        ensures
            tag@ == kind_tag(*self),
    {
        match self {
            StorableObjectType::VolumeSpec => "VolumeSpec",
            StorableObjectType::VolumeState => "VolumeState",
            StorableObjectType::ReplicaSpec => "ReplicaSpec",
            StorableObjectType::ReplicaState => "ReplicaState",
            StorableObjectType::NexusSpec => "NexusSpec",
            StorableObjectType::NexusState => "NexusState",
        }
    }
}

/// A tag is never empty and holds no slash.
pub proof fn lemma_tag_has_no_slash(kind: StorableObjectType)
    ensures
        kind_tag(kind).len() > 0,
        forall|i: int| 0 <= i < kind_tag(kind).len() ==> kind_tag(kind)[i] != '/',
{
    reveal_strlit("VolumeSpec");
    reveal_strlit("VolumeState");
    reveal_strlit("ReplicaSpec");
    reveal_strlit("ReplicaState");
    reveal_strlit("NexusSpec");
    reveal_strlit("NexusState");
}

/// Two kinds with the same tag are the same kind.
pub proof fn lemma_tags_differ(a: StorableObjectType, b: StorableObjectType)
    requires
        kind_tag(a) == kind_tag(b),
    ensures
        a == b,
{
    reveal_strlit("VolumeSpec");
    reveal_strlit("VolumeState");
    reveal_strlit("ReplicaSpec");
    reveal_strlit("ReplicaState");
    reveal_strlit("NexusSpec");
    reveal_strlit("NexusState");
    if a != b {
        let s = kind_tag(a);
        let t = kind_tag(b);
        assert(s.len() == t.len());
        assert(s[0] == t[0]);
        assert(s[s.len() - 1] == t[t.len() - 1]);
    }
}

/// Keys are free of collisions: two objects share a key only if they are of
/// one kind and have one identifier.
pub proof fn lemma_keys_are_collision_free(
    kind_a: StorableObjectType,
    id_a: Seq<char>,
    kind_b: StorableObjectType,
    id_b: Seq<char>,
)
    requires
        object_key(kind_a, id_a) == object_key(kind_b, id_b),
    ensures
        kind_a == kind_b,
        id_a == id_b,
{
    let key = object_key(kind_a, id_a);
    let ta = kind_tag(kind_a);
    let tb = kind_tag(kind_b);
    lemma_tag_has_no_slash(kind_a);
    lemma_tag_has_no_slash(kind_b);
    assert(object_key(kind_a, id_a)[ta.len() as int] == '/');
    assert(object_key(kind_b, id_b)[tb.len() as int] == '/');
    if ta.len() < tb.len() {
        assert(object_key(kind_b, id_b)[ta.len() as int] == tb[ta.len() as int]);
        assert(false);
    }
    if tb.len() < ta.len() {
        assert(object_key(kind_a, id_a)[tb.len() as int] == ta[tb.len() as int]);
        assert(false);
    }
    assert(ta =~= tb) by {
        assert forall|i: int| 0 <= i < ta.len() implies ta[i] == tb[i] by {
            assert(object_key(kind_a, id_a)[i] == ta[i]);
            assert(object_key(kind_b, id_b)[i] == tb[i]);
        }
    }
    lemma_tags_differ(kind_a, kind_b);
    assert(id_a =~= id_b) by {
        assert(object_key(kind_a, id_a).len() == ta.len() + 1 + id_a.len());
        assert(object_key(kind_b, id_b).len() == tb.len() + 1 + id_b.len());
        assert forall|i: int| 0 <= i < id_a.len() implies id_a[i] == id_b[i] by {
            assert(object_key(kind_a, id_a)[ta.len() + 1 + i] == id_a[i]);
            assert(object_key(kind_b, id_b)[tb.len() + 1 + i] == id_b[i]);
        }
    }
}

/// What identifies an object in the persistent store.
pub trait ObjectKey {
    /// The kind of the object this key names.
    spec fn kind(&self) -> StorableObjectType;

    /// The identifier of the object this key names.
    spec fn uuid(&self) -> Seq<char>;

    /// The kind of the object this key names.
    fn key_type(&self) -> (kind: StorableObjectType)
        ensures
            kind == self.kind(),
    ;

    /// The identifier of the object this key names, in its string form.
    fn key_uuid(&self) -> (id: String)
        ensures
            id@ == self.uuid(),
    ;

    /// The key under which the store holds the object.
    fn key(&self) -> (key: String)
        ensures
            key@ == object_key(self.kind(), self.uuid()),
    {
        let id = self.key_uuid();
        store_key(self.key_type(), id.as_str())
    }
}

/// The store key of the object of kind `kind` with identifier `id`.
pub fn store_key(kind: StorableObjectType, id: &str) -> (key: String)
    ensures
        key@ == object_key(kind, id@),
{
    let mut key = String::from_str(kind.tag());
    key.append("/");
    key.append(id);
    proof {
        reveal_strlit("/");
        assert("/"@ =~= seq!['/']);
    }
    key
}

/// An object that the persistent store holds under a key of its own.
pub trait StorableObject {
    /// The type of the object's key.
    type Key: ObjectKey;

    /// The kind of this object.
    spec fn object_kind(&self) -> StorableObjectType;

    /// The identifier of this object.
    spec fn object_uuid(&self) -> Seq<char>;

    /// The key that names this object.
    fn key(&self) -> (key: Self::Key)
        ensures
            key.kind() == self.object_kind(),
            key.uuid() == self.object_uuid(),
    ;
}

} // verus!
