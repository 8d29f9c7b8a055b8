use vstd::prelude::*;
use vstd::std_specs::convert::{FromSpec, FromSpecImpl};

use crate::zid::{ZId, ZenohResult};

verus! {

/// The identifier of an entity (publisher, subscriber, queryable, ...)
/// within one Zenoh session.
#[derive(Debug, Clone, Copy, PartialEq, Eq, Structural, Hash)]
pub struct EntityId(u32);

impl From<u32> for EntityId {
    fn from(value: u32) -> (r: Self)
        ensures
            r.spec_value() == value,
    {
        EntityId(value)
    }
}

impl FromSpecImpl<u32> for EntityId {
    open spec fn obeys_from_spec() -> bool {
        true
    }

    closed spec fn from_spec(v: u32) -> EntityId {
        EntityId(v)
    }
}

impl From<EntityId> for u32 {
    fn from(value: EntityId) -> (r: u32)
        ensures
            r == value.spec_value(),
    {
        value.0
    }
}

impl FromSpecImpl<EntityId> for u32 {
    open spec fn obeys_from_spec() -> bool {
        true
    }

    closed spec fn from_spec(v: EntityId) -> u32 {
        v.0
    }
}

impl EntityId {
    pub closed spec fn spec_value(&self) -> u32 {
        self.0
    }

    /// The raw identifier.
    #[verifier::when_used_as_spec(spec_value)]
    pub fn value(&self) -> (r: u32)
        ensures
            r == self.spec_value(),
    {
        self.0
    }
}

/// The two conversions between `u32` and `EntityId` undo each other: a raw
/// identifier taken into an `EntityId` and back is unchanged, and so is an
/// `EntityId` taken into a raw identifier and back.
pub proof fn entity_id_conversions_invert(raw: u32, id: EntityId)
    ensures
        <u32 as FromSpec<EntityId>>::from_spec(<EntityId as FromSpec<u32>>::from_spec(raw)) == raw,
        <EntityId as FromSpec<u32>>::from_spec(<u32 as FromSpec<EntityId>>::from_spec(id)) == id,
        <EntityId as FromSpec<u32>>::from_spec(raw).spec_value() == raw,
{
}

/// The globally unique identifier of an entity: the identifier of the
/// session that declared it together with its identifier in that session.
#[derive(Debug, Clone, Copy, PartialEq, Eq, Structural, Hash)]
pub struct EntityGlobalId {
    zid: ZId,
    eid: EntityId,
}

impl EntityGlobalId {
    pub closed spec fn spec_zid(&self) -> ZId {
        self.zid
    }

    pub closed spec fn spec_eid(&self) -> EntityId {
        self.eid
    }

    /// The global identifier of entity `eid` of session `zid`. The value is
    /// built here from its two parts, with no call into the Zenoh C library,
    /// so this model has no failing path; the result type is kept so that
    /// callers handle the same `ZenohResult` as with the C constructor.
    pub fn new(zid: &ZId, eid: EntityId) -> (r: ZenohResult<Self>)
        ensures
            r matches Ok(g) && g.spec_zid() == *zid && g.spec_eid() == eid,
    {
        Ok(EntityGlobalId { zid: *zid, eid })
    }

    /// The identifier of the entity within its session.
    pub fn entity_id(&self) -> (r: EntityId)
        ensures
            r == self.spec_eid(),
    {
        self.eid
    }

    /// The identifier of the session that declared the entity.
    pub fn zid(&self) -> (r: ZId)
        ensures
            r == self.spec_zid(),
    {
        self.zid
    }
}

} // verus!
