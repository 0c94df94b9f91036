//! The object registry of one connection.
//!
//! The table itself is `wayland_commons::map::ObjectMap`. Verus cannot look into it, so
//! this module names what the table holds ([`registry_objects`]) and states, for each call
//! into it, what the call does to that content. Those statements are believed, not proved;
//! everything built on them is proved.

use vstd::prelude::*;
use wayland_commons::map::Object;
use wayland_commons::map::ObjectMap;
use wayland_commons::map::ObjectMetadata;

verus! {

/// Ids below this limit are allocated by the client, ids from it on by the server.
pub const SERVER_ID_LIMIT: u32 = 0xFF00_0000;

/// What the registry knows of one protocol object.
///
/// The interface and the version are fixed when the object is registered. The liveness
/// flag starts out `true` and is only ever cleared.
#[derive(Clone, Copy, Debug)]
pub struct ObjectInfo {
    pub interface: &'static str,
    pub version: u32,
    pub alive: bool,
}

/// The part of an object's record that the table stores as its metadata.
#[derive(Clone, Copy, Debug)]
pub struct ObjectMeta {
    pub alive: bool,
}

impl ObjectMeta {
    /// Clears the liveness flag.
    pub fn retire(&mut self)
        ensures
            !final(self).alive,
    {
        self.alive = false;
    }
}

impl ObjectMetadata for ObjectMeta {
    /// The metadata of an object that an object with this metadata creates: the child
    /// starts out alive.
    fn child(&self) -> (child: ObjectMeta)
        ensures
            child.alive,
    {
        ObjectMeta { alive: true }
    }
}

/// The table from object id to object record of one connection.
///
/// It holds a `wayland_commons::map::ObjectMap`, whose declaration Verus does not take
/// (its metadata parameter is bound by a trait of that crate), so the whole struct is
/// opaque to the verifier and is read through [`registry_objects`] only.
#[verifier::external_body]
pub struct Registry {
    map: ObjectMap<ObjectMeta>,
}

/// What a registry holds: for each id that `ObjectMap::find` finds, the record found.
pub uninterp spec fn registry_objects(registry: Registry) -> Map<u32, ObjectInfo>;

impl View for Registry {
    type V = Map<u32, ObjectInfo>;

    open spec fn view(&self) -> Map<u32, ObjectInfo> {
        registry_objects(*self)
    }
}

/// `ObjectMap::new`: the new table holds no object.
#[verifier::external_body]
fn object_map_new() -> (created: Registry)
    ensures
        registry_objects(created) == (Map::<u32, ObjectInfo>::empty()),
{
    Registry { map: ObjectMap::new() }
}

/// `ObjectMap::find`: the record stored under `id`, if there is one. The table is not
/// changed. The object's interface, version and liveness flag are copied out.
#[verifier::external_body]
fn object_map_find(registry: &Registry, id: u32) -> (found: Option<ObjectInfo>)
    ensures
        found == if registry_objects(*registry).contains_key(id) {
            Some(registry_objects(*registry)[id])
        } else {
            None
        },
{
    registry.map.find(id).map(
        |object| ObjectInfo {
            interface: object.interface,
            version: object.version,
            alive: object.meta.alive,
        },
    )
}

/// `ObjectMap::remove`: afterwards nothing is stored under `id`; every other id keeps its
/// record. Removing an id that holds nothing changes nothing.
#[verifier::external_body]
fn object_map_remove(registry: &mut Registry, id: u32)
    ensures
        registry_objects(*final(registry)) == registry_objects(*old(registry)).remove(id),
{
    registry.map.remove(id)
}

/// `ObjectMap::with`, handed [`ObjectMeta::retire`]: fails and changes nothing where no
/// object is stored under `id`; otherwise that object's liveness flag is cleared and the
/// rest of its record, and every other record, stays.
#[verifier::external_body]
fn object_map_retire(registry: &mut Registry, id: u32) -> (done: Result<(), ()>)
    ensures
        done is Ok <==> registry_objects(*old(registry)).contains_key(id),
        done is Err ==> registry_objects(*final(registry)) == registry_objects(*old(registry)),
        done is Ok ==> registry_objects(*final(registry)) == registry_objects(*old(registry)).insert(
            id,
            (ObjectInfo { alive: false, ..registry_objects(*old(registry))[id] }),
        ),
{
    registry.map.with(id, |object| object.meta.retire())
}

/// `ObjectMap::client_insert_new`, on an object made by `Object::placeholder` and given
/// the interface and version: the object is stored in the first free slot of the client's
/// id range, and the id of that slot is returned. Every smaller client id was already
/// taken. The precondition keeps the slot inside the client's range.
#[verifier::external_body]
fn object_map_insert(registry: &mut Registry, interface: &'static str, version: u32, alive: bool) -> (id: u32)
    requires
        exists|free: u32|
            1 <= free < SERVER_ID_LIMIT && !#[trigger] registry_objects(*old(registry)).contains_key(
                free,
            ),
    ensures
        1 <= id < SERVER_ID_LIMIT,
        !registry_objects(*old(registry)).contains_key(id),
        forall|lower: u32|
            1 <= lower < id ==> #[trigger] registry_objects(*old(registry)).contains_key(lower),
        registry_objects(*final(registry)) == registry_objects(*old(registry)).insert(
            id,
            (ObjectInfo { interface, version, alive }),
        ),
{
    let mut object = Object::placeholder(ObjectMeta { alive });
    object.interface = interface;
    object.version = version;
    registry.map.client_insert_new(object)
}

impl Registry {
    /// Whether an object is registered under `id`.
    pub open spec fn contains(&self, id: u32) -> bool {
        self@.contains_key(id)
    }

    /// Whether some id of the client's range is still free.
    pub open spec fn has_room(&self) -> bool {
        exists|free: u32| 1 <= free < SERVER_ID_LIMIT && !#[trigger] self@.contains_key(free)
    }

    /// An empty registry.
    pub fn new() -> (registry: Registry)
        ensures
            registry@ == (Map::<u32, ObjectInfo>::empty()),
    {
        object_map_new()
    }

    /// Registers a new, live object under the lowest free client id and returns that id.
    pub fn register(&mut self, interface: &'static str, version: u32) -> (id: u32)
        requires
            old(self).has_room(),
        ensures
            1 <= id < SERVER_ID_LIMIT,
            !old(self)@.contains_key(id),
            forall|lower: u32| 1 <= lower < id ==> #[trigger] old(self)@.contains_key(lower),
            final(self)@ == old(self)@.insert(id, (ObjectInfo { interface, version, alive: true })),
    {
        object_map_insert(self, interface, version, true)
    }

    /// The record of the object registered under `id`, if any.
    pub fn find(&self, id: u32) -> (found: Option<ObjectInfo>)
        ensures
            found == if self.contains(id) {
                Some(self@[id])
            } else {
                None
            },
    {
        object_map_find(self, id)
    }

    /// Clears the liveness flag of the object under `id`, if there is one. A flag that is
    /// already cleared stays cleared.
    pub fn retire(&mut self, id: u32)
        ensures
            final(self)@ == retired(old(self)@, id),
    {
        let _ = object_map_retire(self, id);
    }

    /// Removes `id` from the registry. Fails, and changes nothing, where `id` is not
    /// registered.
    pub fn delete(&mut self, id: u32) -> (done: Result<(), ()>)
        ensures
            done is Ok <==> old(self).contains(id),
            final(self)@ == old(self)@.remove(id),
    {
        match object_map_find(self, id) {
            Some(_) => {
                object_map_remove(self, id);
                Ok(())
            },
            None => {
                assert(self@.remove(id) =~= self@);
                Err(())
            },
        }
    }
}

/// The registry content after the liveness flag under `id` has been cleared.
pub open spec fn retired(objects: Map<u32, ObjectInfo>, id: u32) -> Map<u32, ObjectInfo> {
    if objects.contains_key(id) {
        objects.insert(id, ObjectInfo { alive: false, ..objects[id] })
    } else {
        objects
    }
}

} // verus!
