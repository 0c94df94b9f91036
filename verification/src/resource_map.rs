//! The view of one connection that a dispatch call works on: its registry and its client.
//!
//! Resolving an id goes through here, and so does everything a destructor request does
//! to the connection.

use vstd::prelude::*;
use crate::client::schedule;
use crate::client::ClientInner;
use crate::client::ClientState;
use crate::registry::retired;
use crate::registry::ObjectInfo;
use crate::registry::Registry;
use crate::resource::Main;
use crate::resource::Resource;
use crate::resource::ResourceInner;
use crate::resource::ANONYMOUS;

verus! {

/// The state of a connection: the registered objects and the state of the client.
pub struct Connection {
    pub objects: Map<u32, ObjectInfo>,
    pub client: ClientState,
}

impl Connection {
    /// Whether `id` names a registered object whose liveness flag is still set.
    pub open spec fn alive(self, id: u32) -> bool {
        self.objects.contains_key(id) && self.objects[id].alive
    }

    /// The handle that resolving `id` yields.
    pub open spec fn handle(self, id: u32) -> ResourceInner {
        ResourceInner {
            id,
            interface: self.objects[id].interface,
            version: self.objects[id].version,
        }
    }

    /// Whether the object registered under `id`, if any, has the interface `interface`.
    pub open spec fn is_interface(self, id: u32, interface: Seq<char>) -> bool {
        self.objects.contains_key(id) ==> self.objects[id].interface@ == interface
    }

    /// The state after the object of `resource` has asked for its own destruction.
    ///
    /// The liveness flag is cleared. Where the connection data still exists, the
    /// destructor callback is scheduled and the id leaves the registry; where the id was
    /// not registered any more, the connection is marked for termination.
    pub open spec fn destroyed(self, resource: ResourceInner) -> Connection {
        match self.client.data {
            None => Connection { objects: retired(self.objects, resource.id), client: self.client },
            Some(queue) => Connection {
                objects: self.objects.remove(resource.id),
                client: ClientState {
                    data: Some(schedule(queue, resource)),
                    killed: self.client.killed || !self.objects.contains_key(resource.id),
                },
            },
        }
    }

    /// Whether a request that needs the interface version `since` may be sent to the
    /// object of `resource`.
    pub open spec fn permits(resource: ResourceInner, since: u32) -> bool {
        since <= resource.version
    }

    /// The state after a decoded request for `resource` has been judged: a request that
    /// the negotiated version does not have changes nothing, a destructor destroys the
    /// object, and any other request leaves the connection as it is.
    pub open spec fn after_request(self, resource: ResourceInner, since: u32, destructor: bool) -> Connection {
        if Self::permits(resource, since) && destructor {
            self.destroyed(resource)
        } else {
            self
        }
    }
}

/// Whether no object is alive in `after` that was not alive in `before`: a liveness flag,
/// once cleared, is never set again.
pub open spec fn no_revival(before: Connection, after: Connection) -> bool {
    forall|id: u32| #[trigger] after.alive(id) ==> before.alive(id)
}

/// A connection's registry together with its client, as a dispatch call sees them.
pub struct ResourceMap {
    pub map: Registry,
    pub client: ClientInner,
}

impl View for ResourceMap {
    type V = Connection;

    open spec fn view(&self) -> Connection {
        Connection { objects: self.map@, client: self.client@ }
    }
}

impl ResourceMap {
    /// Puts a registry and a client together.
    pub fn make(map: Registry, client: ClientInner) -> (made: ResourceMap)
        ensures
            made.map == map,
            made.client == client,
    {
        ResourceMap { map, client }
    }

    /// Resolves `id` to a handle: `Some` exactly where an object is registered under
    /// `id`, with the interface and version of that object.
    pub fn resolve(&self, id: u32) -> (found: Option<ResourceInner>)
        ensures
            found == if self@.objects.contains_key(id) {
                Some(self@.handle(id))
            } else {
                None
            },
    {
        match self.map.find(id) {
            Some(info) => Some(ResourceInner { id, interface: info.interface, version: info.version }),
            None => None,
        }
    }

    /// Returns the `Resource` corresponding to a given id, expected to be of the
    /// interface `interface`.
    ///
    /// The caller vouches for the interface: an object registered under `id` has it,
    /// unless any interface is accepted.
    pub fn get(&self, id: u32, interface: &str) -> (found: Option<Resource>)
        requires
            interface@ == ANONYMOUS@ || self@.is_interface(id, interface@),
        ensures
            found == if self@.objects.contains_key(id) {
                Some(Resource { inner: self@.handle(id) })
            } else {
                None
            },
            found matches Some(resource) ==> interface@ == ANONYMOUS@
                || resource.inner.interface@ == interface@,
    {
        match self.resolve(id) {
            Some(inner) => Some(Resource::wrap(inner)),
            None => None,
        }
    }

    /// Creates a `Main` handle for a given id that a request has just introduced,
    /// expected to be of the interface `interface`.
    pub fn get_new(&self, id: u32, interface: &str) -> (found: Option<Main>)
        requires
            self@.is_interface(id, interface@),
        ensures
            found == if self@.objects.contains_key(id) {
                Some(Main { inner: self@.handle(id) })
            } else {
                None
            },
            found matches Some(main) ==> main.inner.interface@ == interface@,
    {
        match self.resolve(id) {
            Some(inner) => Some(Main::wrap(inner)),
            None => None,
        }
    }

    /// Whether the object of `resource` is registered with its liveness flag set.
    pub fn is_alive(&self, resource: &ResourceInner) -> (alive: bool)
        ensures
            alive == self@.alive(resource.id),
    {
        match self.map.find(resource.id) {
            Some(info) => info.alive,
            None => false,
        }
    }

    /// Carries out the destruction that the object of `resource` has asked for.
    pub fn destroy(&mut self, resource: ResourceInner)
        ensures
            final(self)@ == old(self)@.destroyed(resource),
            !final(self)@.alive(resource.id),
            no_revival(old(self)@, final(self)@),
    {
        self.map.retire(resource.id);
        if self.client.has_data() {
            self.client.schedule_destructor(resource);
            let removed = self.map.delete(resource.id);
            if removed.is_err() {
                self.client.kill();
            }
            proof {
                assert(retired(old(self)@.objects, resource.id).remove(resource.id) =~= old(
                    self,
                )@.objects.remove(resource.id));
            }
        }
    }

    /// Judges a decoded request for `resource` that needs the interface version `since`,
    /// and carries out what it does to the connection. Returns whether the request is to
    /// be delivered to the sink.
    pub fn judge(&mut self, resource: ResourceInner, since: u32, destructor: bool) -> (deliver: bool)
        ensures
            deliver == Connection::permits(resource, since),
            final(self)@ == old(self)@.after_request(resource, since, destructor),
            no_revival(old(self)@, final(self)@),
    {
        if !resource.supports(since) {
            return false;
        }
        if destructor {
            self.destroy(resource);
        }
        true
    }
}

} // verus!
