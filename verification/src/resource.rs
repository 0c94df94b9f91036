//! Handles to protocol objects.

use vstd::prelude::*;

verus! {

/// The interface name under which an object of any interface is accepted.
pub const ANONYMOUS: &'static str = "<anonymous>";

/// A handle to one protocol object of a connection: its id, and the interface and the
/// version that were fixed when the object was created.
///
/// The handle does not own the object. The object's record, with its liveness flag,
/// stays in the connection's registry and is reached through the id.
#[derive(Clone, Copy, Debug)]
pub struct ResourceInner {
    pub id: u32,
    pub interface: &'static str,
    pub version: u32,
}

impl ResourceInner {
    /// The object's id within its connection.
    pub fn id(&self) -> (id: u32)
        ensures
            id == self.id,
    {
        self.id
    }

    /// The interface version that was negotiated for the object.
    pub fn version(&self) -> (version: u32)
        ensures
            version == self.version,
    {
        self.version
    }

    /// Whether the object's version has a request that exists from the interface version
    /// `since` on.
    pub fn supports(&self, since: u32) -> (supported: bool)
        ensures
            supported == (since <= self.version),
    {
        since <= self.version
    }

    /// The name of the object's interface.
    pub fn interface(&self) -> (interface: &'static str)
        ensures
            interface == self.interface,
    {
        self.interface
    }
}

/// A handle as it is given to application code for an object that already exists.
#[derive(Clone, Copy, Debug)]
pub struct Resource {
    pub inner: ResourceInner,
}

impl Resource {
    /// Wraps a bare handle.
    pub fn wrap(inner: ResourceInner) -> (resource: Resource)
        ensures
            resource == (Resource { inner }),
    {
        Resource { inner }
    }

    /// The bare handle.
    pub fn as_inner(&self) -> (inner: ResourceInner)
        ensures
            inner == self.inner,
    {
        self.inner
    }
}

/// A handle that carries the right to attach the object's behaviour for the first time.
/// It is what a request sink receives, and what resolving a newly introduced id yields.
#[derive(Clone, Copy, Debug)]
pub struct Main {
    pub inner: ResourceInner,
}

impl Main {
    /// Wraps a bare handle.
    pub fn wrap(inner: ResourceInner) -> (main: Main)
        ensures
            main == (Main { inner }),
    {
        Main { inner }
    }

    /// The bare handle.
    pub fn as_inner(&self) -> (inner: ResourceInner)
        ensures
            inner == self.inner,
    {
        self.inner
    }
}

} // verus!
