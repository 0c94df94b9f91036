//! Destructor capabilities: what is told to the application when an object is reclaimed.

use vstd::prelude::*;
use vstd::std_specs::convert::FromSpec;
use wayland_commons::filter::DispatchData;
use wayland_commons::filter::Filter;
use crate::commons::filter_sent;
use crate::commons::send_to;
use crate::resource::Resource;
use crate::resource::ResourceInner;

verus! {

/// The capability that is called when an object is reclaimed, whether a destructor
/// request or the end of the connection led to it. It gets the handle and the context of
/// the call, and passes them to the application's sink.
pub struct ResourceDestructor<F: FnMut(ResourceInner, DispatchData<'_>)> {
    implementation: F,
    calls: Ghost<nat>,
}

impl<F: FnMut(ResourceInner, DispatchData<'_>)> ResourceDestructor<F> {
    /// Whether the sink takes every input.
    pub closed spec fn callable(&self) -> bool {
        forall|resource: ResourceInner, data: DispatchData<'_>|
            call_requires(self.implementation, (resource, data))
    }

    /// How often the sink has been called through this capability.
    pub closed spec fn sink_calls(&self) -> nat {
        self.calls@
    }

    /// What holds once the sink has returned from `resource`.
    pub closed spec fn notified(&self, resource: ResourceInner, data: DispatchData<'_>) -> bool {
        call_ensures(self.implementation, (resource, data), ())
    }

    /// Whether `other` has the sink of this capability.
    pub closed spec fn same_sink(&self, other: &Self) -> bool {
        self.implementation == other.implementation
    }

    /// Capabilities of the same sink notify alike.
    pub proof fn same_sink_same_behaviour(&self, other: &Self)
        requires
            self.same_sink(other),
        ensures
            self.callable() == other.callable(),
            forall|resource: ResourceInner, data: DispatchData<'_>|
                self.notified(resource, data) == other.notified(resource, data),
    {
    }

    /// Binds a sink, which must take every input.
    pub fn new(implementation: F) -> (destructor: Self)
        requires
            forall|resource: ResourceInner, data: DispatchData<'_>|
                call_requires(implementation, (resource, data)),
        ensures
            destructor.callable(),
            destructor.sink_calls() == 0,
            forall|resource: ResourceInner, data: DispatchData<'_>|
                destructor.notified(resource, data) == call_ensures(
                    implementation,
                    (resource, data),
                    (),
                ),
    {
        ResourceDestructor { implementation, calls: Ghost(0) }
    }

    /// Tells the sink, once, that the object of `resource` has been reclaimed.
    pub fn call(&mut self, resource: ResourceInner, data: DispatchData<'_>)
        requires
            old(self).callable(),
        ensures
            old(self).notified(resource, data),
            final(self).sink_calls() == old(self).sink_calls() + 1,
            final(self).same_sink(old(self)),
            final(self).callable(),
    {
        (self.implementation)(resource, data);
        proof {
            self.calls@ = self.calls@ + 1;
        }
    }
}

/// A destructor capability that sends the handle of each reclaimed object to `filter`
/// as one event: a notification is a send to `filter`, in the context of the call, of
/// the event that `E` makes from the wrapped handle.
pub fn make_destructor<E: From<Resource>>(filter: Filter<E>) -> (destructor: ResourceDestructor<
    impl FnMut(ResourceInner, DispatchData<'_>),
>)
    ensures
        destructor.callable(),
        destructor.sink_calls() == 0,
        forall|resource: ResourceInner, data: DispatchData<'_>| #[trigger]
            destructor.notified(resource, data) ==> exists|event: E| #[trigger]
                filter_sent(&filter, event, data) && (E::obeys_from_spec() ==> event
                    == E::from_spec(Resource { inner: resource })),
{
    let implementation = move |resource: ResourceInner, data: DispatchData<'_>|
        ensures
            exists|event: E| #[trigger]
                filter_sent(&filter, event, data) && (E::obeys_from_spec() ==> event
                    == E::from_spec(Resource { inner: resource })),
        {
            let event = E::from(Resource::wrap(resource));
            send_to(&filter, event, data);
        };
    ResourceDestructor::new(implementation)
}

} // verus!
