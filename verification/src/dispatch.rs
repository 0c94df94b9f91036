//! Dispatch capabilities: what turns a raw message for an object into a decoded request
//! delivered to application code.

use vstd::prelude::*;
use vstd::std_specs::convert::FromSpec;
use wayland_commons::filter::DispatchData;
use wayland_commons::filter::Filter;
use wayland_commons::wire::Message;
use crate::commons::filter_sent;
use crate::commons::send_to;
use crate::resource::Main;
use crate::resource::ResourceInner;
use crate::resource_map::no_revival;
use crate::resource_map::Connection;
use crate::resource_map::ResourceMap;

verus! {

/// The outcome of one dispatch attempt.
pub enum Dispatched {
    /// The request was handled.
    Yes,
    /// Nothing was done: message and handle come back, and the caller applies the
    /// protocol's default behaviour.
    NoDispatch(Message, ResourceInner),
    /// The message could not be decoded, or asks for more than the negotiated version
    /// has: a protocol violation of the client.
    BadMsg,
}

/// A request as a decoder hands it over: the typed request, the interface version from
/// which it exists, and whether it destroys the object it is sent to.
pub struct Decoded<R> {
    pub request: R,
    pub since: u32,
    pub destructor: bool,
}

/// The behaviour bound to an object.
///
/// Whatever a capability is, one dispatch either leaves the connection as it is or does
/// to it what a destructor request does, and only a handled request may do the latter.
pub trait Dispatcher {
    /// Whether this is the capability of an object that has no behaviour attached.
    spec fn is_default(&self) -> bool;

    /// Whether the capability can be called: what it is made of takes every input.
    spec fn ready(&self) -> bool;

    /// Tells whether this is the default capability.
    fn default_capability(&self) -> (default: bool)
        ensures
            default == self.is_default(),
    ;

    /// Dispatches one message addressed to the object of `resource`.
    fn dispatch(
        &mut self,
        msg: Message,
        resource: ResourceInner,
        map: &mut ResourceMap,
        data: DispatchData<'_>,
    ) -> (outcome: Dispatched)
        requires
            old(self).ready(),
        ensures
            final(self).ready(),
            outcome is NoDispatch ==> outcome == Dispatched::NoDispatch(msg, resource) && final(map)@
                == old(map)@,
            outcome is BadMsg ==> final(map)@ == old(map)@,
            outcome is Yes ==> final(map)@ == old(map)@ || final(map)@ == old(map)@.destroyed(
                resource,
            ),
            old(self).is_default() ==> outcome is NoDispatch,
            final(self).is_default() == old(self).is_default(),
            no_revival(old(map)@, final(map)@),
    ;
}

/// The capability of an object without attached behaviour. It defers every message.
pub struct DefaultDisp;

impl Dispatcher for DefaultDisp {
    open spec fn is_default(&self) -> bool {
        true
    }

    open spec fn ready(&self) -> bool {
        true
    }

    fn default_capability(&self) -> (default: bool) {
        true
    }

    /// Hands message and handle back untouched, whatever the message, the object's
    /// version or its liveness.
    fn dispatch(
        &mut self,
        msg: Message,
        resource: ResourceInner,
        map: &mut ResourceMap,
        data: DispatchData<'_>,
    ) -> (outcome: Dispatched)
        ensures
            outcome == Dispatched::NoDispatch(msg, resource),
            *final(map) == *old(map),
    {
        Dispatched::NoDispatch(msg, resource)
    }
}

/// A capability made of a decoder and a sink: messages are decoded into requests of type
/// `R`, checked against the object's version, and delivered to the sink.
#[verifier::reject_recursive_types(R)]
pub struct ImplDispatcher<
    R,
    D: Fn(Message, &ResourceMap) -> Result<Decoded<R>, ()>,
    F: FnMut(R, Main, DispatchData<'_>),
> {
    decode: D,
    implementation: F,
    calls: Ghost<nat>,
    _request: core::marker::PhantomData<R>,
}

impl<
    R,
    D: Fn(Message, &ResourceMap) -> Result<Decoded<R>, ()>,
    F: FnMut(R, Main, DispatchData<'_>),
> ImplDispatcher<R, D, F> {
    /// What the decoder may return for `msg` on the connection `map`.
    pub closed spec fn decodes(&self, msg: Message, map: ResourceMap, decoded: Result<Decoded<R>, ()>) -> bool {
        call_ensures(self.decode, (msg, &map), decoded)
    }

    /// How often the sink has been called through this capability.
    pub closed spec fn sink_calls(&self) -> nat {
        self.calls@
    }

    /// Whether `other` has the decoder and the sink of this capability.
    pub closed spec fn same_parts(&self, other: &Self) -> bool {
        self.decode == other.decode && self.implementation == other.implementation
    }

    /// Capabilities of the same parts decode and deliver alike.
    pub proof fn same_parts_same_behaviour(&self, other: &Self)
        requires
            self.same_parts(other),
        ensures
            self.ready() == other.ready(),
            forall|msg: Message, map: ResourceMap, decoded: Result<Decoded<R>, ()>|
                self.decodes(msg, map, decoded) == other.decodes(msg, map, decoded),
            forall|request: R, main: Main, data: DispatchData<'_>|
                self.delivered(request, main, data) == other.delivered(request, main, data),
    {
    }

    /// What holds once the sink has returned from `request`.
    pub closed spec fn delivered(&self, request: R, main: Main, data: DispatchData<'_>) -> bool {
        call_ensures(self.implementation, (request, main, data), ())
    }

    /// Binds a decoder and a sink. Both must take every input.
    pub fn new(decode: D, implementation: F) -> (dispatcher: Self)
        requires
            forall|msg: Message, map: &ResourceMap| call_requires(decode, (msg, map)),
            forall|request: R, main: Main, data: DispatchData<'_>|
                call_requires(implementation, (request, main, data)),
        ensures
            dispatcher.ready(),
            !dispatcher.is_default(),
            dispatcher.sink_calls() == 0,
            forall|msg: Message, map: ResourceMap, decoded: Result<Decoded<R>, ()>|
                dispatcher.decodes(msg, map, decoded) == call_ensures(decode, (msg, &map), decoded),
            forall|request: R, main: Main, data: DispatchData<'_>|
                dispatcher.delivered(request, main, data) == call_ensures(
                    implementation,
                    (request, main, data),
                    (),
                ),
    {
        ImplDispatcher {
            decode,
            implementation,
            calls: Ghost(0),
            _request: core::marker::PhantomData,
        }
    }

    /// Carries on from the decoder's answer: a failed decoding and a request that the
    /// negotiated version does not have are malformed, leave the connection alone and do
    /// not reach the sink; any other request is judged, then delivered to the sink once,
    /// and is handled.
    pub fn deliver(
        &mut self,
        decoded: Result<Decoded<R>, ()>,
        resource: ResourceInner,
        map: &mut ResourceMap,
        data: DispatchData<'_>,
    ) -> (outcome: Dispatched)
        requires
            old(self).ready(),
        ensures
            outcome == outcome_of(decoded, resource),
            final(map)@ == state_after(old(map)@, decoded, resource),
            match decoded {
                Ok(request) => Connection::permits(resource, request.since) ==> old(self).delivered(
                    request.request,
                    (Main { inner: resource }),
                    data,
                ),
                Err(_) => true,
            },
            final(self).sink_calls() == old(self).sink_calls() + deliveries(decoded, resource),
            final(self).same_parts(old(self)),
            final(self).ready(),
            no_revival(old(map)@, final(map)@),
    {
        match decoded {
            Err(_) => Dispatched::BadMsg,
            Ok(message) => {
                if !map.judge(resource, message.since, message.destructor) {
                    return Dispatched::BadMsg;
                }
                (self.implementation)(message.request, Main::wrap(resource), data);
                proof {
                    self.calls@ = self.calls@ + 1;
                }
                Dispatched::Yes
            },
        }
    }
}

/// The outcome that the decoder's answer leads to.
pub open spec fn outcome_of<R>(decoded: Result<Decoded<R>, ()>, resource: ResourceInner) -> Dispatched {
    match decoded {
        Ok(request) => if Connection::permits(resource, request.since) {
            Dispatched::Yes
        } else {
            Dispatched::BadMsg
        },
        Err(_) => Dispatched::BadMsg,
    }
}

/// The connection after the decoder's answer has been acted on.
pub open spec fn state_after<R>(
    before: Connection,
    decoded: Result<Decoded<R>, ()>,
    resource: ResourceInner,
) -> Connection {
    match decoded {
        Ok(request) => before.after_request(resource, request.since, request.destructor),
        Err(_) => before,
    }
}

/// How often the sink is called for the decoder's answer.
pub open spec fn deliveries<R>(decoded: Result<Decoded<R>, ()>, resource: ResourceInner) -> nat {
    match decoded {
        Ok(request) => if Connection::permits(resource, request.since) {
            1
        } else {
            0
        },
        Err(_) => 0,
    }
}

impl<
    R,
    D: Fn(Message, &ResourceMap) -> Result<Decoded<R>, ()>,
    F: FnMut(R, Main, DispatchData<'_>),
> Dispatcher for ImplDispatcher<R, D, F> {
    open spec fn is_default(&self) -> bool {
        false
    }

    /// Decoder and sink take every input.
    closed spec fn ready(&self) -> bool {
        &&& forall|msg: Message, map: &ResourceMap| call_requires(self.decode, (msg, map))
        &&& forall|request: R, main: Main, data: DispatchData<'_>|
            call_requires(self.implementation, (request, main, data))
    }

    fn default_capability(&self) -> (default: bool) {
        false
    }

    /// Decodes the message, then carries on as [`ImplDispatcher::deliver`] says for
    /// what the decoder answered.
    fn dispatch(
        &mut self,
        msg: Message,
        resource: ResourceInner,
        map: &mut ResourceMap,
        data: DispatchData<'_>,
    ) -> (outcome: Dispatched)
        ensures
            exists|decoded: Result<Decoded<R>, ()>|
                {
                    &&& #[trigger] old(self).decodes(msg, *old(map), decoded)
                    &&& outcome == outcome_of(decoded, resource)
                    &&& final(map)@ == state_after(old(map)@, decoded, resource)
                    &&& match decoded {
                        Ok(request) => Connection::permits(resource, request.since) ==> old(
                            self,
                        ).delivered(request.request, (Main { inner: resource }), data),
                        Err(_) => true,
                    }
                    &&& final(self).sink_calls() == old(self).sink_calls() + deliveries(
                        decoded,
                        resource,
                    )
                },
            final(self).same_parts(old(self)),
    {
        let decoded = (self.decode)(msg, &*map);
        assert(old(self).decodes(msg, *old(map), decoded));
        self.deliver(decoded, resource, map, data)
    }
}

/// A capability that decodes with `decode` and sends each admitted request, together
/// with the handle of its object, to `filter` as one event: a delivery is a send to
/// `filter`, in the context of the call, of the event that `E` makes from handle and
/// request.
pub fn make_dispatcher<
    R,
    E: From<(Main, R)>,
    D: Fn(Message, &ResourceMap) -> Result<Decoded<R>, ()>,
>(decode: D, filter: Filter<E>) -> (dispatcher: ImplDispatcher<
    R,
    D,
    impl FnMut(R, Main, DispatchData<'_>),
>)
    requires
        forall|msg: Message, map: &ResourceMap| call_requires(decode, (msg, map)),
    ensures
        dispatcher.ready(),
        !dispatcher.is_default(),
        dispatcher.sink_calls() == 0,
        forall|msg: Message, map: ResourceMap, decoded: Result<Decoded<R>, ()>|
            dispatcher.decodes(msg, map, decoded) == call_ensures(decode, (msg, &map), decoded),
        forall|request: R, main: Main, data: DispatchData<'_>| #[trigger]
            dispatcher.delivered(request, main, data) ==> exists|event: E| #[trigger]
                filter_sent(&filter, event, data) && (E::obeys_from_spec() ==> event
                    == E::from_spec((main, request))),
{
    let implementation = move |request: R, main: Main, data: DispatchData<'_>|
        ensures
            exists|event: E| #[trigger]
                filter_sent(&filter, event, data) && (E::obeys_from_spec() ==> event
                    == E::from_spec((main, request))),
        {
            let event = E::from((main, request));
            send_to(&filter, event, data);
        };
    ImplDispatcher::new(decode, implementation)
}

/// The capability for an object that has no behaviour attached.
pub fn default_dispatcher() -> (dispatcher: DefaultDisp)
    ensures
        dispatcher.is_default(),
        dispatcher.ready(),
{
    DefaultDisp
}

} // verus!
