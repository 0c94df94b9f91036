//! What holds of every dispatch, whatever the connection, the object and the request.

use vstd::prelude::*;
use crate::client::distinct_ids;
use crate::client::is_scheduled;
use crate::client::schedule_keeps_distinct;
use crate::dispatch::deliveries;
use crate::dispatch::outcome_of;
use crate::dispatch::state_after;
use crate::dispatch::Decoded;
use crate::dispatch::Dispatched;
use crate::resource::ResourceInner;
use crate::resource_map::no_revival;
use crate::resource_map::Connection;

verus! {

/// The liveness flag of an object goes from set to cleared and never back: whatever a
/// request does to a connection, no object is alive afterwards that was not alive
/// before, and the object that a destructor request was sent to is not alive.
pub proof fn liveness_only_falls(before: Connection, resource: ResourceInner, since: u32, destructor: bool)
    ensures
        no_revival(before, before.destroyed(resource)),
        no_revival(before, before.after_request(resource, since, destructor)),
        !before.destroyed(resource).alive(resource.id),
{
}

/// Over any number of steps a cleared flag stays cleared.
pub proof fn no_revival_chains(first: Connection, second: Connection, third: Connection)
    requires
        no_revival(first, second),
        no_revival(second, third),
    ensures
        no_revival(first, third),
{
    assert forall|id: u32| #[trigger] third.alive(id) implies first.alive(id) by {
        assert(second.alive(id));
    }
}

/// A request that needs a newer interface version than the object has is malformed: the
/// sink is not called and the connection stays as it was.
pub proof fn newer_request_is_malformed<R>(before: Connection, request: Decoded<R>, resource: ResourceInner)
    requires
        request.since > resource.version,
    ensures
        outcome_of(Ok(request), resource) == Dispatched::BadMsg,
        deliveries(Ok(request), resource) == 0,
        state_after(before, Ok(request), resource) == before,
{
}

/// A message that cannot be decoded is malformed: the sink is not called and the
/// connection stays as it was.
pub proof fn undecodable_message_is_malformed<R>(before: Connection, resource: ResourceInner)
    ensures
        outcome_of(Err::<Decoded<R>, ()>(()), resource) == Dispatched::BadMsg,
        deliveries(Err::<Decoded<R>, ()>(()), resource) == 0,
        state_after(before, Err::<Decoded<R>, ()>(()), resource) == before,
{
}

/// After a destructor request that the object's version has, the object's id is not in
/// the registry any more, whether it was removed now or had been removed before. This
/// holds where the connection data still exists.
pub proof fn destroyed_object_is_unregistered<R>(before: Connection, request: Decoded<R>, resource: ResourceInner)
    requires
        request.destructor,
        request.since <= resource.version,
        before.client.data is Some,
    ensures
        outcome_of(Ok(request), resource) == Dispatched::Yes,
        !state_after(before, Ok(request), resource).objects.contains_key(resource.id),
        state_after(before, Ok(request), resource).client.killed == (before.client.killed
            || !before.objects.contains_key(resource.id)),
{
}

/// A destructor request schedules the destructor callback of its object, and never a
/// second time: a queue without repetitions stays one, whether the object was still
/// registered or not.
pub proof fn destructor_is_scheduled_once(before: Connection, resource: ResourceInner)
    requires
        before.client.data matches Some(queue) && distinct_ids(queue),
    ensures
        before.destroyed(resource).client.data matches Some(queue) && distinct_ids(queue)
            && is_scheduled(queue, resource.id),
{
    schedule_keeps_distinct(before.client.data->0, resource);
}

/// A request that is no destructor and that the object's version has is handled: the
/// sink is called exactly once, and the connection stays as it was.
pub proof fn plain_request_is_delivered_once<R>(before: Connection, request: Decoded<R>, resource: ResourceInner)
    requires
        !request.destructor,
        request.since <= resource.version,
    ensures
        outcome_of(Ok(request), resource) == Dispatched::Yes,
        deliveries(Ok(request), resource) == 1,
        state_after(before, Ok(request), resource) == before,
{
}

/// The mark that ends a connection is never taken back, and no request revives the
/// connection data or lets it go.
pub proof fn termination_is_final(before: Connection, resource: ResourceInner, since: u32, destructor: bool)
    ensures
        before.client.killed ==> before.after_request(resource, since, destructor).client.killed,
        before.after_request(resource, since, destructor).client.data is Some
            == before.client.data is Some,
{
}

} // verus!
