//! What the dispatch core takes over from `wayland_commons` as it is: the raw message,
//! the context of a dispatch call, and the event filter that applications listen on.
//!
//! Verus sees none of these from the inside. The core carries them through; of the one
//! call it makes into them nothing is claimed but that it was made.

use vstd::prelude::*;
use wayland_commons::filter::DispatchData;
use wayland_commons::filter::Filter;
use wayland_commons::wire::Message;

verus! {

/// `wayland_commons::wire::Message`, a raw message of the wire: an opcode and its
/// arguments, not yet typed by an interface. The dispatch core hands it on and never
/// looks into it.
#[verifier::external_type_specification]
#[verifier::external_body]
pub struct ExMessage(Message);

/// `wayland_commons::filter::DispatchData`, the context of one dispatch call. It is
/// handed on to the sink as it came.
#[verifier::external_type_specification]
#[verifier::external_body]
pub struct ExDispatchData<'a>(DispatchData<'a>);

/// `wayland_commons::filter::Filter`, an event filter of the application: the place
/// where sinks send what they receive.
#[verifier::external_type_specification]
#[verifier::external_body]
#[verifier::reject_recursive_types(E)]
pub struct ExFilter<E>(Filter<E>);

/// `Filter::send`: the event is handed to the filter's callback, which is the
/// application's and of which nothing is known here.
#[verifier::external_body]
fn filter_send<E>(filter: &Filter<E>, event: E, data: DispatchData<'_>) {
    filter.send(event, data)
}

/// Whether a send of `event` to `filter`, in the context `data`, has returned. Nothing
/// else is known of a send: what the filter's callback did with the event is the
/// application's business.
pub closed spec fn filter_sent<E>(filter: &Filter<E>, event: E, data: DispatchData<'_>) -> bool {
    call_ensures(filter_send::<E>, (filter, event, data), ())
}

/// Sends `event` to `filter`, in the context `data`.
///
/// The filter runs the application's callback on the spot, or queues the event where the
/// callback is already running. The call comes back when the callback does, and fails
/// where the callback fails; a callback that sends to its own filter while a queued
/// event is being handled is such a failure.
pub fn send_to<E>(filter: &Filter<E>, event: E, data: DispatchData<'_>)
    ensures
        filter_sent(filter, event, data),
{
    let send = filter_send::<E>;
    send(filter, event, data);
}

} // verus!
