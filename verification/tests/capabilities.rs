use std::cell::RefCell;
use std::rc::Rc;

use wayland_commons::filter::{DispatchData, Filter};
use wayland_commons::wire::{Argument, Message};
use wayland_dispatch::client::ClientInner;
use wayland_dispatch::commons::send_to;
use wayland_dispatch::destructor::{make_destructor, ResourceDestructor};
use wayland_dispatch::dispatch::{
    default_dispatcher, make_dispatcher, Decoded, DefaultDisp, Dispatched, Dispatcher, ImplDispatcher,
};
use wayland_dispatch::registry::Registry;
use wayland_dispatch::resource::{Main, Resource, ResourceInner};
use wayland_dispatch::resource_map::ResourceMap;

#[derive(Debug, Clone, PartialEq)]
enum Ping {
    Ping { serial: u32 },
    Release,
    Bind { target: ResourceInnerCopy },
}

#[derive(Debug, Clone, PartialEq)]
struct ResourceInnerCopy {
    id: u32,
    version: u32,
}

/// opcode 0: ping(uint), since 2; opcode 1: release(), since 1, destructor;
/// opcode 2: bind(object), since 1, whose argument must name a registered object.
fn decode_ping(msg: Message, map: &ResourceMap) -> Result<Decoded<Ping>, ()> {
    match (msg.opcode, msg.args.as_slice()) {
        (0, [Argument::Uint(serial)]) => {
            Ok(Decoded { request: Ping::Ping { serial: *serial }, since: 2, destructor: false })
        }
        (1, []) => Ok(Decoded { request: Ping::Release, since: 1, destructor: true }),
        (2, [Argument::Object(id)]) => {
            let target = map.get(*id, "<anonymous>").ok_or(())?;
            let inner = target.as_inner();
            Ok(Decoded {
                request: Ping::Bind {
                    target: ResourceInnerCopy { id: inner.id(), version: inner.version() },
                },
                since: 1,
                destructor: false,
            })
        }
        _ => Err(()),
    }
}

fn raw(sender_id: u32, opcode: u16, args: Vec<Argument>) -> Message {
    let mut msg = Message { sender_id, opcode, args: Default::default() };
    for arg in args {
        msg.args.push(arg);
    }
    msg
}

fn pingers(count: u32, version: u32, client: ClientInner) -> ResourceMap {
    let mut registry = Registry::new();
    for _ in 0..count {
        registry.register("xdg_pinger", version);
    }
    ResourceMap::make(registry, client)
}

enum Event {
    Request(Main, Ping),
    Destroyed(Resource),
}

impl From<(Main, Ping)> for Event {
    fn from((main, request): (Main, Ping)) -> Event {
        Event::Request(main, request)
    }
}

impl From<Resource> for Event {
    fn from(resource: Resource) -> Event {
        Event::Destroyed(resource)
    }
}

type Seen = Rc<RefCell<Vec<String>>>;

fn listening(seen: &Seen) -> Filter<Event> {
    let seen = seen.clone();
    Filter::new(move |event: Event, _filter: &Filter<Event>, _data: DispatchData<'_>| match event {
        Event::Request(main, request) => {
            seen.borrow_mut().push(format!("{}:{:?}", main.as_inner().id(), request))
        }
        Event::Destroyed(resource) => {
            seen.borrow_mut().push(format!("{}:destroyed", resource.as_inner().id()))
        }
    })
}

#[test]
fn default_capability_defers_everything() {
    let mut map = pingers(3, 1, ClientInner::new());
    let mut capability = default_dispatcher();
    assert!(capability.default_capability());
    let resource = map.resolve(2).unwrap();
    let mut ctx = ();
    // a request of a newer version, a destructor and a malformed message alike
    for (opcode, args) in [
        (0u16, vec![Argument::Uint(7)]),
        (1u16, vec![]),
        (9u16, vec![Argument::Int(-1), Argument::Int(-2)]),
    ] {
        let sent = raw(2, opcode, args);
        let outcome =
            capability.dispatch(sent.clone(), resource, &mut map, DispatchData::wrap(&mut ctx));
        match outcome {
            Dispatched::NoDispatch(msg, handle) => {
                assert_eq!(msg, sent);
                assert_eq!(handle.id(), 2);
                assert_eq!(handle.version(), 1);
                assert_eq!(handle.interface(), "xdg_pinger");
            }
            _ => panic!("the default capability handled a message"),
        }
        assert!(map.is_alive(&resource));
        assert!(map.resolve(2).is_some());
        assert!(map.client.scheduled().is_empty());
        assert!(!map.client.is_killed());
    }
}

#[test]
fn default_capability_defers_for_dead_objects_too() {
    let mut map = pingers(1, 1, ClientInner::gone());
    let resource = map.resolve(1).unwrap();
    map.destroy(resource);
    assert!(!map.is_alive(&resource));
    let mut ctx = ();
    let outcome =
        DefaultDisp.dispatch(raw(1, 0, vec![]), resource, &mut map, DispatchData::wrap(&mut ctx));
    assert!(matches!(outcome, Dispatched::NoDispatch(_, _)));
    assert!(map.resolve(1).is_some());
}

#[test]
fn capabilities_are_used_through_one_trait() {
    let seen: Seen = Rc::default();
    let log = seen.clone();
    let typed = ImplDispatcher::new(decode_ping, move |request: Ping, main: Main, _data: DispatchData<'_>| {
        log.borrow_mut().push(format!("{}:{:?}", main.as_inner().id(), request))
    });
    assert!(!typed.default_capability());
    let mut capabilities: Vec<Box<dyn Dispatcher>> = vec![Box::new(default_dispatcher()), Box::new(typed)];
    let mut map = pingers(2, 2, ClientInner::new());
    let first = map.resolve(1).unwrap();
    let second = map.resolve(2).unwrap();
    let mut ctx = ();
    let deferred = capabilities[0].dispatch(
        raw(1, 0, vec![Argument::Uint(5)]),
        first,
        &mut map,
        DispatchData::wrap(&mut ctx),
    );
    let handled = capabilities[1].dispatch(
        raw(2, 0, vec![Argument::Uint(5)]),
        second,
        &mut map,
        DispatchData::wrap(&mut ctx),
    );
    assert!(matches!(deferred, Dispatched::NoDispatch(_, _)));
    assert!(matches!(handled, Dispatched::Yes));
    assert!(capabilities[0].default_capability());
    assert!(!capabilities[1].default_capability());
    assert_eq!(*seen.borrow(), vec!["2:Ping { serial: 5 }".to_string()]);
}

#[test]
fn request_at_exactly_the_negotiated_version_is_delivered() {
    let seen: Seen = Rc::default();
    let mut map = pingers(1, 2, ClientInner::new());
    let mut capability = make_dispatcher(decode_ping, listening(&seen));
    let resource = map.resolve(1).unwrap();
    let mut ctx = ();
    let outcome = capability.dispatch(
        raw(1, 0, vec![Argument::Uint(11)]),
        resource,
        &mut map,
        DispatchData::wrap(&mut ctx),
    );
    assert!(matches!(outcome, Dispatched::Yes));
    assert_eq!(*seen.borrow(), vec!["1:Ping { serial: 11 }".to_string()]);
}

#[test]
fn request_one_version_too_new_is_refused() {
    let seen: Seen = Rc::default();
    let mut map = pingers(1, 1, ClientInner::new());
    let mut capability = make_dispatcher(decode_ping, listening(&seen));
    let resource = map.resolve(1).unwrap();
    let mut ctx = ();
    let outcome = capability.dispatch(
        raw(1, 0, vec![Argument::Uint(11)]),
        resource,
        &mut map,
        DispatchData::wrap(&mut ctx),
    );
    assert!(matches!(outcome, Dispatched::BadMsg));
    assert!(seen.borrow().is_empty());
    assert!(map.is_alive(&resource));
}

#[test]
fn version_zero_object_refuses_every_versioned_request() {
    let seen: Seen = Rc::default();
    let mut map = pingers(1, 0, ClientInner::new());
    let mut capability = make_dispatcher(decode_ping, listening(&seen));
    let resource = map.resolve(1).unwrap();
    let mut ctx = ();
    let outcome =
        capability.dispatch(raw(1, 1, vec![]), resource, &mut map, DispatchData::wrap(&mut ctx));
    assert!(matches!(outcome, Dispatched::BadMsg));
    assert!(map.is_alive(&resource));
    assert!(map.resolve(1).is_some());
    assert!(map.client.scheduled().is_empty());
}

#[test]
fn decoder_resolves_object_arguments() {
    let seen: Seen = Rc::default();
    let mut map = pingers(3, 1, ClientInner::new());
    let mut capability = make_dispatcher(decode_ping, listening(&seen));
    let resource = map.resolve(1).unwrap();
    let mut ctx = ();
    let known = capability.dispatch(
        raw(1, 2, vec![Argument::Object(3)]),
        resource,
        &mut map,
        DispatchData::wrap(&mut ctx),
    );
    assert!(matches!(known, Dispatched::Yes));
    let unknown = capability.dispatch(
        raw(1, 2, vec![Argument::Object(4)]),
        resource,
        &mut map,
        DispatchData::wrap(&mut ctx),
    );
    assert!(matches!(unknown, Dispatched::BadMsg));
    let null = capability.dispatch(
        raw(1, 2, vec![Argument::Object(0)]),
        resource,
        &mut map,
        DispatchData::wrap(&mut ctx),
    );
    assert!(matches!(null, Dispatched::BadMsg));
    assert_eq!(
        *seen.borrow(),
        vec!["1:Bind { target: ResourceInnerCopy { id: 3, version: 1 } }".to_string()]
    );
}

#[test]
fn deliver_acts_on_the_decoders_answer() {
    let seen: Seen = Rc::default();
    let log = seen.clone();
    let mut capability =
        ImplDispatcher::new(decode_ping, move |request: Ping, main: Main, _data: DispatchData<'_>| {
            log.borrow_mut().push(format!("{}:{:?}", main.as_inner().id(), request))
        });
    let mut map = pingers(2, 3, ClientInner::new());
    let resource = map.resolve(2).unwrap();
    let mut ctx = ();
    let failed = capability.deliver(Err(()), resource, &mut map, DispatchData::wrap(&mut ctx));
    assert!(matches!(failed, Dispatched::BadMsg));
    let too_new = capability.deliver(
        Ok(Decoded { request: Ping::Release, since: 4, destructor: true }),
        resource,
        &mut map,
        DispatchData::wrap(&mut ctx),
    );
    assert!(matches!(too_new, Dispatched::BadMsg));
    assert!(map.is_alive(&resource));
    assert!(seen.borrow().is_empty());
    let fine = capability.deliver(
        Ok(Decoded { request: Ping::Release, since: 3, destructor: true }),
        resource,
        &mut map,
        DispatchData::wrap(&mut ctx),
    );
    assert!(matches!(fine, Dispatched::Yes));
    assert!(!map.is_alive(&resource));
    assert!(map.resolve(2).is_none());
    assert!(map.resolve(1).is_some());
    assert_eq!(*seen.borrow(), vec!["2:Release".to_string()]);
}

#[test]
fn destructor_without_connection_data_only_clears_the_flag() {
    let seen: Seen = Rc::default();
    let mut map = pingers(2, 1, ClientInner::gone());
    let mut capability = make_dispatcher(decode_ping, listening(&seen));
    let resource = map.resolve(2).unwrap();
    let mut ctx = ();
    let outcome =
        capability.dispatch(raw(2, 1, vec![]), resource, &mut map, DispatchData::wrap(&mut ctx));
    assert!(matches!(outcome, Dispatched::Yes));
    assert!(!map.is_alive(&resource));
    assert!(map.resolve(2).is_some());
    assert!(!map.client.has_data());
    assert!(!map.client.is_killed());
    assert!(map.client.scheduled().is_empty());
    assert_eq!(*seen.borrow(), vec!["2:Release".to_string()]);
    let other = map.resolve(1).unwrap();
    assert!(map.is_alive(&other));
}

#[test]
fn cleared_flag_is_never_set_again() {
    let seen: Seen = Rc::default();
    let mut map = pingers(1, 2, ClientInner::gone());
    let mut capability = make_dispatcher(decode_ping, listening(&seen));
    let resource = map.resolve(1).unwrap();
    let mut ctx = ();
    capability.dispatch(raw(1, 1, vec![]), resource, &mut map, DispatchData::wrap(&mut ctx));
    assert!(!map.is_alive(&resource));
    for (opcode, args) in [(0u16, vec![Argument::Uint(1)]), (1u16, vec![]), (7u16, vec![])] {
        capability.dispatch(raw(1, opcode, args), resource, &mut map, DispatchData::wrap(&mut ctx));
        assert!(!map.is_alive(&resource));
    }
    let _ = map.get(1, "xdg_pinger");
    let _ = map.get_new(1, "xdg_pinger");
    assert!(!map.is_alive(&resource));
}

#[test]
fn send_to_hands_the_event_to_the_filter() {
    let seen: Seen = Rc::default();
    let filter = listening(&seen);
    let mut ctx = ();
    let handle = ResourceInner { id: 21, interface: "xdg_pinger", version: 2 };
    send_to(&filter, Event::Destroyed(Resource::wrap(handle)), DispatchData::wrap(&mut ctx));
    send_to(
        &filter,
        Event::Request(Main::wrap(handle), Ping::Ping { serial: 3 }),
        DispatchData::wrap(&mut ctx),
    );
    assert_eq!(
        *seen.borrow(),
        vec!["21:destroyed".to_string(), "21:Ping { serial: 3 }".to_string()]
    );
}

#[test]
fn destructor_request_is_still_sent_to_the_filter() {
    let seen: Seen = Rc::default();
    let mut map = pingers(2, 1, ClientInner::new());
    let mut capability = make_dispatcher(decode_ping, listening(&seen));
    let stale = ResourceInner { id: 5, interface: "xdg_pinger", version: 1 };
    let mut ctx = ();
    let outcome =
        capability.dispatch(raw(5, 1, vec![]), stale, &mut map, DispatchData::wrap(&mut ctx));
    assert!(matches!(outcome, Dispatched::Yes));
    assert!(map.client.is_killed());
    assert_eq!(*seen.borrow(), vec!["5:Release".to_string()]);
}

#[test]
fn destructor_capability_tells_the_filter() {
    let seen: Seen = Rc::default();
    let mut destructor = make_destructor(listening(&seen));
    let mut ctx = ();
    destructor.call(
        ResourceInner { id: 12, interface: "xdg_pinger", version: 1 },
        DispatchData::wrap(&mut ctx),
    );
    assert_eq!(*seen.borrow(), vec!["12:destroyed".to_string()]);
}

#[test]
fn scheduled_destructors_run_once_each() {
    let seen: Seen = Rc::default();
    let mut map = pingers(3, 1, ClientInner::new());
    let mut capability = make_dispatcher(decode_ping, listening(&seen));
    let mut ctx = ();
    for id in [3u32, 1, 3] {
        let handle = ResourceInner { id, interface: "xdg_pinger", version: 1 };
        capability.dispatch(raw(id, 1, vec![]), handle, &mut map, DispatchData::wrap(&mut ctx));
    }
    let ran: Rc<RefCell<Vec<u32>>> = Rc::default();
    let sink = ran.clone();
    let mut destructor =
        ResourceDestructor::new(move |resource: ResourceInner, _data: DispatchData<'_>| {
            sink.borrow_mut().push(resource.id())
        });
    for resource in map.client.take_scheduled() {
        destructor.call(resource, DispatchData::wrap(&mut ctx));
    }
    assert_eq!(*ran.borrow(), vec![3, 1]);
    assert!(map.client.scheduled().is_empty());
    assert!(map.client.is_killed());
}
