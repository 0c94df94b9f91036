//! The request-dispatch core of a Wayland server.
//!
//! A raw message addressed to a protocol object is decoded into a typed request, checked
//! against the interface version that was negotiated for the object, and delivered to the
//! application's sink. A destructor request also ends the life of its object.
//!
//! - [`registry`]: the table from object id to object record of one connection.
//! - [`resource`]: the handles by which objects are named.
//! - [`client`]: the queue of scheduled destructor callbacks and the termination mark.
//! - [`resource_map`]: registry and client of a connection, and what a request does to them.
//! - [`dispatch`]: the dispatch capabilities.
//! - [`destructor`]: the destructor capabilities.
//! - [`laws`]: what holds of every dispatch.
//! - [`commons`]: the types of `wayland_commons` that pass through.

pub mod client;
pub mod commons;
pub mod destructor;
pub mod dispatch;
pub mod laws;
pub mod registry;
pub mod resource;
pub mod resource_map;

pub use crate::client::ClientInner;
pub use crate::destructor::make_destructor;
pub use crate::destructor::ResourceDestructor;
pub use crate::dispatch::default_dispatcher;
pub use crate::dispatch::make_dispatcher;
pub use crate::dispatch::Decoded;
pub use crate::dispatch::DefaultDisp;
pub use crate::dispatch::Dispatched;
pub use crate::dispatch::Dispatcher;
pub use crate::dispatch::ImplDispatcher;
pub use crate::registry::Registry;
pub use crate::resource::Main;
pub use crate::resource::Resource;
pub use crate::resource::ResourceInner;
pub use crate::resource_map::ResourceMap;
