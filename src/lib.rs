//! Verified core of a publish/subscribe bridge for hosts that reach it through
//! opaque handles: reference counting, message views and header lookup,
//! subscription shutdown, the bounded publisher queue and the bounded
//! delivery queue, error objects, and the options of connects and requests.

pub mod api;
pub mod connection;
pub mod error;
pub mod message;
pub mod named_receiver;
pub mod named_sender;
pub mod refcount;
pub mod request;
pub mod runtime;
pub mod subscription;
