//! Verified conversion core for serving ordinary HTTP handlers through a
//! single request/response event call, and for serving event handlers behind
//! a local TCP listener.
//!
//! The crate models both calling conventions with plain data: an event
//! carries a method, a URI, a protocol version, an ordered header list, two
//! optional side-channel slots and a three-way body union; a framework
//! message carries the same head fields next to a byte payload. Every
//! conversion between the two shapes is an executable function with a
//! contract that pins the result down field for field, and the round-trip
//! guarantees of the conversions are stated as proof functions.
//!
//! The asynchronous plumbing around these conversions (dispatching into a
//! wrapped framework, draining its streamed bodies, listening on a socket)
//! cannot be expressed here; a thin unverified layer performs it and hands
//! this crate the plain values it gathered.

pub mod adapter;
pub mod body;
pub mod message;
pub mod request;
pub mod response;
