//! The two message shapes the adapters reconcile, as plain data: the event
//! contract's request and response, and the framework-side request and
//! response, which differ only in how the body is represented. The spec
//! functions here state what it means for a message of one shape to stand
//! for a message of the other; the conversions promise exactly these
//! relations.

use vstd::prelude::*;
use crate::body::{Body, FrameworkBody, body_bytes, framework_body_bytes, classifies};

verus! {

/// An HTTP protocol version; conversions carry it through unchanged.
#[derive(Debug, PartialEq, Eq, Clone, Copy)]
pub enum HttpVersion {
    Http09,
    Http10,
    Http11,
    H2,
    H3,
}

/// One header entry. A header list is an ordered multimap that may repeat a
/// name; every conversion carries it through entry for entry, with no
/// reordering and no loss.
#[derive(Debug, PartialEq, Eq, Clone)]
pub struct HeaderPair {
    pub name: String,
    pub value: Vec<u8>,
}

/// Why an adapter refuses a call instead of producing an event response.
#[derive(Debug, PartialEq, Eq, Clone, Copy)]
pub enum AdapterError {
    /// The wrapped router did not report itself ready to accept a call.
    NotReady,
    /// A response body cannot be drained into memory, and the event contract
    /// has no way to stream a response.
    UnsupportedStreaming,
}

/// An inbound event request. The two side-channel slots carry the invocation
/// metadata of the caller's choosing — the invocation context and the raw
/// request context — when the inbound event had them.
#[derive(Debug, PartialEq, Eq, Clone)]
pub struct EventRequest<C, R> {
    pub method: String,
    pub uri: String,
    pub version: HttpVersion,
    pub headers: Vec<HeaderPair>,
    pub context: Option<C>,
    pub request_context: Option<R>,
    pub body: Body,
}

/// An event response, the single value a handler returns per invocation.
#[derive(Debug, PartialEq, Eq, Clone)]
pub struct EventResponse {
    pub status: u16,
    pub headers: Vec<HeaderPair>,
    pub body: Body,
}

/// A framework-side request: the same head fields next to a byte payload and
/// the two extension slots the framework exposes to its handlers.
#[derive(Debug, PartialEq, Eq, Clone)]
pub struct FrameworkRequest<C, R> {
    pub method: String,
    pub uri: String,
    pub version: HttpVersion,
    pub headers: Vec<HeaderPair>,
    pub payload: Vec<u8>,
    pub context: Option<C>,
    pub request_context: Option<R>,
}

/// A framework-side response: status and headers next to the framework's
/// body abstraction.
#[derive(Debug, PartialEq, Eq, Clone)]
pub struct FrameworkResponse {
    pub status: u16,
    pub headers: Vec<HeaderPair>,
    pub body: FrameworkBody,
}

/// The framework request that stands for an event request: every head field
/// carried over, the body union encoded as the byte payload, and each
/// side-channel slot attached exactly when the event carried it.
pub open spec fn framework_request_of<C, R>(
    f: FrameworkRequest<C, R>,
    q: EventRequest<C, R>,
) -> bool {
    &&& f.method@ == q.method@
    &&& f.uri@ == q.uri@
    &&& f.version == q.version
    &&& f.headers@ == q.headers@
    &&& f.payload@ == body_bytes(q.body)
    &&& f.context == q.context
    &&& f.request_context == q.request_context
}

/// The framework response that stands for an event response, as a framework
/// handler that echoes the event shape would emit it: an absent body is
/// reported absent, any other body is already buffered whole.
pub open spec fn framework_response_of(f: FrameworkResponse, r: EventResponse) -> bool {
    &&& f.status == r.status
    &&& f.headers@ == r.headers@
    &&& r.body is Empty ==> f.body is NoBody
    &&& !(r.body is Empty) ==> (f.body matches FrameworkBody::Buffered(v) && v@ == body_bytes(
        r.body,
    ))
}

/// The event response that stands for a framework response whose body could
/// be drained: status and headers carried over, the drained bytes classified
/// into the body union.
pub open spec fn event_response_of(e: EventResponse, f: FrameworkResponse) -> bool {
    &&& !(f.body is Unbufferable)
    &&& e.status == f.status
    &&& e.headers@ == f.headers@
    &&& classifies(framework_body_bytes(f.body), e.body)
}

} // verus!
